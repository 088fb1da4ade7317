//! HTML: text that is safe between tags and inside quoted attributes.
use crate::text;
use vstd::prelude::*;

verus! {

/// What stands for one character in HTML text.
pub open spec fn escaped_character(character: char) -> Seq<char> {
    if character == '&' {
        "&amp;"@
    } else if character == '<' {
        "&lt;"@
    } else if character == '>' {
        "&gt;"@
    } else if character == '"' {
        "&quot;"@
    } else {
        seq![character]
    }
}

/// What stands for `text` in HTML: each character's stand-in, in order.
pub open spec fn escaped(text: Seq<char>) -> Seq<char>
    decreases text.len(),
{
    if text.len() == 0 {
        Seq::empty()
    } else {
        escaped(text.drop_last()) + escaped_character(text.last())
    }
}

/// Escapes the characters that HTML reserves.
pub fn escape_html(text: &str) -> (result: String)
    ensures
        result@ == escaped(text@),
{
    let source = text::characters(text);
    let mut escaped_text = String::new();
    let mut position: usize = 0;
    assert(text@.take(0) =~= Seq::<char>::empty());
    while position < source.len()
        invariant
            position <= source@.len(),
            source@ == text@,
            escaped_text@ == escaped(text@.take(position as int)),
        decreases source@.len() - position,
    {
        let character = source[position];
        let ghost longer = text@.take(position + 1);
        assert(longer.drop_last() =~= text@.take(position as int));
        assert(longer.last() == character);
        if character == '&' {
            escaped_text.append("&amp;");
        } else if character == '<' {
            escaped_text.append("&lt;");
        } else if character == '>' {
            escaped_text.append("&gt;");
        } else if character == '"' {
            escaped_text.append("&quot;");
        } else {
            let ghost before = escaped_text@;
            escaped_text.push(character);
            assert(before.push(character) =~= before + seq![character]);
        }
        position = position + 1;
    }
    assert(text@.take(position as int) =~= text@);
    escaped_text
}

/// No character of an escaped text opens or closes a tag or ends a quoted attribute.
pub proof fn law_escaped_is_inert(text: Seq<char>)
    ensures
        !escaped(text).contains('<'),
        !escaped(text).contains('>'),
        !escaped(text).contains('"'),
    decreases text.len(),
{
    reveal_strlit("&amp;");
    reveal_strlit("&lt;");
    reveal_strlit("&gt;");
    reveal_strlit("&quot;");
    if text.len() > 0 {
        law_escaped_is_inert(text.drop_last());
        let shorter = escaped(text.drop_last());
        let tail = escaped_character(text.last());
        assert forall|i: int| 0 <= i < escaped(text).len() implies escaped(text)[i] != '<'
            && escaped(text)[i] != '>' && escaped(text)[i] != '"' by {
            if i < shorter.len() {
                assert(shorter.contains(shorter[i]));
                assert(escaped(text)[i] == shorter[i]);
            } else {
                assert(escaped(text)[i] == tail[i - shorter.len()]);
            }
        }
    }
}

/// Texts escape piece by piece.
pub proof fn lemma_escaped_concat(left: Seq<char>, right: Seq<char>)
    ensures
        escaped(left + right) == escaped(left) + escaped(right),
    decreases right.len(),
{
    if right.len() == 0 {
        assert(left + right =~= left);
        assert(escaped(left) + escaped(right) =~= escaped(left));
    } else {
        assert((left + right).drop_last() =~= left + right.drop_last());
        lemma_escaped_concat(left, right.drop_last());
        assert(escaped(left + right) =~= escaped(left) + escaped(right));
    }
}

/// The stand-in of the first character comes first.
proof fn lemma_escaped_front(text: Seq<char>)
    requires
        text.len() > 0,
    ensures
        escaped(text) == escaped_character(text[0]) + escaped(text.skip(1)),
{
    let first = seq![text[0]];
    assert(text =~= first + text.skip(1));
    lemma_escaped_concat(first, text.skip(1));
    reveal_with_fuel(escaped, 2);
    assert(first.drop_last() =~= Seq::<char>::empty());
    assert(escaped(first) =~= escaped_character(text[0]));
}

/// Escaping loses nothing: texts that escape alike are alike.
pub proof fn law_escape_is_injective(left: Seq<char>, right: Seq<char>)
    requires
        escaped(left) == escaped(right),
    ensures
        left == right,
    decreases left.len(),
{
    reveal_strlit("&amp;");
    reveal_strlit("&lt;");
    reveal_strlit("&gt;");
    reveal_strlit("&quot;");
    if left.len() > 0 {
        lemma_escaped_front(left);
    }
    if right.len() > 0 {
        lemma_escaped_front(right);
    }
    if left.len() == 0 || right.len() == 0 {
        if left.len() > 0 {
            assert(escaped_character(left[0]).len() > 0);
            assert(escaped(left).len() > 0);
        }
        if right.len() > 0 {
            assert(escaped_character(right[0]).len() > 0);
            assert(escaped(right).len() > 0);
        }
        assert(left =~= right);
    } else {
        let left_first = escaped_character(left[0]);
        let right_first = escaped_character(right[0]);
        assert(escaped(left)[0] == left_first[0]);
        assert(escaped(right)[0] == right_first[0]);
        if left_first.len() > 1 && right_first.len() > 1 {
            assert(escaped(left)[1] == left_first[1]);
            assert(escaped(right)[1] == right_first[1]);
        }
        assert(left[0] == right[0]);
        assert(escaped(left).skip(left_first.len() as int) =~= escaped(left.skip(1)));
        assert(escaped(right).skip(right_first.len() as int) =~= escaped(right.skip(1)));
        law_escape_is_injective(left.skip(1), right.skip(1));
        assert(left =~= seq![left[0]] + left.skip(1));
        assert(right =~= seq![right[0]] + right.skip(1));
    }
}

/// Replacing a single character works piece by piece.
proof fn lemma_replaced_concat(left: Seq<char>, right: Seq<char>, pattern: Seq<char>, into: Seq<char>)
    requires
        pattern.len() == 1,
    ensures
        text::replaced(left + right, pattern, into) == text::replaced(left, pattern, into)
            + text::replaced(right, pattern, into),
    decreases left.len(),
{
    if left.len() == 0 {
        assert(left + right =~= right);
        assert(text::replaced(left, pattern, into) + text::replaced(right, pattern, into)
            =~= text::replaced(right, pattern, into));
    } else {
        let whole = left + right;
        assert(whole.skip(1) =~= left.skip(1) + right);
        lemma_replaced_concat(left.skip(1), right, pattern, into);
        assert(whole.subrange(0, 1) =~= seq![whole[0]]);
        assert(left.subrange(0, 1) =~= seq![left[0]]);
        assert(text::replaced(whole, pattern, into) =~= text::replaced(left, pattern, into)
            + text::replaced(right, pattern, into));
    }
}

/// Replacing the four reserved characters one after the other, `&` first.
pub open spec fn replaced_in_turn(text: Seq<char>) -> Seq<char> {
    let ampersands = text::replaced(text, "&"@, "&amp;"@);
    let quotes = text::replaced(ampersands, "\""@, "&quot;"@);
    let openings = text::replaced(quotes, "<"@, "&lt;"@);
    text::replaced(openings, ">"@, "&gt;"@)
}

/// What a single character becomes when the reserved ones are replaced in turn.
proof fn lemma_replaced_in_turn_character(character: char)
    ensures
        replaced_in_turn(seq![character]) == escaped_character(character),
{
    reveal_strlit("&");
    reveal_strlit("\"");
    reveal_strlit("<");
    reveal_strlit(">");
    reveal_strlit("&amp;");
    reveal_strlit("&lt;");
    reveal_strlit("&gt;");
    reveal_strlit("&quot;");
    lemma_replaced_absent_or_single(seq![character], '&', "&"@, "&amp;"@);
    let ampersands = text::replaced(seq![character], "&"@, "&amp;"@);
    lemma_replaced_absent_or_single(ampersands, '"', "\""@, "&quot;"@);
    let quotes = text::replaced(ampersands, "\""@, "&quot;"@);
    lemma_replaced_absent_or_single(quotes, '<', "<"@, "&lt;"@);
    let openings = text::replaced(quotes, "<"@, "&lt;"@);
    lemma_replaced_absent_or_single(openings, '>', ">"@, "&gt;"@);
}

/// Replacing a character exchanges a text made of it alone and leaves a text without it as it is.
proof fn lemma_replaced_absent_or_single(
    text: Seq<char>,
    character: char,
    pattern: Seq<char>,
    into: Seq<char>,
)
    requires
        pattern =~= seq![character],
    ensures
        text =~= seq![character] ==> text::replaced(text, pattern, into) == into,
        (forall|i: int| 0 <= i < text.len() ==> text[i] != character) ==> text::replaced(
            text,
            pattern,
            into,
        ) == text,
    decreases text.len(),
{
    if text.len() > 0 {
        assert(text.subrange(0, 1) =~= seq![text[0]]);
        lemma_replaced_absent_or_single(text.skip(1), character, pattern, into);
        if text =~= seq![character] {
            assert(text.skip(1) =~= Seq::<char>::empty());
            assert(text::replaced(text, pattern, into) =~= into);
        }
        if forall|i: int| 0 <= i < text.len() ==> text[i] != character {
            assert forall|i: int| 0 <= i < text.skip(1).len() implies text.skip(1)[i]
                != character by {
                assert(text.skip(1)[i] == text[i + 1]);
            }
            assert(pattern[0] == character);
            assert(text::replaced(text, pattern, into) =~= text);
        }
    }
}

/// Replacing the reserved characters in turn escapes a text, because no later replacement
/// meets what an earlier one has put there.
pub proof fn law_replaced_in_turn_is_escaped(text: Seq<char>)
    ensures
        replaced_in_turn(text) == escaped(text),
    decreases text.len(),
{
    reveal_strlit("&");
    reveal_strlit("\"");
    reveal_strlit("<");
    reveal_strlit(">");
    if text.len() == 0 {
        assert(replaced_in_turn(text) =~= escaped(text));
    } else {
        let shorter = text.drop_last();
        let last = seq![text.last()];
        assert(text =~= shorter + last);
        law_replaced_in_turn_is_escaped(shorter);
        lemma_replaced_in_turn_character(text.last());
        lemma_replaced_concat(shorter, last, "&"@, "&amp;"@);
        let (front, back) = (
            text::replaced(shorter, "&"@, "&amp;"@),
            text::replaced(last, "&"@, "&amp;"@),
        );
        lemma_replaced_concat(front, back, "\""@, "&quot;"@);
        let (front, back) = (
            text::replaced(front, "\""@, "&quot;"@),
            text::replaced(back, "\""@, "&quot;"@),
        );
        lemma_replaced_concat(front, back, "<"@, "&lt;"@);
        let (front, back) = (
            text::replaced(front, "<"@, "&lt;"@),
            text::replaced(back, "<"@, "&lt;"@),
        );
        lemma_replaced_concat(front, back, ">"@, "&gt;"@);
    }
}

/// The four reserved characters have their entities, and every other character stands for itself,
/// wherever in a text it is.
pub proof fn law_escaped_one_by_one(before: Seq<char>, character: char, behind: Seq<char>)
    ensures
        escaped(Seq::empty()) == Seq::<char>::empty(),
        escaped(before + seq![character] + behind) == escaped(before) + (match character {
            '&' => "&amp;"@,
            '<' => "&lt;"@,
            '>' => "&gt;"@,
            '"' => "&quot;"@,
            _ => seq![character],
        }) + escaped(behind),
{
    lemma_escaped_concat(before + seq![character], behind);
    lemma_escaped_concat(before, seq![character]);
    lemma_escaped_front(seq![character]);
    assert(seq![character].skip(1) =~= Seq::<char>::empty());
    assert(escaped(seq![character]) =~= escaped_character(character));
}

} // verus!
