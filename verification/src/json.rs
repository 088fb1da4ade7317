//! JSON: text as a string literal that a script can hold.
use vstd::prelude::*;

verus! {

/// The lower-case hexadecimal digit of `value`, a number below sixteen.
pub open spec fn hexadecimal_digit(value: nat) -> char {
    if value < 10 {
        (48 + value) as char
    } else {
        (87 + value) as char
    }
}

/// What stands for one character in a JSON string.
pub open spec fn quoted_character(character: char) -> Seq<char> {
    if character == '"' || character == '\\' {
        seq!['\\', character]
    } else if character == '\n' {
        seq!['\\', 'n']
    } else if character == '\r' {
        seq!['\\', 'r']
    } else if character == '\t' {
        seq!['\\', 't']
    } else if character as nat == 8 {
        seq!['\\', 'b']
    } else if character as nat == 12 {
        seq!['\\', 'f']
    } else if (character as nat) < 32 {
        seq![
            '\\',
            'u',
            '0',
            '0',
            hexadecimal_digit(character as nat / 16),
            hexadecimal_digit(character as nat % 16),
        ]
    } else {
        seq![character]
    }
}

/// What stands for `text` between the quotes of a JSON string.
pub open spec fn quoted_characters(text: Seq<char>) -> Seq<char>
    decreases text.len(),
{
    if text.len() == 0 {
        Seq::empty()
    } else {
        quoted_characters(text.drop_last()) + quoted_character(text.last())
    }
}

/// `text` as a JSON string.
pub open spec fn quoted(text: Seq<char>) -> Seq<char> {
    seq!['"'] + quoted_characters(text) + seq!['"']
}

/// Calls `serde_json::to_string` on a text, which serialises without fail to the text between
/// double quotes: `"` and `\` behind a backslash, line feed, carriage return, tab, backspace
/// and form feed by their letter behind a backslash, every other character below 32 by its
/// number behind `\u`, and all others as they are.
#[verifier::external_body]
pub(crate) fn json_string(text: &str) -> (result: String)
    ensures
        result@ == quoted(text@),
{
    serde_json::to_string(text).unwrap()
}

/// No line break and no other control character stands in a JSON string.
pub proof fn law_quoted_has_no_control_characters(text: Seq<char>)
    ensures
        forall|i: int| 0 <= i < quoted(text).len() ==> (#[trigger] quoted(text)[i]) as nat >= 32,
{
    lemma_quoted_characters_printable(text);
    assert forall|i: int| 0 <= i < quoted(text).len() implies (
    #[trigger] quoted(text)[i]) as nat >= 32 by {
        let inner = quoted_characters(text);
        if 0 < i <= inner.len() {
            assert(quoted(text)[i] == inner[i - 1]);
        }
    }
}

/// The stand-in of the first character comes first.
proof fn lemma_quoted_front(text: Seq<char>)
    requires
        text.len() > 0,
    ensures
        quoted_characters(text) == quoted_character(text[0]) + quoted_characters(text.skip(1)),
    decreases text.len(),
{
    let shorter = text.drop_last();
    if shorter.len() == 0 {
        assert(text.skip(1) =~= Seq::<char>::empty());
        assert(quoted_characters(shorter) =~= Seq::<char>::empty());
        assert(quoted_characters(text) =~= quoted_character(text[0]) + quoted_characters(
            text.skip(1),
        ));
    } else {
        lemma_quoted_front(shorter);
        assert(shorter.skip(1) =~= text.skip(1).drop_last());
        assert(quoted_characters(text) =~= quoted_character(text[0]) + quoted_characters(
            text.skip(1),
        ));
    }
}

/// Different hexadecimal digits stand for different numbers.
proof fn lemma_hexadecimal_digits_differ(left: nat, right: nat)
    requires
        left < 16,
        right < 16,
        hexadecimal_digit(left) == hexadecimal_digit(right),
    ensures
        left == right,
{
    assert(hexadecimal_digit(left) as nat == if left < 10 {
        48 + left
    } else {
        87 + left
    });
    assert(hexadecimal_digit(right) as nat == if right < 10 {
        48 + right
    } else {
        87 + right
    });
}

/// Characters whose stand-ins begin alike, as far as both go, are alike.
proof fn lemma_quoted_character_told_apart(left: char, right: char)
    requires
        forall|i: int|
            0 <= i < quoted_character(left).len() && i < quoted_character(right).len()
                ==> quoted_character(left)[i] == quoted_character(right)[i],
    ensures
        left == right,
{
    let left_first = quoted_character(left);
    let right_first = quoted_character(right);
    assert(left_first[0] == right_first[0]);
    if left_first.len() > 1 && right_first.len() > 1 {
        assert(left_first[1] == right_first[1]);
    }
    if left_first.len() > 2 && right_first.len() > 2 {
        assert(left_first[4] == right_first[4]);
        assert(left_first[5] == right_first[5]);
        lemma_hexadecimal_digits_differ(left as nat / 16, right as nat / 16);
        lemma_hexadecimal_digits_differ(left as nat % 16, right as nat % 16);
    }
}

/// Between the quotes, too, texts that are written alike are alike.
proof fn lemma_quoted_characters_injective(left: Seq<char>, right: Seq<char>)
    requires
        quoted_characters(left) == quoted_characters(right),
    ensures
        left == right,
    decreases left.len(),
{
    if left.len() > 0 {
        lemma_quoted_front(left);
    }
    if right.len() > 0 {
        lemma_quoted_front(right);
    }
    if left.len() == 0 || right.len() == 0 {
        if left.len() > 0 {
            assert(quoted_characters(left).len() > 0);
        }
        if right.len() > 0 {
            assert(quoted_characters(right).len() > 0);
        }
        assert(left =~= right);
    } else {
        let left_first = quoted_character(left[0]);
        let right_first = quoted_character(right[0]);
        let whole = quoted_characters(left);
        assert forall|i: int| 0 <= i < left_first.len() && i < right_first.len() implies
            left_first[i] == right_first[i] by {
            assert(whole[i] == left_first[i]);
            assert(whole[i] == right_first[i]);
        }
        lemma_quoted_character_told_apart(left[0], right[0]);
        assert(whole.skip(left_first.len() as int) =~= quoted_characters(left.skip(1)));
        assert(whole.skip(right_first.len() as int) =~= quoted_characters(right.skip(1)));
        lemma_quoted_characters_injective(left.skip(1), right.skip(1));
        assert(left =~= seq![left[0]] + left.skip(1));
        assert(right =~= seq![right[0]] + right.skip(1));
    }
}

/// A JSON string loses nothing: texts that are written alike are alike.
pub proof fn law_quoted_is_injective(left: Seq<char>, right: Seq<char>)
    requires
        quoted(left) == quoted(right),
    ensures
        left == right,
{
    assert(quoted(left).subrange(1, quoted(left).len() - 1) =~= quoted_characters(left));
    assert(quoted(right).subrange(1, quoted(right).len() - 1) =~= quoted_characters(right));
    lemma_quoted_characters_injective(left, right);
}

/// No control character stands between the quotes.
proof fn lemma_quoted_characters_printable(text: Seq<char>)
    ensures
        forall|i: int|
            0 <= i < quoted_characters(text).len() ==> (
            #[trigger] quoted_characters(text)[i]) as nat >= 32,
    decreases text.len(),
{
    if text.len() > 0 {
        lemma_quoted_characters_printable(text.drop_last());
        let shorter = quoted_characters(text.drop_last());
        let tail = quoted_character(text.last());
        assert forall|i: int| 0 <= i < quoted_characters(text).len() implies (
        #[trigger] quoted_characters(text)[i]) as nat >= 32 by {
            if i < shorter.len() {
                assert(quoted_characters(text)[i] == shorter[i]);
            } else {
                assert(quoted_characters(text)[i] == tail[i - shorter.len()]);
            }
        }
    }
}

} // verus!
