//! Text: characters, decimal numbers, replacement and order.
use vstd::prelude::*;

verus! {

/// `String::push` appends one character and leaves what was there before it unchanged.
pub assume_specification[ std::string::String::push ](target: &mut String, character: char)
    ensures
        final(target)@ == old(target)@.push(character),
;

/// The characters of `text`, in order.
pub fn characters(text: &str) -> (result: Vec<char>)
    ensures
        result@ == text@,
{
    let mut result: Vec<char> = Vec::new();
    for character in it: text.chars()
        invariant
            it.seq() == text@,
            result@ == text@.take(it.index() as int),
    {
        result.push(character);
    }
    assert(text@.take(text@.len() as int) =~= text@);
    result
}

/// The decimal digit of `value`, a number below ten.
pub open spec fn digit(value: nat) -> char {
    (48 + value) as char
}

/// `value` in decimal, without leading zeros.
pub open spec fn decimal(value: nat) -> Seq<char>
    decreases value,
{
    if value < 10 {
        seq![digit(value)]
    } else {
        decimal(value / 10).push(digit(value % 10))
    }
}

/// Writes `value` in decimal.
pub fn decimal_text(value: u64) -> (result: String)
    ensures
        result@ == decimal(value as nat),
    decreases value,
{
    let last: char = (48u8 + (value % 10) as u8) as char;
    let mut result = if value < 10 {
        String::new()
    } else {
        decimal_text(value / 10)
    };
    result.push(last);
    assert(result@ =~= decimal(value as nat));
    result
}

/// Whether `character` is a decimal digit.
pub open spec fn is_digit(character: char) -> bool {
    '0' <= character <= '9'
}

/// Whether every character of `text` is a decimal digit, and there is one.
pub open spec fn are_digits(text: Seq<char>) -> bool {
    &&& text.len() > 0
    &&& forall|i: int| 0 <= i < text.len() ==> is_digit(#[trigger] text[i])
}

/// The number that a row of decimal digits stands for.
pub open spec fn number(digits: Seq<char>) -> nat
    decreases digits.len(),
{
    if digits.len() == 0 {
        0
    } else {
        number(digits.drop_last()) * 10 + (digits.last() as nat - 48) as nat
    }
}

/// The digits of a written number: what follows one leading `+`, if there is one.
pub open spec fn unsigned_digits(text: Seq<char>) -> Seq<char> {
    if text.len() > 0 && text[0] == '+' {
        text.skip(1)
    } else {
        text
    }
}

/// The machine word that `text` writes: digits, at least one, after at most one `+`, whose
/// number fits in a word.
pub open spec fn parsed_word(text: Seq<char>) -> Option<usize> {
    let digits = unsigned_digits(text);
    if digits.len() > 0 && (forall|i: int|
        0 <= i < digits.len() ==> is_digit(#[trigger] digits[i])) && number(digits) <= usize::MAX {
        Some(number(digits) as usize)
    } else {
        None
    }
}

/// More digits never make the number smaller.
proof fn lemma_number_grows(digits: Seq<char>, length: int)
    requires
        0 <= length <= digits.len(),
    ensures
        number(digits.take(length)) <= number(digits),
    decreases digits.len() - length,
{
    if length == digits.len() {
        assert(digits.take(length) =~= digits);
    } else {
        lemma_number_grows(digits, length + 1);
        assert(digits.take(length + 1).drop_last() =~= digits.take(length));
    }
}

/// Reads a machine word.
pub fn parse_word(text: &str) -> (result: Option<usize>)
    ensures
        result == parsed_word(text@),
{
    let source = characters(text);
    let mut position: usize = 0;
    if source.len() > 0 && source[0] == '+' {
        position = 1;
    }
    let ghost digits = unsigned_digits(text@);
    let ghost start = position as int;
    if position == source.len() {
        return None;
    }
    let mut value: usize = 0;
    assert(digits.take(0) =~= Seq::<char>::empty());
    while position < source.len()
        invariant
            0 <= start <= position <= source@.len(),
            source@ == text@,
            digits == unsigned_digits(text@),
            digits =~= source@.skip(start),
            digits.len() > 0,
            forall|i: int| 0 <= i < position - start ==> is_digit(#[trigger] digits[i]),
            value == number(digits.take(position - start)),
        decreases source@.len() - position,
    {
        let character = source[position];
        assert(digits[position - start] == character);
        if !('0' <= character && character <= '9') {
            return None;
        }
        let unit: usize = character as usize - 48;
        proof {
            let longer = digits.take(position - start + 1);
            assert(longer.drop_last() =~= digits.take(position - start));
            assert(longer.last() == character);
            lemma_number_grows(digits, position - start + 1);
        }
        match value.checked_mul(10) {
            None => {
                return None;
            },
            Some(tens) => {
                match tens.checked_add(unit) {
                    None => {
                        return None;
                    },
                    Some(sum) => {
                        value = sum;
                    },
                }
            },
        }
        position = position + 1;
    }
    assert(digits.take(position - start) =~= digits);
    Some(value)
}

/// Reading the decimal form of a number gives that number back.
pub proof fn lemma_number_of_decimal(value: nat)
    ensures
        number(decimal(value)) == value,
        decimal(value).len() > 0,
        forall|i: int| 0 <= i < decimal(value).len() ==> is_digit(#[trigger] decimal(value)[i]),
    decreases value,
{
    reveal_with_fuel(number, 2);
    if value < 10 {
        assert(decimal(value).drop_last() =~= Seq::<char>::empty());
    } else {
        lemma_number_of_decimal(value / 10);
        assert(decimal(value).drop_last() =~= decimal(value / 10));
    }
}

/// Every machine word can be read back from its decimal form.
pub proof fn lemma_parsed_decimal(value: usize)
    ensures
        parsed_word(decimal(value as nat)) == Some(value),
{
    lemma_number_of_decimal(value as nat);
    assert(is_digit(decimal(value as nat)[0]));
}

/// Two numbers with the same decimal form are the same number.
pub proof fn lemma_decimal_injective(left: nat, right: nat)
    requires
        decimal(left) == decimal(right),
    ensures
        left == right,
{
    lemma_number_of_decimal(left);
    lemma_number_of_decimal(right);
}

/// Whether two texts hold the same characters.
pub fn same_text(left: &str, right: &str) -> (result: bool)
    ensures
        result == (left@ == right@),
{
    left.to_owned() == right.to_owned()
}

/// Whether `pattern` stands in `text` at `position`.
pub open spec fn occurs_at(text: Seq<char>, position: int, pattern: Seq<char>) -> bool {
    &&& 0 <= position
    &&& position + pattern.len() <= text.len()
    &&& text.subrange(position, position + pattern.len()) == pattern
}

/// Whether `text` begins with `prefix`.
pub open spec fn begins_with(text: Seq<char>, prefix: Seq<char>) -> bool {
    occurs_at(text, 0, prefix)
}

/// Whether `text` ends with `suffix`.
pub open spec fn ends_with(text: Seq<char>, suffix: Seq<char>) -> bool {
    occurs_at(text, text.len() - suffix.len(), suffix)
}

/// Tells whether `pattern` stands in `text` at `position`.
pub fn found_at(text: &Vec<char>, position: usize, pattern: &Vec<char>) -> (result: bool)
    requires
        position <= text@.len(),
    ensures
        result == occurs_at(text@, position as int, pattern@),
{
    if pattern.len() > text.len() - position {
        return false;
    }
    let mut offset: usize = 0;
    while offset < pattern.len()
        invariant
            offset <= pattern@.len(),
            position + pattern@.len() <= text.len(),
            forall|k: int| 0 <= k < offset ==> text@[position + k] == pattern@[k],
        decreases pattern@.len() - offset,
    {
        if text[position + offset] != pattern[offset] {
            assert(text@.subrange(position as int, position + pattern@.len())[offset as int]
                != pattern@[offset as int]);
            return false;
        }
        offset = offset + 1;
    }
    assert(text@.subrange(position as int, position + pattern@.len()) =~= pattern@);
    true
}

/// `text` with every occurrence of `pattern` exchanged for `replacement`. Occurrences are taken
/// from the front, and none overlaps the one taken before it.
pub open spec fn replaced(text: Seq<char>, pattern: Seq<char>, replacement: Seq<char>) -> Seq<char>
    decreases text.len(),
{
    if pattern.len() == 0 || text.len() == 0 {
        text
    } else if begins_with(text, pattern) {
        replacement + replaced(text.skip(pattern.len() as int), pattern, replacement)
    } else {
        seq![text[0]] + replaced(text.skip(1), pattern, replacement)
    }
}

/// Exchanges every occurrence of `pattern` in `text` for `replacement`.
pub fn replace(text: &str, pattern: &str, replacement: &str) -> (result: String)
    requires
        pattern@.len() > 0,
    ensures
        result@ == replaced(text@, pattern@, replacement@),
{
    let source = characters(text);
    let sought = characters(pattern);
    let mut result = String::new();
    let mut position: usize = 0;
    assert(source@.skip(0) =~= source@);
    while position < source.len()
        invariant
            position <= source@.len(),
            sought@ == pattern@,
            pattern@.len() > 0,
            source@ == text@,
            result@ + replaced(source@.skip(position as int), pattern@, replacement@) == replaced(
                text@,
                pattern@,
                replacement@,
            ),
        decreases source@.len() - position,
    {
        let ghost rest = source@.skip(position as int);
        let ghost before = result@;
        assert(rest[0] == source@[position as int]);
        let found = found_at(&source, position, &sought);
        proof {
            if position + pattern@.len() <= source@.len() {
                assert(rest.subrange(0, pattern@.len() as int) =~= source@.subrange(
                    position as int,
                    position + pattern@.len(),
                ));
            }
        }
        if found {
            result.append(replacement);
            assert(rest.skip(pattern@.len() as int) =~= source@.skip(position + pattern@.len()));
            assert(before + (replacement@ + replaced(
                rest.skip(pattern@.len() as int),
                pattern@,
                replacement@,
            )) =~= result@ + replaced(
                source@.skip(position + pattern@.len()),
                pattern@,
                replacement@,
            ));
            position = position + sought.len();
        } else {
            result.push(source[position]);
            assert(rest.skip(1) =~= source@.skip(position + 1));
            assert(before + (seq![rest[0]] + replaced(rest.skip(1), pattern@, replacement@))
                =~= result@ + replaced(source@.skip(position + 1), pattern@, replacement@));
            position = position + 1;
        }
    }
    assert(result@ =~= replaced(text@, pattern@, replacement@)) by {
        assert(source@.skip(position as int) =~= Seq::<char>::empty());
    }
    result
}

/// The order of texts by their characters' scalar values: the first difference decides, and a
/// text comes after its own beginnings.
pub open spec fn precedes(left: Seq<char>, right: Seq<char>) -> bool
    decreases left.len(),
{
    if right.len() == 0 {
        false
    } else if left.len() == 0 {
        true
    } else if left[0] != right[0] {
        left[0] < right[0]
    } else {
        precedes(left.skip(1), right.skip(1))
    }
}

/// Tells whether `left` comes strictly before `right`.
pub fn comes_before(left: &str, right: &str) -> (result: bool)
    ensures
        result == precedes(left@, right@),
{
    let first = characters(left);
    let second = characters(right);
    let mut position: usize = 0;
    assert(first@.skip(0) =~= first@);
    assert(second@.skip(0) =~= second@);
    while position < first.len() && position < second.len()
        invariant
            position <= first@.len(),
            position <= second@.len(),
            precedes(first@.skip(position as int), second@.skip(position as int)) == precedes(
                left@,
                right@,
            ),
        decreases first@.len() - position,
    {
        let ghost first_rest = first@.skip(position as int);
        let ghost second_rest = second@.skip(position as int);
        if first[position] != second[position] {
            return first[position] < second[position];
        }
        assert(first_rest.skip(1) =~= first@.skip(position + 1));
        assert(second_rest.skip(1) =~= second@.skip(position + 1));
        position = position + 1;
    }
    position < second.len()
}

/// Nothing comes before itself.
pub proof fn lemma_precedes_irreflexive(text: Seq<char>)
    ensures
        !precedes(text, text),
    decreases text.len(),
{
    if text.len() > 0 {
        lemma_precedes_irreflexive(text.skip(1));
    }
}

/// Of two texts at most one comes before the other, and one does unless they are equal.
pub proof fn lemma_precedes_total(left: Seq<char>, right: Seq<char>)
    ensures
        !(precedes(left, right) && precedes(right, left)),
        precedes(left, right) || precedes(right, left) || left == right,
    decreases left.len(),
{
    if left.len() > 0 && right.len() > 0 && left[0] == right[0] {
        lemma_precedes_total(left.skip(1), right.skip(1));
        if left.skip(1) == right.skip(1) {
            assert(left =~= seq![left[0]] + left.skip(1));
            assert(right =~= seq![right[0]] + right.skip(1));
        }
    } else if left.len() == 0 && right.len() == 0 {
        assert(left =~= right);
    }
}

/// The order carries over from one text to the next.
pub proof fn lemma_precedes_transitive(left: Seq<char>, middle: Seq<char>, right: Seq<char>)
    requires
        precedes(left, middle),
        precedes(middle, right),
    ensures
        precedes(left, right),
    decreases left.len(),
{
    if left.len() > 0 && left[0] == middle[0] && middle[0] == right[0] {
        lemma_precedes_transitive(left.skip(1), middle.skip(1), right.skip(1));
    }
}

/// Writing a number puts its digits in a row: those of its tens, and then its last.
pub proof fn law_decimal_digits(tens: nat, unit: nat)
    requires
        unit < 10,
    ensures
        tens > 0 ==> decimal(10 * tens + unit) == decimal(tens) + decimal(unit),
        decimal(unit) == seq![('0' as nat + unit) as char],
{
    assert(decimal(unit) =~= seq![('0' as nat + unit) as char]);
    if tens > 0 {
        let value = 10 * tens + unit;
        assert(value / 10 == tens);
        assert(value % 10 == unit);
        assert(decimal(value) =~= decimal(tens) + decimal(unit));
    }
}

/// Every digit more multiplies the number by ten and adds its own.
pub proof fn law_number_digits(digits: Seq<char>, unit: nat)
    requires
        unit < 10,
    ensures
        number(Seq::<char>::empty()) == 0,
        number(digits.push(('0' as nat + unit) as char)) == 10 * number(digits) + unit,
{
    let longer = digits.push(('0' as nat + unit) as char);
    assert(longer.drop_last() =~= digits);
}

/// A row of digits without a leading zero is how its number is written.
pub proof fn law_decimal_is_the_only_form(digits: Seq<char>)
    requires
        are_digits(digits),
        digits.len() > 1 ==> digits[0] != '0',
    ensures
        decimal(number(digits)) == digits,
        digits[0] != '0' ==> number(digits) > 0,
    decreases digits.len(),
{
    let shorter = digits.drop_last();
    let last = digits.last();
    assert(is_digit(digits[digits.len() - 1]));
    let unit = (last as nat - 48) as nat;
    assert(digit(unit) == last);
    if shorter.len() == 0 {
        assert(number(shorter) == 0);
        assert(number(digits) == unit);
        assert(digits =~= seq![last]);
    } else {
        assert forall|i: int| 0 <= i < shorter.len() implies is_digit(#[trigger] shorter[i]) by {
            assert(is_digit(digits[i]));
        }
        assert(shorter[0] == digits[0]);
        law_decimal_is_the_only_form(shorter);
        let tens = number(shorter);
        assert(number(digits) == tens * 10 + unit);
        assert((tens * 10 + unit) / 10 == tens);
        assert((tens * 10 + unit) % 10 == unit);
        assert(decimal(number(digits)) =~= digits);
    }
}

/// A text is read as a machine word exactly if it is digits whose number fits, or such digits
/// behind one `+`. Zeros in front do not matter.
pub proof fn law_parsed_words(text: Seq<char>)
    ensures
        are_digits(text) && number(text) <= usize::MAX ==> {
            &&& parsed_word(text) == Some(number(text) as usize)
            &&& parsed_word(seq!['+'] + text) == Some(number(text) as usize)
            &&& parsed_word(seq!['0'] + text) == Some(number(text) as usize)
        },
        are_digits(text) && number(text) > usize::MAX ==> {
            &&& parsed_word(text) is None
            &&& parsed_word(seq!['+'] + text) is None
        },
        parsed_word(text) is Some ==> are_digits(text) || (text.len() > 0 && text[0] == '+'
            && are_digits(text.skip(1))),
{
    let signed = seq!['+'] + text;
    assert(signed.skip(1) =~= text);
    if are_digits(text) {
        assert(is_digit(text[0]));
        let padded = seq!['0'] + text;
        lemma_number_behind_zero(text);
        assert forall|i: int| 0 <= i < padded.len() implies is_digit(#[trigger] padded[i]) by {
            if i > 0 {
                assert(padded[i] == text[i - 1]);
            }
        }
    }
}

/// A zero in front of some digits does not change their number.
proof fn lemma_number_behind_zero(digits: Seq<char>)
    ensures
        number(seq!['0'] + digits) == number(digits),
    decreases digits.len(),
{
    let padded = seq!['0'] + digits;
    if digits.len() == 0 {
        reveal_with_fuel(number, 2);
        assert(padded.drop_last() =~= Seq::<char>::empty());
    } else {
        assert(padded.drop_last() =~= seq!['0'] + digits.drop_last());
        lemma_number_behind_zero(digits.drop_last());
    }
}

/// A text begins with another, or ends with it, exactly if it is the other with something behind
/// it, or before it.
pub proof fn law_beginnings_and_ends(text: Seq<char>, part: Seq<char>, rest: Seq<char>)
    ensures
        begins_with(part + rest, part),
        ends_with(rest + part, part),
        begins_with(text, part) ==> text == part + text.skip(part.len() as int),
        ends_with(text, part) ==> text == text.take(text.len() - part.len()) + part,
{
    assert((part + rest).subrange(0, part.len() as int) =~= part);
    assert((rest + part).subrange(rest.len() as int, (rest + part).len() as int) =~= part);
    if begins_with(text, part) {
        assert(text =~= part + text.skip(part.len() as int));
    }
    if ends_with(text, part) {
        assert(text =~= text.take(text.len() - part.len()) + part);
    }
}

/// A text without a pattern is left as it is.
pub proof fn law_absent_pattern_replaces_nothing(
    text: Seq<char>,
    pattern: Seq<char>,
    replacement: Seq<char>,
)
    requires
        forall|i: int| !occurs_at(text, i, pattern),
    ensures
        replaced(text, pattern, replacement) == text,
    decreases text.len(),
{
    if text.len() > 0 && pattern.len() > 0 {
        assert(!occurs_at(text, 0, pattern));
        let rest = text.skip(1);
        assert forall|i: int| !occurs_at(rest, i, pattern) by {
            if occurs_at(rest, i, pattern) {
                assert(text.subrange(i + 1, i + 1 + pattern.len()) =~= rest.subrange(
                    i,
                    i + pattern.len(),
                ));
                assert(occurs_at(text, i + 1, pattern));
            }
        }
        law_absent_pattern_replaces_nothing(rest, pattern, replacement);
        assert(text =~= seq![text[0]] + rest);
    }
}

/// The first occurrence of a pattern is exchanged, what is before it stays, and what is behind it
/// is treated as a text of its own.
pub proof fn law_first_occurrence_is_replaced(
    text: Seq<char>,
    pattern: Seq<char>,
    replacement: Seq<char>,
    position: int,
)
    requires
        pattern.len() > 0,
        occurs_at(text, position, pattern),
        forall|i: int| i < position ==> !occurs_at(text, i, pattern),
    ensures
        replaced(text, pattern, replacement) == text.take(position) + replacement + replaced(
            text.skip(position + pattern.len()),
            pattern,
            replacement,
        ),
    decreases text.len(),
{
    let tail = replaced(text.skip(position + pattern.len()), pattern, replacement);
    if position == 0 {
        assert(text.take(0) + replacement + tail =~= replacement + tail);
    } else {
        assert(!occurs_at(text, 0, pattern));
        let rest = text.skip(1);
        assert(rest.subrange(position - 1, position - 1 + pattern.len()) =~= text.subrange(
            position,
            position + pattern.len(),
        ));
        assert forall|i: int| i < position - 1 implies !occurs_at(rest, i, pattern) by {
            if occurs_at(rest, i, pattern) {
                assert(text.subrange(i + 1, i + 1 + pattern.len()) =~= rest.subrange(
                    i,
                    i + pattern.len(),
                ));
                assert(occurs_at(text, i + 1, pattern));
            }
        }
        law_first_occurrence_is_replaced(rest, pattern, replacement, position - 1);
        assert(rest.skip(position - 1 + pattern.len()) =~= text.skip(position + pattern.len()));
        assert(seq![text[0]] + (rest.take(position - 1) + replacement + tail) =~= text.take(
            position,
        ) + replacement + tail);
    }
}

/// Whether `left` and `right` agree up to `position`, and there `left` ends and `right` does not,
/// or both go on and `left` has the lesser character.
pub open spec fn differ_first_at(left: Seq<char>, right: Seq<char>, position: int) -> bool {
    &&& 0 <= position <= left.len()
    &&& position < right.len()
    &&& left.take(position) == right.take(position)
    &&& position < left.len() ==> left[position] < right[position]
}

/// The order of texts is that of a dictionary: what comes first is decided where the two differ
/// first, whatever follows and however long they are.
pub proof fn law_order_is_lexicographic(left: Seq<char>, right: Seq<char>)
    ensures
        precedes(left, right) <==> exists|position: int|
            #[trigger] differ_first_at(left, right, position),
    decreases left.len(),
{
    if right.len() == 0 {
    } else if left.len() == 0 {
        assert(left.take(0) =~= right.take(0));
        assert(differ_first_at(left, right, 0));
    } else if left[0] != right[0] {
        if left[0] < right[0] {
            assert(left.take(0) =~= right.take(0));
            assert(differ_first_at(left, right, 0));
        }
        assert forall|position: int| #[trigger] differ_first_at(left, right, position) implies left[0]
            < right[0] by {
            if position > 0 {
                assert(left.take(position)[0] == right.take(position)[0]);
            }
        }
    } else {
        let (first, second) = (left.skip(1), right.skip(1));
        law_order_is_lexicographic(first, second);
        if precedes(left, right) {
            let position = choose|position: int|
                #[trigger] differ_first_at(first, second, position);
            assert(left.take(position + 1) =~= seq![left[0]] + first.take(position));
            assert(right.take(position + 1) =~= seq![right[0]] + second.take(position));
            assert(differ_first_at(left, right, position + 1));
        }
        assert forall|position: int| #[trigger] differ_first_at(left, right, position) implies
            differ_first_at(first, second, position - 1) by {
            if position > 0 {
                assert(first.take(position - 1) =~= left.take(position).skip(1));
                assert(second.take(position - 1) =~= right.take(position).skip(1));
            }
        }
    }
}

/// What stands between one opening and one closing is told by the whole.
pub proof fn lemma_enclosed_injective(
    opening: Seq<char>,
    left: Seq<char>,
    right: Seq<char>,
    closing: Seq<char>,
)
    requires
        opening + left + closing == opening + right + closing,
    ensures
        left == right,
{
    let whole = opening + left + closing;
    let other = opening + right + closing;
    assert(whole.len() == other.len());
    let (start, stop) = (opening.len() as int, whole.len() - closing.len());
    assert(whole.subrange(start, stop) =~= left);
    assert(other.subrange(start, stop) =~= right);
}

/// Where two texts are each digits, a mark that is no digit, and a rest, and the texts are alike,
/// so are the digits and the rests.
pub proof fn lemma_digits_before_mark(
    left: Seq<char>,
    right: Seq<char>,
    mark: char,
    left_rest: Seq<char>,
    right_rest: Seq<char>,
)
    requires
        are_digits(left),
        are_digits(right),
        !is_digit(mark),
        left + seq![mark] + left_rest == right + seq![mark] + right_rest,
    ensures
        left == right,
        left_rest == right_rest,
{
    let whole = left + seq![mark] + left_rest;
    let other = right + seq![mark] + right_rest;
    if left.len() < right.len() {
        assert(whole[left.len() as int] == mark);
        assert(other[left.len() as int] == right[left.len() as int]);
    }
    if right.len() < left.len() {
        assert(other[right.len() as int] == mark);
        assert(whole[right.len() as int] == left[right.len() as int]);
    }
    assert(whole.take(left.len() as int) =~= left);
    assert(other.take(right.len() as int) =~= right);
    assert(whole.skip(left.len() as int + 1) =~= left_rest);
    assert(other.skip(right.len() as int + 1) =~= right_rest);
}

/// A pattern stands in a text exactly where the text is something, the pattern, and something more.
pub proof fn law_occurrences(
    before: Seq<char>,
    pattern: Seq<char>,
    behind: Seq<char>,
    text: Seq<char>,
    position: int,
)
    ensures
        occurs_at(before + pattern + behind, before.len() as int, pattern),
        occurs_at(text, position, pattern) ==> text == text.take(position) + pattern + text.skip(
            position + pattern.len(),
        ),
{
    let whole = before + pattern + behind;
    assert(whole.subrange(before.len() as int, (before.len() + pattern.len()) as int) =~= pattern);
    if occurs_at(text, position, pattern) {
        assert(text =~= text.take(position) + text.subrange(position, position + pattern.len())
            + text.skip(position + pattern.len()));
    }
}

} // verus!
