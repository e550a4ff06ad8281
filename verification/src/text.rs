//! Small pieces of text: numbers, joined names and words in a description.

use vstd::prelude::*;
use vstd::string::*;

verus! {

/// The character of a decimal digit.
pub open spec fn digit(value: nat) -> char {
    if value == 0 {
        '0'
    } else if value == 1 {
        '1'
    } else if value == 2 {
        '2'
    } else if value == 3 {
        '3'
    } else if value == 4 {
        '4'
    } else if value == 5 {
        '5'
    } else if value == 6 {
        '6'
    } else if value == 7 {
        '7'
    } else if value == 8 {
        '8'
    } else {
        '9'
    }
}

/// A number in decimal notation.
pub open spec fn decimal(value: nat) -> Seq<char>
    decreases value,
{
    if value < 10 {
        seq![digit(value)]
    } else {
        decimal(value / 10).push(digit(value % 10))
    }
}

fn digit_text(value: u32) -> (text: &'static str)
    requires
        value < 10,
    ensures
        text@ == seq![digit(value as nat)],
{
    proof {
        reveal_strlit("0");
        reveal_strlit("1");
        reveal_strlit("2");
        reveal_strlit("3");
        reveal_strlit("4");
        reveal_strlit("5");
        reveal_strlit("6");
        reveal_strlit("7");
        reveal_strlit("8");
        reveal_strlit("9");
    }
    let text: &'static str = match value {
        0 => "0",
        1 => "1",
        2 => "2",
        3 => "3",
        4 => "4",
        5 => "5",
        6 => "6",
        7 => "7",
        8 => "8",
        _ => "9",
    };
    assert(text@ =~= seq![digit(value as nat)]);
    text
}

/// Appends a number in decimal notation.
pub fn append_decimal(text: &mut String, value: u32)
    ensures
        final(text)@ == old(text)@ + decimal(value as nat),
    decreases value,
{
    if value >= 10 {
        append_decimal(text, value / 10);
    }
    text.append(digit_text(value % 10));
    assert(text@ =~= old(text)@ + decimal(value as nat));
}

/// Whether `word` occurs in `text` at the given place.
pub open spec fn occurs_at(text: Seq<char>, word: Seq<char>, at: int) -> bool {
    &&& 0 <= at
    &&& at + word.len() <= text.len()
    &&& text.subrange(at, at + word.len()) == word
}

/// Whether `word` occurs anywhere in `text`.
pub open spec fn mentions(text: Seq<char>, word: Seq<char>) -> bool {
    exists|at: int| #[trigger] occurs_at(text, word, at)
}

fn starts_at(text: &str, word: &str, at: usize) -> (occurs: bool)
    requires
        at + word@.len() <= text@.len(),
        text@.len() <= usize::MAX,
    ensures
        occurs == occurs_at(text@, word@, at as int),
{
    let length: usize = word.unicode_len();
    let mut index: usize = 0;
    while index < length
        invariant
            length == word@.len(),
            index <= length,
            at + word@.len() <= text@.len(),
            text@.len() <= usize::MAX,
            forall|before: int| 0 <= before < index ==> text@[at + before] == word@[before],
        decreases length - index,
    {
        if text.get_char(at + index) != word.get_char(index) {
            assert(text@.subrange(at as int, at + word@.len())[index as int] != word@[index as int]);
            return false;
        }
        index = index + 1;
    }
    assert(text@.subrange(at as int, at + word@.len()) =~= word@);
    true
}

/// Whether `word` occurs anywhere in `text`.
pub fn has_word(text: &str, word: &str) -> (found: bool)
    ensures
        found == mentions(text@, word@),
{
    let length: usize = text.unicode_len();
    let word_length: usize = word.unicode_len();
    if word_length > length {
        return false;
    }
    let mut at: usize = 0;
    while at <= length - word_length
        invariant
            length == text@.len(),
            word_length == word@.len(),
            word_length <= length,
            at <= length - word_length + 1,
            forall|before: int| 0 <= before < at ==> !#[trigger] occurs_at(text@, word@, before),
        decreases length - word_length + 1 - at,
    {
        if starts_at(text, word, at) {
            return true;
        }
        if at == length - word_length {
            return false;
        }
        at = at + 1;
    }
    false
}

/// What `str::to_lowercase` makes of a text.
pub uninterp spec fn lowercased(text: Seq<char>) -> Seq<char>;

/// `str::to_lowercase`: the text with each character in lower case. What the characters become is
/// given by the Unicode tables of the standard library and is left unsaid here.
#[verifier::external_body]
fn lowercase(text: &str) -> (lower: String)
    ensures
        lower@ == lowercased(text@),
{
    text.to_lowercase()
}

/// A description that is in lower case is that of an NVIDIA device.
pub open spec fn names_nvidia(lower: Seq<char>) -> bool {
    mentions(lower, "nvidia"@)
}

/// A driver breaks with overlay planes.
pub open spec fn cannot_overlay(name: Seq<char>, description: Seq<char>) -> bool {
    names_nvidia(lowercased(name)) || names_nvidia(lowercased(description))
}

/// Whether a description that is in lower case is that of an NVIDIA device.
pub fn is_nvidia(lower: &str) -> (found: bool)
    ensures
        found == names_nvidia(lower@),
{
    has_word(lower, "nvidia")
}

/// Whether a driver must not be given overlay planes: those of NVIDIA break with them. The case of
/// the letters does not matter.
pub fn breaks_with_overlays(name: &str, description: &str) -> (breaks: bool)
    ensures
        breaks == cannot_overlay(name@, description@),
{
    let lower_name: String = lowercase(name);
    if is_nvidia(lower_name.as_str()) {
        return true;
    }
    let lower_description: String = lowercase(description);
    is_nvidia(lower_description.as_str())
}

/// The number that digits stand for.
pub open spec fn number(digits: Seq<char>) -> int
    decreases digits.len(),
{
    if digits.len() == 0 {
        0
    } else {
        10 * number(digits.drop_last()) + (digits.last() as int - '0' as int)
    }
}

/// The decimal notation of a number stands for it, consists of digits, and does not begin with a zero but
/// for the number zero itself.
pub proof fn decimal_stands_for_its_number(value: nat, index: int)
    ensures
        number(decimal(value)) == value,
        decimal(value).len() > 0,
        0 <= index < decimal(value).len() ==> '0' <= decimal(value)[index] <= '9',
        value > 0 ==> decimal(value)[0] != '0',
    decreases value,
{
    reveal_with_fuel(number, 2);
    if value < 10 {
        assert(decimal(value).drop_last() =~= Seq::empty());
    } else {
        decimal_stands_for_its_number(value / 10, index);
        decimal_stands_for_its_number(value / 10, 0);
        assert(decimal(value).drop_last() =~= decimal(value / 10));
        assert(decimal(value)[0] == decimal(value / 10)[0]);
        if 0 <= index < decimal(value / 10).len() {
            assert(decimal(value)[index] == decimal(value / 10)[index]);
        }
    }
}

/// A text mentions a word if something may come before it and something after it.
pub proof fn mentioned_word_has_surroundings(text: Seq<char>, word: Seq<char>)
    ensures
        mentions(text, word) <==> exists|before: Seq<char>, after: Seq<char>|
            text == #[trigger] (before + word + after),
{
    if mentions(text, word) {
        let at = choose|at: int| #[trigger] occurs_at(text, word, at);
        let before = text.take(at);
        let after = text.skip(at + word.len());
        assert(text =~= before + word + after) by {
            assert forall|index: int| 0 <= index < text.len() implies text[index] == (before + word
                + after)[index] by {
                if at <= index < at + word.len() {
                    assert(text.subrange(at, at + word.len())[index - at] == word[index - at]);
                }
            }
        }
    }
    if exists|before: Seq<char>, after: Seq<char>| text == #[trigger] (before + word + after) {
        let (before, after) = choose|before: Seq<char>, after: Seq<char>|
            text == #[trigger] (before + word + after);
        let at = before.len() as int;
        assert(text.subrange(at, at + word.len()) =~= word);
        assert(occurs_at(text, word, at));
    }
}

/// A driver breaks with overlay planes if the maker is named, in any case of the letters, somewhere in its
/// name or somewhere in its description; and only then.
pub proof fn maker_is_named_anywhere(
    name: Seq<char>,
    description: Seq<char>,
    before: Seq<char>,
    after: Seq<char>,
)
    ensures
        lowercased(name) == before + "nvidia"@ + after ==> cannot_overlay(name, description),
        lowercased(description) == before + "nvidia"@ + after ==> cannot_overlay(name, description),
        cannot_overlay(name, description) ==> exists|first: Seq<char>, rest: Seq<char>|
            {
                let named = #[trigger] (first + "nvidia"@ + rest);
                lowercased(name) == named || lowercased(description) == named
            },
{
    mentioned_word_has_surroundings(lowercased(name), "nvidia"@);
    mentioned_word_has_surroundings(lowercased(description), "nvidia"@);
}

} // verus!
