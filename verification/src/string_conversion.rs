//! The case-conversion engine: pure string-to-string transforms driven by a
//! word-boundary classification state machine.
//!
//! Word boundaries, in character order:
//! - a run of non-alphanumeric characters ends the current word; the next
//!   alphanumeric character starts a new word;
//! - a lowercase-to-uppercase transition starts a new word at the uppercase
//!   character;
//! - two uppercase characters followed by a lowercase one start a new word at
//!   the second uppercase character (the acronym boundary);
//! - caseless alphanumeric characters (digits, combining marks) inherit the
//!   case of the run they stand in and never start or end a word themselves.

use vstd::prelude::*;

verus! {

// ---------------------------------------------------------------------------
// Character classification and case mapping, from std.
// ---------------------------------------------------------------------------
pub uninterp spec fn is_alnum_of(c: char) -> bool;

pub uninterp spec fn is_upper_of(c: char) -> bool;

pub uninterp spec fn is_lower_of(c: char) -> bool;

pub uninterp spec fn char_upper_of(c: char) -> Seq<char>;

pub uninterp spec fn char_lower_of(c: char) -> Seq<char>;

pub uninterp spec fn str_upper_of(s: Seq<char>) -> Seq<char>;

pub uninterp spec fn str_lower_of(s: Seq<char>) -> Seq<char>;

/// Relies on char::is_alphanumeric: a pure classification of the character.
#[verifier::external_body]
pub(crate) fn char_is_alphanumeric(c: char) -> (r: bool)
    ensures
        r == is_alnum_of(c),
{
    c.is_alphanumeric()
}

/// Relies on char::is_uppercase: a pure classification of the character.
#[verifier::external_body]
pub(crate) fn char_is_uppercase(c: char) -> (r: bool)
    ensures
        r == is_upper_of(c),
{
    c.is_uppercase()
}

/// Relies on char::is_lowercase: a pure classification of the character.
#[verifier::external_body]
pub(crate) fn char_is_lowercase(c: char) -> (r: bool)
    ensures
        r == is_lower_of(c),
{
    c.is_lowercase()
}

/// Relies on char::to_uppercase: the uppercase mapping of one character,
/// which depends on the character alone.
#[verifier::external_body]
pub(crate) fn char_to_uppercase(c: char) -> (r: Vec<char>)
    ensures
        r@ == char_upper_of(c),
{
    c.to_uppercase().collect()
}

/// Relies on char::to_lowercase: the lowercase mapping of one character,
/// which depends on the character alone.
#[verifier::external_body]
pub(crate) fn char_to_lowercase(c: char) -> (r: Vec<char>)
    ensures
        r@ == char_lower_of(c),
{
    c.to_lowercase().collect()
}

/// Relies on str::to_uppercase: the uppercase mapping of a whole string,
/// which depends on its characters alone.
#[verifier::external_body]
pub(crate) fn str_upper(s: &str) -> (r: String)
    ensures
        r@ == str_upper_of(s@),
{
    s.to_uppercase()
}

/// Relies on str::to_lowercase: the lowercase mapping of a whole string,
/// which depends on its characters alone.
#[verifier::external_body]
pub(crate) fn str_lower(s: &str) -> (r: String)
    ensures
        r@ == str_lower_of(s@),
{
    s.to_lowercase()
}

/// Relies on str::chars: yields exactly the characters of the string, in
/// order.
#[verifier::external_body]
pub(crate) fn chars_of(s: &str) -> (r: Vec<char>)
    ensures
        r@ == s@,
{
    s.chars().collect()
}

/// Relies on String's FromIterator impl: collecting characters builds the
/// string of exactly those characters, in order.
#[verifier::external_body]
pub(crate) fn string_from_chars(v: &Vec<char>) -> (r: String)
    ensures
        r@ == v@,
{
    v.iter().collect()
}

// ---------------------------------------------------------------------------
// The word-boundary state machine.
// ---------------------------------------------------------------------------
#[derive(Clone, Copy, PartialEq, Eq, Structural, Debug)]
pub enum LetterCase {
    Uppercased,
    Lowercased,
    /// Alphanumeric but neither uppercase nor lowercase (digits, marks).
    Uncased,
}

#[derive(Clone, Copy, PartialEq, Eq, Structural, Debug)]
pub enum WordState {
    InWord { last_case: LetterCase },
    NotInWord,
}

#[derive(Clone, Copy, PartialEq, Eq, Structural, Debug)]
pub enum CharDetails {
    NonWordCharacter,
    MiddleOfWord,
    StartOfFirstWord,
    StartOfNonFirstWord,
}

#[derive(Clone, Copy, PartialEq, Eq, Structural, Debug)]
pub enum ChangeLetterCase {
    Upper,
    Lower,
}

/// The closed family of per-character output styles.
#[derive(Clone, Copy, PartialEq, Eq, Structural, Debug)]
pub enum CharTransform {
    WordSeparator { separator: char },
    TitleCaser,
    CamelCaser { first_letter_case: ChangeLetterCase },
    FirstLetterChanger { first_letter_case: ChangeLetterCase },
    /// Keeps every character, changes no case, and only inserts a space at
    /// each detected word boundary.
    SpaceInserter,
}

pub open spec fn letter_case_of(c: char) -> LetterCase {
    if is_upper_of(c) {
        LetterCase::Uppercased
    } else if is_lower_of(c) {
        LetterCase::Lowercased
    } else {
        LetterCase::Uncased
    }
}

/// One step of the classification machine at position `i` of `s`: the
/// character's classification, the next word state, and whether a first word
/// has started after this character.
pub open spec fn classify_at(s: Seq<char>, i: int, st: WordState, first_started: bool) -> (
    CharDetails,
    WordState,
    bool,
)
    recommends
        0 <= i < s.len(),
{
    let c = s[i];
    if is_alnum_of(c) {
        let k0 = letter_case_of(c);
        let is_word_start = match st {
            WordState::InWord { last_case } => (last_case == LetterCase::Uppercased && k0
                == LetterCase::Uppercased && i + 1 < s.len() && is_lower_of(s[i + 1])) || (last_case
                == LetterCase::Lowercased && k0 == LetterCase::Uppercased),
            WordState::NotInWord => true,
        };
        let k = if k0 == LetterCase::Uncased && st is InWord {
            st->last_case
        } else {
            k0
        };
        let details = if is_word_start {
            if first_started {
                CharDetails::StartOfNonFirstWord
            } else {
                CharDetails::StartOfFirstWord
            }
        } else {
            CharDetails::MiddleOfWord
        };
        (details, WordState::InWord { last_case: k }, first_started || is_word_start)
    } else {
        (CharDetails::NonWordCharacter, WordState::NotInWord, first_started)
    }
}

pub open spec fn cased_char(case: ChangeLetterCase, c: char) -> Seq<char> {
    match case {
        ChangeLetterCase::Upper => char_upper_of(c),
        ChangeLetterCase::Lower => char_lower_of(c),
    }
}

/// What one classified character contributes to the output, per style.
pub open spec fn emitted(t: CharTransform, c: char, d: CharDetails) -> Seq<char> {
    match t {
        CharTransform::WordSeparator { separator } => match d {
            CharDetails::NonWordCharacter => Seq::empty(),
            CharDetails::MiddleOfWord => seq![c],
            CharDetails::StartOfFirstWord => seq![c],
            CharDetails::StartOfNonFirstWord => seq![separator, c],
        },
        CharTransform::TitleCaser => match d {
            CharDetails::NonWordCharacter => Seq::empty(),
            CharDetails::MiddleOfWord => char_lower_of(c),
            CharDetails::StartOfFirstWord => char_upper_of(c),
            CharDetails::StartOfNonFirstWord => seq![' '] + char_upper_of(c),
        },
        CharTransform::CamelCaser { first_letter_case } => match d {
            CharDetails::NonWordCharacter => Seq::empty(),
            CharDetails::MiddleOfWord => char_lower_of(c),
            CharDetails::StartOfFirstWord => cased_char(first_letter_case, c),
            CharDetails::StartOfNonFirstWord => char_upper_of(c),
        },
        CharTransform::FirstLetterChanger { first_letter_case } => match d {
            CharDetails::StartOfFirstWord => cased_char(first_letter_case, c),
            _ => seq![c],
        },
        CharTransform::SpaceInserter => match d {
            CharDetails::StartOfNonFirstWord => seq![' ', c],
            _ => seq![c],
        },
    }
}

pub open spec fn transform_from(
    t: CharTransform,
    s: Seq<char>,
    i: int,
    st: WordState,
    first_started: bool,
) -> Seq<char>
    decreases s.len() - i,
{
    if i < 0 || i >= s.len() {
        Seq::empty()
    } else {
        let step = classify_at(s, i, st, first_started);
        emitted(t, s[i], step.0) + transform_from(t, s, i + 1, step.1, step.2)
    }
}

/// The whole transform: classify every character of `s` in order, starting
/// outside any word, and concatenate the per-character outputs.
pub open spec fn transformed(t: CharTransform, s: Seq<char>) -> Seq<char> {
    transform_from(t, s, 0, WordState::NotInWord, false)
}

// ---------------------------------------------------------------------------
// The executable transformer.
// ---------------------------------------------------------------------------
fn push_cased_char(output: &mut Vec<char>, ch: char, case: ChangeLetterCase)
    ensures
        final(output)@ == old(output)@ + cased_char(case, ch),
{
    let mut mapped = match case {
        ChangeLetterCase::Upper => char_to_uppercase(ch),
        ChangeLetterCase::Lower => char_to_lowercase(ch),
    };
    output.append(&mut mapped);
}

/// Append what one classified character contributes under style `t`.
fn handle(t: &CharTransform, output: &mut Vec<char>, ch: char, char_details: CharDetails)
    ensures
        final(output)@ == old(output)@ + emitted(*t, ch, char_details),
{
    match t {
        CharTransform::WordSeparator { separator } => match char_details {
            CharDetails::NonWordCharacter => {},
            CharDetails::MiddleOfWord => output.push(ch),
            CharDetails::StartOfFirstWord => output.push(ch),
            CharDetails::StartOfNonFirstWord => {
                output.push(*separator);
                output.push(ch);
            },
        },
        CharTransform::TitleCaser => match char_details {
            CharDetails::NonWordCharacter => {},
            CharDetails::MiddleOfWord => push_cased_char(output, ch, ChangeLetterCase::Lower),
            CharDetails::StartOfFirstWord => push_cased_char(output, ch, ChangeLetterCase::Upper),
            CharDetails::StartOfNonFirstWord => {
                output.push(' ');
                push_cased_char(output, ch, ChangeLetterCase::Upper);
            },
        },
        CharTransform::CamelCaser { first_letter_case } => match char_details {
            CharDetails::NonWordCharacter => {},
            CharDetails::MiddleOfWord => push_cased_char(output, ch, ChangeLetterCase::Lower),
            CharDetails::StartOfFirstWord => push_cased_char(output, ch, *first_letter_case),
            CharDetails::StartOfNonFirstWord => push_cased_char(
                output,
                ch,
                ChangeLetterCase::Upper,
            ),
        },
        CharTransform::FirstLetterChanger { first_letter_case } => match char_details {
            CharDetails::StartOfFirstWord => push_cased_char(output, ch, *first_letter_case),
            _ => output.push(ch),
        },
        CharTransform::SpaceInserter => match char_details {
            CharDetails::StartOfNonFirstWord => {
                output.push(' ');
                output.push(ch);
            },
            _ => output.push(ch),
        },
    }
}

/// Runs the word-boundary machine over the characters of one input string.
pub struct StringTransformer {
    pub chars: Vec<char>,
    pub word_state: WordState,
    pub first_word_started: bool,
    pub output: Vec<char>,
}

impl StringTransformer {
    pub fn new(value: &str) -> (r: Self)
        ensures
            r.chars@ == value@,
            r.word_state == WordState::NotInWord,
            !r.first_word_started,
            r.output@ == Seq::<char>::empty(),
    {
        StringTransformer {
            chars: chars_of(value),
            word_state: WordState::NotInWord,
            first_word_started: false,
            output: Vec::new(),
        }
    }

    pub fn run(self, char_mapper: CharTransform) -> (r: String)
        requires
            self.word_state == WordState::NotInWord,
            !self.first_word_started,
            self.output@ == Seq::<char>::empty(),
        ensures
            r@ == transformed(char_mapper, self.chars@),
    {
        let StringTransformer { chars, mut word_state, mut first_word_started, mut output } = self;
        let ghost s = chars@;
        let mut i: usize = 0;
        while i < chars.len()
            invariant
                i <= chars@.len(),
                chars@ == s,
                transformed(char_mapper, s) == output@ + transform_from(
                    char_mapper,
                    s,
                    i as int,
                    word_state,
                    first_word_started,
                ),
            decreases chars@.len() - i,
        {
            let c = chars[i];
            let ghost step = classify_at(s, i as int, word_state, first_word_started);
            let (char_details, next_word_state, next_first): (CharDetails, WordState, bool) =
                if char_is_alphanumeric(c) {
                let k0: LetterCase = if char_is_uppercase(c) {
                    LetterCase::Uppercased
                } else if char_is_lowercase(c) {
                    LetterCase::Lowercased
                } else {
                    LetterCase::Uncased
                };
                let is_word_start: bool = match word_state {
                    WordState::InWord { last_case } => {
                        if last_case == LetterCase::Uppercased && k0 == LetterCase::Uppercased {
                            if i + 1 < chars.len() {
                                char_is_lowercase(chars[i + 1])
                            } else {
                                false
                            }
                        } else {
                            last_case == LetterCase::Lowercased && k0 == LetterCase::Uppercased
                        }
                    },
                    WordState::NotInWord => true,
                };
                let k: LetterCase = match word_state {
                    WordState::InWord { last_case } => if k0 == LetterCase::Uncased {
                        last_case
                    } else {
                        k0
                    },
                    WordState::NotInWord => k0,
                };
                let details = if is_word_start {
                    if first_word_started {
                        CharDetails::StartOfNonFirstWord
                    } else {
                        CharDetails::StartOfFirstWord
                    }
                } else {
                    CharDetails::MiddleOfWord
                };
                (details, WordState::InWord { last_case: k }, first_word_started || is_word_start)
            } else {
                (CharDetails::NonWordCharacter, WordState::NotInWord, first_word_started)
            };
            assert((char_details, next_word_state, next_first) == step);
            assert(transform_from(char_mapper, s, i as int, word_state, first_word_started)
                == emitted(char_mapper, s[i as int], step.0) + transform_from(
                char_mapper,
                s,
                i as int + 1,
                step.1,
                step.2,
            ));
            handle(&char_mapper, &mut output, c, char_details);
            word_state = next_word_state;
            first_word_started = next_first;
            i = i + 1;
        }
        string_from_chars(&output)
    }
}

// ---------------------------------------------------------------------------
// The public transforms.
// ---------------------------------------------------------------------------
pub open spec fn spec_word_separated(s: Seq<char>, separator: char) -> Seq<char> {
    transformed(CharTransform::WordSeparator { separator }, s)
}

pub open spec fn spec_lower_snake(s: Seq<char>) -> Seq<char> {
    str_lower_of(spec_word_separated(s, '_'))
}

pub open spec fn spec_upper_snake(s: Seq<char>) -> Seq<char> {
    str_upper_of(spec_word_separated(s, '_'))
}

pub open spec fn spec_lower_kebab(s: Seq<char>) -> Seq<char> {
    str_lower_of(spec_word_separated(s, '-'))
}

pub open spec fn spec_lower_camel(s: Seq<char>) -> Seq<char> {
    transformed(CharTransform::CamelCaser { first_letter_case: ChangeLetterCase::Lower }, s)
}

pub open spec fn spec_upper_camel(s: Seq<char>) -> Seq<char> {
    transformed(CharTransform::CamelCaser { first_letter_case: ChangeLetterCase::Upper }, s)
}

pub open spec fn spec_capitalize(s: Seq<char>) -> Seq<char> {
    transformed(CharTransform::FirstLetterChanger { first_letter_case: ChangeLetterCase::Upper }, s)
}

pub open spec fn spec_decapitalize(s: Seq<char>) -> Seq<char> {
    transformed(CharTransform::FirstLetterChanger { first_letter_case: ChangeLetterCase::Lower }, s)
}

pub open spec fn spec_title(s: Seq<char>) -> Seq<char> {
    transformed(CharTransform::TitleCaser, s)
}

/// All original characters preserved, no case changes: only a space is
/// inserted at each detected word boundary.
pub open spec fn spec_insert_spaces(s: Seq<char>) -> Seq<char> {
    transformed(CharTransform::SpaceInserter, s)
}

pub fn to_uppercase(value: &str) -> (r: String)
    ensures
        r@ == str_upper_of(value@),
{
    str_upper(value)
}

pub fn to_lowercase(value: &str) -> (r: String)
    ensures
        r@ == str_lower_of(value@),
{
    str_lower(value)
}

pub fn to_lower_snake_case(value: &str) -> (r: String)
    ensures
        r@ == spec_lower_snake(value@),
{
    let separated = StringTransformer::new(value).run(
        CharTransform::WordSeparator { separator: '_' },
    );
    str_lower(separated.as_str())
}

pub fn to_upper_snake_case(value: &str) -> (r: String)
    ensures
        r@ == spec_upper_snake(value@),
{
    let separated = StringTransformer::new(value).run(
        CharTransform::WordSeparator { separator: '_' },
    );
    str_upper(separated.as_str())
}

pub fn to_lower_kebab_case(value: &str) -> (r: String)
    ensures
        r@ == spec_lower_kebab(value@),
{
    let separated = StringTransformer::new(value).run(
        CharTransform::WordSeparator { separator: '-' },
    );
    str_lower(separated.as_str())
}

pub fn to_lower_camel_case(value: &str) -> (r: String)
    ensures
        r@ == spec_lower_camel(value@),
{
    StringTransformer::new(value).run(
        CharTransform::CamelCaser { first_letter_case: ChangeLetterCase::Lower },
    )
}

pub fn to_upper_camel_case(value: &str) -> (r: String)
    ensures
        r@ == spec_upper_camel(value@),
{
    StringTransformer::new(value).run(
        CharTransform::CamelCaser { first_letter_case: ChangeLetterCase::Upper },
    )
}

pub fn capitalize(value: &str) -> (r: String)
    ensures
        r@ == spec_capitalize(value@),
{
    StringTransformer::new(value).run(
        CharTransform::FirstLetterChanger { first_letter_case: ChangeLetterCase::Upper },
    )
}

pub fn decapitalize(value: &str) -> (r: String)
    ensures
        r@ == spec_decapitalize(value@),
{
    StringTransformer::new(value).run(
        CharTransform::FirstLetterChanger { first_letter_case: ChangeLetterCase::Lower },
    )
}

pub fn title_case(value: &str) -> (r: String)
    ensures
        r@ == spec_title(value@),
{
    StringTransformer::new(value).run(CharTransform::TitleCaser)
}

pub fn insert_spaces_between_words(value: &str) -> (r: String)
    ensures
        r@ == spec_insert_spaces(value@),
{
    StringTransformer::new(value).run(CharTransform::SpaceInserter)
}

} // verus!
