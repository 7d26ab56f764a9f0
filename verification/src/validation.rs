use vstd::prelude::*;

verus! {

/// The fewest characters a todo text or a label name may have.
pub const TEXT_MIN_CHARS: u64 = 1;

/// The most characters a todo text or a label name may have.
pub const TEXT_MAX_CHARS: u64 = 100;

/// Why a text was refused.
#[derive(Debug, PartialEq, Eq, Clone, Copy)]
pub enum TextLengthViolation {
    /// The text has fewer than `TEXT_MIN_CHARS` characters.
    Empty,
    /// The text has more than `TEXT_MAX_CHARS` characters.
    TooLong,
}

impl TextLengthViolation {
    /// The message that goes with the violation.
    pub fn message(&self) -> (m: &'static str)
        ensures
            *self == TextLengthViolation::Empty ==> m@ == "Can not be empty"@,
            *self == TextLengthViolation::TooLong ==> m@ == "Over text length"@,
    {
        match self {
            TextLengthViolation::Empty => "Can not be empty",
            TextLengthViolation::TooLong => "Over text length",
        }
    }
}

/// The verdict on a text: accepted when it has between `TEXT_MIN_CHARS` and
/// `TEXT_MAX_CHARS` characters, else the bound it breaks.
pub open spec fn text_verdict(text: Seq<char>) -> Result<(), TextLengthViolation> {
    if text.len() < TEXT_MIN_CHARS {
        Err(TextLengthViolation::Empty)
    } else if text.len() > TEXT_MAX_CHARS {
        Err(TextLengthViolation::TooLong)
    } else {
        Ok(())
    }
}

/// `validator::validate_length` on a `String`: the number of characters of
/// `value` (the crate counts `chars()`) is compared with the bounds that are
/// given; where `equal` is given the other two are ignored.
#[verifier::external_body]
fn validate_length(value: &String, min: Option<u64>, max: Option<u64>, equal: Option<u64>) -> (ok: bool)
    ensures
        ok == match equal {
            Some(e) => value@.len() == e,
            None => (min matches Some(m) ==> value@.len() >= m) && (max matches Some(m) ==> value@.len() <= m),
        },
{
    validator::validate_length(value, min, max, equal)
}

/// Checks a text against both length rules, the lower bound first.
pub fn check_text_length(text: &String) -> (r: Result<(), TextLengthViolation>)
    ensures
        r == text_verdict(text@),
        r is Ok <==> 1 <= text@.len() <= 100,
        text@.len() == 0 ==> r == Err::<(), TextLengthViolation>(TextLengthViolation::Empty),
        text@.len() > 100 ==> r == Err::<(), TextLengthViolation>(TextLengthViolation::TooLong),
{
    if !validate_length(text, Some(TEXT_MIN_CHARS), None, None) {
        Err(TextLengthViolation::Empty)
    } else if !validate_length(text, None, Some(TEXT_MAX_CHARS), None) {
        Err(TextLengthViolation::TooLong)
    } else {
        Ok(())
    }
}

} // verus!
