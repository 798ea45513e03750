//! Validation and repair of GTIN-13 and EAN-13 codes.

use crate::validator::{check_code, fix_code, fix_outcome, valid_code, FixFailure};
use vstd::prelude::*;

verus! {

/// Errors that make the repair of a GTIN-13 code impossible.
#[derive(Debug, Clone, Copy, PartialEq, Eq, Hash)]
pub enum FixError {
    /// The provided string contains non-ASCII characters.
    NonAsciiString,
    /// The provided code was too long to be valid.
    TooLong,
    /// The calculated check digit did not match the code's check digit.
    CheckDigitIncorrect,
}

/// The error of this module that reports `failure`.
pub open spec fn fix_error(failure: FixFailure) -> FixError {
    match failure {
        FixFailure::NonAsciiString => FixError::NonAsciiString,
        FixFailure::TooLong => FixError::TooLong,
        FixFailure::CheckDigitIncorrect => FixError::CheckDigitIncorrect,
    }
}

/// Checks that `code` is a valid GTIN-13 code: exactly 13 ASCII digits, the
/// last of which is the check digit of the others. Any text may be handed
/// in.
pub fn check(code: &str) -> (ok: bool)
    ensures
        ok == valid_code(code@, 13),
{
    check_code(code, 13)
}

/// Attempts to repair `code` into a valid GTIN-13 code by dropping the
/// whitespace at its ends and putting zeros in front of a code of fewer
/// than 13 digits. That undoes what data entry and software that reads
/// codes as numbers most often do to them.
///
/// The first obstacle met is the error: a character outside ASCII, then
/// more than 13 characters, then a wrong check digit.
pub fn fix(code: &str) -> (outcome: Result<String, FixError>)
    ensures
        match fix_outcome(code@, 13) {
            Ok(fixed) => outcome is Ok && outcome->Ok_0@ == fixed,
            Err(failure) => outcome == Err::<String, FixError>(fix_error(failure)),
        },
        outcome is Ok ==> valid_code(outcome->Ok_0@, 13),
{
    match fix_code(code, 13) {
        Ok(fixed) => Ok(fixed),
        Err(FixFailure::NonAsciiString) => Err(FixError::NonAsciiString),
        Err(FixFailure::TooLong) => Err(FixError::TooLong),
        Err(FixFailure::CheckDigitIncorrect) => Err(FixError::CheckDigitIncorrect),
    }
}

} // verus!
