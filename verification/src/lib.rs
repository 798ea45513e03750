//! Validation and repair of GTIN barcode identifiers: GTIN-8, GTIN-12
//! (UPC-A), GTIN-13 (EAN-13) and GTIN-14.
//!
//! A code is valid when it is made of exactly the right number of ASCII
//! digits and its last digit is the check digit of the digits before it.
//! A code can be repaired where only surrounding whitespace or missing
//! leading zeros stand in the way: spreadsheets and databases that take a
//! code for a number drop its leading zeros, and data entry adds blanks.
//!
//! Each code length has a module of its own with a `check` and a `fix`.
//! They share one validator, in [`validator`], which rests on the checksum
//! engine in [`utils`].
//!
//! The library is verified with Verus. Every function states what it
//! returns over a mathematical model of the text, a sequence of characters,
//! and is proved to do so without overflow or a failing index, on every
//! input that it admits; `check` and `fix` admit every string.

pub mod gtin12;
pub mod gtin13;
pub mod gtin14;
pub mod gtin8;
pub mod utils;
pub mod validator;
