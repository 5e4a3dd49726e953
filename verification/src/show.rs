//! Showing values, with `std::fmt`.
//!
//! What a formatter is given to write is not stated: a formatter holds no text that could be read
//! back, and the values that are shown are of any type.

use std::fmt;

use vstd::prelude::*;

verus! {

/// `std::fmt::Formatter`, where a value is shown.
#[verifier::external_type_specification]
#[verifier::external_body]
pub struct ExFormatter<'a>(std::fmt::Formatter<'a>);

/// `std::fmt::Error`, the error of showing a value.
#[verifier::external_type_specification]
#[verifier::external_body]
pub struct ExFmtError(std::fmt::Error);

/// `std::fmt::DebugStruct`, a struct that is being shown.
#[verifier::external_type_specification]
#[verifier::external_body]
pub struct ExDebugStruct<'a, 'b: 'a>(std::fmt::DebugStruct<'a, 'b>);

/// `std::fmt::DebugSet`, a set that is being shown.
#[verifier::external_type_specification]
#[verifier::external_body]
pub struct ExDebugSet<'a, 'b: 'a>(std::fmt::DebugSet<'a, 'b>);

/// Calls `std::fmt::Formatter::write_str`, which writes a text as it is.
#[verifier::external_body]
pub(crate) fn write_text(f: &mut fmt::Formatter<'_>, text: &str) -> (reply: fmt::Result) {
    f.write_str(text)
}

/// Calls `std::fmt::Formatter::debug_struct`, which starts to show a struct of this name.
#[verifier::external_body]
pub(crate) fn debug_struct<'a, 'b>(f: &'a mut fmt::Formatter<'b>, name: &str) -> (shown:
    fmt::DebugStruct<'a, 'b>) {
    f.debug_struct(name)
}

/// Calls `std::fmt::DebugStruct::field`, which shows a field.
#[verifier::external_body]
pub(crate) fn field<T: fmt::Debug>(shown: &mut fmt::DebugStruct<'_, '_>, name: &str, value: &T) {
    shown.field(name, value);
}

/// Calls `std::fmt::DebugStruct::finish`, which ends a struct.
#[verifier::external_body]
pub(crate) fn finish(shown: &mut fmt::DebugStruct<'_, '_>) -> (reply: fmt::Result) {
    shown.finish()
}

/// Calls `std::fmt::DebugStruct::finish_non_exhaustive`, which ends a struct and says that not
/// all of its fields are shown.
#[verifier::external_body]
pub(crate) fn finish_non_exhaustive(shown: &mut fmt::DebugStruct<'_, '_>) -> (reply: fmt::Result) {
    shown.finish_non_exhaustive()
}

/// Calls `std::fmt::Formatter::debug_set`, which starts to show a set.
#[verifier::external_body]
pub(crate) fn debug_set<'a, 'b>(f: &'a mut fmt::Formatter<'b>) -> (shown: fmt::DebugSet<'a, 'b>) {
    f.debug_set()
}

/// Calls `std::fmt::DebugSet::entry`, which shows an element.
#[verifier::external_body]
pub(crate) fn element<T: fmt::Debug>(shown: &mut fmt::DebugSet<'_, '_>, value: &T) {
    shown.entry(value);
}

/// Calls `std::fmt::DebugSet::finish`, which ends a set.
#[verifier::external_body]
pub(crate) fn finish_set(shown: &mut fmt::DebugSet<'_, '_>) -> (reply: fmt::Result) {
    shown.finish()
}

} // verus!
