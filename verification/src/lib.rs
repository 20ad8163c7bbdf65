//! Parsing utilities for shell settings descriptors: recognizing an
//! encoding label at the head of a text stream and decoding raw bytes
//! under the recognized encoding.

use vstd::prelude::*;

pub mod charset;

verus! {

/// Error of the label parser: the input does not begin with any
/// recognized encoding label. Carries the offending input for
/// diagnostic reporting.
#[derive(Debug, PartialEq)]
pub enum ShellParseError<'a> {
    NoMatch(&'a str),
}

} // verus!
