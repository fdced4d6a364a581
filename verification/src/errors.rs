//! The error kinds surfaced by the generator.  Every failure is reported to
//! the caller at once; nothing is retried or suppressed.

use vstd::prelude::*;

verus! {

/// A label cannot serve as an identity seed: its UTF-8 form is longer than
/// the wire format's `u32` length field admits.
#[derive(Clone, Copy, PartialEq, Eq, Structural, Debug)]
pub struct InvalidLabelError;

/// A call message violates its module's serialization constraints, such as a
/// name whose UTF-8 form exceeds the `u32` length field.
#[derive(Clone, Copy, PartialEq, Eq, Structural, Debug)]
pub struct EncodingError;

/// A transaction field cannot be framed: its byte form is longer than the
/// `u32` length field admits.
#[derive(Clone, Copy, PartialEq, Eq, Structural, Debug)]
pub struct SerializationError;

} // verus!
