//! The identity provider: a deterministic public identity derived from a
//! human-readable label.  The identity is the UTF-8 byte form of its label,
//! so identical labels always yield identical identities.

use crate::errors::InvalidLabelError;
use vstd::prelude::*;
use vstd::string::StrSliceExecFns;
use vstd::utf8::{encode_scalar, encode_utf8};

verus! {

/// A public identity: an opaque, comparable value derived from a seed label.
/// The generator uses it as the signer of every transaction.
#[derive(Clone, PartialEq, Eq, Debug)]
pub struct Identity {
    pub bytes: Vec<u8>,
}

impl View for Identity {
    type V = Seq<u8>;

    open spec fn view(&self) -> Seq<u8> {
        self.bytes@
    }
}

/// An identity can be framed on the wire when its byte form fits the `u32`
/// length field.
pub open spec fn wf_identity(id: Seq<u8>) -> bool {
    id.len() <= u32::MAX
}

/// The UTF-8 encoding of a character sequence takes at most four bytes per
/// character.
pub proof fn lemma_encode_utf8_len(chars: Seq<char>)
    ensures
        encode_utf8(chars).len() <= 4 * chars.len(),
    decreases chars.len(),
{
    if chars.len() != 0 {
        lemma_encode_utf8_len(chars.drop_first());
        assert(encode_scalar(chars[0] as u32).len() <= 4);
    }
}

/// Derives the identity of `label`: its UTF-8 bytes.  Rejects only a label
/// whose UTF-8 form would not fit the wire format's `u32` length field.
pub fn identity_from_label(label: &str) -> (r: Result<Identity, InvalidLabelError>)
    ensures
        r matches Ok(id) ==> id@ == encode_utf8(label@) && wf_identity(id@),
        r is Err ==> encode_utf8(label@).len() > u32::MAX,
{
    let bytes = label.as_bytes_vec();
    if bytes.len() <= u32::MAX as usize {
        Ok(Identity { bytes })
    } else {
        Err(InvalidLabelError)
    }
}

/// Derives the identity of a label already known to fit the length field.
pub(crate) fn identity_of_known_label(label: &str) -> (r: Identity)
    requires
        encode_utf8(label@).len() <= u32::MAX,
    ensures
        r@ == encode_utf8(label@),
{
    Identity { bytes: label.as_bytes_vec() }
}

/// Identity derivation is deterministic: the identity is a function of the
/// label alone, so two identities derived from one label are equal.
pub proof fn lemma_identity_deterministic(label: Seq<char>, id1: Seq<u8>, id2: Seq<u8>)
    requires
        id1 == encode_utf8(label),
        id2 == encode_utf8(label),
    ensures
        id1 == id2,
{
}

} // verus!
