//! The transaction envelope: a signature placeholder, the encoded runtime
//! message, the signer's identity and a nonce, serialized in that fixed
//! field order.

use crate::codec::{enc_bytes, le64, write_len_prefixed, write_u64_le};
use crate::errors::SerializationError;
use crate::identity::Identity;
use vstd::prelude::*;

verus! {

/// A transaction ready to be serialized.  The generator performs no real
/// signing: the signature is an empty placeholder and the nonce is zero.
#[derive(Clone, PartialEq, Eq, Debug)]
pub struct Transaction {
    pub signature: Vec<u8>,
    pub runtime_msg: Vec<u8>,
    pub pub_key: Identity,
    pub nonce: u64,
}

/// The mathematical value of a `Transaction`.
pub struct TransactionV {
    pub signature: Seq<u8>,
    pub runtime_msg: Seq<u8>,
    pub pub_key: Seq<u8>,
    pub nonce: u64,
}

impl View for Transaction {
    type V = TransactionV;

    open spec fn view(&self) -> TransactionV {
        TransactionV {
            signature: self.signature@,
            runtime_msg: self.runtime_msg@,
            pub_key: self.pub_key@,
            nonce: self.nonce,
        }
    }
}

/// Wire form of a transaction: each byte-string field framed by its length,
/// then the nonce little-endian, in the fixed order signature,
/// runtime message, signer identity, nonce.
pub open spec fn enc_tx(t: TransactionV) -> Seq<u8> {
    enc_bytes(t.signature) + enc_bytes(t.runtime_msg) + enc_bytes(t.pub_key) + le64(t.nonce)
}

/// Every byte-string field of the transaction fits a `u32` length field.
pub open spec fn wf_tx(t: TransactionV) -> bool {
    t.signature.len() <= u32::MAX && t.runtime_msg.len() <= u32::MAX && t.pub_key.len()
        <= u32::MAX
}

impl Transaction {
    /// Builds the envelope around an encoded runtime message: an empty
    /// placeholder signature, the given signer, and a nonce fixed at zero.
    pub fn new(msg: Vec<u8>, pub_key: Identity) -> (r: Transaction)
        ensures
            r@.signature == Seq::<u8>::empty(),
            r@.runtime_msg == msg@,
            r@.pub_key == pub_key@,
            r@.nonce == 0,
    {
        Transaction { signature: Vec::new(), runtime_msg: msg, pub_key, nonce: 0 }
    }

    /// Serializes the envelope as `enc_tx` describes.  Fails exactly when a
    /// byte-string field is longer than its `u32` length field admits.
    pub fn serialize(&self) -> (r: Result<Vec<u8>, SerializationError>)
        ensures
            r is Ok <==> wf_tx(self@),
            r matches Ok(b) ==> b@ == enc_tx(self@),
    {
        if self.signature.len() > u32::MAX as usize {
            return Err(SerializationError);
        }
        if self.runtime_msg.len() > u32::MAX as usize {
            return Err(SerializationError);
        }
        if self.pub_key.bytes.len() > u32::MAX as usize {
            return Err(SerializationError);
        }
        let mut out: Vec<u8> = Vec::new();
        write_len_prefixed(&mut out, self.signature.as_slice());
        write_len_prefixed(&mut out, self.runtime_msg.as_slice());
        write_len_prefixed(&mut out, self.pub_key.bytes.as_slice());
        write_u64_le(&mut out, self.nonce);
        assert(out@ =~= enc_tx(self@));
        Ok(out)
    }
}

/// The final wire artifact: one fully serialized transaction, with no
/// further structure exposed to its consumer.
#[derive(Clone, PartialEq, Eq, Debug)]
pub struct RawTx {
    pub data: Vec<u8>,
}

impl View for RawTx {
    type V = Seq<u8>;

    open spec fn view(&self) -> Seq<u8> {
        self.data@
    }
}

} // verus!
