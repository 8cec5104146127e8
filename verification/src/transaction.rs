//! The transactions that events wrap.
//!
//! To the event layer a transaction is a signed payload: it carries its own
//! signature and can check it. What the payload means is the ledger's
//! business.

use crate::signature::{PublicKey, Signature};
use vstd::prelude::*;

verus! {

/// A payload with the identity that signed it and the signature over it.
#[derive(Debug, PartialEq, Eq, Clone)]
pub struct Transaction {
    /// Who signed the payload.
    pub from: PublicKey,
    /// The canonical bytes of the payload.
    pub data: Vec<u8>,
    /// The signature of `from` over `data`.
    pub sig: Signature,
}

impl Transaction {
    /// Whether `sig` is a valid signature of `from` over `data`.
    pub open spec fn valid(&self) -> bool {
        self.sig.verifies(self.from@, self.data@)
    }

    /// Checks the transaction's own signature.
    pub fn verify(&self) -> (valid: bool)
        ensures
            valid == self.valid(),
    {
        self.sig.verify(self.from.as_ref(), self.data.as_slice())
    }
}

} // verus!
