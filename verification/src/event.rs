//! The entries of the log.
//!
//! Every event names who vouches for it and carries a signature over the
//! canonical bytes of what it says. Anyone who holds an event can check it;
//! nobody needs the private key for that.

use crate::datetime::UtcDateTime;
use crate::signature::{KeyPair, PublicKey, Signature};
use crate::transaction::Transaction;
use vstd::prelude::*;

verus! {

/// An entry of the log.
#[derive(Debug, PartialEq, Eq, Clone)]
pub enum Event {
    /// A transaction, which carries and checks its own signature.
    Transaction(Transaction),
    /// `from` attests to have seen the transaction signed `tx_sig`: `sig` is
    /// the signature of `from` over the raw bytes of `tx_sig`.
    Signature { from: PublicKey, tx_sig: Signature, sig: Signature },
    /// `from` attests to the instant `dt`: `sig` is the signature of `from`
    /// over the canonical bytes of `dt`.
    Timestamp { from: PublicKey, dt: UtcDateTime, sig: Signature },
}

impl Event {
    /// Whether the event is authentic: whether its signature is valid under
    /// the identity it names, over the bytes that its kind prescribes.
    pub open spec fn valid(&self) -> bool {
        match *self {
            Event::Transaction(tx) => tx.valid(),
            Event::Signature { from, tx_sig, sig } => sig.verifies(from@, tx_sig@),
            Event::Timestamp { from, dt, sig } => sig.verifies(from@, dt.encoding()),
        }
    }

    /// A timestamp event for `dt`, signed by `from`.
    ///
    /// The signature is made over the canonical bytes of `dt`, the same bytes
    /// that `verify` checks it against, so the event verifies.
    pub fn new_timestamp(from: &KeyPair, dt: UtcDateTime) -> (event: Self)
        ensures
            event matches Event::Timestamp { from: signer, dt: instant, sig }
                && signer@ == from.public_key()
                && instant == dt
                && sig@ == from.signature(dt.encoding()),
            event.valid(),
    {
        let sign_data = dt.canonical_bytes();
        let sig = from.sign(sign_data.as_slice());
        Event::Timestamp { from: from.pubkey(), dt, sig }
    }

    /// The signature of the transaction that the event wraps.
    ///
    /// Only a transaction event has one; it is what a later witness event
    /// refers to. The other kinds give `None`.
    pub fn get_signature(&self) -> (sig: Option<Signature>)
        ensures
            sig == match *self {
                Event::Transaction(tx) => Some(tx.sig),
                Event::Signature { .. } => None,
                Event::Timestamp { .. } => None,
            },
    {
        match self {
            Event::Transaction(tr) => Some(tr.sig),
            Event::Signature { .. } => None,
            Event::Timestamp { .. } => None,
        }
    }

    /// Checks the event.
    ///
    /// A transaction event is exactly as good as its transaction; nothing is
    /// checked on top. The other kinds are checked against the bytes that they
    /// sign. The answer is always a plain `bool`.
    pub fn verify(&self) -> (valid: bool)
        ensures
            valid == self.valid(),
            self matches Event::Transaction(tx) ==> valid == tx.valid(),
    {
        match self {
            Event::Transaction(tr) => tr.verify(),
            Event::Signature { from, tx_sig, sig } => sig.verify(from.as_ref(), tx_sig.as_ref()),
            Event::Timestamp { from, dt, sig } => {
                let sign_data = dt.canonical_bytes();
                sig.verify(from.as_ref(), sign_data.as_slice())
            },
        }
    }
}

} // verus!
