//! Instants of UTC time and their canonical bytes.
//!
//! A timestamp is signed over bytes, not over a date: signer and verifier must
//! arrive at the same bytes for the same instant. The layout is fixed at twelve
//! bytes, the seconds since the Unix epoch as a 64-bit two's complement number
//! and then the nanoseconds within the second as a 32-bit number, each with
//! its lowest byte first.

use crate::outside;
use vstd::prelude::*;

verus! {

/// An instant of UTC time.
#[derive(Debug, PartialEq, Eq, Copy, Clone, Hash, Structural)]
pub struct UtcDateTime {
    /// Whole seconds since 1970-01-01T00:00:00Z; negative before it.
    pub secs: i64,
    /// Nanoseconds since the last whole second.
    pub nanos: u32,
}

/// The `width` low bytes of `x`, lowest byte first.
pub open spec fn le_bytes(x: nat, width: nat) -> Seq<u8>
    decreases width,
{
    if width == 0 {
        Seq::empty()
    } else {
        seq![(x % 256) as u8] + le_bytes(x / 256, (width - 1) as nat)
    }
}

/// The number below 2^64 that stands for `x` in 64-bit two's complement.
pub open spec fn twos_complement(x: i64) -> nat {
    if x < 0 {
        (x + 0x1_0000_0000_0000_0000) as nat
    } else {
        x as nat
    }
}

/// 256 to the power of `width`: the first number that `width` bytes cannot hold.
pub open spec fn byte_limit(width: nat) -> nat
    decreases width,
{
    if width == 0 {
        1
    } else {
        256 * byte_limit((width - 1) as nat)
    }
}

impl UtcDateTime {
    /// The canonical bytes of the instant: the bytes that a timestamp's
    /// signature is made over and checked against.
    pub open spec fn encoding(self) -> Seq<u8> {
        le_bytes(twos_complement(self.secs), 8) + le_bytes(self.nanos as nat, 4)
    }

    /// Computes the canonical bytes of the instant.
    pub fn canonical_bytes(&self) -> (bytes: Vec<u8>)
        ensures
            bytes@ == self.encoding(),
            bytes@.len() == 12,
    {
        proof {
            lemma_encoding_len(*self);
        }
        match outside::bincode_serialize(self.secs, self.nanos) {
            Ok(bytes) => bytes,
            // Two integers always serialize: this arm is never taken.
            Err(_) => Vec::new(),
        }
    }
}

/// `le_bytes` gives as many bytes as it is asked for.
pub proof fn lemma_le_bytes_len(x: nat, width: nat)
    ensures
        le_bytes(x, width).len() == width,
    decreases width,
{
    if width > 0 {
        lemma_le_bytes_len(x / 256, (width - 1) as nat);
    }
}

/// Two numbers that fit in `width` bytes and have the same bytes are the same
/// number.
pub proof fn lemma_le_bytes_injective(x: nat, y: nat, width: nat)
    requires
        x < byte_limit(width),
        y < byte_limit(width),
        le_bytes(x, width) == le_bytes(y, width),
    ensures
        x == y,
    decreases width,
{
    if width > 0 {
        let rest = (width - 1) as nat;
        let bx = le_bytes(x, width);
        let by = le_bytes(y, width);
        lemma_le_bytes_len(x / 256, rest);
        lemma_le_bytes_len(y / 256, rest);
        assert(x % 256 == y % 256) by {
            assert(bx[0] == (x % 256) as u8);
            assert(by[0] == (y % 256) as u8);
        }
        assert(le_bytes(x / 256, rest) =~= bx.subrange(1, width as int));
        assert(le_bytes(y / 256, rest) =~= by.subrange(1, width as int));
        lemma_le_bytes_injective(x / 256, y / 256, rest);
    }
}

/// Every instant has twelve canonical bytes.
pub proof fn lemma_encoding_len(dt: UtcDateTime)
    ensures
        dt.encoding().len() == 12,
{
    lemma_le_bytes_len(twos_complement(dt.secs), 8);
    lemma_le_bytes_len(dt.nanos as nat, 4);
}

/// Different instants have different canonical bytes, so a signature made
/// over one instant's bytes was made over no other instant's.
pub proof fn lemma_encoding_injective(a: UtcDateTime, b: UtcDateTime)
    requires
        a.encoding() == b.encoding(),
    ensures
        a == b,
{
    let (sa, sb) = (twos_complement(a.secs), twos_complement(b.secs));
    let (na, nb) = (a.nanos as nat, b.nanos as nat);
    lemma_le_bytes_len(sa, 8);
    lemma_le_bytes_len(sb, 8);
    lemma_le_bytes_len(na, 4);
    lemma_le_bytes_len(nb, 4);
    assert(le_bytes(sa, 8) =~= a.encoding().subrange(0, 8));
    assert(le_bytes(sb, 8) =~= b.encoding().subrange(0, 8));
    assert(le_bytes(na, 4) =~= a.encoding().subrange(8, 12));
    assert(le_bytes(nb, 4) =~= b.encoding().subrange(8, 12));
    reveal_with_fuel(byte_limit, 9);
    assert(byte_limit(8) == 0x1_0000_0000_0000_0000);
    assert(byte_limit(4) == 0x1_0000_0000);
    lemma_le_bytes_injective(sa, sb, 8);
    lemma_le_bytes_injective(na, nb, 4);
}

} // verus!
