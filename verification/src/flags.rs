//! Capability bitmasks and their scalar encodings.

use vstd::prelude::*;

verus! {

/// Number of bits a [`UserFlags`] value holds.
pub const WIDTH: u32 = 32;

/// The bits of a 64-bit scalar that lie within the width.
pub const MASK: i64 = 0xffff_ffff;

/// The bit that marks a bot account.
pub const BOT: u32 = 1;

/// A bitmask of extra information associated with a user.
///
/// Bits without a name are kept as they are, so that values written by a newer
/// peer survive a trip through this one.
#[derive(Clone, Copy, Debug, PartialEq, Eq, Structural)]
pub struct UserFlags {
    pub bits: u32,
}

/// The low 32 bits of a 64-bit scalar.
pub open spec fn low_bits(raw: i64) -> u32 {
    raw as u32
}

/// The 64-bit scalar that holds `bits` in its low 32 bits and nothing above.
pub open spec fn widened(bits: u32) -> i64 {
    bits as i64
}

impl UserFlags {
    /// Whether the bot bit is set.
    pub open spec fn spec_is_bot(self) -> bool {
        self.bits & BOT == BOT
    }

    /// Whether every bit of `other` is set in `self`.
    pub open spec fn spec_contains(self, other: UserFlags) -> bool {
        self.bits & other.bits == other.bits
    }

    /// The value with no bit set.
    pub fn empty() -> (flags: UserFlags)
        ensures
            flags.bits == 0,
    {
        UserFlags { bits: 0 }
    }

    /// The value with exactly the bot bit set.
    pub fn bot() -> (flags: UserFlags)
        ensures
            flags.bits == BOT,
            flags.spec_is_bot(),
    {
        assert(BOT & BOT == BOT) by (bit_vector);
        UserFlags { bits: BOT }
    }

    /// The raw bits.
    pub fn bits(&self) -> (bits: u32)
        ensures
            bits == self.bits,
    {
        self.bits
    }

    /// Takes any bit pattern; nothing is rejected and nothing is cleared.
    pub fn from_bits_truncate(bits: u32) -> (flags: UserFlags)
        ensures
            flags.bits == bits,
    {
        UserFlags { bits }
    }

    #[verifier::when_used_as_spec(spec_contains)]
    pub fn contains(self, other: UserFlags) -> (held: bool)
        ensures
            held == self.spec_contains(other),
    {
        self.bits & other.bits == other.bits
    }

    #[verifier::when_used_as_spec(spec_is_bot)]
    pub fn is_bot(self) -> (held: bool)
        ensures
            held == self.spec_is_bot(),
    {
        self.bits & BOT == BOT
    }

    /// Sets every bit of `other`, leaving the rest alone.
    pub fn insert(&mut self, other: UserFlags)
        ensures
            final(self).bits == old(self).bits | other.bits,
            final(self).spec_contains(other),
    {
        let before: u32 = self.bits;
        let added: u32 = other.bits;
        assert((before | added) & added == added) by (bit_vector);
        self.bits = before | added;
    }

    /// Clears every bit of `other`, leaving the rest alone.
    pub fn remove(&mut self, other: UserFlags)
        ensures
            final(self).bits == old(self).bits & !other.bits,
    {
        self.bits = self.bits & !other.bits;
    }

    /// Encodes for a 32-bit column or wire scalar.
    pub fn encode_u32(self) -> (raw: u32)
        ensures
            raw == self.bits,
    {
        self.bits
    }

    /// Decodes a 32-bit scalar. Every pattern is a value.
    pub fn decode_u32(raw: u32) -> (flags: UserFlags)
        ensures
            flags.bits == raw,
    {
        UserFlags { bits: raw }
    }

    /// Encodes for a 64-bit signed column or wire scalar.
    pub fn encode_i64(self) -> (raw: i64)
        ensures
            raw == widened(self.bits),
            0 <= raw <= u32::MAX,
            raw == self.bits,
    {
        self.bits as i64
    }

    /// Decodes a 64-bit signed scalar: the bits above the width are dropped,
    /// the ones within it are kept.
    pub fn decode_i64(raw: i64) -> (flags: UserFlags)
        ensures
            flags.bits == low_bits(raw),
    {
        UserFlags { bits: #[verifier::truncate] (raw as u32) }
    }
}

/// Encoding to 64 bits and decoding gives back every bit, named or not.
pub proof fn lemma_round_trip_i64(flags: UserFlags)
    ensures
        low_bits(widened(flags.bits)) == flags.bits,
        0 <= widened(flags.bits) <= u32::MAX,
        widened(flags.bits) == flags.bits,
{
    let bits = flags.bits;
    assert(((bits as i64) as u32) == bits) by (bit_vector);
    assert(0 <= (bits as i64) <= 0xffff_ffff && (bits as i64) == bits) by (bit_vector);
}

/// Decoding 64 bits keeps the bits within the width and drops the others:
/// what comes out, encoded again, is the scalar with the bits above the width
/// cleared.
pub proof fn lemma_decode_i64_truncates(raw: i64)
    ensures
        widened(low_bits(raw)) == raw & MASK,
        0 <= raw <= u32::MAX ==> low_bits(raw) == raw,
        forall|bit: u32|
            bit < WIDTH ==> (#[trigger] (low_bits(raw) >> bit)) & 1 == ((raw >> bit) & 1) as u32,
{
    assert(((raw as u32) as i64) == raw & 0xffff_ffff) by (bit_vector);
    assert(0 <= raw <= 0xffff_ffff ==> (raw as u32) == raw) by (bit_vector);
    assert forall|bit: u32| bit < WIDTH implies (#[trigger] (low_bits(raw) >> bit)) & 1 == ((raw
        >> bit) & 1) as u32 by {
        assert(bit < 32 ==> ((raw as u32) >> bit) & 1 == ((raw >> bit) & 1) as u32)
            by (bit_vector);
    }
}

/// Decoding what was decoded and encoded again changes nothing.
pub proof fn lemma_decode_i64_idempotent(raw: i64)
    ensures
        low_bits(widened(low_bits(raw))) == low_bits(raw),
{
    lemma_round_trip_i64(UserFlags { bits: low_bits(raw) });
}

/// Setting the bot bit sets that bit and no other, and the result survives
/// both encodings bit for bit.
pub proof fn lemma_bot_bit_round_trip(flags: UserFlags)
    ensures
        ({
            let marked = UserFlags { bits: flags.bits | BOT };
            &&& marked.spec_is_bot()
            &&& marked.bits & !BOT == flags.bits & !BOT
            &&& UserFlags { bits: low_bits(widened(marked.bits)) } == marked
            &&& UserFlags { bits: low_bits(widened(marked.bits)) }.spec_is_bot()
        }),
{
    let bits = flags.bits;
    assert((bits | 1u32) & 1u32 == 1u32) by (bit_vector);
    assert((bits | 1u32) & !1u32 == bits & !1u32) by (bit_vector);
    lemma_round_trip_i64(UserFlags { bits: bits | BOT });
}

} // verus!
