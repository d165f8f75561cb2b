use vstd::prelude::*;
use crate::error::Failure;

verus! {

/// Width in bytes of the serialized state: one little-endian 32-bit word.
pub const STATE_SIZE: usize = 4;

/// The logical state persisted in an account's data region: the number of
/// times the account has been greeted.
#[derive(Clone, Copy, Debug, PartialEq, Eq, Structural)]
pub struct GreetingAccount {
    /// number of greetings recorded so far
    pub counter: u32,
}

/// The four little-endian bytes that encode the word `v`.
pub open spec fn le_bytes_of(v: u32) -> Seq<u8> {
    seq![
        (v % 256) as u8,
        ((v / 256) % 256) as u8,
        ((v / 65536) % 256) as u8,
        ((v / 16777216) % 256) as u8,
    ]
}

/// The 32-bit word held by a four-byte little-endian buffer.
pub open spec fn word_of_le_bytes(b: Seq<u8>) -> u32
    recommends
        b.len() == STATE_SIZE,
{
    (b[0] + b[1] * 256 + b[2] * 65536 + b[3] * 16777216) as u32
}

/// The successor of `v` under wrapping 32-bit arithmetic: the increment after
/// the maximum representable value yields 0 rather than failing.
pub open spec fn wrap_inc(v: u32) -> u32 {
    if v == 0xffff_ffffu32 {
        0
    } else {
        (v + 1) as u32
    }
}

impl GreetingAccount {
    /// Advance the counter by one, wrapping at the top of the 32-bit range.
    pub fn increment(&mut self)
        ensures
            final(self).counter == wrap_inc(old(self).counter),
    {
        if self.counter == u32::MAX {
            self.counter = 0;
        } else {
            self.counter = self.counter + 1;
        }
    }
}

/// Parse an account data region under the strict fixed-width encoding: the
/// buffer must hold exactly one encoded state, neither short nor with
/// trailing bytes.
pub fn decode_state(buf: &Vec<u8>) -> (r: Result<GreetingAccount, Failure>)
    ensures
        buf@.len() == STATE_SIZE ==> r == Ok::<GreetingAccount, Failure>(
            (GreetingAccount { counter: word_of_le_bytes(buf@) }),
        ),
        buf@.len() != STATE_SIZE ==> r == Err::<GreetingAccount, Failure>(Failure::CorruptState),
{
    if buf.len() != STATE_SIZE {
        return Err(Failure::CorruptState);
    }
    let b0 = buf[0] as u32;
    let b1 = buf[1] as u32;
    let b2 = buf[2] as u32;
    let b3 = buf[3] as u32;
    let v = b0 + b1 * 256 + b2 * 65536 + b3 * 16777216;
    Ok(GreetingAccount { counter: v })
}

/// Overwrite one byte of a buffer, leaving every other byte as it was.
fn set_byte(buf: &mut Vec<u8>, i: usize, b: u8)
    requires
        i < old(buf)@.len(),
    ensures
        final(buf)@ == old(buf)@.update(i as int, b),
{
    let slot = &mut buf[i];
    *slot = b;
}

/// Serialize `state` into the first `STATE_SIZE` bytes of `buf`, leaving any
/// trailing bytes untouched. A buffer with too little capacity is rejected
/// before a single byte is written.
pub fn encode_state(state: &GreetingAccount, buf: &mut Vec<u8>) -> (r: Result<(), Failure>)
    ensures
        old(buf)@.len() < STATE_SIZE ==> r == Err::<(), Failure>(Failure::BufferTooSmall)
            && final(buf)@ == old(buf)@,
        old(buf)@.len() >= STATE_SIZE ==> ({
            &&& r == Ok::<(), Failure>(())
            &&& final(buf)@.len() == old(buf)@.len()
            &&& final(buf)@.subrange(0, STATE_SIZE as int) == le_bytes_of(state.counter)
            &&& forall|i: int|
                STATE_SIZE <= i < old(buf)@.len() ==> final(buf)@[i] == old(buf)@[i]
        }),
{
    if buf.len() < STATE_SIZE {
        return Err(Failure::BufferTooSmall);
    }
    let v = state.counter;
    set_byte(buf, 0, (v % 256) as u8);
    set_byte(buf, 1, ((v / 256) % 256) as u8);
    set_byte(buf, 2, ((v / 65536) % 256) as u8);
    set_byte(buf, 3, ((v / 16777216) % 256) as u8);
    proof {
        assert(buf@.subrange(0, STATE_SIZE as int) =~= le_bytes_of(v));
    }
    Ok(())
}

/// Decoding the four bytes that encode a word gives back exactly that word.
pub proof fn lemma_value_round_trip(v: u32)
    ensures
        word_of_le_bytes(le_bytes_of(v)) == v,
{
    assert(v % 256 + ((v / 256) % 256) * 256 + ((v / 65536) % 256) * 65536 + ((v / 16777216)
        % 256) * 16777216 == v) by (bit_vector);
}

/// Re-encoding the word stored in a well-formed buffer reproduces the buffer
/// byte for byte: encoding is a left inverse of decoding on every buffer this
/// library produces.
pub proof fn lemma_bytes_round_trip(b: Seq<u8>)
    requires
        b.len() == STATE_SIZE,
    ensures
        le_bytes_of(word_of_le_bytes(b)) == b,
{
    let b0: u8 = b[0];
    let b1: u8 = b[1];
    let b2: u8 = b[2];
    let b3: u8 = b[3];
    let x: u32 = word_of_le_bytes(b);
    assert(x % 256 == b0 && (x / 256) % 256 == b1 && (x / 65536) % 256 == b2 && (x / 16777216)
        % 256 == b3) by (bit_vector)
        requires
            x == (b0 + b1 * 256 + b2 * 65536 + b3 * 16777216) as u32,
    ;
    assert(le_bytes_of(x) =~= b);
}

} // verus!
