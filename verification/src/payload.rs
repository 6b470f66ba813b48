//! The verdict message: a fixed layout of at least 105 bytes.
//!
//! | offset | size | field                                   |
//! |--------|------|-----------------------------------------|
//! | 0      | 32   | trial id, UTF-8, NUL-padded             |
//! | 32     | 32   | candidate address                       |
//! | 64     | 32   | referrer address (zeros when none)      |
//! | 96     | 8    | score, big-endian                       |
//! | 104    | 1    | passed flag (non-zero means verified)   |

use vstd::prelude::*;
use crate::state::{Address, CustomError};

verus! {

/// Shortest verdict message, in bytes.
pub const PAYLOAD_LEN: usize = 105;

/// The fields of a verdict message.
pub struct VerdictPayload {
    pub trial_id_field: [u8; 32],
    pub candidate: Address,
    pub referrer: Address,
    pub score: u64,
    pub is_verified: bool,
}

/// The number that eight bytes spell, most significant byte first.
pub open spec fn be_u64(b: Seq<u8>) -> int
    recommends
        b.len() == 8,
{
    b[0] as int * 0x100000000000000 + b[1] as int * 0x1000000000000 + b[2] as int
        * 0x10000000000 + b[3] as int * 0x100000000 + b[4] as int * 0x1000000 + b[5] as int
        * 0x10000 + b[6] as int * 0x100 + b[7] as int
}

/// The eight bytes of a number, most significant byte first.
pub open spec fn be_bytes(x: u64) -> Seq<u8> {
    seq![
        (x >> 56) as u8,
        (x >> 48) as u8,
        (x >> 40) as u8,
        (x >> 32) as u8,
        (x >> 24) as u8,
        (x >> 16) as u8,
        (x >> 8) as u8,
        x as u8,
    ]
}

/// The message that carries the given fields, laid out as the table above says.
pub open spec fn encode_verdict(
    trial_id_field: Seq<u8>,
    candidate: Seq<u8>,
    referrer: Seq<u8>,
    score: u64,
    passed: bool,
) -> Seq<u8> {
    trial_id_field + candidate + referrer + be_bytes(score) + seq![
        if passed {
            1u8
        } else {
            0u8
        },
    ]
}

impl VerdictPayload {
    /// The fields are those that the message `p` carries.
    pub open spec fn read_from(&self, p: Seq<u8>) -> bool {
        &&& self.trial_id_field@ == p.subrange(0, 32)
        &&& self.candidate@ == p.subrange(32, 64)
        &&& self.referrer@ == p.subrange(64, 96)
        &&& self.score == be_u64(p.subrange(96, 104))
        &&& self.is_verified == (p[104] != 0)
    }

    /// The verdict pays out: verified, with a score of at least 70.
    pub open spec fn passes(&self) -> bool {
        self.is_verified && self.score >= 70
    }
}

/// Copies 32 bytes of `bytes`, from `start` on.
fn read_address(bytes: &[u8], start: usize) -> (a: [u8; 32])
    requires
        start + 32 <= bytes@.len(),
    ensures
        a@ == bytes@.subrange(start as int, start + 32),
{
    let len = bytes.len();
    let mut a: [u8; 32] = [0u8; 32];
    let mut i: usize = 0;
    while i < 32
        invariant
            i <= 32,
            len == bytes@.len(),
            start + 32 <= bytes@.len(),
            forall|j: int| 0 <= j < i ==> a@[j] == bytes@[start + j],
        decreases 32 - i,
    {
        a[i] = bytes[start + i];
        i = i + 1;
    }
    assert(a@ =~= bytes@.subrange(start as int, start + 32));
    a
}

/// Reads the eight bytes from `start` on as a big-endian number.
fn read_be_u64(bytes: &[u8], start: usize) -> (x: u64)
    requires
        start + 8 <= bytes@.len(),
    ensures
        x == be_u64(bytes@.subrange(start as int, start + 8)),
{
    let x: u64 = (bytes[start] as u64) * 0x100000000000000 + (bytes[start + 1] as u64)
        * 0x1000000000000 + (bytes[start + 2] as u64) * 0x10000000000 + (bytes[start + 3] as u64)
        * 0x100000000 + (bytes[start + 4] as u64) * 0x1000000 + (bytes[start + 5] as u64)
        * 0x10000 + (bytes[start + 6] as u64) * 0x100 + (bytes[start + 7] as u64);
    x
}

/// Splits a verdict message into its fields. A message shorter than 105 bytes
/// is refused with `InvalidPayloadLength`; bytes after the first 105 are ignored.
pub fn parse_verdict_payload(payload: &[u8]) -> (r: Result<VerdictPayload, CustomError>)
    ensures
        payload@.len() < PAYLOAD_LEN ==> r == Err::<VerdictPayload, CustomError>(
            CustomError::InvalidPayloadLength,
        ),
        payload@.len() >= PAYLOAD_LEN ==> (r matches Ok(v) && v.read_from(payload@)),
        r matches Ok(v) ==> {
            &&& v.trial_id_field@ == payload@.subrange(0, 32)
            &&& v.candidate@ == payload@.subrange(32, 64)
            &&& v.referrer@ == payload@.subrange(64, 96)
            &&& v.score == be_u64(payload@.subrange(96, 104))
            &&& v.is_verified == (payload@[104] != 0)
        },
{
    if payload.len() < PAYLOAD_LEN {
        return Err(CustomError::InvalidPayloadLength);
    }
    let trial_id_field = read_address(payload, 0);
    let candidate = read_address(payload, 32);
    let referrer = read_address(payload, 64);
    let score = read_be_u64(payload, 96);
    let is_verified = payload[104] != 0;
    Ok(VerdictPayload { trial_id_field, candidate, referrer, score, is_verified })
}

} // verus!
