//! A stable byte representation of the state shape, for the persistence
//! and IPC collaborators.
//!
//! The representation is explicit and independent of any in-memory
//! detail: one byte recording whether a current sprint is present,
//! followed by the task count as eight little-endian bytes. Nothing of
//! the lock wrapper leaks into it. Encoding and decoding are proved to
//! round-trip field for field.

use crate::state::{AppState, Sprint, Task};
use vstd::prelude::*;

verus! {

/// The eight little-endian bytes of a 64-bit count.
pub open spec fn le64(n: u64) -> Seq<u8> {
    seq![
        (n & 0xff) as u8,
        ((n >> 8) & 0xff) as u8,
        ((n >> 16) & 0xff) as u8,
        ((n >> 24) & 0xff) as u8,
        ((n >> 32) & 0xff) as u8,
        ((n >> 40) & 0xff) as u8,
        ((n >> 48) & 0xff) as u8,
        ((n >> 56) & 0xff) as u8,
    ]
}

/// The 64-bit count denoted by eight little-endian bytes.
pub open spec fn le64_value(b: Seq<u8>) -> u64
    recommends
        b.len() == 8,
{
    (b[0] as u64) | ((b[1] as u64) << 8) | ((b[2] as u64) << 16) | ((b[3] as u64) << 24)
        | ((b[4] as u64) << 32) | ((b[5] as u64) << 40) | ((b[6] as u64) << 48) | (
    (b[7] as u64) << 56)
}

/// Reading back the little-endian bytes of a count yields the count.
pub proof fn lemma_le64_round_trip(n: u64)
    ensures
        le64_value(le64(n)) == n,
{
    assert((((n & 0xff) as u8) as u64) | ((((n >> 8) & 0xff) as u8) as u64) << 8 | ((((n >> 16)
        & 0xff) as u8) as u64) << 16 | ((((n >> 24) & 0xff) as u8) as u64) << 24 | ((((n >> 32)
        & 0xff) as u8) as u64) << 32 | ((((n >> 40) & 0xff) as u8) as u64) << 40 | ((((n >> 48)
        & 0xff) as u8) as u64) << 48 | ((((n >> 56) & 0xff) as u8) as u64) << 56 == n)
        by (bit_vector);
}

/// The flag byte recording whether a current sprint is present.
pub open spec fn sprint_flag(s: AppState) -> u8 {
    if s.current_sprint is Some {
        1u8
    } else {
        0u8
    }
}

/// The byte representation of a state: the sprint-presence flag, then
/// the task count, little-endian.
pub open spec fn spec_encode(s: AppState) -> Seq<u8> {
    seq![sprint_flag(s)] + le64(s.tasks@.len() as u64)
}

/// Whether a byte sequence is a representation this crate produces: nine
/// bytes, a flag of zero or one, and a count that fits the platform's
/// collection size.
pub open spec fn well_formed(b: Seq<u8>) -> bool {
    &&& b.len() == 9
    &&& (b[0] == 0 || b[0] == 1)
    &&& le64_value(b.subrange(1, 9)) <= usize::MAX as u64
}

/// The state denoted by a well-formed byte sequence, as its two fields;
/// `None` on any other sequence.
pub open spec fn spec_decode(b: Seq<u8>) -> Option<(Option<Sprint>, Seq<Task>)> {
    if well_formed(b) {
        Some(
            (
                if b[0] == 1 {
                    Some(Sprint {})
                } else {
                    None
                },
                Seq::new(le64_value(b.subrange(1, 9)) as nat, |i: int| (Task {})),
            ),
        )
    } else {
        None
    }
}

/// Round trip: decoding an encoded state always succeeds and yields the
/// original state's fields, equal field for field.
pub proof fn lemma_round_trip(s: AppState)
    ensures
        spec_decode(spec_encode(s)) == Some((s.current_sprint, s.tasks@)),
{
    vstd::std_specs::vec::axiom_spec_len(&s.tasks);
    assert(s.tasks@.len() <= usize::MAX);
    let n = s.tasks@.len() as u64;
    let enc = spec_encode(s);
    lemma_le64_round_trip(n);
    assert(enc.subrange(1, 9) =~= le64(n));
    assert(well_formed(enc));
    let decoded = spec_decode(enc)->0;
    assert(decoded.0 == s.current_sprint);
    assert(decoded.1 =~= s.tasks@);
}

/// Serializes a state into its byte representation.
pub fn encode_state(s: &AppState) -> (out: Vec<u8>)
    ensures
        out@ == spec_encode(*s),
        well_formed(out@),
{
    let n: u64 = s.tasks.len() as u64;
    let mut out: Vec<u8> = Vec::new();
    if s.current_sprint.is_some() {
        out.push(1);
    } else {
        out.push(0);
    }
    out.push((n & 0xff) as u8);
    out.push(((n >> 8) & 0xff) as u8);
    out.push(((n >> 16) & 0xff) as u8);
    out.push(((n >> 24) & 0xff) as u8);
    out.push(((n >> 32) & 0xff) as u8);
    out.push(((n >> 40) & 0xff) as u8);
    out.push(((n >> 48) & 0xff) as u8);
    out.push(((n >> 56) & 0xff) as u8);
    proof {
        assert(out@ =~= spec_encode(*s));
        lemma_le64_round_trip(n);
        assert(out@.subrange(1, 9) =~= le64(n));
    }
    out
}

/// Deserializes a byte representation back into a state. Succeeds on
/// exactly the well-formed sequences; the result's fields are the ones
/// the sequence denotes.
pub fn decode_state(bytes: &Vec<u8>) -> (r: Option<AppState>)
    ensures
        match r {
            Some(s) => spec_decode(bytes@) == Some((s.current_sprint, s.tasks@)),
            None => spec_decode(bytes@) is None,
        },
{
    if bytes.len() != 9 {
        return None;
    }
    let flag = bytes[0];
    if flag > 1 {
        return None;
    }
    let n: u64 = (bytes[1] as u64) | ((bytes[2] as u64) << 8) | ((bytes[3] as u64) << 16) | ((
    bytes[4] as u64) << 24) | ((bytes[5] as u64) << 32) | ((bytes[6] as u64) << 40) | ((
    bytes[7] as u64) << 48) | ((bytes[8] as u64) << 56);
    proof {
        assert(bytes@.subrange(1, 9) =~= seq![
            bytes@[1],
            bytes@[2],
            bytes@[3],
            bytes@[4],
            bytes@[5],
            bytes@[6],
            bytes@[7],
            bytes@[8],
        ]);
    }
    if n > (usize::MAX as u64) {
        return None;
    }
    let count: usize = n as usize;
    let mut tasks: Vec<Task> = Vec::new();
    let mut i: usize = 0;
    while i < count
        invariant
            i <= count,
            tasks@ =~= Seq::new(i as nat, |j: int| (Task {})),
        decreases count - i,
    {
        tasks.push(Task {});
        i = i + 1;
    }
    let current_sprint = if flag == 1 {
        Some(Sprint {})
    } else {
        None
    };
    let s = AppState { current_sprint, tasks };
    proof {
        assert(s.tasks@ =~= Seq::new(le64_value(bytes@.subrange(1, 9)) as nat, |j: int| (Task {})));
    }
    Some(s)
}

} // verus!
