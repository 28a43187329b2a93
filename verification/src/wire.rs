//! The layout of a report in a binary frame.
//!
//! A report travels as its fields in their order: the success flag as one
//! byte, 0 or 1; the block number, the cycles, the proving time and the
//! fetch time as eight bytes each, least significant first; then the proof,
//! as one byte 0 where there is none, or as one byte 1, the proof's length
//! in eight bytes, least significant first, and the proof's bytes. Bytes
//! that follow a report are not looked at.

use crate::report::{BlockProvingReport, ReportView};
use vstd::bytes::{
    lemma_auto_spec_u64_to_from_le_bytes, spec_u64_from_le_bytes, spec_u64_to_le_bytes,
    u64_from_le_bytes, u64_to_le_bytes,
};
use vstd::prelude::*;
use vstd::slice::{slice_subrange, slice_to_vec};

verus! {

/// Bytes taken by the five fields in front of the proof.
pub const FIXED_LEN: usize = 33;

/// Why bytes are no report.
#[derive(Clone, Copy, Debug, PartialEq, Eq, Structural)]
pub enum WireError {
    /// The bytes end before the report does.
    Truncated,
    /// The success flag is neither 0 nor 1.
    InvalidFlag,
    /// The byte that tells whether a proof follows is neither 0 nor 1.
    InvalidTag,
}

/// The layout of a proof, or of its absence.
pub open spec fn wire_proof(payload: Option<Seq<u8>>) -> Seq<u8> {
    match payload {
        None => seq![0u8],
        Some(p) => seq![1u8] + spec_u64_to_le_bytes(p.len() as u64) + p,
    }
}

/// The layout of a report.
pub open spec fn wire_report(r: ReportView) -> Seq<u8> {
    seq![if r.success { 1u8 } else { 0u8 }] + spec_u64_to_le_bytes(r.block_number)
        + spec_u64_to_le_bytes(r.cycles) + spec_u64_to_le_bytes(r.proving_milliseconds)
        + spec_u64_to_le_bytes(r.data_fetch_milliseconds) + wire_proof(r.proof)
}

/// The eight bytes at `at`, read as a number, least significant first.
pub open spec fn u64_at(bytes: Seq<u8>, at: int) -> u64 {
    spec_u64_from_le_bytes(bytes.subrange(at, at + 8))
}

/// The report that bytes hold at their front, or why they hold none.
pub open spec fn parse_report(bytes: Seq<u8>) -> Result<ReportView, WireError> {
    if bytes.len() < 1 {
        Err(WireError::Truncated)
    } else if bytes[0] > 1 {
        Err(WireError::InvalidFlag)
    } else if bytes.len() < FIXED_LEN + 1 {
        Err(WireError::Truncated)
    } else if bytes[FIXED_LEN as int] > 1 {
        Err(WireError::InvalidTag)
    } else {
        let fixed = ReportView {
            success: bytes[0] == 1,
            block_number: u64_at(bytes, 1),
            cycles: u64_at(bytes, 9),
            proving_milliseconds: u64_at(bytes, 17),
            data_fetch_milliseconds: u64_at(bytes, 25),
            proof: None,
        };
        if bytes[FIXED_LEN as int] == 0 {
            Ok(fixed)
        } else if bytes.len() < FIXED_LEN + 9 {
            Err(WireError::Truncated)
        } else if bytes.len() - (FIXED_LEN + 9) < u64_at(bytes, FIXED_LEN + 1) {
            Err(WireError::Truncated)
        } else {
            Ok(
                ReportView {
                    proof: Some(
                        bytes.subrange(
                            FIXED_LEN + 9,
                            FIXED_LEN + 9 + u64_at(bytes, FIXED_LEN + 1),
                        ),
                    ),
                    ..fixed
                },
            )
        }
    }
}

fn put_u64(out: &mut Vec<u8>, x: u64)
    ensures
        final(out)@ == old(out)@ + spec_u64_to_le_bytes(x),
{
    let mut le = u64_to_le_bytes(x);
    out.append(&mut le);
}

/// Lays a report out for a binary frame, from which it can be read again.
pub fn encode_report(report: &BlockProvingReport) -> (bytes: Vec<u8>)
    ensures
        bytes@ == wire_report(report@),
        parse_report(bytes@) == Ok::<ReportView, WireError>(report@),
{
    let mut out: Vec<u8> = Vec::new();
    out.push(if report.success { 1u8 } else { 0u8 });
    put_u64(&mut out, report.block_number);
    put_u64(&mut out, report.cycles);
    put_u64(&mut out, report.proving_milliseconds);
    put_u64(&mut out, report.data_fetch_milliseconds);
    assert(out@ =~= seq![if report.success { 1u8 } else { 0u8 }] + spec_u64_to_le_bytes(
        report.block_number,
    ) + spec_u64_to_le_bytes(report.cycles) + spec_u64_to_le_bytes(report.proving_milliseconds)
        + spec_u64_to_le_bytes(report.data_fetch_milliseconds));
    let ghost fixed = out@;
    match &report.proof {
        None => {
            out.push(0u8);
            assert(out@ =~= fixed + wire_proof(None));
        },
        Some(payload) => {
            out.push(1u8);
            put_u64(&mut out, payload.len() as u64);
            out.extend_from_slice(payload.as_slice());
            assert(out@ =~= fixed + wire_proof(Some(payload@)));
        },
    }
    proof {
        lemma_decode_encode(report@, Seq::empty());
        assert(wire_report(report@) + Seq::<u8>::empty() =~= wire_report(report@));
    }
    out
}

fn get_u64(bytes: &[u8], at: usize) -> (x: u64)
    requires
        at + 8 <= bytes@.len(),
    ensures
        x == u64_at(bytes@, at as int),
{
    let _ = bytes.len();
    u64_from_le_bytes(slice_subrange(bytes, at, at + 8))
}

/// Reads the report that a binary frame holds at its front.
pub fn decode_report(bytes: &[u8]) -> (report: Result<BlockProvingReport, WireError>)
    ensures
        match report {
            Ok(r) => parse_report(bytes@) == Ok::<ReportView, WireError>(r@),
            Err(e) => parse_report(bytes@) == Err::<ReportView, WireError>(e),
        },
{
    if bytes.len() < 1 {
        return Err(WireError::Truncated);
    }
    if bytes[0] > 1 {
        return Err(WireError::InvalidFlag);
    }
    if bytes.len() < FIXED_LEN + 1 {
        return Err(WireError::Truncated);
    }
    let tag = bytes[FIXED_LEN];
    if tag > 1 {
        return Err(WireError::InvalidTag);
    }
    let success = bytes[0] == 1;
    let block_number = get_u64(bytes, 1);
    let cycles = get_u64(bytes, 9);
    let proving_milliseconds = get_u64(bytes, 17);
    let data_fetch_milliseconds = get_u64(bytes, 25);
    let payload = if tag == 0 {
        None
    } else {
        if bytes.len() < FIXED_LEN + 9 {
            return Err(WireError::Truncated);
        }
        let len = get_u64(bytes, FIXED_LEN + 1);
        let rest = bytes.len() - (FIXED_LEN + 9);
        if (rest as u64) < len {
            return Err(WireError::Truncated);
        }
        let len = len as usize;
        Some(slice_to_vec(slice_subrange(bytes, FIXED_LEN + 9, FIXED_LEN + 9 + len)))
    };
    Ok(
        BlockProvingReport {
            success,
            block_number,
            cycles,
            proving_milliseconds,
            data_fetch_milliseconds,
            proof: payload,
        },
    )
}

/// Reading gives back what was laid out, whatever bytes follow it.
pub proof fn lemma_decode_encode(r: ReportView, tail: Seq<u8>)
    requires
        r.proof matches Some(p) ==> p.len() <= u64::MAX,
    ensures
        parse_report(wire_report(r) + tail) == Ok::<ReportView, WireError>(r),
{
    lemma_auto_spec_u64_to_from_le_bytes();
    let bytes = wire_report(r) + tail;
    let b = spec_u64_to_le_bytes(r.block_number);
    let c = spec_u64_to_le_bytes(r.cycles);
    let p = spec_u64_to_le_bytes(r.proving_milliseconds);
    let d = spec_u64_to_le_bytes(r.data_fetch_milliseconds);
    assert(bytes.subrange(1, 9) =~= b);
    assert(bytes.subrange(9, 17) =~= c);
    assert(bytes.subrange(17, 25) =~= p);
    assert(bytes.subrange(25, 33) =~= d);
    match r.proof {
        None => {
            assert(bytes[33] == 0);
        },
        Some(payload) => {
            let n = spec_u64_to_le_bytes(payload.len() as u64);
            assert(bytes[33] == 1);
            assert(bytes.subrange(34, 42) =~= n);
            assert(u64_at(bytes, 34) == payload.len());
            assert(bytes.subrange(42, 42 + payload.len() as int) =~= payload);
        },
    }
}

/// Two reports with the same layout are the same report.
pub proof fn lemma_layout_is_unambiguous(a: ReportView, b: ReportView)
    requires
        a.proof matches Some(p) ==> p.len() <= u64::MAX,
        b.proof matches Some(p) ==> p.len() <= u64::MAX,
        wire_report(a) == wire_report(b),
    ensures
        a == b,
{
    lemma_decode_encode(a, Seq::empty());
    lemma_decode_encode(b, Seq::empty());
}

} // verus!
