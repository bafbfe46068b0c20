//! Structured argument decoding.
//!
//! Syscall arguments arrive as byte ranges of guest memory.  Each reader
//! takes a bounded view of the range and parses it as the structured
//! encoding of one argument type, failing with `Decode` (or
//! `InvalidAddress`) when the bytes are not a valid encoding.  Whether a
//! byte sequence decodes, and what it decodes to, are functions of the
//! bytes alone; both are named below and pinned by the trusted wrappers
//! around the codec, so that callers' contracts can speak of the decoded
//! values.

use vstd::prelude::*;

use fvm_shared::address::Address;
use fvm_shared::crypto::signature::Signature;
use fvm_shared::piece::PieceInfo;
use fvm_shared::sector::{
    AggregateSealVerifyProofAndInfos, RegisteredSealProof, SealVerifyInfo, WindowPoStVerifyInfo,
};

use crate::memory::Memory;
use crate::{range_in_bounds, region, Abort};

verus! {

#[verifier::external_type_specification]
#[verifier::external_body]
pub struct ExSignature(Signature);

#[verifier::external_type_specification]
#[verifier::external_body]
pub struct ExAddress(Address);

#[verifier::external_type_specification]
#[verifier::external_body]
pub struct ExPieceInfo(PieceInfo);

#[verifier::external_type_specification]
#[verifier::external_body]
pub struct ExSealVerifyInfo(SealVerifyInfo);

#[verifier::external_type_specification]
#[verifier::external_body]
pub struct ExWindowPoStVerifyInfo(WindowPoStVerifyInfo);

#[verifier::external_type_specification]
#[verifier::external_body]
pub struct ExAggregateSealVerifyProofAndInfos(AggregateSealVerifyProofAndInfos);

#[verifier::external_type_specification]
#[verifier::external_body]
pub struct ExRegisteredSealProof(RegisteredSealProof);

/// Whether `bytes` is a valid structured encoding of a signature.
pub uninterp spec fn sig_decodes(bytes: Seq<u8>) -> bool;

/// The signature `bytes` decodes to (meaningful when `sig_decodes(bytes)`
/// holds): a function of the bytes alone.
pub uninterp spec fn sig_of(bytes: Seq<u8>) -> Signature;

/// Whether `bytes` is a valid chain-address encoding.
pub uninterp spec fn addr_decodes(bytes: Seq<u8>) -> bool;

/// The address `bytes` decodes to (meaningful when `addr_decodes(bytes)`
/// holds): a function of the bytes alone.
pub uninterp spec fn addr_of(bytes: Seq<u8>) -> Address;

/// Whether `bytes` is a valid structured encoding of a piece-descriptor list.
pub uninterp spec fn pieces_decode(bytes: Seq<u8>) -> bool;

/// The piece-descriptor list that `bytes` decodes to (meaningful when
/// `pieces_decode(bytes)` holds): a function of the bytes alone.
pub uninterp spec fn pieces_of(bytes: Seq<u8>) -> Seq<PieceInfo>;

/// The proof-type domain value a raw tag is mapped to: a function of the
/// tag alone.
pub uninterp spec fn proof_of_tag(tag: i64) -> RegisteredSealProof;

/// Whether `bytes` is a valid structured encoding of a seal-verify descriptor.
pub uninterp spec fn seal_info_decodes(bytes: Seq<u8>) -> bool;

/// The seal-verify descriptor `bytes` decodes to (meaningful when
/// `seal_info_decodes(bytes)` holds): a function of the bytes alone.
pub uninterp spec fn seal_info_of(bytes: Seq<u8>) -> SealVerifyInfo;

/// Whether `bytes` is a valid structured encoding of a proof-of-spacetime
/// descriptor.
pub uninterp spec fn post_info_decodes(bytes: Seq<u8>) -> bool;

/// The proof-of-spacetime descriptor `bytes` decodes to (meaningful when
/// `post_info_decodes(bytes)` holds): a function of the bytes alone.
pub uninterp spec fn post_info_of(bytes: Seq<u8>) -> WindowPoStVerifyInfo;

/// Whether `bytes` is a valid structured encoding of an aggregated-seal
/// descriptor.
pub uninterp spec fn agg_info_decodes(bytes: Seq<u8>) -> bool;

/// The aggregated-seal descriptor `bytes` decodes to (meaningful when
/// `agg_info_decodes(bytes)` holds): a function of the bytes alone.
pub uninterp spec fn agg_info_of(bytes: Seq<u8>) -> AggregateSealVerifyProofAndInfos;

/// Relies on `fvm_ipld_encoding::from_slice::<Signature>`: success and
/// the decoded value depend on the bytes alone.
#[verifier::external_body]
fn decode_signature(bytes: &[u8]) -> (r: Option<Signature>)
    ensures
        r is Some <==> sig_decodes(bytes@),
        r matches Some(v) ==> v == sig_of(bytes@),
{
    fvm_ipld_encoding::from_slice(bytes).ok()
}

/// Relies on `Address::from_bytes`: success and the decoded address depend
/// on the bytes alone.
#[verifier::external_body]
fn decode_address(bytes: &[u8]) -> (r: Option<Address>)
    ensures
        r is Some <==> addr_decodes(bytes@),
        r matches Some(v) ==> v == addr_of(bytes@),
{
    Address::from_bytes(bytes).ok()
}

/// Relies on `fvm_ipld_encoding::from_slice::<Vec<PieceInfo>>`: success and
/// the decoded list depend on the bytes alone.
#[verifier::external_body]
fn decode_pieces(bytes: &[u8]) -> (r: Option<Vec<PieceInfo>>)
    ensures
        r is Some <==> pieces_decode(bytes@),
        r matches Some(v) ==> v@ == pieces_of(bytes@),
{
    fvm_ipld_encoding::from_slice(bytes).ok()
}

/// Relies on `fvm_ipld_encoding::from_slice::<SealVerifyInfo>`: success and
/// the decoded value depend on the bytes alone.
#[verifier::external_body]
fn decode_seal_info(bytes: &[u8]) -> (r: Option<SealVerifyInfo>)
    ensures
        r is Some <==> seal_info_decodes(bytes@),
        r matches Some(v) ==> v == seal_info_of(bytes@),
{
    fvm_ipld_encoding::from_slice(bytes).ok()
}

/// Relies on `fvm_ipld_encoding::from_slice::<WindowPoStVerifyInfo>`: success
/// and the decoded value depend on the bytes alone.
#[verifier::external_body]
fn decode_post_info(bytes: &[u8]) -> (r: Option<WindowPoStVerifyInfo>)
    ensures
        r is Some <==> post_info_decodes(bytes@),
        r matches Some(v) ==> v == post_info_of(bytes@),
{
    fvm_ipld_encoding::from_slice(bytes).ok()
}

/// Relies on `fvm_ipld_encoding::from_slice::<AggregateSealVerifyProofAndInfos>`:
/// success and the decoded value depend on the bytes alone.
#[verifier::external_body]
fn decode_agg_info(bytes: &[u8]) -> (r: Option<AggregateSealVerifyProofAndInfos>)
    ensures
        r is Some <==> agg_info_decodes(bytes@),
        r matches Some(v) ==> v == agg_info_of(bytes@),
{
    fvm_ipld_encoding::from_slice(bytes).ok()
}

/// Relies on `RegisteredSealProof::from`: the proof-type tag is mapped into
/// the enumerated proof-type domain, a total function of the tag;
/// out-of-range tags are tolerated here and deferred to the capability.
#[verifier::external_body]
pub(crate) fn seal_proof_from_tag(tag: i64) -> (r: RegisteredSealProof)
    ensures
        r == proof_of_tag(tag),
{
    RegisteredSealProof::from(tag)
}

/// Read a signature argument out of guest memory.
pub fn read_signature(memory: &Memory, offset: u32, length: u32) -> (r: Result<Signature, Abort>)
    ensures
        ({
            let m = memory@;
            if !range_in_bounds(m.len() as int, offset as int, length as int) {
                r == Err::<Signature, Abort>(Abort::OutOfBounds)
            } else if !sig_decodes(region(m, offset as int, length as int)) {
                r == Err::<Signature, Abort>(Abort::Decode)
            } else {
                r is Ok
            }
        }),
        r matches Ok(v) ==> v == sig_of(region(memory@, offset as int, length as int)),
{
    let bytes = match memory.slice(offset, length) {
        Ok(s) => s,
        Err(_) => {
            return Err(Abort::OutOfBounds);
        },
    };
    match decode_signature(bytes) {
        Some(v) => Ok(v),
        None => Err(Abort::Decode),
    }
}

/// Read a chain-address argument out of guest memory.
pub fn read_address(memory: &Memory, offset: u32, length: u32) -> (r: Result<Address, Abort>)
    ensures
        ({
            let m = memory@;
            if !range_in_bounds(m.len() as int, offset as int, length as int) {
                r == Err::<Address, Abort>(Abort::OutOfBounds)
            } else if !addr_decodes(region(m, offset as int, length as int)) {
                r == Err::<Address, Abort>(Abort::InvalidAddress)
            } else {
                r is Ok
            }
        }),
        r matches Ok(v) ==> v == addr_of(region(memory@, offset as int, length as int)),
{
    let bytes = match memory.slice(offset, length) {
        Ok(s) => s,
        Err(_) => {
            return Err(Abort::OutOfBounds);
        },
    };
    match decode_address(bytes) {
        Some(v) => Ok(v),
        None => Err(Abort::InvalidAddress),
    }
}

/// Read a piece-descriptor list argument out of guest memory.
pub fn read_pieces(memory: &Memory, offset: u32, length: u32) -> (r: Result<
    Vec<PieceInfo>,
    Abort,
>)
    ensures
        ({
            let m = memory@;
            if !range_in_bounds(m.len() as int, offset as int, length as int) {
                r == Err::<Vec<PieceInfo>, Abort>(Abort::OutOfBounds)
            } else if !pieces_decode(region(m, offset as int, length as int)) {
                r == Err::<Vec<PieceInfo>, Abort>(Abort::Decode)
            } else {
                r is Ok
            }
        }),
        r matches Ok(v) ==> v@ == pieces_of(region(memory@, offset as int, length as int)),
{
    let bytes = match memory.slice(offset, length) {
        Ok(s) => s,
        Err(_) => {
            return Err(Abort::OutOfBounds);
        },
    };
    match decode_pieces(bytes) {
        Some(v) => Ok(v),
        None => Err(Abort::Decode),
    }
}

/// Read a seal-verify descriptor argument out of guest memory.
pub fn read_seal_info(memory: &Memory, offset: u32, length: u32) -> (r: Result<
    SealVerifyInfo,
    Abort,
>)
    ensures
        ({
            let m = memory@;
            if !range_in_bounds(m.len() as int, offset as int, length as int) {
                r == Err::<SealVerifyInfo, Abort>(Abort::OutOfBounds)
            } else if !seal_info_decodes(region(m, offset as int, length as int)) {
                r == Err::<SealVerifyInfo, Abort>(Abort::Decode)
            } else {
                r is Ok
            }
        }),
        r matches Ok(v) ==> v == seal_info_of(region(memory@, offset as int, length as int)),
{
    let bytes = match memory.slice(offset, length) {
        Ok(s) => s,
        Err(_) => {
            return Err(Abort::OutOfBounds);
        },
    };
    match decode_seal_info(bytes) {
        Some(v) => Ok(v),
        None => Err(Abort::Decode),
    }
}

/// Read a proof-of-spacetime descriptor argument out of guest memory.
pub fn read_post_info(memory: &Memory, offset: u32, length: u32) -> (r: Result<
    WindowPoStVerifyInfo,
    Abort,
>)
    ensures
        ({
            let m = memory@;
            if !range_in_bounds(m.len() as int, offset as int, length as int) {
                r == Err::<WindowPoStVerifyInfo, Abort>(Abort::OutOfBounds)
            } else if !post_info_decodes(region(m, offset as int, length as int)) {
                r == Err::<WindowPoStVerifyInfo, Abort>(Abort::Decode)
            } else {
                r is Ok
            }
        }),
        r matches Ok(v) ==> v == post_info_of(region(memory@, offset as int, length as int)),
{
    let bytes = match memory.slice(offset, length) {
        Ok(s) => s,
        Err(_) => {
            return Err(Abort::OutOfBounds);
        },
    };
    match decode_post_info(bytes) {
        Some(v) => Ok(v),
        None => Err(Abort::Decode),
    }
}

/// Read an aggregated-seal descriptor argument out of guest memory.
pub fn read_agg_info(memory: &Memory, offset: u32, length: u32) -> (r: Result<
    AggregateSealVerifyProofAndInfos,
    Abort,
>)
    ensures
        ({
            let m = memory@;
            if !range_in_bounds(m.len() as int, offset as int, length as int) {
                r == Err::<AggregateSealVerifyProofAndInfos, Abort>(Abort::OutOfBounds)
            } else if !agg_info_decodes(region(m, offset as int, length as int)) {
                r == Err::<AggregateSealVerifyProofAndInfos, Abort>(Abort::Decode)
            } else {
                r is Ok
            }
        }),
        r matches Ok(v) ==> v == agg_info_of(region(memory@, offset as int, length as int)),
{
    let bytes = match memory.slice(offset, length) {
        Ok(s) => s,
        Err(_) => {
            return Err(Abort::OutOfBounds);
        },
    };
    match decode_agg_info(bytes) {
        Some(v) => Ok(v),
        None => Err(Abort::Decode),
    }
}

/// Read a raw byte argument (plaintext, a block header) out of guest memory:
/// an owned copy with no structural interpretation.
pub fn read_raw(memory: &Memory, offset: u32, length: u32) -> (r: Result<Vec<u8>, Abort>)
    ensures
        match r {
            Ok(v) => range_in_bounds(memory@.len() as int, offset as int, length as int) && v@
                == region(memory@, offset as int, length as int),
            Err(a) => a == Abort::OutOfBounds && !range_in_bounds(
                memory@.len() as int,
                offset as int,
                length as int,
            ),
        },
{
    match memory.try_slice(offset, length) {
        Ok(v) => Ok(v),
        Err(_) => Err(Abort::OutOfBounds),
    }
}

} // verus!
