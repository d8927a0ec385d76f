use vstd::prelude::*;
use vstd::bytes::{spec_u64_from_le_bytes, spec_u64_to_le_bytes, u64_from_le_bytes, u64_to_le_bytes};
use crate::error::ErrorCode;

verus! {

/// `data` begins with `prefix`.
pub open spec fn starts_with(data: Seq<u8>, prefix: Seq<u8>) -> bool {
    data.len() >= prefix.len() && data.subrange(0, prefix.len() as int) == prefix
}

/// Appends the bytes of `s` to `v`.
pub fn push_all(v: &mut Vec<u8>, s: &[u8])
    ensures
        final(v)@ == old(v)@ + s@,
{
    let ghost start = v@;
    let mut i: usize = 0;
    while i < s.len()
        invariant
            0 <= i <= s@.len(),
            v@ == start + s@.subrange(0, i as int),
        decreases s@.len() - i,
    {
        v.push(s[i]);
        i = i + 1;
        assert(v@ =~= start + s@.subrange(0, i as int));
    }
    assert(s@.subrange(0, s@.len() as int) =~= s@);
}

/// Copies `s[lo..hi]` into a new vector.
pub fn copy_range(s: &[u8], lo: usize, hi: usize) -> (r: Vec<u8>)
    requires
        lo <= hi <= s@.len(),
    ensures
        r@ == s@.subrange(lo as int, hi as int),
{
    let mut r: Vec<u8> = Vec::new();
    let mut i: usize = lo;
    while i < hi
        invariant
            lo <= i <= hi <= s@.len(),
            r@ == s@.subrange(lo as int, i as int),
        decreases hi - i,
    {
        r.push(s[i]);
        i = i + 1;
        assert(r@ =~= s@.subrange(lo as int, i as int));
    }
    r
}

/// Whether `data` begins with the 8-byte `prefix`.
pub fn has_prefix(data: &[u8], prefix: &[u8; 8]) -> (r: bool)
    ensures
        r == starts_with(data@, prefix@),
{
    if data.len() < 8 {
        return false;
    }
    let mut i: usize = 0;
    while i < 8
        invariant
            0 <= i <= 8,
            data@.len() >= 8,
            prefix@.len() == 8,
            forall|j: int| 0 <= j < i ==> data@[j] == prefix@[j],
        decreases 8 - i,
    {
        if data[i] != prefix[i] {
            assert(data@.subrange(0, 8)[i as int] != prefix@[i as int]);
            return false;
        }
        i = i + 1;
    }
    assert(data@.subrange(0, 8) =~= prefix@);
    true
}

/// The bytes an account holding one `u64` field is stored as: its 8-byte
/// discriminator, then the field in little-endian order.
pub open spec fn account_bytes(disc: Seq<u8>, value: u64) -> Seq<u8> {
    disc + spec_u64_to_le_bytes(value)
}

/// What loading an account of one `u64` field gives for stored `data`.
pub open spec fn spec_read_u64_account(data: Seq<u8>, disc: Seq<u8>) -> Result<u64, ErrorCode> {
    if data.len() < 8 {
        Err(ErrorCode::AccountDiscriminatorNotFound)
    } else if data.subrange(0, 8) != disc {
        Err(ErrorCode::AccountDiscriminatorMismatch)
    } else if data.len() < 16 {
        Err(ErrorCode::AccountDidNotDeserialize)
    } else {
        Ok(spec_u64_from_le_bytes(data.subrange(8, 16)))
    }
}

/// Loads the `u64` field of an account stored under discriminator `disc`.
pub fn read_u64_account(data: &[u8], disc: &[u8; 8]) -> (r: Result<u64, ErrorCode>)
    ensures
        r == spec_read_u64_account(data@, disc@),
{
    if data.len() < 8 {
        return Err(ErrorCode::AccountDiscriminatorNotFound);
    }
    if !has_prefix(data, disc) {
        return Err(ErrorCode::AccountDiscriminatorMismatch);
    }
    if data.len() < 16 {
        return Err(ErrorCode::AccountDidNotDeserialize);
    }
    let field = copy_range(data, 8, 16);
    let v = u64_from_le_bytes(field.as_slice());
    Ok(v)
}

/// What storing `value` does to an account's `data`: the first 16 bytes are
/// replaced, the rest kept; a buffer shorter than 16 bytes is refused.
pub open spec fn spec_write_u64_account(data: Seq<u8>, disc: Seq<u8>, value: u64) -> Result<Seq<u8>, ErrorCode> {
    if data.len() < 16 {
        Err(ErrorCode::AccountDidNotSerialize)
    } else {
        Ok(account_bytes(disc, value) + data.subrange(16, data.len() as int))
    }
}

/// Stores `value` under discriminator `disc` at the start of `data`. On an
/// error `data` is left as it was.
pub fn write_u64_account(data: &mut Vec<u8>, disc: &[u8; 8], value: u64) -> (r: Result<(), ErrorCode>)
    requires
        disc@.len() == 8,
    ensures
        match spec_write_u64_account(old(data)@, disc@, value) {
            Ok(d) => r is Ok && final(data)@ == d,
            Err(e) => r == Err::<(), ErrorCode>(e) && final(data)@ == old(data)@,
        },
{
    if data.len() < 16 {
        return Err(ErrorCode::AccountDidNotSerialize);
    }
    let rest = copy_range(data.as_slice(), 16, data.len());
    let mut out: Vec<u8> = Vec::new();
    push_all(&mut out, disc);
    let le = u64_to_le_bytes(value);
    push_all(&mut out, le.as_slice());
    push_all(&mut out, rest.as_slice());
    *data = out;
    Ok(())
}

/// The data of an instruction without arguments: its discriminator.
pub fn instruction_data(disc: &[u8; 8]) -> (d: Vec<u8>)
    ensures
        d@ == disc@,
{
    let mut d: Vec<u8> = Vec::new();
    push_all(&mut d, disc);
    d
}

/// The data of an instruction with one `u64` argument.
pub fn instruction_data_u64(disc: &[u8; 8], arg: u64) -> (d: Vec<u8>)
    ensures
        d@ == disc@ + spec_u64_to_le_bytes(arg),
{
    let mut d: Vec<u8> = Vec::new();
    push_all(&mut d, disc);
    let le = u64_to_le_bytes(arg);
    push_all(&mut d, le.as_slice());
    d
}

/// What reading a `u64` argument from the bytes that follow the
/// discriminator gives. Bytes past the first eight are ignored.
pub open spec fn spec_read_u64_arg(args: Seq<u8>) -> Result<u64, ErrorCode> {
    if args.len() < 8 {
        Err(ErrorCode::InstructionDidNotDeserialize)
    } else {
        Ok(spec_u64_from_le_bytes(args.subrange(0, 8)))
    }
}

pub fn read_u64_arg(args: &[u8]) -> (r: Result<u64, ErrorCode>)
    ensures
        r == spec_read_u64_arg(args@),
{
    if args.len() < 8 {
        return Err(ErrorCode::InstructionDidNotDeserialize);
    }
    let field = copy_range(args, 0, 8);
    Ok(u64_from_le_bytes(field.as_slice()))
}

/// What reading a `u8` argument gives.
pub open spec fn spec_read_u8_arg(args: Seq<u8>) -> Result<u8, ErrorCode> {
    if args.len() < 1 {
        Err(ErrorCode::InstructionDidNotDeserialize)
    } else {
        Ok(args[0])
    }
}

pub fn read_u8_arg(args: &[u8]) -> (r: Result<u8, ErrorCode>)
    ensures
        r == spec_read_u8_arg(args@),
{
    if args.len() < 1 {
        return Err(ErrorCode::InstructionDidNotDeserialize);
    }
    Ok(args[0])
}

/// Reading back a stored account gives the stored value.
pub proof fn lemma_read_after_write(disc: Seq<u8>, value: u64, rest: Seq<u8>)
    requires
        disc.len() == 8,
    ensures
        spec_read_u64_account(account_bytes(disc, value) + rest, disc) == Ok::<u64, ErrorCode>(value),
{
    vstd::bytes::lemma_auto_spec_u64_to_from_le_bytes();
    let d = account_bytes(disc, value) + rest;
    assert(d.subrange(0, 8) =~= disc);
    assert(d.subrange(8, 16) =~= spec_u64_to_le_bytes(value));
}


/// An argument read from eight or more bytes is the `u64` of its first eight
/// bytes, and writing it back gives those bytes.
pub proof fn lemma_u64_arg_bytes(args: Seq<u8>)
    requires
        args.len() >= 8,
    ensures
        spec_read_u64_arg(args) == Ok::<u64, ErrorCode>(spec_u64_from_le_bytes(args.subrange(0, 8))),
        spec_u64_to_le_bytes(spec_u64_from_le_bytes(args.subrange(0, 8))) == args.subrange(0, 8),
{
    vstd::bytes::lemma_auto_spec_u64_to_from_le_bytes();
    assert(args.subrange(0, 8).len() == 8);
}

} // verus!
