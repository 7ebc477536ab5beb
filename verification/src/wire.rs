//! Length-prefixed field framing: the primitive the envelope wire format is
//! built from.
//!
//! A variable-length field is serialized as a 4-byte little-endian length
//! prefix followed by the field's bytes. Parsing is exact: a parsed field
//! re-serializes to precisely the bytes it was read from, which is what lets
//! the envelope layer sign raw bytes without re-serialization ambiguity.

use vstd::prelude::*;
use vstd::bytes::*;

use crate::error::Error;

verus! {

/// Serialized form of one variable-length field.
pub open spec fn spec_field(data: Seq<u8>) -> Seq<u8>
    recommends
        data.len() <= u32::MAX,
{
    spec_u32_to_le_bytes(data.len() as u32) + data
}

/// Parse one length-prefixed field of `b` starting at `pos`; on success,
/// the field's bytes and the position just past them.
pub open spec fn spec_parse_field(b: Seq<u8>, pos: int) -> Option<(Seq<u8>, int)> {
    if pos + 4 > b.len() {
        None
    } else {
        let n = spec_u32_from_le_bytes(b.subrange(pos, pos + 4)) as int;
        if pos + 4 + n > b.len() {
            None
        } else {
            Some((b.subrange(pos + 4, pos + 4 + n), pos + 4 + n))
        }
    }
}

/// A serialized field is its data plus the 4-byte length prefix.
pub proof fn lemma_field_len(data: Seq<u8>)
    ensures
        spec_field(data).len() == 4 + data.len(),
{
    lemma_auto_spec_u32_to_from_le_bytes();
}

/// A serialized field parses back to exactly the data it was built from,
/// wherever it stands in a larger byte sequence.
pub proof fn lemma_parse_field_of_field(prefix: Seq<u8>, data: Seq<u8>, suffix: Seq<u8>)
    requires
        data.len() <= u32::MAX,
    ensures
        ({
            let b = prefix + spec_field(data) + suffix;
            spec_parse_field(b, prefix.len() as int) == Some(
                (data, (prefix.len() + 4 + data.len()) as int),
            )
        }),
{
    lemma_auto_spec_u32_to_from_le_bytes();
    let b = prefix + spec_field(data) + suffix;
    let pos = prefix.len() as int;
    assert(b.subrange(pos, pos + 4) =~= spec_u32_to_le_bytes(data.len() as u32));
    assert(b.subrange(pos + 4, pos + 4 + data.len()) =~= data);
}

/// Parsing is exact: a successfully parsed field occupies precisely the
/// bytes between `pos` and the returned position, and those bytes are the
/// field's canonical serialization.
pub proof fn lemma_field_of_parse_field(b: Seq<u8>, pos: int)
    requires
        0 <= pos,
        spec_parse_field(b, pos) is Some,
    ensures
        ({
            let (data, end) = spec_parse_field(b, pos).unwrap();
            &&& data.len() <= u32::MAX
            &&& end == pos + 4 + data.len()
            &&& pos + 4 <= end <= b.len()
            &&& spec_field(data) == b.subrange(pos, end)
        }),
{
    lemma_auto_spec_u32_to_from_le_bytes();
    let (data, end) = spec_parse_field(b, pos).unwrap();
    let lenbytes = b.subrange(pos, pos + 4);
    assert(spec_u32_to_le_bytes(spec_u32_from_le_bytes(lenbytes)) == lenbytes);
    assert(data.len() as u32 == spec_u32_from_le_bytes(lenbytes));
    assert(spec_field(data) =~= b.subrange(pos, end));
}

/// Copy of a byte vector, element for element.
pub fn clone_bytes(data: &Vec<u8>) -> (r: Vec<u8>)
    ensures
        r@ == data@,
{
    let mut out: Vec<u8> = Vec::new();
    let mut i: usize = 0;
    while i < data.len()
        invariant
            i <= data@.len(),
            out@ =~= data@.take(i as int),
        decreases data@.len() - i,
    {
        out.push(data[i]);
        i = i + 1;
    }
    assert(out@ =~= data@);
    out
}

/// Copy of the bytes of `b` from position `from` (inclusive) to `to`
/// (exclusive).
pub fn copy_range(b: &Vec<u8>, from: usize, to: usize) -> (r: Vec<u8>)
    requires
        from <= to <= b@.len(),
    ensures
        r@ == b@.subrange(from as int, to as int),
{
    let mut out: Vec<u8> = Vec::new();
    let mut i: usize = from;
    while i < to
        invariant
            from <= i <= to <= b@.len(),
            out@ =~= b@.subrange(from as int, i as int),
        decreases to - i,
    {
        out.push(b[i]);
        i = i + 1;
    }
    assert(out@ =~= b@.subrange(from as int, to as int));
    out
}

/// Append one length-prefixed field to `out`.
pub fn write_field(out: &mut Vec<u8>, data: &Vec<u8>)
    requires
        data@.len() <= u32::MAX,
    ensures
        final(out)@ == old(out)@ + spec_field(data@),
{
    let n: u32 = data.len() as u32;
    let mut lenbytes = u32_to_le_bytes(n);
    out.append(&mut lenbytes);
    let mut body = clone_bytes(data);
    out.append(&mut body);
    assert(out@ =~= old(out)@ + spec_field(data@));
}

/// Read one length-prefixed field of `b` starting at `pos`.
pub fn read_field(b: &Vec<u8>, pos: usize) -> (r: Result<(Vec<u8>, usize), Error>)
    requires
        pos <= b@.len(),
    ensures
        r is Ok <==> spec_parse_field(b@, pos as int) is Some,
        r is Ok ==> ({
            let (data, end) = spec_parse_field(b@, pos as int).unwrap();
            &&& r.unwrap().0@ == data
            &&& r.unwrap().1 == end
            &&& pos + 4 <= end <= b@.len()
        }),
        r is Err ==> r == Err::<(Vec<u8>, usize), Error>(Error::DecodingError),
{
    if b.len() - pos < 4 {
        return Err(Error::DecodingError);
    }
    let n32: u32 = u32_from_le_bytes(&b.as_slice()[pos..pos + 4]);
    let n: usize = n32 as usize;
    if b.len() - (pos + 4) < n {
        return Err(Error::DecodingError);
    }
    let data = copy_range(b, pos + 4, pos + 4 + n);
    Ok((data, pos + 4 + n))
}

} // verus!
