//! Byte-level building blocks for the wire envelopes.
//!
//! Every envelope of the protocol is a fixed-order concatenation of fields.
//! Variable-length fields are carried with a u64 little-endian length prefix;
//! optional fields with a one-byte presence flag. The spec-level encoders
//! and parsers here are the single definition of that framing; the exec
//! functions are proved to match them exactly.

use vstd::prelude::*;
use vstd::bytes::{spec_u64_from_le_bytes, spec_u64_to_le_bytes, lemma_auto_spec_u64_to_from_le_bytes, u64_from_le_bytes, u64_to_le_bytes};
use vstd::slice::{slice_subrange, slice_to_vec};
use vstd::utf8::{encode_utf8, decode_utf8, valid_utf8, encode_utf8_valid_utf8, encode_utf8_decode_utf8};

verus! {

/// A variable-length field on the wire: an 8-byte little-endian length,
/// then the bytes themselves.
pub open spec fn lp(b: Seq<u8>) -> Seq<u8>
    recommends
        b.len() <= u64::MAX,
{
    spec_u64_to_le_bytes(b.len() as u64) + b
}

/// An optional field on the wire: a presence byte, then the field if present.
pub open spec fn opt(o: Option<Seq<u8>>) -> Seq<u8> {
    match o {
        Option::None => seq![0u8],
        Option::Some(b) => seq![1u8] + lp(b),
    }
}

/// Spec-level parse of a length-prefixed field at `pos`; yields the field
/// and the position just past it.
pub open spec fn read_lp_spec(data: Seq<u8>, pos: int) -> Option<(Seq<u8>, int)> {
    if 0 <= pos && pos + 8 <= data.len() {
        let n = spec_u64_from_le_bytes(data.subrange(pos, pos + 8)) as int;
        if pos + 8 + n <= data.len() {
            Some((data.subrange(pos + 8, pos + 8 + n), pos + 8 + n))
        } else {
            None
        }
    } else {
        None
    }
}

/// Spec-level parse of an optional field at `pos`.
pub open spec fn read_opt_spec(data: Seq<u8>, pos: int) -> Option<(Option<Seq<u8>>, int)> {
    if 0 <= pos && pos + 1 <= data.len() {
        if data[pos] == 0u8 {
            Some((Option::None, pos + 1))
        } else if data[pos] == 1u8 {
            match read_lp_spec(data, pos + 1) {
                Some((b, q)) => Some((Some(b), q)),
                None => None,
            }
        } else {
            None
        }
    } else {
        None
    }
}

/// Spec-level parse of a u64 field at `pos`.
pub open spec fn read_u64_spec(data: Seq<u8>, pos: int) -> Option<(u64, int)> {
    if 0 <= pos && pos + 8 <= data.len() {
        Some((spec_u64_from_le_bytes(data.subrange(pos, pos + 8)), pos + 8))
    } else {
        None
    }
}

/// Spec-level parse of a fixed-width raw field of `n` bytes at `pos`.
pub open spec fn read_raw_spec(data: Seq<u8>, pos: int, n: int) -> Option<(Seq<u8>, int)> {
    if 0 <= pos && 0 <= n && pos + n <= data.len() {
        Some((data.subrange(pos, pos + n), pos + n))
    } else {
        None
    }
}

/// Spec-level parse of a length-prefixed UTF-8 string field at `pos`.
pub open spec fn read_str_spec(data: Seq<u8>, pos: int) -> Option<(Seq<char>, int)> {
    match read_lp_spec(data, pos) {
        None => None,
        Some((b, q)) => if valid_utf8(b) {
            Some((decode_utf8(b), q))
        } else {
            None
        },
    }
}

/// Append every byte of `src` to `dst`.
pub fn push_bytes(dst: &mut Vec<u8>, src: &[u8])
    ensures
        final(dst)@ == old(dst)@ + src@,
{
    let n = src.len();
    let mut i: usize = 0;
    while i < n
        invariant
            n == src@.len(),
            i <= n,
            dst@ == old(dst)@ + src@.subrange(0, i as int),
        decreases n - i,
    {
        dst.push(src[i]);
        proof {
            assert(src@.subrange(0, i + 1) == src@.subrange(0, i as int).push(src@[i as int]));
        }
        i += 1;
    }
    proof {
        assert(src@.subrange(0, n as int) == src@);
    }
}

/// Append a length-prefixed field to `dst`.
pub fn push_lp(dst: &mut Vec<u8>, src: &[u8])
    ensures
        final(dst)@ == old(dst)@ + lp(src@),
{
    let len_bytes = u64_to_le_bytes(src.len() as u64);
    push_bytes(dst, len_bytes.as_slice());
    push_bytes(dst, src);
    proof {
        assert(dst@ == old(dst)@ + (spec_u64_to_le_bytes(src@.len() as u64) + src@));
    }
}

/// Append an optional length-prefixed field to `dst`.
pub fn push_opt(dst: &mut Vec<u8>, src: &Option<Vec<u8>>)
    ensures
        final(dst)@ == old(dst)@ + opt(match src {
            Option::None => Option::None,
            Option::Some(b) => Some(b@),
        }),
{
    match src {
        Option::None => {
            dst.push(0u8);
            proof {
                assert(dst@ == old(dst)@ + seq![0u8]);
            }
        },
        Option::Some(b) => {
            dst.push(1u8);
            proof {
                assert(dst@ == old(dst)@ + seq![1u8]);
            }
            push_lp(dst, b.as_slice());
            proof {
                assert(dst@ == old(dst)@ + (seq![1u8] + lp(b@)));
            }
        },
    }
}

/// Append a u64 field (little endian) to `dst`.
pub fn push_u64(dst: &mut Vec<u8>, x: u64)
    ensures
        final(dst)@ == old(dst)@ + spec_u64_to_le_bytes(x),
{
    let b = u64_to_le_bytes(x);
    push_bytes(dst, b.as_slice());
}

/// Parse a length-prefixed field at `*pos`, advancing `*pos` past it.
pub fn read_lp(data: &[u8], pos: &mut usize) -> (r: Option<Vec<u8>>)
    ensures
        match r {
            Some(b) => {
                &&& read_lp_spec(data@, *old(pos) as int) == Some((b@, *final(pos) as int))
                &&& *final(pos) <= data@.len()
            },
            None => {
                &&& read_lp_spec(data@, *old(pos) as int) is None
                &&& *final(pos) == *old(pos)
            },
        },
{
    let p = *pos;
    if p > data.len() || data.len() - p < 8 {
        return None;
    }
    let len_slice = slice_subrange(data, p, p + 8);
    let n64 = u64_from_le_bytes(len_slice);
    if n64 > (data.len() - p - 8) as u64 {
        return None;
    }
    let n = n64 as usize;
    let field = slice_to_vec(slice_subrange(data, p + 8, p + 8 + n));
    *pos = p + 8 + n;
    Some(field)
}

/// Append a length-prefixed UTF-8 string field to `dst`.
pub fn push_str_lp(dst: &mut Vec<u8>, s: &str)
    ensures
        final(dst)@ == old(dst)@ + lp(encode_utf8(s@)),
{
    push_lp(dst, s.as_bytes());
}

/// Parse a length-prefixed UTF-8 string field at `*pos`, advancing `*pos`
/// past it.
pub fn read_str(data: &[u8], pos: &mut usize) -> (r: Option<String>)
    ensures
        match r {
            Some(s) => {
                &&& read_str_spec(data@, *old(pos) as int) == Some((s@, *final(pos) as int))
                &&& *final(pos) <= data@.len()
            },
            None => {
                &&& read_str_spec(data@, *old(pos) as int) is None
                &&& *final(pos) == *old(pos)
            },
        },
{
    let p = *pos;
    match read_lp(data, pos) {
        Some(b) => {
            let ghost bv = b@;
            match crate::primitives::string_from_utf8(b) {
                Some(s) => {
                    proof {
                        encode_utf8_decode_utf8(s@);
                        assert(decode_utf8(bv) == s@);
                    }
                    Some(s)
                },
                None => {
                    *pos = p;
                    None
                },
            }
        },
        None => None,
    }
}

/// Parsing a string field out of `pre + lp(encode_utf8(s)) + post` at the
/// end of `pre` yields exactly `s`.
pub proof fn lemma_read_str_at(pre: Seq<u8>, s: Seq<char>, post: Seq<u8>)
    requires
        encode_utf8(s).len() <= u64::MAX,
    ensures
        read_str_spec(pre + lp(encode_utf8(s)) + post, pre.len() as int) == Some((
            s,
            pre.len() + 8 + encode_utf8(s).len() as int,
        )),
{
    lemma_read_lp_at(pre, encode_utf8(s), post);
    encode_utf8_valid_utf8(s);
    encode_utf8_decode_utf8(s);
}

/// Parse an optional field at `*pos`, advancing `*pos` past it.
pub fn read_opt(data: &[u8], pos: &mut usize) -> (r: Option<Option<Vec<u8>>>)
    ensures
        match r {
            Some(o) => {
                &&& read_opt_spec(data@, *old(pos) as int) == Some((
                    match o {
                        Option::None => Option::<Seq<u8>>::None,
                        Option::Some(b) => Some(b@),
                    },
                    *final(pos) as int,
                ))
                &&& *final(pos) <= data@.len()
            },
            None => {
                &&& read_opt_spec(data@, *old(pos) as int) is None
                &&& *final(pos) == *old(pos)
            },
        },
{
    let p = *pos;
    if p >= data.len() {
        return None;
    }
    let flag = data[p];
    if flag == 0u8 {
        *pos = p + 1;
        Some(None)
    } else if flag == 1u8 {
        *pos = p + 1;
        match read_lp(data, pos) {
            Some(b) => Some(Some(b)),
            None => {
                *pos = p;
                None
            },
        }
    } else {
        None
    }
}

/// Parse a u64 field at `*pos`, advancing `*pos` past it.
pub fn read_u64(data: &[u8], pos: &mut usize) -> (r: Option<u64>)
    ensures
        match r {
            Some(x) => {
                &&& read_u64_spec(data@, *old(pos) as int) == Some((x, *final(pos) as int))
                &&& *final(pos) <= data@.len()
            },
            None => {
                &&& read_u64_spec(data@, *old(pos) as int) is None
                &&& *final(pos) == *old(pos)
            },
        },
{
    let p = *pos;
    if p > data.len() || data.len() - p < 8 {
        return None;
    }
    let x = u64_from_le_bytes(slice_subrange(data, p, p + 8));
    *pos = p + 8;
    Some(x)
}

/// Parse a fixed-width raw field of `n` bytes at `*pos`, advancing `*pos`.
pub fn read_raw(data: &[u8], pos: &mut usize, n: usize) -> (r: Option<Vec<u8>>)
    ensures
        match r {
            Some(b) => {
                &&& read_raw_spec(data@, *old(pos) as int, n as int) == Some((
                    b@,
                    *final(pos) as int,
                ))
                &&& *final(pos) <= data@.len()
            },
            None => {
                &&& read_raw_spec(data@, *old(pos) as int, n as int) is None
                &&& *final(pos) == *old(pos)
            },
        },
{
    let p = *pos;
    if p > data.len() || data.len() - p < n {
        return None;
    }
    let field = slice_to_vec(slice_subrange(data, p, p + n));
    *pos = p + n;
    Some(field)
}

/// Parsing a length-prefixed field out of `pre + lp(b) + post` at the end of
/// `pre` yields exactly `b`.
pub proof fn lemma_read_lp_at(pre: Seq<u8>, b: Seq<u8>, post: Seq<u8>)
    requires
        b.len() <= u64::MAX,
    ensures
        read_lp_spec(pre + lp(b) + post, pre.len() as int) == Some((
            b,
            pre.len() + 8 + b.len() as int,
        )),
{
    let data = pre + lp(b) + post;
    let pos = pre.len() as int;
    lemma_auto_spec_u64_to_from_le_bytes();
    assert(data.subrange(pos, pos + 8) == spec_u64_to_le_bytes(b.len() as u64));
    assert(spec_u64_from_le_bytes(data.subrange(pos, pos + 8)) == b.len() as u64);
    assert(data.subrange(pos + 8, pos + 8 + b.len() as int) == b);
}

/// Parsing an optional field out of `pre + opt(o) + post` at the end of
/// `pre` yields exactly `o`.
pub proof fn lemma_read_opt_at(pre: Seq<u8>, o: Option<Seq<u8>>, post: Seq<u8>)
    requires
        o matches Some(b) ==> b.len() <= u64::MAX,
    ensures
        read_opt_spec(pre + opt(o) + post, pre.len() as int) == Some((
            o,
            pre.len() + opt(o).len() as int,
        )),
{
    let data = pre + opt(o) + post;
    let pos = pre.len() as int;
    lemma_auto_spec_u64_to_from_le_bytes();
    match o {
        Option::None => {
            assert(data[pos] == 0u8);
            assert(read_opt_spec(data, pos) == Some((Option::<Seq<u8>>::None, pos + 1)));
            assert(opt(o).len() == 1);
        },
        Option::Some(b) => {
            assert(data[pos] == 1u8);
            let pre2 = pre + seq![1u8];
            assert(pre2 + lp(b) + post =~= data);
            lemma_read_lp_at(pre2, b, post);
            assert(read_lp_spec(data, pos + 1) == Some((b, pos + 1 + 8 + b.len() as int)));
            assert(read_opt_spec(data, pos) == Some((Some(b), pos + 1 + 8 + b.len() as int)));
            assert(opt(o).len() == 1 + 8 + b.len());
        },
    }
}

/// Parsing a u64 field out of `pre + le(x) + post` at the end of `pre`
/// yields exactly `x`.
pub proof fn lemma_read_u64_at(pre: Seq<u8>, x: u64, post: Seq<u8>)
    ensures
        read_u64_spec(pre + spec_u64_to_le_bytes(x) + post, pre.len() as int) == Some((
            x,
            pre.len() + 8 as int,
        )),
{
    let data = pre + spec_u64_to_le_bytes(x) + post;
    let pos = pre.len() as int;
    lemma_auto_spec_u64_to_from_le_bytes();
    assert(data.subrange(pos, pos + 8) == spec_u64_to_le_bytes(x));
}

/// Parsing a fixed-width raw field out of `pre + b + post` at the end of
/// `pre` yields exactly `b`.
pub proof fn lemma_read_raw_at(pre: Seq<u8>, b: Seq<u8>, post: Seq<u8>)
    ensures
        read_raw_spec(pre + b + post, pre.len() as int, b.len() as int) == Some((
            b,
            pre.len() + b.len() as int,
        )),
{
    let data = pre + b + post;
    let pos = pre.len() as int;
    assert(data.subrange(pos, pos + b.len() as int) == b);
}

} // verus!
