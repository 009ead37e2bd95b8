//! Small verified helpers on bytes and text that the rest of the core
//! shares: slice equality, string equality by content, decimal rendering.

use vstd::prelude::*;
use vstd::string::{StringExecFns, StringSliceAdditionalSpecFns};
use vstd::utf8::{encode_utf8, decode_utf8, encode_utf8_decode_utf8};
use crate::primitives::{hex_digit, hex_of};

verus! {

/// Compare two byte slices for equality of contents.
pub fn bytes_eq(a: &[u8], b: &[u8]) -> (r: bool)
    ensures
        r == (a@ == b@),
{
    if a.len() != b.len() {
        return false;
    }
    let n = a.len();
    let mut i: usize = 0;
    while i < n
        invariant
            n == a@.len(),
            n == b@.len(),
            i <= n,
            forall|j: int| 0 <= j < i ==> a@[j] == b@[j],
        decreases n - i,
    {
        if a[i] != b[i] {
            return false;
        }
        i += 1;
    }
    proof {
        assert(a@ =~= b@);
    }
    true
}

/// Copy a 12-byte vector into a fixed array.
pub fn arr12(v: &Vec<u8>) -> (r: [u8; 12])
    requires
        v@.len() == 12,
    ensures
        r@ == v@,
{
    let r = [
        v[0],
        v[1],
        v[2],
        v[3],
        v[4],
        v[5],
        v[6],
        v[7],
        v[8],
        v[9],
        v[10],
        v[11],
    ];
    proof {
        assert(r@ =~= v@);
    }
    r
}

/// Copy a 32-byte vector into a fixed array.
pub fn arr32(v: &Vec<u8>) -> (r: [u8; 32])
    requires
        v@.len() == 32,
    ensures
        r@ == v@,
{
    let r = [
        v[0],
        v[1],
        v[2],
        v[3],
        v[4],
        v[5],
        v[6],
        v[7],
        v[8],
        v[9],
        v[10],
        v[11],
        v[12],
        v[13],
        v[14],
        v[15],
        v[16],
        v[17],
        v[18],
        v[19],
        v[20],
        v[21],
        v[22],
        v[23],
        v[24],
        v[25],
        v[26],
        v[27],
        v[28],
        v[29],
        v[30],
        v[31],
    ];
    proof {
        assert(r@ =~= v@);
    }
    r
}

/// The empty byte slice.
pub fn empty_bytes() -> (r: &'static [u8])
    ensures
        r@ == Seq::<u8>::empty(),
{
    let r: &'static [u8; 0] = &[];
    proof {
        assert(r@ =~= Seq::<u8>::empty());
    }
    r.as_slice()
}

/// Overwrite a 32-byte buffer with zeros, as the wipe-on-exit discipline
/// for derived key material asks.
pub fn wipe32(buf: &mut [u8; 32])
    ensures
        final(buf)@ == Seq::new(32, |i: int| 0u8),
{
    *buf = [0u8; 32];
    proof {
        assert(buf@ =~= Seq::new(32, |i: int| 0u8));
    }
}

/// Compare two strings for equality of contents.
pub fn str_eq(a: &str, b: &str) -> (r: bool)
    ensures
        r == (a@ == b@),
{
    let r = bytes_eq(a.as_bytes(), b.as_bytes());
    proof {
        encode_utf8_decode_utf8(a@);
        encode_utf8_decode_utf8(b@);
        if a.spec_bytes() == b.spec_bytes() {
            assert(decode_utf8(encode_utf8(a@)) == decode_utf8(encode_utf8(b@)));
        }
    }
    r
}

/// One hexadecimal digit as a string slice.
fn hex_digit_str(d: u8) -> (r: &'static str)
    requires
        d < 16,
    ensures
        r@ == seq![hex_digit(d)],
{
    proof {
        reveal_strlit("a");
        reveal_strlit("b");
        reveal_strlit("c");
        reveal_strlit("d");
        reveal_strlit("e");
        reveal_strlit("f");
    }
    if d < 10 {
        digit_str(d as u32)
    } else if d == 10 {
        "a"
    } else if d == 11 {
        "b"
    } else if d == 12 {
        "c"
    } else if d == 13 {
        "d"
    } else if d == 14 {
        "e"
    } else {
        "f"
    }
}

/// Encode bytes as lowercase hexadecimal, two digits per byte, high
/// nibble first.
pub fn hex_encode(b: &[u8]) -> (r: String)
    ensures
        r@ == hex_of(b@),
{
    let n = b.len();
    let mut s = String::new();
    let mut i: usize = 0;
    proof {
        assert(s@ =~= hex_of(b@.subrange(0, 0)));
    }
    while i < n
        invariant
            n == b@.len(),
            i <= n,
            s@ == hex_of(b@.subrange(0, i as int)),
        decreases n - i,
    {
        let byte = b[i];
        s.append(hex_digit_str(byte / 16));
        s.append(hex_digit_str(byte % 16));
        proof {
            assert(s@ =~= hex_of(b@.subrange(0, i + 1)));
        }
        i += 1;
    }
    proof {
        assert(b@.subrange(0, n as int) =~= b@);
    }
    s
}

/// The decimal digit characters of `n`, most significant first, with no
/// leading zero except for zero itself.
pub open spec fn dec_of(n: nat) -> Seq<char>
    decreases n,
{
    if n < 10 {
        seq![hex_digit(n as u8)]
    } else {
        dec_of(n / 10).push(hex_digit((n % 10) as u8))
    }
}

/// One decimal digit as a string slice.
pub fn digit_str(d: u32) -> (r: &'static str)
    requires
        d < 10,
    ensures
        r@ == seq![hex_digit(d as u8)],
{
    proof {
        reveal_strlit("0");
        reveal_strlit("1");
        reveal_strlit("2");
        reveal_strlit("3");
        reveal_strlit("4");
        reveal_strlit("5");
        reveal_strlit("6");
        reveal_strlit("7");
        reveal_strlit("8");
        reveal_strlit("9");
    }
    if d == 0 {
        "0"
    } else if d == 1 {
        "1"
    } else if d == 2 {
        "2"
    } else if d == 3 {
        "3"
    } else if d == 4 {
        "4"
    } else if d == 5 {
        "5"
    } else if d == 6 {
        "6"
    } else if d == 7 {
        "7"
    } else if d == 8 {
        "8"
    } else {
        "9"
    }
}

/// Render `n` in decimal.
pub fn u32_dec(n: u32) -> (s: String)
    ensures
        s@ == dec_of(n as nat),
    decreases n,
{
    if n < 10 {
        digit_str(n).to_owned()
    } else {
        let mut s = u32_dec(n / 10);
        s.append(digit_str(n % 10));
        proof {
            assert(s@ == dec_of((n / 10) as nat).push(hex_digit((n % 10) as u8)));
        }
        s
    }
}

} // verus!
