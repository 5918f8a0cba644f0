//! Cutting strings at character boundaries, and the display forms of file
//! sizes and permission bits.

use crate::text::{decimal, decimal_of, extend, push_str, string_of};
use vstd::prelude::*;
use vstd::string::StringExecFns;
use vstd::string::StringSliceAdditionalSpecFns;
use vstd::utf8::{decode_utf8, encode_utf8, is_char_boundary, valid_utf8};

verus! {
broadcast use vstd::utf8::group_utf8_lib;

/// The largest character boundary of `bytes` that is at most `index`; the
/// length of `bytes` where `index` is not below it.
pub open spec fn floor_boundary(bytes: Seq<u8>, index: int) -> int
    decreases index,
{
    if index >= bytes.len() {
        bytes.len() as int
    } else if index <= 0 || is_char_boundary(bytes, index) {
        index
    } else {
        floor_boundary(bytes, index - 1)
    }
}

/// The smallest character boundary of `bytes` that is at least `index`; the
/// length of `bytes` where `index` is not below it.
pub open spec fn ceil_boundary(bytes: Seq<u8>, index: int) -> int
    decreases bytes.len() - index,
{
    if index >= bytes.len() {
        bytes.len() as int
    } else if is_char_boundary(bytes, index) {
        index
    } else {
        ceil_boundary(bytes, index + 1)
    }
}

/// `floor_boundary` yields a boundary that is not above the index.
pub proof fn lemma_floor_boundary(bytes: Seq<u8>, index: int)
    requires
        valid_utf8(bytes),
        0 <= index,
    ensures
        0 <= floor_boundary(bytes, index) <= bytes.len(),
        floor_boundary(bytes, index) <= index,
        is_char_boundary(bytes, floor_boundary(bytes, index)),
        forall|j: int|
            floor_boundary(bytes, index) < j <= index && j < bytes.len() ==> !is_char_boundary(
                bytes,
                j,
            ),
    decreases index,
{
    if index >= bytes.len() {
    } else if index <= 0 || is_char_boundary(bytes, index) {
    } else {
        lemma_floor_boundary(bytes, index - 1);
    }
}

/// `ceil_boundary` yields a boundary that is not below the index.
pub proof fn lemma_ceil_boundary(bytes: Seq<u8>, index: int)
    requires
        valid_utf8(bytes),
        0 <= index,
    ensures
        index <= bytes.len() ==> index <= ceil_boundary(bytes, index),
        0 <= ceil_boundary(bytes, index) <= bytes.len(),
        is_char_boundary(bytes, ceil_boundary(bytes, index)),
        forall|j: int| index <= j < ceil_boundary(bytes, index) ==> !is_char_boundary(bytes, j),
    decreases bytes.len() - index,
{
    if index >= bytes.len() {
    } else if is_char_boundary(bytes, index) {
    } else {
        lemma_ceil_boundary(bytes, index + 1);
    }
}

/// Length of `s` in bytes.
pub fn byte_len(s: &str) -> (n: usize)
    ensures
        n == s.spec_bytes().len(),
{
    s.as_bytes().len()
}

/// Rounds a byte index down to a character boundary of `s`.
pub fn floor_char_boundary(s: &str, index: usize) -> (r: usize)
    ensures
        r == floor_boundary(s.spec_bytes(), index as int),
        r <= s.spec_bytes().len(),
        is_char_boundary(s.spec_bytes(), r as int),
{
    if index >= byte_len(s) {
        return byte_len(s);
    }
    let mut i: usize = index;
    while i > 0 && !s.is_char_boundary(i)
        invariant
            i <= index < s.spec_bytes().len(),
            floor_boundary(s.spec_bytes(), index as int) == floor_boundary(
                s.spec_bytes(),
                i as int,
            ),
        decreases i,
    {
        i -= 1;
    }
    i
}

/// Rounds a byte index up to a character boundary of `s`.
pub fn ceil_char_boundary(s: &str, index: usize) -> (r: usize)
    ensures
        r == ceil_boundary(s.spec_bytes(), index as int),
        r <= s.spec_bytes().len(),
        is_char_boundary(s.spec_bytes(), r as int),
{
    if index >= byte_len(s) {
        return byte_len(s);
    }
    let mut i: usize = index;
    while i < byte_len(s) && !s.is_char_boundary(i)
        invariant
            index <= i <= s.spec_bytes().len(),
            ceil_boundary(s.spec_bytes(), index as int) == ceil_boundary(s.spec_bytes(), i as int),
        decreases s.spec_bytes().len() - i,
    {
        i += 1;
    }
    i
}

/// The longest prefix of `s` of at most `max_bytes` bytes that ends at a
/// character boundary.
pub fn safe_prefix(s: &str, max_bytes: usize) -> (r: &str)
    ensures
        s.spec_bytes().len() <= max_bytes ==> r@ == s@,
        s.spec_bytes().len() > max_bytes ==> r.spec_bytes() == s.spec_bytes().take(
            floor_boundary(s.spec_bytes(), max_bytes as int),
        ),
        r.spec_bytes().len() <= max_bytes,
        r@ == decode_utf8(s.spec_bytes().take(floor_boundary(s.spec_bytes(), max_bytes as int))),
{
    proof {
        lemma_floor_boundary(s.spec_bytes(), max_bytes as int);
    }
    if byte_len(s) <= max_bytes {
        return s;
    }
    let boundary = floor_char_boundary(s, max_bytes);
    let (head, _tail) = s.split_at(boundary);
    head
}

/// The longest suffix of `s` of at most `max_bytes` bytes that starts at a
/// character boundary.
pub fn safe_suffix(s: &str, max_bytes: usize) -> (r: &str)
    ensures
        s.spec_bytes().len() <= max_bytes ==> r@ == s@,
        s.spec_bytes().len() > max_bytes ==> r.spec_bytes() == s.spec_bytes().skip(
            ceil_boundary(s.spec_bytes(), s.spec_bytes().len() - max_bytes),
        ),
        r.spec_bytes().len() <= max_bytes,
{
    if byte_len(s) <= max_bytes {
        return s;
    }
    let start = byte_len(s) - max_bytes;
    proof {
        lemma_ceil_boundary(s.spec_bytes(), start as int);
    }
    let boundary = ceil_char_boundary(s, start);
    let (_head, tail) = s.split_at(boundary);
    tail
}

/// Shortens `s` to its longest prefix of at most `max_bytes` bytes that ends
/// at a character boundary.
pub fn safe_truncate(s: &mut String, max_bytes: usize)
    ensures
        final(s)@ == decode_utf8(
            encode_utf8(old(s)@).take(floor_boundary(encode_utf8(old(s)@), max_bytes as int)),
        ),
        encode_utf8(old(s)@).len() <= max_bytes ==> final(s)@ == old(s)@,
        encode_utf8(final(s)@).len() <= max_bytes,
{
    let kept = String::from_str(safe_prefix(s.as_str(), max_bytes));
    *s = kept;
}

/// Tenths of `bytes / unit`, rounded to the nearest tenth, a tie to the even
/// one.
pub open spec fn rounded_tenths(bytes: nat, unit: nat) -> nat {
    let t = (10 * bytes) / unit;
    let rem = (10 * bytes) % unit;
    if 2 * rem > unit || (2 * rem == unit && t % 2 == 1) {
        t + 1
    } else {
        t
    }
}

/// `tenths / 10` with one decimal.
pub open spec fn one_decimal(tenths: nat) -> Seq<char> {
    decimal(tenths / 10) + seq!['.'] + decimal(tenths % 10)
}

/// The display form of a size in bytes: bytes below 1024, else the largest
/// of KB, MB and GB (powers of 1024) that the size reaches, with one decimal.
pub open spec fn size_text(bytes: nat) -> Seq<char> {
    if bytes < 1024 {
        decimal(bytes) + " B"@
    } else if bytes < 1024 * 1024 {
        one_decimal(rounded_tenths(bytes, 1024)) + " KB"@
    } else if bytes < 1024 * 1024 * 1024 {
        one_decimal(rounded_tenths(bytes, 1024 * 1024)) + " MB"@
    } else {
        one_decimal(rounded_tenths(bytes, 1024 * 1024 * 1024)) + " GB"@
    }
}

fn tenths_of(bytes: u64, unit: u64) -> (t: u64)
    requires
        unit == 1024 || unit == 1024 * 1024 || unit == 1024 * 1024 * 1024,
    ensures
        t == rounded_tenths(bytes as nat, unit as nat),
{
    let scaled: u128 = 10 * (bytes as u128);
    let q: u128 = scaled / (unit as u128);
    let rem: u128 = scaled % (unit as u128);
    let up = 2 * rem > unit as u128 || (2 * rem == unit as u128 && q % 2 == 1);
    assert(q <= 10 * bytes / 1024) by (nonlinear_arith)
        requires
            q == (10 * bytes) / (unit as int),
            unit >= 1024,
            bytes >= 0,
    ;
    if up {
        (q + 1) as u64
    } else {
        q as u64
    }
}

fn one_decimal_of(tenths: u64) -> (v: Vec<char>)
    ensures
        v@ == one_decimal(tenths as nat),
{
    let mut v = decimal_of(tenths / 10);
    v.push('.');
    let frac = decimal_of(tenths % 10);
    extend(&mut v, frac.as_slice());
    v
}

/// A file size for display.
pub fn format_size(bytes: u64) -> (s: String)
    ensures
        s@ == size_text(bytes as nat),
{
    let kb: u64 = 1024;
    let mb: u64 = 1024 * 1024;
    let gb: u64 = 1024 * 1024 * 1024;
    let mut v: Vec<char>;
    if bytes < kb {
        v = decimal_of(bytes);
        push_str(&mut v, " B");
    } else if bytes < mb {
        v = one_decimal_of(tenths_of(bytes, kb));
        push_str(&mut v, " KB");
    } else if bytes < gb {
        v = one_decimal_of(tenths_of(bytes, mb));
        push_str(&mut v, " MB");
    } else {
        v = one_decimal_of(tenths_of(bytes, gb));
        push_str(&mut v, " GB");
    }
    string_of(v.as_slice())
}

/// `rwx` form of three permission bits.
pub open spec fn triplet(bits: nat) -> Seq<char> {
    seq![
        if (bits / 4) % 2 == 1 {
            'r'
        } else {
            '-'
        },
        if (bits / 2) % 2 == 1 {
            'w'
        } else {
            '-'
        },
        if bits % 2 == 1 {
            'x'
        } else {
            '-'
        },
    ]
}

/// Owner, group and other permissions of a file mode, as nine characters.
pub open spec fn permissions_short(mode: nat) -> Seq<char> {
    triplet((mode / 64) % 8) + triplet((mode / 8) % 8) + triplet(mode % 8)
}

/// `d` for a directory, `l` for a symbolic link, `-` for anything else.
pub open spec fn type_char(mode: nat) -> char {
    if (mode / 4096) % 16 == 4 {
        'd'
    } else if (mode / 4096) % 16 == 10 {
        'l'
    } else {
        '-'
    }
}

/// Octal digits of a natural number, most significant first.
pub open spec fn octal(n: nat) -> Seq<char>
    decreases n,
{
    if n < 8 {
        seq![(('0' as nat) + n) as char]
    } else {
        octal(n / 8).push((('0' as nat) + n % 8) as char)
    }
}

/// File type, the nine permission characters, and the permission bits in
/// octal between parentheses.
pub open spec fn permissions_long(mode: nat) -> Seq<char> {
    seq![type_char(mode)] + permissions_short(mode) + " ("@ + octal(mode % 512) + ")"@
}

fn push_triplet(v: &mut Vec<char>, bits: u32)
    requires
        bits < 8,
    ensures
        final(v)@ == old(v)@ + triplet(bits as nat),
{
    v.push(if (bits / 4) % 2 == 1 {
        'r'
    } else {
        '-'
    });
    v.push(if (bits / 2) % 2 == 1 {
        'w'
    } else {
        '-'
    });
    v.push(if bits % 2 == 1 {
        'x'
    } else {
        '-'
    });
}

fn octal_of(n: u32) -> (v: Vec<char>)
    ensures
        v@ == octal(n as nat),
    decreases n,
{
    if n < 8 {
        let mut v: Vec<char> = Vec::new();
        v.push((48u8 + n as u8) as char);
        v
    } else {
        let mut v = octal_of(n / 8);
        v.push((48u8 + (n % 8) as u8) as char);
        v
    }
}

/// Permission bits of a file mode in the short form, such as `rwxr-xr-x`.
pub fn format_permissions_short(mode: u32) -> (s: String)
    ensures
        s@ == permissions_short(mode as nat),
{
    let mut v: Vec<char> = Vec::new();
    push_triplet(&mut v, (mode / 64) % 8);
    push_triplet(&mut v, (mode / 8) % 8);
    push_triplet(&mut v, mode % 8);
    string_of(v.as_slice())
}

/// A file mode with its type character, such as `drwxr-xr-x (755)`.
pub fn format_permissions(mode: u32) -> (s: String)
    ensures
        s@ == permissions_long(mode as nat),
{
    let kind = (mode / 4096) % 16;
    let mut v: Vec<char> = Vec::new();
    v.push(if kind == 4 {
        'd'
    } else if kind == 10 {
        'l'
    } else {
        '-'
    });
    push_triplet(&mut v, (mode / 64) % 8);
    push_triplet(&mut v, (mode / 8) % 8);
    push_triplet(&mut v, mode % 8);
    push_str(&mut v, " (");
    let o = octal_of(mode % 512);
    extend(&mut v, o.as_slice());
    push_str(&mut v, ")");
    string_of(v.as_slice())
}

} // verus!
