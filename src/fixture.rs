//! A small fixture format for test vectors: three length-prefixed byte
//! fields, G1 then G2 then GT, each length a 32-bit little-endian integer.
use crate::vector::TestVector;
use vstd::prelude::*;

verus! {

/// Largest length a field can declare.
pub const MAX_FIELD_LEN: usize = 0xffff_ffff;

/// The four little-endian bytes of a 32-bit length.
#[verifier::opaque]
pub open spec fn le32(n: nat) -> Seq<u8> {
    seq![
        (n % 256) as u8,
        ((n / 256) % 256) as u8,
        ((n / 65536) % 256) as u8,
        ((n / 16777216) % 256) as u8,
    ]
}

/// The value of four little-endian bytes.
#[verifier::opaque]
pub open spec fn le32_value(s: Seq<u8>) -> nat {
    s[0] as nat + 256 * (s[1] as nat) + 65536 * (s[2] as nat) + 16777216 * (s[3] as nat)
}

/// One field: its length, then its bytes.
pub open spec fn field_bytes(b: Seq<u8>) -> Seq<u8> {
    le32(b.len()) + b
}

/// The fixture of three encodings.
pub open spec fn fixture_bytes(g1: Seq<u8>, g2: Seq<u8>, gt: Seq<u8>) -> Seq<u8> {
    field_bytes(g1) + field_bytes(g2) + field_bytes(gt)
}

/// Reads the field that starts at `pos`: its bytes and the position after it.
pub open spec fn parse_field(s: Seq<u8>, pos: int) -> Option<(Seq<u8>, int)> {
    if 0 <= pos && pos + 4 <= s.len() {
        let n = le32_value(s.subrange(pos, pos + 4));
        if pos + 4 + n <= s.len() {
            Some((s.subrange(pos + 4, pos + 4 + n), pos + 4 + n))
        } else {
            None
        }
    } else {
        None
    }
}

/// Reads a whole fixture: three fields that end where the input ends.
pub open spec fn parse_fixture(s: Seq<u8>) -> Option<(Seq<u8>, Seq<u8>, Seq<u8>)> {
    match parse_field(s, 0) {
        None => None,
        Some((g1, p1)) => match parse_field(s, p1) {
            None => None,
            Some((g2, p2)) => match parse_field(s, p2) {
                None => None,
                Some((gt, p3)) => if p3 == s.len() {
                    Some((g1, g2, gt))
                } else {
                    None
                },
            },
        },
    }
}

proof fn lemma_le32_value(n: nat)
    requires
        n <= MAX_FIELD_LEN,
    ensures
        le32(n).len() == 4,
        le32_value(le32(n)) == n,
{
    reveal(le32);
    reveal(le32_value);
    let b0 = n % 256;
    let b1 = (n / 256) % 256;
    let b2 = (n / 65536) % 256;
    let b3 = (n / 16777216) % 256;
    assert(n == b0 + 256 * b1 + 65536 * b2 + 16777216 * b3) by (nonlinear_arith)
        requires
            n <= 0xffff_ffff,
            b0 == n % 256,
            b1 == (n / 256) % 256,
            b2 == (n / 65536) % 256,
            b3 == (n / 16777216) % 256,
    {
        assert(n / 16777216 < 256);
        assert(n == 256 * (n / 256) + n % 256);
        assert(n / 256 == 256 * (n / 65536) + (n / 256) % 256);
        assert(n / 65536 == 256 * (n / 16777216) + (n / 65536) % 256);
    }
}

proof fn lemma_parse_field(prefix: Seq<u8>, b: Seq<u8>, rest: Seq<u8>)
    requires
        b.len() <= MAX_FIELD_LEN,
    ensures
        parse_field(prefix + field_bytes(b) + rest, prefix.len() as int) == Some(
            (b, (prefix.len() + 4 + b.len()) as int),
        ),
{
    let s = prefix + field_bytes(b) + rest;
    let pos = prefix.len() as int;
    lemma_le32_value(b.len());
    assert(s.subrange(pos, pos + 4) =~= le32(b.len()));
    assert(s.subrange(pos + 4, pos + 4 + b.len()) =~= b);
}

/// A fixture reads back as the three encodings it was written from.
pub proof fn lemma_fixture_round_trip(g1: Seq<u8>, g2: Seq<u8>, gt: Seq<u8>)
    requires
        g1.len() <= MAX_FIELD_LEN,
        g2.len() <= MAX_FIELD_LEN,
        gt.len() <= MAX_FIELD_LEN,
    ensures
        parse_fixture(fixture_bytes(g1, g2, gt)) == Some((g1, g2, gt)),
{
    let s = fixture_bytes(g1, g2, gt);
    let e = Seq::<u8>::empty();
    let f1 = field_bytes(g1);
    let f2 = field_bytes(g2);
    let f3 = field_bytes(gt);
    lemma_le32_value(g1.len());
    lemma_le32_value(g2.len());
    lemma_le32_value(gt.len());
    assert(e + f1 + (f2 + f3) =~= s);
    lemma_parse_field(e, g1, f2 + f3);
    assert(f1 + f2 + f3 =~= s);
    lemma_parse_field(f1, g2, f3);
    assert(f1 + f2 + f3 + e =~= s);
    lemma_parse_field(f1 + f2, gt, e);
    let p1 = f1.len() as int;
    let p2 = (f1 + f2).len() as int;
    assert(parse_field(s, 0) == Some((g1, p1)));
    assert(parse_field(s, p1) == Some((g2, p2)));
    assert(parse_field(s, p2) == Some((gt, s.len() as int)));
}

/// Appends one field: the length, then the bytes.
fn write_field(out: &mut Vec<u8>, b: &Vec<u8>)
    requires
        b@.len() <= MAX_FIELD_LEN,
    ensures
        final(out)@ == old(out)@ + field_bytes(b@),
{
    let n = b.len();
    out.push((n % 256) as u8);
    out.push(((n / 256) % 256) as u8);
    out.push(((n / 65536) % 256) as u8);
    out.push(((n / 16777216) % 256) as u8);
    let ghost mid = out@;
    let mut i: usize = 0;
    while i < b.len()
        invariant
            i <= b@.len(),
            out@ == mid + b@.subrange(0, i as int),
        decreases b@.len() - i,
    {
        out.push(b[i]);
        i = i + 1;
        assert(out@ =~= mid + b@.subrange(0, i as int));
    }
    assert(b@.subrange(0, b@.len() as int) =~= b@);
    reveal(le32);
    assert(out@ =~= old(out)@ + field_bytes(b@));
}

/// Writes a vector as a fixture.
pub fn encode_fixture(v: &TestVector) -> (r: Vec<u8>)
    requires
        v.g1@.len() <= MAX_FIELD_LEN,
        v.g2@.len() <= MAX_FIELD_LEN,
        v.gt@.len() <= MAX_FIELD_LEN,
    ensures
        r@ == fixture_bytes(v.g1@, v.g2@, v.gt@),
{
    let mut out: Vec<u8> = Vec::new();
    write_field(&mut out, &v.g1);
    write_field(&mut out, &v.g2);
    write_field(&mut out, &v.gt);
    assert(out@ =~= fixture_bytes(v.g1@, v.g2@, v.gt@));
    out
}

/// Reads the field that starts at `pos`.
fn read_field(s: &[u8], pos: usize) -> (r: Option<(Vec<u8>, usize)>)
    ensures
        r matches Some((b, p)) ==> parse_field(s@, pos as int) == Some((b@, p as int)),
        r is None ==> parse_field(s@, pos as int) is None,
{
    if pos > s.len() || s.len() - pos < 4 {
        return None;
    }
    let n: u64 = s[pos] as u64 + 256 * (s[pos + 1] as u64) + 65536 * (s[pos + 2] as u64)
        + 16777216 * (s[pos + 3] as u64);
    proof {
        let sub = s@.subrange(pos as int, pos + 4);
        assert(sub[0] == s@[pos as int] && sub[1] == s@[pos + 1] && sub[2] == s@[pos + 2]
            && sub[3] == s@[pos + 3]);
        reveal(le32_value);
        assert(n == le32_value(sub));
    }
    let start = pos + 4;
    if n > (s.len() - start) as u64 {
        return None;
    }
    let end = start + n as usize;
    let mut b: Vec<u8> = Vec::new();
    let mut i: usize = start;
    while i < end
        invariant
            start <= i <= end <= s@.len(),
            b@ == s@.subrange(start as int, i as int),
        decreases end - i,
    {
        b.push(s[i]);
        i = i + 1;
        assert(b@ =~= s@.subrange(start as int, i as int));
    }
    Some((b, end))
}

/// Reads a fixture back into a vector; `None` where the input is not three
/// length-prefixed fields that end where it ends.
pub fn decode_fixture(s: &[u8]) -> (r: Option<TestVector>)
    ensures
        r matches Some(v) ==> parse_fixture(s@) == Some((v.g1@, v.g2@, v.gt@)),
        r is None ==> parse_fixture(s@) is None,
{
    let (g1, p1) = match read_field(s, 0) {
        Some(f) => f,
        None => return None,
    };
    let (g2, p2) = match read_field(s, p1) {
        Some(f) => f,
        None => return None,
    };
    let (gt, p3) = match read_field(s, p2) {
        Some(f) => f,
        None => return None,
    };
    if p3 != s.len() {
        return None;
    }
    Some(TestVector { g1, g2, gt })
}

} // verus!
