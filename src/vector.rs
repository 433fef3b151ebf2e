//! The test vector: compressed encodings of one pairing instance.
use crate::backend::{G1_LEN, G2_LEN, GT_LEN};
use vstd::prelude::*;
use vstd::string::StringExecFns;

verus! {

/// Compressed encodings of a G1 point, a G2 point and their pairing in GT.
#[derive(Debug, Clone)]
pub struct TestVector {
    pub g1: Vec<u8>,
    pub g2: Vec<u8>,
    pub gt: Vec<u8>,
}

impl TestVector {
    /// Each encoding has the length of its compressed form.
    pub open spec fn well_formed(&self) -> bool {
        &&& self.g1@.len() == G1_LEN
        &&& self.g2@.len() == G2_LEN
        &&& self.gt@.len() == GT_LEN
    }

    /// Two vectors are equal when all three encodings are equal byte for byte.
    pub open spec fn same_as(&self, o: &TestVector) -> bool {
        &&& self.g1@ == o.g1@
        &&& self.g2@ == o.g2@
        &&& self.gt@ == o.gt@
    }

    /// A vector of the three given encodings.
    pub fn new(g1: Vec<u8>, g2: Vec<u8>, gt: Vec<u8>) -> (r: TestVector)
        ensures
            r.g1@ == g1@,
            r.g2@ == g2@,
            r.gt@ == gt@,
    {
        TestVector { g1, g2, gt }
    }

    /// Renders the vector as `(g1, g2, gt)`, each encoding as its list of
    /// decimal byte values, e.g. `([1, 2], [3], [])`.
    pub fn render(&self) -> (r: String)
        ensures
            r@ == vector_text(*self),
    {
        proof {
            reveal_strlit("(");
            reveal_strlit(", ");
            reveal_strlit(")");
        }
        let mut s = String::from_str("(");
        append_bytes(&mut s, &self.g1);
        s.append(", ");
        append_bytes(&mut s, &self.g2);
        s.append(", ");
        append_bytes(&mut s, &self.gt);
        s.append(")");
        s
    }
}

/// Byte-for-byte equality of two sequences.
pub(crate) fn bytes_eq(a: &Vec<u8>, b: &Vec<u8>) -> (r: bool)
    ensures
        r == (a@ == b@),
{
    if a.len() != b.len() {
        return false;
    }
    let mut i: usize = 0;
    while i < a.len()
        invariant
            a@.len() == b@.len(),
            i <= a@.len(),
            forall|j: int| 0 <= j < i ==> a@[j] == b@[j],
        decreases a@.len() - i,
    {
        if a[i] != b[i] {
            return false;
        }
        i = i + 1;
    }
    assert(a@ =~= b@);
    true
}

impl PartialEq for TestVector {
    fn eq(&self, o: &TestVector) -> (r: bool) {
        bytes_eq(&self.g1, &o.g1) && bytes_eq(&self.g2, &o.g2) && bytes_eq(&self.gt, &o.gt)
    }
}

impl vstd::std_specs::cmp::PartialEqSpecImpl for TestVector {
    open spec fn obeys_eq_spec() -> bool {
        true
    }

    open spec fn eq_spec(&self, o: &TestVector) -> bool {
        self.same_as(o)
    }
}

/// The character of a decimal digit.
pub open spec fn digit_char(d: nat) -> char {
    if d == 0 {
        '0'
    } else if d == 1 {
        '1'
    } else if d == 2 {
        '2'
    } else if d == 3 {
        '3'
    } else if d == 4 {
        '4'
    } else if d == 5 {
        '5'
    } else if d == 6 {
        '6'
    } else if d == 7 {
        '7'
    } else if d == 8 {
        '8'
    } else {
        '9'
    }
}

/// The decimal form of a natural number, without leading zeros.
pub open spec fn decimal(n: nat) -> Seq<char>
    decreases n,
{
    if n < 10 {
        seq![digit_char(n)]
    } else {
        decimal(n / 10) + seq![digit_char(n % 10)]
    }
}

/// The bytes as decimal values separated by `, `.
pub open spec fn items_text(b: Seq<u8>) -> Seq<char>
    decreases b.len(),
{
    if b.len() == 0 {
        Seq::empty()
    } else if b.len() == 1 {
        decimal(b[0] as nat)
    } else {
        items_text(b.drop_last()) + ", "@ + decimal(b.last() as nat)
    }
}

/// The bytes as a bracketed list of decimal values.
pub open spec fn bytes_text(b: Seq<u8>) -> Seq<char> {
    "["@ + items_text(b) + "]"@
}

/// The rendering of a vector: its three byte lists in parentheses.
pub open spec fn vector_text(v: TestVector) -> Seq<char> {
    "("@ + bytes_text(v.g1@) + ", "@ + bytes_text(v.g2@) + ", "@ + bytes_text(v.gt@) + ")"@
}

/// The one-character string of a decimal digit.
fn digit_str(d: u8) -> (r: &'static str)
    requires
        d < 10,
    ensures
        r@ == seq![digit_char(d as nat)],
{
    proof {
        reveal_strlit("0");
        reveal_strlit("1");
        reveal_strlit("2");
        reveal_strlit("3");
        reveal_strlit("4");
        reveal_strlit("5");
        reveal_strlit("6");
        reveal_strlit("7");
        reveal_strlit("8");
        reveal_strlit("9");
    }
    match d {
        0 => "0",
        1 => "1",
        2 => "2",
        3 => "3",
        4 => "4",
        5 => "5",
        6 => "6",
        7 => "7",
        8 => "8",
        _ => "9",
    }
}

/// Appends the decimal form of a byte.
fn append_decimal(s: &mut String, n: u8)
    ensures
        final(s)@ == old(s)@ + decimal(n as nat),
{
    if n >= 100 {
        s.append(digit_str(n / 100));
    }
    if n >= 10 {
        s.append(digit_str((n / 10) % 10));
    }
    s.append(digit_str(n % 10));
    proof {
        let m = n as nat;
        if m >= 100 {
            assert(decimal(m / 100) == seq![digit_char(m / 100)]);
            assert((m / 10) / 10 == m / 100);
            assert(decimal(m / 10) == decimal((m / 10) / 10) + seq![digit_char((m / 10) % 10)]);
        } else if m >= 10 {
            assert(decimal(m / 10) == seq![digit_char(m / 10)]);
            assert(m / 10 == (m / 10) % 10);
        }
        assert(final(s)@ =~= old(s)@ + decimal(m));
    }
}

/// Appends the bracketed list of the decimal values of the bytes.
fn append_bytes(s: &mut String, b: &Vec<u8>)
    ensures
        final(s)@ == old(s)@ + bytes_text(b@),
{
    proof {
        reveal_strlit("[");
        reveal_strlit(", ");
        reveal_strlit("]");
    }
    let ghost start = s@;
    s.append("[");
    let mut i: usize = 0;
    while i < b.len()
        invariant
            i <= b@.len(),
            s@ == start + "["@ + items_text(b@.subrange(0, i as int)),
        decreases b@.len() - i,
    {
        let ghost before = s@;
        if i > 0 {
            s.append(", ");
        }
        append_decimal(s, b[i]);
        proof {
            let p = b@.subrange(0, i as int + 1);
            assert(p.drop_last() =~= b@.subrange(0, i as int));
            assert(p.last() == b@[i as int]);
            if i == 0 {
                assert(b@.subrange(0, 0) =~= Seq::<u8>::empty());
            }
            assert(s@ =~= start + "["@ + items_text(p));
        }
        i = i + 1;
    }
    s.append("]");
    proof {
        assert(b@.subrange(0, b@.len() as int) =~= b@);
        assert(s@ =~= start + bytes_text(b@));
    }
}

} // verus!
