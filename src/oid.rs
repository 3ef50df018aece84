use vstd::prelude::*;

use crate::text::{chars_of, push_char};

verus! {

broadcast use vstd::array::group_array_axioms;

/// Number of bytes in a commit identifier.
pub const OID_LEN: usize = 20;

/// The character for a value `0..16`, in lower case.
pub open spec fn hex_char(v: int) -> char {
    if v < 10 {
        (v + 48) as char
    } else {
        (v + 87) as char
    }
}

/// The value of a hexadecimal digit, in either case.
pub open spec fn hex_value(c: char) -> Option<int> {
    if '0' <= c && c <= '9' {
        Some(c as int - 48)
    } else if 'a' <= c && c <= 'f' {
        Some(c as int - 87)
    } else if 'A' <= c && c <= 'F' {
        Some(c as int - 55)
    } else {
        None
    }
}

/// The digit at position `i` of the printable form of `b`: high nibble first.
pub open spec fn nibble_char(b: Seq<u8>, i: int) -> char {
    if i % 2 == 0 {
        hex_char(b[i / 2] as int / 16)
    } else {
        hex_char(b[i / 2] as int % 16)
    }
}

/// The printable form of a byte sequence: two lower-case digits per byte.
pub open spec fn hex_of(b: Seq<u8>) -> Seq<char> {
    Seq::new(2 * b.len(), |i: int| nibble_char(b, i))
}

pub open spec fn is_hex_text(s: Seq<char>) -> bool {
    forall|i: int| 0 <= i < s.len() ==> (#[trigger] hex_value(s[i])) is Some
}

/// The bytes that a text of hexadecimal digits stands for, two digits per byte.
pub open spec fn bytes_of_hex(s: Seq<char>) -> Seq<u8> {
    Seq::new(
        s.len() / 2,
        |i: int| (hex_value(s[2 * i])->0 * 16 + hex_value(s[2 * i + 1])->0) as u8,
    )
}

proof fn lemma_digit_round_trip(v: int)
    requires
        0 <= v < 16,
    ensures
        hex_value(hex_char(v)) == Some(v),
{
}

/// Reading the printable form of any bytes gives back those bytes.
pub proof fn lemma_hex_round_trip(b: Seq<u8>)
    ensures
        hex_of(b).len() == 2 * b.len(),
        is_hex_text(hex_of(b)),
        bytes_of_hex(hex_of(b)) == b,
{
    let h = hex_of(b);
    assert forall|i: int| 0 <= i < h.len() implies (#[trigger] hex_value(h[i])) is Some by {
        lemma_digit_round_trip(b[i / 2] as int / 16);
        lemma_digit_round_trip(b[i / 2] as int % 16);
    }
    assert forall|i: int| 0 <= i < b.len() implies bytes_of_hex(h)[i] == b[i] by {
        assert((2 * i) / 2 == i);
        assert((2 * i + 1) / 2 == i);
        assert((2 * i) % 2 == 0);
        assert((2 * i + 1) % 2 == 1);
        lemma_digit_round_trip(b[i] as int / 16);
        lemma_digit_round_trip(b[i] as int % 16);
    }
    assert(bytes_of_hex(h) =~= b);
}

/// A commit identifier: the twenty bytes of an object hash.
#[derive(Clone, Copy, Debug)]
pub struct Oid {
    pub bytes: [u8; 20],
}

impl View for Oid {
    type V = Seq<u8>;

    open spec fn view(&self) -> Seq<u8> {
        self.bytes@
    }
}

fn hex_digit(v: u8) -> (c: char)
    requires
        v < 16,
    ensures
        c == hex_char(v as int),
{
    if v < 10 {
        (v + 48) as char
    } else {
        (v + 87) as char
    }
}

fn digit_value(c: char) -> (r: Option<u8>)
    ensures
        r is Some <==> hex_value(c) is Some,
        r is Some ==> r->0 as int == hex_value(c)->0 && r->0 < 16,
{
    if '0' <= c && c <= '9' {
        Some((c as u32 - 48) as u8)
    } else if 'a' <= c && c <= 'f' {
        Some((c as u32 - 87) as u8)
    } else if 'A' <= c && c <= 'F' {
        Some((c as u32 - 55) as u8)
    } else {
        None
    }
}

impl Oid {
    /// The identifier made of exactly these bytes; `None` unless there are twenty.
    pub fn from_bytes(b: &[u8]) -> (r: Option<Oid>)
        ensures
            r is Some <==> b@.len() == OID_LEN,
            r is Some ==> r->0@ == b@,
    {
        if b.len() != OID_LEN {
            return None;
        }
        let mut bytes = [0u8; 20];
        let mut i: usize = 0;
        while i < OID_LEN
            invariant
                b@.len() == OID_LEN,
                i <= OID_LEN,
                bytes@.len() == OID_LEN,
                forall|j: int| 0 <= j < i ==> bytes@[j] == b@[j],
            decreases OID_LEN - i,
        {
            bytes[i] = b[i];
            i = i + 1;
        }
        assert(bytes@ =~= b@);
        Some(Oid { bytes })
    }

    /// The printable form: forty lower-case hexadecimal digits.
    pub fn to_hex(&self) -> (r: String)
        ensures
            r@ == hex_of(self@),
    {
        let mut r = String::new();
        let mut i: usize = 0;
        while i < OID_LEN
            invariant
                self@.len() == OID_LEN,
                i <= OID_LEN,
                r@ =~= hex_of(self@.subrange(0, i as int)),
            decreases OID_LEN - i,
        {
            let b = self.bytes[i];
            push_char(&mut r, hex_digit(b / 16));
            push_char(&mut r, hex_digit(b % 16));
            proof {
                let s = self@.subrange(0, i + 1);
                assert(r@ =~= hex_of(s)) by {
                    assert forall|k: int| 0 <= k < 2 * i implies nibble_char(s, k) == nibble_char(
                        self@.subrange(0, i as int),
                        k,
                    ) by {
                        assert(k / 2 < i);
                    }
                }
            }
            i = i + 1;
        }
        assert(self@.subrange(0, OID_LEN as int) =~= self@);
        r
    }

    /// Reads the printable form: exactly forty hexadecimal digits, in either case.
    pub fn from_hex(s: &str) -> (r: Option<Oid>)
        ensures
            r is Some <==> (s@.len() == 2 * OID_LEN && is_hex_text(s@)),
            r is Some ==> r->0@ == bytes_of_hex(s@),
    {
        let c = chars_of(s);
        if c.len() != 2 * OID_LEN {
            return None;
        }
        let r = Oid::from_hex_at(&c, 0);
        assert(c@.subrange(0, 2 * OID_LEN as int) =~= s@);
        r
    }

    /// Reads forty hexadecimal digits of `c`, from position `start` on.
    pub fn from_hex_at(c: &Vec<char>, start: usize) -> (r: Option<Oid>)
        requires
            start + 2 * OID_LEN <= c@.len(),
        ensures
            r is Some <==> is_hex_text(c@.subrange(start as int, start + 2 * OID_LEN)),
            r is Some ==> r->0@ == bytes_of_hex(c@.subrange(start as int, start + 2 * OID_LEN)),
    {
        let ghost t = c@.subrange(start as int, start + 2 * OID_LEN);
        let n = c.len();
        let mut bytes = [0u8; 20];
        let mut i: usize = 0;
        while i < OID_LEN
            invariant
                t == c@.subrange(start as int, start + 2 * OID_LEN),
                start + 2 * OID_LEN <= c@.len(),
                c@.len() == n,
                i <= OID_LEN,
                bytes@.len() == OID_LEN,
                forall|j: int| 0 <= j < 2 * i ==> (#[trigger] hex_value(t[j])) is Some,
                forall|j: int| 0 <= j < i ==> bytes@[j] == bytes_of_hex(t)[j],
            decreases OID_LEN - i,
        {
            let hi = digit_value(c[start + 2 * i]);
            let lo = digit_value(c[start + 2 * i + 1]);
            assert(t[2 * i as int] == c@[start + 2 * i]);
            assert(t[2 * i + 1] == c@[start + 2 * i + 1]);
            match (hi, lo) {
                (Some(h), Some(l)) => {
                    bytes[i] = h * 16 + l;
                },
                _ => {
                    assert(!is_hex_text(t));
                    return None;
                },
            }
            i = i + 1;
        }
        assert(bytes@ =~= bytes_of_hex(t));
        Some(Oid { bytes })
    }

    pub fn eq_id(&self, other: &Oid) -> (r: bool)
        ensures
            r == (self@ == other@),
            r == (*self == *other),
    {
        let mut i: usize = 0;
        while i < OID_LEN
            invariant
                self@.len() == OID_LEN,
                other@.len() == OID_LEN,
                i <= OID_LEN,
                forall|j: int| 0 <= j < i ==> self@[j] == other@[j],
            decreases OID_LEN - i,
        {
            if self.bytes[i] != other.bytes[i] {
                assert(self@[i as int] != other@[i as int]);
                return false;
            }
            i = i + 1;
        }
        assert(self@ =~= other@);
        assert(self.bytes =~= other.bytes);
        true
    }
}

} // verus!
