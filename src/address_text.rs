//! Reading a device address from text: six hexadecimal octets separated by `:` or `-`.
use crate::{BTAddress, ConversionError};
use vstd::prelude::*;
use vstd::string::StringSliceAdditionalSpecFns;

verus! {

/// `:` and `-` separate the octets.
pub open spec fn is_separator(c: u8) -> bool {
    c == 0x3a || c == 0x2d
}

/// The fields of `b` between separators, in order; text without a separator is one field.
pub open spec fn split_fields(b: Seq<u8>) -> Seq<Seq<u8>>
    decreases b.len(),
{
    if b.len() == 0 {
        seq![Seq::<u8>::empty()]
    } else {
        let prev = split_fields(b.drop_last());
        if is_separator(b.last()) {
            prev.push(Seq::<u8>::empty())
        } else {
            prev.update(prev.len() - 1, prev.last().push(b.last()))
        }
    }
}

pub open spec fn is_hex_digit(c: u8) -> bool {
    (0x30 <= c <= 0x39) || (0x41 <= c <= 0x46) || (0x61 <= c <= 0x66)
}

pub open spec fn hex_digit_value(c: u8) -> int {
    if 0x30 <= c <= 0x39 {
        c - 0x30
    } else if 0x41 <= c <= 0x46 {
        c - 0x41 + 10
    } else {
        c - 0x61 + 10
    }
}

/// The number that a string of hexadecimal digits stands for.
pub open spec fn digits_value(d: Seq<u8>) -> int
    decreases d.len(),
{
    if d.len() == 0 {
        0
    } else {
        digits_value(d.drop_last()) * 16 + hex_digit_value(d.last())
    }
}

/// The byte a field stands for: one or more hexadecimal digits, and nothing else,
/// whose value fits in a byte.
pub open spec fn octet_value(f: Seq<u8>) -> Option<u8> {
    if f.len() > 0 && (forall|i: int| 0 <= i < f.len() ==> is_hex_digit(#[trigger] f[i]))
        && digits_value(f) <= 255 {
        Some(digits_value(f) as u8)
    } else {
        None
    }
}

/// The address bytes that text `b` spells, if it spells one: exactly six fields,
/// each a valid octet.
pub open spec fn parsed_address(b: Seq<u8>) -> Option<Seq<u8>> {
    let f = split_fields(b);
    if f.len() == 6 && (forall|k: int| 0 <= k < 6 ==> (#[trigger] octet_value(f[k])) is Some) {
        Some(Seq::new(6, |k: int| octet_value(f[k])->Some_0))
    } else {
        None
    }
}

/// The fields of a prefix that a separator has closed are fields of every longer prefix.
proof fn lemma_split_prefix(b: Seq<u8>, i: int, j: int)
    requires
        0 <= i <= j <= b.len(),
    ensures
        split_fields(b.subrange(0, j)).len() >= split_fields(b.subrange(0, i)).len(),
        forall|k: int|
            0 <= k < split_fields(b.subrange(0, i)).len() - 1 ==> split_fields(b.subrange(0, j))[k]
                == split_fields(b.subrange(0, i))[k],
    decreases j - i,
{
    if j > i {
        lemma_split_prefix(b, i, j - 1);
        lemma_split_len(b.subrange(0, j - 1));
        assert(b.subrange(0, j).drop_last() =~= b.subrange(0, j - 1));
    }
}

proof fn lemma_split_len(b: Seq<u8>)
    ensures
        split_fields(b).len() >= 1,
    decreases b.len(),
{
    if b.len() > 0 {
        lemma_split_len(b.drop_last());
    }
}

fn hex_digit(c: u8) -> (r: Option<u8>)
    ensures
        is_hex_digit(c) ==> r == Some(hex_digit_value(c) as u8),
        !is_hex_digit(c) ==> r is None,
{
    if 0x30 <= c && c <= 0x39 {
        Some(c - 0x30)
    } else if 0x41 <= c && c <= 0x46 {
        Some(c - 0x41 + 10)
    } else if 0x61 <= c && c <= 0x66 {
        Some(c - 0x61 + 10)
    } else {
        None
    }
}

/// The byte that field `b[start..end]` stands for.
fn parse_octet(b: &[u8], start: usize, end: usize) -> (r: Option<u8>)
    requires
        start <= end <= b@.len(),
    ensures
        r == octet_value(b@.subrange(start as int, end as int)),
{
    let ghost f = b@.subrange(start as int, end as int);
    let first = start;
    if first == end {
        return None;
    }
    let mut acc: u16 = 0;
    let mut too_big = false;
    let mut j = first;
    while j < end
        invariant
            first == start,
            first <= j <= end <= b@.len(),
            f == b@.subrange(start as int, end as int),
            forall|i: int| first <= i < j ==> is_hex_digit(#[trigger] b@[i]),
            !too_big ==> acc as int == digits_value(b@.subrange(first as int, j as int)) && acc
                <= 255,
            too_big ==> digits_value(b@.subrange(first as int, j as int)) > 255,
        decreases end - j,
    {
        let digit = hex_digit(b[j]);
        if digit.is_none() {
            assert(f[j - first] == b@[j as int]);
            assert(!is_hex_digit(f[j - first]));
            return None;
        }
        let d = digit.unwrap();
        let ghost prev = b@.subrange(first as int, j as int);
        assert(b@.subrange(first as int, j + 1).drop_last() =~= prev);
        assert(digits_value(b@.subrange(first as int, j + 1)) == digits_value(prev) * 16
            + hex_digit_value(b@[j as int]));
        if !too_big {
            let next = acc * 16 + d as u16;
            if next > 255 {
                too_big = true;
            } else {
                acc = next;
            }
        }
        j = j + 1;
    }
    assert(b@.subrange(first as int, j as int) == f);
    if too_big {
        None
    } else {
        assert(forall|i: int|
            0 <= i < f.len() ==> #[trigger] f[i] == b@[first + i]);
        Some(acc as u8)
    }
}

/// Reads an address from its text bytes; see `parsed_address`.
pub fn parse_address(b: &[u8]) -> (r: Result<BTAddress, ConversionError>)
    ensures
        match r {
            Ok(a) => parsed_address(b@) == Some(a.0@),
            Err(_) => parsed_address(b@) is None,
        },
{
    let n = b.len();
    let mut out: [u8; 6] = [0u8; 6];
    let mut count: usize = 0;
    let mut field_start: usize = 0;
    let mut i: usize = 0;
    assert(b@.subrange(0, 0) =~= Seq::<u8>::empty());
    while i < n
        invariant
            n == b@.len(),
            count <= 5,
            field_start <= i <= n,
            split_fields(b@.subrange(0, i as int)).len() == count + 1,
            split_fields(b@.subrange(0, i as int)).last() == b@.subrange(field_start as int, i as int),
            forall|k: int|
                0 <= k < count ==> octet_value(#[trigger] split_fields(b@.subrange(0, i as int))[k])
                    == Some(out@[k]),
        decreases n - i,
    {
        let ghost before = split_fields(b@.subrange(0, i as int));
        assert(b@.subrange(0, i + 1).drop_last() =~= b@.subrange(0, i as int));
        if b[i] == 0x3a || b[i] == 0x2d {
            let ghost after = split_fields(b@.subrange(0, i + 1));
            assert(after == before.push(Seq::<u8>::empty()));
            proof {
                lemma_split_prefix(b@, i + 1, n as int);
                assert(b@.subrange(0, n as int) =~= b@);
            }
            match parse_octet(b, field_start, i) {
                Some(v) => {
                    if count == 5 {
                        return Err(ConversionError(()));
                    }
                    out[count] = v;
                    count = count + 1;
                },
                None => {
                    assert(split_fields(b@)[count as int] == after[count as int]);
                    return Err(ConversionError(()));
                },
            }
            field_start = i + 1;
            assert(split_fields(b@.subrange(0, i + 1)).last() =~= b@.subrange(
                field_start as int,
                i + 1,
            ));
        } else {
            assert(b@.subrange(field_start as int, i + 1) =~= b@.subrange(
                field_start as int,
                i as int,
            ).push(b[i as int]));
        }
        i = i + 1;
    }
    assert(b@.subrange(0, n as int) =~= b@);
    if count != 5 {
        return Err(ConversionError(()));
    }
    match parse_octet(b, field_start, n) {
        Some(v) => {
            out[5] = v;
        },
        None => {
            return Err(ConversionError(()));
        },
    }
    let r = BTAddress(out);
    assert(r.0@ =~= Seq::new(6, |k: int| octet_value(split_fields(b@)[k])->Some_0));
    Ok(r)
}

impl BTAddress {
    /// Reads an address written as six hexadecimal octets separated by `:` or `-`.
    pub fn from_text(s: &str) -> (r: Result<BTAddress, ConversionError>)
        ensures
            match r {
                Ok(a) => parsed_address(s.spec_bytes()) == Some(a.0@),
                Err(_) => parsed_address(s.spec_bytes()) is None,
            },
    {
        parse_address(s.as_bytes())
    }
}

impl core::str::FromStr for BTAddress {
    type Err = ConversionError;

    fn from_str(s: &str) -> (r: Result<BTAddress, ConversionError>)
        ensures
            match r {
                Ok(a) => parsed_address(s.spec_bytes()) == Some(a.0@),
                Err(_) => parsed_address(s.spec_bytes()) is None,
            },
    {
        BTAddress::from_text(s)
    }
}


/// The upper-case hexadecimal digit for `n < 16`.
pub open spec fn hex_upper(n: u8) -> u8 {
    if n < 10 {
        (0x30 + n) as u8
    } else {
        (0x41 + n - 10) as u8
    }
}

/// The two upper-case hexadecimal digits of a byte, high digit first.
pub open spec fn octet_text(b: u8) -> Seq<u8> {
    seq![hex_upper(b / 16), hex_upper(b % 16)]
}

/// The text form of an address: its six bytes in order as `XX:XX:XX:XX:XX:XX`.
pub open spec fn address_text_of(a: Seq<u8>) -> Seq<u8> {
    octet_text(a[0]) + seq![0x3au8] + octet_text(a[1]) + seq![0x3au8] + octet_text(a[2])
        + seq![0x3au8] + octet_text(a[3]) + seq![0x3au8] + octet_text(a[4]) + seq![0x3au8]
        + octet_text(a[5])
}

proof fn lemma_split_no_separator(b: Seq<u8>)
    requires
        forall|i: int| 0 <= i < b.len() ==> !is_separator(#[trigger] b[i]),
    ensures
        split_fields(b) == seq![b],
    decreases b.len(),
{
    if b.len() > 0 {
        lemma_split_no_separator(b.drop_last());
        assert(b.drop_last().push(b.last()) =~= b);
        assert(seq![b.drop_last()].update(0, b.drop_last().push(b.last())) =~= seq![b]);
    } else {
        assert(b =~= Seq::<u8>::empty());
    }
}

proof fn lemma_split_append(a: Seq<u8>, sep: u8, b: Seq<u8>)
    requires
        is_separator(sep),
        forall|i: int| 0 <= i < b.len() ==> !is_separator(#[trigger] b[i]),
    ensures
        split_fields(a + seq![sep] + b) == split_fields(a).push(b),
    decreases b.len(),
{
    let t = a + seq![sep] + b;
    if b.len() == 0 {
        assert(t.drop_last() =~= a);
        assert(b =~= Seq::<u8>::empty());
    } else {
        let c = b.drop_last();
        lemma_split_append(a, sep, c);
        assert(t.drop_last() =~= a + seq![sep] + c);
        assert(c.push(b.last()) =~= b);
        assert(split_fields(a).push(c).update(split_fields(a).len() as int, c.push(b.last()))
            =~= split_fields(a).push(b));
    }
}

proof fn lemma_octet_text(x: u8)
    ensures
        octet_value(octet_text(x)) == Some(x),
        forall|i: int| 0 <= i < 2 ==> !is_separator(#[trigger] octet_text(x)[i]),
{
    let t = octet_text(x);
    let hi = x / 16;
    let lo = x % 16;
    assert(hex_digit_value(hex_upper(hi)) == hi);
    assert(hex_digit_value(hex_upper(lo)) == lo);
    assert(t.drop_last() =~= seq![hex_upper(hi)]);
    assert(seq![hex_upper(hi)].drop_last() =~= Seq::<u8>::empty());
    assert(digits_value(Seq::<u8>::empty()) == 0);
    assert(digits_value(seq![hex_upper(hi)]) == hi);
    assert(t.last() == hex_upper(lo));
    assert(digits_value(t) == digits_value(t.drop_last()) * 16 + hex_digit_value(t.last()));
    assert(digits_value(t) == hi * 16 + lo);
    assert(is_hex_digit(t[0]) && is_hex_digit(t[1]));
}

/// An address's text form reads back as that address.
pub proof fn lemma_text_round_trip(a: BTAddress)
    ensures
        address_text_of(a.0@).len() == 17,
        parsed_address(address_text_of(a.0@)) == Some(a.0@),
{
    let o = Seq::new(6, |k: int| octet_text(a.0@[k]));
    assert forall|k: int| 0 <= k < 6 implies octet_value(#[trigger] o[k]) == Some(a.0@[k]) && (
    forall|i: int| 0 <= i < o[k].len() ==> !is_separator(#[trigger] o[k][i])) by {
        lemma_octet_text(a.0@[k]);
    }
    let sep = 0x3au8;
    let t1 = o[0];
    let t2 = t1 + seq![sep] + o[1];
    let t3 = t2 + seq![sep] + o[2];
    let t4 = t3 + seq![sep] + o[3];
    let t5 = t4 + seq![sep] + o[4];
    let t6 = t5 + seq![sep] + o[5];
    lemma_split_no_separator(t1);
    lemma_split_append(t1, sep, o[1]);
    lemma_split_append(t2, sep, o[2]);
    lemma_split_append(t3, sep, o[3]);
    lemma_split_append(t4, sep, o[4]);
    lemma_split_append(t5, sep, o[5]);
    assert(t6 =~= address_text_of(a.0@));
    let f = split_fields(t6);
    assert(f =~= seq![o[0], o[1], o[2], o[3], o[4], o[5]]);
    assert(forall|k: int| 0 <= k < 6 ==> f[k] == o[k]);
    assert(Seq::new(6, |k: int| octet_value(f[k])->Some_0) =~= a.0@);
}

fn hex_upper_digit(n: u8) -> (r: u8)
    requires
        n < 16,
    ensures
        r == hex_upper(n),
{
    if n < 10 {
        0x30 + n
    } else {
        0x41 + n - 10
    }
}

impl BTAddress {
    /// The address as text, `XX:XX:XX:XX:XX:XX` with upper-case digits, as ASCII bytes.
    pub fn to_text(self) -> (r: [u8; 17])
        ensures
            r@ == address_text_of(self.0@),
            parsed_address(r@) == Some(self.0@),
    {
        let a = self.0;
        let r = [
            hex_upper_digit(a[0] / 16),
            hex_upper_digit(a[0] % 16),
            0x3a,
            hex_upper_digit(a[1] / 16),
            hex_upper_digit(a[1] % 16),
            0x3a,
            hex_upper_digit(a[2] / 16),
            hex_upper_digit(a[2] % 16),
            0x3a,
            hex_upper_digit(a[3] / 16),
            hex_upper_digit(a[3] % 16),
            0x3a,
            hex_upper_digit(a[4] / 16),
            hex_upper_digit(a[4] % 16),
            0x3a,
            hex_upper_digit(a[5] / 16),
            hex_upper_digit(a[5] % 16),
        ];
        assert(r@ =~= address_text_of(self.0@));
        proof {
            lemma_text_round_trip(self);
        }
        r
    }
}

} // verus!
