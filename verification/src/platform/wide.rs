//! UTF-16, as the Windows interfaces and the registry hold text.

use vstd::prelude::*;

use crate::text;
use crate::text::{chars_of, concat2};
use crate::upload::hasher;
use crate::upload::hasher::hex;

verus! {

broadcast use vstd::seq::group_seq_axioms;

// ── Encoding ────────────────────────────────────────────────────────────────

/// The UTF-16 units of a character: one, or a pair of surrogates.
pub open spec fn char_units(c: char) -> Seq<u16> {
    let n = c as u32 as int;
    if n < 0x10000 {
        seq![n as u16]
    } else {
        seq![(0xD800 + (n - 0x10000) / 0x400) as u16, (0xDC00 + (n - 0x10000) % 0x400) as u16]
    }
}

/// The UTF-16 units of a text.
pub open spec fn utf16(s: Seq<char>) -> Seq<u16>
    decreases s.len(),
{
    if s.len() == 0 {
        Seq::empty()
    } else {
        utf16(s.drop_last()) + char_units(s.last())
    }
}

/// The UTF-16 units of a text.
pub fn wide(s: &str) -> (r: Vec<u16>)
    ensures
        r@ == utf16(s@),
{
    let v: Vec<char> = chars_of(s);
    let mut r: Vec<u16> = Vec::new();
    let mut i: usize = 0;
    assert(v@.take(0) =~= Seq::<char>::empty());
    while i < v.len()
        invariant
            i <= v@.len(),
            r@ == utf16(v@.take(i as int)),
        decreases v@.len() - i,
    {
        let n: u32 = v[i] as u32;
        let ghost before = r@;
        if n < 0x10000 {
            r.push(n as u16);
        } else {
            let m: u32 = n - 0x10000;
            r.push((0xD800 + m / 0x400) as u16);
            r.push((0xDC00 + m % 0x400) as u16);
        }
        assert(r@ =~= before + char_units(v@[i as int]));
        assert(v@.take(i + 1).drop_last() =~= v@.take(i as int));
        i += 1;
    }
    assert(v@.take(v@.len() as int) =~= v@);
    r
}

/// The UTF-16 units of a text, and the zero that ends it.
pub fn wide_terminated(s: &str) -> (r: Vec<u16>)
    ensures
        r@ == utf16(s@).push(0),
{
    let mut r: Vec<u16> = wide(s);
    r.push(0);
    r
}

proof fn lemma_char_units_shape(c: char)
    ensures
        ({
            let n = c as u32 as int;
            let u = char_units(c);
            &&& n < 0x10000 ==> u.len() == 1 && u[0] == n && !(0xD800 <= u[0] <= 0xDFFF)
            &&& n >= 0x10000 ==> u.len() == 2 && u[0] == 0xD800 + (n - 0x10000) / 0x400 && u[1]
                == 0xDC00 + (n - 0x10000) % 0x400 && 0xDC00 <= u[1] <= 0xDFFF
        }),
{
    let n = c as u32 as int;
    assert(n <= 0x10FFFF);
    if n < 0x10000 {
        assert(char_units(c)[0] == n as u16);
    } else {
        assert((n - 0x10000) / 0x400 < 0x400);
        assert(char_units(c)[0] == (0xD800 + (n - 0x10000) / 0x400) as u16);
        assert(char_units(c)[1] == (0xDC00 + (n - 0x10000) % 0x400) as u16);
    }
}

proof fn lemma_same_number(a: char, b: char)
    ensures
        a as u32 == b as u32 ==> a == b,
{
}

/// Different texts have different UTF-16 units.
pub proof fn lemma_utf16_injective(a: Seq<char>, b: Seq<char>)
    requires
        utf16(a) == utf16(b),
    ensures
        a == b,
    decreases a.len(),
{
    if a.len() == 0 || b.len() == 0 {
        if a.len() > 0 {
            assert(utf16(a).len() > 0);
        }
        if b.len() > 0 {
            assert(utf16(b).len() > 0);
        }
        assert(a =~= b);
    } else {
        let u = utf16(a);
        let x = char_units(a.last());
        let y = char_units(b.last());
        assert(u.last() == x.last());
        assert(u.last() == y.last());
        lemma_char_units_shape(a.last());
        lemma_char_units_shape(b.last());
        assert(x.len() == y.len());
        assert(u.skip(u.len() - x.len()) =~= x);
        assert(u.skip(u.len() - y.len()) =~= y);
        assert(x == y && x[0] == y[0]);
        if x.len() == 2 {
            assert(x[1] == y[1]);
        }
        assert(a.last() as u32 == b.last() as u32) by {
            let n = a.last() as u32 as int;
            let m = b.last() as u32 as int;
            if x.len() == 2 {
                assert((n - 0x10000) / 0x400 == (m - 0x10000) / 0x400);
                assert((n - 0x10000) % 0x400 == (m - 0x10000) % 0x400);
            }
        }
        lemma_same_number(a.last(), b.last());
        assert(u.take(u.len() - x.len()) =~= utf16(a.drop_last()));
        assert(u.take(u.len() - y.len()) =~= utf16(b.drop_last()));
        lemma_utf16_injective(a.drop_last(), b.drop_last());
        assert(a =~= a.drop_last().push(a.last()));
        assert(b =~= b.drop_last().push(b.last()));
    }
}

// ── Decoding ────────────────────────────────────────────────────────────────

/// The text with these UTF-16 units, if there is one.
pub open spec fn utf16_text(units: Seq<u16>) -> Option<Seq<char>> {
    if exists|s: Seq<char>| utf16(s) == units {
        Some(choose|s: Seq<char>| utf16(s) == units)
    } else {
        None
    }
}

/// The units of a text are those of this text only.
pub proof fn lemma_utf16_text(s: Seq<char>)
    ensures
        utf16_text(utf16(s)) == Some(s),
{
    let t = choose|t: Seq<char>| utf16(t) == utf16(s);
    lemma_utf16_injective(t, s);
}

/// `String::from_utf16`: the text with these UTF-16 units, `None` where no text
/// has them.
#[verifier::external_body]
fn from_units(units: &Vec<u16>) -> (r: Option<String>)
    ensures
        r matches Some(s) ==> utf16(s@) == units@,
        r is None ==> forall|s: Seq<char>| utf16(s) != units@,
{
    match String::from_utf16(units) {
        Ok(s) => Some(s),
        Err(_) => None,
    }
}

/// The text that `String::from_utf16_lossy` reads from UTF-16 units.
pub uninterp spec fn utf16_lossy(units: Seq<u16>) -> Seq<char>;

/// `String::from_utf16_lossy`: the text with these UTF-16 units, what is
/// invalid replaced.
#[verifier::external_body]
pub(crate) fn from_units_lossy(units: &Vec<u16>) -> (r: String)
    ensures
        r@ == utf16_lossy(units@),
        forall|s: Seq<char>| utf16(s) == units@ ==> r@ == s,
{
    String::from_utf16_lossy(units)
}

// ── Registry text ───────────────────────────────────────────────────────────

/// The bytes of UTF-16 units, the low byte first.
pub open spec fn unit_bytes(units: Seq<u16>) -> Seq<u8> {
    Seq::new(
        2 * units.len(),
        |i: int|
            if i % 2 == 0 {
                (units[i / 2] % 256) as u8
            } else {
                (units[i / 2] / 256) as u8
            },
    )
}

/// The UTF-16 units that bytes hold, the low byte first.
pub open spec fn byte_units(bytes: Seq<u8>) -> Seq<u16> {
    Seq::new(bytes.len() / 2, |i: int| (bytes[2 * i] + 256 * bytes[2 * i + 1]) as u16)
}

/// The position of the first zero; the length where there is none.
pub open spec fn zero_at(units: Seq<u16>) -> int
    decreases units.len(),
{
    if units.len() == 0 || units[0] == 0 {
        0
    } else {
        1 + zero_at(units.drop_first())
    }
}

/// What the registry holds for a text: its UTF-16 units and a zero, as bytes.
pub open spec fn reg_sz(s: Seq<char>) -> Seq<u8> {
    unit_bytes(utf16(s).push(0))
}

/// The text that the registry holds in these bytes: the UTF-16 units before the
/// first zero. An odd number of bytes, or none, is no text.
pub open spec fn reg_sz_text(bytes: Seq<u8>) -> Option<Seq<char>> {
    if bytes.len() < 2 || bytes.len() % 2 != 0 {
        None
    } else {
        let units = byte_units(bytes);
        utf16_text(units.take(zero_at(units)))
    }
}

/// What the registry holds for a text.
pub fn encode_reg_sz(s: &str) -> (r: Vec<u8>)
    ensures
        r@ == reg_sz(s@),
{
    let w: Vec<u16> = wide_terminated(s);
    let mut r: Vec<u8> = Vec::new();
    let mut i: usize = 0;
    while i < w.len()
        invariant
            i <= w@.len(),
            r@ =~= unit_bytes(w@.take(i as int)),
        decreases w@.len() - i,
    {
        let ghost before = r@;
        r.push((w[i] % 256) as u8);
        r.push((w[i] / 256) as u8);
        proof {
            let next = unit_bytes(w@.take(i + 1));
            assert forall|j: int| 0 <= j < next.len() implies r@[j] == #[trigger] next[j] by {
                if j < 2 * i {
                    assert(r@[j] == before[j]);
                    assert(before[j] == unit_bytes(w@.take(i as int))[j]);
                    assert(w@.take(i as int)[j / 2] == w@.take(i + 1)[j / 2]);
                }
            }
            assert(r@ =~= next);
        }
        i += 1;
    }
    assert(w@.take(w@.len() as int) =~= w@);
    r
}

proof fn lemma_zero_at_bounds(units: Seq<u16>)
    ensures
        0 <= zero_at(units) <= units.len(),
    decreases units.len(),
{
    if units.len() > 0 && units[0] != 0 {
        lemma_zero_at_bounds(units.drop_first());
    }
}

/// The text that the registry holds in these bytes.
pub fn decode_utf16_reg_sz(bytes: &[u8]) -> (r: Option<String>)
    ensures
        text::opt_text(r) == reg_sz_text(bytes@),
{
    if bytes.len() < 2 || bytes.len() % 2 != 0 {
        return None;
    }
    let len: usize = bytes.len();
    let n: usize = len / 2;
    let ghost units = byte_units(bytes@);
    let mut w: Vec<u16> = Vec::new();
    let mut i: usize = 0;
    proof {
        lemma_zero_at_bounds(units);
        assert(units.skip(0) =~= units);
    }
    while i < n && !(bytes[2 * i] == 0 && bytes[2 * i + 1] == 0)
        invariant
            i <= n,
            2 * n <= len,
            len == bytes@.len(),
            n == len / 2,
            units == byte_units(bytes@),
            w@ =~= units.take(i as int),
            zero_at(units) == i + zero_at(units.skip(i as int)),
        decreases n - i,
    {
        let lo: u16 = bytes[2 * i] as u16;
        let hi: u16 = bytes[2 * i + 1] as u16;
        assert(units[i as int] == (bytes@[2 * i as int] + 256 * bytes@[2 * i as int + 1]) as u16);
        w.push(lo + 256 * hi);
        assert(units.skip(i as int).drop_first() =~= units.skip(i + 1));
        assert(units.skip(i as int)[0] == units[i as int]);
        i += 1;
    }
    proof {
        if i < n {
            assert(units[i as int] == (bytes@[2 * i as int] + 256 * bytes@[2 * i as int + 1]) as u16);
            assert(units.skip(i as int)[0] == 0);
        }
        assert(zero_at(units) == i);
    }
    let r: Option<String> = from_units(&w);
    proof {
        if r is Some {
            lemma_utf16_text(r->0@);
        }
    }
    r
}

proof fn lemma_utf16_has_no_zero(s: Seq<char>)
    requires
        !s.contains('\0'),
    ensures
        forall|i: int| 0 <= i < utf16(s).len() ==> #[trigger] utf16(s)[i] != 0,
    decreases s.len(),
{
    if s.len() > 0 {
        assert forall|c: char| s.drop_last().contains(c) implies s.contains(c) by {
            let k = choose|k: int| 0 <= k < s.drop_last().len() && s.drop_last()[k] == c;
            assert(s[k] == c);
        }
        lemma_utf16_has_no_zero(s.drop_last());
        assert(s.contains(s.last())) by {
            assert(s[s.len() - 1] == s.last());
        }
        lemma_char_units_shape(s.last());
        lemma_same_number(s.last(), '\0');
        let front = utf16(s.drop_last());
        assert forall|i: int| 0 <= i < utf16(s).len() implies #[trigger] utf16(s)[i] != 0 by {
            if i < front.len() {
                assert(utf16(s)[i] == front[i]);
            } else {
                let k = i - front.len();
                assert(utf16(s)[i] == char_units(s.last())[k]);
                assert(k == 0 || k == 1);
            }
        }
    }
}

proof fn lemma_zero_at_end(units: Seq<u16>)
    requires
        forall|i: int| 0 <= i < units.len() ==> #[trigger] units[i] != 0,
    ensures
        zero_at(units.push(0)) == units.len(),
    decreases units.len(),
{
    if units.len() > 0 {
        assert(units.push(0)[0] == units[0]);
        assert(units.push(0).drop_first() =~= units.drop_first().push(0));
        lemma_zero_at_end(units.drop_first());
    }
}

/// A text without a zero character is read back from the registry as it was
/// written.
pub proof fn law_registry_text_reads_back(s: Seq<char>)
    requires
        !s.contains('\0'),
    ensures
        reg_sz_text(reg_sz(s)) == Some(s),
{
    let w = utf16(s).push(0);
    let bytes = unit_bytes(w);
    assert forall|i: int| 0 <= i < w.len() implies #[trigger] byte_units(bytes)[i] == w[i] by {
        assert(bytes[2 * i] == (w[i] % 256) as u8);
        assert(bytes[2 * i + 1] == (w[i] / 256) as u8);
    }
    assert(byte_units(bytes) =~= w);
    lemma_utf16_has_no_zero(s);
    lemma_zero_at_end(utf16(s));
    assert(w.take(zero_at(w)) =~= utf16(s));
    lemma_utf16_text(s);
}

// ── Error codes ─────────────────────────────────────────────────────────────

/// The bytes of a number, the high byte first.
pub open spec fn high_first(n: u32) -> Seq<u8> {
    seq![(n / 0x1000000) as u8, (n / 0x10000 % 256) as u8, (n / 0x100 % 256) as u8, (n % 256) as u8]
}

/// A number in eight hexadecimal digits after `0x`.
pub open spec fn code_of(n: u32) -> Seq<char> {
    "0x"@ + hasher::hex_text(high_first(n))
}

/// A number in eight hexadecimal digits after `0x`.
pub fn code_text(n: u32) -> (r: String)
    ensures
        r@ == code_of(n),
{
    let mut v: Vec<u8> = Vec::new();
    v.push((n / 0x1000000) as u8);
    v.push((n / 0x10000 % 256) as u8);
    v.push((n / 0x100 % 256) as u8);
    v.push((n % 256) as u8);
    assert(v@ =~= high_first(n));
    concat2("0x", &hex(&v))
}

/// A text ends at the first zero, and where there is none with the buffer.
pub proof fn law_zero_ends_the_text(units: Seq<u16>, rest: Seq<u16>)
    requires
        forall|i: int| 0 <= i < units.len() ==> #[trigger] units[i] != 0,
    ensures
        zero_at(units + seq![0u16] + rest) == units.len(),
        zero_at(units) == units.len(),
    decreases units.len(),
{
    let all = units + seq![0u16] + rest;
    if units.len() == 0 {
        assert(all[0] == 0);
    } else {
        let d = units.drop_first();
        assert(all[0] == units[0]);
        assert forall|i: int| 0 <= i < d.len() implies #[trigger] d[i] != 0 by {
            assert(units[i + 1] == d[i]);
        }
        law_zero_ends_the_text(d, rest);
        assert(all.drop_first() =~= d + seq![0u16] + rest);
    }
}

/// Each unit is written as two bytes, the low one first, and bytes are read as
/// units in the same way.
pub proof fn law_units_are_written_low_byte_first(units: Seq<u16>, i: int)
    requires
        0 <= i < units.len(),
    ensures
        unit_bytes(units).len() == 2 * units.len(),
        unit_bytes(units)[2 * i] + 256 * unit_bytes(units)[2 * i + 1] == units[i],
        unit_bytes(units)[2 * i] == units[i] % 256,
        byte_units(unit_bytes(units)) == units,
{
    assert forall|k: int| 0 <= k < units.len() implies #[trigger] byte_units(unit_bytes(units))[k]
        == units[k] by {
        assert((2 * k) / 2 == k && (2 * k) % 2 == 0);
        assert((2 * k + 1) / 2 == k && (2 * k + 1) % 2 == 1);
    }
    assert((2 * i) / 2 == i && (2 * i) % 2 == 0);
    assert((2 * i + 1) / 2 == i && (2 * i + 1) % 2 == 1);
    assert(byte_units(unit_bytes(units)) =~= units);
}

/// Characters of the first plane are units as they are; others are two, a high
/// and a low surrogate.
pub proof fn law_units_of_a_character(c: char)
    ensures
        (c as u32) < 0x10000 ==> char_units(c).len() == 1 && char_units(c)[0] == c as u32,
        (c as u32) >= 0x10000 ==> {
            &&& char_units(c).len() == 2
            &&& 0xD800 <= char_units(c)[0] <= 0xDBFF
            &&& 0xDC00 <= char_units(c)[1] <= 0xDFFF
            &&& 0x10000 + 0x400 * (char_units(c)[0] - 0xD800) + (char_units(c)[1] - 0xDC00)
                == c as u32
        },
{
    lemma_char_units_shape(c);
}

/// A code is written as eight hexadecimal digits, the highest first.
pub proof fn law_code_is_written_in_full(n: u32)
    ensures
        code_of(n).len() == 10,
        code_of(n).take(2) == "0x"@,
        code_of(n).skip(2) == hasher::hex_text(high_first(n)),
        0x1000000 * high_first(n)[0] + 0x10000 * high_first(n)[1] + 0x100 * high_first(n)[2]
            + high_first(n)[3] == n,
{
    reveal_strlit("0x");
    assert(code_of(n).take(2) =~= "0x"@);
    assert(code_of(n).skip(2) =~= hasher::hex_text(high_first(n)));
}

} // verus!
