//! Text helpers. Every function states its result as a sequence of characters.

use vstd::prelude::*;

verus! {

broadcast use vstd::seq::group_seq_axioms;

/// `String::push` appends the given character to the end of the string.
pub assume_specification[ String::push ](s: &mut String, c: char)
    ensures
        final(s)@ == old(s)@.push(c),
;

/// The text held by an optional string.
pub open spec fn opt_text(o: Option<String>) -> Option<Seq<char>> {
    match o {
        Some(s) => Some(s@),
        None => None,
    }
}

/// The texts held by a list of strings.
pub open spec fn texts(v: Seq<String>) -> Seq<Seq<char>> {
    v.map_values(|s: String| s@)
}

/// The characters of `s`, in order.
pub fn chars_of(s: &str) -> (v: Vec<char>)
    ensures
        v@ == s@,
{
    let mut v: Vec<char> = Vec::new();
    for c in it: s.chars()
        invariant
            v@ =~= it.seq().take(it.index() as int),
            it.seq() == s@,
    {
        v.push(c);
    }
    v
}

/// The string whose characters are `v[lo..hi]`.
pub fn string_of(v: &Vec<char>, lo: usize, hi: usize) -> (s: String)
    requires
        lo <= hi <= v@.len(),
    ensures
        s@ == v@.subrange(lo as int, hi as int),
{
    let mut s: String = String::new();
    let mut i: usize = lo;
    while i < hi
        invariant
            lo <= i <= hi <= v@.len(),
            s@ =~= v@.subrange(lo as int, i as int),
        decreases hi - i,
    {
        s.push(v[i]);
        i += 1;
    }
    s
}

/// Character-for-character equality.
pub fn str_eq(a: &str, b: &str) -> (r: bool)
    ensures
        r == (a@ == b@),
{
    a.to_owned() == b.to_owned()
}

/// A copy of an optional string.
pub fn clone_opt(o: &Option<String>) -> (r: Option<String>)
    ensures
        r == *o,
{
    match o {
        Some(s) => Some(s.clone()),
        None => None,
    }
}

/// An owned copy of an optional borrowed string.
pub fn owned_opt(o: Option<&str>) -> (r: Option<String>)
    ensures
        opt_text(r) == o.deep_view(),
{
    match o {
        Some(s) => Some(s.to_owned()),
        None => None,
    }
}

/// `a` followed by `b`.
pub fn concat2(a: &str, b: &str) -> (r: String)
    ensures
        r@ == a@ + b@,
{
    let mut r: String = a.to_owned();
    r.append(b);
    r
}

/// `a` followed by `b` and `c`.
pub fn concat3(a: &str, b: &str, c: &str) -> (r: String)
    ensures
        r@ == a@ + b@ + c@,
{
    let mut r: String = a.to_owned();
    r.append(b);
    r.append(c);
    r
}

// ── Prefixes and suffixes ───────────────────────────────────────────────────

/// Whether the characters `p` stand in `v` from position `at` on.
fn chars_match_at(v: &Vec<char>, p: &Vec<char>, at: usize) -> (r: bool)
    requires
        at + p@.len() <= v@.len(),
    ensures
        r == (v@.subrange(at as int, at + p@.len()) == p@),
{
    let n: usize = v.len();
    let mut i: usize = 0;
    while i < p.len()
        invariant
            i <= p@.len(),
            n == v@.len(),
            at + p@.len() <= n,
            forall|j: int| 0 <= j < i ==> v@[at + j] == p@[j],
        decreases p@.len() - i,
    {
        if v[at + i] != p[i] {
            assert(v@.subrange(at as int, at + p@.len())[i as int] != p@[i as int]);
            return false;
        }
        i += 1;
    }
    assert(v@.subrange(at as int, at + p@.len()) =~= p@);
    true
}

/// Whether `s` starts with `p`.
pub fn has_prefix(s: &str, p: &str) -> (r: bool)
    ensures
        r == p@.is_prefix_of(s@),
{
    let v: Vec<char> = chars_of(s);
    let q: Vec<char> = chars_of(p);
    if q.len() > v.len() {
        return false;
    }
    chars_match_at(&v, &q, 0)
}

/// Whether the last character of `s` is `c`.
pub fn ends_with_char(s: &str, c: char) -> (r: bool)
    ensures
        r == (s@.len() > 0 && s@.last() == c),
{
    let v: Vec<char> = chars_of(s);
    v.len() > 0 && v[v.len() - 1] == c
}

/// `s` without the leading `p`, where it has one.
pub open spec fn prefix_removed(s: Seq<char>, p: Seq<char>) -> Option<Seq<char>> {
    if p.is_prefix_of(s) {
        Some(s.skip(p.len() as int))
    } else {
        None
    }
}

/// `s` without the leading `p`, or `None` where `s` does not start with `p`.
pub fn strip_prefix(s: &str, p: &str) -> (r: Option<String>)
    ensures
        opt_text(r) == prefix_removed(s@, p@),
{
    if has_prefix(s, p) {
        let v: Vec<char> = chars_of(s);
        let q: Vec<char> = chars_of(p);
        let r: String = string_of(&v, q.len(), v.len());
        assert(r@ =~= s@.skip(p@.len() as int));
        Some(r)
    } else {
        None
    }
}

/// `s` without the leading `p`; `s` itself where it does not start with `p`.
pub open spec fn without_prefix(s: Seq<char>, p: Seq<char>) -> Seq<char> {
    match prefix_removed(s, p) {
        Some(t) => t,
        None => s,
    }
}

/// `s` with one leading `p` removed, if it is there.
pub fn drop_prefix(s: &str, p: &str) -> (r: String)
    ensures
        r@ == without_prefix(s@, p@),
{
    match strip_prefix(s, p) {
        Some(t) => t,
        None => s.to_owned(),
    }
}

/// `s` without any leading `p`, however often it is repeated.
pub open spec fn without_prefixes(s: Seq<char>, p: Seq<char>) -> Seq<char>
    decreases s.len(),
{
    if p.len() > 0 && p.is_prefix_of(s) {
        without_prefixes(s.skip(p.len() as int), p)
    } else {
        s
    }
}

/// `s` with every leading `p` removed.
pub fn trim_start_matches(s: &str, p: &str) -> (r: String)
    ensures
        r@ == without_prefixes(s@, p@),
{
    let mut r: String = s.to_owned();
    if p.is_empty() {
        return r;
    }
    while has_prefix(&r, p)
        invariant
            p@.len() > 0,
            without_prefixes(r@, p@) == without_prefixes(s@, p@),
        decreases r@.len(),
    {
        r = drop_prefix(&r, p);
    }
    r
}

/// `s` without any trailing `c`.
pub open spec fn trimmed_end(s: Seq<char>, c: char) -> Seq<char>
    decreases s.len(),
{
    if s.len() > 0 && s.last() == c {
        trimmed_end(s.drop_last(), c)
    } else {
        s
    }
}

/// `s` with every trailing `c` removed.
pub fn trim_end(s: &str, c: char) -> (r: String)
    ensures
        r@ == trimmed_end(s@, c),
{
    let v: Vec<char> = chars_of(s);
    let mut n: usize = v.len();
    assert(v@.take(n as int) =~= s@);
    while n > 0 && v[n - 1] == c
        invariant
            n <= v@.len(),
            v@ == s@,
            trimmed_end(v@.take(n as int), c) == trimmed_end(s@, c),
        decreases n,
    {
        assert(v@.take(n as int).drop_last() =~= v@.take(n - 1));
        n -= 1;
    }
    assert(v@.take(n as int) =~= v@.subrange(0, n as int));
    string_of(&v, 0, n)
}

// ── ASCII case ──────────────────────────────────────────────────────────────

/// The lower-case form of an ASCII capital; any other character unchanged.
pub open spec fn ascii_lower(c: char) -> char {
    if 'A' <= c && c <= 'Z' {
        ((c as u8 + 32) as u8) as char
    } else {
        c
    }
}

/// `s` with its ASCII capitals in lower case.
pub open spec fn ascii_lowered(s: Seq<char>) -> Seq<char> {
    s.map_values(|c: char| ascii_lower(c))
}

/// Whether two texts differ at most in the case of their ASCII letters.
pub open spec fn same_ignoring_ascii_case(a: Seq<char>, b: Seq<char>) -> bool {
    ascii_lowered(a) == ascii_lowered(b)
}

/// The lower-case form of an ASCII capital; any other character unchanged.
pub fn lower_char(c: char) -> (r: char)
    ensures
        r == ascii_lower(c),
{
    if 'A' <= c && c <= 'Z' {
        (c as u8 + 32) as char
    } else {
        c
    }
}

/// The characters of `s` with ASCII capitals in lower case.
pub fn lower_chars(s: &str) -> (r: Vec<char>)
    ensures
        r@ == ascii_lowered(s@),
{
    let v: Vec<char> = chars_of(s);
    let mut r: Vec<char> = Vec::new();
    let mut i: usize = 0;
    while i < v.len()
        invariant
            i <= v@.len(),
            r@ =~= ascii_lowered(v@.take(i as int)),
        decreases v@.len() - i,
    {
        r.push(lower_char(v[i]));
        i += 1;
    }
    assert(v@.take(v@.len() as int) =~= v@);
    r
}

/// Whether `a` and `b` are equal when the case of ASCII letters is ignored.
pub fn eq_ignore_ascii_case(a: &str, b: &str) -> (r: bool)
    ensures
        r == same_ignoring_ascii_case(a@, b@),
{
    let v: Vec<char> = lower_chars(a);
    let q: Vec<char> = lower_chars(b);
    if v.len() != q.len() {
        return false;
    }
    let r: bool = chars_match_at(&v, &q, 0);
    assert(v@.subrange(0, v@.len() as int) =~= v@);
    r
}

/// Whether `s` starts with `p` when the case of ASCII letters is ignored.
pub fn has_prefix_ignore_ascii_case(s: &str, p: &str) -> (r: bool)
    ensures
        r == ascii_lowered(p@).is_prefix_of(ascii_lowered(s@)),
{
    let v: Vec<char> = lower_chars(s);
    let q: Vec<char> = lower_chars(p);
    if q.len() > v.len() {
        return false;
    }
    chars_match_at(&v, &q, 0)
}

// ── Order ───────────────────────────────────────────────────────────────────

/// The order of texts: by the first character in which they differ, a proper
/// prefix before the longer text.
pub open spec fn text_before(a: Seq<char>, b: Seq<char>) -> bool
    decreases a.len(),
{
    if b.len() == 0 {
        false
    } else if a.len() == 0 {
        true
    } else if a[0] != b[0] {
        a[0] < b[0]
    } else {
        text_before(a.drop_first(), b.drop_first())
    }
}

/// No text comes before itself.
pub proof fn lemma_text_before_irreflexive(a: Seq<char>)
    ensures
        !text_before(a, a),
    decreases a.len(),
{
    if a.len() > 0 {
        lemma_text_before_irreflexive(a.drop_first());
    }
}

/// The order of texts is transitive.
pub proof fn lemma_text_before_transitive(a: Seq<char>, b: Seq<char>, c: Seq<char>)
    requires
        text_before(a, b),
        text_before(b, c),
    ensures
        text_before(a, c),
    decreases a.len(),
{
    if a.len() > 0 && b.len() > 0 && c.len() > 0 && a[0] == b[0] && b[0] == c[0] {
        lemma_text_before_transitive(a.drop_first(), b.drop_first(), c.drop_first());
    }
}

/// Of two different texts, one comes before the other.
pub proof fn lemma_text_before_total(a: Seq<char>, b: Seq<char>)
    ensures
        a == b || text_before(a, b) || text_before(b, a),
    decreases a.len(),
{
    if a.len() == 0 || b.len() == 0 {
        if a.len() == b.len() {
            assert(a =~= b);
        }
    } else if a[0] == b[0] {
        lemma_text_before_total(a.drop_first(), b.drop_first());
        if a.drop_first() == b.drop_first() {
            assert(a =~= seq![a[0]] + a.drop_first());
            assert(b =~= seq![b[0]] + b.drop_first());
        }
    }
}

/// A text between two others: where `a` comes before `c`, any `b` comes after
/// `a` or before `c`.
pub proof fn lemma_text_before_weak(a: Seq<char>, b: Seq<char>, c: Seq<char>)
    requires
        text_before(a, c),
    ensures
        text_before(a, b) || text_before(b, c),
{
    lemma_text_before_total(a, b);
    if text_before(b, a) {
        lemma_text_before_transitive(b, a, c);
    }
}

/// Whether `a` comes before `b`.
pub fn text_less(a: &str, b: &str) -> (r: bool)
    ensures
        r == text_before(a@, b@),
{
    let v: Vec<char> = chars_of(a);
    let w: Vec<char> = chars_of(b);
    let mut i: usize = 0;
    assert(v@.skip(0) =~= a@);
    assert(w@.skip(0) =~= b@);
    while i < v.len() && i < w.len() && v[i] == w[i]
        invariant
            i <= v@.len(),
            i <= w@.len(),
            text_before(v@.skip(i as int), w@.skip(i as int)) == text_before(a@, b@),
        decreases v@.len() - i,
    {
        assert(v@.skip(i as int).drop_first() =~= v@.skip(i + 1));
        assert(w@.skip(i as int).drop_first() =~= w@.skip(i + 1));
        i += 1;
    }
    if i >= w.len() {
        false
    } else if i >= v.len() {
        true
    } else {
        v[i] < w[i]
    }
}

// ── Numbers ─────────────────────────────────────────────────────────────────

/// The decimal digit of `n`, for `n` below ten.
pub open spec fn digit(n: int) -> char {
    (48 + n) as char
}

/// `n` in decimal, without leading zeros.
pub open spec fn decimal(n: nat) -> Seq<char>
    decreases n,
{
    if n < 10 {
        seq![digit(n as int)]
    } else {
        decimal(n / 10).push(digit((n % 10) as int))
    }
}

/// `n` in decimal.
pub fn u64_text(n: u64) -> (r: String)
    ensures
        r@ == decimal(n as nat),
    decreases n,
{
    let d: char = (48u8 + (n % 10) as u8) as char;
    if n < 10 {
        let mut r: String = String::new();
        r.push(d);
        assert(r@ =~= seq![digit(n as int)]);
        r
    } else {
        let mut r: String = u64_text(n / 10);
        r.push(d);
        r
    }
}

/// Whether `c` is an ASCII digit.
pub open spec fn is_digit(c: char) -> bool {
    '0' <= c && c <= '9'
}

/// The number that a sequence of ASCII digits stands for.
pub open spec fn digits_value(s: Seq<char>) -> nat
    decreases s.len(),
{
    if s.len() == 0 {
        0
    } else {
        (digits_value(s.drop_last()) * 10 + (s.last() as u32 - 48)) as nat
    }
}

/// Whether `s` holds ASCII digits only.
pub open spec fn all_digits(s: Seq<char>) -> bool {
    forall|i: int| 0 <= i < s.len() ==> is_digit(#[trigger] s[i])
}

/// `s` without a leading `+`.
pub open spec fn without_plus(s: Seq<char>) -> Seq<char> {
    if s.len() > 0 && s[0] == '+' {
        s.drop_first()
    } else {
        s
    }
}

/// The `u32` that `s` spells in decimal, with an optional leading `+`.
pub open spec fn parsed_u32(s: Seq<char>) -> Option<u32> {
    let t = without_plus(s);
    if t.len() > 0 && all_digits(t) && digits_value(t) <= u32::MAX {
        Some(digits_value(t) as u32)
    } else {
        None
    }
}

proof fn lemma_digits_value_grows(s: Seq<char>, n: int)
    requires
        0 <= n <= s.len(),
        all_digits(s),
    ensures
        digits_value(s.take(n)) <= digits_value(s),
    decreases s.len() - n,
{
    if n < s.len() {
        lemma_digits_value_grows(s, n + 1);
        assert(s.take(n + 1).drop_last() =~= s.take(n));
    } else {
        assert(s.take(n) =~= s);
    }
}

/// Read a `u32` in decimal, as `str::parse` does.
pub fn parse_u32(s: &str) -> (r: Option<u32>)
    ensures
        r == parsed_u32(s@),
{
    let v: Vec<char> = chars_of(s);
    let start: usize = if v.len() > 0 && v[0] == '+' { 1 } else { 0 };
    let ghost t = without_plus(s@);
    assert(t =~= v@.skip(start as int));
    if start == v.len() {
        return None;
    }
    let mut n: u64 = 0;
    let mut i: usize = start;
    assert(t.take(0) =~= Seq::<char>::empty());
    while i < v.len()
        invariant
            start <= i <= v@.len(),
            t == v@.skip(start as int),
            t == without_plus(s@),
            forall|j: int| 0 <= j < i - start ==> is_digit(#[trigger] t[j]),
            n == digits_value(t.take(i - start)),
            n <= u32::MAX,
        decreases v@.len() - i,
    {
        let c: char = v[i];
        assert(c == t[i - start]);
        if c < '0' || c > '9' {
            assert(!is_digit(t[i - start]));
            return None;
        }
        assert(t.take(i - start + 1).drop_last() =~= t.take(i - start));
        n = n * 10 + (c as u32 - 48) as u64;
        i += 1;
        if n > u32::MAX as u64 {
            proof {
                if all_digits(t) {
                    lemma_digits_value_grows(t, i - start);
                }
            }
            return None;
        }
    }
    assert(t.take(t.len() as int) =~= t);
    Some(n as u32)
}

proof fn lemma_decimal_digits(n: nat)
    ensures
        decimal(n).len() > 0,
        all_digits(decimal(n)),
        digits_value(decimal(n)) == n,
    decreases n,
{
    if n < 10 {
        assert(decimal(n).drop_last() =~= Seq::<char>::empty());
        assert(digits_value(Seq::<char>::empty()) == 0);
        assert(decimal(n).last() as u32 - 48 == n);
    } else {
        lemma_decimal_digits(n / 10);
        assert(decimal(n).last() as u32 - 48 == n % 10);
        assert(decimal(n).drop_last() =~= decimal(n / 10));
        assert forall|i: int| 0 <= i < decimal(n).len() implies is_digit(#[trigger] decimal(n)[i]) by {
            if i < decimal(n / 10).len() {
                assert(decimal(n)[i] == decimal(n / 10)[i]);
            }
        }
    }
}

/// A number written in decimal reads back as itself.
pub proof fn lemma_decimal_reads_back(n: u32)
    ensures
        parsed_u32(decimal(n as nat)) == Some(n),
{
    lemma_decimal_digits(n as nat);
    let s = decimal(n as nat);
    assert(is_digit(s[0]));
    assert(without_plus(s) == s);
}

// ── Unicode ─────────────────────────────────────────────────────────────────

/// Whether a character has the Unicode property `White_Space`, as
/// `char::is_whitespace` says.
pub uninterp spec fn white_space(c: char) -> bool;

/// `char::is_whitespace`: whether the character has the Unicode property
/// `White_Space`. Of the ASCII characters, the space and the five controls from
/// horizontal tab to carriage return have it.
#[verifier::external_body]
pub(crate) fn is_white_space(c: char) -> (r: bool)
    ensures
        r == white_space(c),
        (c as u32) < 0x80 ==> r == (c == ' ' || (9 <= c as u32 && c as u32 <= 13)),
{
    c.is_whitespace()
}

/// `s` without leading white space.
pub open spec fn trimmed_start(s: Seq<char>) -> Seq<char>
    decreases s.len(),
{
    if s.len() > 0 && white_space(s[0]) {
        trimmed_start(s.drop_first())
    } else {
        s
    }
}

/// `s` without leading and trailing white space.
pub open spec fn trimmed(s: Seq<char>) -> Seq<char> {
    trimmed_tail(trimmed_start(s))
}

/// `s` without trailing white space.
pub open spec fn trimmed_tail(s: Seq<char>) -> Seq<char>
    decreases s.len(),
{
    if s.len() > 0 && white_space(s.last()) {
        trimmed_tail(s.drop_last())
    } else {
        s
    }
}

/// A text with no white space at its ends is left alone.
pub proof fn lemma_trimmed_of_clean(s: Seq<char>)
    requires
        s.len() == 0 || (!white_space(s[0]) && !white_space(s.last())),
    ensures
        trimmed(s) == s,
{
}

proof fn lemma_trimmed_start_ends(s: Seq<char>)
    ensures
        trimmed_start(s).len() == 0 || !white_space(trimmed_start(s)[0]),
    decreases s.len(),
{
    if s.len() > 0 && white_space(s[0]) {
        lemma_trimmed_start_ends(s.drop_first());
    }
}

proof fn lemma_trimmed_tail_ends(s: Seq<char>)
    ensures
        trimmed_tail(s).len() == 0 || !white_space(trimmed_tail(s).last()),
        trimmed_tail(s).len() <= s.len(),
        trimmed_tail(s) == s.take(trimmed_tail(s).len() as int),
    decreases s.len(),
{
    if s.len() > 0 && white_space(s.last()) {
        lemma_trimmed_tail_ends(s.drop_last());
        assert(s.drop_last().take(trimmed_tail(s).len() as int) =~= s.take(
            trimmed_tail(s).len() as int,
        ));
    } else {
        assert(s.take(s.len() as int) =~= s);
    }
}

/// Trimming a trimmed text changes nothing.
pub proof fn lemma_trimmed_twice(s: Seq<char>)
    ensures
        trimmed(trimmed(s)) == trimmed(s),
{
    lemma_trimmed_start_ends(s);
    lemma_trimmed_tail_ends(trimmed_start(s));
    lemma_trimmed_of_clean(trimmed(s));
}

/// `s` without leading and trailing white space.
pub fn trim(s: &str) -> (r: String)
    ensures
        r@ == trimmed(s@),
{
    let v: Vec<char> = chars_of(s);
    let mut lo: usize = 0;
    assert(v@.skip(0) =~= s@);
    while lo < v.len() && is_white_space(v[lo])
        invariant
            lo <= v@.len(),
            trimmed_start(v@.skip(lo as int)) == trimmed_start(s@),
        decreases v@.len() - lo,
    {
        assert(v@.skip(lo as int).drop_first() =~= v@.skip(lo + 1));
        lo += 1;
    }
    assert(v@.skip(lo as int) == trimmed_start(s@));
    let mut hi: usize = v.len();
    assert(v@.subrange(lo as int, hi as int) =~= v@.skip(lo as int));
    while hi > lo && is_white_space(v[hi - 1])
        invariant
            lo <= hi <= v@.len(),
            trimmed_tail(v@.subrange(lo as int, hi as int)) == trimmed(s@),
        decreases hi - lo,
    {
        assert(v@.subrange(lo as int, hi as int).drop_last() =~= v@.subrange(lo as int, hi - 1));
        hi -= 1;
    }
    string_of(&v, lo, hi)
}

/// The lower-case form of a text, as `str::to_lowercase` gives it.
pub uninterp spec fn lowercase_text(s: Seq<char>) -> Seq<char>;

/// `str::to_lowercase`: the text with every letter in lower case. In a text of
/// ASCII characters these are the ASCII letters.
#[verifier::external_body]
pub(crate) fn to_lowercase(s: &str) -> (r: String)
    ensures
        r@ == lowercase_text(s@),
        vstd::utf8::is_ascii_chars(s@) ==> r@ == ascii_lowered(s@),
{
    s.to_lowercase()
}

// ── Laws ────────────────────────────────────────────────────────────────────

/// Removing a prefix gives what follows it, and only a text that starts with it
/// is changed.
pub proof fn law_prefix_is_removed(s: Seq<char>, p: Seq<char>)
    ensures
        prefix_removed(p + s, p) == Some(s),
        without_prefix(p + s, p) == s,
        !p.is_prefix_of(s) ==> prefix_removed(s, p) is None && without_prefix(s, p) == s,
        p.is_prefix_of(s) ==> s == p + without_prefix(s, p) && prefix_removed(s, p) == Some(
            without_prefix(s, p),
        ),
{
    let t = p + s;
    assert(t.take(p.len() as int) =~= p);
    assert(t.skip(p.len() as int) =~= s);
    if p.is_prefix_of(s) {
        assert(s =~= p + s.skip(p.len() as int));
    }
}

/// What is left once all repetitions of a prefix are removed does not start with
/// it, is the end of the text, and is the text itself where that does not start
/// with the prefix.
pub proof fn law_prefixes_are_removed(s: Seq<char>, p: Seq<char>)
    requires
        p.len() > 0,
    ensures
        !p.is_prefix_of(without_prefixes(s, p)),
        without_prefixes(s, p).len() <= s.len(),
        without_prefixes(s, p) == s.skip(s.len() - without_prefixes(s, p).len()),
        !p.is_prefix_of(s) ==> without_prefixes(s, p) == s,
        without_prefixes(p + s, p) == without_prefixes(s, p),
    decreases s.len(),
{
    let t = p + s;
    assert(t.take(p.len() as int) =~= p);
    assert(t.skip(p.len() as int) =~= s);
    if p.is_prefix_of(s) {
        let q = s.skip(p.len() as int);
        law_prefixes_are_removed(q, p);
        let n = without_prefixes(q, p).len();
        assert(q.skip(q.len() - n) =~= s.skip(s.len() - n));
    } else {
        assert(s.skip(0) =~= s);
    }
}

/// What is left once a trailing character is removed does not end in it, and what
/// was removed is that character only.
pub proof fn law_end_is_trimmed(s: Seq<char>, c: char)
    ensures
        trimmed_end(s, c).is_prefix_of(s),
        trimmed_end(s, c).len() > 0 ==> trimmed_end(s, c).last() != c,
        forall|i: int| trimmed_end(s, c).len() <= i < s.len() ==> s[i] == c,
    decreases s.len(),
{
    if s.len() > 0 && s.last() == c {
        law_end_is_trimmed(s.drop_last(), c);
        let t = trimmed_end(s, c);
        assert(s.drop_last().take(t.len() as int) =~= s.take(t.len() as int));
        assert forall|i: int| t.len() <= i < s.len() implies s[i] == c by {
            if i < s.len() - 1 {
                assert(s.drop_last()[i] == c);
            }
        }
    }
}

/// Trimming takes white space away at both ends and nothing else.
pub proof fn law_only_white_space_is_trimmed(s: Seq<char>)
    ensures
        exists|lo: int, hi: int|
            {
                &&& 0 <= lo <= hi <= s.len()
                &&& trimmed(s) == #[trigger] s.subrange(lo, hi)
                &&& forall|i: int| 0 <= i < lo || hi <= i < s.len() ==> white_space(#[trigger] s[i])
                &&& lo < hi ==> !white_space(s[lo]) && !white_space(s[hi - 1])
            },
{
    let lo = lemma_start(s);
    let t = trimmed_start(s);
    let n = lemma_tail(t);
    let hi = lo + n;
    assert(trimmed(s) =~= s.subrange(lo, hi));
    assert forall|i: int| 0 <= i < lo || hi <= i < s.len() implies white_space(#[trigger] s[i]) by {
        if i >= hi {
            assert(t[i - lo] == s[i]);
        }
    }
    lemma_trimmed_start_ends(s);
    if lo < hi {
        assert(s[lo] == t[0]);
        assert(s[hi - 1] == trimmed_tail(t).last());
        lemma_trimmed_tail_ends(t);
    }
}

proof fn lemma_start(s: Seq<char>) -> (lo: int)
    ensures
        0 <= lo <= s.len(),
        trimmed_start(s) == s.skip(lo),
        forall|i: int| 0 <= i < lo ==> white_space(#[trigger] s[i]),
    decreases s.len(),
{
    if s.len() > 0 && white_space(s[0]) {
        let k = lemma_start(s.drop_first());
        assert(s.drop_first().skip(k) =~= s.skip(k + 1));
        assert forall|i: int| 0 <= i < k + 1 implies white_space(#[trigger] s[i]) by {
            if i > 0 {
                assert(s.drop_first()[i - 1] == s[i]);
            }
        }
        k + 1
    } else {
        assert(s.skip(0) =~= s);
        0
    }
}

proof fn lemma_tail(s: Seq<char>) -> (n: int)
    ensures
        0 <= n <= s.len(),
        n == trimmed_tail(s).len(),
        trimmed_tail(s) == s.take(n),
        forall|i: int| n <= i < s.len() ==> white_space(#[trigger] s[i]),
    decreases s.len(),
{
    if s.len() > 0 && white_space(s.last()) {
        let n = lemma_tail(s.drop_last());
        assert(s.drop_last().take(n) =~= s.take(n));
        assert forall|i: int| n <= i < s.len() implies white_space(#[trigger] s[i]) by {
            if i < s.len() - 1 {
                assert(s.drop_last()[i] == s[i]);
            }
        }
        n
    } else {
        assert(s.take(s.len() as int) =~= s);
        s.len() as int
    }
}

/// The first character in which two texts differ decides which comes first, and a
/// text comes before every longer one that starts with it.
pub proof fn law_first_difference_orders(p: Seq<char>, a: Seq<char>, b: Seq<char>)
    ensures
        a.len() > 0 && b.len() > 0 && a[0] != b[0] ==> (text_before(p + a, p + b) <==> a[0]
            < b[0]),
        a.len() > 0 ==> text_before(p, p + a) && !text_before(p + a, p),
    decreases p.len(),
{
    if p.len() > 0 {
        law_first_difference_orders(p.drop_first(), a, b);
        assert((p + a).drop_first() =~= p.drop_first() + a);
        assert((p + b).drop_first() =~= p.drop_first() + b);
    } else {
        assert(p + a =~= a);
        assert(p + b =~= b);
    }
}

/// A number is written with decimal digits whose value it is, and without leading
/// zeros.
pub proof fn law_decimal_digits_have_the_value(n: nat)
    ensures
        decimal(n).len() > 0,
        all_digits(decimal(n)),
        digits_value(decimal(n)) == n,
        n > 0 ==> decimal(n)[0] != '0',
    decreases n,
{
    lemma_decimal_digits(n);
    if n >= 10 {
        law_decimal_digits_have_the_value(n / 10);
        lemma_decimal_digits(n / 10);
        assert(decimal(n)[0] == decimal(n / 10)[0]);
    }
}

/// Digits stand for a number in the decimal system: each further digit counts ten
/// times what stands before it.
pub proof fn law_digits_count_by_tens(s: Seq<char>, c: char)
    requires
        is_digit(c),
    ensures
        digits_value(s.push(c)) == 10 * digits_value(s) + (c as u32 - '0' as u32),
        digits_value(Seq::<char>::empty()) == 0,
        '0' <= c <= '9',
{
    assert(s.push(c).drop_last() =~= s);
}

/// Comparing without regard to ASCII case changes only the capitals: a letter is
/// the same as its capital, and any other character only the same as itself.
pub proof fn law_ascii_case_is_ignored(a: char, b: char)
    ensures
        ascii_lower(a) == ascii_lower(b) <==> a == b || ('A' <= a <= 'Z' && b as u32 == a as u32
            + 32) || ('A' <= b <= 'Z' && a as u32 == b as u32 + 32),
        same_ignoring_ascii_case(seq![a], seq![b]) <==> ascii_lower(a) == ascii_lower(b),
{
    let x = ascii_lowered(seq![a]);
    let y = ascii_lowered(seq![b]);
    assert(x[0] == ascii_lower(a));
    assert(y[0] == ascii_lower(b));
    if ascii_lower(a) == ascii_lower(b) {
        assert(x =~= y);
    }
}

/// Filtering a list keeps just the elements that the test holds of.
pub proof fn lemma_filter_keeps<A>(s: Seq<A>, keep: spec_fn(A) -> bool, x: A)
    ensures
        s.filter(keep).contains(x) <==> s.contains(x) && keep(x),
    decreases s.len(),
{
    reveal(Seq::filter);
    if s.len() > 0 {
        let d = s.drop_last();
        let a = s.filter(keep);
        let b = d.filter(keep);
        lemma_filter_keeps(d, keep, x);
        if b.contains(x) {
            let i = choose|i: int| 0 <= i < b.len() && b[i] == x;
            assert(a[i] == x);
        }
        if d.contains(x) {
            let i = choose|i: int| 0 <= i < d.len() && d[i] == x;
            assert(s[i] == x);
        }
        if s.contains(x) && !d.contains(x) {
            let i = choose|i: int| 0 <= i < s.len() && s[i] == x;
            if i < d.len() {
                assert(d[i] == x);
            }
            assert(x == s.last());
        }
        if keep(s.last()) {
            assert(a[b.len() as int] == s.last());
            assert(s[s.len() - 1] == s.last());
            if a.contains(x) && !b.contains(x) {
                let i = choose|i: int| 0 <= i < a.len() && a[i] == x;
                if i < b.len() {
                    assert(b[i] == x);
                }
            }
        }
    }
}

/// A text of decimal digits, with or without a plus sign before them, is read as
/// the number that they stand for; a text that is empty, holds anything else or
/// stands for a number that is too large is read as none.
pub proof fn law_numbers_are_read(s: Seq<char>, i: int)
    ensures
        s.len() > 0 && (forall|k: int| 0 <= k < s.len() ==> '0' <= #[trigger] s[k] <= '9')
            && digits_value(s) <= u32::MAX ==> parsed_u32(s) == Some(digits_value(s) as u32)
            && parsed_u32(seq!['+'] + s) == Some(digits_value(s) as u32),
        (forall|k: int| 0 <= k < s.len() ==> '0' <= #[trigger] s[k] <= '9') && digits_value(s)
            > u32::MAX ==> parsed_u32(s) is None,
        0 <= i < s.len() && !('0' <= s[i] <= '9') && (i > 0 || s[i] != '+') ==> parsed_u32(s)
            is None,
        parsed_u32(Seq::empty()) is None,
        parsed_u32(seq!['+']) is None,
{
    let p = seq!['+'] + s;
    assert(p.skip(1) =~= s);
    assert(p.drop_first() =~= s);
    if forall|k: int| 0 <= k < s.len() ==> '0' <= #[trigger] s[k] <= '9' {
        assert(all_digits(s)) by {
            assert forall|k: int| 0 <= k < s.len() implies is_digit(#[trigger] s[k]) by {}
        }
        if s.len() > 0 {
            assert('0' <= s[0] <= '9');
        }
    }
    if 0 <= i < s.len() && !('0' <= s[i] <= '9') && (i > 0 || s[i] != '+') {
        let t = without_plus(s);
        let k = i - (s.len() - t.len());
        assert(t[k] == s[i]);
        assert(!is_digit(t[k]));
    }
    assert(without_plus(seq!['+']).len() == 0);
}

/// A text that may be missing is there where it is, and a list of texts has each
/// of them, in order.
pub proof fn law_texts_are_as_they_are(s: String, v: Seq<String>, i: int)
    ensures
        opt_text(Some(s)) == Some(s@),
        opt_text(None) is None,
        texts(v).len() == v.len(),
        0 <= i < v.len() ==> texts(v)[i] == v[i]@,
{
}

} // verus!
