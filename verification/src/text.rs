//! Character-level text helpers shared by the parsers and formatters of the
//! library: conversions between `str`/`String` and character vectors,
//! equality, substring search, trimming, decimal and hexadecimal text.

use vstd::prelude::*;

verus! {

// ---------------------------------------------------------------------
// Conversions
// ---------------------------------------------------------------------

/// Appends one character to a `String` (std's `String::push`, which the
/// documentation describes as appending the given char to the end).
#[verifier::external_body]
pub(crate) fn push_char(s: &mut String, c: char)
    ensures
        final(s)@ == old(s)@.push(c),
{
    s.push(c)
}

/// The characters of `s`, in order.
pub fn chars_of(s: &str) -> (res: Vec<char>)
    ensures
        res@ == s@,
{
    let mut out: Vec<char> = Vec::new();
    for c in it: s.chars()
        invariant
            it.seq() == s@,
            out@ == it.seq().take(it.index() as int),
            it.index() == it.seq().len() ==> out@ == s@,
    {
        proof {
            assert(it.seq().take(it.index() as int + 1) =~= it.seq().take(it.index() as int).push(c));
        }
        out.push(c);
    }
    out
}

/// A `String` holding exactly the characters of `cs`.
pub fn from_chars(cs: &[char]) -> (res: String)
    ensures
        res@ == cs@,
{
    let mut out = String::new();
    let mut i: usize = 0;
    while i < cs.len()
        invariant
            i <= cs@.len(),
            out@ == cs@.take(i as int),
        decreases cs@.len() - i,
    {
        proof {
            assert(cs@.take(i as int + 1) =~= cs@.take(i as int).push(cs@[i as int]));
        }
        push_char(&mut out, cs[i]);
        i = i + 1;
    }
    proof {
        assert(cs@.take(cs@.len() as int) =~= cs@);
    }
    out
}

/// A copy of a string slice as an owned `String`.
pub fn to_owned_string(s: &str) -> (res: String)
    ensures
        res@ == s@,
{
    String::from_str(s)
}

/// `a` followed by `b`, as a new `String`.
pub fn concat2(a: &str, b: &str) -> (res: String)
    ensures
        res@ == a@ + b@,
{
    let mut out = String::from_str(a);
    out.append(b);
    out
}

/// The views of a sequence of strings.
pub open spec fn views(v: Seq<String>) -> Seq<Seq<char>> {
    v.map_values(|s: String| s@)
}

/// The view of an optional string.
pub open spec fn opt_str_view(s: Option<String>) -> Option<Seq<char>> {
    match s {
        Some(t) => Some(t@),
        None => None,
    }
}

// ---------------------------------------------------------------------
// Equality and search
// ---------------------------------------------------------------------

/// Character-wise equality of two character slices.
pub fn chars_eq(a: &[char], b: &[char]) -> (res: bool)
    ensures
        res == (a@ == b@),
{
    if a.len() != b.len() {
        return false;
    }
    let mut i: usize = 0;
    while i < a.len()
        invariant
            a@.len() == b@.len(),
            i <= a@.len(),
            forall|j: int| 0 <= j < i ==> a@[j] == b@[j],
        decreases a@.len() - i,
    {
        if a[i] != b[i] {
            return false;
        }
        i = i + 1;
    }
    proof {
        assert(a@ =~= b@);
    }
    true
}

/// Equality of two string slices, character by character.
pub fn str_eq(a: &str, b: &str) -> (res: bool)
    ensures
        res == (a@ == b@),
{
    let ca = chars_of(a);
    let cb = chars_of(b);
    chars_eq(ca.as_slice(), cb.as_slice())
}

/// `needle` occurs in `hay` starting at position `i`.
pub open spec fn occurs_at(hay: Seq<char>, needle: Seq<char>, i: int) -> bool {
    0 <= i && i + needle.len() <= hay.len() && hay.subrange(i, i + needle.len()) == needle
}

/// `needle` occurs somewhere in `hay` (the empty needle occurs everywhere).
pub open spec fn seq_contains(hay: Seq<char>, needle: Seq<char>) -> bool {
    exists|i: int| occurs_at(hay, needle, i)
}

/// `hay` begins with `prefix`.
pub open spec fn starts_with(hay: Seq<char>, prefix: Seq<char>) -> bool {
    prefix.len() <= hay.len() && hay.take(prefix.len() as int) == prefix
}

/// Whether `needle` occurs in `hay` at position `i`.
pub fn chars_occur_at(hay: &[char], needle: &[char], i: usize) -> (res: bool)
    ensures
        res == occurs_at(hay@, needle@, i as int),
{
    if i > hay.len() || needle.len() > hay.len() - i {
        return false;
    }
    let mut k: usize = 0;
    while k < needle.len()
        invariant
            i + needle@.len() <= hay@.len(),
            hay@.len() == hay.len(),
            k <= needle@.len(),
            forall|j: int| 0 <= j < k ==> hay@[i + j] == needle@[j],
        decreases needle@.len() - k,
    {
        if hay[i + k] != needle[k] {
            assert(hay@.subrange(i as int, i + needle@.len())[k as int] != needle@[k as int]);
            return false;
        }
        k = k + 1;
    }
    assert(hay@.subrange(i as int, i + needle@.len()) =~= needle@);
    true
}

/// Whether `needle` occurs anywhere in `hay`.
pub fn chars_contain(hay: &[char], needle: &[char]) -> (res: bool)
    ensures
        res == seq_contains(hay@, needle@),
{
    if needle.len() > hay.len() {
        return false;
    }
    let last = hay.len() - needle.len();
    let mut i: usize = 0;
    loop
        invariant
            last == hay@.len() - needle@.len(),
            i <= last,
            forall|j: int| 0 <= j < i ==> !occurs_at(hay@, needle@, j),
        decreases last - i,
    {
        if chars_occur_at(hay, needle, i) {
            return true;
        }
        if i == last {
            return false;
        }
        i = i + 1;
    }
}

/// Whether the text of `needle` occurs anywhere in `hay`.
pub fn str_contains(hay: &str, needle: &str) -> (res: bool)
    ensures
        res == seq_contains(hay@, needle@),
{
    let h = chars_of(hay);
    let n = chars_of(needle);
    chars_contain(h.as_slice(), n.as_slice())
}

/// Whether `hay` begins with `prefix`.
pub fn chars_start_with(hay: &[char], prefix: &[char]) -> (res: bool)
    ensures
        res == starts_with(hay@, prefix@),
{
    let r = chars_occur_at(hay, prefix, 0);
    proof {
        if prefix@.len() <= hay@.len() {
            assert(hay@.subrange(0, prefix@.len() as int) =~= hay@.take(prefix@.len() as int));
        }
    }
    r
}

/// The characters `cs[from..to]` as a new vector.
pub fn slice_chars(cs: &[char], from: usize, to: usize) -> (res: Vec<char>)
    requires
        from <= to <= cs@.len(),
    ensures
        res@ == cs@.subrange(from as int, to as int),
{
    let mut out: Vec<char> = Vec::new();
    let mut i: usize = from;
    while i < to
        invariant
            from <= i <= to,
            to <= cs@.len(),
            out@ == cs@.subrange(from as int, i as int),
        decreases to - i,
    {
        out.push(cs[i]);
        i = i + 1;
        assert(out@ =~= cs@.subrange(from as int, i as int));
    }
    out
}

// ---------------------------------------------------------------------
// Unicode lowercase (std)
// ---------------------------------------------------------------------

/// The lowercase form of a character sequence as std's `str::to_lowercase`
/// computes it (the Unicode lowercase mapping, including its multi-character
/// and context-dependent cases).
pub uninterp spec fn unicode_lowercase(s: Seq<char>) -> Seq<char>;

/// std's `str::to_lowercase`. Its result is named by `unicode_lowercase`:
/// the mapping is a function of the text alone; nothing more of it is
/// stated here.
#[verifier::external_body]
pub(crate) fn to_lowercase(s: &str) -> (res: String)
    ensures
        res@ == unicode_lowercase(s@),
{
    s.to_lowercase()
}

// ---------------------------------------------------------------------
// Whitespace and trimming
// ---------------------------------------------------------------------

/// The Unicode `White_Space` property, which `char::is_whitespace` tests.
pub open spec fn is_ws(c: char) -> bool {
    ||| ('\u{9}' <= c && c <= '\u{d}')
    ||| c == ' '
    ||| c == '\u{85}'
    ||| c == '\u{a0}'
    ||| c == '\u{1680}'
    ||| ('\u{2000}' <= c && c <= '\u{200a}')
    ||| c == '\u{2028}'
    ||| c == '\u{2029}'
    ||| c == '\u{202f}'
    ||| c == '\u{205f}'
    ||| c == '\u{3000}'
}

/// `s` without its leading whitespace.
pub open spec fn trim_start(s: Seq<char>) -> Seq<char>
    decreases s.len(),
{
    if s.len() > 0 && is_ws(s[0]) {
        trim_start(s.drop_first())
    } else {
        s
    }
}

/// `s` without its trailing whitespace.
pub open spec fn trim_end(s: Seq<char>) -> Seq<char>
    decreases s.len(),
{
    if s.len() > 0 && is_ws(s.last()) {
        trim_end(s.drop_last())
    } else {
        s
    }
}

/// `s` without leading and trailing whitespace (std's `str::trim`).
pub open spec fn trim(s: Seq<char>) -> Seq<char> {
    trim_end(trim_start(s))
}

/// Whether `c` is Unicode whitespace.
pub fn is_whitespace(c: char) -> (res: bool)
    ensures
        res == is_ws(c),
{
    ('\u{9}' <= c && c <= '\u{d}') || c == ' ' || c == '\u{85}' || c == '\u{a0}'
        || c == '\u{1680}' || ('\u{2000}' <= c && c <= '\u{200a}') || c == '\u{2028}'
        || c == '\u{2029}' || c == '\u{202f}' || c == '\u{205f}' || c == '\u{3000}'
}

proof fn lemma_trim_start_skip(s: Seq<char>, i: int)
    requires
        0 <= i <= s.len(),
        forall|k: int| 0 <= k < i ==> is_ws(#[trigger] s[k]),
    ensures
        trim_start(s) == trim_start(s.subrange(i, s.len() as int)),
    decreases i,
{
    if i == 0 {
        assert(s.subrange(0, s.len() as int) =~= s);
    } else {
        assert(is_ws(s[0]));
        let t = s.drop_first();
        assert forall|k: int| 0 <= k < i - 1 implies is_ws(#[trigger] t[k]) by {
            assert(t[k] == s[k + 1]);
        }
        lemma_trim_start_skip(t, i - 1);
        assert(t.subrange(i - 1, t.len() as int) =~= s.subrange(i, s.len() as int));
    }
}

proof fn lemma_trim_end_skip(s: Seq<char>, j: int)
    requires
        0 <= j <= s.len(),
        forall|k: int| j <= k < s.len() ==> is_ws(#[trigger] s[k]),
    ensures
        trim_end(s) == trim_end(s.subrange(0, j)),
    decreases s.len() - j,
{
    if j == s.len() {
        assert(s.subrange(0, j) =~= s);
    } else {
        assert(is_ws(s.last()));
        let t = s.drop_last();
        assert forall|k: int| j <= k < t.len() implies is_ws(#[trigger] t[k]) by {
            assert(t[k] == s[k]);
        }
        lemma_trim_end_skip(t, j);
        assert(t.subrange(0, j) =~= s.subrange(0, j));
    }
}

/// `cs` without leading and trailing whitespace.
pub fn trim_chars(cs: &[char]) -> (res: Vec<char>)
    ensures
        res@ == trim(cs@),
{
    let n = cs.len();
    let mut i: usize = 0;
    while i < n && is_whitespace(cs[i])
        invariant
            n == cs@.len(),
            i <= n,
            forall|k: int| 0 <= k < i ==> is_ws(#[trigger] cs@[k]),
        decreases n - i,
    {
        i = i + 1;
    }
    let ghost mid = cs@.subrange(i as int, n as int);
    proof {
        lemma_trim_start_skip(cs@, i as int);
        assert(trim_start(mid) == mid);
    }
    let mut j: usize = n;
    while j > i && is_whitespace(cs[j - 1])
        invariant
            n == cs@.len(),
            i <= j <= n,
            forall|k: int| j <= k < n ==> is_ws(#[trigger] cs@[k]),
        decreases j,
    {
        j = j - 1;
    }
    proof {
        let m = j - i;
        assert forall|k: int| m <= k < mid.len() implies is_ws(#[trigger] mid[k]) by {
            assert(mid[k] == cs@[i + k]);
        }
        lemma_trim_end_skip(mid, m as int);
        let r = mid.subrange(0, m as int);
        assert(r =~= cs@.subrange(i as int, j as int));
        if r.len() > 0 {
            assert(r.last() == cs@[j - 1]);
        }
        assert(trim_end(r) == r);
    }
    slice_chars(cs, i, j)
}

/// A string slice without leading and trailing whitespace.
pub fn trim_str(s: &str) -> (res: Vec<char>)
    ensures
        res@ == trim(s@),
{
    let cs = chars_of(s);
    trim_chars(cs.as_slice())
}

// ---------------------------------------------------------------------
// Decimal numbers
// ---------------------------------------------------------------------

/// The ASCII digit for `d` (`d < 10`).
pub open spec fn digit_char(d: nat) -> char {
    (d + 48) as char
}

/// Whether `c` is an ASCII decimal digit.
pub open spec fn is_digit(c: char) -> bool {
    '0' <= c && c <= '9'
}

/// The value of an ASCII digit.
pub open spec fn digit_value(c: char) -> nat {
    (c as int - 48) as nat
}

/// The shortest decimal representation of `n`, as `Display` writes it.
pub open spec fn dec(n: nat) -> Seq<char>
    decreases n,
{
    if n < 10 {
        seq![digit_char(n)]
    } else {
        dec(n / 10).push(digit_char(n % 10))
    }
}

/// Decimal representation padded with zeros to at least two digits
/// (`{:02}`).
pub open spec fn dec2(n: nat) -> Seq<char> {
    if n < 10 {
        seq!['0', digit_char(n)]
    } else {
        dec(n)
    }
}

/// The digit character for `d` (`d < 10`).
pub fn digit_to_char(d: u64) -> (c: char)
    requires
        d < 10,
    ensures
        c == digit_char(d as nat),
{
    let b: u8 = 48u8 + d as u8;
    b as char
}

/// Appends the decimal representation of `n` to `out`.
pub fn push_decimal(out: &mut String, n: u64)
    ensures
        final(out)@ == old(out)@ + dec(n as nat),
    decreases n,
{
    if n >= 10 {
        push_decimal(out, n / 10);
    }
    let c = digit_to_char(n % 10);
    push_char(out, c);
    proof {
        if n < 10 {
            assert(dec(n as nat) =~= seq![digit_char(n as nat)]);
        }
    }
}

/// Appends `n` in decimal, zero-padded to at least two digits.
pub fn push_decimal2(out: &mut String, n: u64)
    ensures
        final(out)@ == old(out)@ + dec2(n as nat),
{
    if n < 10 {
        push_char(out, '0');
        let c = digit_to_char(n);
        push_char(out, c);
    } else {
        push_decimal(out, n);
    }
}

/// Decimal text of a signed integer (`Display` for `i64`).
pub open spec fn dec_i64(n: i64) -> Seq<char> {
    if n < 0 {
        seq!['-'] + dec((-(n as int)) as nat)
    } else {
        dec(n as nat)
    }
}

/// Appends the decimal text of a signed integer.
pub fn push_i64(out: &mut String, n: i64)
    ensures
        final(out)@ == old(out)@ + dec_i64(n),
{
    if n < 0 {
        push_char(out, '-');
        let m: u64 = (0i128 - n as i128) as u64;
        push_decimal(out, m);
        assert(final(out)@ =~= old(out)@ + dec_i64(n));
    } else {
        push_decimal(out, n as u64);
    }
}

/// The decimal representation of `n` as a `String`.
pub fn decimal_string(n: u64) -> (res: String)
    ensures
        res@ == dec(n as nat),
{
    let mut s = String::new();
    push_decimal(&mut s, n);
    s
}

/// The decimal text of a number is a nonempty run of digits whose value is
/// the number.
pub proof fn lemma_dec_digits(n: nat)
    ensures
        dec(n).len() > 0,
        all_digits(dec(n)),
        digits_val(dec(n)) == n,
    decreases n,
{
    let d = (n % 10) as nat;
    assert(digit_value(digit_char(d)) == d);
    assert(is_digit(digit_char(d)));
    if n < 10 {
        let s = dec(n);
        assert(s =~= seq![digit_char(n)]);
        assert(s.drop_last() =~= Seq::<char>::empty());
        assert(digits_val(s.drop_last()) == 0);
        assert(s.last() == digit_char(d));
        assert(n % 10 == n);
        assert(digits_val(s) == n);
    } else {
        lemma_dec_digits(n / 10);
        let p = dec(n / 10);
        let s = dec(n);
        assert(s == p.push(digit_char(d)));
        assert(s.drop_last() =~= p);
        assert forall|i: int| 0 <= i < s.len() implies is_digit(#[trigger] s[i]) by {
            if i < p.len() {
                assert(s[i] == p[i]);
            }
        }
        assert(s.last() == digit_char(d));
        assert(digits_val(s) == digits_val(p) * 10 + d);
        assert((n / 10) * 10 + n % 10 == n) by (nonlinear_arith);
    }
}

/// The value of a sequence of decimal digits (most significant first).
pub open spec fn digits_val(d: Seq<char>) -> nat
    decreases d.len(),
{
    if d.len() == 0 {
        0
    } else {
        digits_val(d.drop_last()) * 10 + digit_value(d.last())
    }
}

/// Every character of `d` is an ASCII digit.
pub open spec fn all_digits(d: Seq<char>) -> bool {
    forall|i: int| 0 <= i < d.len() ==> is_digit(#[trigger] d[i])
}

/// The digits of an unsigned number as `u32::from_str` reads them: an
/// optional leading `+` is dropped.
pub open spec fn unsigned_digits(s: Seq<char>) -> Seq<char> {
    if s.len() > 0 && s[0] == '+' {
        s.drop_first()
    } else {
        s
    }
}

/// What `u32::from_str` returns on `s`: `Some` exactly when `s` is an
/// optional `+` followed by one or more ASCII digits whose value fits.
pub open spec fn parse_u32_spec(s: Seq<char>) -> Option<u32> {
    let d = unsigned_digits(s);
    if d.len() > 0 && all_digits(d) && digits_val(d) <= u32::MAX {
        Some(digits_val(d) as u32)
    } else {
        None
    }
}

/// What `i32::from_str` returns on `s`: an optional sign followed by one or
/// more ASCII digits, whose signed value must fit in `i32`.
pub open spec fn parse_i32_spec(s: Seq<char>) -> Option<i32> {
    if s.len() > 0 && s[0] == '-' {
        let d = s.drop_first();
        if d.len() > 0 && all_digits(d) && digits_val(d) <= 0x8000_0000 {
            Some((0 - digits_val(d)) as i32)
        } else {
            None
        }
    } else {
        let d = unsigned_digits(s);
        if d.len() > 0 && all_digits(d) && digits_val(d) <= i32::MAX {
            Some(digits_val(d) as i32)
        } else {
            None
        }
    }
}

proof fn lemma_digits_val_prefix(d: Seq<char>, k: int)
    requires
        0 <= k <= d.len(),
        all_digits(d),
    ensures
        digits_val(d.take(k)) <= digits_val(d),
    decreases d.len() - k,
{
    if k < d.len() {
        let t = d.drop_last();
        assert(all_digits(t)) by {
            assert forall|i: int| 0 <= i < t.len() implies is_digit(#[trigger] t[i]) by {
                assert(t[i] == d[i]);
            }
        }
        lemma_digits_val_prefix(t, k);
        assert(t.take(k) =~= d.take(k));
    } else {
        assert(d.take(k) =~= d);
    }
}

/// Reads the digits `cs[from..]`, giving their value when every character
/// is a digit, there is at least one, and the value is at most `limit`.
fn read_digits(cs: &[char], from: usize, limit: u64) -> (res: Option<u64>)
    requires
        from <= cs@.len(),
        limit <= u32::MAX as u64 + 1,
    ensures
        ({
            let d = cs@.subrange(from as int, cs@.len() as int);
            match res {
                Some(v) => d.len() > 0 && all_digits(d) && v == digits_val(d) && v <= limit,
                None => !(d.len() > 0 && all_digits(d) && digits_val(d) <= limit),
            }
        }),
{
    let ghost d = cs@.subrange(from as int, cs@.len() as int);
    if from == cs.len() {
        return None;
    }
    let mut v: u64 = 0;
    let mut i: usize = from;
    while i < cs.len()
        invariant
            from <= i <= cs@.len(),
            d == cs@.subrange(from as int, cs@.len() as int),
            all_digits(d.take(i - from)),
            v == digits_val(d.take(i - from)),
            v <= limit,
            limit <= u32::MAX as u64 + 1,
        decreases cs@.len() - i,
    {
        let c = cs[i];
        if !('0' <= c && c <= '9') {
            proof {
                assert(d[i - from] == c);
            }
            return None;
        }
        let dv: u64 = (c as u32 - 48) as u64;
        let nv = v * 10 + dv;
        proof {
            let p = d.take(i - from + 1);
            assert(p.drop_last() =~= d.take(i - from));
            assert(p.last() == c);
            assert(all_digits(p)) by {
                assert forall|k: int| 0 <= k < p.len() implies is_digit(#[trigger] p[k]) by {
                    if k < p.len() - 1 {
                        assert(p[k] == d.take(i - from)[k]);
                    }
                }
            }
        }
        if nv > limit {
            proof {
                let p = d.take(i - from + 1);
                assert(all_digits(d) ==> digits_val(p) <= digits_val(d)) by {
                    if all_digits(d) {
                        lemma_digits_val_prefix(d, i - from + 1);
                    }
                }
            }
            return None;
        }
        v = nv;
        i = i + 1;
    }
    proof {
        assert(d.take(i - from) =~= d);
    }
    Some(v)
}

/// `u32::from_str` on a character sequence.
pub fn parse_u32(cs: &[char]) -> (res: Option<u32>)
    ensures
        res == parse_u32_spec(cs@),
{
    let from: usize = if cs.len() > 0 && cs[0] == '+' { 1 } else { 0 };
    proof {
        assert(cs@.subrange(from as int, cs@.len() as int) =~= unsigned_digits(cs@));
    }
    match read_digits(cs, from, 0xffff_ffff) {
        Some(v) => Some(v as u32),
        None => None,
    }
}

/// `i32::from_str` on a character sequence.
pub fn parse_i32(cs: &[char]) -> (res: Option<i32>)
    ensures
        res == parse_i32_spec(cs@),
{
    if cs.len() > 0 && cs[0] == '-' {
        proof {
            assert(cs@.subrange(1, cs@.len() as int) =~= cs@.drop_first());
        }
        match read_digits(cs, 1, 0x8000_0000) {
            Some(v) => {
                let r: i64 = 0 - (v as i64);
                Some(r as i32)
            },
            None => None,
        }
    } else {
        let from: usize = if cs.len() > 0 && cs[0] == '+' { 1 } else { 0 };
        proof {
            assert(cs@.subrange(from as int, cs@.len() as int) =~= unsigned_digits(cs@));
        }
        match read_digits(cs, from, 0x7fff_ffff) {
            Some(v) => Some(v as i32),
            None => None,
        }
    }
}

// ---------------------------------------------------------------------
// Hexadecimal
// ---------------------------------------------------------------------

/// The lowercase hexadecimal digit for `d` (`d < 16`).
pub open spec fn hex_digit(d: nat) -> char {
    if d < 10 {
        (d + 48) as char
    } else {
        (d + 87) as char
    }
}

/// Whether `c` is a lowercase hexadecimal digit.
pub open spec fn is_lower_hex(c: char) -> bool {
    ('0' <= c && c <= '9') || ('a' <= c && c <= 'f')
}

/// Two lowercase hex digits per byte, high nibble first (`{:02x}`, and
/// `hex::encode`).
pub open spec fn hex_of(bytes: Seq<u8>) -> Seq<char>
    decreases bytes.len(),
{
    if bytes.len() == 0 {
        Seq::empty()
    } else {
        let b = bytes.last();
        hex_of(bytes.drop_last()) + seq![hex_digit(b as nat / 16), hex_digit(b as nat % 16)]
    }
}

/// The hexadecimal digit character for `d` (`d < 16`).
pub fn hex_digit_char(d: u8) -> (c: char)
    requires
        d < 16,
    ensures
        c == hex_digit(d as nat),
        is_lower_hex(c),
{
    if d < 10 {
        (48u8 + d) as char
    } else {
        (87u8 + d) as char
    }
}

/// Appends the two lowercase hex digits of `b`.
pub fn push_hex_byte(out: &mut String, b: u8)
    ensures
        final(out)@ == old(out)@ + seq![hex_digit(b as nat / 16), hex_digit(b as nat % 16)],
{
    let hi = hex_digit_char(b / 16);
    let lo = hex_digit_char(b % 16);
    push_char(out, hi);
    push_char(out, lo);
    assert(final(out)@ =~= old(out)@ + seq![hex_digit(b as nat / 16), hex_digit(b as nat % 16)]);
}

proof fn lemma_hex_of_len(bytes: Seq<u8>)
    ensures
        hex_of(bytes).len() == 2 * bytes.len(),
        forall|i: int| 0 <= i < hex_of(bytes).len() ==> is_lower_hex(#[trigger] hex_of(bytes)[i]),
    decreases bytes.len(),
{
    if bytes.len() > 0 {
        lemma_hex_of_len(bytes.drop_last());
        let b = bytes.last();
        let h = hex_of(bytes.drop_last());
        let t = seq![hex_digit(b as nat / 16), hex_digit(b as nat % 16)];
        assert forall|i: int| 0 <= i < hex_of(bytes).len() implies is_lower_hex(#[trigger] hex_of(bytes)[i]) by {
            if i < h.len() {
                assert(hex_of(bytes)[i] == h[i]);
            } else {
                assert(hex_of(bytes)[i] == t[i - h.len()]);
            }
        }
    }
}

/// The lowercase hexadecimal text of `bytes`.
pub fn hex_string(bytes: &[u8]) -> (res: String)
    ensures
        res@ == hex_of(bytes@),
        res@.len() == 2 * bytes@.len(),
        forall|i: int| 0 <= i < res@.len() ==> is_lower_hex(#[trigger] res@[i]),
{
    let mut out = String::new();
    let mut i: usize = 0;
    while i < bytes.len()
        invariant
            i <= bytes@.len(),
            out@ == hex_of(bytes@.take(i as int)),
        decreases bytes@.len() - i,
    {
        proof {
            let p = bytes@.take(i as int + 1);
            assert(p.drop_last() =~= bytes@.take(i as int));
            assert(p.last() == bytes@[i as int]);
        }
        push_hex_byte(&mut out, bytes[i]);
        i = i + 1;
    }
    proof {
        assert(bytes@.take(bytes@.len() as int) =~= bytes@);
        lemma_hex_of_len(bytes@);
    }
    out
}

// ---------------------------------------------------------------------
// Splitting
// ---------------------------------------------------------------------

/// `i` is the first position of `c` in `s`.
pub open spec fn first_at(s: Seq<char>, c: char, i: int) -> bool {
    0 <= i < s.len() && s[i] == c && forall|j: int| 0 <= j < i ==> s[j] != c
}

/// `s` split at the first `c` (what `str::split_once` returns): the text
/// before it and the text after it, or `None` when `c` does not occur.
pub open spec fn split_once(s: Seq<char>, c: char) -> Option<(Seq<char>, Seq<char>)> {
    if exists|i: int| first_at(s, c, i) {
        let i = choose|i: int| first_at(s, c, i);
        Some((s.take(i), s.skip(i + 1)))
    } else {
        None
    }
}

/// The position of the first `c` in `cs`, if any.
pub fn find_char(cs: &[char], c: char) -> (res: Option<usize>)
    ensures
        match res {
            Some(i) => first_at(cs@, c, i as int),
            None => forall|j: int| 0 <= j < cs@.len() ==> cs@[j] != c,
        },
{
    let mut i: usize = 0;
    while i < cs.len()
        invariant
            i <= cs@.len(),
            forall|j: int| 0 <= j < i ==> cs@[j] != c,
        decreases cs@.len() - i,
    {
        if cs[i] == c {
            return Some(i);
        }
        i = i + 1;
    }
    None
}

/// `cs` split at its first `c`.
pub fn split_once_chars(cs: &[char], c: char) -> (res: Option<(Vec<char>, Vec<char>)>)
    ensures
        match res {
            Some((a, b)) => split_once(cs@, c) == Some((a@, b@)),
            None => split_once(cs@, c).is_none(),
        },
{
    match find_char(cs, c) {
        Some(i) => {
            assert(i < cs.len());
            let a = slice_chars(cs, 0, i);
            let b = slice_chars(cs, i + 1, cs.len());
            proof {
                let k = choose|k: int| first_at(cs@, c, k);
                assert(k == i) by {
                    if k < i {
                        assert(cs@[k] != c);
                    } else if k > i {
                        assert(cs@[i as int] != c);
                    }
                }
                assert(a@ =~= cs@.take(i as int));
                assert(b@ =~= cs@.skip(i + 1));
            }
            Some((a, b))
        },
        None => {
            proof {
                assert(!exists|i: int| first_at(cs@, c, i));
            }
            None
        },
    }
}

} // verus!
