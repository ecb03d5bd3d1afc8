//! Character-level string helpers shared by the modules: splitting, joining,
//! replacing, trimming and number formatting, each with its specification.
use vstd::prelude::*;
use vstd::string::*;
use vstd::utf8::*;

verus! {

// ------------------------------------------------------------------
// Specifications
// ------------------------------------------------------------------

/// Every occurrence of `c` in `s` replaced by `rep`.
pub open spec fn replace_char_spec(s: Seq<char>, c: char, rep: Seq<char>) -> Seq<char>
    decreases s.len(),
{
    if s.len() == 0 {
        seq![]
    } else {
        replace_char_spec(s.drop_last(), c, rep) + (if s.last() == c {
            rep
        } else {
            seq![s.last()]
        })
    }
}

/// The pieces of `s` between occurrences of `sep`, as `str::split` yields them
/// (an empty string gives one empty piece).
pub open spec fn split_spec(s: Seq<char>, sep: char) -> Seq<Seq<char>>
    decreases s.len(),
{
    if s.len() == 0 {
        seq![seq![]]
    } else {
        let prev = split_spec(s.drop_last(), sep);
        if s.last() == sep {
            prev.push(seq![])
        } else {
            prev.update(prev.len() - 1, prev.last().push(s.last()))
        }
    }
}

/// `s` without one trailing carriage return, if it has one.
pub open spec fn strip_cr(s: Seq<char>) -> Seq<char> {
    if s.len() > 0 && s.last() == '\r' {
        s.drop_last()
    } else {
        s
    }
}

/// The lines of `s` as `str::lines` yields them: pieces between line feeds,
/// a carriage return before a line feed removed, no empty last line.
pub open spec fn lines_spec(s: Seq<char>) -> Seq<Seq<char>> {
    let p = split_spec(s, '\n');
    let q = if p.last().len() == 0 {
        p.drop_last()
    } else {
        p
    };
    Seq::new(
        q.len(),
        |i: int|
            if i < p.len() - 1 {
                strip_cr(q[i])
            } else {
                q[i]
            },
    )
}

/// The pieces joined with `sep` between consecutive pieces.
pub open spec fn join_spec(parts: Seq<Seq<char>>, sep: Seq<char>) -> Seq<char>
    decreases parts.len(),
{
    if parts.len() == 0 {
        seq![]
    } else if parts.len() == 1 {
        parts[0]
    } else {
        join_spec(parts.drop_last(), sep) + sep + parts.last()
    }
}

/// Index of the first occurrence of `c` in `s`, if any.
pub open spec fn find_char_spec(s: Seq<char>, c: char) -> Option<int>
    decreases s.len(),
{
    if s.len() == 0 {
        None
    } else if s[0] == c {
        Some(0)
    } else {
        match find_char_spec(s.drop_first(), c) {
            Some(i) => Some(i + 1),
            None => None,
        }
    }
}

/// The ASCII decimal digit for `d < 10`.
pub open spec fn digit_char(d: nat) -> char {
    ((48 + d) as u8) as char
}

/// Decimal representation of a natural number, without leading zeros.
pub open spec fn decimal_spec(n: nat) -> Seq<char>
    decreases n,
{
    if n < 10 {
        seq![digit_char(n)]
    } else {
        decimal_spec(n / 10).push(digit_char(n % 10))
    }
}

/// Decimal representation of an integer, with a leading `-` when negative.
pub open spec fn signed_decimal_spec(n: int) -> Seq<char> {
    if n < 0 {
        seq!['-'] + decimal_spec((-n) as nat)
    } else {
        decimal_spec(n as nat)
    }
}

/// Lowercase hexadecimal digit for `d < 16`.
pub open spec fn hex_digit(d: nat) -> char {
    if d < 10 {
        ((48 + d) as u8) as char
    } else {
        ((87 + d) as u8) as char
    }
}

/// Lowercase hexadecimal representation of bytes, two digits per byte.
pub open spec fn hex_spec(b: Seq<u8>) -> Seq<char>
    decreases b.len(),
{
    if b.len() == 0 {
        seq![]
    } else {
        hex_spec(b.drop_last()) + seq![
            hex_digit((b.last() / 16) as nat),
            hex_digit((b.last() % 16) as nat),
        ]
    }
}

/// Name for what `char::is_whitespace` answers: the Unicode `White_Space` property.
pub uninterp spec fn is_whitespace_spec(c: char) -> bool;

/// `s` without leading whitespace.
pub open spec fn trim_start_spec(s: Seq<char>) -> Seq<char>
    decreases s.len(),
{
    if s.len() > 0 && is_whitespace_spec(s[0]) {
        trim_start_spec(s.drop_first())
    } else {
        s
    }
}

/// `s` without trailing whitespace.
pub open spec fn trim_end_spec(s: Seq<char>) -> Seq<char>
    decreases s.len(),
{
    if s.len() > 0 && is_whitespace_spec(s.last()) {
        trim_end_spec(s.drop_last())
    } else {
        s
    }
}

/// `s` without leading and trailing whitespace, as `str::trim` gives it.
pub open spec fn trim_spec(s: Seq<char>) -> Seq<char> {
    trim_end_spec(trim_start_spec(s))
}

/// The views of a sequence of strings.
pub open spec fn views(v: Seq<String>) -> Seq<Seq<char>> {
    v.map_values(|x: String| x@)
}

pub proof fn lemma_views_push(v: Seq<String>, s: String)
    ensures
        views(v.push(s)) == views(v).push(s@),
{
    assert(views(v.push(s)) =~= views(v).push(s@));
}

/// Length in bytes of the UTF-8 encoding of `s`.
pub open spec fn byte_len(s: Seq<char>) -> nat {
    encode_utf8(s).len()
}

// ------------------------------------------------------------------
// Calls into std that vstd does not specify
// ------------------------------------------------------------------

/// Calls `String::push`: the string afterwards holds one more character, `c`, at its end.
#[verifier::external_body]
pub(crate) fn push_char(s: &mut String, c: char)
    ensures
        final(s)@ == old(s)@.push(c),
{
    s.push(c)
}

/// Calls `char::is_whitespace`; its answer is named `is_whitespace_spec`.
#[verifier::external_body]
pub(crate) fn is_whitespace(c: char) -> (r: bool)
    ensures
        r == is_whitespace_spec(c),
{
    c.is_whitespace()
}

/// Calls `String::from_utf8`: `Some` exactly when the bytes are valid UTF-8,
/// holding the characters they encode.
#[verifier::external_body]
pub(crate) fn string_from_utf8(bytes: Vec<u8>) -> (r: Option<String>)
    ensures
        r is Some <==> valid_utf8(bytes@),
        r is Some ==> r->0@ == decode_utf8(bytes@),
{
    String::from_utf8(bytes).ok()
}

// ------------------------------------------------------------------
// Verified helpers
// ------------------------------------------------------------------

/// The characters of `s`, in order.
pub fn chars_of(s: &str) -> (r: Vec<char>)
    ensures
        r@ == s@,
{
    let n = s.unicode_len();
    let mut v: Vec<char> = Vec::new();
    let mut i: usize = 0;
    while i < n
        invariant
            n == s@.len(),
            i <= n,
            v@ == s@.take(i as int),
        decreases n - i,
    {
        let c = s.get_char(i);
        v.push(c);
        i = i + 1;
        assert(v@ =~= s@.take(i as int));
    }
    assert(v@ =~= s@);
    v
}

/// A string holding the given characters.
pub fn string_from_chars(cs: &Vec<char>) -> (r: String)
    ensures
        r@ == cs@,
{
    let mut s = String::new();
    let mut i: usize = 0;
    while i < cs.len()
        invariant
            i <= cs.len(),
            s@ == cs@.take(i as int),
        decreases cs.len() - i,
    {
        push_char(&mut s, cs[i]);
        i = i + 1;
        assert(s@ =~= cs@.take(i as int));
    }
    assert(s@ =~= cs@);
    s
}

/// A copy of a string.
pub fn copy_string(s: &str) -> (r: String)
    ensures
        r@ == s@,
{
    s.to_owned()
}

/// Whether two strings hold the same characters.
pub fn str_eq(a: &str, b: &str) -> (r: bool)
    ensures
        r == (a@ == b@),
{
    let n = a.unicode_len();
    let m = b.unicode_len();
    if n != m {
        return false;
    }
    let mut i: usize = 0;
    while i < n
        invariant
            n == a@.len(),
            m == b@.len(),
            n == m,
            i <= n,
            forall|j: int| 0 <= j < i ==> a@[j] == b@[j],
        decreases n - i,
    {
        if a.get_char(i) != b.get_char(i) {
            return false;
        }
        i = i + 1;
    }
    assert(a@ =~= b@);
    true
}

/// Whether `s` begins with the character `c`.
pub fn starts_with_char(s: &str, c: char) -> (r: bool)
    ensures
        r == (s@.len() > 0 && s@[0] == c),
{
    let n = s.unicode_len();
    n > 0 && s.get_char(0) == c
}

/// `s` with every occurrence of `c` replaced by `rep`.
pub fn replace_char(s: &str, c: char, rep: &str) -> (r: String)
    ensures
        r@ == replace_char_spec(s@, c, rep@),
{
    let n = s.unicode_len();
    let mut out = String::new();
    let mut i: usize = 0;
    while i < n
        invariant
            n == s@.len(),
            i <= n,
            out@ == replace_char_spec(s@.take(i as int), c, rep@),
        decreases n - i,
    {
        let ch = s.get_char(i);
        assert(s@.take(i + 1).drop_last() =~= s@.take(i as int));
        if ch == c {
            out.append(rep);
        } else {
            push_char(&mut out, ch);
        }
        i = i + 1;
    }
    assert(s@.take(n as int) =~= s@);
    out
}

/// The pieces of `s` between occurrences of `sep`, as `str::split` yields them.
pub fn split_char(s: &str, sep: char) -> (r: Vec<String>)
    ensures
        views(r@) == split_spec(s@, sep),
        r@.len() >= 1,
{
    let n = s.unicode_len();
    let mut done: Vec<String> = Vec::new();
    let mut cur = String::new();
    let mut i: usize = 0;
    while i < n
        invariant
            n == s@.len(),
            i <= n,
            split_spec(s@.take(i as int), sep) == views(done@).push(cur@),
        decreases n - i,
    {
        let ch = s.get_char(i);
        assert(s@.take(i + 1).drop_last() =~= s@.take(i as int));
        let ghost prev = split_spec(s@.take(i as int), sep);
        if ch == sep {
            let ghost old_done = done@;
            let finished = cur;
            done.push(finished);
            cur = String::new();
            assert(views(done@) =~= views(old_done).push(finished@));
            assert(split_spec(s@.take(i + 1), sep) =~= views(done@).push(cur@));
        } else {
            push_char(&mut cur, ch);
            assert(split_spec(s@.take(i + 1), sep) =~= views(done@).push(cur@));
        }
        i = i + 1;
    }
    assert(s@.take(n as int) =~= s@);
    let ghost old_done = done@;
    let last = cur;
    done.push(last);
    assert(views(done@) =~= views(old_done).push(last@));
    done
}

/// `s` without one trailing carriage return, if it has one.
fn strip_cr_string(s: String) -> (r: String)
    ensures
        r@ == strip_cr(s@),
{
    let cs = chars_of(s.as_str());
    let n = cs.len();
    if n > 0 && cs[n - 1] == '\r' {
        let mut v = cs;
        v.pop();
        assert(v@ =~= s@.drop_last());
        string_from_chars(&v)
    } else {
        s
    }
}

/// The lines of `s` as `str::lines` yields them.
pub fn lines(s: &str) -> (r: Vec<String>)
    ensures
        views(r@) == lines_spec(s@),
{
    let p = split_char(s, '\n');
    let ghost pv = views(p@);
    let plen = p.len();
    let keep = if p[plen - 1].unicode_len() == 0 {
        plen - 1
    } else {
        plen
    };
    let mut out: Vec<String> = Vec::new();
    let mut i: usize = 0;
    while i < keep
        invariant
            pv == views(p@),
            pv == split_spec(s@, '\n'),
            plen == p@.len(),
            plen >= 1,
            keep <= plen,
            keep == (if pv.last().len() == 0 {
                plen - 1
            } else {
                plen as int
            }),
            i <= keep,
            out@.len() == i,
            forall|j: int|
                0 <= j < i ==> #[trigger] out@[j]@ == (if j < plen - 1 {
                    strip_cr(pv[j])
                } else {
                    pv[j]
                }),
        decreases keep - i,
    {
        let piece = copy_string(p[i].as_str());
        assert(piece@ == pv[i as int]);
        if i < plen - 1 {
            let stripped = strip_cr_string(piece);
            out.push(stripped);
        } else {
            out.push(piece);
        }
        i = i + 1;
    }
    assert(views(out@) =~= lines_spec(s@));
    out
}

/// Splits `s` at the first occurrence of `c`: the part before and the part after it.
pub fn split_once_char(s: &str, c: char) -> (r: Option<(String, String)>)
    ensures
        match find_char_spec(s@, c) {
            None => r is None,
            Some(i) => r matches Some(p) && p.0@ == s@.take(i) && p.1@ == s@.skip(i + 1),
        },
{
    let cs = chars_of(s);
    let n = cs.len();
    let mut i: usize = 0;
    assert(s@.skip(0) =~= s@);
    while i < n
        invariant
            cs@ == s@,
            n == cs@.len(),
            i <= n,
            forall|j: int| 0 <= j < i ==> cs@[j] != c,
            find_char_spec(s@, c) == (match find_char_spec(s@.skip(i as int), c) {
                Some(k) => Some(k + i),
                None => None::<int>,
            }),
        decreases n - i,
    {
        if cs[i] == c {
            assert(s@.skip(i as int)[0] == c);
            let mut before: Vec<char> = Vec::new();
            let mut j: usize = 0;
            while j < i
                invariant
                    j <= i,
                    i < n,
                    n == cs@.len(),
                    before@ == cs@.take(j as int),
                decreases i - j,
            {
                before.push(cs[j]);
                j = j + 1;
                assert(before@ =~= cs@.take(j as int));
            }
            let mut after: Vec<char> = Vec::new();
            let mut k: usize = i + 1;
            while k < n
                invariant
                    i < k <= n,
                    n == cs@.len(),
                    after@ == cs@.subrange(i + 1, k as int),
                decreases n - k,
            {
                after.push(cs[k]);
                k = k + 1;
                assert(after@ =~= cs@.subrange(i + 1, k as int));
            }
            assert(after@ =~= s@.skip(i + 1));
            assert(before@ =~= s@.take(i as int));
            return Some((string_from_chars(&before), string_from_chars(&after)));
        }
        assert(s@.skip(i as int).drop_first() =~= s@.skip(i + 1));
        i = i + 1;
    }
    assert(s@.skip(n as int) =~= Seq::<char>::empty());
    None
}

/// The pieces joined with `sep` between consecutive pieces.
pub fn join(parts: &Vec<String>, sep: &str) -> (r: String)
    ensures
        r@ == join_spec(views(parts@), sep@),
{
    let mut out = String::new();
    let mut i: usize = 0;
    while i < parts.len()
        invariant
            i <= parts.len(),
            out@ == join_spec(views(parts@.take(i as int)), sep@),
        decreases parts.len() - i,
    {
        assert(views(parts@.take(i + 1)).drop_last() =~= views(parts@.take(i as int)));
        if i > 0 {
            out.append(sep);
        }
        out.append(parts[i].as_str());
        i = i + 1;
        assert(views(parts@.take(i as int)).last() == parts@[i - 1]@);
    }
    assert(parts@.take(parts.len() as int) =~= parts@);
    out
}

/// Decimal digits of `n`.
fn decimal_chars(n: u64) -> (r: Vec<char>)
    ensures
        r@ == decimal_spec(n as nat),
    decreases n,
{
    if n < 10 {
        let d = (48u8 + n as u8) as char;
        let mut v = Vec::new();
        v.push(d);
        assert(v@ =~= seq![digit_char(n as nat)]);
        v
    } else {
        let mut v = decimal_chars(n / 10);
        let d = (48u8 + (n % 10) as u8) as char;
        v.push(d);
        v
    }
}

/// Decimal representation of an unsigned integer, as `to_string` gives it.
pub fn u64_to_decimal(n: u64) -> (r: String)
    ensures
        r@ == decimal_spec(n as nat),
{
    string_from_chars(&decimal_chars(n))
}

/// Decimal representation of a signed integer, as `to_string` gives it.
pub fn i64_to_decimal(n: i64) -> (r: String)
    ensures
        r@ == signed_decimal_spec(n as int),
{
    if n < 0 {
        let m: i128 = 0i128 - (n as i128);
        let mag = m as u64;
        let mut s = String::new();
        push_char(&mut s, '-');
        s.append(u64_to_decimal(mag).as_str());
        assert(s@ =~= seq!['-'] + decimal_spec((-(n as int)) as nat));
        s
    } else {
        u64_to_decimal(n as u64)
    }
}

/// Lowercase hexadecimal representation of bytes, two digits per byte.
pub fn to_hex_lower(b: &Vec<u8>) -> (r: String)
    ensures
        r@ == hex_spec(b@),
{
    let mut out = String::new();
    let mut i: usize = 0;
    while i < b.len()
        invariant
            i <= b.len(),
            out@ == hex_spec(b@.take(i as int)),
        decreases b.len() - i,
    {
        let byte = b[i];
        let hi = byte / 16;
        let lo = byte % 16;
        let chi = if hi < 10 {
            (48u8 + hi) as char
        } else {
            (87u8 + hi) as char
        };
        let clo = if lo < 10 {
            (48u8 + lo) as char
        } else {
            (87u8 + lo) as char
        };
        assert(b@.take(i + 1).drop_last() =~= b@.take(i as int));
        push_char(&mut out, chi);
        push_char(&mut out, clo);
        i = i + 1;
        assert(out@ =~= hex_spec(b@.take(i as int)));
    }
    assert(b@.take(b.len() as int) =~= b@);
    out
}

proof fn lemma_trim_start_skip(s: Seq<char>, i: int)
    requires
        0 <= i <= s.len(),
        forall|j: int| 0 <= j < i ==> is_whitespace_spec(s[j]),
    ensures
        trim_start_spec(s) == trim_start_spec(s.skip(i)),
    decreases i,
{
    if i > 0 {
        assert(s.skip(1) =~= s.drop_first());
        lemma_trim_start_skip(s.drop_first(), i - 1);
        assert(s.drop_first().skip(i - 1) =~= s.skip(i));
    } else {
        assert(s.skip(0) =~= s);
    }
}

proof fn lemma_trim_end_take(s: Seq<char>, k: int)
    requires
        0 <= k <= s.len(),
        forall|j: int| k <= j < s.len() ==> is_whitespace_spec(s[j]),
    ensures
        trim_end_spec(s) == trim_end_spec(s.take(k)),
    decreases s.len() - k,
{
    if k < s.len() {
        assert(s.take(s.len() - 1) =~= s.drop_last());
        lemma_trim_end_take(s.drop_last(), k);
        assert(s.drop_last().take(k) =~= s.take(k));
    } else {
        assert(s.take(k) =~= s);
    }
}

/// `s` without leading and trailing whitespace, as `str::trim` gives it.
pub fn trim(s: &str) -> (r: String)
    ensures
        r@ == trim_spec(s@),
{
    let cs = chars_of(s);
    let n = cs.len();
    let mut start: usize = 0;
    while start < n && is_whitespace(cs[start])
        invariant
            cs@ == s@,
            n == cs@.len(),
            start <= n,
            forall|j: int| 0 <= j < start ==> is_whitespace_spec(cs@[j]),
        decreases n - start,
    {
        start = start + 1;
    }
    proof {
        lemma_trim_start_skip(s@, start as int);
    }
    let ghost rest = s@.skip(start as int);
    assert(start == n || !is_whitespace_spec(rest[0]));
    assert(trim_start_spec(rest) == rest);
    let mut end: usize = n;
    while end > start && is_whitespace(cs[end - 1])
        invariant
            cs@ == s@,
            n == cs@.len(),
            start <= end <= n,
            rest == s@.skip(start as int),
            forall|j: int| end <= j < n ==> is_whitespace_spec(cs@[j]),
        decreases end - start,
    {
        end = end - 1;
    }
    proof {
        lemma_trim_end_take(rest, end - start);
        let t = rest.take(end - start);
        if t.len() > 0 {
            assert(t.last() == cs@[end - 1]);
        }
    }
    let mut out: Vec<char> = Vec::new();
    let mut k: usize = start;
    while k < end
        invariant
            start <= k <= end <= n,
            n == cs@.len(),
            out@ == cs@.subrange(start as int, k as int),
        decreases end - k,
    {
        out.push(cs[k]);
        k = k + 1;
        assert(out@ =~= cs@.subrange(start as int, k as int));
    }
    assert(out@ =~= rest.take(end - start));
    string_from_chars(&out)
}

/// The UTF-8 bytes of a string.
pub fn utf8_bytes(s: &str) -> (r: Vec<u8>)
    ensures
        r@ == encode_utf8(s@),
{
    s.as_bytes_vec()
}

/// Number of bytes of the UTF-8 encoding of `c`.
pub open spec fn char_width(c: char) -> nat {
    encode_scalar(c as u32).len()
}

/// Only ASCII characters.
pub open spec fn all_ascii(s: Seq<char>) -> bool {
    forall|i: int| 0 <= i < s.len() ==> (#[trigger] s[i] as u32) < 0x80
}

/// The longest prefix of `s` whose UTF-8 encoding takes at most `n` bytes.
pub open spec fn prefix_within(s: Seq<char>, n: nat) -> Seq<char>
    decreases s.len(),
{
    if byte_len(s) <= n || s.len() == 0 {
        s
    } else {
        prefix_within(s.drop_last(), n)
    }
}

/// `String::truncate(n)` does not panic on `s`: `n` is past the end or falls on a character boundary.
pub open spec fn truncatable(s: Seq<char>, n: nat) -> bool {
    byte_len(s) <= n || exists|k: int| 0 <= k <= s.len() && byte_len(#[trigger] s.take(k)) == n
}

pub proof fn lemma_encode_utf8_append(a: Seq<char>, b: Seq<char>)
    ensures
        encode_utf8(a + b) == encode_utf8(a) + encode_utf8(b),
    decreases a.len(),
{
    if a.len() == 0 {
        assert(a + b =~= b);
        assert(encode_utf8(a) + encode_utf8(b) =~= encode_utf8(b));
    } else {
        lemma_encode_utf8_append(a.drop_first(), b);
        assert((a + b).drop_first() =~= a.drop_first() + b);
        assert(encode_utf8(a + b) =~= encode_utf8(a) + encode_utf8(b));
    }
}

pub proof fn lemma_byte_len_push(s: Seq<char>, c: char)
    ensures
        byte_len(s.push(c)) == byte_len(s) + char_width(c),
        1 <= char_width(c) <= 4,
{
    lemma_encode_utf8_append(s, seq![c]);
    assert(s.push(c) =~= s + seq![c]);
    assert(seq![c].drop_first() =~= Seq::<char>::empty());
    assert(encode_utf8(Seq::<char>::empty()) =~= Seq::<u8>::empty());
    assert(encode_utf8(seq![c]) == encode_scalar(seq![c][0] as u32) + encode_utf8(seq![c].drop_first()));
    assert(encode_utf8(seq![c]) =~= encode_scalar(c as u32));
}

pub proof fn lemma_byte_len_append(a: Seq<char>, b: Seq<char>)
    ensures
        byte_len(a + b) == byte_len(a) + byte_len(b),
{
    lemma_encode_utf8_append(a, b);
}

pub proof fn lemma_byte_len_ascii(s: Seq<char>)
    requires
        all_ascii(s),
    ensures
        byte_len(s) == s.len(),
    decreases s.len(),
{
    if s.len() > 0 {
        lemma_byte_len_ascii(s.drop_last());
        lemma_byte_len_push(s.drop_last(), s.last());
        assert(s.drop_last().push(s.last()) =~= s);
        assert((s.last() as u32) < 0x80);
    }
}

pub proof fn lemma_byte_len_take_monotonic(s: Seq<char>, i: int, j: int)
    requires
        0 <= i <= j <= s.len(),
    ensures
        byte_len(s.take(i)) <= byte_len(s.take(j)),
        i < j ==> byte_len(s.take(i)) < byte_len(s.take(j)),
    decreases j - i,
{
    if i < j {
        lemma_byte_len_take_monotonic(s, i, j - 1);
        lemma_byte_len_push(s.take(j - 1), s[j - 1]);
        assert(s.take(j - 1).push(s[j - 1]) =~= s.take(j));
    }
}

/// The prefix kept by truncation is a prefix of `s`, and takes at most `n` bytes;
/// exactly `n` when `s` takes more and `n` is a boundary.
pub proof fn lemma_prefix_within(s: Seq<char>, n: nat)
    ensures
        exists|k: int| 0 <= k <= s.len() && prefix_within(s, n) == s.take(k),
        byte_len(prefix_within(s, n)) <= n || prefix_within(s, n).len() == 0,
        truncatable(s, n) ==> byte_len(prefix_within(s, n)) <= n,
        truncatable(s, n) && byte_len(s) > n ==> byte_len(prefix_within(s, n)) == n,
    decreases s.len(),
{
    if byte_len(s) <= n || s.len() == 0 {
        assert(s.take(s.len() as int) =~= s);
        if s.len() == 0 {
            assert(encode_utf8(s) =~= Seq::<u8>::empty());
        }
    } else {
        let d = s.drop_last();
        lemma_prefix_within(d, n);
        let k0 = choose|k: int| 0 <= k <= d.len() && prefix_within(d, n) == d.take(k);
        assert(d.take(k0) =~= s.take(k0));
        lemma_byte_len_push(d, s.last());
        assert(d.push(s.last()) =~= s);
        if truncatable(s, n) {
            let k = choose|k: int| 0 <= k <= s.len() && byte_len(#[trigger] s.take(k)) == n;
            if k == s.len() {
                assert(s.take(k) =~= s);
            }
            assert(k < s.len());
            assert(s.take(k) =~= d.take(k));
            assert(truncatable(d, n));
            if byte_len(d) <= n {
                lemma_byte_len_take_monotonic(d, k, d.len() as int);
                assert(d.take(d.len() as int) =~= d);
            }
        }
        if prefix_within(d, n).len() == 0 {
            assert(encode_utf8(prefix_within(d, n)) =~= Seq::<u8>::empty());
        }
    }
}

/// Whether the first `n` bytes of `s` end on a character boundary (or `s` is no longer than `n` bytes).
pub fn is_byte_boundary(s: &str, n: usize) -> (r: bool)
    ensures
        r == truncatable(s@, n as nat),
{
    let cs = chars_of(s);
    let len = cs.len();
    let mut used: usize = 0;
    let mut i: usize = 0;
    proof {
        assert(encode_utf8(Seq::<char>::empty()) =~= Seq::<u8>::empty());
        assert(s@.take(0) =~= Seq::<char>::empty());
    }
    while i < len
        invariant
            cs@ == s@,
            len == cs@.len(),
            i <= len,
            used == byte_len(s@.take(i as int)),
            used <= n,
        decreases len - i,
    {
        if used == n {
            return true;
        }
        let w = char_width_exec(cs[i]);
        proof {
            lemma_byte_len_push(s@.take(i as int), s@[i as int]);
            assert(s@.take(i as int).push(s@[i as int]) =~= s@.take(i + 1));
        }
        if w > n - used {
            proof {
                assert forall|k: int| 0 <= k <= s@.len() implies byte_len(#[trigger] s@.take(k)) != n by {
                    if k <= i {
                        lemma_byte_len_take_monotonic(s@, k, i as int);
                    } else {
                        lemma_byte_len_take_monotonic(s@, i + 1, k);
                    }
                }
                lemma_byte_len_take_monotonic(s@, i + 1, len as int);
                assert(s@.take(len as int) =~= s@);
            }
            return false;
        }
        used = used + w;
        i = i + 1;
    }
    proof {
        assert(s@.take(len as int) =~= s@);
    }
    true
}

/// `base` joined with `rel` as `Path::join` does on Unix: `rel` itself when it is
/// absolute, otherwise `base`, a `/` unless `base` is empty or already ends with one, and `rel`.
pub open spec fn path_join_spec(base: Seq<char>, rel: Seq<char>) -> Seq<char> {
    if rel.len() > 0 && rel[0] == '/' {
        rel
    } else if base.len() == 0 || base.last() == '/' {
        base + rel
    } else {
        base + seq!['/'] + rel
    }
}

/// `base` joined with `rel` as `Path::join` does on Unix.
pub fn path_join(base: &str, rel: &str) -> (r: String)
    ensures
        r@ == path_join_spec(base@, rel@),
{
    if starts_with_char(rel, '/') {
        return copy_string(rel);
    }
    let n = base.unicode_len();
    let mut out = copy_string(base);
    if n > 0 && base.get_char(n - 1) != '/' {
        push_char(&mut out, '/');
    }
    out.append(rel);
    out
}

/// Length in bytes of the UTF-8 encoding of `s`, as `str::len` gives it.
pub fn byte_length(s: &str) -> (r: usize)
    ensures
        r == byte_len(s@),
{
    let b = s.as_bytes();
    assert(b@ == encode_utf8(s@));
    b.len()
}

/// Width in bytes of the UTF-8 encoding of `c`.
pub fn char_width_exec(c: char) -> (r: usize)
    ensures
        r == char_width(c),
        1 <= r <= 4,
{
    let v = c as u32;
    proof {
        char_is_scalar(c);
    }
    if v <= 0x7F {
        1
    } else if v <= 0x7FF {
        2
    } else if v <= 0xFFFF {
        3
    } else {
        4
    }
}

/// `s` truncated to its first `n` bytes, as `String::truncate(n)` leaves it.
pub fn truncate_bytes(s: &str, n: usize) -> (r: String)
    requires
        truncatable(s@, n as nat),
    ensures
        r@ == prefix_within(s@, n as nat),
        byte_len(r@) <= n,
{
    let cs = chars_of(s);
    let len = cs.len();
    let mut out: Vec<char> = Vec::new();
    let mut used: usize = 0;
    let mut i: usize = 0;
    proof {
        assert(encode_utf8(Seq::<char>::empty()) =~= Seq::<u8>::empty());
        assert(s@.take(0) =~= Seq::<char>::empty());
    }
    while i < len
        invariant
            cs@ == s@,
            len == cs@.len(),
            i <= len,
            out@ == s@.take(i as int),
            used == byte_len(s@.take(i as int)),
            used <= n,
        ensures
            i <= len,
            out@ == s@.take(i as int),
            used == byte_len(s@.take(i as int)),
            used <= n,
            i == len || byte_len(s@.take(i + 1)) > n,
        decreases len - i,
    {
        let w = char_width_exec(cs[i]);
        proof {
            lemma_byte_len_push(s@.take(i as int), s@[i as int]);
            assert(s@.take(i as int).push(s@[i as int]) =~= s@.take(i + 1));
        }
        if w > n - used {
            break;
        }
        out.push(cs[i]);
        used = used + w;
        i = i + 1;
    }
    proof {
        lemma_prefix_within(s@, n as nat);
        let k = choose|k: int| 0 <= k <= s@.len() && prefix_within(s@, n as nat) == s@.take(k);
        if byte_len(s@) <= n {
            assert(s@.take(len as int) =~= s@);
            if i < len {
                lemma_byte_len_take_monotonic(s@, i + 1, len as int);
                lemma_byte_len_push(s@.take(i as int), s@[i as int]);
                assert(s@.take(i as int).push(s@[i as int]) =~= s@.take(i + 1));
            }
            assert(i == len);
        } else {
            if k < i {
                lemma_byte_len_take_monotonic(s@, k, i as int);
            } else if k > i {
                lemma_byte_len_take_monotonic(s@, i + 1, k);
                lemma_byte_len_push(s@.take(i as int), s@[i as int]);
                assert(s@.take(i as int).push(s@[i as int]) =~= s@.take(i + 1));
            }
        }
    }
    string_from_chars(&out)
}


// ------------------------------------------------------------------
// Laws
// ------------------------------------------------------------------

proof fn lemma_join_extend_last(p: Seq<Seq<char>>, sep: Seq<char>, c: char)
    requires
        p.len() > 0,
    ensures
        join_spec(p.update(p.len() - 1, p.last().push(c)), sep) == join_spec(p, sep).push(c),
{
    let q = p.update(p.len() - 1, p.last().push(c));
    if p.len() == 1 {
        assert(q[0] == p[0].push(c));
    } else {
        assert(q.drop_last() =~= p.drop_last());
        assert(q.last() == p.last().push(c));
        assert(join_spec(q, sep) =~= join_spec(p, sep).push(c));
    }
}

/// Splitting at a character and joining the pieces back with that character gives the
/// text back, and no piece holds the character.
pub proof fn lemma_split_then_join(s: Seq<char>, sep: char)
    ensures
        split_spec(s, sep).len() >= 1,
        join_spec(split_spec(s, sep), seq![sep]) == s,
        forall|i: int| 0 <= i < split_spec(s, sep).len() ==> !(#[trigger] split_spec(s, sep)[i]).contains(sep),
    decreases s.len(),
{
    if s.len() == 0 {
        assert(split_spec(s, sep)[0] =~= Seq::<char>::empty());
        assert(s =~= Seq::<char>::empty());
    } else {
        let init = s.drop_last();
        let prev = split_spec(init, sep);
        lemma_split_then_join(init, sep);
        if s.last() == sep {
            let p = prev.push(seq![]);
            assert(p.drop_last() =~= prev);
            assert(join_spec(p, seq![sep]) =~= s);
            assert forall|i: int| 0 <= i < p.len() implies !(#[trigger] p[i]).contains(sep) by {
                if i < prev.len() {
                    assert(p[i] == prev[i]);
                }
            }
        } else {
            let p = prev.update(prev.len() - 1, prev.last().push(s.last()));
            lemma_join_extend_last(prev, seq![sep], s.last());
            assert(init.push(s.last()) =~= s);
            assert forall|i: int| 0 <= i < p.len() implies !(#[trigger] p[i]).contains(sep) by {
                if i < prev.len() - 1 {
                    assert(p[i] == prev[i]);
                } else {
                    let x = prev.last();
                    assert(!x.contains(sep));
                    if p[i].contains(sep) {
                        let k = choose|k: int| 0 <= k < p[i].len() && p[i][k] == sep;
                        assert(p[i] == x.push(s.last()));
                        if k < x.len() {
                            assert(x[k] == sep);
                        }
                    }
                }
            }
        }
    }
}

/// Replacing a character by a text that does not hold it leaves no such character, and
/// a text without the character is left as it is.
pub proof fn lemma_replace_char_removes(s: Seq<char>, c: char, rep: Seq<char>)
    ensures
        !rep.contains(c) ==> !replace_char_spec(s, c, rep).contains(c),
        !s.contains(c) ==> replace_char_spec(s, c, rep) == s,
    decreases s.len(),
{
    if s.len() > 0 {
        let init = s.drop_last();
        lemma_replace_char_removes(init, c, rep);
        let head = replace_char_spec(init, c, rep);
        let tail = if s.last() == c {
            rep
        } else {
            seq![s.last()]
        };
        assert(replace_char_spec(s, c, rep) == head + tail);
        if !rep.contains(c) && (head + tail).contains(c) {
            let k = choose|k: int| 0 <= k < (head + tail).len() && (head + tail)[k] == c;
            if k < head.len() {
                assert(head[k] == c);
            } else {
                assert(tail[k - head.len()] == c);
            }
        }
        if !s.contains(c) {
            assert(!init.contains(c)) by {
                if init.contains(c) {
                    let k = choose|k: int| 0 <= k < init.len() && init[k] == c;
                    assert(s[k] == c);
                }
            }
            assert(s[s.len() - 1] == s.last());
            assert(head + tail =~= s);
        }
    }
}

/// The decimal form of a number is made of ASCII digits only, and has no leading zero
/// unless the number is zero.
pub proof fn lemma_decimal_digits(n: nat)
    ensures
        decimal_spec(n).len() >= 1,
        forall|i: int| 0 <= i < decimal_spec(n).len() ==> '0' <= #[trigger] decimal_spec(n)[i] <= '9',
        n != 0 ==> decimal_spec(n)[0] != '0',
        decimal_spec(n).last() == digit_char(n % 10),
        n < 10 <==> decimal_spec(n).len() == 1,
    decreases n,
{
    if n < 10 {
        assert(decimal_spec(n)[0] == digit_char(n));
        assert(48 <= (48 + n) as u8 <= 57);
        assert(n % 10 == n);
    } else {
        lemma_decimal_digits(n / 10);
        assert(n / 10 >= 1);
        let p = decimal_spec(n / 10);
        assert(decimal_spec(n) == p.push(digit_char(n % 10)));
        assert forall|i: int| 0 <= i < decimal_spec(n).len() implies '0' <= #[trigger] decimal_spec(n)[i] <= '9' by {
            if i < p.len() {
                assert(decimal_spec(n)[i] == p[i]);
            } else {
                assert(48 <= (48 + n % 10) as u8 <= 57);
            }
        }
        assert(decimal_spec(n)[0] == p[0]);
    }
}

/// The hexadecimal form of bytes has two lowercase hexadecimal digits per byte, in the
/// bytes' order: the high half of each byte, then its low half.
pub proof fn lemma_hex_digits(b: Seq<u8>)
    ensures
        hex_spec(b).len() == 2 * b.len(),
        forall|i: int| 0 <= i < b.len() ==> hex_spec(b)[2 * i] == hex_digit((#[trigger] b[i] / 16) as nat)
            && hex_spec(b)[2 * i + 1] == hex_digit((b[i] % 16) as nat),
        forall|i: int| 0 <= i < hex_spec(b).len() ==> ('0' <= #[trigger] hex_spec(b)[i] <= '9'
            || 'a' <= hex_spec(b)[i] <= 'f'),
    decreases b.len(),
{
    if b.len() > 0 {
        lemma_hex_digits(b.drop_last());
        let p = hex_spec(b.drop_last());
        let hi = (b.last() / 16) as nat;
        let lo = (b.last() % 16) as nat;
        assert(hi < 16 && lo < 16);
        assert forall|i: int| 0 <= i < b.len() implies hex_spec(b)[2 * i] == hex_digit((#[trigger] b[i] / 16) as nat)
            && hex_spec(b)[2 * i + 1] == hex_digit((b[i] % 16) as nat) by {
            if i < b.len() - 1 {
                assert(b[i] == b.drop_last()[i]);
                assert(hex_spec(b)[2 * i] == p[2 * i]);
                assert(hex_spec(b)[2 * i + 1] == p[2 * i + 1]);
            }
        }
        assert forall|i: int| 0 <= i < hex_spec(b).len() implies ('0' <= #[trigger] hex_spec(b)[i] <= '9'
            || 'a' <= hex_spec(b)[i] <= 'f') by {
            if i < p.len() {
                assert(hex_spec(b)[i] == p[i]);
            } else {
                let d = if i == p.len() { hi } else { lo };
                assert(hex_spec(b)[i] == hex_digit(d));
                if d < 10 {
                    assert(48 <= (48 + d) as u8 <= 57);
                } else {
                    assert(97 <= (87 + d) as u8 <= 102);
                }
            }
        }
    }
}

/// The index found for a character is that of its first occurrence; none is found only
/// when the text does not hold it.
pub proof fn lemma_find_none_or_first(s: Seq<char>, c: char)
    ensures
        match find_char_spec(s, c) {
            Some(i) => 0 <= i < s.len() && s[i] == c && !s.take(i).contains(c),
            None => !s.contains(c),
        },
    decreases s.len(),
{
    if s.len() > 0 {
        lemma_find_none_or_first(s.drop_first(), c);
        match find_char_spec(s, c) {
            Some(i) => {
                if i > 0 {
                    assert forall|j: int| 0 <= j < i implies s.take(i)[j] != c by {
                        if j > 0 {
                            assert(s.take(i)[j] == s.drop_first().take(i - 1)[j - 1]);
                        }
                    }
                }
            },
            None => {
                assert forall|j: int| 0 <= j < s.len() implies s[j] != c by {
                    if j > 0 {
                        assert(s[j] == s.drop_first()[j - 1]);
                    }
                }
            },
        }
    }
}

/// Joining a path onto a directory: an absolute path stands alone; otherwise it goes
/// after the directory, separated by one `/` unless the directory is empty or already
/// ends with one.
pub proof fn lemma_path_join_cases(base: Seq<char>, rel: Seq<char>)
    ensures
        rel.len() > 0 && rel[0] == '/' ==> path_join_spec(base, rel) == rel,
        !(rel.len() > 0 && rel[0] == '/') && base.len() > 0 && base.last() != '/' ==> path_join_spec(base, rel)
            == base + "/"@ + rel,
        !(rel.len() > 0 && rel[0] == '/') && (base.len() == 0 || base.last() == '/') ==> path_join_spec(base, rel)
            == base + rel,
        path_join_spec(base, rel).len() >= rel.len(),
        path_join_spec(base, rel).subrange(path_join_spec(base, rel).len() - rel.len(), path_join_spec(base, rel).len() as int)
            == rel,
{
    reveal_strlit("/");
    assert("/"@ =~= seq!['/']);
    let j = path_join_spec(base, rel);
    assert(j.subrange(j.len() - rel.len(), j.len() as int) =~= rel);
}

/// Trimmed text neither starts nor ends with whitespace, and trimming it again changes nothing.
pub proof fn lemma_trim_leaves_no_edge_space(s: Seq<char>)
    ensures
        trim_spec(s).len() > 0 ==> !is_whitespace_spec(trim_spec(s)[0]),
        trim_spec(s).len() > 0 ==> !is_whitespace_spec(trim_spec(s).last()),
        trim_spec(trim_spec(s)) == trim_spec(s),
{
    lemma_trim_start_edge(s);
    let t = trim_start_spec(s);
    lemma_trim_end_keeps_start(t);
    lemma_trim_end_edge(t);
    let u = trim_end_spec(t);
    if u.len() > 0 {
        assert(!is_whitespace_spec(u[0]));
    }
    assert(trim_start_spec(u) == u);
    assert(trim_end_spec(u) == u);
}

proof fn lemma_trim_start_edge(s: Seq<char>)
    ensures
        trim_start_spec(s).len() > 0 ==> !is_whitespace_spec(trim_start_spec(s)[0]),
    decreases s.len(),
{
    if s.len() > 0 && is_whitespace_spec(s[0]) {
        lemma_trim_start_edge(s.drop_first());
    }
}

proof fn lemma_trim_end_edge(s: Seq<char>)
    ensures
        trim_end_spec(s).len() > 0 ==> !is_whitespace_spec(trim_end_spec(s).last()),
    decreases s.len(),
{
    if s.len() > 0 && is_whitespace_spec(s.last()) {
        lemma_trim_end_edge(s.drop_last());
    }
}

/// Removing trailing whitespace from a text that does not start with whitespace keeps a
/// first character that is not whitespace, and is a prefix of it.
proof fn lemma_trim_end_keeps_start(s: Seq<char>)
    requires
        s.len() > 0 ==> !is_whitespace_spec(s[0]),
    ensures
        trim_end_spec(s).len() > 0 ==> !is_whitespace_spec(trim_end_spec(s)[0]),
        trim_end_spec(s).len() <= s.len(),
        trim_end_spec(s) == s.take(trim_end_spec(s).len() as int),
    decreases s.len(),
{
    if s.len() > 0 && is_whitespace_spec(s.last()) {
        let d = s.drop_last();
        lemma_trim_end_keeps_start(d);
        let t = trim_end_spec(d);
        assert(t =~= s.take(t.len() as int));
        if t.len() > 0 {
            assert(t[0] == s[0]);
        }
    } else {
        assert(s.take(s.len() as int) =~= s);
    }
}

} // verus!
