//! Character-level helpers shared by the parsers and command builders.

use vstd::prelude::*;

verus! {

/// `String::push` appends one character at the end of the string.
pub assume_specification[ String::push ](s: &mut String, ch: char)
    ensures
        final(s)@ == old(s)@.push(ch),
;

/// The ASCII digit for a value below ten.
pub open spec fn digit_char(d: nat) -> char {
    ((48 + d) as u32) as char
}

/// Decimal rendering of a natural number, without sign or leading zeros.
pub open spec fn decimal(n: nat) -> Seq<char>
    decreases n,
{
    if n < 10 {
        seq![digit_char(n)]
    } else {
        decimal(n / 10).push(digit_char(n % 10))
    }
}

fn digit(d: u64) -> (c: char)
    requires
        d < 10,
    ensures
        c == digit_char(d as nat),
{
    let b: u8 = 48u8 + (d as u8);
    b as char
}

/// Appends the decimal form of `n`.
pub fn push_decimal(s: &mut String, n: u64)
    ensures
        final(s)@ == old(s)@ + decimal(n as nat),
    decreases n,
{
    if n >= 10 {
        push_decimal(s, n / 10);
    }
    let c = digit(n % 10);
    s.push(c);
    assert(final(s)@ =~= old(s)@ + decimal(n as nat)) by {
        if n >= 10 {
            assert(decimal(n as nat) == decimal((n / 10) as nat).push(digit_char((n % 10) as nat)));
        }
    }
}

/// Character equality of two string slices.
pub fn str_eq(a: &str, b: &str) -> (r: bool)
    ensures
        r == (a@ == b@),
{
    let n = a.unicode_len();
    let m = b.unicode_len();
    if n != m {
        return false;
    }
    let mut i: usize = 0;
    while i < n
        invariant
            n == a@.len(),
            m == b@.len(),
            n == m,
            i <= n,
            forall|j: int| 0 <= j < i ==> a@[j] == b@[j],
        decreases n - i,
    {
        if a.get_char(i) != b.get_char(i) {
            return false;
        }
        i += 1;
    }
    assert(a@ =~= b@);
    true
}

/// The characters of a string slice.
pub fn chars_of(s: &str) -> (v: Vec<char>)
    ensures
        v@ == s@,
{
    let n = s.unicode_len();
    let mut v: Vec<char> = Vec::new();
    let mut i: usize = 0;
    while i < n
        invariant
            n == s@.len(),
            i <= n,
            v@ == s@.subrange(0, i as int),
        decreases n - i,
    {
        v.push(s.get_char(i));
        i += 1;
        assert(v@ =~= s@.subrange(0, i as int));
    }
    assert(s@.subrange(0, n as int) =~= s@);
    v
}

/// A new string holding the given characters.
pub fn string_from_chars(c: &[char]) -> (s: String)
    ensures
        s@ == c@,
{
    let mut s = String::new();
    let mut i: usize = 0;
    while i < c.len()
        invariant
            i <= c@.len(),
            s@ == c@.subrange(0, i as int),
        decreases c@.len() - i,
    {
        s.push(c[i]);
        i += 1;
        assert(s@ =~= c@.subrange(0, i as int));
    }
    assert(c@.subrange(0, c@.len() as int) =~= c@);
    s
}

/// An owned copy of a string slice.
pub fn owned(s: &str) -> (r: String)
    ensures
        r@ == s@,
{
    String::from_str(s)
}

/// Appends a string slice.
pub fn push_all(s: &mut String, t: &str)
    ensures
        final(s)@ == old(s)@ + t@,
{
    s.append(t);
}

// ============================================================================
// Whitespace and trimming
// ============================================================================

/// Unicode `White_Space` characters, the set `char::is_whitespace` accepts.
pub open spec fn is_ws(c: char) -> bool {
    let u = c as u32;
    (0x09 <= u && u <= 0x0D) || u == 0x20 || u == 0x85 || u == 0xA0 || u == 0x1680 || (0x2000
        <= u && u <= 0x200A) || u == 0x2028 || u == 0x2029 || u == 0x202F || u == 0x205F || u
        == 0x3000
}

/// Whether `c` is whitespace.
pub fn char_is_ws(c: char) -> (r: bool)
    ensures
        r == is_ws(c),
{
    let u = c as u32;
    (0x09 <= u && u <= 0x0D) || u == 0x20 || u == 0x85 || u == 0xA0 || u == 0x1680 || (0x2000
        <= u && u <= 0x200A) || u == 0x2028 || u == 0x2029 || u == 0x202F || u == 0x205F || u
        == 0x3000
}

/// `s` without leading whitespace.
pub open spec fn trim_start(s: Seq<char>) -> Seq<char>
    decreases s.len(),
{
    if s.len() > 0 && is_ws(s[0]) {
        trim_start(s.drop_first())
    } else {
        s
    }
}

/// `s` without trailing whitespace.
pub open spec fn trim_end(s: Seq<char>) -> Seq<char>
    decreases s.len(),
{
    if s.len() > 0 && is_ws(s.last()) {
        trim_end(s.drop_last())
    } else {
        s
    }
}

/// `s` without leading and trailing whitespace, as `str::trim` gives it.
pub open spec fn trim(s: Seq<char>) -> Seq<char> {
    trim_end(trim_start(s))
}

/// Bounds of the trimmed part of `v`: `v[a..b]` is `trim(v)`.
pub fn trim_bounds(v: &[char]) -> (r: (usize, usize))
    ensures
        r.0 <= r.1 <= v@.len(),
        v@.subrange(r.0 as int, r.1 as int) == trim(v@),
{
    let n = v.len();
    let mut a: usize = 0;
    assert(v@.subrange(0, n as int) =~= v@);
    while a < n && char_is_ws(v[a])
        invariant
            n == v@.len(),
            a <= n,
            trim_start(v@) == trim_start(v@.subrange(a as int, n as int)),
        decreases n - a,
    {
        assert(v@.subrange(a as int, n as int).drop_first() =~= v@.subrange(a + 1, n as int));
        a += 1;
    }
    let mut b: usize = n;
    while b > a && char_is_ws(v[b - 1])
        invariant
            n == v@.len(),
            a <= b <= n,
            trim_start(v@) == v@.subrange(a as int, n as int),
            trim_end(v@.subrange(a as int, n as int)) == trim_end(v@.subrange(a as int, b as int)),
        decreases b - a,
    {
        assert(v@.subrange(a as int, b as int).drop_last() =~= v@.subrange(a as int, b - 1));
        b -= 1;
    }
    (a, b)
}

/// The trimmed characters of `v`.
pub fn trimmed(v: &[char]) -> (r: Vec<char>)
    ensures
        r@ == trim(v@),
{
    let (a, b) = trim_bounds(v);
    slice_to_vec(v, a, b)
}

/// The characters `v[a..b]`.
pub fn slice_to_vec(v: &[char], a: usize, b: usize) -> (r: Vec<char>)
    requires
        a <= b <= v@.len(),
    ensures
        r@ == v@.subrange(a as int, b as int),
{
    let mut r: Vec<char> = Vec::new();
    let mut i = a;
    while i < b
        invariant
            a <= i <= b <= v@.len(),
            r@ == v@.subrange(a as int, i as int),
        decreases b - i,
    {
        r.push(v[i]);
        i += 1;
        assert(r@ =~= v@.subrange(a as int, i as int));
    }
    r
}

// ============================================================================
// Substring search
// ============================================================================

/// `p` occurs in `s` at position `i`.
pub open spec fn occurs_at(s: Seq<char>, p: Seq<char>, i: int) -> bool {
    0 <= i && i + p.len() <= s.len() && s.subrange(i, i + p.len()) == p
}

/// `s` begins with `p`.
pub open spec fn starts_with(s: Seq<char>, p: Seq<char>) -> bool {
    occurs_at(s, p, 0)
}

/// First position at or after `i` where `p` occurs in `s`.
pub open spec fn find_from(s: Seq<char>, p: Seq<char>, i: int) -> Option<int>
    decreases s.len() + 1 - i,
{
    if i < 0 || i > s.len() {
        None
    } else if occurs_at(s, p, i) {
        Some(i)
    } else {
        find_from(s, p, i + 1)
    }
}

/// First position of `p` in `s`.
pub open spec fn find(s: Seq<char>, p: Seq<char>) -> Option<int> {
    find_from(s, p, 0)
}

/// `p` occurs somewhere in `s`.
pub open spec fn contains(s: Seq<char>, p: Seq<char>) -> bool {
    find(s, p) is Some
}

/// Whether `p` occurs at position `i` of `s`.
pub fn occurs_at_exec(s: &[char], p: &[char], i: usize) -> (r: bool)
    ensures
        r == occurs_at(s@, p@, i as int),
{
    let n = s.len();
    if i > n || p.len() > n - i {
        return false;
    }
    let mut k: usize = 0;
    while k < p.len()
        invariant
            n == s@.len(),
            i + p@.len() <= n,
            k <= p@.len(),
            forall|j: int| 0 <= j < k ==> s@[i + j] == p@[j],
        decreases p@.len() - k,
    {
        if s[i + k] != p[k] {
            assert(s@.subrange(i as int, i + p@.len())[k as int] != p@[k as int]);
            return false;
        }
        k += 1;
    }
    assert(s@.subrange(i as int, i + p@.len()) =~= p@);
    true
}

/// First position of `p` in `s`.
pub fn find_exec(s: &[char], p: &[char]) -> (r: Option<usize>)
    ensures
        r matches Some(i) ==> find(s@, p@) == Some(i as int),
        r is None ==> find(s@, p@) is None,
{
    let n = s.len();
    let mut i: usize = 0;
    loop
        invariant
            n == s@.len(),
            i <= n,
            find(s@, p@) == find_from(s@, p@, i as int),
        decreases n - i,
    {
        if occurs_at_exec(s, p, i) {
            return Some(i);
        }
        if i == n {
            assert(find_from(s@, p@, n + 1) is None);
            return None;
        }
        i += 1;
    }
}

/// Whether `p` occurs in `s`.
pub fn contains_exec(s: &[char], p: &[char]) -> (r: bool)
    ensures
        r == contains(s@, p@),
{
    find_exec(s, p).is_some()
}

/// Whether `s` begins with `p`.
pub fn starts_with_exec(s: &[char], p: &[char]) -> (r: bool)
    ensures
        r == starts_with(s@, p@),
{
    occurs_at_exec(s, p, 0)
}

// ============================================================================
// Splitting
// ============================================================================

/// First position at or after `i` where `c` occurs in `s`.
pub open spec fn index_of_after(s: Seq<char>, c: char, i: int) -> Option<int>
    decreases s.len() - i,
{
    if i < 0 || i >= s.len() {
        None
    } else if s[i] == c {
        Some(i)
    } else {
        index_of_after(s, c, i + 1)
    }
}

/// First position of `c` in `s`.
pub open spec fn index_of(s: Seq<char>, c: char) -> Option<int> {
    index_of_after(s, c, 0)
}

proof fn lemma_index_of_after_bounds(s: Seq<char>, c: char, i: int)
    ensures
        index_of_after(s, c, i) matches Some(k) ==> i <= k < s.len() && s[k] == c,
    decreases s.len() - i,
{
    if 0 <= i < s.len() && s[i] != c {
        lemma_index_of_after_bounds(s, c, i + 1);
    }
}

proof fn lemma_index_of_after_shift(s: Seq<char>, c: char, from: int, i: int)
    requires
        0 <= from <= i <= s.len(),
    ensures
        index_of_after(s.subrange(from, s.len() as int), c, i - from) == (match index_of_after(
            s,
            c,
            i,
        ) {
            Some(k) => Some(k - from),
            None => None,
        }),
    decreases s.len() - i,
{
    if i < s.len() && s[i] != c {
        lemma_index_of_after_shift(s, c, from, i + 1);
    }
}

/// The pieces of `s` between occurrences of `c`, as `str::split` gives them.
pub open spec fn split_char(s: Seq<char>, c: char) -> Seq<Seq<char>>
    decreases s.len(),
{
    match index_of(s, c) {
        Some(i) => if 0 <= i < s.len() {
            seq![s.subrange(0, i)] + split_char(s.subrange(i + 1, s.len() as int), c)
        } else {
            seq![s]
        },
        None => seq![s],
    }
}

/// `s` without one trailing carriage return.
pub open spec fn strip_cr(s: Seq<char>) -> Seq<char> {
    if s.len() > 0 && s.last() == '\r' {
        s.drop_last()
    } else {
        s
    }
}

/// The lines of `s`, as `str::lines` gives them: split at `\n`, a trailing `\r`
/// removed from each line, no line after a final line ending.
pub open spec fn lines(s: Seq<char>) -> Seq<Seq<char>>
    decreases s.len(),
{
    if s.len() == 0 {
        Seq::empty()
    } else {
        match index_of(s, '\n') {
            Some(i) => if 0 <= i < s.len() {
                seq![strip_cr(s.subrange(0, i))] + lines(s.subrange(i + 1, s.len() as int))
            } else {
                seq![strip_cr(s)]
            },
            None => seq![strip_cr(s)],
        }
    }
}

/// The views of a list of character vectors.
pub open spec fn char_views(v: Seq<Vec<char>>) -> Seq<Seq<char>> {
    v.map_values(|x: Vec<char>| x@)
}

/// First position of `c` in `s` at or after `from`.
pub fn index_of_from(s: &[char], c: char, from: usize) -> (r: Option<usize>)
    requires
        from <= s@.len(),
    ensures
        r matches Some(i) ==> index_of(s@.subrange(from as int, s@.len() as int), c) == Some(
            i - from,
        ) && from <= i < s@.len(),
        r is None ==> index_of(s@.subrange(from as int, s@.len() as int), c) is None,
{
    let n = s.len();
    let mut i = from;
    while i < n
        invariant
            n == s@.len(),
            from <= i <= n,
            index_of_after(s@, c, from as int) == index_of_after(s@, c, i as int),
        decreases n - i,
    {
        if s[i] == c {
            proof {
                assert(index_of_after(s@, c, i as int) == Some(i as int));
                lemma_index_of_after_shift(s@, c, from as int, from as int);
                assert(index_of_after(s@.subrange(from as int, n as int), c, 0) == Some(
                    (i - from) as int,
                ));
            }
            return Some(i);
        }
        i += 1;
    }
    proof {
        lemma_index_of_after_shift(s@, c, from as int, from as int);
    }
    None
}

proof fn lemma_split_step(t: Seq<char>, c: char, k: int)
    requires
        index_of(t, c) == Some(k),
        0 <= k < t.len(),
    ensures
        split_char(t, c) == seq![t.subrange(0, k)] + split_char(t.subrange(k + 1, t.len() as int), c),
{
}

proof fn lemma_split_last(t: Seq<char>, c: char)
    requires
        index_of(t, c) is None,
    ensures
        split_char(t, c) == seq![t],
{
}

proof fn lemma_lines_step(t: Seq<char>, k: int)
    requires
        t.len() > 0,
        index_of(t, '\n') == Some(k),
        0 <= k < t.len(),
    ensures
        lines(t) == seq![strip_cr(t.subrange(0, k))] + lines(t.subrange(k + 1, t.len() as int)),
{
}

proof fn lemma_lines_last(t: Seq<char>)
    requires
        t.len() > 0,
        index_of(t, '\n') is None,
    ensures
        lines(t) == seq![strip_cr(t)],
{
}

/// Splits `s` at every `c`.
pub fn split_at_char(s: &[char], c: char) -> (r: Vec<Vec<char>>)
    ensures
        char_views(r@) == split_char(s@, c),
{
    let mut out: Vec<Vec<char>> = Vec::new();
    let mut start: usize = 0;
    let n = s.len();
    assert(s@.subrange(0, n as int) =~= s@);
    assert(char_views(out@) =~= Seq::<Seq<char>>::empty());
    loop
        invariant
            n == s@.len(),
            start <= n,
            char_views(out@) + split_char(s@.subrange(start as int, n as int), c) == split_char(
                s@,
                c,
            ),
        decreases n - start,
    {
        let ghost t = s@.subrange(start as int, n as int);
        match index_of_from(s, c, start) {
            Some(i) => {
                let piece = slice_to_vec(s, start, i);
                proof {
                    lemma_split_step(t, c, i - start);
                    assert(t.subrange(0, i - start) =~= piece@);
                    assert(t.subrange(i - start + 1, t.len() as int) =~= s@.subrange(
                        i + 1,
                        n as int,
                    ));
                }
                let ghost prev = out@;
                out.push(piece);
                proof {
                    assert(char_views(out@) =~= char_views(prev).push(piece@));
                    assert(char_views(out@) + split_char(s@.subrange(i + 1, n as int), c)
                        =~= char_views(prev) + split_char(t, c));
                }
                start = i + 1;
            },
            None => {
                let piece = slice_to_vec(s, start, n);
                proof {
                    lemma_split_last(t, c);
                }
                let ghost prev = out@;
                out.push(piece);
                proof {
                    assert(char_views(out@) =~= char_views(prev).push(piece@));
                    assert(char_views(out@) =~= char_views(prev) + split_char(t, c));
                }
                return out;
            },
        }
    }
}

/// Splits `s` into lines.
pub fn split_lines(s: &[char]) -> (r: Vec<Vec<char>>)
    ensures
        char_views(r@) == lines(s@),
{
    let mut out: Vec<Vec<char>> = Vec::new();
    let mut start: usize = 0;
    let n = s.len();
    assert(s@.subrange(0, n as int) =~= s@);
    assert(char_views(out@) =~= Seq::<Seq<char>>::empty());
    loop
        invariant
            n == s@.len(),
            start <= n,
            char_views(out@) + lines(s@.subrange(start as int, n as int)) == lines(s@),
        decreases n - start,
    {
        let ghost t = s@.subrange(start as int, n as int);
        if start == n {
            assert(t.len() == 0);
            assert(char_views(out@) + lines(t) =~= char_views(out@));
            return out;
        }
        let found = index_of_from(s, '\n', start);
        let end = match found {
            Some(i) => i,
            None => n,
        };
        let mut stop = end;
        if stop > start && s[stop - 1] == '\r' {
            stop = stop - 1;
        }
        let piece = slice_to_vec(s, start, stop);
        let ghost prev = out@;
        out.push(piece);
        proof {
            assert(char_views(out@) =~= char_views(prev).push(piece@));
            if end < n {
                lemma_lines_step(t, end - start);
                assert(t.subrange(0, end - start) =~= s@.subrange(start as int, end as int));
                assert(piece@ =~= strip_cr(t.subrange(0, end - start)));
                assert(t.subrange(end - start + 1, t.len() as int) =~= s@.subrange(
                    end + 1,
                    n as int,
                ));
                assert(char_views(out@) + lines(s@.subrange(end + 1, n as int)) =~= char_views(prev)
                    + lines(t));
            } else {
                lemma_lines_last(t);
                assert(piece@ =~= strip_cr(t));
                assert(lines(s@.subrange(n as int, n as int)) =~= Seq::<Seq<char>>::empty());
                assert(char_views(out@) + lines(s@.subrange(n as int, n as int)) =~= char_views(
                    prev,
                ) + lines(t));
            }
        }
        if end == n {
            start = n;
        } else {
            start = end + 1;
        }
    }
}

// ============================================================================
// Decimal parsing
// ============================================================================

/// Whether `c` is an ASCII digit.
pub open spec fn is_digit(c: char) -> bool {
    '0' <= c && c <= '9'
}

/// Value of a string of ASCII digits.
pub open spec fn digits_value(d: Seq<char>) -> nat
    decreases d.len(),
{
    if d.len() == 0 {
        0
    } else {
        digits_value(d.drop_last()) * 10 + ((d.last() as u32) - 48) as nat
    }
}

/// The digits of a decimal number: `s` without one leading `+`.
pub open spec fn unsigned_digits(s: Seq<char>) -> Seq<char> {
    if s.len() > 0 && s[0] == '+' {
        s.drop_first()
    } else {
        s
    }
}

/// What `str::parse` gives for an unsigned integer type whose largest value is
/// `max`: an optional `+`, then at least one ASCII digit, and a value that fits.
pub open spec fn parse_unsigned(s: Seq<char>, max: nat) -> Option<nat> {
    let d = unsigned_digits(s);
    if d.len() == 0 {
        None
    } else if exists|i: int| 0 <= i < d.len() && !is_digit(#[trigger] d[i]) {
        None
    } else if digits_value(d) > max {
        None
    } else {
        Some(digits_value(d))
    }
}

/// Parses an unsigned decimal no larger than `max`, as `str::parse` does.
pub fn parse_unsigned_exec(s: &[char], max: u64) -> (r: Option<u64>)
    ensures
        r matches Some(v) ==> parse_unsigned(s@, max as nat) == Some(v as nat) && v <= max,
        r is None ==> parse_unsigned(s@, max as nat) is None,
{
    let n = s.len();
    let start: usize = if n > 0 && s[0] == '+' {
        1
    } else {
        0
    };
    let ghost d = unsigned_digits(s@);
    assert(d =~= s@.subrange(start as int, n as int));
    if start == n {
        return None;
    }
    let cap: u128 = max as u128 + 1;
    let mut acc: u128 = 0;
    let mut i: usize = start;
    while i < n
        invariant
            n == s@.len(),
            start <= i <= n,
            d == s@.subrange(start as int, n as int),
            d == unsigned_digits(s@),
            cap == max + 1,
            forall|j: int| 0 <= j < i - start ==> is_digit(d[j]),
            acc == (if digits_value(d.subrange(0, i - start)) < cap {
                digits_value(d.subrange(0, i - start))
            } else {
                cap as nat
            }),
        decreases n - i,
    {
        let c = s[i];
        if !('0' <= c && c <= '9') {
            assert(d[i - start] == c);
            assert(!is_digit(d[i - start]));
            assert(exists|k: int| 0 <= k < d.len() && !is_digit(#[trigger] d[k]));
            return None;
        }
        let dv = (c as u32 - 48) as u128;
        proof {
            let pre = d.subrange(0, i - start);
            let nxt = d.subrange(0, i - start + 1);
            assert(nxt.drop_last() =~= pre);
            assert(nxt.last() == c);
        }
        let next = acc * 10 + dv;
        acc = if next < cap {
            next
        } else {
            cap
        };
        i += 1;
    }
    assert(d.subrange(0, d.len() as int) =~= d);
    if acc >= cap {
        None
    } else {
        Some(acc as u64)
    }
}

// ============================================================================
// Unicode case and character classes
// ============================================================================

/// What `str::to_lowercase` gives for a string (Unicode lowercase mapping).
pub uninterp spec fn lowercase(s: Seq<char>) -> Seq<char>;

/// What `char::is_alphanumeric` gives for a character.
pub uninterp spec fn unicode_alphanumeric(c: char) -> bool;

/// ASCII letters and digits.
pub open spec fn ascii_alphanumeric(c: char) -> bool {
    ('0' <= c && c <= '9') || ('a' <= c && c <= 'z') || ('A' <= c && c <= 'Z')
}

/// Calls `str::to_lowercase`: the Unicode lowercase form of `s`.
#[verifier::external_body]
pub(crate) fn to_lowercase(s: &str) -> (r: String)
    ensures
        r@ == lowercase(s@),
{
    s.to_lowercase()
}

/// Calls `char::is_alphanumeric`: whether `c` is alphabetic or numeric in Unicode;
/// among ASCII characters exactly the letters and digits.
#[verifier::external_body]
pub(crate) fn is_alphanumeric(c: char) -> (r: bool)
    ensures
        r == unicode_alphanumeric(c),
        (c as u32) < 128 ==> (r == ascii_alphanumeric(c)),
{
    c.is_alphanumeric()
}

} // verus!
