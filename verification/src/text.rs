//! Character-level string helpers shared by the rest of the library.
use vstd::prelude::*;

verus! {

/// The characters of `s`, in order.
pub fn chars_of(s: &str) -> (v: Vec<char>)
    ensures
        v@ == s@,
{
    let mut v: Vec<char> = Vec::new();
    for c in it: s.chars()
        invariant
            v@ == it.seq().take(it.index() as int),
    {
        v.push(c);
    }
    v
}

/// Collects characters into a `String` (`FromIterator<char>` of std).
#[verifier::external_body]
pub(crate) fn string_of(v: &[char]) -> (s: String)
    ensures
        s@ == v@,
{
    v.iter().collect()
}

/// The concatenation of `a` and `b`.
pub fn concat(a: &str, b: &str) -> (r: String)
    ensures
        r@ == a@ + b@,
{
    let mut r = a.to_owned();
    r.append(b);
    r
}

/// The concatenation of `a`, `b` and `c`.
pub fn concat3(a: &str, b: &str, c: &str) -> (r: String)
    ensures
        r@ == a@ + b@ + c@,
{
    let mut r = a.to_owned();
    r.append(b);
    r.append(c);
    r
}

/// Whether two string slices hold the same characters.
pub fn str_eq(a: &str, b: &str) -> (r: bool)
    ensures
        r == (a@ == b@),
{
    let x = chars_of(a);
    let y = chars_of(b);
    seq_eq(&x, &y)
}

/// Whether two character vectors are equal.
pub fn seq_eq(x: &Vec<char>, y: &Vec<char>) -> (r: bool)
    ensures
        r == (x@ == y@),
{
    if x.len() != y.len() {
        return false;
    }
    let mut i: usize = 0;
    while i < x.len()
        invariant
            x.len() == y.len(),
            i <= x.len(),
            forall|j: int| 0 <= j < i ==> x@[j] == y@[j],
        decreases x.len() - i,
    {
        if x[i] != y[i] {
            return false;
        }
        i += 1;
    }
    assert(x@ =~= y@);
    true
}

/// Whether `pattern` occurs in `s` starting at position `i`.
pub open spec fn occurs_at(s: Seq<char>, pattern: Seq<char>, i: int) -> bool {
    0 <= i && i + pattern.len() <= s.len() && s.subrange(i, i + pattern.len()) == pattern
}

/// Whether `pattern` occurs anywhere in `s`.
pub open spec fn contains_seq(s: Seq<char>, pattern: Seq<char>) -> bool {
    exists|i: int| occurs_at(s, pattern, i)
}

/// Whether `pattern` occurs in `s` at position `i` (exec).
pub fn matches_at(s: &Vec<char>, pattern: &Vec<char>, i: usize) -> (r: bool)
    requires
        i <= s.len(),
    ensures
        r == occurs_at(s@, pattern@, i as int),
{
    if pattern.len() > s.len() - i {
        return false;
    }
    let mut k: usize = 0;
    while k < pattern.len()
        invariant
            i + pattern.len() <= s.len(),
            k <= pattern.len(),
            forall|j: int| 0 <= j < k ==> s@[i + j] == pattern@[j],
        decreases pattern.len() - k,
    {
        if s[i + k] != pattern[k] {
            assert(s@.subrange(i as int, i + pattern.len())[k as int] != pattern@[k as int]);
            return false;
        }
        k += 1;
    }
    assert(s@.subrange(i as int, i + pattern.len()) =~= pattern@);
    true
}

/// Whether `pattern` occurs in `s` (`str::contains` with a string pattern).
pub fn contains(s: &str, pattern: &str) -> (r: bool)
    ensures
        r == contains_seq(s@, pattern@),
{
    let sv = chars_of(s);
    let pv = chars_of(pattern);
    let mut i: usize = 0;
    while i < sv.len()
        invariant
            sv@ == s@,
            pv@ == pattern@,
            i <= sv.len(),
            forall|j: int| 0 <= j < i ==> !occurs_at(s@, pattern@, j),
        decreases sv.len() - i,
    {
        if matches_at(&sv, &pv, i) {
            return true;
        }
        i += 1;
    }
    if matches_at(&sv, &pv, i) {
        return true;
    }
    assert forall|j: int| !occurs_at(s@, pattern@, j) by {
        if 0 <= j && j + pattern@.len() <= s@.len() {
            assert(j <= sv.len());
        }
    }
    false
}

/// Whether `s` begins with `prefix`.
pub open spec fn has_prefix(s: Seq<char>, prefix: Seq<char>) -> bool {
    prefix.len() <= s.len() && s.take(prefix.len() as int) == prefix
}

/// Whether `s` ends with `suffix`.
pub open spec fn has_suffix(s: Seq<char>, suffix: Seq<char>) -> bool {
    suffix.len() <= s.len() && s.skip(s.len() - suffix.len()) == suffix
}

/// Whether `s` begins with `prefix` (`str::starts_with`).
pub fn starts_with(s: &str, prefix: &str) -> (r: bool)
    ensures
        r == has_prefix(s@, prefix@),
{
    let sv = chars_of(s);
    let pv = chars_of(prefix);
    let r = matches_at(&sv, &pv, 0);
    assert(sv@.subrange(0, pv@.len() as int) =~= sv@.take(pv@.len() as int));
    r
}

/// Whether `s` ends with `suffix` (`str::ends_with`).
pub fn ends_with(s: &str, suffix: &str) -> (r: bool)
    ensures
        r == has_suffix(s@, suffix@),
{
    let sv = chars_of(s);
    let pv = chars_of(suffix);
    if pv.len() > sv.len() {
        return false;
    }
    let r = matches_at(&sv, &pv, sv.len() - pv.len());
    assert(sv@.subrange(sv@.len() - pv@.len(), sv@.len() as int) =~= sv@.skip(sv@.len() - pv@.len()));
    r
}

// ---------------------------------------------------------------------------
// ASCII case folding

/// ASCII lower-casing of one character (`char::to_ascii_lowercase`).
pub open spec fn ascii_lower(c: char) -> char {
    if 'A' <= c && c <= 'Z' {
        ((c as u32) + 32) as char
    } else {
        c
    }
}

/// ASCII lower-casing of a character sequence (`str::to_ascii_lowercase`).
pub open spec fn ascii_lower_seq(s: Seq<char>) -> Seq<char> {
    s.map_values(|c: char| ascii_lower(c))
}

/// ASCII lower-casing of one character.
pub fn lower_char(c: char) -> (r: char)
    ensures
        r == ascii_lower(c),
{
    if 'A' <= c && c <= 'Z' {
        let b: u8 = c as u8;
        (b + 32) as char
    } else {
        c
    }
}

/// ASCII lower-casing of a string.
pub fn to_ascii_lowercase(s: &str) -> (r: String)
    ensures
        r@ == ascii_lower_seq(s@),
{
    let v = chars_of(s);
    let mut out: Vec<char> = Vec::new();
    let mut i: usize = 0;
    while i < v.len()
        invariant
            v@ == s@,
            i <= v.len(),
            out@ == ascii_lower_seq(s@.take(i as int)),
        decreases v.len() - i,
    {
        let c = lower_char(v[i]);
        out.push(c);
        assert(ascii_lower_seq(s@.take(i + 1)) =~= ascii_lower_seq(s@.take(i as int)).push(
            ascii_lower(s@[i as int]),
        ));
        i += 1;
    }
    assert(s@.take(v.len() as int) =~= s@);
    string_of(&out)
}


// ---------------------------------------------------------------------------
// Unicode white space, words and lines

/// The Unicode `White_Space` property (`char::is_whitespace`).
pub open spec fn is_white(c: char) -> bool {
    ||| ('\u{9}' <= c && c <= '\u{d}')
    ||| c == ' '
    ||| c == '\u{85}'
    ||| c == '\u{a0}'
    ||| c == '\u{1680}'
    ||| ('\u{2000}' <= c && c <= '\u{200a}')
    ||| c == '\u{2028}'
    ||| c == '\u{2029}'
    ||| c == '\u{202f}'
    ||| c == '\u{205f}'
    ||| c == '\u{3000}'
}

/// Whether `c` is Unicode white space.
pub fn is_whitespace(c: char) -> (r: bool)
    ensures
        r == is_white(c),
{
    ('\u{9}' <= c && c <= '\u{d}') || c == ' ' || c == '\u{85}' || c == '\u{a0}' || c == '\u{1680}'
        || ('\u{2000}' <= c && c <= '\u{200a}') || c == '\u{2028}' || c == '\u{2029}' || c
        == '\u{202f}' || c == '\u{205f}' || c == '\u{3000}'
}

/// Position `i` of `s` starts a word: a non-space character at the start or after a space.
pub open spec fn starts_word(s: Seq<char>, i: int) -> bool {
    !is_white(s[i]) && (i == 0 || is_white(s[i - 1]))
}

/// The number of words among the first `n` characters of `s`.
pub open spec fn words_in_prefix(s: Seq<char>, n: nat) -> nat
    decreases n,
{
    if n == 0 {
        0
    } else {
        words_in_prefix(s, (n - 1) as nat) + if starts_word(s, n - 1) {
            1nat
        } else {
            0nat
        }
    }
}

/// The number of maximal runs of non-white-space characters (`str::split_whitespace().count()`).
pub open spec fn word_count(s: Seq<char>) -> nat {
    words_in_prefix(s, s.len())
}

/// The number of `'\n'` among the first `n` characters of `s`.
pub open spec fn newlines_in_prefix(s: Seq<char>, n: nat) -> nat
    decreases n,
{
    if n == 0 {
        0
    } else {
        newlines_in_prefix(s, (n - 1) as nat) + if s[n - 1] == '\n' {
            1nat
        } else {
            0nat
        }
    }
}

/// The number of lines (`str::lines().count()`): one per line feed, plus an unterminated last line.
pub open spec fn line_count(s: Seq<char>) -> nat {
    newlines_in_prefix(s, s.len()) + if s.len() > 0 && s.last() != '\n' {
        1nat
    } else {
        0nat
    }
}

proof fn lemma_words_bounded(s: Seq<char>, n: nat)
    ensures
        words_in_prefix(s, n) <= n,
    decreases n,
{
    if n > 0 {
        lemma_words_bounded(s, (n - 1) as nat);
    }
}

proof fn lemma_newlines_bounded(s: Seq<char>, n: nat)
    ensures
        newlines_in_prefix(s, n) <= n,
    decreases n,
{
    if n > 0 {
        lemma_newlines_bounded(s, (n - 1) as nat);
    }
}

/// Word and line counts of a text, as the status footer shows them.
pub fn text_metrics(markdown: &str) -> (r: (usize, usize))
    ensures
        r.0 == word_count(markdown@),
        r.1 == line_count(markdown@),
{
    let v = chars_of(markdown);
    let mut words: usize = 0;
    let mut newlines: usize = 0;
    let mut i: usize = 0;
    while i < v.len()
        invariant
            v@ == markdown@,
            i <= v.len(),
            words == words_in_prefix(markdown@, i as nat),
            newlines == newlines_in_prefix(markdown@, i as nat),
        decreases v.len() - i,
    {
        proof {
            lemma_words_bounded(markdown@, i as nat);
            lemma_newlines_bounded(markdown@, i as nat);
        }
        let c = v[i];
        if !is_whitespace(c) && (i == 0 || is_whitespace(v[i - 1])) {
            words += 1;
        }
        if c == '\n' {
            newlines += 1;
        }
        i += 1;
    }
    let mut lines = newlines;
    proof {
        lemma_newlines_bounded(markdown@, v.len() as nat);
    }
    if v.len() > 0 && v[v.len() - 1] != '\n' {
        proof {
            lemma_newlines_bounded(markdown@, (v.len() - 1) as nat);
        }
        lines += 1;
    }
    (words, lines)
}

// ---------------------------------------------------------------------------
// Trimming

/// The characters of `s` without leading and trailing white space (`str::trim`).
pub open spec fn trimmed(s: Seq<char>) -> Seq<char>
    decreases s.len(),
{
    if s.len() == 0 {
        s
    } else if is_white(s[0]) {
        trimmed(s.skip(1))
    } else if is_white(s.last()) {
        trimmed(s.drop_last())
    } else {
        s
    }
}

/// Whether `s` holds nothing but white space.
pub open spec fn all_white(s: Seq<char>) -> bool {
    forall|i: int| 0 <= i < s.len() ==> is_white(#[trigger] s[i])
}

proof fn lemma_trimmed_empty(s: Seq<char>)
    ensures
        (trimmed(s).len() == 0) == all_white(s),
    decreases s.len(),
{
    if s.len() == 0 {
    } else if is_white(s[0]) {
        lemma_trimmed_empty(s.skip(1));
        if all_white(s.skip(1)) {
            assert forall|i: int| 0 <= i < s.len() implies is_white(#[trigger] s[i]) by {
                if i > 0 {
                    assert(s[i] == s.skip(1)[i - 1]);
                }
            }
        } else {
            let k = choose|k: int| 0 <= k < s.skip(1).len() && !is_white(#[trigger] s.skip(1)[k]);
            assert(s[k + 1] == s.skip(1)[k]);
        }
    } else if is_white(s.last()) {
        assert(!is_white(s[0]));
        lemma_trimmed_empty(s.drop_last());
        assert(s.drop_last()[0] == s[0]);
    } else {
    }
}

/// Whether `s` is empty after trimming white space.
pub fn is_blank(s: &str) -> (r: bool)
    ensures
        r == (trimmed(s@).len() == 0),
{
    proof {
        lemma_trimmed_empty(s@);
    }
    let v = chars_of(s);
    let mut i: usize = 0;
    while i < v.len()
        invariant
            v@ == s@,
            i <= v.len(),
            forall|j: int| 0 <= j < i ==> is_white(#[trigger] s@[j]),
        decreases v.len() - i,
    {
        if !is_whitespace(v[i]) {
            assert(!is_white(s@[i as int]));
            assert(!all_white(s@));
            proof {
                lemma_trimmed_empty(s@);
            }
            return false;
        }
        i += 1;
    }
    true
}

// ---------------------------------------------------------------------------
// Decimal numbers

/// The decimal digit for `d < 10`.
pub open spec fn digit_char(d: nat) -> char {
    if d == 0 {
        '0'
    } else if d == 1 {
        '1'
    } else if d == 2 {
        '2'
    } else if d == 3 {
        '3'
    } else if d == 4 {
        '4'
    } else if d == 5 {
        '5'
    } else if d == 6 {
        '6'
    } else if d == 7 {
        '7'
    } else if d == 8 {
        '8'
    } else {
        '9'
    }
}

/// The decimal representation of `n`, as `format!("{n}")` writes it.
pub open spec fn decimal(n: nat) -> Seq<char>
    decreases n,
{
    if n < 10 {
        seq![digit_char(n)]
    } else {
        decimal(n / 10).push(digit_char(n % 10))
    }
}

fn digit(d: u64) -> (c: char)
    requires
        d < 10,
    ensures
        c == digit_char(d as nat),
{
    if d == 0 {
        '0'
    } else if d == 1 {
        '1'
    } else if d == 2 {
        '2'
    } else if d == 3 {
        '3'
    } else if d == 4 {
        '4'
    } else if d == 5 {
        '5'
    } else if d == 6 {
        '6'
    } else if d == 7 {
        '7'
    } else if d == 8 {
        '8'
    } else {
        '9'
    }
}

/// The decimal representation of `n`.
pub fn u128_to_string(n: u128) -> (r: String)
    ensures
        r@ == decimal(n as nat),
{
    let mut rev: Vec<char> = Vec::new();
    let mut m: u128 = n;
    // digits are produced from the least significant one
    let ghost mut suffix: Seq<char> = seq![];
    rev.push(digit((m % 10) as u64));
    proof {
        suffix = seq![digit_char((n % 10) as nat)];
    }
    m = m / 10;
    while m > 0
        invariant
            m <= n,
            decimal(n as nat) == (if m == 0 { seq![] } else { decimal(m as nat) }) + suffix,
            rev@.len() == suffix.len(),
            forall|j: int| 0 <= j < suffix.len() ==> #[trigger] rev@[j] == suffix[suffix.len() - 1 - j],
            m == 0 ==> suffix == decimal(n as nat),
        decreases m,
    {
        let d = digit((m % 10) as u64);
        proof {
            assert(decimal(m as nat) == decimal((m / 10) as nat).push(digit_char((m % 10) as nat))
                || m < 10);
            let old_suffix = suffix;
            suffix = seq![d] + suffix;
            if m < 10 {
                assert(decimal(m as nat) =~= seq![d]);
            } else {
                assert(decimal(m as nat) =~= decimal((m / 10) as nat) + seq![d]);
            }
            assert(decimal(n as nat) =~= (if m / 10 == 0 { seq![] } else { decimal((m / 10) as nat) })
                + suffix);
        }
        rev.push(d);
        m = m / 10;
    }
    let mut out: Vec<char> = Vec::new();
    let mut i: usize = rev.len();
    while i > 0
        invariant
            i <= rev.len(),
            rev@.len() == suffix.len(),
            forall|j: int| 0 <= j < suffix.len() ==> #[trigger] rev@[j] == suffix[suffix.len() - 1 - j],
            out@ == suffix.take(rev.len() - i),
        decreases i,
    {
        i -= 1;
        out.push(rev[i]);
        assert(suffix.take(rev.len() - i) =~= suffix.take(rev.len() - i - 1).push(
            suffix[rev.len() - i - 1],
        ));
    }
    assert(suffix.take(rev.len() as int) =~= suffix);
    string_of(&out)
}

/// The decimal representation of `n`.
pub fn u64_to_string(n: u64) -> (r: String)
    ensures
        r@ == decimal(n as nat),
{
    u128_to_string(n as u128)
}

proof fn lemma_trimmed_subrange(s: Seq<char>, a: int, b: int)
    requires
        0 <= a <= b <= s.len(),
        forall|i: int| 0 <= i < a ==> is_white(#[trigger] s[i]),
        forall|i: int| b <= i < s.len() ==> is_white(#[trigger] s[i]),
        a < b ==> !is_white(s[a]) && !is_white(s[b - 1]),
    ensures
        trimmed(s) == s.subrange(a, b),
    decreases s.len(),
{
    if s.len() == 0 {
        assert(s.subrange(a, b) =~= s);
    } else if is_white(s[0]) {
        let t = s.skip(1);
        if a == 0 {
            assert(b == 0);
            lemma_trimmed_subrange(t, 0, 0);
            assert(s.subrange(a, b) =~= t.subrange(0, 0));
        } else {
            assert forall|i: int| 0 <= i < a - 1 implies is_white(#[trigger] t[i]) by {
                assert(t[i] == s[i + 1]);
            }
            assert forall|i: int| b - 1 <= i < t.len() implies is_white(#[trigger] t[i]) by {
                assert(t[i] == s[i + 1]);
            }
            lemma_trimmed_subrange(t, a - 1, b - 1);
            assert(s.subrange(a, b) =~= t.subrange(a - 1, b - 1));
        }
    } else if is_white(s.last()) {
        let t = s.drop_last();
        assert(a == 0);
        assert(b < s.len());
        lemma_trimmed_subrange(t, a, b);
        assert(s.subrange(a, b) =~= t.subrange(a, b));
    } else {
        assert(a == 0);
        assert(b == s.len());
        assert(s.subrange(a, b) =~= s);
    }
}

/// `s` without leading and trailing white space (`str::trim`).
pub fn trim(s: &str) -> (r: String)
    ensures
        r@ == trimmed(s@),
{
    let v = chars_of(s);
    let mut a: usize = 0;
    while a < v.len() && is_whitespace(v[a])
        invariant
            v@ == s@,
            a <= v.len(),
            forall|i: int| 0 <= i < a ==> is_white(#[trigger] s@[i]),
        decreases v.len() - a,
    {
        a += 1;
    }
    let mut b: usize = v.len();
    while b > a && is_whitespace(v[b - 1])
        invariant
            v@ == s@,
            a <= b <= v.len(),
            forall|i: int| b <= i < s@.len() ==> is_white(#[trigger] s@[i]),
        decreases b,
    {
        b -= 1;
    }
    proof {
        lemma_trimmed_subrange(s@, a as int, b as int);
    }
    let mut out: Vec<char> = Vec::new();
    let mut i: usize = a;
    while i < b
        invariant
            v@ == s@,
            a <= i <= b <= v.len(),
            out@ == s@.subrange(a as int, i as int),
        decreases b - i,
    {
        out.push(v[i]);
        assert(s@.subrange(a as int, i + 1) =~= s@.subrange(a as int, i as int).push(s@[i as int]));
        i += 1;
    }
    string_of(&out)
}

// ---------------------------------------------------------------------------
// Replacement

/// `s` with every non-overlapping occurrence of `from`, scanned left to right, replaced by
/// `to` (`str::replace` with a non-empty pattern).
pub open spec fn replaced(s: Seq<char>, from: Seq<char>, to: Seq<char>) -> Seq<char>
    decreases s.len(),
{
    if s.len() == 0 {
        s
    } else if from.len() > 0 && has_prefix(s, from) {
        to + replaced(s.skip(from.len() as int), from, to)
    } else {
        seq![s[0]] + replaced(s.skip(1), from, to)
    }
}

/// Where `to` begins with `<` and `p` holds no `<`, a text with every `from` written as `to`
/// begins with `p` only if the text itself does.
pub proof fn lemma_replaced_prefix(t: Seq<char>, from: Seq<char>, to: Seq<char>, p: Seq<char>)
    requires
        from.len() > 0,
        to.len() > 0,
        to[0] == '<',
        forall|k: int| 0 <= k < p.len() ==> p[k] != '<',
        has_prefix(replaced(t, from, to), p),
    ensures
        has_prefix(t, p),
    decreases p.len(),
{
    let r = replaced(t, from, to);
    if p.len() == 0 {
        assert(t.take(0) =~= p);
    } else {
        assert(r.take(p.len() as int)[0] == p[0]);
        if t.len() == 0 {
            assert(r.len() == 0);
        } else if has_prefix(t, from) {
            assert(r == to + replaced(t.skip(from.len() as int), from, to));
            assert(r[0] == to[0]);
        } else {
            let t1 = t.skip(1);
            let r1 = replaced(t1, from, to);
            assert(r == seq![t[0]] + r1);
            assert(r1.take(p.len() - 1) =~= p.skip(1)) by {
                assert forall|k: int| 0 <= k < p.len() - 1 implies r1.take(p.len() - 1)[k] == p.skip(
                    1,
                )[k] by {
                    assert(r1[k] == r[k + 1]);
                    assert(r.take(p.len() as int)[k + 1] == p[k + 1]);
                }
            }
            lemma_replaced_prefix(t1, from, to, p.skip(1));
            assert(t.take(p.len() as int) =~= p) by {
                assert forall|k: int| 0 <= k < p.len() implies t.take(p.len() as int)[k] == p[k] by {
                    if k == 0 {
                        assert(r[0] == t[0]);
                    } else {
                        assert(t[k] == t1[k - 1]);
                        assert(t1.take(p.len() - 1)[k - 1] == p.skip(1)[k - 1]);
                    }
                }
            }
        }
    }
}

/// Writing every `from` as `to` leaves no `from` behind, where `from` begins with its only
/// `<`, and `to` begins with its only `<`, is at least as long as `from` and does not begin
/// with it.
pub proof fn lemma_replaced_leaves_no_pattern(s: Seq<char>, from: Seq<char>, to: Seq<char>)
    requires
        from.len() >= 1,
        from[0] == '<',
        forall|k: int| 1 <= k < from.len() ==> from[k] != '<',
        to.len() >= from.len(),
        to[0] == '<',
        forall|k: int| 1 <= k < to.len() ==> to[k] != '<',
        to.take(from.len() as int) != from,
    ensures
        !contains_seq(replaced(s, from, to), from),
    decreases s.len(),
{
    let r = replaced(s, from, to);
    let n = from.len() as int;
    if s.len() == 0 {
        assert forall|i: int| !occurs_at(r, from, i) by {}
    } else if has_prefix(s, from) {
        let rest = s.skip(n);
        lemma_replaced_leaves_no_pattern(rest, from, to);
        let r1 = replaced(rest, from, to);
        assert(r == to + r1);
        assert forall|i: int| !occurs_at(r, from, i) by {
            if occurs_at(r, from, i) {
                if i == 0 {
                    assert(r.subrange(0, n) =~= to.take(n));
                } else if i < to.len() {
                    assert(r.subrange(i, i + n)[0] == r[i]);
                    assert(r[i] == to[i]);
                } else {
                    let j = i - to.len();
                    assert(r1.subrange(j, j + n) =~= r.subrange(i, i + n));
                    assert(occurs_at(r1, from, j));
                }
            }
        }
    } else {
        let rest = s.skip(1);
        lemma_replaced_leaves_no_pattern(rest, from, to);
        let r1 = replaced(rest, from, to);
        assert(r == seq![s[0]] + r1);
        assert forall|i: int| !occurs_at(r, from, i) by {
            if occurs_at(r, from, i) {
                if i == 0 {
                    assert(r.subrange(0, n)[0] == from[0]);
                    assert(r1.take(n - 1) =~= from.skip(1)) by {
                        assert forall|k: int| 0 <= k < n - 1 implies r1.take(n - 1)[k] == from.skip(
                            1,
                        )[k] by {
                            assert(r1[k] == r[k + 1]);
                            assert(r.subrange(0, n)[k + 1] == from[k + 1]);
                        }
                    }
                    lemma_replaced_prefix(rest, from, to, from.skip(1));
                    assert(s.take(n) =~= from) by {
                        assert forall|k: int| 0 <= k < n implies s.take(n)[k] == from[k] by {
                            if k == 0 {
                                assert(r[0] == s[0]);
                            } else {
                                assert(s[k] == rest[k - 1]);
                                assert(rest.take(n - 1)[k - 1] == from.skip(1)[k - 1]);
                            }
                        }
                    }
                } else {
                    assert(r1.subrange(i - 1, i - 1 + n) =~= r.subrange(i, i + n));
                    assert(occurs_at(r1, from, i - 1));
                }
            }
        }
    }
}

/// Appends every character of `t` to `out`.
pub fn extend_chars(out: &mut Vec<char>, t: &Vec<char>)
    ensures
        final(out)@ == old(out)@ + t@,
{
    let mut i: usize = 0;
    while i < t.len()
        invariant
            i <= t.len(),
            out@ == old(out)@ + t@.take(i as int),
        decreases t.len() - i,
    {
        out.push(t[i]);
        assert(t@.take(i + 1) =~= t@.take(i as int).push(t@[i as int]));
        i += 1;
    }
    assert(t@.take(t.len() as int) =~= t@);
}

/// `s` with every occurrence of the non-empty `from` replaced by `to`.
pub fn replace(s: &str, from: &str, to: &str) -> (r: String)
    requires
        from@.len() > 0,
    ensures
        r@ == replaced(s@, from@, to@),
{
    let v = chars_of(s);
    let f = chars_of(from);
    let t = chars_of(to);
    let mut out: Vec<char> = Vec::new();
    let mut i: usize = 0;
    assert(s@.skip(0) =~= s@);
    assert(out@ + replaced(s@.skip(0), from@, to@) =~= replaced(s@, from@, to@));
    while i < v.len()
        invariant
            v@ == s@,
            f@ == from@,
            t@ == to@,
            f@.len() > 0,
            i <= v.len(),
            out@ + replaced(s@.skip(i as int), from@, to@) == replaced(s@, from@, to@),
        decreases v.len() - i,
    {
        let ghost rest = s@.skip(i as int);
        if matches_at(&v, &f, i) {
            assert(rest.take(from@.len() as int) =~= s@.subrange(i as int, i + from@.len()));
            assert(rest.skip(from@.len() as int) =~= s@.skip(i + from@.len()));
            extend_chars(&mut out, &t);
            assert(out@ + replaced(s@.skip(i + f.len()), from@, to@) =~= replaced(s@, from@, to@));
            i += f.len();
        } else {
            proof {
                if from@.len() <= rest.len() {
                    assert(rest.take(from@.len() as int) =~= s@.subrange(i as int, i + from@.len()));
                }
            }
            assert(rest.skip(1) =~= s@.skip(i + 1));
            assert(rest[0] == v@[i as int]);
            out.push(v[i]);
            assert(out@ + replaced(s@.skip(i + 1), from@, to@) =~= replaced(s@, from@, to@));
            i += 1;
        }
    }
    assert(s@.skip(v.len() as int) =~= seq![]);
    assert(out@ =~= replaced(s@, from@, to@));
    string_of(&out)
}

/// The UTF-16 code units of one character: itself below `0x10000`, a surrogate pair above.
pub open spec fn utf16_units_of_char(c: char) -> Seq<u16> {
    let v = c as u32;
    if v < 0x10000 {
        seq![v as u16]
    } else {
        seq![(0xD800 + (v - 0x10000) / 0x400) as u16, (0xDC00 + (v - 0x10000) % 0x400) as u16]
    }
}

/// The UTF-16 encoding of `s`.
pub open spec fn utf16_units(s: Seq<char>) -> Seq<u16>
    decreases s.len(),
{
    if s.len() == 0 {
        Seq::empty()
    } else {
        utf16_units_of_char(s[0]) + utf16_units(s.skip(1))
    }
}

/// `value` in UTF-16, ended by a zero unit, as the Windows interfaces take text.
pub fn wide(value: &str) -> (r: Vec<u16>)
    ensures
        r@ == utf16_units(value@).push(0),
{
    let v = chars_of(value);
    let mut out: Vec<u16> = Vec::new();
    let mut i: usize = 0;
    assert(value@.skip(0) =~= value@);
    assert(out@ + utf16_units(value@.skip(0)) =~= utf16_units(value@));
    while i < v.len()
        invariant
            v@ == value@,
            i <= v.len(),
            out@ + utf16_units(value@.skip(i as int)) == utf16_units(value@),
        decreases v.len() - i,
    {
        let c = v[i];
        let ghost before = out@;
        let ghost rest = value@.skip(i as int);
        assert(rest.skip(1) =~= value@.skip(i + 1));
        assert(utf16_units(rest) == utf16_units_of_char(c) + utf16_units(value@.skip(i + 1)));
        let code: u32 = c as u32;
        proof {
            vstd::utf8::char_is_scalar(c);
        }
        if code < 0x10000 {
            out.push(code as u16);
        } else {
            let offset: u32 = code - 0x10000;
            assert(code <= 0x10FFFF);
            assert(offset / 0x400 < 0x400) by (nonlinear_arith)
                requires
                    offset < 0x100000,
            ;
            out.push((0xD800 + offset / 0x400) as u16);
            out.push((0xDC00 + offset % 0x400) as u16);
        }
        assert(out@ =~= before + utf16_units_of_char(c));
        assert(out@ + utf16_units(value@.skip(i + 1)) =~= before + (utf16_units_of_char(c)
            + utf16_units(value@.skip(i + 1))));
        i += 1;
    }
    assert(value@.skip(v.len() as int) =~= Seq::<char>::empty());
    assert(out@ =~= utf16_units(value@));
    out.push(0);
    out
}

} // verus!
