//! Text utilities shared by the client: character sequences, decimal
//! rendering, whitespace handling and case-insensitive comparison.
use vstd::prelude::*;

verus! {

// ==================== Strings and character vectors ====================

/// The characters of a string, in order.
pub fn chars_of(s: &str) -> (v: Vec<char>)
    ensures
        v@ == s@,
{
    let mut v: Vec<char> = Vec::new();
    for c in it: s.chars()
        invariant
            v@ == it.seq().take(it.index() as int),
    {
        v.push(c);
    }
    v
}

/// Appends one character to a string: `std::string::String::push`.
/// Claimed: the string afterwards is the old one followed by `c`.
#[verifier::external_body]
pub(crate) fn push_char(s: &mut String, c: char)
    ensures
        final(s)@ == old(s)@.push(c),
{
    s.push(c);
}

/// Appends the characters of `v` to `s`.
pub fn push_chars(s: &mut String, v: &[char])
    ensures
        final(s)@ == old(s)@ + v@,
{
    let ghost start = s@;
    let mut i: usize = 0;
    while i < v.len()
        invariant
            i <= v.len(),
            s@ == start + v@.take(i as int),
        decreases v.len() - i,
    {
        push_char(s, v[i]);
        proof {
            assert(v@.take(i + 1) =~= v@.take(i as int).push(v@[i as int]));
        }
        i = i + 1;
    }
    proof {
        assert(v@.take(v.len() as int) =~= v@);
    }
}

/// Appends the characters of `t` to `s`.
pub fn push_str(s: &mut String, t: &str)
    ensures
        final(s)@ == old(s)@ + t@,
{
    let v = chars_of(t);
    push_chars(s, v.as_slice());
}

/// A string holding exactly the characters of `v`.
pub fn string_from_chars(v: &[char]) -> (s: String)
    ensures
        s@ == v@,
{
    let mut s = String::new();
    push_chars(&mut s, v);
    proof {
        assert(Seq::<char>::empty() + v@ =~= v@);
    }
    s
}

/// A fresh copy of `t`.
pub fn string_of(t: &str) -> (s: String)
    ensures
        s@ == t@,
{
    let mut s = String::new();
    push_str(&mut s, t);
    proof {
        assert(Seq::<char>::empty() + t@ =~= t@);
    }
    s
}

/// Two character sequences are equal.
pub fn chars_eq(a: &[char], b: &[char]) -> (r: bool)
    ensures
        r == (a@ == b@),
{
    if a.len() != b.len() {
        return false;
    }
    let mut i: usize = 0;
    while i < a.len()
        invariant
            i <= a.len(),
            a.len() == b.len(),
            forall|j: int| 0 <= j < i ==> a@[j] == b@[j],
        decreases a.len() - i,
    {
        if a[i] != b[i] {
            return false;
        }
        i = i + 1;
    }
    proof {
        assert(a@ =~= b@);
    }
    true
}

/// Two strings hold the same characters.
pub fn str_eq(a: &str, b: &str) -> (r: bool)
    ensures
        r == (a@ == b@),
{
    let va = chars_of(a);
    let vb = chars_of(b);
    chars_eq(va.as_slice(), vb.as_slice())
}

/// `p` is a prefix of `s`.
pub fn starts_with(s: &str, p: &str) -> (r: bool)
    ensures
        r == (p@.len() <= s@.len() && s@.take(p@.len() as int) == p@),
{
    let vs = chars_of(s);
    let vp = chars_of(p);
    if vp.len() > vs.len() {
        return false;
    }
    let mut i: usize = 0;
    while i < vp.len()
        invariant
            i <= vp.len() <= vs.len(),
            vs@ == s@,
            vp@ == p@,
            forall|j: int| 0 <= j < i ==> vs@[j] == vp@[j],
        decreases vp.len() - i,
    {
        if vs[i] != vp[i] {
            proof {
                assert(s@.take(p@.len() as int)[i as int] != p@[i as int]);
            }
            return false;
        }
        i = i + 1;
    }
    proof {
        assert(s@.take(p@.len() as int) =~= p@);
    }
    true
}

// ==================== Decimal rendering ====================

/// The digit character for `d` (0 to 9).
pub open spec fn digit_char(d: nat) -> char {
    (48 + d) as char
}

/// The decimal digits of `n`, most significant first, with no leading zeros.
pub open spec fn dec_digits(n: nat) -> Seq<char>
    decreases n,
{
    if n < 10 {
        seq![digit_char(n)]
    } else {
        dec_digits(n / 10).push(digit_char(n % 10))
    }
}

fn digit(d: u64) -> (c: char)
    requires
        d < 10,
    ensures
        c == digit_char(d as nat),
{
    let b: u8 = 48u8 + d as u8;
    b as char
}

/// Appends the decimal digits of `n` to `s`.
pub fn push_decimal(s: &mut String, n: u64)
    ensures
        final(s)@ == old(s)@ + dec_digits(n as nat),
    decreases n,
{
    if n >= 10 {
        push_decimal(s, n / 10);
    }
    let c = digit(n % 10);
    push_char(s, c);
    proof {
        if n >= 10 {
            assert(dec_digits(n as nat) == dec_digits((n / 10) as nat).push(digit_char((n % 10) as nat)));
        } else {
            assert(dec_digits(n as nat) == seq![digit_char(n as nat)]);
        }
    }
}

/// The decimal rendering of `n` (as `n.to_string()`).
pub fn u64_to_decimal(n: u64) -> (s: String)
    ensures
        s@ == dec_digits(n as nat),
{
    let mut s = String::new();
    push_decimal(&mut s, n);
    proof {
        assert(Seq::<char>::empty() + dec_digits(n as nat) =~= dec_digits(n as nat));
    }
    s
}

// ==================== Whitespace ====================

/// The characters with the Unicode `White_Space` property, which is what
/// `char::is_whitespace` tests.
pub open spec fn is_ws(c: char) -> bool {
    ||| ('\u{9}' <= c && c <= '\u{d}')
    ||| c == ' '
    ||| c == '\u{85}'
    ||| c == '\u{a0}'
    ||| c == '\u{1680}'
    ||| ('\u{2000}' <= c && c <= '\u{200a}')
    ||| c == '\u{2028}'
    ||| c == '\u{2029}'
    ||| c == '\u{202f}'
    ||| c == '\u{205f}'
    ||| c == '\u{3000}'
}

/// Whether `c` is Unicode whitespace.
pub fn is_whitespace(c: char) -> (r: bool)
    ensures
        r == is_ws(c),
{
    ('\u{9}' <= c && c <= '\u{d}') || c == ' ' || c == '\u{85}' || c == '\u{a0}' || c
        == '\u{1680}' || ('\u{2000}' <= c && c <= '\u{200a}') || c == '\u{2028}' || c
        == '\u{2029}' || c == '\u{202f}' || c == '\u{205f}' || c == '\u{3000}'
}

/// `s` without its trailing whitespace (as `str::trim_end`).
pub open spec fn trim_end(s: Seq<char>) -> Seq<char>
    decreases s.len(),
{
    if s.len() > 0 && is_ws(s.last()) {
        trim_end(s.drop_last())
    } else {
        s
    }
}

/// `trim_end` removes only a suffix.
pub proof fn lemma_trim_end_prefix(s: Seq<char>)
    ensures
        trim_end(s).len() <= s.len(),
        trim_end(s) == s.take(trim_end(s).len() as int),
    decreases s.len(),
{
    if s.len() > 0 && is_ws(s.last()) {
        lemma_trim_end_prefix(s.drop_last());
        assert(s.drop_last().take(trim_end(s).len() as int) =~= s.take(trim_end(s).len() as int));
    } else {
        assert(s.take(s.len() as int) =~= s);
    }
}

/// The length of `v` once its trailing whitespace is removed.
pub fn trimmed_len(v: &[char]) -> (n: usize)
    ensures
        n <= v@.len(),
        v@.take(n as int) == trim_end(v@),
{
    let mut n: usize = v.len();
    proof {
        assert(v@.take(n as int) =~= v@);
    }
    while n > 0 && is_whitespace(v[n - 1])
        invariant
            n <= v@.len(),
            trim_end(v@.take(n as int)) == trim_end(v@),
        decreases n,
    {
        proof {
            assert(v@.take(n as int).drop_last() =~= v@.take(n - 1));
        }
        n = n - 1;
    }
    n
}

/// Appends `v` to `s` without its trailing whitespace.
pub fn push_trimmed(s: &mut String, v: &[char])
    ensures
        final(s)@ == old(s)@ + trim_end(v@),
{
    let n = trimmed_len(v);
    let mut i: usize = 0;
    let ghost start = s@;
    while i < n
        invariant
            i <= n <= v@.len(),
            s@ == start + v@.take(i as int),
        decreases n - i,
    {
        push_char(s, v[i]);
        proof {
            assert(v@.take(i + 1) =~= v@.take(i as int).push(v@[i as int]));
        }
        i = i + 1;
    }
}

/// The words of `s`: its maximal runs of non-whitespace characters, in order
/// (as `str::split_whitespace`). `cur` is the word being collected.
pub open spec fn words_from(s: Seq<char>, cur: Seq<char>) -> Seq<Seq<char>>
    decreases s.len(),
{
    if s.len() == 0 {
        if cur.len() > 0 {
            seq![cur]
        } else {
            seq![]
        }
    } else if is_ws(s[0]) {
        (if cur.len() > 0 {
            seq![cur]
        } else {
            Seq::<Seq<char>>::empty()
        }) + words_from(s.drop_first(), seq![])
    } else {
        words_from(s.drop_first(), cur.push(s[0]))
    }
}

/// The words of `s` (as `str::split_whitespace`).
pub open spec fn words(s: Seq<char>) -> Seq<Seq<char>> {
    words_from(s, seq![])
}

/// The views of a sequence of character vectors.
pub open spec fn views(v: Seq<Vec<char>>) -> Seq<Seq<char>> {
    v.map_values(|x: Vec<char>| x@)
}

/// Splits `s` into its whitespace-separated words.
pub fn split_whitespace(s: &str) -> (out: Vec<Vec<char>>)
    ensures
        views(out@) == words(s@),
{
    let v = chars_of(s);
    let mut out: Vec<Vec<char>> = Vec::new();
    let mut cur: Vec<char> = Vec::new();
    let mut i: usize = 0;
    proof {
        assert(v@.skip(0) =~= v@);
        assert(views(out@) =~= Seq::<Seq<char>>::empty());
        assert(Seq::<Seq<char>>::empty() + words_from(v@, seq![]) =~= words_from(v@, seq![]));
    }
    while i < v.len()
        invariant
            i <= v.len(),
            v@ == s@,
            views(out@) + words_from(v@.skip(i as int), cur@) == words(s@),
        decreases v.len() - i,
    {
        let c = v[i];
        let ghost rest = v@.skip(i as int);
        let ghost old_out = views(out@);
        let ghost old_cur = cur@;
        proof {
            assert(rest.drop_first() =~= v@.skip(i + 1));
            assert(rest[0] == c);
        }
        if is_whitespace(c) {
            if cur.len() > 0 {
                out.push(cur);
                proof {
                    assert(views(out@) =~= old_out.push(old_cur));
                    assert(old_out + (seq![old_cur] + words_from(v@.skip(i + 1), seq![]))
                        =~= old_out.push(old_cur) + words_from(v@.skip(i + 1), seq![]));
                }
            } else {
                proof {
                    assert(Seq::<Seq<char>>::empty() + words_from(v@.skip(i + 1), seq![])
                        =~= words_from(v@.skip(i + 1), seq![]));
                }
            }
            cur = Vec::new();
        } else {
            cur.push(c);
        }
        i = i + 1;
    }
    proof {
        assert(v@.skip(i as int) =~= Seq::<char>::empty());
    }
    if cur.len() > 0 {
        let ghost old_out = views(out@);
        let ghost old_cur = cur@;
        out.push(cur);
        proof {
            assert(views(out@) =~= old_out.push(old_cur));
            assert(old_out + seq![old_cur] =~= old_out.push(old_cur));
        }
    } else {
        proof {
            assert(views(out@) + Seq::<Seq<char>>::empty() =~= views(out@));
        }
    }
    out
}

// ==================== Case ====================

/// ASCII lower-casing of one character.
pub open spec fn ascii_lower(c: char) -> char {
    if 'A' <= c && c <= 'Z' {
        ((c as u32) + 32) as char
    } else {
        c
    }
}

/// Equality up to ASCII case (as `str::eq_ignore_ascii_case`).
pub open spec fn eq_ignore_ascii_case(a: Seq<char>, b: Seq<char>) -> bool {
    a.len() == b.len() && forall|i: int| 0 <= i < a.len() ==> ascii_lower(a[i]) == ascii_lower(b[i])
}

fn to_ascii_lower(c: char) -> (r: char)
    ensures
        r == ascii_lower(c),
{
    if 'A' <= c && c <= 'Z' {
        let u: u32 = c as u32;
        let b: u8 = (u + 32) as u8;
        b as char
    } else {
        c
    }
}

/// Whether two character sequences are equal up to ASCII case.
pub fn chars_eq_ignore_ascii_case(a: &[char], b: &[char]) -> (r: bool)
    ensures
        r == eq_ignore_ascii_case(a@, b@),
{
    if a.len() != b.len() {
        return false;
    }
    let mut i: usize = 0;
    while i < a.len()
        invariant
            i <= a.len(),
            a.len() == b.len(),
            forall|j: int| 0 <= j < i ==> ascii_lower(a@[j]) == ascii_lower(b@[j]),
        decreases a.len() - i,
    {
        if to_ascii_lower(a[i]) != to_ascii_lower(b[i]) {
            return false;
        }
        i = i + 1;
    }
    true
}

/// The Unicode lower-casing of a string, as `str::to_lowercase` computes it.
pub uninterp spec fn unicode_lowercase(s: Seq<char>) -> Seq<char>;

/// Lower-cases a string: `str::to_lowercase`. Claimed: the result is
/// `unicode_lowercase` of the argument's characters (the Unicode tables are
/// left unstated).
#[verifier::external_body]
pub(crate) fn to_lowercase(s: &str) -> (r: String)
    ensures
        r@ == unicode_lowercase(s@),
{
    s.to_lowercase()
}

// ==================== Substrings ====================

/// `needle` occurs in `hay` starting at `i`.
pub open spec fn occurs_at(hay: Seq<char>, needle: Seq<char>, i: int) -> bool {
    0 <= i && i + needle.len() <= hay.len() && hay.subrange(i, i + needle.len()) == needle
}

/// `needle` occurs somewhere in `hay` (as `str::contains`).
pub open spec fn contains_seq(hay: Seq<char>, needle: Seq<char>) -> bool {
    exists|i: int| occurs_at(hay, needle, i)
}

/// Whether `needle` occurs in `hay`.
pub fn chars_contain(hay: &[char], needle: &[char]) -> (r: bool)
    ensures
        r == contains_seq(hay@, needle@),
{
    if needle.len() > hay.len() {
        return false;
    }
    if needle.len() == 0 {
        proof {
            assert(hay@.subrange(0, 0) =~= needle@);
            assert(occurs_at(hay@, needle@, 0));
        }
        return true;
    }
    let last: usize = hay.len() - needle.len();
    let mut i: usize = 0;
    while i <= last
        invariant
            last + needle.len() == hay.len(),
            needle.len() >= 1,
            i <= last + 1,
            forall|k: int| 0 <= k < i ==> !occurs_at(hay@, needle@, k),
        decreases last + 1 - i,
    {
        let mut j: usize = 0;
        let mut ok = true;
        while j < needle.len()
            invariant
                i <= last,
                last + needle.len() == hay.len(),
                j <= needle.len(),
                ok ==> forall|m: int| 0 <= m < j ==> hay@[i + m] == needle@[m],
                !ok ==> !occurs_at(hay@, needle@, i as int),
            decreases needle.len() - j,
        {
            if hay[i + j] != needle[j] {
                proof {
                    assert(hay@.subrange(i as int, i + needle.len())[j as int] != needle@[j as int]);
                }
                ok = false;
            }
            j = j + 1;
        }
        if ok {
            proof {
                assert(hay@.subrange(i as int, i + needle.len()) =~= needle@);
                assert(occurs_at(hay@, needle@, i as int));
            }
            return true;
        }
        i = i + 1;
    }
    proof {
        assert forall|k: int| !occurs_at(hay@, needle@, k) by {
            if 0 <= k && k < i {
            } else if k >= i {
                assert(!(k + needle@.len() <= hay@.len()));
            }
        }
    }
    false
}

// ==================== Ordering ====================

/// `a` sorts strictly before `b` in lexicographic character order, which is
/// the order of `str`'s `Ord` (bytes of UTF-8 compare as code points do).
pub open spec fn seq_lt(a: Seq<char>, b: Seq<char>) -> bool
    decreases a.len(),
{
    if a.len() == 0 {
        b.len() > 0
    } else if b.len() == 0 {
        false
    } else if a[0] != b[0] {
        (a[0] as u32) < (b[0] as u32)
    } else {
        seq_lt(a.drop_first(), b.drop_first())
    }
}

/// Whether `a` sorts strictly before `b`.
pub fn chars_lt(a: &[char], b: &[char]) -> (r: bool)
    ensures
        r == seq_lt(a@, b@),
{
    let mut i: usize = 0;
    proof {
        assert(a@.skip(0) =~= a@);
        assert(b@.skip(0) =~= b@);
    }
    while i < a.len() && i < b.len() && a[i] == b[i]
        invariant
            i <= a.len(),
            i <= b.len(),
            seq_lt(a@.skip(i as int), b@.skip(i as int)) == seq_lt(a@, b@),
        decreases a.len() - i,
    {
        proof {
            assert(a@.skip(i as int).drop_first() =~= a@.skip(i + 1));
            assert(b@.skip(i as int).drop_first() =~= b@.skip(i + 1));
        }
        i = i + 1;
    }
    if i == a.len() {
        i < b.len()
    } else if i == b.len() {
        false
    } else {
        let ca: u32 = a[i] as u32;
        let cb: u32 = b[i] as u32;
        ca < cb
    }
}


/// Lexicographic order is a strict total order: irreflexive, asymmetric,
/// total on distinct sequences.
pub proof fn lemma_seq_lt_total(a: Seq<char>, b: Seq<char>)
    ensures
        !(seq_lt(a, b) && seq_lt(b, a)),
        a != b ==> seq_lt(a, b) || seq_lt(b, a),
        a == b ==> !seq_lt(a, b),
    decreases a.len(),
{
    if a.len() > 0 && b.len() > 0 && a[0] == b[0] {
        lemma_seq_lt_total(a.drop_first(), b.drop_first());
        if a != b {
            assert(a.drop_first() != b.drop_first()) by {
                if a.drop_first() == b.drop_first() {
                    assert forall|i: int| 0 <= i < a.len() implies a[i] == b[i] by {
                        if i > 0 {
                            assert(a[i] == a.drop_first()[i - 1]);
                            assert(b[i] == b.drop_first()[i - 1]);
                        }
                    }
                    assert(a =~= b);
                }
            }
        }
    } else if a.len() == 0 && b.len() == 0 {
        assert(a =~= b);
    } else if a.len() > 0 && b.len() > 0 {
        if a[0] != b[0] {
            let x: u32 = a[0] as u32;
            let y: u32 = b[0] as u32;
            vstd::utf8::char_u32_cast(a[0], x);
            vstd::utf8::char_u32_cast(b[0], y);
            assert(x != y);
        }
    }
}

/// Lexicographic order is transitive.
pub proof fn lemma_seq_lt_transitive(a: Seq<char>, b: Seq<char>, c: Seq<char>)
    requires
        seq_lt(a, b),
        seq_lt(b, c),
    ensures
        seq_lt(a, c),
    decreases a.len(),
{
    if a.len() > 0 && b.len() > 0 && c.len() > 0 && a[0] == b[0] && b[0] == c[0] {
        lemma_seq_lt_transitive(a.drop_first(), b.drop_first(), c.drop_first());
    }
}


// ==================== Lines ====================

/// The index of the first newline of `s` at or after `from`, if any.
pub open spec fn next_newline(s: Seq<char>, from: int) -> Option<int>
    decreases s.len() - from,
{
    if from < 0 || from >= s.len() {
        None
    } else if s[from] == '\n' {
        Some(from)
    } else {
        next_newline(s, from + 1)
    }
}

/// A line ended by a newline loses a carriage return before it.
pub open spec fn strip_cr(line: Seq<char>) -> Seq<char> {
    if line.len() > 0 && line.last() == '\r' {
        line.drop_last()
    } else {
        line
    }
}

/// The lines of `s` from `from` on, as `str::lines` gives them: split at
/// `\n` or `\r\n`, without the line endings; a final line ending adds no
/// empty line.
pub open spec fn lines_from(s: Seq<char>, from: int) -> Seq<Seq<char>>
    decreases s.len() - from,
{
    if from < 0 || from >= s.len() {
        seq![]
    } else {
        match next_newline(s, from) {
            Some(i) => if i >= from && i < s.len() {
                seq![strip_cr(s.subrange(from, i))] + lines_from(s, i + 1)
            } else {
                seq![]
            },
            None => seq![s.subrange(from, s.len() as int)],
        }
    }
}

/// The lines of `s`, as `str::lines` gives them.
pub open spec fn text_lines(s: Seq<char>) -> Seq<Seq<char>> {
    lines_from(s, 0)
}

proof fn lemma_next_newline_bounds(s: Seq<char>, from: int)
    ensures
        next_newline(s, from) matches Some(i) ==> from <= i < s.len() && s[i] == '\n'
            && forall|j: int| from <= j < i ==> s[j] != '\n',
        next_newline(s, from) is None ==> forall|j: int| from <= j < s.len() && 0 <= from ==> s[j] != '\n',
    decreases s.len() - from,
{
    if 0 <= from < s.len() && s[from] != '\n' {
        lemma_next_newline_bounds(s, from + 1);
    }
}

/// The lines of a text, as `str::lines` gives them.
pub fn lines(s: &str) -> (out: Vec<Vec<char>>)
    ensures
        views(out@) == text_lines(s@),
{
    let v = chars_of(s);
    let mut out: Vec<Vec<char>> = Vec::new();
    let mut start: usize = 0;
    while start < v.len()
        invariant
            v@ == s@,
            start <= v@.len(),
            views(out@) + lines_from(v@, start as int) == text_lines(v@),
        decreases v.len() - start,
    {
        let mut i = start;
        while i < v.len() && v[i] != '\n'
            invariant
                start <= i <= v@.len(),
                forall|j: int| start <= j < i ==> v@[j] != '\n',
            decreases v.len() - i,
        {
            i = i + 1;
        }
        proof {
            lemma_next_newline_bounds(v@, start as int);
            if i < v@.len() {
                lemma_next_newline_at(v@, start as int, i as int);
            } else {
                lemma_next_newline_none(v@, start as int);
            }
        }
        let mut end = i;
        if i < v.len() && end > start && v[end - 1] == '\r' {
            end = end - 1;
        }
        let mut line: Vec<char> = Vec::new();
        let mut k = start;
        while k < end
            invariant
                start <= k <= end <= v@.len(),
                line@ == v@.subrange(start as int, k as int),
            decreases end - k,
        {
            line.push(v[k]);
            proof {
                assert(line@ =~= v@.subrange(start as int, k + 1));
            }
            k = k + 1;
        }
        let ghost prev = views(out@);
        out.push(line);
        proof {
            assert(views(out@) =~= prev.push(line@));
            if i < v@.len() {
                assert(strip_cr(v@.subrange(start as int, i as int)) =~= v@.subrange(start as int, end as int));
                assert(lines_from(v@, start as int) =~= seq![line@] + lines_from(v@, i + 1));
                assert(views(out@) + lines_from(v@, i + 1) =~= prev + lines_from(v@, start as int));
            } else {
                assert(lines_from(v@, start as int) =~= seq![line@]);
                assert(lines_from(v@, i as int) =~= Seq::<Seq<char>>::empty());
                assert(views(out@) + lines_from(v@, i as int) =~= prev + lines_from(v@, start as int));
            }
        }
        if i < v.len() {
            start = i + 1;
        } else {
            start = i;
        }
    }
    proof {
        assert(lines_from(v@, start as int) =~= Seq::<Seq<char>>::empty());
        assert(views(out@) + Seq::<Seq<char>>::empty() =~= views(out@));
    }
    out
}

proof fn lemma_next_newline_at(s: Seq<char>, from: int, i: int)
    requires
        0 <= from <= i < s.len(),
        s[i] == '\n',
        forall|j: int| from <= j < i ==> s[j] != '\n',
    ensures
        next_newline(s, from) == Some(i),
    decreases i - from,
{
    if from < i {
        lemma_next_newline_at(s, from + 1, i);
    }
}

proof fn lemma_next_newline_none(s: Seq<char>, from: int)
    requires
        0 <= from,
        forall|j: int| from <= j < s.len() ==> s[j] != '\n',
    ensures
        next_newline(s, from) is None,
    decreases s.len() - from,
{
    if from < s.len() {
        lemma_next_newline_none(s, from + 1);
    }
}

/// The number of newlines in `s` from index `from` on.
pub open spec fn newlines_from(s: Seq<char>, from: int) -> nat
    decreases s.len() - from,
{
    if from < 0 || from >= s.len() {
        0
    } else {
        (if s[from] == '\n' { 1nat } else { 0nat }) + newlines_from(s, from + 1)
    }
}

/// A text closed by a newline: unchanged when empty or already ending in
/// one, else with one added.
pub open spec fn newline_closed(t: Seq<char>) -> Seq<char> {
    if t.len() == 0 || t.last() == '\n' {
        t
    } else {
        t.push('\n')
    }
}

/// Lines joined back into a text, each followed by a newline.
pub open spec fn unlines(ls: Seq<Seq<char>>) -> Seq<char>
    decreases ls.len(),
{
    if ls.len() == 0 {
        seq![]
    } else {
        ls[0] + seq!['\n'] + unlines(ls.drop_first())
    }
}

proof fn lemma_newlines_skip(s: Seq<char>, from: int, i: int)
    requires
        0 <= from <= i <= s.len(),
        forall|j: int| from <= j < i ==> s[j] != '\n',
    ensures
        newlines_from(s, from) == newlines_from(s, i),
    decreases i - from,
{
    if from < i {
        lemma_newlines_skip(s, from + 1, i);
    }
}

proof fn lemma_lines_from_count(s: Seq<char>, from: int)
    requires
        0 <= from <= s.len(),
    ensures
        lines_from(s, from).len() == newlines_from(s, from) + (if from < s.len() && s.last() != '\n' {
            1int
        } else {
            0int
        }),
    decreases s.len() - from,
{
    if from < s.len() {
        lemma_next_newline_bounds(s, from);
        match next_newline(s, from) {
            Some(i) => {
                lemma_lines_from_count(s, i + 1);
                lemma_newlines_skip(s, from, i);
            },
            None => {
                lemma_newlines_skip(s, from, s.len() as int);
            },
        }
    }
}

/// `str::lines` gives one line per newline, and one more for text after the
/// last newline: blank lines count, and a final newline adds none.
pub proof fn lemma_line_count(s: Seq<char>)
    ensures
        text_lines(s).len() == newlines_from(s, 0) + (if s.len() > 0 && s.last() != '\n' { 1int } else { 0int }),
{
    lemma_lines_from_count(s, 0);
}

proof fn lemma_lines_from_rejoin(s: Seq<char>, from: int)
    requires
        0 <= from <= s.len(),
        forall|j: int| 0 <= j < s.len() ==> s[j] != '\r',
    ensures
        unlines(lines_from(s, from)) == newline_closed(s.subrange(from, s.len() as int)),
    decreases s.len() - from,
{
    if from == s.len() {
        assert(s.subrange(from, s.len() as int) =~= Seq::<char>::empty());
    } else {
        lemma_next_newline_bounds(s, from);
        match next_newline(s, from) {
            Some(i) => {
                lemma_lines_from_rejoin(s, i + 1);
                let line = s.subrange(from, i);
                if line.len() > 0 {
                    assert(line.last() == s[i - 1]);
                }
                assert(strip_cr(line) == line);
                let ls = lines_from(s, from);
                assert(ls[0] == line);
                assert(ls.drop_first() =~= lines_from(s, i + 1));
                let rest = s.subrange(i + 1, s.len() as int);
                let whole = s.subrange(from, s.len() as int);
                if i + 1 == s.len() {
                    assert(rest =~= Seq::<char>::empty());
                    assert(whole =~= line + seq!['\n']);
                    assert(whole.last() == '\n');
                    assert(unlines(ls.drop_first()) =~= Seq::<char>::empty());
                    assert(unlines(ls) =~= whole);
                } else {
                    assert(whole =~= line + seq!['\n'] + rest);
                    assert(whole.last() == rest.last());
                    assert(unlines(ls) =~= line + seq!['\n'] + newline_closed(rest));
                    assert(newline_closed(whole) =~= line + seq!['\n'] + newline_closed(rest));
                }
            },
            None => {
                let whole = s.subrange(from, s.len() as int);
                let ls = lines_from(s, from);
                assert(ls =~= seq![whole]);
                assert(whole.last() == s[s.len() - 1]);
                assert(ls.drop_first() =~= Seq::<Seq<char>>::empty());
                assert(unlines(ls.drop_first()) == Seq::<char>::empty());
                assert(ls[0] == whole);
                assert(unlines(ls) =~= whole + seq!['\n']);
            },
        }
    }
}

/// Joining the lines of a text (without carriage returns) back with a
/// newline after each gives the text again, closed by a newline: the lines
/// are exactly the newline-separated segments, blank ones included, in order.
pub proof fn lemma_lines_rejoin(s: Seq<char>)
    requires
        forall|j: int| 0 <= j < s.len() ==> s[j] != '\r',
    ensures
        unlines(text_lines(s)) == newline_closed(s),
{
    lemma_lines_from_rejoin(s, 0);
    assert(s.subrange(0, s.len() as int) =~= s);
}

} // verus!
