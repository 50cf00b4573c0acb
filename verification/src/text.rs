//! Character-level string helpers with exact specifications.
use vstd::prelude::*;

verus! {

/// Appends one character to a string (`String::push`).
#[verifier::external_body]
pub(crate) fn push_char(s: &mut String, c: char)
    ensures
        final(s)@ == old(s)@.push(c),
{
    s.push(c);
}

/// Appends a string slice to a string.
pub fn push_str(s: &mut String, t: &str)
    ensures
        final(s)@ == old(s)@ + t@,
{
    s.append(t);
}

/// The characters of a string slice, in order.
pub fn chars_of(s: &str) -> (v: Vec<char>)
    ensures
        v@ == s@,
{
    let mut v: Vec<char> = Vec::new();
    for c in it: s.chars()
        invariant
            v@ == it.seq().take(it.index() as int),
    {
        v.push(c);
    }
    v
}

/// An owned copy of a string slice.
pub fn owned(s: &str) -> (r: String)
    ensures
        r@ == s@,
{
    String::from_str(s)
}

// ─── Quote escaping ──────────────────────────────────────────────────────────

/// `s` with every occurrence of `q` doubled.
pub open spec fn double_char(s: Seq<char>, q: char) -> Seq<char>
    decreases s.len(),
{
    if s.len() == 0 {
        Seq::empty()
    } else {
        let head = if s[0] == q { seq![q, q] } else { seq![s[0]] };
        head + double_char(s.drop_first(), q)
    }
}

pub proof fn lemma_double_char_push(s: Seq<char>, c: char, q: char)
    ensures
        double_char(s.push(c), q) == double_char(s, q) + (if c == q { seq![q, q] } else { seq![c] }),
    decreases s.len(),
{
    if s.len() == 0 {
        assert(s.push(c).drop_first() =~= Seq::<char>::empty());
        assert(double_char(Seq::<char>::empty(), q) =~= Seq::<char>::empty());
        assert(double_char(s.push(c), q) =~= (if c == q { seq![q, q] } else { seq![c] }));
    } else {
        lemma_double_char_push(s.drop_first(), c, q);
        assert(s.push(c).drop_first() =~= s.drop_first().push(c));
        let head = if s[0] == q { seq![q, q] } else { seq![s[0]] };
        assert(double_char(s.push(c), q) == head + double_char(s.drop_first().push(c), q));
        assert(head + (double_char(s.drop_first(), q) + (if c == q { seq![q, q] } else { seq![c] }))
            =~= (head + double_char(s.drop_first(), q)) + (if c == q { seq![q, q] } else { seq![c] }));
    }
}

/// Appends `t` to `out` with every occurrence of `q` doubled (`str::replace(q, qq)`).
pub fn push_doubled(out: &mut String, t: &str, q: char)
    ensures
        final(out)@ == old(out)@ + double_char(t@, q),
{
    let cs = chars_of(t);
    let ghost start = out@;
    for i in 0..cs.len()
        invariant
            cs@ == t@,
            out@ == start + double_char(cs@.take(i as int), q),
    {
        let c = cs[i];
        proof {
            lemma_double_char_push(cs@.take(i as int), c, q);
            assert(cs@.take(i + 1) == cs@.take(i as int).push(c));
        }
        if c == q {
            push_char(out, q);
            push_char(out, q);
        } else {
            push_char(out, c);
        }
        proof {
            let d = double_char(cs@.take(i as int), q);
            if c == q {
                assert(start + d + seq![q, q] =~= start + d.push(q).push(q));
            } else {
                assert(start + d + seq![c] =~= (start + d).push(c));
            }
        }
    }
    assert(cs@.take(cs.len() as int) == cs@);
}

// ─── ASCII case mapping ──────────────────────────────────────────────────────

pub open spec fn ascii_lower_char(c: char) -> char {
    if 'A' <= c && c <= 'Z' {
        ((c as u32) + 32) as char
    } else {
        c
    }
}

pub open spec fn ascii_upper_char(c: char) -> char {
    if 'a' <= c && c <= 'z' {
        ((c as u32) - 32) as char
    } else {
        c
    }
}

/// ASCII lowercase of a character sequence (`str::to_ascii_lowercase`).
pub open spec fn ascii_lower(s: Seq<char>) -> Seq<char> {
    s.map_values(|c: char| ascii_lower_char(c))
}

/// ASCII uppercase of a character sequence (`str::to_ascii_uppercase`).
pub open spec fn ascii_upper(s: Seq<char>) -> Seq<char> {
    s.map_values(|c: char| ascii_upper_char(c))
}

fn lower_char(c: char) -> (r: char)
    ensures
        r == ascii_lower_char(c),
{
    if 'A' <= c && c <= 'Z' {
        let b: u8 = (c as u8) + 32;
        b as char
    } else {
        c
    }
}

fn upper_char(c: char) -> (r: char)
    ensures
        r == ascii_upper_char(c),
{
    if 'a' <= c && c <= 'z' {
        let b: u8 = (c as u8) - 32;
        b as char
    } else {
        c
    }
}

/// The ASCII lowercase form of `s`.
pub fn to_ascii_lowercase(s: &str) -> (r: String)
    ensures
        r@ == ascii_lower(s@),
{
    let cs = chars_of(s);
    let mut r = String::new();
    for i in 0..cs.len()
        invariant
            cs@ == s@,
            r@ == ascii_lower(cs@.take(i as int)),
    {
        push_char(&mut r, lower_char(cs[i]));
        assert(ascii_lower(cs@.take(i + 1)) =~= ascii_lower(cs@.take(i as int)).push(ascii_lower_char(cs@[i as int])));
    }
    assert(cs@.take(cs.len() as int) == cs@);
    r
}

/// The ASCII uppercase form of `s`.
pub fn to_ascii_uppercase(s: &str) -> (r: String)
    ensures
        r@ == ascii_upper(s@),
{
    let cs = chars_of(s);
    let mut r = String::new();
    for i in 0..cs.len()
        invariant
            cs@ == s@,
            r@ == ascii_upper(cs@.take(i as int)),
    {
        push_char(&mut r, upper_char(cs[i]));
        assert(ascii_upper(cs@.take(i + 1)) =~= ascii_upper(cs@.take(i as int)).push(ascii_upper_char(cs@[i as int])));
    }
    assert(cs@.take(cs.len() as int) == cs@);
    r
}

/// What `str::to_uppercase` returns for a character sequence (full Unicode case mapping).
pub uninterp spec fn unicode_upper(s: Seq<char>) -> Seq<char>;

/// Whether every character is ASCII.
pub open spec fn is_ascii_text(s: Seq<char>) -> bool {
    forall|i: int| 0 <= i < s.len() ==> (#[trigger] s[i] as u32) < 128
}

/// Unicode uppercase mapping of a string slice (`str::to_uppercase`). The result is a
/// function of the input alone; its exact table is left to the standard library, except
/// on ASCII text, where (as std documents for the ASCII range) `a`–`z` become `A`–`Z` and
/// every other character is kept.
#[verifier::external_body]
pub(crate) fn to_uppercase(s: &str) -> (r: String)
    ensures
        r@ == unicode_upper(s@),
        is_ascii_text(s@) ==> r@ == ascii_upper(s@),
{
    s.to_uppercase()
}

// ─── Whitespace trimming ─────────────────────────────────────────────────────

/// The Unicode `White_Space` characters (the set `str::trim` removes).
pub open spec fn is_white_space(c: char) -> bool {
    let u = c as u32;
    (0x09 <= u && u <= 0x0D) || u == 0x20 || u == 0x85 || u == 0xA0 || u == 0x1680
        || (0x2000 <= u && u <= 0x200A) || u == 0x2028 || u == 0x2029 || u == 0x202F
        || u == 0x205F || u == 0x3000
}

fn white_space(c: char) -> (b: bool)
    ensures
        b == is_white_space(c),
{
    let u = c as u32;
    (0x09 <= u && u <= 0x0D) || u == 0x20 || u == 0x85 || u == 0xA0 || u == 0x1680
        || (0x2000 <= u && u <= 0x200A) || u == 0x2028 || u == 0x2029 || u == 0x202F
        || u == 0x205F || u == 0x3000
}

/// `s` without leading white space.
pub open spec fn trim_start(s: Seq<char>) -> Seq<char>
    decreases s.len(),
{
    if s.len() > 0 && is_white_space(s[0]) {
        trim_start(s.drop_first())
    } else {
        s
    }
}

/// `s` without trailing white space.
pub open spec fn trim_end(s: Seq<char>) -> Seq<char>
    decreases s.len(),
{
    if s.len() > 0 && is_white_space(s.last()) {
        trim_end(s.drop_last())
    } else {
        s
    }
}

proof fn lemma_trim_start_shape(s: Seq<char>)
    ensures
        trim_start(s).len() == 0 || !is_white_space(trim_start(s)[0]),
    decreases s.len(),
{
    if s.len() > 0 && is_white_space(s[0]) {
        lemma_trim_start_shape(s.drop_first());
    }
}

proof fn lemma_trim_end_shape(s: Seq<char>)
    ensures
        trim_end(s).len() <= s.len(),
        trim_end(s) =~= s.take(trim_end(s).len() as int),
        trim_end(s).len() == 0 || !is_white_space(trim_end(s).last()),
    decreases s.len(),
{
    if s.len() > 0 && is_white_space(s.last()) {
        lemma_trim_end_shape(s.drop_last());
    }
}

/// Trimming leaves no white space at either end.
pub proof fn lemma_trim_ends(s: Seq<char>)
    ensures
        trim(s).len() == 0 || (!is_white_space(trim(s)[0]) && !is_white_space(trim(s).last())),
{
    lemma_trim_start_shape(s);
    lemma_trim_end_shape(trim_start(s));
}

/// Lowercasing ASCII and trimming again change nothing more once a text is trimmed and
/// lowercased.
pub proof fn lemma_lower_trim_idempotent(s: Seq<char>)
    ensures
        ascii_lower(trim(ascii_lower(trim(s)))) == ascii_lower(trim(s)),
{
    let t = trim(s);
    let n = ascii_lower(t);
    lemma_trim_ends(s);
    if n.len() > 0 {
        assert(n[0] == ascii_lower_char(t[0]));
        assert(n.last() == ascii_lower_char(t.last()));
    }
    assert(trim_start(n) == n);
    assert(trim(n) == n);
    assert(ascii_lower(n) =~= n);
}

/// `s` without leading and trailing white space (`str::trim`).
pub open spec fn trim(s: Seq<char>) -> Seq<char> {
    trim_end(trim_start(s))
}

proof fn lemma_trim_start_skip(s: Seq<char>, i: int)
    requires
        0 <= i <= s.len(),
        forall|j: int| 0 <= j < i ==> is_white_space(#[trigger] s[j]),
    ensures
        trim_start(s) == trim_start(s.skip(i)),
    decreases i,
{
    if i > 0 {
        assert(s.drop_first().skip(i - 1) =~= s.skip(i));
        lemma_trim_start_skip(s.drop_first(), i - 1);
    } else {
        assert(s.skip(0) =~= s);
    }
}

proof fn lemma_trim_end_take(s: Seq<char>, i: int)
    requires
        0 <= i <= s.len(),
        forall|j: int| i <= j < s.len() ==> is_white_space(#[trigger] s[j]),
    ensures
        trim_end(s) == trim_end(s.take(i)),
    decreases s.len() - i,
{
    if i < s.len() {
        assert(s.drop_last().take(i) =~= s.take(i));
        lemma_trim_end_take(s.drop_last(), i);
    } else {
        assert(s.take(i) =~= s);
    }
}

/// `s` with leading and trailing white space removed.
pub fn trim_str(s: &str) -> (r: String)
    ensures
        r@ == trim(s@),
{
    let cs = chars_of(s);
    let n = cs.len();
    let mut a: usize = 0;
    while a < n && white_space(cs[a])
        invariant
            a <= n,
            n == cs@.len(),
            forall|j: int| 0 <= j < a ==> is_white_space(#[trigger] cs@[j]),
        decreases n - a,
    {
        a = a + 1;
    }
    let mut b: usize = n;
    while b > a && white_space(cs[b - 1])
        invariant
            a <= b <= n,
            n == cs@.len(),
            forall|j: int| b <= j < n ==> is_white_space(#[trigger] cs@[j]),
        decreases b,
    {
        b = b - 1;
    }
    let mut r = String::new();
    let mut i: usize = a;
    while i < b
        invariant
            a <= i <= b <= n,
            n == cs@.len(),
            r@ == cs@.subrange(a as int, i as int),
        decreases b - i,
    {
        push_char(&mut r, cs[i]);
        assert(cs@.subrange(a as int, i + 1) == cs@.subrange(a as int, i as int).push(cs@[i as int]));
        i = i + 1;
    }
    proof {
        let t = cs@.skip(a as int);
        lemma_trim_start_skip(cs@, a as int);
        assert(a == n || !is_white_space(cs@[a as int]));
        assert(trim_start(t) == t);
        assert forall|j: int| b - a <= j < t.len() implies is_white_space(#[trigger] t[j]) by {
            assert(t[j] == cs@[j + a]);
        }
        lemma_trim_end_take(t, b - a);
        assert(t.take(b - a) =~= cs@.subrange(a as int, b as int));
        let u = t.take(b - a);
        if u.len() > 0 {
            assert(u.last() == cs@[b - 1]);
        }
        assert(trim_end(u) == u);
    }
    r
}

// ─── Splitting on a separator ────────────────────────────────────────────────

/// The pieces of `s` between occurrences of `d` (`str::split(d)`): always at least one piece.
pub open spec fn split_on(s: Seq<char>, d: char) -> Seq<Seq<char>>
    decreases s.len(),
{
    if s.len() == 0 {
        seq![Seq::empty()]
    } else {
        let rest = split_on(s.drop_first(), d);
        if s[0] == d {
            seq![Seq::empty()] + rest
        } else {
            rest.update(0, seq![s[0]] + rest[0])
        }
    }
}

pub proof fn lemma_split_on_nonempty(s: Seq<char>, d: char)
    ensures
        split_on(s, d).len() >= 1,
    decreases s.len(),
{
    if s.len() > 0 {
        lemma_split_on_nonempty(s.drop_first(), d);
    }
}

/// Splitting a sequence that ends with a separator-free tail `t` after a prefix.
proof fn lemma_split_on_push(s: Seq<char>, c: char, d: char)
    ensures
        split_on(s.push(c), d) == (if c == d {
            split_on(s, d).push(Seq::empty())
        } else {
            split_on(s, d).update(split_on(s, d).len() - 1, split_on(s, d).last().push(c))
        }),
    decreases s.len(),
{
    lemma_split_on_nonempty(s, d);
    if s.len() == 0 {
        assert(s.push(c).drop_first() =~= Seq::<char>::empty());
        assert(split_on(Seq::<char>::empty(), d) =~= seq![Seq::<char>::empty()]);
        assert(s.push(c)[0] == c);
        if c == d {
            assert(split_on(s.push(c), d) =~= seq![Seq::<char>::empty(), Seq::<char>::empty()]);
        } else {
            assert(seq![c] + Seq::<char>::empty() =~= Seq::<char>::empty().push(c));
            assert(seq![c] + Seq::<char>::empty() =~= seq![c]);
            assert(split_on(s.push(c), d) =~= seq![seq![c]]);
        }
    } else {
        lemma_split_on_push(s.drop_first(), c, d);
        lemma_split_on_nonempty(s.drop_first(), d);
        assert(s.push(c).drop_first() =~= s.drop_first().push(c));
        let r = split_on(s.drop_first(), d);
        if s[0] == d {
            if c == d {
                assert(seq![Seq::<char>::empty()] + r.push(Seq::<char>::empty())
                    =~= (seq![Seq::<char>::empty()] + r).push(Seq::<char>::empty()));
            } else {
                let r2 = r.update(r.len() - 1, r.last().push(c));
                assert(seq![Seq::<char>::empty()] + r2 =~= (seq![Seq::<char>::empty()] + r).update(
                    r.len() as int, r.last().push(c)));
            }
        } else {
            let r1 = r.update(0, seq![s[0]] + r[0]);
            if c == d {
                assert(r.push(Seq::<char>::empty()).update(0, seq![s[0]] + r[0]) =~= r1.push(Seq::<char>::empty()));
            } else {
                let r2 = r.update(r.len() - 1, r.last().push(c));
                if r.len() == 1 {
                    assert(seq![s[0]] + r.last().push(c) =~= (seq![s[0]] + r[0]).push(c));
                    assert(r2.update(0, seq![s[0]] + r2[0]) =~= r1.update(r1.len() - 1, r1.last().push(c)));
                } else {
                    assert(r2.update(0, seq![s[0]] + r2[0]) =~= r1.update(r1.len() - 1, r1.last().push(c)));
                }
            }
        }
    }
}

/// The pieces of `s` between occurrences of `d`.
pub fn split_char(s: &str, d: char) -> (parts: Vec<String>)
    ensures
        parts.deep_view() == split_on(s@, d),
{
    let cs = chars_of(s);
    let mut parts: Vec<String> = Vec::new();
    let mut cur = String::new();
    assert(split_on(Seq::<char>::empty(), d) =~= seq![Seq::<char>::empty()]);
    for i in 0..cs.len()
        invariant
            cs@ == s@,
            parts.deep_view().push(cur@) == split_on(cs@.take(i as int), d),
    {
        let c = cs[i];
        proof {
            lemma_split_on_push(cs@.take(i as int), c, d);
            assert(cs@.take(i + 1) == cs@.take(i as int).push(c));
        }
        if c == d {
            let ghost old_parts = parts.deep_view();
            let ghost old_cur = cur@;
            let done = cur;
            parts.push(done);
            cur = String::new();
            assert(parts.deep_view() =~= old_parts.push(old_cur));
            assert(parts.deep_view().push(cur@) =~= old_parts.push(old_cur).push(Seq::<char>::empty()));
        } else {
            let ghost old_parts = parts.deep_view();
            let ghost old_cur = cur@;
            push_char(&mut cur, c);
            assert(parts.deep_view().push(cur@) =~= old_parts.push(old_cur).update(
                old_parts.len() as int, old_cur.push(c)));
        }
    }
    assert(cs@.take(cs.len() as int) == cs@);
    parts.push(cur);
    parts
}

// ─── Decimal rendering ───────────────────────────────────────────────────────

pub open spec fn digit_char(d: nat) -> char {
    if d == 0 { '0' } else if d == 1 { '1' } else if d == 2 { '2' } else if d == 3 { '3' }
    else if d == 4 { '4' } else if d == 5 { '5' } else if d == 6 { '6' } else if d == 7 { '7' }
    else if d == 8 { '8' } else { '9' }
}

/// Decimal digits of `n`, without leading zeros (`"0"` for zero).
pub open spec fn decimal(n: nat) -> Seq<char>
    decreases n,
{
    if n < 10 {
        seq![digit_char(n)]
    } else {
        decimal(n / 10).push(digit_char(n % 10))
    }
}

fn digit(d: u64) -> (c: char)
    requires
        d < 10,
    ensures
        c == digit_char(d as nat),
{
    if d == 0 { '0' } else if d == 1 { '1' } else if d == 2 { '2' } else if d == 3 { '3' }
    else if d == 4 { '4' } else if d == 5 { '5' } else if d == 6 { '6' } else if d == 7 { '7' }
    else if d == 8 { '8' } else { '9' }
}

/// Appends the decimal digits of `n` to `out` (`n.to_string()`).
pub fn push_decimal(out: &mut String, n: u64)
    ensures
        final(out)@ == old(out)@ + decimal(n as nat),
    decreases n,
{
    if n < 10 {
        push_char(out, digit(n));
    } else {
        push_decimal(out, n / 10);
        push_char(out, digit(n % 10));
        assert(old(out)@ + decimal(n as nat) =~= (old(out)@ + decimal((n / 10) as nat)).push(digit_char((n % 10) as nat)));
    }
}

/// The decimal rendering of `n`.
pub fn decimal_string(n: u64) -> (s: String)
    ensures
        s@ == decimal(n as nat),
{
    let mut s = String::new();
    push_decimal(&mut s, n);
    s
}

} // verus!

verus! {

/// Whether two character sequences given as vectors are equal.
fn chars_eq(a: &Vec<char>, b: &Vec<char>) -> (r: bool)
    ensures
        r == (a@ == b@),
{
    if a.len() != b.len() {
        return false;
    }
    for i in 0..a.len()
        invariant
            a.len() == b.len(),
            forall|j: int| 0 <= j < i ==> a@[j] == b@[j],
    {
        if a[i] != b[i] {
            return false;
        }
    }
    assert(a@ =~= b@);
    true
}

/// Whether two strings hold the same characters.
pub fn str_eq(a: &str, b: &str) -> (r: bool)
    ensures
        r == (a@ == b@),
{
    let ca = chars_of(a);
    let cb = chars_of(b);
    chars_eq(&ca, &cb)
}

} // verus!

verus! {

// ─── Unsigned decimal parsing (`str::parse::<u64>`) ─────────────────────────

pub open spec fn is_ascii_digit(c: char) -> bool {
    '0' <= c && c <= '9'
}

pub open spec fn all_digits(s: Seq<char>) -> bool {
    forall|i: int| 0 <= i < s.len() ==> is_ascii_digit(#[trigger] s[i])
}

/// The number the ASCII digits `s` spell.
pub open spec fn digits_value(s: Seq<char>) -> nat
    decreases s.len(),
{
    if s.len() == 0 {
        0
    } else {
        digits_value(s.drop_last()) * 10 + ((s.last() as nat) - ('0' as nat)) as nat
    }
}

/// The digits of an unsigned decimal: the text after an optional leading `+`.
pub open spec fn unsigned_digits(s: Seq<char>) -> Seq<char> {
    if s.len() > 0 && s[0] == '+' {
        s.drop_first()
    } else {
        s
    }
}

/// `s` read as a `u64` the way `str::parse::<u64>` reads it: an optional `+`, then at
/// least one ASCII digit, with a value that fits.
pub open spec fn spec_parse_u64(s: Seq<char>) -> Option<u64> {
    let d = unsigned_digits(s);
    if d.len() > 0 && all_digits(d) && digits_value(d) <= u64::MAX {
        Some(digits_value(d) as u64)
    } else {
        None
    }
}

proof fn lemma_digits_monotone(s: Seq<char>, i: int)
    requires
        0 <= i <= s.len(),
        all_digits(s),
    ensures
        digits_value(s.take(i)) <= digits_value(s),
    decreases s.len() - i,
{
    if i < s.len() {
        lemma_digits_monotone(s, i + 1);
        assert(s.take(i + 1).drop_last() =~= s.take(i));
        assert(is_ascii_digit(s[i]));
    } else {
        assert(s.take(i) =~= s);
    }
}

fn char_digit(c: char) -> (r: Option<u64>)
    ensures
        is_ascii_digit(c) ==> r == Some(((c as nat) - ('0' as nat)) as u64),
        !is_ascii_digit(c) ==> r is None,
{
    if c == '0' { Some(0) } else if c == '1' { Some(1) } else if c == '2' { Some(2) }
    else if c == '3' { Some(3) } else if c == '4' { Some(4) } else if c == '5' { Some(5) }
    else if c == '6' { Some(6) } else if c == '7' { Some(7) } else if c == '8' { Some(8) }
    else if c == '9' { Some(9) } else { None }
}

/// Read a string as a `u64` (`str::parse::<u64>`).
pub fn parse_u64(s: &str) -> (r: Option<u64>)
    ensures
        r == spec_parse_u64(s@),
{
    let cs = chars_of(s);
    let ghost d = unsigned_digits(s@);
    let start: usize = if cs.len() > 0 && cs[0] == '+' { 1 } else { 0 };
    assert(d =~= cs@.subrange(start as int, cs@.len() as int));
    if start >= cs.len() {
        return None;
    }
    let mut value: u64 = 0;
    let mut i: usize = start;
    while i < cs.len()
        invariant
            start <= i <= cs.len(),
            cs@ == s@,
            d == unsigned_digits(s@),
            d == cs@.subrange(start as int, cs@.len() as int),
            all_digits(d.take(i - start)),
            value == digits_value(d.take(i - start)),
        decreases cs.len() - i,
    {
        let dg = match char_digit(cs[i]) {
            Some(v) => v,
            None => {
                assert(d[i - start] == cs@[i as int]);
                assert(!is_ascii_digit(d[i - start]));
                assert(!all_digits(d));
                return None;
            },
        };
        proof {
            assert(d.take(i - start + 1).drop_last() =~= d.take(i - start));
            assert(d.take(i - start + 1).last() == cs@[i as int]);
        }
        if value > (u64::MAX - dg) / 10 {
            proof {
                assert(value * 10 + dg > u64::MAX) by (nonlinear_arith)
                    requires value > (u64::MAX - dg) / 10, dg < 10;
                assert forall|j: int| 0 <= j < i - start + 1 implies is_ascii_digit(#[trigger] d.take(i - start + 1)[j]) by {
                    if j < i - start {
                        assert(d.take(i - start + 1)[j] == d.take(i - start)[j]);
                    }
                }
                let t = d.take(i - start + 1);
                assert(digits_value(t) == digits_value(t.drop_last()) * 10 + ((t.last() as nat) - ('0' as nat)) as nat);
                assert(digits_value(t) == value * 10 + dg);
                if all_digits(d) {
                    lemma_digits_monotone(d, i - start + 1);
                }
                assert(!(all_digits(d) && digits_value(d) <= u64::MAX));
            }
            return None;
        }
        proof {
            assert(value * 10 + dg <= u64::MAX) by (nonlinear_arith)
                requires value <= (u64::MAX - dg) / 10, dg < 10;
            assert forall|j: int| 0 <= j < i - start + 1 implies is_ascii_digit(#[trigger] d.take(i - start + 1)[j]) by {
                if j < i - start {
                    assert(d.take(i - start + 1)[j] == d.take(i - start)[j]);
                }
            }
        }
        value = value * 10 + dg;
        i = i + 1;
    }
    assert(d.take(i - start) =~= d);
    Some(value)
}

proof fn lemma_decimal_digits(n: nat)
    ensures
        all_digits(decimal(n)),
        digits_value(decimal(n)) == n,
        decimal(n).len() > 0,
        decimal(n)[0] != '+',
    decreases n,
{
    if n < 10 {
        assert((digit_char(n) as nat) - ('0' as nat) == n);
        assert(decimal(n).drop_last() =~= Seq::<char>::empty());
        assert(digits_value(decimal(n).drop_last()) == 0);
    } else {
        lemma_decimal_digits(n / 10);
        let s = decimal(n);
        assert(s.drop_last() =~= decimal(n / 10));
        assert(s[0] == decimal(n / 10)[0]);
        assert((digit_char(n % 10) as nat) - ('0' as nat) == n % 10);
        assert(s.last() == digit_char(n % 10));
        assert(n == (n / 10) * 10 + n % 10);
        assert(digits_value(s) == digits_value(s.drop_last()) * 10 + ((s.last() as nat) - ('0' as nat)) as nat);
        assert(digits_value(s.drop_last()) == n / 10);
        assert forall|i: int| 0 <= i < s.len() implies is_ascii_digit(#[trigger] s[i]) by {
            if i < s.len() - 1 {
                assert(s[i] == decimal(n / 10)[i]);
            }
        }
    }
}

/// Reading back the decimal rendering of a `u64` gives the number.
pub proof fn lemma_parse_decimal(n: u64)
    ensures
        spec_parse_u64(decimal(n as nat)) == Some(n),
{
    lemma_decimal_digits(n as nat);
}

} // verus!
