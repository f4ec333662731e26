//! Character-level text helpers: building strings, prefix and substring tests,
//! splitting, and the decimal notation of integers.
use vstd::prelude::*;
use vstd::string::*;

verus! {

// ---------------------------------------------------------------------------
// Decimal notation
// ---------------------------------------------------------------------------

/// `c` is one of the ASCII digits `0` to `9`.
pub open spec fn is_digit(c: char) -> bool {
    48 <= (c as u32) && (c as u32) <= 57
}

/// The value of an ASCII digit.
pub open spec fn digit_value(c: char) -> int {
    (c as u32) - 48
}

/// The ASCII digit for `d` (for `d < 10`).
pub open spec fn digit_char(d: nat) -> char {
    (48 + d) as char
}

/// Every character of `s` is an ASCII digit.
pub open spec fn all_digits(s: Seq<char>) -> bool {
    forall|i: int| 0 <= i < s.len() ==> #[trigger] is_digit(s[i])
}

/// The number that the digit string `s` denotes, most significant digit first.
pub open spec fn digits_value(s: Seq<char>) -> int
    decreases s.len(),
{
    if s.len() == 0 {
        0
    } else {
        digits_value(s.drop_last()) * 10 + digit_value(s.last())
    }
}

/// The value of a non-empty run of digits, or `None`.
pub open spec fn unsigned_magnitude(s: Seq<char>) -> Option<int> {
    if s.len() > 0 && all_digits(s) {
        Some(digits_value(s))
    } else {
        None
    }
}

/// The integer that `s` denotes in Rust's notation for signed integers:
/// an optional `+` or `-` sign followed by one or more ASCII digits.
pub open spec fn signed_value(s: Seq<char>) -> Option<int> {
    if s.len() > 0 && s[0] == '-' {
        match unsigned_magnitude(s.drop_first()) {
            Some(v) => Some(-v),
            None => None,
        }
    } else if s.len() > 0 && s[0] == '+' {
        unsigned_magnitude(s.drop_first())
    } else {
        unsigned_magnitude(s)
    }
}

/// The integer that `s` denotes in Rust's notation for unsigned integers:
/// an optional `+` sign followed by one or more ASCII digits.
pub open spec fn unsigned_value(s: Seq<char>) -> Option<int> {
    if s.len() > 0 && s[0] == '+' {
        unsigned_magnitude(s.drop_first())
    } else {
        unsigned_magnitude(s)
    }
}

/// What `s.parse::<i32>()` yields: the value when `s` is well formed and in range.
pub open spec fn parsed_i32(s: Seq<char>) -> Option<i32> {
    match signed_value(s) {
        Some(v) => if i32::MIN <= v <= i32::MAX {
            Some(v as i32)
        } else {
            None
        },
        None => None,
    }
}

/// What `s.parse::<usize>()` yields.
pub open spec fn parsed_usize(s: Seq<char>) -> Option<usize> {
    match unsigned_value(s) {
        Some(v) => if v <= usize::MAX {
            Some(v as usize)
        } else {
            None
        },
        None => None,
    }
}

/// What `s.parse::<u16>()` yields.
pub open spec fn parsed_u16(s: Seq<char>) -> Option<u16> {
    match unsigned_value(s) {
        Some(v) => if v <= u16::MAX {
            Some(v as u16)
        } else {
            None
        },
        None => None,
    }
}

/// The shortest decimal notation of the natural number `n`.
pub open spec fn decimal_digits(n: nat) -> Seq<char>
    decreases n,
{
    if n < 10 {
        seq![digit_char(n)]
    } else {
        decimal_digits(n / 10).push(digit_char(n % 10))
    }
}

/// The decimal notation of `n` that Rust's `Display` writes for integers.
pub open spec fn decimal_text(n: int) -> Seq<char> {
    if n < 0 {
        seq!['-'] + decimal_digits((-n) as nat)
    } else {
        decimal_digits(n as nat)
    }
}

/// `str::parse::<i32>`: by its documentation, it accepts an optional `+` or `-`
/// sign followed by ASCII digits and fails on anything else or on overflow.
#[verifier::external_body]
pub(crate) fn parse_i32(s: &str) -> (res: Option<i32>)
    ensures
        res == parsed_i32(s@),
{
    s.parse::<i32>().ok()
}

/// `str::parse::<usize>`: an optional `+` sign followed by ASCII digits, in range.
#[verifier::external_body]
pub(crate) fn parse_usize(s: &str) -> (res: Option<usize>)
    ensures
        res == parsed_usize(s@),
{
    s.parse::<usize>().ok()
}

/// `str::parse::<u16>`: an optional `+` sign followed by ASCII digits, in range.
#[verifier::external_body]
pub(crate) fn parse_u16(s: &str) -> (res: Option<u16>)
    ensures
        res == parsed_u16(s@),
{
    s.parse::<u16>().ok()
}

/// The decimal notation of a natural number is Rust's shortest one: a
/// non-empty run of ASCII digits that reads back as the number, with no
/// leading `0` unless the number is zero.
pub proof fn law_decimal_digits_are_shortest(n: nat)
    ensures
        decimal_digits(n).len() >= 1,
        all_digits(decimal_digits(n)),
        digits_value(decimal_digits(n)) == n,
        n >= 1 ==> decimal_digits(n)[0] != '0',
        n == 0 ==> decimal_digits(n) == seq!['0'],
    decreases n,
{
    let d = decimal_digits(n);
    if n < 10 {
        assert(d == seq![digit_char(n)]);
        assert(digit_char(n) as u32 == 48 + n);
        assert(d.drop_last() =~= Seq::<char>::empty());
        assert(digit_value(d.last()) == n);
        assert(digits_value(d) == digits_value(d.drop_last()) * 10 + digit_value(d.last()));
    } else {
        let q = n / 10;
        let r = n % 10;
        law_decimal_digits_are_shortest(q);
        let p = decimal_digits(q);
        assert(d == p.push(digit_char(r)));
        assert(digit_char(r) as u32 == 48 + r);
        assert(d.drop_last() =~= p);
        assert(d.last() == digit_char(r));
        vstd::arithmetic::div_mod::lemma_fundamental_div_mod(n as int, 10);
        assert(digit_value(d.last()) == r);
        assert(digits_value(d) == digits_value(p) * 10 + r);
        assert(q * 10 == 10 * q) by (nonlinear_arith);
        assert(d[0] == p[0]);
        assert forall|i: int| 0 <= i < d.len() implies #[trigger] is_digit(d[i]) by {
            if i < p.len() {
                assert(d[i] == p[i]);
            }
        }
    }
}

/// The decimal text of an integer reads back as the integer: digits for a
/// natural number, and `-` before the digits of its magnitude otherwise.
pub proof fn law_decimal_text_reads_back(n: int)
    ensures
        n >= 0 ==> signed_value(decimal_text(n)) == Some(n),
        n < 0 ==> signed_value(decimal_text(n)) == Some(n),
{
    if n >= 0 {
        law_decimal_digits_are_shortest(n as nat);
        assert(decimal_text(n)[0] != '-' && decimal_text(n)[0] != '+') by {
            assert(is_digit(decimal_text(n)[0]));
        }
    } else {
        law_decimal_digits_are_shortest((-n) as nat);
        let t = decimal_text(n);
        assert(t.drop_first() =~= decimal_digits((-n) as nat));
        assert(t[0] == '-');
    }
}

/// Appends the decimal digits of `n` to `out`.
fn push_decimal_digits(out: &mut String, n: u64)
    ensures
        final(out)@ == old(out)@ + decimal_digits(n as nat),
    decreases n,
{
    if n >= 10 {
        push_decimal_digits(out, n / 10);
    }
    let d: u8 = (n % 10) as u8;
    let c: char = (48u8 + d) as char;
    let ghost mid = out@;
    push_char(out, c);
    proof {
        assert(c == digit_char((n % 10) as nat));
        if n >= 10 {
            assert(decimal_digits(n as nat) == decimal_digits((n / 10) as nat).push(digit_char((n % 10) as nat)));
            assert(out@ =~= old(out)@ + decimal_digits(n as nat));
        } else {
            assert(decimal_digits(n as nat) == seq![digit_char(n as nat)]);
            assert(out@ =~= old(out)@ + decimal_digits(n as nat));
        }
    }
}

/// The decimal notation of `n`, as `to_string` writes it.
pub(crate) fn decimal_u64(n: u64) -> (res: String)
    ensures
        res@ == decimal_text(n as int),
{
    let mut s = String::new();
    push_decimal_digits(&mut s, n);
    assert(s@ =~= decimal_text(n as int));
    s
}

/// The decimal notation of `n`, with `-` when negative, as `to_string` writes it.
pub(crate) fn decimal_i32(n: i32) -> (res: String)
    ensures
        res@ == decimal_text(n as int),
{
    let mut s = String::new();
    if n < 0 {
        push_char(&mut s, '-');
        let m: u64 = (0 - (n as i64)) as u64;
        push_decimal_digits(&mut s, m);
        assert(s@ =~= decimal_text(n as int));
    } else {
        push_decimal_digits(&mut s, n as u64);
        assert(s@ =~= decimal_text(n as int));
    }
    s
}

// ---------------------------------------------------------------------------
// Building strings
// ---------------------------------------------------------------------------

/// `String::push`: appends one character.
#[verifier::external_body]
pub(crate) fn push_char(s: &mut String, c: char)
    ensures
        final(s)@ == old(s)@.push(c),
{
    s.push(c);
}

/// The characters of `s`, in order.
pub fn chars_of(s: &str) -> (res: Vec<char>)
    ensures
        res@ == s@,
{
    let mut v: Vec<char> = Vec::new();
    for c in it: s.chars()
        invariant
            v@ == it.seq().take(it.index() as int),
    {
        v.push(c);
    }
    v
}

/// The string made of `chars`, in order.
pub fn string_of(chars: &Vec<char>) -> (res: String)
    ensures
        res@ == chars@,
{
    let mut s = String::new();
    let n = chars.len();
    for i in 0..n
        invariant
            n == chars.len(),
            s@ == chars@.take(i as int),
    {
        push_char(&mut s, chars[i]);
        assert(chars@.take(i + 1) == chars@.take(i as int).push(chars@[i as int]));
    }
    assert(chars@.take(n as int) == chars@);
    s
}

/// `a` followed by `b`.
pub fn concat2(a: &str, b: &str) -> (res: String)
    ensures
        res@ == a@ + b@,
{
    let mut s = String::from_str(a);
    s.append(b);
    s
}

/// `a`, `b` and `c` one after another.
pub fn concat3(a: &str, b: &str, c: &str) -> (res: String)
    ensures
        res@ == a@ + b@ + c@,
{
    let mut s = String::from_str(a);
    s.append(b);
    s.append(c);
    s
}

// ---------------------------------------------------------------------------
// Searching
// ---------------------------------------------------------------------------

/// `pat` occurs in `s` starting at position `i`.
pub open spec fn occurs_at(s: Seq<char>, pat: Seq<char>, i: int) -> bool {
    0 <= i && i + pat.len() <= s.len() && s.subrange(i, i + pat.len()) == pat
}

/// `pat` occurs somewhere in `s`.
pub open spec fn contains_text(s: Seq<char>, pat: Seq<char>) -> bool {
    exists|i: int| occurs_at(s, pat, i)
}

/// Whether `pat` occurs in `s` at position `i` (vectors of characters).
fn matches_at(s: &Vec<char>, pat: &Vec<char>, i: usize) -> (res: bool)
    requires
        i + pat.len() <= s.len(),
    ensures
        res == occurs_at(s@, pat@, i as int),
{
    let n = pat.len();
    for j in 0..n
        invariant
            n == pat.len(),
            i + n <= s.len(),
            forall|k: int| 0 <= k < j ==> s@[i + k] == pat@[k],
    {
        if s[i + j] != pat[j] {
            assert(s@.subrange(i as int, i + n)[j as int] != pat@[j as int]);
            return false;
        }
    }
    assert(s@.subrange(i as int, i + n) =~= pat@);
    true
}

/// `prefix` begins `s`.
pub fn has_prefix(s: &str, prefix: &str) -> (res: bool)
    ensures
        res == prefix@.is_prefix_of(s@),
{
    let sv = chars_of(s);
    let pv = chars_of(prefix);
    if pv.len() > sv.len() {
        return false;
    }
    let r = matches_at(&sv, &pv, 0);
    assert(r == (sv@.subrange(0, pv@.len() as int) == pv@));
    r
}

/// `pat` occurs somewhere in `s`.
pub fn has_substring(s: &str, pat: &str) -> (res: bool)
    ensures
        res == contains_text(s@, pat@),
{
    let sv = chars_of(s);
    let pv = chars_of(pat);
    if pv.len() > sv.len() {
        assert forall|i: int| !occurs_at(s@, pat@, i) by {}
        return false;
    }
    let last = sv.len() - pv.len();
    for i in 0..last
        invariant
            sv@ == s@,
            pv@ == pat@,
            last + pv.len() == sv.len(),
            forall|k: int| 0 <= k < i ==> !occurs_at(s@, pat@, k),
    {
        if matches_at(&sv, &pv, i) {
            return true;
        }
    }
    if matches_at(&sv, &pv, last) {
        return true;
    }
    assert forall|k: int| !occurs_at(s@, pat@, k) by {
        if 0 <= k && k < last {
        }
    }
    false
}

// ---------------------------------------------------------------------------
// Splitting
// ---------------------------------------------------------------------------

/// The pieces of `s` between occurrences of `sep`, read from the left, where
/// `cur` is the piece being read and `done` the pieces already closed.
pub open spec fn split_from(s: Seq<char>, sep: char, cur: Seq<char>, done: Seq<Seq<char>>) -> Seq<
    Seq<char>,
>
    decreases s.len(),
{
    if s.len() == 0 {
        done.push(cur)
    } else if s[0] == sep {
        split_from(s.drop_first(), sep, Seq::empty(), done.push(cur))
    } else {
        split_from(s.drop_first(), sep, cur.push(s[0]), done)
    }
}

/// What `str::split(sep)` yields: the pieces of `s` between occurrences of `sep`
/// (an empty `s` gives one empty piece).
pub open spec fn split_on(s: Seq<char>, sep: char) -> Seq<Seq<char>> {
    split_from(s, sep, Seq::empty(), Seq::empty())
}

/// The views of a vector of character vectors.
pub open spec fn views_of(v: Seq<Vec<char>>) -> Seq<Seq<char>> {
    v.map_values(|x: Vec<char>| x@)
}

/// Splits `s` at every `sep`.
pub fn split_chars(s: &Vec<char>, sep: char) -> (res: Vec<Vec<char>>)
    ensures
        views_of(res@) == split_on(s@, sep),
{
    let mut done: Vec<Vec<char>> = Vec::new();
    let mut cur: Vec<char> = Vec::new();
    let n = s.len();
    assert(s@.skip(0) == s@);
    assert(views_of(done@) =~= Seq::<Seq<char>>::empty());
    assert(cur@ =~= Seq::<char>::empty());
    for i in 0..n
        invariant
            n == s.len(),
            split_on(s@, sep) == split_from(s@.skip(i as int), sep, cur@, views_of(done@)),
    {
        let c = s[i];
        assert(s@.skip(i as int).drop_first() == s@.skip(i + 1));
        assert(s@.skip(i as int)[0] == c);
        if c == sep {
            let ghost before = done@;
            let ghost piece_view = cur@;
            let piece = cur;
            cur = Vec::new();
            done.push(piece);
            assert(views_of(done@) =~= views_of(before).push(piece_view));
        } else {
            cur.push(c);
        }
    }
    assert(s@.skip(n as int) =~= Seq::<char>::empty());
    let ghost before = done@;
    let ghost last_view = cur@;
    done.push(cur);
    assert(views_of(done@) =~= views_of(before).push(last_view));
    done
}

/// The characters of `v` from position `k` on.
pub fn skip_chars(v: &Vec<char>, k: usize) -> (res: Vec<char>)
    requires
        k <= v.len(),
    ensures
        res@ == v@.skip(k as int),
{
    let mut out: Vec<char> = Vec::new();
    let n = v.len();
    for i in k..n
        invariant
            n == v.len(),
            k <= i <= n,
            out@ == v@.subrange(k as int, i as int),
    {
        out.push(v[i]);
        assert(v@.subrange(k as int, i + 1) == v@.subrange(k as int, i as int).push(v@[i as int]));
    }
    out
}

/// Whether `prefix` begins `v` (vectors of characters).
pub fn vec_has_prefix(v: &Vec<char>, prefix: &Vec<char>) -> (res: bool)
    ensures
        res == prefix@.is_prefix_of(v@),
{
    if prefix.len() > v.len() {
        return false;
    }
    let r = matches_at(v, prefix, 0);
    assert(r == (v@.subrange(0, prefix@.len() as int) == prefix@));
    r
}

/// Splitting never yields fewer pieces than those already closed, plus one.
pub proof fn lemma_split_from_len(s: Seq<char>, sep: char, cur: Seq<char>, done: Seq<Seq<char>>)
    ensures
        split_from(s, sep, cur, done).len() >= done.len() + 1,
    decreases s.len(),
{
    if s.len() == 0 {
    } else if s[0] == sep {
        lemma_split_from_len(s.drop_first(), sep, Seq::empty(), done.push(cur));
    } else {
        lemma_split_from_len(s.drop_first(), sep, cur.push(s[0]), done);
    }
}

/// Splitting keeps the pieces already closed, in front.
pub proof fn lemma_split_from_keeps_done(s: Seq<char>, sep: char, cur: Seq<char>, done: Seq<Seq<char>>)
    ensures
        split_from(s, sep, cur, done).len() > done.len(),
        forall|i: int| 0 <= i < done.len() ==> #[trigger] split_from(s, sep, cur, done)[i] == done[i],
    decreases s.len(),
{
    if s.len() == 0 {
    } else if s[0] == sep {
        lemma_split_from_keeps_done(s.drop_first(), sep, Seq::empty(), done.push(cur));
        assert forall|i: int| 0 <= i < done.len() implies #[trigger] split_from(s, sep, cur, done)[i]
            == done[i] by {
            assert(done.push(cur)[i] == done[i]);
        }
    } else {
        lemma_split_from_keeps_done(s.drop_first(), sep, cur.push(s[0]), done);
    }
}

/// Reading a run `p` free of `sep` only extends the piece being read.
pub proof fn lemma_split_from_run(p: Seq<char>, tail: Seq<char>, sep: char, cur: Seq<char>, done: Seq<Seq<char>>)
    requires
        !p.contains(sep),
    ensures
        split_from(p + tail, sep, cur, done) == split_from(tail, sep, cur + p, done),
    decreases p.len(),
{
    if p.len() == 0 {
        assert(p + tail =~= tail);
        assert(cur + p =~= cur);
    } else {
        assert((p + tail)[0] == p[0]);
        assert(p[0] != sep) by {
            if p[0] == sep {
                assert(p.contains(sep));
            }
        }
        assert((p + tail).drop_first() =~= p.drop_first() + tail);
        assert(cur.push(p[0]) + p.drop_first() =~= cur + p);
        assert(!p.drop_first().contains(sep)) by {
            if p.drop_first().contains(sep) {
                let k = choose|k: int| 0 <= k < p.drop_first().len() && p.drop_first()[k] == sep;
                assert(p[k + 1] == sep);
            }
        }
        lemma_split_from_run(p.drop_first(), tail, sep, cur.push(p[0]), done);
    }
}

/// The last piece of a text that ends in `sep` and a run `b` free of `sep` is `b`.
pub proof fn lemma_split_last_piece(s: Seq<char>, b: Seq<char>, sep: char, cur: Seq<char>, done: Seq<Seq<char>>)
    requires
        !b.contains(sep),
    ensures
        split_from(s + seq![sep] + b, sep, cur, done).last() == b,
    decreases s.len(),
{
    let whole = s + seq![sep] + b;
    if s.len() == 0 {
        assert(whole[0] == sep);
        assert(whole.drop_first() =~= b + Seq::<char>::empty());
        lemma_split_from_run(b, Seq::empty(), sep, Seq::empty(), done.push(cur));
        assert(Seq::<char>::empty() + b =~= b);
    } else {
        assert(whole[0] == s[0]);
        assert(whole.drop_first() =~= s.drop_first() + seq![sep] + b);
        if s[0] == sep {
            lemma_split_last_piece(s.drop_first(), b, sep, Seq::empty(), done.push(cur));
        } else {
            lemma_split_last_piece(s.drop_first(), b, sep, cur.push(s[0]), done);
        }
    }
}

/// Whether the characters of `v` are exactly those of `t`.
pub fn same_text(v: &Vec<char>, t: &str) -> (res: bool)
    ensures
        res == (v@ == t@),
{
    let tv = chars_of(t);
    if tv.len() != v.len() {
        return false;
    }
    let r = matches_at(v, &tv, 0);
    assert(v@.subrange(0, tv@.len() as int) == v@);
    r
}

/// Whether `s` and `t` have the same characters.
pub fn equals_text(s: &str, t: &str) -> (res: bool)
    ensures
        res == (s@ == t@),
{
    let sv = chars_of(s);
    same_text(&sv, t)
}

} // verus!
