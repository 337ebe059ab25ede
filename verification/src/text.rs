//! Character-level string utilities shared by the rest of the library.
use vstd::prelude::*;
use vstd::string::StringExecFns;

verus! {

/// Appends one character to a string (std's `String::push`).
#[verifier::external_body]
pub(crate) fn push_char(s: &mut String, c: char)
    ensures
        final(s)@ == old(s)@.push(c),
{
    s.push(c);
}

/// The characters of a string slice, in order.
pub fn chars_of(s: &str) -> (v: Vec<char>)
    ensures
        v@ == s@,
{
    broadcast use vstd::string::group_string_axioms;
    let mut v: Vec<char> = Vec::new();
    for c in it: s.chars()
        invariant
            v@ == it.seq().take(it.index() as int),
            it.seq() == s@,
    {
        v.push(c);
    }
    v
}

/// Appends a string slice.
pub fn append(s: &mut String, t: &str)
    ensures
        final(s)@ == old(s)@ + t@,
{
    s.append(t);
}

} // verus!

verus! {

/// A string made of the characters `cs[lo..hi]`.
pub fn string_from_range(cs: &Vec<char>, lo: usize, hi: usize) -> (s: String)
    requires
        lo <= hi <= cs.len(),
    ensures
        s@ == cs@.subrange(lo as int, hi as int),
{
    let mut s = String::new();
    let mut i = lo;
    while i < hi
        invariant
            lo <= i <= hi <= cs.len(),
            s@ == cs@.subrange(lo as int, i as int),
        decreases hi - i,
    {
        push_char(&mut s, cs[i]);
        assert(cs@.subrange(lo as int, i + 1) == cs@.subrange(lo as int, i as int).push(cs@[i as int]));
        i = i + 1;
    }
    s
}

/// A string made of all of `cs`.
pub fn string_from_chars(cs: &Vec<char>) -> (s: String)
    ensures
        s@ == cs@,
{
    let s = string_from_range(cs, 0, cs.len());
    assert(cs@.subrange(0, cs@.len() as int) == cs@);
    s
}

/// Unicode `White_Space`, the property that `char::is_whitespace` tests.
pub open spec fn is_ws(c: char) -> bool {
    let n = c as u32;
    ||| (0x9 <= n && n <= 0xd)
    ||| n == 0x20
    ||| n == 0x85
    ||| n == 0xa0
    ||| n == 0x1680
    ||| (0x2000 <= n && n <= 0x200a)
    ||| n == 0x2028
    ||| n == 0x2029
    ||| n == 0x202f
    ||| n == 0x205f
    ||| n == 0x3000
}

/// Whether `c` is white space in the sense of `char::is_whitespace`.
pub fn is_whitespace(c: char) -> (b: bool)
    ensures
        b == is_ws(c),
{
    let n = c as u32;
    (0x9 <= n && n <= 0xd) || n == 0x20 || n == 0x85 || n == 0xa0 || n == 0x1680 || (0x2000
        <= n && n <= 0x200a) || n == 0x2028 || n == 0x2029 || n == 0x202f || n == 0x205f || n
        == 0x3000
}

/// `s` without its leading white space.
pub open spec fn trim_start(s: Seq<char>) -> Seq<char>
    decreases s.len(),
{
    if s.len() > 0 && is_ws(s[0]) {
        trim_start(s.drop_first())
    } else {
        s
    }
}

/// `s` without its trailing white space.
pub open spec fn trim_end(s: Seq<char>) -> Seq<char>
    decreases s.len(),
{
    if s.len() > 0 && is_ws(s.last()) {
        trim_end(s.drop_last())
    } else {
        s
    }
}

/// `s` without leading and trailing white space, as `str::trim` gives it.
pub open spec fn trim(s: Seq<char>) -> Seq<char> {
    trim_end(trim_start(s))
}

proof fn lemma_trim_start_skip(s: Seq<char>, i: int)
    requires
        0 <= i <= s.len(),
        forall|k: int| 0 <= k < i ==> is_ws(#[trigger] s[k]),
    ensures
        trim_start(s) == trim_start(s.subrange(i, s.len() as int)),
    decreases i,
{
    if i > 0 {
        assert(s.drop_first() == s.subrange(1, s.len() as int));
        let t = s.drop_first();
        assert forall|k: int| 0 <= k < i - 1 implies is_ws(#[trigger] t[k]) by {
            assert(t[k] == s[k + 1]);
        }
        lemma_trim_start_skip(t, i - 1);
        assert(t.subrange(i - 1, t.len() as int) == s.subrange(i, s.len() as int));
    } else {
        assert(s.subrange(0, s.len() as int) == s);
    }
}

proof fn lemma_trim_end_cut(s: Seq<char>, j: int)
    requires
        0 <= j <= s.len(),
        forall|k: int| j <= k < s.len() ==> is_ws(#[trigger] s[k]),
    ensures
        trim_end(s) == trim_end(s.subrange(0, j)),
    decreases s.len() - j,
{
    if j < s.len() {
        let t = s.drop_last();
        assert forall|k: int| j <= k < t.len() implies is_ws(#[trigger] t[k]) by {
            assert(t[k] == s[k]);
        }
        lemma_trim_end_cut(t, j);
        assert(t.subrange(0, j) == s.subrange(0, j));
    } else {
        assert(s.subrange(0, j) == s);
    }
}

/// The bounds of `trim(cs[lo..hi])` inside `cs`.
pub fn trim_bounds(cs: &Vec<char>, lo: usize, hi: usize) -> (r: (usize, usize))
    requires
        lo <= hi <= cs.len(),
    ensures
        lo <= r.0 <= r.1 <= hi,
        cs@.subrange(r.0 as int, r.1 as int) == trim(cs@.subrange(lo as int, hi as int)),
{
    let ghost s = cs@.subrange(lo as int, hi as int);
    let mut a = lo;
    while a < hi && is_whitespace(cs[a])
        invariant
            lo <= a <= hi <= cs.len(),
            s == cs@.subrange(lo as int, hi as int),
            forall|k: int| lo <= k < a ==> is_ws(#[trigger] cs@[k]),
        decreases hi - a,
    {
        a = a + 1;
    }
    proof {
        assert forall|k: int| 0 <= k < a - lo implies is_ws(#[trigger] s[k]) by {
            assert(s[k] == cs@[k + lo]);
        }
        lemma_trim_start_skip(s, a - lo);
        assert(s.subrange(a - lo, s.len() as int) == cs@.subrange(a as int, hi as int));
        let u = cs@.subrange(a as int, hi as int);
        if a < hi {
            assert(!is_ws(u[0]));
        }
        assert(trim_start(u) == u);
    }
    let mut b = hi;
    while b > a && is_whitespace(cs[b - 1])
        invariant
            lo <= a <= b <= hi <= cs.len(),
            forall|k: int| b <= k < hi ==> is_ws(#[trigger] cs@[k]),
        decreases b - a,
    {
        b = b - 1;
    }
    proof {
        let u = cs@.subrange(a as int, hi as int);
        assert forall|k: int| b - a <= k < u.len() implies is_ws(#[trigger] u[k]) by {
            assert(u[k] == cs@[k + a]);
        }
        lemma_trim_end_cut(u, b - a);
        let w = u.subrange(0, b - a);
        assert(w == cs@.subrange(a as int, b as int));
        if b > a {
            assert(w.last() == cs@[b - 1]);
        }
        assert(trim_end(w) == w);
    }
    (a, b)
}

/// Whether `s` begins with `p`.
pub open spec fn starts_with(s: Seq<char>, p: Seq<char>) -> bool {
    p.len() <= s.len() && s.subrange(0, p.len() as int) == p
}

/// Whether `cs[lo..hi]` begins with `p`.
pub fn range_starts_with(cs: &Vec<char>, lo: usize, hi: usize, p: &Vec<char>) -> (b: bool)
    requires
        lo <= hi <= cs.len(),
    ensures
        b == starts_with(cs@.subrange(lo as int, hi as int), p@),
{
    let ghost s = cs@.subrange(lo as int, hi as int);
    if p.len() > hi - lo {
        return false;
    }
    let mut i: usize = 0;
    while i < p.len()
        invariant
            lo <= hi <= cs.len(),
            p.len() <= hi - lo,
            0 <= i <= p.len(),
            s == cs@.subrange(lo as int, hi as int),
            forall|k: int| 0 <= k < i ==> s[k] == p@[k],
        decreases p.len() - i,
    {
        if cs[lo + i] != p[i] {
            assert(s.subrange(0, p.len() as int)[i as int] != p@[i as int]);
            return false;
        }
        i = i + 1;
    }
    assert(s.subrange(0, p.len() as int) == p@);
    true
}

/// `s` with every leading copy of `p` removed, as `str::trim_start_matches` gives it.
pub open spec fn strip_all_prefix(s: Seq<char>, p: Seq<char>) -> Seq<char>
    decreases s.len(),
{
    if p.len() > 0 && starts_with(s, p) {
        strip_all_prefix(s.subrange(p.len() as int, s.len() as int), p)
    } else {
        s
    }
}

/// Whether `t` occurs in `s` as a contiguous run, as `str::contains` tests it.
pub open spec fn contains_seq(s: Seq<char>, t: Seq<char>) -> bool {
    exists|i: int| 0 <= i && i + t.len() <= s.len() && #[trigger] s.subrange(i, i + t.len()) == t
}

/// Whether `t` occurs in `s`.
pub fn contains(s: &Vec<char>, t: &Vec<char>) -> (b: bool)
    ensures
        b == contains_seq(s@, t@),
{
    if t.len() > s.len() {
        return false;
    }
    let last = s.len() - t.len();
    let mut i: usize = 0;
    loop
        invariant
            t.len() <= s.len(),
            last == s.len() - t.len(),
            i <= last,
            forall|k: int| 0 <= k < i ==> #[trigger] s@.subrange(k, k + t.len()) != t@,
        decreases last - i,
    {
        assert(s@.subrange(i as int, s.len() as int).subrange(0, t.len() as int) == s@.subrange(
            i as int,
            i + t.len(),
        ));
        if range_starts_with(s, i, s.len(), t) {
            return true;
        }
        if i == last {
            return false;
        }
        i = i + 1;
    }
}

/// The decimal digit character for `d`.
pub open spec fn digit_char(d: nat) -> char {
    if d == 0 { '0' }
    else if d == 1 { '1' }
    else if d == 2 { '2' }
    else if d == 3 { '3' }
    else if d == 4 { '4' }
    else if d == 5 { '5' }
    else if d == 6 { '6' }
    else if d == 7 { '7' }
    else if d == 8 { '8' }
    else { '9' }
}

/// The decimal rendering of `n`, without sign or leading zeros.
pub open spec fn decimal(n: nat) -> Seq<char>
    decreases n,
{
    if n < 10 {
        seq![digit_char(n)]
    } else {
        decimal(n / 10).push(digit_char(n % 10))
    }
}

/// The decimal rendering of a signed number, as `Display` writes it.
pub open spec fn signed_decimal(n: int) -> Seq<char> {
    if n < 0 {
        seq!['-'] + decimal((-n) as nat)
    } else {
        decimal(n as nat)
    }
}

fn digit_to_char(d: u64) -> (c: char)
    requires
        d < 10,
    ensures
        c == digit_char(d as nat),
{
    if d == 0 { '0' }
    else if d == 1 { '1' }
    else if d == 2 { '2' }
    else if d == 3 { '3' }
    else if d == 4 { '4' }
    else if d == 5 { '5' }
    else if d == 6 { '6' }
    else if d == 7 { '7' }
    else if d == 8 { '8' }
    else { '9' }
}

/// Appends the decimal rendering of `n`.
pub fn push_decimal(s: &mut String, n: u64)
    ensures
        final(s)@ == old(s)@ + decimal(n as nat),
    decreases n,
{
    if n < 10 {
        push_char(s, digit_to_char(n));
        assert(old(s)@.push(digit_char(n as nat)) == old(s)@ + seq![digit_char(n as nat)]);
    } else {
        push_decimal(s, n / 10);
        push_char(s, digit_to_char(n % 10));
        assert(old(s)@ + decimal((n / 10) as nat) + seq![digit_char((n % 10) as nat)] == old(s)@
            + decimal(n as nat));
    }
}

/// Appends the decimal rendering of a signed number, with a leading `-` when negative.
pub fn push_signed_decimal(s: &mut String, n: i64)
    ensures
        final(s)@ == old(s)@ + signed_decimal(n as int),
{
    if n < 0 {
        push_char(s, '-');
        let m: u64 = ((-(n + 1)) as u64) + 1;
        push_decimal(s, m);
        assert(old(s)@.push('-') + decimal(m as nat) == old(s)@ + (seq!['-'] + decimal(m as nat)));
    } else {
        push_decimal(s, n as u64);
    }
}

/// The decimal rendering of `n` as a new string.
pub fn decimal_string(n: u64) -> (s: String)
    ensures
        s@ == decimal(n as nat),
{
    let mut s = String::new();
    push_decimal(&mut s, n);
    assert(Seq::<char>::empty() + decimal(n as nat) == decimal(n as nat));
    s
}

} // verus!

verus! {

/// The pieces of `s` between occurrences of `sep`, as `str::split` with a `char` yields them
/// (empty pieces included; an empty string gives one empty piece).
pub open spec fn split_on(s: Seq<char>, sep: char) -> Seq<Seq<char>>
    decreases s.len(),
{
    if s.len() == 0 {
        seq![Seq::<char>::empty()]
    } else {
        let r = split_on(s.drop_last(), sep);
        if s.last() == sep {
            r.push(Seq::<char>::empty())
        } else {
            r.update(r.len() - 1, r.last().push(s.last()))
        }
    }
}

proof fn lemma_split_on_nonempty(s: Seq<char>, sep: char)
    ensures
        split_on(s, sep).len() >= 1,
    decreases s.len(),
{
    if s.len() > 0 {
        lemma_split_on_nonempty(s.drop_last(), sep);
    }
}

/// The index ranges, inside `cs`, of the pieces of `cs` between occurrences of `sep`.
pub fn split_ranges(cs: &Vec<char>, sep: char) -> (r: Vec<(usize, usize)>)
    ensures
        r.len() == split_on(cs@, sep).len(),
        forall|k: int|
            0 <= k < r.len() ==> {
                &&& (#[trigger] r@[k]).0 <= r@[k].1 <= cs.len()
                &&& cs@.subrange(r@[k].0 as int, r@[k].1 as int) == split_on(cs@, sep)[k]
            },
{
    let mut r: Vec<(usize, usize)> = Vec::new();
    r.push((0, 0));
    let mut i: usize = 0;
    while i < cs.len()
        invariant
            i <= cs.len(),
            r.len() >= 1,
            r@.last().1 == i,
            r.len() == split_on(cs@.take(i as int), sep).len(),
            forall|k: int|
                0 <= k < r.len() ==> {
                    &&& (#[trigger] r@[k]).0 <= r@[k].1 <= i
                    &&& cs@.subrange(r@[k].0 as int, r@[k].1 as int) == split_on(
                        cs@.take(i as int),
                        sep,
                    )[k]
                },
        decreases cs.len() - i,
    {
        let ghost old_r = r@;
        let ghost pre = cs@.take(i as int);
        let ghost next = cs@.take(i + 1);
        assert(next.drop_last() == pre);
        assert(next.last() == cs@[i as int]);
        proof {
            lemma_split_on_nonempty(pre, sep);
        }
        if cs[i] == sep {
            r.push((i + 1, i + 1));
            assert forall|k: int| 0 <= k < r.len() implies {
                &&& (#[trigger] r@[k]).0 <= r@[k].1 <= i + 1
                &&& cs@.subrange(r@[k].0 as int, r@[k].1 as int) == split_on(next, sep)[k]
            } by {
                if k < old_r.len() {
                    assert(r@[k] == old_r[k]);
                }
            }
        } else {
            let last = r.len() - 1;
            let start = r[last].0;
            r.set(last, (start, i + 1));
            assert forall|k: int| 0 <= k < r.len() implies {
                &&& (#[trigger] r@[k]).0 <= r@[k].1 <= i + 1
                &&& cs@.subrange(r@[k].0 as int, r@[k].1 as int) == split_on(next, sep)[k]
            } by {
                if k < last {
                    assert(r@[k] == old_r[k]);
                } else {
                    assert(cs@.subrange(start as int, i + 1) == cs@.subrange(
                        start as int,
                        i as int,
                    ).push(cs@[i as int]));
                }
            }
        }
        i = i + 1;
    }
    assert(cs@.take(cs.len() as int) == cs@);
    r
}

/// The bounds of `strip_all_prefix(cs[lo..hi], p)` inside `cs`.
pub fn strip_all_prefix_bounds(cs: &Vec<char>, lo: usize, hi: usize, p: &Vec<char>) -> (r: usize)
    requires
        lo <= hi <= cs.len(),
    ensures
        lo <= r <= hi,
        cs@.subrange(r as int, hi as int) == strip_all_prefix(cs@.subrange(lo as int, hi as int), p@),
{
    let mut a = lo;
    if p.len() == 0 {
        return lo;
    }
    while range_starts_with(cs, a, hi, p)
        invariant
            lo <= a <= hi <= cs.len(),
            p.len() > 0,
            strip_all_prefix(cs@.subrange(a as int, hi as int), p@) == strip_all_prefix(
                cs@.subrange(lo as int, hi as int),
                p@,
            ),
        decreases hi - a,
    {
        let ghost s = cs@.subrange(a as int, hi as int);
        assert(s.subrange(p.len() as int, s.len() as int) == cs@.subrange(a + p.len(), hi as int));
        a = a + p.len();
    }
    a
}

/// Why a decimal number did not parse; the kinds that `u32::from_str` reports.
#[derive(PartialEq, Eq, Debug, Clone, Copy, Structural)]
pub enum IntParseError {
    Empty,
    InvalidDigit,
    PosOverflow,
}

impl IntParseError {
    /// The message that `ParseIntError`'s `Display` writes for this kind.
    pub fn message(&self) -> (m: String)
        ensures
            m@ == self.message_spec(),
    {
        match self {
            IntParseError::Empty => String::from_str("cannot parse integer from empty string"),
            IntParseError::InvalidDigit => String::from_str("invalid digit found in string"),
            IntParseError::PosOverflow => String::from_str("number too large to fit in target type"),
        }
    }

    pub open spec fn message_spec(&self) -> Seq<char> {
        match self {
            IntParseError::Empty => "cannot parse integer from empty string"@,
            IntParseError::InvalidDigit => "invalid digit found in string"@,
            IntParseError::PosOverflow => "number too large to fit in target type"@,
        }
    }
}

pub open spec fn is_digit(c: char) -> bool {
    '0' <= c && c <= '9'
}

pub open spec fn digit_value(c: char) -> int {
    c as int - '0' as int
}

/// Reads the digits of `ds` after the value `acc` read so far, left to right.
pub open spec fn parse_digits(ds: Seq<char>, acc: int) -> Result<u32, IntParseError>
    decreases ds.len(),
{
    if ds.len() == 0 {
        Ok(acc as u32)
    } else if !is_digit(ds[0]) {
        Err(IntParseError::InvalidDigit)
    } else if acc * 10 + digit_value(ds[0]) > u32::MAX {
        Err(IntParseError::PosOverflow)
    } else {
        parse_digits(ds.drop_first(), acc * 10 + digit_value(ds[0]))
    }
}

/// What `u32::from_str` gives for `s`: an optional `+`, then decimal digits only.
pub open spec fn parse_u32_spec(s: Seq<char>) -> Result<u32, IntParseError> {
    if s.len() == 0 {
        Err(IntParseError::Empty)
    } else if s.len() == 1 && (s[0] == '+' || s[0] == '-') {
        Err(IntParseError::InvalidDigit)
    } else if s[0] == '+' {
        parse_digits(s.drop_first(), 0)
    } else {
        parse_digits(s, 0)
    }
}

/// Parses a decimal `u32` as `str::parse::<u32>` does.
pub fn parse_u32(cs: &Vec<char>) -> (r: Result<u32, IntParseError>)
    ensures
        r == parse_u32_spec(cs@),
{
    if cs.len() == 0 {
        return Err(IntParseError::Empty);
    }
    if cs.len() == 1 && (cs[0] == '+' || cs[0] == '-') {
        return Err(IntParseError::InvalidDigit);
    }
    let start: usize = if cs[0] == '+' { 1 } else { 0 };
    let ghost ds = cs@.subrange(start as int, cs.len() as int);
    assert(start == 1 ==> ds == cs@.drop_first());
    assert(start == 0 ==> ds == cs@);
    let mut acc: u32 = 0;
    let mut i = start;
    while i < cs.len()
        invariant
            start <= i <= cs.len(),
            ds == cs@.subrange(start as int, cs.len() as int),
            parse_u32_spec(cs@) == parse_digits(ds, 0),
            parse_digits(cs@.subrange(i as int, cs.len() as int), acc as int) == parse_digits(ds, 0),
        decreases cs.len() - i,
    {
        let c = cs[i];
        let ghost rest = cs@.subrange(i as int, cs.len() as int);
        assert(rest[0] == c);
        assert(rest.drop_first() == cs@.subrange(i + 1, cs.len() as int));
        if !('0' <= c && c <= '9') {
            return Err(IntParseError::InvalidDigit);
        }
        let d = (c as u32) - ('0' as u32);
        assert(d as int == digit_value(c));
        if acc > 429496729 || (acc == 429496729 && d > 5) {
            assert(acc * 10 + d > u32::MAX) by (nonlinear_arith)
                requires
                    acc > 429496729 || (acc == 429496729 && d > 5),
            ;
            return Err(IntParseError::PosOverflow);
        }
        assert(acc * 10 + d <= u32::MAX) by (nonlinear_arith)
            requires
                !(acc > 429496729 || (acc == 429496729 && d > 5)),
                d < 10,
        ;
        acc = acc * 10 + d;
        i = i + 1;
    }
    assert(cs@.subrange(i as int, cs.len() as int).len() == 0);
    Ok(acc)
}

/// The pieces of `parts` joined with `sep` between each two, as `join` gives it.
pub open spec fn join_spec(parts: Seq<Seq<char>>, sep: Seq<char>) -> Seq<char>
    decreases parts.len(),
{
    if parts.len() == 0 {
        Seq::empty()
    } else if parts.len() == 1 {
        parts[0]
    } else {
        join_spec(parts.drop_last(), sep) + sep + parts.last()
    }
}

/// The views of a sequence of strings.
pub open spec fn views(v: Seq<String>) -> Seq<Seq<char>> {
    v.map_values(|s: String| s@)
}

/// Joins `parts` with `sep`.
pub fn join(parts: &Vec<String>, sep: &str) -> (r: String)
    ensures
        r@ == join_spec(views(parts@), sep@),
{
    let mut r = String::new();
    let mut i: usize = 0;
    while i < parts.len()
        invariant
            i <= parts.len(),
            r@ == join_spec(views(parts@).take(i as int), sep@),
        decreases parts.len() - i,
    {
        let ghost pre = views(parts@).take(i as int);
        let ghost next = views(parts@).take(i + 1);
        assert(next.drop_last() == pre);
        assert(next.last() == parts@[i as int]@);
        if i > 0 {
            append(&mut r, sep);
        }
        append(&mut r, parts[i].as_str());
        if i == 0 {
            assert(Seq::<char>::empty() + parts@[0]@ == parts@[0]@);
        }
        i = i + 1;
    }
    assert(views(parts@).take(parts.len() as int) == views(parts@));
    r
}

/// The value of the last pair in `pairs` whose key is `key`; later pairs win, as they do when
/// the pairs are collected into a `HashMap`.
pub open spec fn last_value(pairs: Seq<(Seq<char>, Seq<char>)>, key: Seq<char>) -> Option<Seq<char>>
    decreases pairs.len(),
{
    if pairs.len() == 0 {
        None
    } else if pairs.last().0 == key {
        Some(pairs.last().1)
    } else {
        last_value(pairs.drop_last(), key)
    }
}

/// The views of key/value string pairs.
pub open spec fn pair_views(v: Seq<(String, String)>) -> Seq<(Seq<char>, Seq<char>)> {
    v.map_values(|p: (String, String)| (p.0@, p.1@))
}

/// The value of the last pair whose key is `key`.
pub fn lookup_last(pairs: &Vec<(String, String)>, key: &str) -> (r: Option<String>)
    ensures
        r matches Some(v) ==> last_value(pair_views(pairs@), key@) == Some(v@),
        r is None ==> last_value(pair_views(pairs@), key@) is None,
{
    let mut i = pairs.len();
    let key_s = String::from_str(key);
    assert(pair_views(pairs@).take(i as int) == pair_views(pairs@));
    while i > 0
        invariant
            i <= pairs.len(),
            key_s@ == key@,
            last_value(pair_views(pairs@), key@) == last_value(pair_views(pairs@).take(i as int), key@),
        decreases i,
    {
        let ghost pre = pair_views(pairs@).take(i as int);
        assert(pre.drop_last() == pair_views(pairs@).take(i - 1));
        assert(pre.last() == (pairs@[i - 1].0@, pairs@[i - 1].1@));
        if pairs[i - 1].0 == key_s {
            return Some(pairs[i - 1].1.clone());
        }
        i = i - 1;
    }
    None
}

} // verus!
