use vstd::prelude::*;
use crate::endpoint::{decimal, digit_char};

verus! {

/// The port used when the configuration names none.
pub const DEFAULT_SERVER_PORT: u16 = 4567;

/// Unicode White_Space, the set of `char::is_whitespace`.
pub open spec fn is_space(c: char) -> bool {
    let u = c as u32;
    ||| 9 <= u <= 13
    ||| u == 32
    ||| u == 0x85
    ||| u == 0xA0
    ||| u == 0x1680
    ||| 0x2000 <= u <= 0x200A
    ||| u == 0x2028
    ||| u == 0x2029
    ||| u == 0x202F
    ||| u == 0x205F
    ||| u == 0x3000
}

pub open spec fn trim_start(s: Seq<char>) -> Seq<char>
    decreases s.len(),
{
    if s.len() > 0 && is_space(s[0]) {
        trim_start(s.drop_first())
    } else {
        s
    }
}

pub open spec fn trim_end(s: Seq<char>) -> Seq<char>
    decreases s.len(),
{
    if s.len() > 0 && is_space(s.last()) {
        trim_end(s.drop_last())
    } else {
        s
    }
}

/// `s` without leading and trailing white space.
pub open spec fn trim(s: Seq<char>) -> Seq<char> {
    trim_end(trim_start(s))
}

pub open spec fn is_digit(c: char) -> bool {
    48 <= (c as u32) <= 57
}

pub open spec fn digit_value(c: char) -> nat {
    ((c as u32) - 48) as nat
}

pub open spec fn all_digits(s: Seq<char>) -> bool {
    forall|i: int| 0 <= i < s.len() ==> is_digit(#[trigger] s[i])
}

/// The number that a string of decimal digits denotes.
pub open spec fn digits_value(s: Seq<char>) -> nat
    decreases s.len(),
{
    if s.len() == 0 {
        0
    } else {
        digits_value(s.drop_last()) * 10 + digit_value(s.last())
    }
}

/// A `u16` in decimal, with an optional leading `+`, as `str::parse` reads it.
pub open spec fn parse_u16_spec(s: Seq<char>) -> Option<u16> {
    let d = if s.len() > 0 && s[0] == '+' {
        s.drop_first()
    } else {
        s
    };
    if d.len() > 0 && all_digits(d) && digits_value(d) <= u16::MAX {
        Some(digits_value(d) as u16)
    } else {
        None
    }
}

pub open spec fn port_key() -> Seq<char> {
    seq!['P', 'O', 'R', 'T', '=']
}

/// The port that one line sets: after trimming, the line starts with
/// `PORT=` and the rest, trimmed, is a `u16`.
pub open spec fn line_port(line: Seq<char>) -> Option<u16> {
    let t = trim(line);
    if t.len() >= 5 && t.take(5) == port_key() {
        parse_u16_spec(trim(t.skip(5)))
    } else {
        None
    }
}

/// Reading `s` from the left: the lines that a newline closed, and the line
/// still open.
pub open spec fn scan_lines(s: Seq<char>) -> (Seq<Seq<char>>, Seq<char>)
    decreases s.len(),
{
    if s.len() == 0 {
        (Seq::empty(), Seq::empty())
    } else {
        let (done, cur) = scan_lines(s.drop_last());
        if s.last() == '\n' {
            (done.push(cur), Seq::empty())
        } else {
            (done, cur.push(s.last()))
        }
    }
}

/// The lines of `s`, split at each newline.
pub open spec fn config_lines(s: Seq<char>) -> Seq<Seq<char>> {
    let (done, cur) = scan_lines(s);
    done.push(cur)
}

/// The port set by the first line of `ls` that sets one.
pub open spec fn first_port(ls: Seq<Seq<char>>) -> Option<u16>
    decreases ls.len(),
{
    if ls.len() == 0 {
        None
    } else {
        match first_port(ls.drop_last()) {
            Some(p) => Some(p),
            None => line_port(ls.last()),
        }
    }
}

/// The port that a configuration text selects.
pub open spec fn config_port(s: Seq<char>) -> u16 {
    match first_port(config_lines(s)) {
        Some(p) => p,
        None => DEFAULT_SERVER_PORT,
    }
}

pub open spec fn resolve_port_spec(content: Option<Seq<char>>) -> u16 {
    match content {
        Some(s) => config_port(s),
        None => DEFAULT_SERVER_PORT,
    }
}

pub fn is_space_char(c: char) -> (r: bool)
    ensures
        r == is_space(c),
{
    let u = c as u32;
    (9 <= u && u <= 13) || u == 32 || u == 0x85 || u == 0xA0 || u == 0x1680 || (0x2000 <= u && u
        <= 0x200A) || u == 0x2028 || u == 0x2029 || u == 0x202F || u == 0x205F || u == 0x3000
}

/// The bounds of `v[lo..hi]` with white space trimmed from both ends.
pub fn trim_bounds(v: &Vec<char>, lo: usize, hi: usize) -> (r: (usize, usize))
    requires
        lo <= hi <= v@.len(),
    ensures
        lo <= r.0 <= r.1 <= hi,
        v@.subrange(r.0 as int, r.1 as int) == trim(v@.subrange(lo as int, hi as int)),
{
    let mut a = lo;
    while a < hi && is_space_char(v[a])
        invariant
            lo <= a <= hi <= v@.len(),
            trim_start(v@.subrange(lo as int, hi as int)) == trim_start(
                v@.subrange(a as int, hi as int),
            ),
        decreases hi - a,
    {
        assert(v@.subrange(a as int, hi as int).drop_first() =~= v@.subrange(
            a + 1,
            hi as int,
        ));
        a = a + 1;
    }
    assert(trim_start(v@.subrange(a as int, hi as int)) == v@.subrange(a as int, hi as int));
    let mut b = hi;
    while b > a && is_space_char(v[b - 1])
        invariant
            lo <= a <= b <= hi <= v@.len(),
            trim_end(v@.subrange(a as int, hi as int)) == trim_end(
                v@.subrange(a as int, b as int),
            ),
        decreases b - a,
    {
        assert(v@.subrange(a as int, b as int).drop_last() =~= v@.subrange(
            a as int,
            b - 1,
        ));
        b = b - 1;
    }
    (a, b)
}

/// Reads `v[lo..hi]` as a `u16`.
pub fn parse_u16_at(v: &Vec<char>, lo: usize, hi: usize) -> (r: Option<u16>)
    requires
        lo <= hi <= v@.len(),
    ensures
        r == parse_u16_spec(v@.subrange(lo as int, hi as int)),
{
    let ghost s = v@.subrange(lo as int, hi as int);
    let mut start = lo;
    if lo < hi && v[lo] == '+' {
        start = lo + 1;
        assert(s.drop_first() =~= v@.subrange(start as int, hi as int));
    }
    let ghost d = v@.subrange(start as int, hi as int);
    assert(d == (if s.len() > 0 && s[0] == '+' {
        s.drop_first()
    } else {
        s
    }));
    if start == hi {
        return None;
    }
    // `val` is the value read so far, held at 65536 once it exceeds a u16.
    let mut val: u32 = 0;
    let mut j = start;
    while j < hi
        invariant
            lo <= start < hi <= v@.len(),
            start <= j <= hi,
            s == v@.subrange(lo as int, hi as int),
            d == v@.subrange(start as int, hi as int),
            d == (if s.len() > 0 && s[0] == '+' {
                s.drop_first()
            } else {
                s
            }),
            all_digits(v@.subrange(start as int, j as int)),
            val == (if digits_value(v@.subrange(start as int, j as int)) > 65535 {
                65536
            } else {
                digits_value(v@.subrange(start as int, j as int))
            }),
        decreases hi - j,
    {
        let c = v[j];
        let u = c as u32;
        if u < 48 || u > 57 {
            assert(d[j - start] == v@[j as int]);
            assert(!is_digit(d[j - start]));
            return None;
        }
        let ghost p = v@.subrange(start as int, j as int);
        let ghost q = v@.subrange(start as int, j + 1);
        assert(q.drop_last() =~= p);
        assert(digits_value(q) == digits_value(p) * 10 + (u - 48));
        if val > 65535 {
            assert(digits_value(p) * 10 + (u - 48) > 65535) by (nonlinear_arith)
                requires
                    digits_value(p) > 65535,
            ;
            val = 65536;
        } else {
            let w = val * 10 + (u - 48);
            val = if w > 65535 {
                65536
            } else {
                w
            };
        }
        assert forall|i: int| 0 <= i < q.len() implies is_digit(#[trigger] q[i]) by {
            if i < p.len() {
                assert(q[i] == p[i]);
            }
        }
        j = j + 1;
    }
    if val > 65535 {
        None
    } else {
        Some(val as u16)
    }
}

/// The port that the line `v[lo..hi]` sets, if any.
pub fn line_port_at(v: &Vec<char>, lo: usize, hi: usize) -> (r: Option<u16>)
    requires
        lo <= hi <= v@.len(),
    ensures
        r == line_port(v@.subrange(lo as int, hi as int)),
{
    let (a, b) = trim_bounds(v, lo, hi);
    let ghost t = v@.subrange(a as int, b as int);
    if b - a >= 5 && v[a] == 'P' && v[a + 1] == 'O' && v[a + 2] == 'R' && v[a + 3] == 'T' && v[a
        + 4] == '=' {
        assert(t.take(5) =~= port_key());
        assert(t.skip(5) =~= v@.subrange(a + 5, b as int));
        let (c, d) = trim_bounds(v, a + 5, b);
        parse_u16_at(v, c, d)
    } else {
        proof {
            if t.len() >= 5 && t.take(5) == port_key() {
                assert(t.take(5)[0] == 'P' && t.take(5)[1] == 'O' && t.take(5)[2] == 'R'
                    && t.take(5)[3] == 'T' && t.take(5)[4] == '=');
            }
        }
        None
    }
}

/// The characters of `s`, in order.
pub fn chars_of(s: &str) -> (r: Vec<char>)
    ensures
        r@ == s@,
{
    let mut r: Vec<char> = Vec::new();
    for c in it: s.chars()
        invariant
            it.seq() == s@,
            r@ == it.seq().take(it.index() as int),
    {
        r.push(c);
    }
    r
}

/// The port that a configuration text selects: the first line of the form
/// `PORT=<u16>`, white space around either part allowed, or the default
/// port when no line is of that form.
pub fn port_from_config_text(content: &str) -> (r: u16)
    ensures
        r == config_port(content@),
{
    let v = chars_of(content);
    let n = v.len();
    let mut found: Option<u16> = None;
    let mut line_start: usize = 0;
    let mut i: usize = 0;
    let ghost mut done: Seq<Seq<char>> = Seq::empty();
    while i < n
        invariant
            n == v@.len(),
            v@ == content@,
            line_start <= i <= n,
            scan_lines(v@.take(i as int)) == (done, v@.subrange(line_start as int, i as int)),
            found == first_port(done),
        decreases n - i,
    {
        let ghost cur = v@.subrange(line_start as int, i as int);
        assert(v@.take(i + 1).drop_last() =~= v@.take(i as int));
        if v[i] == '\n' {
            if found.is_none() {
                found = line_port_at(&v, line_start, i);
            }
            proof {
                assert(done.push(cur).drop_last() =~= done);
                done = done.push(cur);
            }
            line_start = i + 1;
            assert(v@.subrange(line_start as int, i + 1) =~= Seq::<char>::empty());
        } else {
            assert(cur.push(v@[i as int]) =~= v@.subrange(line_start as int, i + 1));
        }
        i = i + 1;
    }
    assert(v@.take(n as int) =~= v@);
    let ghost cur = v@.subrange(line_start as int, n as int);
    assert(done.push(cur).drop_last() =~= done);
    if found.is_none() {
        found = line_port_at(&v, line_start, n);
    }
    match found {
        Some(p) => p,
        None => DEFAULT_SERVER_PORT,
    }
}

/// The port to serve on: the one that the configuration text selects, or
/// the default port when there is no readable configuration.
pub fn resolve_port(content: Option<&str>) -> (r: u16)
    ensures
        r == resolve_port_spec(
            match content {
                Some(s) => Some(s@),
                None => None,
            },
        ),
{
    match content {
        Some(s) => port_from_config_text(s),
        None => DEFAULT_SERVER_PORT,
    }
}

proof fn lemma_scan_single_line(s: Seq<char>)
    requires
        forall|i: int| 0 <= i < s.len() ==> s[i] != '\n',
    ensures
        scan_lines(s) == (Seq::<Seq<char>>::empty(), s),
    decreases s.len(),
{
    if s.len() > 0 {
        lemma_scan_single_line(s.drop_last());
        assert(s.drop_last().push(s.last()) =~= s);
    }
}

proof fn lemma_digit_char(k: nat)
    requires
        k < 10,
    ensures
        is_digit(digit_char(k)),
        digit_value(digit_char(k)) == k,
{
}

proof fn lemma_decimal_digits(n: nat)
    ensures
        decimal(n).len() > 0,
        all_digits(decimal(n)),
        digits_value(decimal(n)) == n,
    decreases n,
{
    if n < 10 {
        lemma_digit_char(n);
        assert(decimal(n).drop_last() =~= Seq::<char>::empty());
        assert(digits_value(Seq::<char>::empty()) == 0);
        assert(decimal(n).last() == digit_char(n));
    } else {
        lemma_decimal_digits(n / 10);
        lemma_digit_char(n % 10);
        let d = decimal(n);
        assert(d.drop_last() =~= decimal(n / 10));
        assert(digits_value(d) == digits_value(decimal(n / 10)) * 10 + n % 10);
        assert(n == (n / 10) * 10 + n % 10);
        assert(d.last() == digit_char(n % 10));
        assert forall|i: int| 0 <= i < d.len() implies is_digit(#[trigger] d[i]) by {
            if i < d.len() - 1 {
                assert(d[i] == decimal(n / 10)[i]);
            }
        }
    }
}

/// A configuration text that is one line `PORT=` followed by the decimal
/// rendering of a port selects that port.
pub proof fn law_port_line(p: u16)
    ensures
        config_port(port_key() + decimal(p as nat)) == p,
{
    let d = decimal(p as nat);
    let t = port_key() + d;
    lemma_decimal_digits(p as nat);
    assert forall|i: int| 0 <= i < t.len() implies t[i] != '\n' by {
        if i >= 5 {
            assert(t[i] == d[i - 5]);
            assert(is_digit(d[i - 5]));
        }
    }
    lemma_scan_single_line(t);
    assert(config_lines(t) =~= seq![t]);
    assert(config_lines(t).drop_last() =~= Seq::<Seq<char>>::empty());
    assert(is_digit(d[0]));
    assert(is_digit(d.last()));
    assert(trim_start(d) == d);
    assert(trim_end(d) == d);
    assert(t[0] == 'P');
    assert(t.last() == d.last());
    assert(trim_start(t) == t);
    assert(trim_end(t) == t);
    assert(t.take(5) =~= port_key());
    assert(t.skip(5) =~= d);
    assert(d[0] != '+');
    assert(parse_u16_spec(d) == Some(p));
    assert(line_port(t) == Some(p));
    assert(first_port(config_lines(t).drop_last()) == None::<u16>);
    assert(config_lines(t).last() == t);
    assert(first_port(config_lines(t)) == Some(p));
}

} // verus!
