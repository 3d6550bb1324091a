use vstd::prelude::*;

verus! {

/// Unicode `White_Space`, the set of characters that `str::trim` removes.
pub open spec fn is_ws(c: char) -> bool {
    let n = c as u32;
    (0x9 <= n && n <= 0xd) || n == 0x20 || n == 0x85 || n == 0xa0 || n == 0x1680 || (0x2000 <= n
        && n <= 0x200a) || n == 0x2028 || n == 0x2029 || n == 0x202f || n == 0x205f || n == 0x3000
}

/// `s` without its leading white space.
pub open spec fn trim_start(s: Seq<char>) -> Seq<char>
    decreases s.len(),
{
    if s.len() > 0 && is_ws(s[0]) {
        trim_start(s.drop_first())
    } else {
        s
    }
}

/// `s` without its trailing white space.
pub open spec fn trim_end(s: Seq<char>) -> Seq<char>
    decreases s.len(),
{
    if s.len() > 0 && is_ws(s.last()) {
        trim_end(s.drop_last())
    } else {
        s
    }
}

/// `s` without leading or trailing white space.
pub open spec fn trim(s: Seq<char>) -> Seq<char> {
    trim_end(trim_start(s))
}

/// `p` occurs in `s` at position `i`.
pub open spec fn occurs_at(s: Seq<char>, p: Seq<char>, i: int) -> bool {
    0 <= i && i + p.len() <= s.len() && s.subrange(i, i + p.len()) == p
}

/// `p` occurs somewhere in `s`.
pub open spec fn contains(s: Seq<char>, p: Seq<char>) -> bool {
    exists|i: int| occurs_at(s, p, i)
}

/// The pieces of `s` between the leftmost non-overlapping occurrences of the
/// non-empty separator `p`, as `str::split` yields them.
pub open spec fn split(s: Seq<char>, p: Seq<char>) -> Seq<Seq<char>>
    decreases s.len(),
{
    if p.len() == 0 || s.len() < p.len() {
        seq![s]
    } else if s.subrange(0, p.len() as int) == p {
        seq![Seq::<char>::empty()] + split(s.subrange(p.len() as int, s.len() as int), p)
    } else {
        let r = split(s.drop_first(), p);
        r.update(0, seq![s[0]] + r[0])
    }
}

/// The characters of the ranges `r` of `s`.
pub open spec fn pieces(s: Seq<char>, r: Seq<(usize, usize)>) -> Seq<Seq<char>> {
    r.map_values(|q: (usize, usize)| s.subrange(q.0 as int, q.1 as int))
}

/// An ASCII decimal digit.
pub open spec fn is_digit(c: char) -> bool {
    '0' <= c && c <= '9'
}

/// The value of a string of decimal digits.
pub open spec fn digits_value(s: Seq<char>) -> nat
    decreases s.len(),
{
    if s.len() == 0 {
        0
    } else {
        10 * digits_value(s.drop_last()) + ((s.last() as nat) - ('0' as nat)) as nat
    }
}

/// `s` without one leading `+`, if it has one.
pub open spec fn unsigned_part(s: Seq<char>) -> Seq<char> {
    if s.len() > 0 && s[0] == '+' {
        s.drop_first()
    } else {
        s
    }
}

/// Every character of `s` is a decimal digit.
pub open spec fn all_digits(s: Seq<char>) -> bool {
    forall|i: int| 0 <= i < s.len() ==> is_digit(#[trigger] s[i])
}

/// The number that `s` writes in decimal: an optional `+`, then one or more
/// digits, as the integer types' `from_str` accepts them.
pub open spec fn decimal(s: Seq<char>) -> Option<nat> {
    let d = unsigned_part(s);
    if d.len() > 0 && all_digits(d) {
        Some(digits_value(d))
    } else {
        None
    }
}

/// What `str::parse::<u32>` gives for `s`, success or not.
pub open spec fn parse_u32_spec(s: Seq<char>) -> Option<u32> {
    match decimal(s) {
        Some(v) => if v <= u32::MAX {
            Some(v as u32)
        } else {
            None
        },
        None => None,
    }
}

/// What `str::parse::<u64>` gives for `s`, success or not.
pub open spec fn parse_u64_spec(s: Seq<char>) -> Option<u64> {
    match decimal(s) {
        Some(v) => if v <= u64::MAX {
            Some(v as u64)
        } else {
            None
        },
        None => None,
    }
}

/// The lower-case form of `s` that `str::to_lowercase` produces.
pub uninterp spec fn lower_of(s: Seq<char>) -> Seq<char>;

/// The characters of `s`, in order.
pub fn chars_of(s: &str) -> (r: Vec<char>)
    ensures
        r@ == s@,
{
    let mut out: Vec<char> = Vec::new();
    for c in it: s.chars()
        invariant
            out@.len() == it.index(),
            forall|j: int| 0 <= j < out@.len() ==> out@[j] == it.seq()[j],
            it.seq() == s@,
    {
        out.push(c);
    }
    assert(out@ =~= s@);
    out
}

/// Relies on `String`'s `FromIterator<&char>`: the string of the characters, in order.
#[verifier::external_body]
pub(crate) fn string_of(v: &[char]) -> (r: String)
    ensures
        r@ == v@,
{
    String::from_iter(v)
}

/// Relies on `str::to_lowercase`: the result depends on the characters alone.
#[verifier::external_body]
pub(crate) fn lowercase(s: &str) -> (r: String)
    ensures
        r@ == lower_of(s@),
{
    s.to_lowercase()
}

/// Whether `c` is white space.
pub fn is_whitespace(c: char) -> (r: bool)
    ensures
        r == is_ws(c),
{
    let n = c as u32;
    (0x9 <= n && n <= 0xd) || n == 0x20 || n == 0x85 || n == 0xa0 || n == 0x1680 || (0x2000 <= n
        && n <= 0x200a) || n == 0x2028 || n == 0x2029 || n == 0x202f || n == 0x205f || n == 0x3000
}

/// The characters `s[lo..hi]`.
pub fn slice_of(s: &[char], lo: usize, hi: usize) -> (r: Vec<char>)
    requires
        lo <= hi <= s@.len(),
    ensures
        r@ == s@.subrange(lo as int, hi as int),
{
    let mut out: Vec<char> = Vec::new();
    let mut i: usize = lo;
    while i < hi
        invariant
            lo <= i <= hi <= s@.len(),
            out@ == s@.subrange(lo as int, i as int),
        decreases hi - i,
    {
        out.push(s[i]);
        assert(s@.subrange(lo as int, i + 1) =~= s@.subrange(lo as int, i as int).push(s@[i as int]));
        i = i + 1;
    }
    out
}

/// The bounds of `s` without its leading and trailing white space.
pub fn trim_bounds(s: &[char]) -> (r: (usize, usize))
    ensures
        r.0 <= r.1 <= s@.len(),
        s@.subrange(r.0 as int, r.1 as int) == trim(s@),
{
    let n = s.len();
    let mut lo: usize = 0;
    assert(s@.subrange(0, n as int) =~= s@);
    while lo < n && is_whitespace(s[lo])
        invariant
            lo <= n == s@.len(),
            trim_start(s@) == trim_start(s@.subrange(lo as int, n as int)),
        decreases n - lo,
    {
        assert(s@.subrange(lo as int, n as int).drop_first() =~= s@.subrange(lo + 1, n as int));
        lo = lo + 1;
    }
    let ghost t = s@.subrange(lo as int, n as int);
    assert(trim_start(t) == t);
    let mut hi: usize = n;
    assert(s@.subrange(lo as int, hi as int) =~= t);
    while hi > lo && is_whitespace(s[hi - 1])
        invariant
            lo <= hi <= n == s@.len(),
            trim_end(t) == trim_end(s@.subrange(lo as int, hi as int)),
            t == s@.subrange(lo as int, n as int),
        decreases hi - lo,
    {
        assert(s@.subrange(lo as int, hi as int).drop_last() =~= s@.subrange(
            lo as int,
            hi - 1,
        ));
        hi = hi - 1;
    }
    (lo, hi)
}

/// The characters of `s` without leading or trailing white space.
pub fn trimmed(s: &[char]) -> (r: Vec<char>)
    ensures
        r@ == trim(s@),
{
    let (lo, hi) = trim_bounds(s);
    slice_of(s, lo, hi)
}

/// Whether `p` occurs in `s` at position `i`.
pub fn matches_at(s: &[char], p: &[char], i: usize) -> (r: bool)
    ensures
        r == occurs_at(s@, p@, i as int),
{
    if i > s.len() || p.len() > s.len() - i {
        return false;
    }
    let mut k: usize = 0;
    while k < p.len()
        invariant
            i + p@.len() <= s@.len() <= usize::MAX,
            k <= p@.len(),
            forall|j: int| 0 <= j < k ==> s@[i + j] == p@[j],
        decreases p@.len() - k,
    {
        if s[i + k] != p[k] {
            assert(s@.subrange(i as int, i + p@.len())[k as int] != p@[k as int]);
            return false;
        }
        k = k + 1;
    }
    assert(s@.subrange(i as int, i + p@.len()) =~= p@);
    true
}

/// Whether `p` occurs in `s`.
pub fn contains_chars(s: &[char], p: &[char]) -> (r: bool)
    ensures
        r == contains(s@, p@),
{
    let n = s.len();
    let mut i: usize = 0;
    loop
        invariant
            i <= n == s@.len(),
            forall|j: int| 0 <= j < i ==> !occurs_at(s@, p@, j),
        ensures
            forall|j: int| !occurs_at(s@, p@, j),
        decreases n - i,
    {
        if matches_at(s, p, i) {
            return true;
        }
        if i == n {
            assert forall|j: int| !occurs_at(s@, p@, j) by {
                if 0 <= j < i {
                }
            }
            break;
        }
        i = i + 1;
    }
    false
}

proof fn lemma_split_nonempty(s: Seq<char>, p: Seq<char>)
    ensures
        split(s, p).len() >= 1,
    decreases s.len(),
{
    if p.len() == 0 || s.len() < p.len() {
    } else if s.subrange(0, p.len() as int) == p {
    } else {
        lemma_split_nonempty(s.drop_first(), p);
    }
}

/// The finished pieces `done`, then the piece in progress `cur` continued by
/// the first of the pieces `rest` of the remainder, then the others of `rest`.
pub open spec fn joined(done: Seq<Seq<char>>, cur: Seq<char>, rest: Seq<Seq<char>>) -> Seq<
    Seq<char>,
> {
    done + seq![cur + rest[0]] + rest.drop_first()
}

/// The ranges of `s` between the occurrences of the separator `p`.
pub fn split_ranges(s: &[char], p: &[char]) -> (r: Vec<(usize, usize)>)
    requires
        p@.len() > 0,
    ensures
        pieces(s@, r@) == split(s@, p@),
        forall|k: int| 0 <= k < r@.len() ==> (#[trigger] r@[k]).0 <= r@[k].1 <= s@.len(),
{
    let n = s.len();
    let plen = p.len();
    let mut out: Vec<(usize, usize)> = Vec::new();
    let mut st: usize = 0;
    let mut i: usize = 0;
    assert(s@.subrange(0, n as int) =~= s@);
    assert(s@.subrange(0, 0) =~= Seq::<char>::empty());
    proof {
        lemma_split_nonempty(s@, p@);
        let r = split(s@, p@);
        assert(joined(Seq::empty(), Seq::empty(), r) =~= r);
    }
    while i < n && plen <= n - i
        invariant
            st <= i <= n == s@.len(),
            plen == p@.len() > 0,
            forall|k: int| 0 <= k < out@.len() ==> (#[trigger] out@[k]).0 <= out@[k].1 <= n,
            split(s@, p@) == joined(
                pieces(s@, out@),
                s@.subrange(st as int, i as int),
                split(s@.subrange(i as int, n as int), p@),
            ),
        decreases n - i,
    {
        let ghost x = s@.subrange(i as int, n as int);
        let ghost old_out = out@;
        let ghost old_st = st;
        let ghost old_i = i;
        if matches_at(s, p, i) {
            let ghost y = s@.subrange(i + plen, n as int);
            assert(x.subrange(0, plen as int) =~= s@.subrange(i as int, i + plen));
            assert(x.subrange(plen as int, x.len() as int) =~= y);
            assert(split(x, p@) == seq![Seq::<char>::empty()] + split(y, p@));
            proof {
                lemma_split_nonempty(y, p@);
            }
            out.push((st, i));
            assert(pieces(s@, out@) =~= pieces(s@, old_out).push(s@.subrange(st as int, i as int)));
            i = i + plen;
            st = i;
            assert(s@.subrange(st as int, i as int) =~= Seq::<char>::empty());
            let ghost rr = split(y, p@);
            let ghost cc = s@.subrange(old_st as int, old_i as int);
            assert((seq![Seq::<char>::empty()] + rr)[0] == Seq::<char>::empty());
            assert((seq![Seq::<char>::empty()] + rr).drop_first() =~= rr);
            assert(cc + Seq::<char>::empty() =~= cc);
            assert(Seq::<char>::empty() + rr[0] =~= rr[0]);
            assert(joined(pieces(s@, old_out), cc, split(x, p@)) =~~= joined(
                pieces(s@, out@),
                Seq::<char>::empty(),
                rr,
            ));
        } else {
            let ghost y = s@.subrange(i + 1, n as int);
            assert(x.subrange(0, plen as int) =~= s@.subrange(i as int, i + plen));
            assert(x.drop_first() =~= y);
            proof {
                lemma_split_nonempty(y, p@);
            }
            let ghost r = split(y, p@);
            assert(split(x, p@) == r.update(0, seq![x[0]] + r[0]));
            assert(s@.subrange(st as int, i + 1) =~= s@.subrange(st as int, i as int).push(x[0]));
            let ghost cc = s@.subrange(st as int, i as int);
            assert(cc + (seq![x[0]] + r[0]) =~= cc.push(x[0]) + r[0]);
            assert(r.update(0, seq![x[0]] + r[0]).drop_first() =~= r.drop_first());
            assert(joined(pieces(s@, out@), cc, split(x, p@)) =~~= joined(
                pieces(s@, out@),
                s@.subrange(st as int, i + 1),
                r,
            ));
            i = i + 1;
        }
    }
    let ghost x = s@.subrange(i as int, n as int);
    assert(split(x, p@) == seq![x]);
    let ghost old_out = out@;
    out.push((st, n));
    assert(s@.subrange(st as int, n as int) =~= s@.subrange(st as int, i as int) + x);
    assert(pieces(s@, out@) =~= pieces(s@, old_out).push(s@.subrange(st as int, n as int)));
    assert(joined(pieces(s@, old_out), s@.subrange(st as int, i as int), seq![x]) =~= pieces(
        s@,
        out@,
    ));
    out
}

/// Parses `s` as `str::parse::<u64>` does: an optional `+`, then decimal
/// digits, with a value that fits.
pub fn parse_u64(s: &[char]) -> (r: Option<u64>)
    ensures
        r == parse_u64_spec(s@),
{
    let n = s.len();
    let start: usize = if n > 0 && s[0] == '+' {
        1
    } else {
        0
    };
    let ghost d = unsigned_part(s@);
    assert(d =~= s@.subrange(start as int, n as int));
    if start == n {
        return None;
    }
    let mut v: u64 = 0;
    let mut overflow = false;
    let mut i: usize = start;
    while i < n
        invariant
            start <= i <= n == s@.len(),
            d == s@.subrange(start as int, n as int),
            d == unsigned_part(s@),
            forall|j: int| start <= j < i ==> is_digit(#[trigger] s@[j]),
            !overflow ==> v == digits_value(s@.subrange(start as int, i as int)),
            overflow ==> digits_value(s@.subrange(start as int, i as int)) > u64::MAX,
        decreases n - i,
    {
        let c = s[i];
        if !('0' <= c && c <= '9') {
            assert(!is_digit(d[i - start]));
            return None;
        }
        let dv = (c as u64) - ('0' as u64);
        let ghost pre = s@.subrange(start as int, i as int);
        let ghost post = s@.subrange(start as int, i + 1);
        assert(post.drop_last() =~= pre);
        assert(digits_value(post) == 10 * digits_value(pre) + dv);
        if !overflow {
            if v > (u64::MAX - dv) / 10 {
                overflow = true;
            } else {
                v = v * 10 + dv;
            }
        }
        i = i + 1;
    }
    assert(s@.subrange(start as int, n as int) == d);
    if overflow {
        None
    } else {
        Some(v)
    }
}

/// Parses `s` as `str::parse::<u32>` does.
pub fn parse_u32(s: &[char]) -> (r: Option<u32>)
    ensures
        r == parse_u32_spec(s@),
{
    match parse_u64(s) {
        Some(v) => if v <= 0xffff_ffff {
            Some(v as u32)
        } else {
            None
        },
        None => None,
    }
}

/// `a` followed by `b`, as a new string.
pub fn concat_str(a: &str, b: &str) -> (r: String)
    ensures
        r@ == a@ + b@,
{
    a.to_owned().concat(b)
}

} // verus!
