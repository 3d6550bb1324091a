use crate::text::{
    chars_of, contains, contains_chars, pieces, slice_of, split, split_ranges, string_of, trim,
    trimmed,
};
use vstd::prelude::*;

verus! {

/// One container of the shell's, as the runtime lists it.
#[derive(Debug, Clone)]
pub struct ContainerInfo {
    pub id: String,
    pub name: String,
    pub image: String,
    pub status: String,
    pub ports: String,
    pub running: bool,
}

/// A line without the carriage return that ends it, if any.
pub open spec fn strip_cr(l: Seq<char>) -> Seq<char> {
    if l.len() > 0 && l.last() == '\r' {
        l.drop_last()
    } else {
        l
    }
}

/// The non-empty lines among `lines`, carriage returns removed, in order.
pub open spec fn nonempty_lines(lines: Seq<Seq<char>>) -> Seq<Seq<char>>
    decreases lines.len(),
{
    if lines.len() == 0 {
        Seq::empty()
    } else {
        let rest = nonempty_lines(lines.drop_last());
        let l = strip_cr(lines.last());
        if l.len() > 0 {
            rest.push(l)
        } else {
            rest
        }
    }
}

/// The lines of a listing that describe containers.
pub open spec fn listing_lines(stdout: Seq<char>) -> Seq<Seq<char>> {
    nonempty_lines(split(trim(stdout), seq!['\n']))
}

/// Field `k` of the `|`-separated fields `f`, empty where there is none.
pub open spec fn field(f: Seq<Seq<char>>, k: int) -> Seq<char> {
    if 0 <= k < f.len() {
        f[k]
    } else {
        Seq::empty()
    }
}

/// The container that one line `id|names|image|status|ports` describes;
/// it runs when its status says `Up`.
pub open spec fn container_matches(c: ContainerInfo, line: Seq<char>) -> bool {
    let f = split(line, seq!['|']);
    &&& c.id@ == field(f, 0)
    &&& c.name@ == field(f, 1)
    &&& c.image@ == field(f, 2)
    &&& c.status@ == field(f, 3)
    &&& c.ports@ == field(f, 4)
    &&& c.running == contains(field(f, 3), "Up"@)
}

/// Field `k` of the line `l`, whose fields lie at `ranges`.
fn field_string(l: &Vec<char>, ranges: &Vec<(usize, usize)>, k: usize) -> (r: String)
    requires
        forall|j: int|
            0 <= j < ranges@.len() ==> (#[trigger] ranges@[j]).0 <= ranges@[j].1 <= l@.len(),
    ensures
        r@ == field(pieces(l@, ranges@), k as int),
{
    if k < ranges.len() {
        let (lo, hi) = ranges[k];
        let v = slice_of(l.as_slice(), lo, hi);
        string_of(v.as_slice())
    } else {
        String::new()
    }
}

/// The container that one line of a listing describes.
fn parse_container_line(l: &Vec<char>) -> (r: ContainerInfo)
    ensures
        container_matches(r, l@),
{
    let bar = vec!['|'];
    assert(bar@ =~= seq!['|']);
    let ranges = split_ranges(l.as_slice(), bar.as_slice());
    let status = field_string(l, &ranges, 3);
    let st = chars_of(status.as_str());
    let up = chars_of("Up");
    proof {
        reveal_strlit("Up");
    }
    let running = contains_chars(st.as_slice(), up.as_slice());
    ContainerInfo {
        id: field_string(l, &ranges, 0),
        name: field_string(l, &ranges, 1),
        image: field_string(l, &ranges, 2),
        status,
        ports: field_string(l, &ranges, 4),
        running,
    }
}

/// Reads the shell's containers from a listing with one
/// `id|names|image|status|ports` line per container; blank lines are skipped.
pub fn parse_container_list(stdout: &str) -> (r: Vec<ContainerInfo>)
    ensures
        r@.len() == listing_lines(stdout@).len(),
        forall|i: int|
            0 <= i < r@.len() ==> container_matches(#[trigger] r@[i], listing_lines(stdout@)[i]),
{
    let all = chars_of(stdout);
    let t = trimmed(all.as_slice());
    let nl = vec!['\n'];
    assert(nl@ =~= seq!['\n']);
    let ranges = split_ranges(t.as_slice(), nl.as_slice());
    let ghost ls = pieces(t@, ranges@);
    let mut out: Vec<ContainerInfo> = Vec::new();
    let mut i: usize = 0;
    while i < ranges.len()
        invariant
            i <= ranges@.len(),
            ls == pieces(t@, ranges@),
            forall|k: int|
                0 <= k < ranges@.len() ==> (#[trigger] ranges@[k]).0 <= ranges@[k].1 <= t@.len(),
            out@.len() == nonempty_lines(ls.subrange(0, i as int)).len(),
            forall|k: int|
                0 <= k < out@.len() ==> container_matches(
                    #[trigger] out@[k],
                    nonempty_lines(ls.subrange(0, i as int))[k],
                ),
        decreases ranges@.len() - i,
    {
        let (lo, mut hi) = ranges[i];
        if hi > lo && t[hi - 1] == '\r' {
            hi = hi - 1;
        }
        let line = slice_of(t.as_slice(), lo, hi);
        let ghost prev = nonempty_lines(ls.subrange(0, i as int));
        assert(ls.subrange(0, i + 1).drop_last() =~= ls.subrange(0, i as int));
        assert(ls[i as int] == t@.subrange(lo as int, ranges@[i as int].1 as int));
        assert(line@ =~= strip_cr(ls[i as int]));
        if line.len() > 0 {
            out.push(parse_container_line(&line));
            assert(nonempty_lines(ls.subrange(0, i + 1)) == prev.push(line@));
        }
        i = i + 1;
    }
    assert(ls.subrange(0, i as int) =~= ls);
    out
}

} // verus!
