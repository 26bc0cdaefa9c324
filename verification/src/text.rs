//! Character-level helpers: whitespace, trimming, line splitting and the
//! string building blocks the protocol code is written with.
use vstd::prelude::*;
use vstd::string::StringExecFns;

verus! {

/// `String::push` appends one character to the string.
pub assume_specification[ String::push ](string: &mut String, ch: char)
    ensures
        final(string)@ == old(string)@.push(ch),
;

/// Unicode `White_Space`, the set that `char::is_whitespace` and `str::trim` use.
pub open spec fn is_ws(c: char) -> bool {
    let u = c as u32;
    ||| 0x09 <= u <= 0x0d
    ||| u == 0x20
    ||| u == 0x85
    ||| u == 0xa0
    ||| u == 0x1680
    ||| 0x2000 <= u <= 0x200a
    ||| u == 0x2028
    ||| u == 0x2029
    ||| u == 0x202f
    ||| u == 0x205f
    ||| u == 0x3000
}

/// Whether `c` is whitespace.
pub fn char_is_ws(c: char) -> (r: bool)
    ensures
        r == is_ws(c),
{
    let u = c as u32;
    (0x09 <= u && u <= 0x0d) || u == 0x20 || u == 0x85 || u == 0xa0 || u == 0x1680 || (0x2000 <= u
        && u <= 0x200a) || u == 0x2028 || u == 0x2029 || u == 0x202f || u == 0x205f || u == 0x3000
}

/// Number of leading whitespace characters of `s`.
pub open spec fn lead_ws(s: Seq<char>) -> nat
    decreases s.len(),
{
    if s.len() > 0 && is_ws(s[0]) {
        1 + lead_ws(s.drop_first())
    } else {
        0
    }
}

/// `s` without its leading whitespace.
pub open spec fn trim_start(s: Seq<char>) -> Seq<char> {
    s.skip(lead_ws(s) as int)
}

/// `s` without its trailing whitespace.
pub open spec fn trim_end(s: Seq<char>) -> Seq<char>
    decreases s.len(),
{
    if s.len() > 0 && is_ws(s.last()) {
        trim_end(s.drop_last())
    } else {
        s
    }
}

/// `s` with leading and trailing whitespace removed (as `str::trim` does).
pub open spec fn trim(s: Seq<char>) -> Seq<char> {
    trim_end(trim_start(s))
}

/// The characters of `s`, in order.
pub fn chars_of(s: &str) -> (r: Vec<char>)
    ensures
        r@ == s@,
{
    let mut r: Vec<char> = Vec::new();
    broadcast use vstd::string::axiom_spec_iter;
    for c in it: s.chars()
        invariant
            it.seq() == s@,
            r@ == s@.take(it.index() as int),
    {
        r.push(c);
        assert(r@ == s@.take(it.index() + 1));
    }
    assert(r@ == s@.take(s@.len() as int));
    r
}


/// A `String` holding `cs[lo..hi]`.
pub fn string_of(cs: &Vec<char>, lo: usize, hi: usize) -> (r: String)
    requires
        lo <= hi <= cs.len(),
    ensures
        r@ == cs@.subrange(lo as int, hi as int),
{
    let mut r = String::new();
    let mut i = lo;
    while i < hi
        invariant
            lo <= i <= hi <= cs.len(),
            r@ == cs@.subrange(lo as int, i as int),
        decreases hi - i,
    {
        r.push(cs[i]);
        assert(r@ == cs@.subrange(lo as int, i + 1));
        i = i + 1;
    }
    r
}

proof fn lemma_lead_ws(s: Seq<char>, lo: int)
    requires
        0 <= lo <= s.len(),
        forall|i: int| 0 <= i < lo ==> is_ws(#[trigger] s[i]),
        lo < s.len() ==> !is_ws(s[lo]),
    ensures
        lead_ws(s) == lo,
    decreases lo,
{
    if lo > 0 {
        let t = s.drop_first();
        assert forall|i: int| 0 <= i < lo - 1 implies is_ws(#[trigger] t[i]) by {
            assert(t[i] == s[i + 1]);
        }
        lemma_lead_ws(t, lo - 1);
    }
}

proof fn lemma_trim_end(s: Seq<char>, hi: int)
    requires
        0 <= hi <= s.len(),
        forall|i: int| hi <= i < s.len() ==> is_ws(#[trigger] s[i]),
        hi > 0 ==> !is_ws(s[hi - 1]),
    ensures
        trim_end(s) == s.take(hi),
    decreases s.len(),
{
    if s.len() > hi {
        let t = s.drop_last();
        assert(is_ws(s[s.len() - 1]));
        lemma_trim_end(t, hi);
        assert(t.take(hi) =~= s.take(hi));
    } else {
        assert(s.take(hi) =~= s);
        if s.len() > 0 {
            assert(s.last() == s[hi - 1]);
        }
    }
}

/// The bounds `(lo, hi)` of `cs` with surrounding whitespace cut off.
pub fn trim_bounds(cs: &Vec<char>) -> (r: (usize, usize))
    ensures
        r.0 <= r.1 <= cs.len(),
        cs@.subrange(r.0 as int, r.1 as int) == trim(cs@),
{
    let n = cs.len();
    let mut lo: usize = 0;
    while lo < n && char_is_ws(cs[lo])
        invariant
            lo <= n == cs.len(),
            forall|i: int| 0 <= i < lo ==> is_ws(#[trigger] cs@[i]),
        decreases n - lo,
    {
        lo = lo + 1;
    }
    proof {
        lemma_lead_ws(cs@, lo as int);
    }
    let mut hi: usize = n;
    while hi > lo && char_is_ws(cs[hi - 1])
        invariant
            lo <= hi <= n == cs.len(),
            forall|i: int| hi <= i < n ==> is_ws(#[trigger] cs@[i]),
        decreases hi - lo,
    {
        hi = hi - 1;
    }
    proof {
        let t = cs@.skip(lo as int);
        let k = hi - lo;
        assert forall|i: int| k <= i < t.len() implies is_ws(#[trigger] t[i]) by {
            assert(t[i] == cs@[i + lo]);
        }
        if k > 0 {
            assert(t[k - 1] == cs@[hi - 1]);
        }
        lemma_trim_end(t, k as int);
        assert(t.take(k as int) =~= cs@.subrange(lo as int, hi as int));
    }
    (lo, hi)
}

/// `s` with leading and trailing whitespace removed, as `str::trim` gives it.
pub fn trim_str(s: &str) -> (r: String)
    ensures
        r@ == trim(s@),
{
    let cs = chars_of(s);
    let (lo, hi) = trim_bounds(&cs);
    string_of(&cs, lo, hi)
}

/// The view of an optional string.
pub open spec fn opt_chars(s: Option<String>) -> Option<Seq<char>> {
    match s {
        Some(t) => Some(t@),
        None => None,
    }
}

/// Whether `p` is a prefix of `s`.
pub open spec fn has_prefix(s: Seq<char>, p: Seq<char>) -> bool {
    p.len() <= s.len() && s.take(p.len() as int) == p
}

/// Whether `a` and `b` hold the same characters.
pub fn same_text(a: &str, b: &str) -> (r: bool)
    ensures
        r == (a@ == b@),
{
    a.to_owned() == b.to_owned()
}

/// Whether `s` starts with `p`.
pub fn starts_with(s: &Vec<char>, p: &Vec<char>) -> (r: bool)
    ensures
        r == has_prefix(s@, p@),
{
    if p.len() > s.len() {
        return false;
    }
    let mut i: usize = 0;
    while i < p.len()
        invariant
            p.len() <= s.len(),
            i <= p.len(),
            forall|j: int| 0 <= j < i ==> s@[j] == p@[j],
        decreases p.len() - i,
    {
        if s[i] != p[i] {
            assert(s@.take(p.len() as int)[i as int] != p@[i as int]);
            return false;
        }
        i = i + 1;
    }
    assert(s@.take(p.len() as int) =~= p@);
    true
}


/// Position of the first line feed of `s`, or its length when there is none.
pub open spec fn first_nl(s: Seq<char>) -> nat
    decreases s.len(),
{
    if s.len() == 0 {
        0
    } else if s[0] == '\n' {
        0
    } else {
        1 + first_nl(s.drop_first())
    }
}

/// The lines of `s`: the pieces between line feeds, where a final line feed
/// ends the last line instead of opening an empty one, as `str::lines` cuts
/// them. A carriage return before a line feed stays on its line here; the
/// readers trim every line, which removes it either way.
pub open spec fn split_lines(s: Seq<char>) -> Seq<Seq<char>>
    decreases s.len(),
{
    if s.len() == 0 {
        seq![]
    } else {
        let k = first_nl(s);
        if k >= s.len() {
            seq![s]
        } else {
            seq![s.take(k as int)] + split_lines(s.skip(k + 1 as int))
        }
    }
}

/// The character views of a sequence of strings.
pub open spec fn views(ls: Seq<String>) -> Seq<Seq<char>> {
    ls.map_values(|l: String| l@)
}

proof fn lemma_first_nl(s: Seq<char>, k: int)
    requires
        0 <= k <= s.len(),
        forall|i: int| 0 <= i < k ==> #[trigger] s[i] != '\n',
        k < s.len() ==> s[k] == '\n',
    ensures
        first_nl(s) == k,
    decreases k,
{
    if k > 0 {
        let t = s.drop_first();
        assert forall|i: int| 0 <= i < k - 1 implies #[trigger] t[i] != '\n' by {
            assert(t[i] == s[i + 1]);
        }
        lemma_first_nl(t, k - 1);
    }
}

/// The lines of `cs`, cut as `split_lines` says.
pub fn lines_of(cs: &Vec<char>) -> (r: Vec<String>)
    ensures
        views(r@) == split_lines(cs@),
{
    let n = cs.len();
    let mut r: Vec<String> = Vec::new();
    let mut start: usize = 0;
    assert(cs@.skip(0) =~= cs@);
    while start < n
        invariant
            n == cs.len(),
            start <= n,
            views(r@) + split_lines(cs@.skip(start as int)) == split_lines(cs@),
        decreases n - start,
    {
        let ghost t = cs@.skip(start as int);
        let mut j = start;
        while j < n && cs[j] != '\n'
            invariant
                start <= j <= n == cs.len(),
                forall|i: int| start <= i < j ==> #[trigger] cs@[i] != '\n',
            decreases n - j,
        {
            j = j + 1;
        }
        proof {
            assert forall|i: int| 0 <= i < j - start implies #[trigger] t[i] != '\n' by {
                assert(t[i] == cs@[i + start]);
            }
            if j < n {
                assert(t[j - start] == cs@[j as int]);
            }
            lemma_first_nl(t, j - start);
        }
        let line = string_of(cs, start, j);
        let ghost old_r = r@;
        r.push(line);
        proof {
            assert(views(r@) =~= views(old_r).push(line@));
            assert(t.take(j - start) =~= line@);
        }
        if j < n {
            proof {
                assert(t.skip(j - start + 1) =~= cs@.skip(j + 1));
                assert(split_lines(t) == seq![line@] + split_lines(cs@.skip(j + 1)));
                assert(views(old_r) + split_lines(t) =~= views(r@) + split_lines(cs@.skip(j + 1)));
            }
            start = j + 1;
        } else {
            proof {
                assert(t =~= line@);
                assert(split_lines(t) == seq![line@]);
                assert(cs@.skip(n as int) =~= Seq::<char>::empty());
                assert(split_lines(cs@.skip(n as int)) =~= Seq::<Seq<char>>::empty());
                assert(views(old_r) + split_lines(t) =~= views(r@) + split_lines(cs@.skip(n as int)));
            }
            start = n;
        }
    }
    proof {
        assert(cs@.skip(n as int) =~= Seq::<char>::empty());
        assert(views(r@) + split_lines(cs@.skip(n as int)) =~= views(r@));
    }
    r
}

} // verus!
