//! Text as a sequence of lines: splitting at line endings and joining with `\n`.
use vstd::prelude::*;

verus! {

/// A line as `str::lines` yields it: a `\r` before the `\n` that ends it is dropped.
pub open spec fn strip_cr(l: Seq<char>) -> Seq<char> {
    if l.len() > 0 && l.last() == '\r' {
        l.drop_last()
    } else {
        l
    }
}

/// The lines of `s[start..]`, scanning from position `i` for the end of the
/// current line, which began at `start`.
pub open spec fn scan_lines(s: Seq<char>, i: int, start: int) -> Seq<Seq<char>>
    decreases s.len() - i,
{
    if i >= s.len() {
        if start < s.len() {
            seq![s.subrange(start, s.len() as int)]
        } else {
            Seq::empty()
        }
    } else if s[i] == '\n' {
        seq![strip_cr(s.subrange(start, i))].add(scan_lines(s, i + 1, i + 1))
    } else {
        scan_lines(s, i + 1, start)
    }
}

/// The lines of a text: split at each `\n` (a `\r\n` pair ends a line as well),
/// with no empty line after a final line ending.
pub open spec fn lines_of(s: Seq<char>) -> Seq<Seq<char>> {
    scan_lines(s, 0, 0)
}

/// The lines written out, each followed by `\n`.
pub open spec fn terminated(ls: Seq<Seq<char>>) -> Seq<char>
    decreases ls.len(),
{
    if ls.len() == 0 {
        Seq::empty()
    } else {
        terminated(ls.drop_last()) + ls.last() + seq!['\n']
    }
}

/// Lines that read back as themselves once written out: none holds a `\n`,
/// and none ends with a `\r`, which the following `\n` would turn into a line
/// ending.
pub open spec fn plain(ls: Seq<Seq<char>>) -> bool {
    forall|i: int| 0 <= i < ls.len() ==> {
        &&& forall|k: int| 0 <= k < ls[i].len() ==> ls[i][k] != '\n'
        &&& !(ls[i].len() > 0 && ls[i].last() == '\r')
    }
}

proof fn lemma_terminated_prepend(l: Seq<char>, rest: Seq<Seq<char>>)
    ensures
        terminated(seq![l] + rest) == l + seq!['\n'] + terminated(rest),
    decreases rest.len(),
{
    if rest.len() == 0 {
        assert(seq![l] + rest == seq![l]);
        assert(seq![l].drop_last() == Seq::<Seq<char>>::empty());
        assert(seq![l].last() == l);
        assert(terminated(Seq::<Seq<char>>::empty()) == Seq::<char>::empty());
        assert(terminated(seq![l]) == terminated(seq![l].drop_last()) + seq![l].last() + seq!['\n']);
        assert(terminated(seq![l]) == Seq::<char>::empty() + l + seq!['\n']);
        assert(terminated(seq![l]) =~= l + seq!['\n'] + terminated(rest));
    } else {
        lemma_terminated_prepend(l, rest.drop_last());
        assert((seq![l] + rest).drop_last() == seq![l] + rest.drop_last());
        assert((seq![l] + rest).last() == rest.last());
        assert(terminated(seq![l] + rest) == terminated(seq![l] + rest.drop_last()) + rest.last() + seq!['\n']);
        assert(terminated(rest) == terminated(rest.drop_last()) + rest.last() + seq!['\n']);
        assert(terminated(seq![l] + rest) =~= l + seq!['\n'] + terminated(rest));
    }
}

proof fn lemma_scan_skip(s: Seq<char>, i: int, j: int, start: int)
    requires
        0 <= i <= j <= s.len(),
        forall|k: int| i <= k < j ==> s[k] != '\n',
    ensures
        scan_lines(s, i, start) == scan_lines(s, j, start),
    decreases j - i,
{
    if i < j {
        lemma_scan_skip(s, i + 1, j, start);
    }
}

proof fn lemma_scan_terminated(p: Seq<char>, ls: Seq<Seq<char>>)
    requires
        plain(ls),
    ensures
        scan_lines(p + terminated(ls), p.len() as int, p.len() as int) == ls,
    decreases ls.len(),
{
    let s = p + terminated(ls);
    if ls.len() == 0 {
        assert(s == p);
    } else {
        let l = ls[0];
        let rest = ls.drop_first();
        assert(ls == seq![l] + rest);
        lemma_terminated_prepend(l, rest);
        let q = p + l + seq!['\n'];
        assert(s == q + terminated(rest));
        let i0 = p.len() as int;
        let e = i0 + l.len();
        assert forall|k: int| i0 <= k < e implies s[k] != '\n' by {
            assert(s[k] == l[k - i0]);
        }
        lemma_scan_skip(s, i0, e, i0);
        assert(s[e] == '\n');
        assert(s.subrange(i0, e) == l);
        assert(strip_cr(l) == l);
        assert forall|i: int| 0 <= i < rest.len() implies {
            &&& forall|k: int| 0 <= k < rest[i].len() ==> rest[i][k] != '\n'
            &&& !(rest[i].len() > 0 && rest[i].last() == '\r')
        } by {
            assert(rest[i] == ls[i + 1]);
        }
        lemma_scan_terminated(q, rest);
        assert(q.len() == e + 1);
    }
}

/// Written out and read back, plain lines are the same lines.
pub proof fn lemma_lines_of_terminated(ls: Seq<Seq<char>>)
    requires
        plain(ls),
    ensures
        lines_of(terminated(ls)) == ls,
{
    lemma_scan_terminated(Seq::empty(), ls);
    assert(Seq::<char>::empty() + terminated(ls) == terminated(ls));
}

/// The text of an optional string.
pub open spec fn opt_view(o: Option<String>) -> Option<Seq<char>> {
    match o {
        Some(s) => Some(s@),
        None => None,
    }
}

/// The text of each string.
pub open spec fn texts(v: Seq<String>) -> Seq<Seq<char>> {
    v.map_values(|s: String| s@)
}

/// Relies on `String::push`: appends one character.
#[verifier::external_body]
pub(crate) fn push_char(s: &mut String, c: char)
    ensures
        final(s)@ == old(s)@.push(c),
{
    s.push(c);
}

/// The characters of `s`, one by one.
pub fn chars_of(s: &str) -> (r: Vec<char>)
    ensures
        r@ == s@,
{
    let mut out: Vec<char> = Vec::new();
    for c in it: s.chars()
        invariant
            out@ == it.seq().subrange(0, it.index() as int),
            it.seq() == s@,
    {
        out.push(c);
    }
    out
}

/// Appends `cs[from..to]` to `out`.
pub fn push_range(out: &mut String, cs: &Vec<char>, from: usize, to: usize)
    requires
        from <= to <= cs@.len(),
    ensures
        final(out)@ == old(out)@ + cs@.subrange(from as int, to as int),
{
    let mut i = from;
    while i < to
        invariant
            from <= i <= to <= cs@.len(),
            out@ == old(out)@ + cs@.subrange(from as int, i as int),
        decreases to - i,
    {
        push_char(out, cs[i]);
        assert(cs@.subrange(from as int, i + 1) == cs@.subrange(from as int, i as int).push(cs@[i as int]));
        i = i + 1;
    }
}

/// Appends the text of `s` to `out`.
pub fn push_str(out: &mut String, s: &str)
    ensures
        final(out)@ == old(out)@ + s@,
{
    let cs = chars_of(s);
    push_range(out, &cs, 0, cs.len());
    assert(cs@.subrange(0, cs@.len() as int) == cs@);
}

/// A new string holding `cs[from..to]`.
pub fn string_of_range(cs: &Vec<char>, from: usize, to: usize) -> (r: String)
    requires
        from <= to <= cs@.len(),
    ensures
        r@ == cs@.subrange(from as int, to as int),
{
    let mut out = String::new();
    push_range(&mut out, cs, from, to);
    out
}

/// A copy of `s`.
pub fn copy_str(s: &str) -> (r: String)
    ensures
        r@ == s@,
{
    let mut out = String::new();
    push_str(&mut out, s);
    out
}

/// Splits a text into its lines, as `str::lines` does.
pub fn split_lines(s: &str) -> (r: Vec<String>)
    ensures
        texts(r@) == lines_of(s@),
{
    let cs = chars_of(s);
    let n = cs.len();
    let mut out: Vec<String> = Vec::new();
    let mut start: usize = 0;
    let mut i: usize = 0;
    while i < n
        invariant
            n == cs@.len(),
            cs@ == s@,
            start <= i <= n,
            texts(out@) + scan_lines(cs@, i as int, start as int) == lines_of(s@),
        decreases n - i,
    {
        if cs[i] == '\n' {
            let end = if i > start && cs[i - 1] == '\r' { i - 1 } else { i };
            let line = string_of_range(&cs, start, end);
            assert(line@ == strip_cr(cs@.subrange(start as int, i as int))) by {
                if i > start && cs@[i - 1] == '\r' {
                    assert(cs@.subrange(start as int, i - 1) == cs@.subrange(start as int, i as int).drop_last());
                }
            }
            assert(texts(out@.push(line)) == texts(out@).push(line@));
            out.push(line);
            start = i + 1;
        }
        i = i + 1;
    }
    if start < n {
        let line = string_of_range(&cs, start, n);
        assert(texts(out@.push(line)) == texts(out@).push(line@));
        out.push(line);
    }
    assert(scan_lines(cs@, n as int, n as int) == Seq::<Seq<char>>::empty());
    out
}

/// Writes the lines out, each followed by `\n`; plain lines read back as the
/// same lines.
pub fn write_lines(ls: &Vec<String>) -> (r: String)
    ensures
        r@ == terminated(texts(ls@)),
        plain(texts(ls@)) ==> lines_of(r@) == texts(ls@),
{
    let mut out = String::new();
    let mut i: usize = 0;
    while i < ls.len()
        invariant
            i <= ls@.len(),
            out@ == terminated(texts(ls@).subrange(0, i as int)),
        decreases ls.len() - i,
    {
        assert(texts(ls@).subrange(0, i + 1).drop_last() == texts(ls@).subrange(0, i as int));
        push_str(&mut out, ls[i].as_str());
        push_char(&mut out, '\n');
        i = i + 1;
    }
    assert(texts(ls@).subrange(0, ls@.len() as int) == texts(ls@));
    proof {
        if plain(texts(ls@)) {
            lemma_lines_of_terminated(texts(ls@));
        }
    }
    out
}

} // verus!
