//! Line-level unified diffs. The alignment of lines comes from `similar`; the
//! rendering into hunks is this library's own: the changes are taken four at a
//! time, and each group that holds an insertion or a deletion becomes a hunk.
use vstd::prelude::*;
use crate::lines::{push_char, push_str};

verus! {

/// What happened to one line between the two texts.
#[derive(Debug, Clone, Copy, PartialEq, Eq, Structural)]
pub enum ChangeTag {
    Equal,
    Delete,
    Insert,
}

/// One token of the alignment: its tag, the token itself, and the token as
/// it is shown, with a line ending added where it has none.
#[derive(Debug)]
pub struct LineChange {
    pub tag: ChangeTag,
    pub value: String,
    pub text: String,
}

/// Why a diff could not be produced.
#[derive(Debug, Clone, PartialEq, Eq)]
pub enum DiffError {
    GenerationFailed(String),
}

/// Renders diffs of texts.
pub struct DiffGenerator;

/// The alignment that `similar` computes for two texts, line by line.
pub uninterp spec fn line_alignment(original: Seq<char>, modified: Seq<char>) -> Seq<(ChangeTag, Seq<char>)>;

pub open spec fn changes_view(v: Seq<LineChange>) -> Seq<(ChangeTag, Seq<char>)> {
    v.map_values(|c: LineChange| (c.tag, c.text@))
}

pub open spec fn values_view(v: Seq<LineChange>) -> Seq<(ChangeTag, Seq<char>)> {
    v.map_values(|c: LineChange| (c.tag, c.value@))
}

/// The lines of `s[start..]` as `similar` cuts them, scanning from `i`: each
/// ends after a `\n`, a `\r\n` or a lone `\r`, and keeps that ending; a last
/// line may have none.
pub open spec fn tokens_scan(s: Seq<char>, i: int, start: int) -> Seq<Seq<char>>
    decreases s.len() - i,
{
    if i >= s.len() {
        if start < s.len() { seq![s.subrange(start, s.len() as int)] } else { Seq::empty() }
    } else if s[i] == '\r' && i + 1 < s.len() && s[i + 1] == '\n' {
        seq![s.subrange(start, i + 2)] + tokens_scan(s, i + 2, i + 2)
    } else if s[i] == '\r' || s[i] == '\n' {
        seq![s.subrange(start, i + 1)] + tokens_scan(s, i + 1, i + 1)
    } else {
        tokens_scan(s, i + 1, start)
    }
}

/// The lines of a text, with their endings, as `similar` diffs them.
pub open spec fn line_tokens(s: Seq<char>) -> Seq<Seq<char>> {
    tokens_scan(s, 0, 0)
}

/// A token as shown: a line ending is added where it has none.
pub open spec fn shown(t: Seq<char>) -> Seq<char> {
    if t.len() > 0 && (t.last() == '\n' || t.last() == '\r') { t } else { t.push('\n') }
}

/// The tokens of the original side, in order: equal and deleted ones.
pub open spec fn old_side(cs: Seq<(ChangeTag, Seq<char>)>) -> Seq<Seq<char>>
    decreases cs.len(),
{
    if cs.len() == 0 {
        Seq::empty()
    } else {
        old_side(cs.drop_last()) + if cs.last().0 != ChangeTag::Insert { seq![cs.last().1] } else { Seq::empty() }
    }
}

/// The tokens of the modified side, in order: equal and inserted ones.
pub open spec fn new_side(cs: Seq<(ChangeTag, Seq<char>)>) -> Seq<Seq<char>>
    decreases cs.len(),
{
    if cs.len() == 0 {
        Seq::empty()
    } else {
        new_side(cs.drop_last()) + if cs.last().0 != ChangeTag::Delete { seq![cs.last().1] } else { Seq::empty() }
    }
}

/// The tokens written one after another.
pub open spec fn concat(ts: Seq<Seq<char>>) -> Seq<char>
    decreases ts.len(),
{
    if ts.len() == 0 { Seq::empty() } else { ts[0] + concat(ts.drop_first()) }
}

proof fn lemma_concat_prepend(t: Seq<char>, rest: Seq<Seq<char>>)
    ensures
        concat(seq![t] + rest) == t + concat(rest),
{
    assert((seq![t] + rest)[0] == t);
    assert((seq![t] + rest).drop_first() == rest);
}

proof fn lemma_concat_scan(s: Seq<char>, i: int, start: int)
    requires
        0 <= start <= i <= s.len(),
    ensures
        concat(tokens_scan(s, i, start)) == s.subrange(start, s.len() as int),
    decreases s.len() - i,
{
    if i >= s.len() {
        if start < s.len() {
            let t = s.subrange(start, s.len() as int);
            lemma_concat_prepend(t, Seq::empty());
            assert(seq![t] + Seq::<Seq<char>>::empty() == seq![t]);
            assert(t + concat(Seq::<Seq<char>>::empty()) == t);
        } else {
            assert(s.subrange(start, s.len() as int) =~= Seq::<char>::empty());
        }
    } else if s[i] == '\r' && i + 1 < s.len() && s[i + 1] == '\n' {
        lemma_concat_scan(s, i + 2, i + 2);
        lemma_concat_prepend(s.subrange(start, i + 2), tokens_scan(s, i + 2, i + 2));
        assert(s.subrange(start, i + 2) + s.subrange(i + 2, s.len() as int) =~= s.subrange(start, s.len() as int));
    } else if s[i] == '\r' || s[i] == '\n' {
        lemma_concat_scan(s, i + 1, i + 1);
        lemma_concat_prepend(s.subrange(start, i + 1), tokens_scan(s, i + 1, i + 1));
        assert(s.subrange(start, i + 1) + s.subrange(i + 1, s.len() as int) =~= s.subrange(start, s.len() as int));
    } else {
        lemma_concat_scan(s, i + 1, start);
    }
}

/// A text is its line tokens written one after another, so texts with the same
/// tokens are the same text.
pub proof fn lemma_tokens_determine_text(a: Seq<char>, b: Seq<char>)
    requires
        line_tokens(a) == line_tokens(b),
    ensures
        a == b,
{
    lemma_concat_scan(a, 0, 0);
    lemma_concat_scan(b, 0, 0);
    assert(a.subrange(0, a.len() as int) == a);
    assert(b.subrange(0, b.len() as int) == b);
}

/// Relies on `similar::TextDiff::from_lines` (Myers, no deadline),
/// `iter_all_changes` and `Change`'s `Display`: the alignment depends on the two
/// texts alone; the equal and deleted tokens, in order, are the lines of the
/// original (cut after `\n`, `\r\n` or `\r`), the equal and inserted ones
/// those of the modified text; a token is shown with a line ending added where
/// it has none; equal texts align every line as equal, and from an empty text
/// every line is inserted.
#[verifier::external_body]
fn align_lines(original: &str, modified: &str) -> (r: Vec<LineChange>)
    ensures
        changes_view(r@) == line_alignment(original@, modified@),
        old_side(values_view(r@)) == line_tokens(original@),
        new_side(values_view(r@)) == line_tokens(modified@),
        forall|i: int| 0 <= i < r@.len() ==> r@[i].text@ == shown(#[trigger] r@[i].value@),
        original@ == modified@ ==> forall|i: int| 0 <= i < r@.len() ==> r@[i].tag == ChangeTag::Equal,
        original@.len() == 0 ==> forall|i: int| 0 <= i < r@.len() ==> r@[i].tag == ChangeTag::Insert,
{
    let diff = similar::TextDiff::from_lines(original, modified);
    let mut out = Vec::new();
    for c in diff.iter_all_changes() {
        let tag = match c.tag() {
            similar::ChangeTag::Equal => ChangeTag::Equal,
            similar::ChangeTag::Delete => ChangeTag::Delete,
            similar::ChangeTag::Insert => ChangeTag::Insert,
        };
        out.push(LineChange { tag, value: c.value().to_string(), text: c.to_string() });
    }
    out
}

/// The number of lines of the original text among `cs` (equal or deleted).
pub open spec fn old_count(cs: Seq<(ChangeTag, Seq<char>)>) -> nat
    decreases cs.len(),
{
    if cs.len() == 0 {
        0
    } else {
        old_count(cs.drop_last()) + if cs.last().0 != ChangeTag::Insert { 1nat } else { 0nat }
    }
}

/// The number of lines of the modified text among `cs` (equal or inserted).
pub open spec fn new_count(cs: Seq<(ChangeTag, Seq<char>)>) -> nat
    decreases cs.len(),
{
    if cs.len() == 0 {
        0
    } else {
        new_count(cs.drop_last()) + if cs.last().0 != ChangeTag::Delete { 1nat } else { 0nat }
    }
}

pub open spec fn has_change(cs: Seq<(ChangeTag, Seq<char>)>) -> bool {
    exists|i: int| 0 <= i < cs.len() && cs[i].0 != ChangeTag::Equal
}

pub open spec fn tag_char(t: ChangeTag) -> char {
    match t {
        ChangeTag::Equal => ' ',
        ChangeTag::Delete => '-',
        ChangeTag::Insert => '+',
    }
}

/// The lines of a hunk: each change's mark, its text, and a `\n`.
pub open spec fn hunk_body(cs: Seq<(ChangeTag, Seq<char>)>) -> Seq<char>
    decreases cs.len(),
{
    if cs.len() == 0 {
        Seq::empty()
    } else {
        hunk_body(cs.drop_last()) + seq![tag_char(cs.last().0)] + cs.last().1 + seq!['\n']
    }
}

pub open spec fn digit_char(d: nat) -> char {
    if d == 0 { '0' } else if d == 1 { '1' } else if d == 2 { '2' } else if d == 3 { '3' } else if d == 4 { '4' }
    else if d == 5 { '5' } else if d == 6 { '6' } else if d == 7 { '7' } else if d == 8 { '8' } else { '9' }
}

/// `n` in decimal.
pub open spec fn decimal(n: nat) -> Seq<char>
    decreases n,
{
    if n < 10 {
        seq![digit_char(n)]
    } else {
        decimal(n / 10).push(digit_char(n % 10))
    }
}

/// `@@ -o,lo +m,lm @@` and a line ending.
pub open spec fn hunk_header(o: nat, lo: nat, m: nat, lm: nat) -> Seq<char> {
    "@@ -"@ + decimal(o) + ","@ + decimal(lo) + " +"@ + decimal(m) + ","@ + decimal(lm) + " @@\n"@
}

/// The hunk for `cs[start..end]`: nothing if it holds no change; else its header
/// (1-based starts and line counts on each side) and its lines, and a blank line
/// after a full group of four.
pub open spec fn hunk_text(cs: Seq<(ChangeTag, Seq<char>)>, start: int, end: int) -> Seq<char> {
    let part = cs.subrange(start, end);
    if has_change(part) {
        let head = hunk_header(old_count(cs.subrange(0, start)) + 1, old_count(part),
            new_count(cs.subrange(0, start)) + 1, new_count(part));
        if end - start == 4 {
            head + hunk_body(part) + seq!['\n']
        } else {
            head + hunk_body(part)
        }
    } else {
        Seq::empty()
    }
}

/// The hunks of `cs[start..]`, in groups of four changes.
pub open spec fn hunks_from(cs: Seq<(ChangeTag, Seq<char>)>, start: int) -> Seq<char>
    decreases cs.len() - start,
{
    if start + 4 <= cs.len() {
        hunk_text(cs, start, start + 4) + hunks_from(cs, start + 4)
    } else if start < cs.len() {
        hunk_text(cs, start, cs.len() as int)
    } else {
        Seq::empty()
    }
}

pub open spec fn diff_header() -> Seq<char> {
    "--- Original\n+++ Modified\n"@
}

/// The unified diff of an alignment.
pub open spec fn unified_diff(cs: Seq<(ChangeTag, Seq<char>)>) -> Seq<char> {
    diff_header() + hunks_from(cs, 0)
}

/// Appends `n` in decimal.
pub fn push_decimal(out: &mut String, n: usize)
    ensures
        final(out)@ == old(out)@ + decimal(n as nat),
    decreases n,
{
    if n >= 10 {
        push_decimal(out, n / 10);
    }
    let d = n % 10;
    let c = if d == 0 { '0' } else if d == 1 { '1' } else if d == 2 { '2' } else if d == 3 { '3' } else if d == 4 { '4' }
        else if d == 5 { '5' } else if d == 6 { '6' } else if d == 7 { '7' } else if d == 8 { '8' } else { '9' };
    push_char(out, c);
    proof {
        if n >= 10 {
            assert(decimal(n as nat) == decimal((n / 10) as nat).push(digit_char((n % 10) as nat)));
        }
    }
}

proof fn lemma_prefix_step(cs: Seq<(ChangeTag, Seq<char>)>, a: int, j: int)
    requires
        0 <= a <= j < cs.len(),
    ensures
        cs.subrange(a, j + 1).drop_last() == cs.subrange(a, j),
        cs.subrange(a, j + 1).last() == cs[j],
{
}

/// Appends a hunk header and the hunk's lines, and a blank line if `full`.
fn push_hunk(out: &mut String, o: usize, lo: usize, m: usize, lm: usize, body: &String, full: bool)
    ensures
        final(out)@ == old(out)@ + hunk_header(o as nat, lo as nat, m as nat, lm as nat) + body@
            + if full { seq!['\n'] } else { Seq::empty() },
{
    proof { reveal_strlit(","); }
    push_str(out, "@@ -");
    push_decimal(out, o);
    push_char(out, ',');
    push_decimal(out, lo);
    push_str(out, " +");
    push_decimal(out, m);
    push_char(out, ',');
    push_decimal(out, lm);
    push_str(out, " @@\n");
    push_str(out, body.as_str());
    if full {
        push_char(out, '\n');
    }
}

/// The counts, the presence of a change and the lines of the group `cs[start..end]`.
fn scan_group(cs: &Vec<LineChange>, start: usize, end: usize) -> (r: (usize, usize, bool, String))
    requires
        start <= end <= cs@.len(),
    ensures
        r.0 == old_count(changes_view(cs@).subrange(start as int, end as int)),
        r.1 == new_count(changes_view(cs@).subrange(start as int, end as int)),
        r.0 <= end - start,
        r.1 <= end - start,
        r.2 == has_change(changes_view(cs@).subrange(start as int, end as int)),
        r.3@ == hunk_body(changes_view(cs@).subrange(start as int, end as int)),
{
    let ghost v = changes_view(cs@);
    let mut lo: usize = 0;
    let mut lm: usize = 0;
    let mut changed = false;
    let mut body = String::new();
    let mut j = start;
    while j < end
        invariant
            v == changes_view(cs@),
            start <= j <= end <= cs@.len(),
            lo == old_count(v.subrange(start as int, j as int)),
            lm == new_count(v.subrange(start as int, j as int)),
            lo <= j - start,
            lm <= j - start,
            changed == has_change(v.subrange(start as int, j as int)),
            body@ == hunk_body(v.subrange(start as int, j as int)),
        decreases end - j,
    {
        proof { lemma_prefix_step(v, start as int, j as int); }
        let c = &cs[j];
        assert(v[j as int] == (c.tag, c.text@));
        match c.tag {
            ChangeTag::Equal => {
                push_char(&mut body, ' ');
                lo = lo + 1;
                lm = lm + 1;
            },
            ChangeTag::Delete => {
                push_char(&mut body, '-');
                lo = lo + 1;
                changed = true;
            },
            ChangeTag::Insert => {
                push_char(&mut body, '+');
                lm = lm + 1;
                changed = true;
            },
        }
        push_str(&mut body, c.text.as_str());
        push_char(&mut body, '\n');
        proof {
            let p = v.subrange(start as int, j + 1);
            let q = v.subrange(start as int, j as int);
            if c.tag != ChangeTag::Equal {
                assert(p[j - start].0 != ChangeTag::Equal);
            } else if has_change(p) {
                let i = choose|i: int| 0 <= i < p.len() && p[i].0 != ChangeTag::Equal;
                assert(i < j - start);
                assert(q[i] == p[i]);
            }
            if has_change(q) {
                let i = choose|i: int| 0 <= i < q.len() && q[i].0 != ChangeTag::Equal;
                assert(p[i] == q[i]);
            }
        }
        j = j + 1;
    }
    (lo, lm, changed, body)
}

/// Renders the alignment `cs` as a unified diff.
pub fn render_unified_diff(cs: &Vec<LineChange>) -> (r: String)
    ensures
        r@ == unified_diff(changes_view(cs@)),
{
    let ghost v = changes_view(cs@);
    let n = cs.len();
    let mut out = String::new();
    push_str(&mut out, "--- Original\n+++ Modified\n");
    let mut start: usize = 0;
    let mut old_before: usize = 0;
    let mut new_before: usize = 0;
    while start < n
        invariant
            n == cs@.len() == v.len(),
            v == changes_view(cs@),
            start <= n,
            old_before <= start,
            new_before <= start,
            old_before == old_count(v.subrange(0, start as int)),
            new_before == new_count(v.subrange(0, start as int)),
            out@ + hunks_from(v, start as int) == unified_diff(v),
        decreases n - start,
    {
        let end = if n - start >= 4 { start + 4 } else { n };
        let ghost part = v.subrange(start as int, end as int);
        let ghost out_before = out@;
        let (lo, lm, changed, body) = scan_group(cs, start, end);
        if changed {
            push_hunk(&mut out, old_before + 1, lo, new_before + 1, lm, &body, end - start == 4);
        }
        proof {
            assert(out@ == out_before + hunk_text(v, start as int, end as int));
            assert(hunks_from(v, start as int) == hunk_text(v, start as int, end as int) + hunks_from(v, end as int));
            assert(v.subrange(0, end as int) == v.subrange(0, start as int) + part);
            lemma_counts_concat(v.subrange(0, start as int), part);
        }
        old_before = old_before + lo;
        new_before = new_before + lm;
        start = end;
    }
    assert(hunks_from(v, n as int) == Seq::<char>::empty());
    out
}

/// Counting over a concatenation adds up.
proof fn lemma_counts_concat(a: Seq<(ChangeTag, Seq<char>)>, b: Seq<(ChangeTag, Seq<char>)>)
    ensures
        old_count(a + b) == old_count(a) + old_count(b),
        new_count(a + b) == new_count(a) + new_count(b),
    decreases b.len(),
{
    if b.len() > 0 {
        assert((a + b).drop_last() == a + b.drop_last());
        lemma_counts_concat(a, b.drop_last());
    } else {
        assert(a + b == a);
    }
}

proof fn lemma_counts_are_sides(v: Seq<LineChange>)
    ensures
        old_count(changes_view(v)) == old_side(values_view(v)).len(),
        new_count(changes_view(v)) == new_side(values_view(v)).len(),
        (forall|i: int| 0 <= i < v.len() ==> v[i].tag == ChangeTag::Equal) ==> old_side(values_view(v)) == new_side(values_view(v)),
    decreases v.len(),
{
    if v.len() > 0 {
        assert(changes_view(v).drop_last() == changes_view(v.drop_last()));
        assert(values_view(v).drop_last() == values_view(v.drop_last()));
        lemma_counts_are_sides(v.drop_last());
        assert(changes_view(v).last().0 == v.last().tag);
        assert(values_view(v).last().0 == v.last().tag);
    }
}

proof fn lemma_change_gives_hunk(cs: Seq<(ChangeTag, Seq<char>)>, start: int, i: int)
    requires
        0 <= start <= i < cs.len(),
        cs[i].0 != ChangeTag::Equal,
    ensures
        hunks_from(cs, start).len() > 0,
    decreases cs.len() - start,
{
    reveal_strlit("@@ -");
    let end = if start + 4 <= cs.len() { start + 4 } else { cs.len() as int };
    if i < end {
        let part = cs.subrange(start, end);
        assert(part[i - start] == cs[i]);
        assert(has_change(part));
        assert(hunk_text(cs, start, end).len() > 0);
        if start + 4 <= cs.len() {
            assert(hunks_from(cs, start) == hunk_text(cs, start, start + 4) + hunks_from(cs, start + 4));
        }
    } else {
        lemma_change_gives_hunk(cs, start + 4, i);
        assert(hunks_from(cs, start) == hunk_text(cs, start, start + 4) + hunks_from(cs, start + 4));
    }
}

impl DiffGenerator {
    /// The unified diff of two texts: a header, then the hunks of their line
    /// alignment.
    pub fn generate_unified_diff(original: &str, modified: &str) -> (r: Result<String, DiffError>)
        ensures
            r matches Ok(t) && t@ == unified_diff(line_alignment(original@, modified@)),
            original@ == modified@ ==> (r matches Ok(t) && t@ == diff_header()),
            r matches Ok(t) && (t@ == diff_header() <==> original@ == modified@),
            old_count(line_alignment(original@, modified@)) == line_tokens(original@).len(),
            new_count(line_alignment(original@, modified@)) == line_tokens(modified@).len(),
    {
        let cs = align_lines(original, modified);
        proof {
            lemma_counts_are_sides(cs@);
            if forall|i: int| 0 <= i < cs@.len() ==> cs@[i].tag == ChangeTag::Equal {
                lemma_tokens_determine_text(original@, modified@);
            } else {
                let i = choose|i: int| 0 <= i < cs@.len() && cs@[i].tag != ChangeTag::Equal;
                assert(changes_view(cs@)[i].0 != ChangeTag::Equal);
                lemma_change_gives_hunk(changes_view(cs@), 0, i);
                assert(unified_diff(changes_view(cs@)).len() > diff_header().len());
            }
            if original@ == modified@ {
                assert forall|i: int| 0 <= i < changes_view(cs@).len() implies changes_view(cs@)[i].0 == ChangeTag::Equal by {
                    assert(cs@[i].tag == ChangeTag::Equal);
                }
                no_change_means_no_hunks(changes_view(cs@));
            }
        }
        Ok(render_unified_diff(&cs))
    }
}

/// An alignment in which every line is equal gives no hunk: the diff is the
/// header alone.
pub proof fn no_change_means_no_hunks(cs: Seq<(ChangeTag, Seq<char>)>)
    requires
        forall|i: int| 0 <= i < cs.len() ==> cs[i].0 == ChangeTag::Equal,
    ensures
        unified_diff(cs) == diff_header(),
{
    lemma_no_change_no_hunks(cs, 0);
}

proof fn lemma_no_change_no_hunks(cs: Seq<(ChangeTag, Seq<char>)>, start: int)
    requires
        0 <= start,
        forall|i: int| 0 <= i < cs.len() ==> cs[i].0 == ChangeTag::Equal,
    ensures
        hunks_from(cs, start) == Seq::<char>::empty(),
    decreases cs.len() - start,
{
    if start + 4 <= cs.len() {
        let part = cs.subrange(start, start + 4);
        assert(!has_change(part)) by {
            if has_change(part) {
                let i = choose|i: int| 0 <= i < part.len() && part[i].0 != ChangeTag::Equal;
                assert(part[i] == cs[start + i]);
            }
        }
        lemma_no_change_no_hunks(cs, start + 4);
    } else if start < cs.len() {
        let part = cs.subrange(start, cs.len() as int);
        assert(!has_change(part)) by {
            if has_change(part) {
                let i = choose|i: int| 0 <= i < part.len() && part[i].0 != ChangeTag::Equal;
                assert(part[i] == cs[start + i]);
            }
        }
    }
}

/// The alignment that `similar` computes for two texts, word by word.
pub uninterp spec fn word_alignment(original: Seq<char>, modified: Seq<char>) -> Seq<(ChangeTag, Seq<char>)>;

/// Relies on `similar::TextDiff::from_words` (Myers, no deadline) and
/// `iter_all_changes`: the alignment depends on the two texts alone.
#[verifier::external_body]
fn align_words(original: &str, modified: &str) -> (r: Vec<LineChange>)
    ensures
        changes_view(r@) == word_alignment(original@, modified@),
{
    let diff = similar::TextDiff::from_words(original, modified);
    let mut out = Vec::new();
    for c in diff.iter_all_changes() {
        let tag = match c.tag() {
            similar::ChangeTag::Equal => ChangeTag::Equal,
            similar::ChangeTag::Delete => ChangeTag::Delete,
            similar::ChangeTag::Insert => ChangeTag::Insert,
        };
        out.push(LineChange { tag, value: c.value().to_string(), text: c.to_string() });
    }
    out
}

/// The characters with Unicode's `White_Space` property.
pub open spec fn is_white_space(c: char) -> bool {
    let n = c as u32;
    (0x09 <= n && n <= 0x0d) || n == 0x20 || n == 0x85 || n == 0xa0 || n == 0x1680
        || (0x2000 <= n && n <= 0x200a) || n == 0x2028 || n == 0x2029 || n == 0x202f || n == 0x205f
        || n == 0x3000
}

/// A text without its trailing white space.
pub open spec fn trimmed_end(s: Seq<char>) -> Seq<char>
    decreases s.len(),
{
    if s.len() > 0 && is_white_space(s.last()) { trimmed_end(s.drop_last()) } else { s }
}

/// A text without its leading white space.
pub open spec fn trimmed_start(s: Seq<char>) -> Seq<char>
    decreases s.len(),
{
    if s.len() > 0 && is_white_space(s[0]) { trimmed_start(s.drop_first()) } else { s }
}

/// Relies on `str::trim_end`, which removes the trailing characters with the
/// `White_Space` property.
#[verifier::external_body]
fn trim_end(s: &str) -> (r: String)
    ensures
        r@ == trimmed_end(s@),
{
    s.trim_end().to_string()
}

/// A text with `&`, `<` and `>` escaped as HTML entities.
pub open spec fn html_escaped(s: Seq<char>) -> Seq<char>
    decreases s.len(),
{
    if s.len() == 0 {
        Seq::empty()
    } else {
        let c = s.last();
        html_escaped(s.drop_last()) + if c == '&' {
            "&amp;"@
        } else if c == '<' {
            "&lt;"@
        } else if c == '>' {
            "&gt;"@
        } else {
            seq![c]
        }
    }
}

/// Relies on `html_escape::encode_text`, which replaces each `&`, `<` and `>`
/// by its entity and keeps every other character.
#[verifier::external_body]
fn escape_html(s: &str) -> (r: String)
    ensures
        r@ == html_escaped(s@),
{
    html_escape::encode_text(s).to_string()
}

/// One line of the HTML rendering.
pub open spec fn html_line(tag: ChangeTag, text: Seq<char>) -> Seq<char> {
    let t = html_escaped(trimmed_end(text));
    match tag {
        ChangeTag::Equal => seq![' '] + t + seq!['\n'],
        ChangeTag::Delete => "<span class=\"deletion\">-"@ + t + "</span>\n"@,
        ChangeTag::Insert => "<span class=\"insertion\">+"@ + t + "</span>\n"@,
    }
}

pub open spec fn html_body(cs: Seq<(ChangeTag, Seq<char>)>) -> Seq<char>
    decreases cs.len(),
{
    if cs.len() == 0 {
        Seq::empty()
    } else {
        html_body(cs.drop_last()) + html_line(cs.last().0, cs.last().1)
    }
}

/// The HTML rendering of an alignment: each line marked and escaped, inside a
/// `pre` element.
pub open spec fn html_diff(cs: Seq<(ChangeTag, Seq<char>)>) -> Seq<char> {
    "<pre class=\"diff\">\n"@ + html_body(cs) + "</pre>"@
}

/// One token of the word rendering.
pub open spec fn word_piece(tag: ChangeTag, text: Seq<char>) -> Seq<char> {
    match tag {
        ChangeTag::Equal => text,
        ChangeTag::Delete => "[-"@ + text + "-]"@,
        ChangeTag::Insert => "{+"@ + text + "+}"@,
    }
}

/// The word rendering of an alignment: deletions in `[- -]`, insertions in
/// `{+ +}`.
pub open spec fn word_diff(cs: Seq<(ChangeTag, Seq<char>)>) -> Seq<char>
    decreases cs.len(),
{
    if cs.len() == 0 {
        Seq::empty()
    } else {
        word_diff(cs.drop_last()) + word_piece(cs.last().0, cs.last().1)
    }
}

/// Renders an alignment as HTML.
pub fn render_html_diff(cs: &Vec<LineChange>) -> (r: String)
    ensures
        r@ == html_diff(changes_view(cs@)),
{
    let ghost v = changes_view(cs@);
    let mut out = String::new();
    push_str(&mut out, "<pre class=\"diff\">\n");
    let ghost head = out@;
    let mut i: usize = 0;
    while i < cs.len()
        invariant
            i <= cs@.len(),
            v == changes_view(cs@),
            out@ == head + html_body(v.subrange(0, i as int)),
        decreases cs.len() - i,
    {
        proof { lemma_prefix_step(v, 0, i as int); }
        let c = &cs[i];
        assert(v[i as int] == (c.tag, c.text@));
        let t = escape_html(trim_end(c.text.as_str()).as_str());
        match c.tag {
            ChangeTag::Equal => {
                push_char(&mut out, ' ');
                push_str(&mut out, t.as_str());
                push_char(&mut out, '\n');
            },
            ChangeTag::Delete => {
                push_str(&mut out, "<span class=\"deletion\">-");
                push_str(&mut out, t.as_str());
                push_str(&mut out, "</span>\n");
            },
            ChangeTag::Insert => {
                push_str(&mut out, "<span class=\"insertion\">+");
                push_str(&mut out, t.as_str());
                push_str(&mut out, "</span>\n");
            },
        }
        i = i + 1;
    }
    assert(v.subrange(0, cs@.len() as int) == v);
    push_str(&mut out, "</pre>");
    out
}

/// Renders a word alignment.
pub fn render_word_diff(cs: &Vec<LineChange>) -> (r: String)
    ensures
        r@ == word_diff(changes_view(cs@)),
{
    let ghost v = changes_view(cs@);
    let mut out = String::new();
    let mut i: usize = 0;
    while i < cs.len()
        invariant
            i <= cs@.len(),
            v == changes_view(cs@),
            out@ == word_diff(v.subrange(0, i as int)),
        decreases cs.len() - i,
    {
        proof { lemma_prefix_step(v, 0, i as int); }
        let c = &cs[i];
        assert(v[i as int] == (c.tag, c.text@));
        match c.tag {
            ChangeTag::Equal => {
                push_str(&mut out, c.text.as_str());
            },
            ChangeTag::Delete => {
                push_str(&mut out, "[-");
                push_str(&mut out, c.text.as_str());
                push_str(&mut out, "-]");
            },
            ChangeTag::Insert => {
                push_str(&mut out, "{+");
                push_str(&mut out, c.text.as_str());
                push_str(&mut out, "+}");
            },
        }
        i = i + 1;
    }
    assert(v.subrange(0, cs@.len() as int) == v);
    out
}

impl DiffGenerator {
    /// The line alignment of two texts as HTML.
    pub fn generate_html_diff(original: &str, modified: &str) -> (r: Result<String, DiffError>)
        ensures
            r matches Ok(t) && t@ == html_diff(line_alignment(original@, modified@)),
    {
        let cs = align_lines(original, modified);
        Ok(render_html_diff(&cs))
    }

    /// The word alignment of two texts, with changes marked inline.
    pub fn generate_word_diff(original: &str, modified: &str) -> (r: Result<String, DiffError>)
        ensures
            r matches Ok(t) && t@ == word_diff(word_alignment(original@, modified@)),
    {
        let cs = align_words(original, modified);
        Ok(render_word_diff(&cs))
    }
}

} // verus!
