//! The line framing of the transport: the forgiving normalization applied to
//! an inbound line that does not decode as it stands.
use vstd::prelude::*;
use crate::lines::{chars_of, push_char};

verus! {

/// Control characters that may not stand raw in a line of JSON become spaces.
pub open spec fn blank_controls(s: Seq<char>) -> Seq<char> {
    s.map_values(|c: char| if c == '\n' || c == '\r' || c == '\t' { ' ' } else { c })
}

/// Each `x y` pair, scanning from the left without overlap, becomes `z`.
pub open spec fn replace_pair(s: Seq<char>, x: char, y: char, z: char) -> Seq<char>
    decreases s.len(),
{
    if s.len() < 2 {
        s
    } else if s[0] == x && s[1] == y {
        seq![z] + replace_pair(s.subrange(2, s.len() as int), x, y, z)
    } else {
        seq![s[0]] + replace_pair(s.subrange(1, s.len() as int), x, y, z)
    }
}

/// The normalized line: control characters blanked, then doubled backslashes
/// collapsed, then escaped quotes unescaped.
pub open spec fn normalized(s: Seq<char>) -> Seq<char> {
    replace_pair(replace_pair(blank_controls(s), '\\', '\\', '\\'), '\\', '"', '"')
}

fn replace_pair_vec(cs: &Vec<char>, x: char, y: char, z: char) -> (r: Vec<char>)
    ensures
        r@ == replace_pair(cs@, x, y, z),
{
    let n = cs.len();
    let mut out: Vec<char> = Vec::new();
    let mut i: usize = 0;
    assert(cs@.subrange(0, n as int) == cs@);
    while i < n
        invariant
            n == cs@.len(),
            i <= n,
            out@ + replace_pair(cs@.subrange(i as int, n as int), x, y, z) == replace_pair(cs@, x, y, z),
        decreases n - i,
    {
        let ghost rest = cs@.subrange(i as int, n as int);
        if i + 1 < n && cs[i] == x && cs[i + 1] == y {
            assert(rest.subrange(2, rest.len() as int) == cs@.subrange(i + 2, n as int));
            out.push(z);
            i = i + 2;
        } else {
            assert(rest.subrange(1, rest.len() as int) == cs@.subrange(i + 1, n as int));
            proof {
                if rest.len() == 1 {
                    assert(replace_pair(rest, x, y, z) =~= seq![rest[0]] + replace_pair(rest.subrange(1, rest.len() as int), x, y, z));
                }
            }
            out.push(cs[i]);
            i = i + 1;
        }
    }
    assert(cs@.subrange(0, n as int) == cs@);
    out
}

/// Normalizes an inbound line for a second attempt at decoding it.
pub fn normalize_json_line(line: &str) -> (r: String)
    ensures
        r@ == normalized(line@),
{
    let cs = chars_of(line);
    let mut blanked: Vec<char> = Vec::new();
    let mut i: usize = 0;
    while i < cs.len()
        invariant
            i <= cs@.len(),
            blanked@ == blank_controls(cs@.subrange(0, i as int)),
        decreases cs.len() - i,
    {
        let c = cs[i];
        blanked.push(if c == '\n' || c == '\r' || c == '\t' { ' ' } else { c });
        assert(cs@.subrange(0, i + 1) == cs@.subrange(0, i as int).push(c));
        assert(blank_controls(cs@.subrange(0, i + 1)) =~= blanked@);
        i = i + 1;
    }
    assert(cs@.subrange(0, cs@.len() as int) == cs@);
    let a = replace_pair_vec(&blanked, '\\', '\\', '\\');
    let b = replace_pair_vec(&a, '\\', '"', '"');
    let mut out = String::new();
    let mut j: usize = 0;
    while j < b.len()
        invariant
            j <= b@.len(),
            out@ == b@.subrange(0, j as int),
        decreases b.len() - j,
    {
        push_char(&mut out, b[j]);
        assert(b@.subrange(0, j + 1) == b@.subrange(0, j as int).push(b@[j as int]));
        j = j + 1;
    }
    assert(b@.subrange(0, b@.len() as int) == b@);
    out
}

} // verus!
