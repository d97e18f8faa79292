//! Textual path handling: absolute paths, joining, prefixes and the last
//! component of a path.
use vstd::prelude::*;
use crate::lines::{chars_of, push_str, push_char, copy_str, string_of_range, opt_view};

verus! {

pub open spec fn is_absolute(p: Seq<char>) -> bool {
    p.len() > 0 && p[0] == '/'
}

/// `rel` joined onto `base`, as `PathBuf::push` does: an absolute `rel`
/// replaces `base`.
pub open spec fn join_path(base: Seq<char>, rel: Seq<char>) -> Seq<char> {
    if is_absolute(rel) || base.len() == 0 {
        rel
    } else if base.last() == '/' {
        base + rel
    } else {
        base.push('/') + rel
    }
}

pub open spec fn has_prefix(s: Seq<char>, prefix: Seq<char>) -> bool {
    prefix.len() <= s.len() && s.subrange(0, prefix.len() as int) == prefix
}

/// `p` is `base` or lies below it, component-wise.
pub open spec fn descends_from(p: Seq<char>, base: Seq<char>) -> bool {
    p == base || (has_prefix(p, base) && p.len() > base.len() && (
        (base.len() > 0 && base.last() == '/') || p[base.len() as int] == '/'))
}

pub fn is_absolute_path(p: &str) -> (r: bool)
    ensures
        r == is_absolute(p@),
{
    let n = p.unicode_len();
    n > 0 && p.get_char(0) == '/'
}

/// Whether `s` begins with `prefix`.
pub fn starts_with(s: &str, prefix: &str) -> (r: bool)
    ensures
        r == has_prefix(s@, prefix@),
{
    let a = chars_of(s);
    let b = chars_of(prefix);
    if b.len() > a.len() {
        return false;
    }
    let mut i: usize = 0;
    while i < b.len()
        invariant
            a@ == s@,
            b@ == prefix@,
            b@.len() <= a@.len(),
            i <= b@.len(),
            forall|j: int| 0 <= j < i ==> a@[j] == b@[j],
        decreases b.len() - i,
    {
        if a[i] != b[i] {
            return false;
        }
        i = i + 1;
    }
    assert(s@.subrange(0, prefix@.len() as int) == prefix@);
    true
}

/// Whether `p` is `base` or lies below it.
pub fn is_descendant(p: &str, base: &str) -> (r: bool)
    ensures
        r == descends_from(p@, base@),
{
    let pre = starts_with(p, base);
    proof {
        if p@ == base@ {
            assert(p@.subrange(0, base@.len() as int) == p@);
        }
    }
    let pn = p.unicode_len();
    let bn = base.unicode_len();
    if pre && pn == bn {
        assert(p@ == p@.subrange(0, bn as int));
        return true;
    }
    if !pre || pn <= bn {
        return false;
    }
    (bn > 0 && base.get_char(bn - 1) == '/') || p.get_char(bn) == '/'
}

/// `rel` joined onto `base`.
pub fn join(base: &str, rel: &str) -> (r: String)
    ensures
        r@ == join_path(base@, rel@),
{
    let bn = base.unicode_len();
    if is_absolute_path(rel) || bn == 0 {
        return copy_str(rel);
    }
    let mut out = copy_str(base);
    if base.get_char(bn - 1) != '/' {
        push_char(&mut out, '/');
    }
    push_str(&mut out, rel);
    out
}

/// `a` followed by `b`.
pub fn concat(a: &str, b: &str) -> (r: String)
    ensures
        r@ == a@ + b@,
{
    let mut out = copy_str(a);
    push_str(&mut out, b);
    out
}

/// The position just past the last `/` of `s[..end]`, or 0.
pub open spec fn component_start(s: Seq<char>, end: int) -> int
    decreases end,
{
    if end <= 0 {
        0
    } else if s[end - 1] == '/' {
        end
    } else {
        component_start(s, end - 1)
    }
}

/// The end of `s` without its trailing `/`s.
pub open spec fn trimmed_end(s: Seq<char>, end: int) -> int
    decreases end,
{
    if end <= 0 {
        0
    } else if s[end - 1] == '/' {
        trimmed_end(s, end - 1)
    } else {
        end
    }
}

/// The last component of a path, unless it is empty, `.` or `..`.
pub open spec fn file_name_spec(p: Seq<char>) -> Option<Seq<char>> {
    let e = trimmed_end(p, p.len() as int);
    let name = p.subrange(component_start(p, e), e);
    if name.len() == 0 || name == seq!['.'] || name == seq!['.', '.'] {
        None
    } else {
        Some(name)
    }
}

proof fn lemma_trimmed_end_bounds(s: Seq<char>, end: int)
    requires
        0 <= end <= s.len(),
    ensures
        0 <= trimmed_end(s, end) <= end,
    decreases end,
{
    if end > 0 && s[end - 1] == '/' {
        lemma_trimmed_end_bounds(s, end - 1);
    }
}

/// The last component of a path.
pub fn file_name(p: &str) -> (r: Option<String>)
    ensures
        match r {
            Some(n) => file_name_spec(p@) == Some(n@),
            None => file_name_spec(p@) is None,
        },
{
    let cs = chars_of(p);
    let mut e = cs.len();
    while e > 0 && cs[e - 1] == '/'
        invariant
            cs@ == p@,
            e <= cs@.len(),
            trimmed_end(cs@, e as int) == trimmed_end(cs@, cs@.len() as int),
        decreases e,
    {
        e = e - 1;
    }
    proof { lemma_trimmed_end_bounds(cs@, cs@.len() as int); }
    let mut s = e;
    while s > 0 && cs[s - 1] != '/'
        invariant
            cs@ == p@,
            s <= e <= cs@.len(),
            e == trimmed_end(cs@, cs@.len() as int),
            component_start(cs@, s as int) == component_start(cs@, e as int),
        decreases s,
    {
        s = s - 1;
    }
    assert(s as int == component_start(cs@, s as int));
    assert(s as int == component_start(cs@, e as int));
    let name = string_of_range(&cs, s, e);
    let k = e - s;
    if k == 0 || (k == 1 && cs[s] == '.') || (k == 2 && cs[s] == '.' && cs[s + 1] == '.') {
        proof {
            if k == 1 {
                assert(name@ == seq!['.']);
            }
            if k == 2 {
                assert(name@ == seq!['.', '.']);
            }
        }
        None
    } else {
        proof {
            if name@ == seq!['.'] {
                assert(name@[0] == cs@[s as int]);
            }
            if name@ == seq!['.', '.'] {
                assert(name@[0] == cs@[s as int]);
                assert(name@[1] == cs@[s + 1]);
            }
            assert(seq!['.'].len() == 1 && seq!['.'][0] == '.');
            assert(seq!['.', '.'].len() == 2 && seq!['.', '.'][0] == '.' && seq!['.', '.'][1] == '.');
            assert(name@.len() == k);
            if k == 1 {
                assert(name@[0] != '.');
            }
            if k == 2 {
                assert(name@[0] != '.' || name@[1] != '.');
            }
            assert(name@ != seq!['.']);
            assert(name@ != seq!['.', '.']);
            assert(name@.len() != 0);
            assert(name@ == p@.subrange(component_start(p@, trimmed_end(p@, p@.len() as int)), trimmed_end(p@, p@.len() as int)));
        }
        Some(name)
    }
}

/// Relies on `dirs::home_dir`: the user's home directory where one can be
/// found. It depends on the environment, so nothing is promised of it.
#[verifier::external_body]
fn home_directory() -> (r: Option<String>) {
    dirs::home_dir().map(|h| h.to_string_lossy().to_string())
}

/// `~` alone is the home directory and `~/rest` lies below it; any other path,
/// `~user` forms included, stays as it is, as does every path without a home.
pub open spec fn expand_tilde_spec(path: Seq<char>, home: Option<Seq<char>>) -> Seq<char> {
    if !(path.len() > 0 && path[0] == '~') {
        path
    } else {
        match home {
            None => path,
            Some(h) => if path.len() == 1 {
                h
            } else if path[1] == '/' {
                join_path(h, path.subrange(2, path.len() as int))
            } else {
                path
            },
        }
    }
}

/// The part of `p` below `base`, where `p` descends from it.
pub open spec fn relative_part(p: Seq<char>, base: Seq<char>) -> Seq<char> {
    if base.len() > 0 && base.last() == '/' {
        p.subrange(base.len() as int, p.len() as int)
    } else {
        p.subrange(base.len() as int + 1, p.len() as int)
    }
}

/// Backslashes written as forward slashes.
pub open spec fn forward_slashes(s: Seq<char>) -> Seq<char> {
    s.map_values(|c: char| if c == '\\' { '/' } else { c })
}

/// The home directory itself is `~`, a path below it is `~/rest`, any other
/// path stays as it is.
pub open spec fn contract_tilde_spec(path: Seq<char>, home: Option<Seq<char>>) -> Seq<char> {
    match home {
        None => path,
        Some(h) => if path == h {
            seq!['~']
        } else if descends_from(path, h) {
            if relative_part(path, h).len() == 0 {
                seq!['~']
            } else {
                seq!['~', '/'] + forward_slashes(relative_part(path, h))
            }
        } else {
            path
        },
    }
}

/// `path` with a leading `~` expanded against `home`.
pub fn expand_tilde_with(path: &str, home: Option<String>) -> (r: String)
    ensures
        r@ == expand_tilde_spec(path@, opt_view(home)),
{
    let cs = chars_of(path);
    if !(cs.len() > 0 && cs[0] == '~') {
        return copy_str(path);
    }
    match home {
        None => copy_str(path),
        Some(h) => {
            if cs.len() == 1 {
                h
            } else if cs[1] == '/' {
                let rest = string_of_range(&cs, 2, cs.len());
                join(h.as_str(), rest.as_str())
            } else {
                copy_str(path)
            }
        },
    }
}

/// `path` with a leading `~` expanded against the user's home directory.
pub fn expand_tilde(path: &str) -> (r: String)
    ensures
        exists|h: Option<Seq<char>>| r@ == expand_tilde_spec(path@, h),
        !(path@.len() > 0 && path@[0] == '~') ==> r@ == path@,
{
    let home = home_directory();
    let ghost hv = opt_view(home);
    let r = expand_tilde_with(path, home);
    assert(r@ == expand_tilde_spec(path@, hv));
    r
}

/// `path` with the home directory `home` written as `~`.
pub fn contract_tilde_with(path: &str, home: Option<String>) -> (r: String)
    ensures
        r@ == contract_tilde_spec(path@, opt_view(home)),
{
    match home {
        None => copy_str(path),
        Some(h) => {
            if crate::json::str_eq(path, h.as_str()) {
                let mut out = String::new();
                push_char(&mut out, '~');
                return out;
            }
            if !is_descendant(path, h.as_str()) {
                return copy_str(path);
            }
            let cs = chars_of(path);
            let hn = h.as_str().unicode_len();
            let from = if hn > 0 && h.as_str().get_char(hn - 1) == '/' { hn } else { hn + 1 };
            let mut out = String::new();
            push_char(&mut out, '~');
            if from < cs.len() {
                push_char(&mut out, '/');
                let mut i = from;
                while i < cs.len()
                    invariant
                        cs@ == path@,
                        from <= i <= cs@.len(),
                        out@ == seq!['~', '/'] + forward_slashes(cs@.subrange(from as int, i as int)),
                    decreases cs.len() - i,
                {
                    let c = cs[i];
                    push_char(&mut out, if c == '\\' { '/' } else { c });
                    assert(cs@.subrange(from as int, i + 1) == cs@.subrange(from as int, i as int).push(c));
                    assert(forward_slashes(cs@.subrange(from as int, i + 1)) =~= forward_slashes(cs@.subrange(from as int, i as int)).push(if c == '\\' { '/' } else { c }));
                    i = i + 1;
                }
            }
            out
        },
    }
}

/// `path` with the user's home directory written as `~`.
pub fn contract_tilde(path: &str) -> (r: String)
    ensures
        exists|h: Option<Seq<char>>| r@ == contract_tilde_spec(path@, h),
{
    let home = home_directory();
    let ghost hv = opt_view(home);
    let r = contract_tilde_with(path, home);
    assert(r@ == contract_tilde_spec(path@, hv));
    r
}

} // verus!
