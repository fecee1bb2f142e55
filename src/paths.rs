//! Path strings: separator normalisation and joining.
use vstd::prelude::*;

verus! {

/// The characters of `s`, with each backslash turned into a forward slash.
pub open spec fn forward_slashes(s: Seq<char>) -> Seq<char> {
    s.map_values(|c: char| if c == '\\' { '/' } else { c })
}

/// `leaf` placed under the directory `dir`.
pub open spec fn join(dir: Seq<char>, leaf: Seq<char>) -> Seq<char> {
    dir + "/"@ + leaf
}

/// The views of a sequence of strings.
pub open spec fn views(v: Seq<String>) -> Seq<Seq<char>> {
    v.map_values(|s: String| s@)
}

/// Rewrites every backslash of `s` as a forward slash.
pub fn normalize_separators(s: &str) -> (r: String)
    ensures
        r@ == forward_slashes(s@),
{
    let n = s.unicode_len();
    let mut r = String::new();
    let mut i: usize = 0;
    while i < n
        invariant
            i <= n,
            n == s@.len(),
            r@ == forward_slashes(s@.take(i as int)),
        decreases n - i,
    {
        let c = s.get_char(i);
        let piece = s.substring_char(i, i + 1);
        proof {
            reveal_strlit("/");
        }
        if c == '\\' {
            r.append("/");
        } else {
            r.append(piece);
        }
        assert(s@.take(i + 1) =~= s@.take(i as int).push(c));
        assert(forward_slashes(s@.take(i + 1)) =~= forward_slashes(s@.take(i as int)).push(
            if c == '\\' { '/' } else { c },
        ));
        assert(piece@ =~= seq![c]);
        i = i + 1;
    }
    assert(s@.take(n as int) =~= s@);
    r
}

/// `leaf` placed under the directory `dir`.
pub fn join_path(dir: &str, leaf: &str) -> (r: String)
    ensures
        r@ == join(dir@, leaf@),
{
    let mut r = dir.to_string();
    r.append("/");
    r.append(leaf);
    r
}

} // verus!
