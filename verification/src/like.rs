use vstd::prelude::*;
use crate::text::chars_of;
use crate::text::fold_char;
use crate::text::fold_char_exec;

verus! {

/// `LIKE`-pattern matching as the library understands the patterns it passes
/// on: `%` matches any run of characters, including the empty one, `_`
/// matches exactly one character, and every other pattern character matches
/// one text character up to ASCII case.
pub open spec fn like_matches(p: Seq<char>, t: Seq<char>) -> bool
    decreases p.len() + t.len(),
{
    if p.len() == 0 {
        t.len() == 0
    } else if p[0] == '%' {
        like_matches(p.skip(1), t) || (t.len() > 0 && like_matches(p, t.skip(1)))
    } else if p[0] == '_' {
        t.len() > 0 && like_matches(p.skip(1), t.skip(1))
    } else {
        t.len() > 0 && fold_char(p[0]) == fold_char(t[0]) && like_matches(p.skip(1), t.skip(1))
    }
}

fn like_from(p: &Vec<char>, t: &Vec<char>, i: usize, j: usize) -> (r: bool)
    requires
        i <= p.len(),
        j <= t.len(),
    ensures
        r == like_matches(p@.skip(i as int), t@.skip(j as int)),
    decreases p.len() - i + t.len() - j,
{
    proof {
        if i < p.len() {
            assert(p@.skip(i as int).skip(1) =~= p@.skip(i + 1 as int));
        }
        if j < t.len() {
            assert(t@.skip(j as int).skip(1) =~= t@.skip(j + 1 as int));
        }
    }
    if i == p.len() {
        j == t.len()
    } else if p[i] == '%' {
        like_from(p, t, i + 1, j) || (j < t.len() && like_from(p, t, i, j + 1))
    } else if p[i] == '_' {
        j < t.len() && like_from(p, t, i + 1, j + 1)
    } else {
        j < t.len() && fold_char_exec(p[i]) == fold_char_exec(t[j]) && like_from(p, t, i + 1, j + 1)
    }
}

/// Whether `text` matches the `LIKE` pattern `pattern`.
pub fn like_match(pattern: &str, text: &str) -> (r: bool)
    ensures
        r == like_matches(pattern@, text@),
{
    let p = chars_of(pattern);
    let t = chars_of(text);
    proof {
        assert(p@.skip(0) =~= pattern@);
        assert(t@.skip(0) =~= text@);
    }
    like_from(&p, &t, 0, 0)
}

} // verus!
