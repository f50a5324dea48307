//! The program's own name: the trailing component of the path it was
//! invoked under, used as the prefix of every message the tool prints.

use vstd::prelude::*;
use vstd::string::*;

verus! {

/// The characters after the last `/` of `s`: all of `s` when no `/`
/// occurs, and empty when `s` ends with `/`.
pub open spec fn basename_spec(s: Seq<char>) -> Seq<char>
    decreases s.len(),
{
    if s.len() == 0 {
        s
    } else if s.last() == '/' {
        Seq::<char>::empty()
    } else {
        basename_spec(s.drop_last()).push(s.last())
    }
}

proof fn lemma_basename_no_slash(s: Seq<char>)
    requires
        forall|i: int| 0 <= i < s.len() ==> s[i] != '/',
    ensures
        basename_spec(s) == s,
    decreases s.len(),
{
    if s.len() > 0 {
        assert(s.last() != '/');
        assert(forall|i: int| 0 <= i < s.drop_last().len() ==> s.drop_last()[i] == s[i]);
        lemma_basename_no_slash(s.drop_last());
        assert(s.drop_last().push(s.last()) =~= s);
    }
}

proof fn lemma_basename_after_slash(s: Seq<char>, j: int)
    requires
        0 <= j < s.len(),
        s[j] == '/',
        forall|i: int| j < i < s.len() ==> s[i] != '/',
    ensures
        basename_spec(s) == s.subrange(j + 1, s.len() as int),
    decreases s.len(),
{
    if j == s.len() - 1 {
        assert(s.last() == '/');
        assert(s.subrange(j + 1, s.len() as int) =~= Seq::<char>::empty());
    } else {
        assert(s.last() != '/');
        let d = s.drop_last();
        assert(forall|i: int| 0 <= i < d.len() ==> d[i] == s[i]);
        lemma_basename_after_slash(d, j);
        assert(d.subrange(j + 1, d.len() as int) =~= s.subrange(j + 1, s.len() - 1));
        assert(s.subrange(j + 1, s.len() - 1).push(s.last()) =~= s.subrange(j + 1, s.len() as int));
    }
}

/// The name under which the program was invoked: the last component of
/// its path.
pub fn basename<'a>(path: &'a str) -> (r: &'a str)
    ensures
        r@ == basename_spec(path@),
{
    let n = path.unicode_len();
    let mut i = n;
    while i > 0
        invariant
            i <= n,
            n == path@.len(),
            forall|k: int| i <= k < n ==> path@[k] != '/',
        decreases i,
    {
        if path.get_char(i - 1) == '/' {
            let r = path.substring_char(i, n);
            proof {
                lemma_basename_after_slash(path@, i as int - 1);
            }
            return r;
        }
        i = i - 1;
    }
    proof {
        lemma_basename_no_slash(path@);
    }
    path
}

} // verus!
