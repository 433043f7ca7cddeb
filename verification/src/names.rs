//! Tables of names, and the search for a name in one.

use vstd::prelude::*;

verus! {

/// The number of names at the start of `names` that differ from `name`: the
/// place of `name` among them, or their number if it is none of them.
pub open spec fn position_of(names: Seq<&'static str>, name: Seq<char>) -> nat
    decreases names.len(),
{
    if names.len() == 0 || names[0]@ == name {
        0
    } else {
        1 + position_of(names.drop_first(), name)
    }
}

/// Whether `name` is one of `names`.
pub open spec fn is_one_of(names: Seq<&'static str>, name: Seq<char>) -> bool {
    position_of(names, name) < names.len()
}

/// `position_of` is the one index with other names before it and `name`, or
/// the end, at it.
pub proof fn lemma_position_of(names: Seq<&'static str>, name: Seq<char>, i: int)
    requires
        0 <= i <= names.len(),
        forall|k: int| 0 <= k < i ==> (#[trigger] names[k])@ != name,
        i < names.len() ==> names[i]@ == name,
    ensures
        position_of(names, name) == i,
    decreases names.len(),
{
    if i > 0 {
        assert(names[0]@ != name);
        let t = names.drop_first();
        assert forall|k: int| 0 <= k < i - 1 implies (#[trigger] t[k])@ != name by {
            assert(t[k] == names[k + 1]);
        }
        lemma_position_of(t, name, i - 1);
    }
}

/// `<str as PartialEq>::eq`: two strings are equal when they hold the same
/// characters.
#[verifier::external_body]
pub(crate) fn str_eq(a: &str, b: &str) -> (r: bool)
    ensures
        r == (a@ == b@),
{
    a == b
}

/// The place of `name` in `names`, if it is one of them.
pub fn find_name(names: &[&'static str], name: &str) -> (r: Option<usize>)
    ensures
        r is Some <==> is_one_of(names@, name@),
        r matches Some(i) ==> i == position_of(names@, name@),
{
    let n = names.len();
    let mut i: usize = 0;
    while i < n
        invariant
            n == names@.len(),
            i <= n,
            forall|k: int| 0 <= k < i ==> (#[trigger] names@[k])@ != name@,
        decreases n - i,
    {
        if str_eq(names[i], name) {
            proof {
                lemma_position_of(names@, name@, i as int);
            }
            return Some(i);
        }
        i += 1;
    }
    proof {
        lemma_position_of(names@, name@, n as int);
    }
    None
}

} // verus!
