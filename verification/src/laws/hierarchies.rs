//! Which classes are above which.
use crate::generics::{self, ClassV};
use vstd::prelude::*;

verus! {

/// What is named directly is above, and what is above something that is above is
/// above too.
pub proof fn superclasses_are_above(
    classes: Map<Seq<char>, ClassV>,
    from: Seq<Seq<char>>,
    m: Seq<char>,
    n: Seq<char>,
)
    ensures
        from.contains(n) ==> generics::is_above(classes, from, n),
        generics::is_above(classes, from, m) && classes.contains_key(m)
            && classes[m].superclasses.contains(n) ==> generics::is_above(classes, from, n),
{
    if from.contains(n) {
        assert(generics::climbs(classes, from, seq![n]));
    }
    if generics::is_above(classes, from, m) && classes.contains_key(m)
        && classes[m].superclasses.contains(n) {
        let path = choose|path: Seq<Seq<char>>| #[trigger]
            generics::climbs(classes, from, path) && path.last() == m;
        let more = path.push(n);
        assert forall|i: int| 0 <= i < more.len() - 1 implies classes.contains_key(
            #[trigger] more[i],
        ) && classes[more[i]].superclasses.contains(more[i + 1]) by {
            if i < path.len() - 1 {
                assert(more[i] == path[i] && more[i + 1] == path[i + 1]);
            } else {
                assert(more[i] == path.last());
            }
        }
        assert(more[0] == path[0]);
        assert(generics::climbs(classes, from, more));
    }
}

/// Nothing else is above.
pub proof fn only_superclasses_are_above(
    classes: Map<Seq<char>, ClassV>,
    from: Seq<Seq<char>>,
    n: Seq<char>,
)
    requires
        generics::is_above(classes, from, n),
    ensures
        from.contains(n) || exists|m: Seq<char>|
            #[trigger] generics::is_above(classes, from, m) && classes.contains_key(m)
                && classes[m].superclasses.contains(n),
{
    let path = choose|path: Seq<Seq<char>>| #[trigger]
        generics::climbs(classes, from, path) && path.last() == n;
    if path.len() == 1 {
        assert(path[0] == n);
    } else {
        let less = path.drop_last();
        assert forall|i: int| 0 <= i < less.len() - 1 implies classes.contains_key(
            #[trigger] less[i],
        ) && classes[less[i]].superclasses.contains(less[i + 1]) by {
            assert(less[i] == path[i] && less[i + 1] == path[i + 1]);
        }
        assert(less[0] == path[0]);
        assert(generics::climbs(classes, from, less));
        assert(classes.contains_key(path[path.len() - 2]));
        assert(generics::is_above(classes, from, less.last()));
    }
}

} // verus!
