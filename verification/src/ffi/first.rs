//! The first of several errors.

use vstd::prelude::*;

use crate::error::ErrorView;

verus! {

/// The first error, where there is one.
pub open spec fn first(errors: Seq<Option<ErrorView>>) -> Option<ErrorView>
    decreases errors.len(),
{
    if errors.len() == 0 {
        None
    } else {
        match first(errors.drop_last()) {
            Some(e) => Some(e),
            None => errors.last(),
        }
    }
}

/// The first error is the first that there is.
pub proof fn lemma_first(errors: Seq<Option<ErrorView>>)
    ensures
        first(errors) is None <==> forall|i: int|
            0 <= i < errors.len() ==> (#[trigger] errors[i]) is None,
        first(errors) is Some ==> exists|i: int|
            0 <= i < errors.len() && (#[trigger] errors[i]) == first(errors) && forall|j: int|
                0 <= j < i ==> (#[trigger] errors[j]) is None,
    decreases errors.len(),
{
    if errors.len() > 0 {
        let rest = errors.drop_last();
        lemma_first(rest);
        assert forall|i: int| 0 <= i < rest.len() implies rest[i] == #[trigger] errors[i] by {}
        let last = errors.len() - 1;
        assert(errors.last() == errors[last]);
        if first(rest) is Some {
            let i = choose|i: int|
                0 <= i < rest.len() && (#[trigger] rest[i]) == first(rest) && forall|j: int|
                    0 <= j < i ==> (#[trigger] rest[j]) is None;
            assert(errors[i] == first(errors));
            assert forall|j: int| 0 <= j < i implies (#[trigger] errors[j]) is None by {
                assert(rest[j] is None);
            }
        } else {
            assert forall|j: int| 0 <= j < last implies (#[trigger] errors[j]) is None by {
                assert(rest[j] is None);
            }
        }
    }
}

/// An error is the first one where none comes before it.
pub proof fn lemma_first_at(errors: Seq<Option<ErrorView>>, i: int)
    requires
        0 <= i < errors.len(),
        errors[i] is Some,
        forall|j: int| 0 <= j < i ==> (#[trigger] errors[j]) is None,
    ensures
        first(errors) == errors[i],
{
    lemma_first(errors);
    let k = choose|k: int|
        0 <= k < errors.len() && (#[trigger] errors[k]) == first(errors) && forall|j: int|
            0 <= j < k ==> (#[trigger] errors[j]) is None;
    assert(k == i);
}

} // verus!
