//! Values that can be copied and compared by their mathematical value.

use std::sync::Arc;

use vstd::prelude::*;

verus! {

/// A value that can be copied and compared. Both go by the mathematical value alone, so two maps
/// with the same entries are the same, whatever order the entries were inserted in.
pub trait Data: DeepView + Sized {
    /// A copy with the same value.
    fn dup(&self) -> (res: Self)
        ensures
            res.deep_view() == self.deep_view(),
    ;

    /// Whether both have the same value.
    fn same(&self, other: &Self) -> (res: bool)
        ensures
            res == (self.deep_view() == other.deep_view()),
    ;
}

impl Data for String {
    fn dup(&self) -> (res: Self) {
        self.clone()
    }

    fn same(&self, other: &Self) -> (res: bool) {
        *self == *other
    }
}

impl Data for i64 {
    fn dup(&self) -> (res: Self) {
        *self
    }

    fn same(&self, other: &Self) -> (res: bool) {
        *self == *other
    }
}

impl<T: Data> Data for Option<T> {
    fn dup(&self) -> (res: Self) {
        match self {
            Some(value) => Some(value.dup()),
            None => None,
        }
    }

    fn same(&self, other: &Self) -> (res: bool) {
        match self {
            Some(a) => match other {
                Some(b) => a.same(b),
                None => false,
            },
            None => other.is_none(),
        }
    }
}

impl<T: Data> Data for Arc<T> {
    fn dup(&self) -> (res: Self) {
        let inner: &T = &**self;
        Arc::new(inner.dup())
    }

    fn same(&self, other: &Self) -> (res: bool) {
        let inner: &T = &**self;
        inner.same(&**other)
    }
}

impl<T: Data> Data for Vec<T> {
    fn dup(&self) -> (res: Self) {
        let mut res: Vec<T> = Vec::new();
        let mut i: usize = 0;
        while i < self.len()
            invariant
                i <= self@.len(),
                res@.len() == i,
                forall|j: int| 0 <= j < i ==> res@[j].deep_view() == (#[trigger] self@[j]).deep_view(),
            decreases self@.len() - i,
        {
            res.push(self[i].dup());
            i = i + 1;
        }
        assert(res.deep_view() =~= self.deep_view());
        res
    }

    fn same(&self, other: &Self) -> (res: bool) {
        if self.len() != other.len() {
            assert(self.deep_view().len() != other.deep_view().len());
            return false;
        }
        let mut i: usize = 0;
        while i < self.len()
            invariant
                i <= self@.len(),
                self@.len() == other@.len(),
                forall|j: int|
                    0 <= j < i ==> (#[trigger] self@[j]).deep_view() == other@[j].deep_view(),
            decreases self@.len() - i,
        {
            if !self[i].same(&other[i]) {
                assert(self.deep_view()[i as int] != other.deep_view()[i as int]);
                return false;
            }
            i = i + 1;
        }
        assert(self.deep_view() =~= other.deep_view());
        true
    }
}

} // verus!
