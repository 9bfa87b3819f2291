//! Values that are copied and compared by what they hold.

use crate::json::{self, Json, JsonView};
use crate::text;
use vstd::prelude::*;

verus! {

broadcast use {crate::views::group_views, crate::json::group_json};

/// A value that is copied and compared by its content. Two contents are alike
/// where every part of one equals the same part of the other; only a JSON number
/// may be written in two ways.
pub trait Content: DeepView + Sized {
    spec fn alike(a: Self::V, b: Self::V) -> bool;

    proof fn alike_itself(a: Self::V)
        ensures
            Self::alike(a, a),
    ;

    proof fn alike_both_ways(a: Self::V, b: Self::V)
        ensures
            Self::alike(a, b) == Self::alike(b, a),
    ;

    fn duplicate(&self) -> (copy: Self)
        ensures
            copy.deep_view() == self.deep_view(),
    ;

    fn same_content(&self, other: &Self) -> (result: bool)
        ensures
            result == Self::alike(self.deep_view(), other.deep_view()),
    ;
}

impl Content for String {
    open spec fn alike(a: Seq<char>, b: Seq<char>) -> bool {
        a == b
    }

    proof fn alike_itself(a: Seq<char>) {
    }

    proof fn alike_both_ways(a: Seq<char>, b: Seq<char>) {
    }

    fn duplicate(&self) -> (copy: Self) {
        self.clone()
    }

    fn same_content(&self, other: &Self) -> (result: bool) {
        text::same(self, other)
    }
}

impl Content for Json {
    open spec fn alike(a: JsonView, b: JsonView) -> bool {
        json::equal(a, b)
    }

    proof fn alike_itself(a: JsonView) {
        json::a_value_equals_itself(a);
    }

    proof fn alike_both_ways(a: JsonView, b: JsonView) {
        json::equality_goes_both_ways(a, b);
    }

    fn duplicate(&self) -> (copy: Self) {
        self.dup()
    }

    fn same_content(&self, other: &Self) -> (result: bool) {
        json::same(self, other)
    }
}

/// Alike, or both absent.
pub open spec fn alike_option<T: Content>(a: Option<T::V>, b: Option<T::V>) -> bool {
    match (a, b) {
        (Some(a), Some(b)) => T::alike(a, b),
        (None, None) => true,
        _ => false,
    }
}

impl<T: Content> Content for Option<T> {
    open spec fn alike(a: Option<T::V>, b: Option<T::V>) -> bool {
        alike_option::<T>(a, b)
    }

    proof fn alike_itself(a: Option<T::V>) {
        if let Some(a) = a {
            T::alike_itself(a);
        }
    }

    proof fn alike_both_ways(a: Option<T::V>, b: Option<T::V>) {
        if let (Some(a), Some(b)) = (a, b) {
            T::alike_both_ways(a, b);
        }
    }

    fn duplicate(&self) -> (copy: Self) {
        match self {
            Some(value) => Some(value.duplicate()),
            None => None,
        }
    }

    fn same_content(&self, other: &Self) -> (result: bool) {
        match (self, other) {
            (Some(a), Some(b)) => a.same_content(b),
            (None, None) => true,
            _ => false,
        }
    }
}

/// Alike, item for item.
pub open spec fn alike_items<T: Content>(a: Seq<T::V>, b: Seq<T::V>) -> bool {
    &&& a.len() == b.len()
    &&& forall|i: int| 0 <= i < a.len() ==> T::alike(#[trigger] a[i], b[i])
}

impl<T: Content> Content for Vec<T> {
    open spec fn alike(a: Seq<T::V>, b: Seq<T::V>) -> bool {
        alike_items::<T>(a, b)
    }

    proof fn alike_itself(a: Seq<T::V>) {
        assert forall|i: int| 0 <= i < a.len() implies T::alike(#[trigger] a[i], a[i]) by {
            T::alike_itself(a[i]);
        }
    }

    proof fn alike_both_ways(a: Seq<T::V>, b: Seq<T::V>) {
        assert forall|i: int| 0 <= i < a.len() && a.len() == b.len() implies T::alike(
            #[trigger] a[i],
            b[i],
        ) == T::alike(b[i], a[i]) by {
            T::alike_both_ways(a[i], b[i]);
        }
        assert(alike_items::<T>(a, b) == alike_items::<T>(b, a)) by {
            if alike_items::<T>(a, b) {
                assert forall|i: int| 0 <= i < b.len() implies T::alike(#[trigger] b[i], a[i]) by {
                    assert(T::alike(a[i], b[i]));
                }
            }
            if alike_items::<T>(b, a) {
                assert forall|i: int| 0 <= i < a.len() implies T::alike(#[trigger] a[i], b[i]) by {
                    assert(T::alike(b[i], a[i]));
                }
            }
        }
    }

    fn duplicate(&self) -> (copy: Self) {
        let mut out: Vec<T> = Vec::new();
        let mut i: usize = 0;
        while i < self.len()
            invariant
                i <= self.len(),
                out.deep_view() == self.deep_view().take(i as int),
            decreases self.len() - i,
        {
            out.push(self[i].duplicate());
            i = i + 1;
            assert(self.deep_view().take(i as int) =~= self.deep_view().take(i - 1).push(
                self@[i - 1].deep_view(),
            ));
        }
        assert(self.deep_view().take(i as int) =~= self.deep_view());
        out
    }

    fn same_content(&self, other: &Self) -> (result: bool) {
        assert(self.deep_view().len() == self@.len() && other.deep_view().len() == other@.len());
        if self.len() != other.len() {
            return false;
        }
        let mut i: usize = 0;
        while i < self.len()
            invariant
                i <= self.len() == other.len(),
                forall|k: int|
                    0 <= k < i ==> T::alike(
                        #[trigger] self.deep_view()[k],
                        other.deep_view()[k],
                    ),
            decreases self.len() - i,
        {
            assert(self.deep_view()[i as int] == self@[i as int].deep_view());
            assert(other.deep_view()[i as int] == other@[i as int].deep_view());
            if !self[i].same_content(&other[i]) {
                return false;
            }
            i = i + 1;
        }
        true
    }
}

impl<A: Content, B: Content> Content for (A, B) {
    open spec fn alike(a: (A::V, B::V), b: (A::V, B::V)) -> bool {
        A::alike(a.0, b.0) && B::alike(a.1, b.1)
    }

    proof fn alike_itself(a: (A::V, B::V)) {
        A::alike_itself(a.0);
        B::alike_itself(a.1);
    }

    proof fn alike_both_ways(a: (A::V, B::V), b: (A::V, B::V)) {
        A::alike_both_ways(a.0, b.0);
        B::alike_both_ways(a.1, b.1);
    }

    fn duplicate(&self) -> (copy: Self) {
        (self.0.duplicate(), self.1.duplicate())
    }

    fn same_content(&self, other: &Self) -> (result: bool) {
        self.0.same_content(&other.0) && self.1.same_content(&other.1)
    }
}

impl Content for bool {
    open spec fn alike(a: bool, b: bool) -> bool {
        a == b
    }

    proof fn alike_itself(a: bool) {
    }

    proof fn alike_both_ways(a: bool, b: bool) {
    }

    fn duplicate(&self) -> (copy: Self) {
        *self
    }

    fn same_content(&self, other: &Self) -> (result: bool) {
        *self == *other
    }
}

impl Content for u32 {
    open spec fn alike(a: u32, b: u32) -> bool {
        a == b
    }

    proof fn alike_itself(a: u32) {
    }

    proof fn alike_both_ways(a: u32, b: u32) {
    }

    fn duplicate(&self) -> (copy: Self) {
        *self
    }

    fn same_content(&self, other: &Self) -> (result: bool) {
        *self == *other
    }
}

impl Content for u64 {
    open spec fn alike(a: u64, b: u64) -> bool {
        a == b
    }

    proof fn alike_itself(a: u64) {
    }

    proof fn alike_both_ways(a: u64, b: u64) {
    }

    fn duplicate(&self) -> (copy: Self) {
        *self
    }

    fn same_content(&self, other: &Self) -> (result: bool) {
        *self == *other
    }
}

impl Content for usize {
    open spec fn alike(a: usize, b: usize) -> bool {
        a == b
    }

    proof fn alike_itself(a: usize) {
    }

    proof fn alike_both_ways(a: usize, b: usize) {
    }

    fn duplicate(&self) -> (copy: Self) {
        *self
    }

    fn same_content(&self, other: &Self) -> (result: bool) {
        *self == *other
    }
}

} // verus!
