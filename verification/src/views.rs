//! Ghost helpers that lift views through `Result` and over sequences.

use vstd::prelude::*;

verus! {

/// The view of a result: the views of what it carries.
pub open spec fn res<T: DeepView, E: DeepView>(r: Result<T, E>) -> Result<T::V, E::V> {
    match r {
        Ok(value) => Ok(value.deep_view()),
        Err(error) => Err(error.deep_view()),
    }
}

/// The view of a result that carries bytes or an error text.
pub open spec fn bytes_res(r: Result<Vec<u8>, String>) -> Result<Seq<u8>, Seq<char>> {
    match r {
        Ok(bytes) => Ok(bytes@),
        Err(error) => Err(error@),
    }
}

/// The views of the elements, in order.
pub open spec fn each<T: DeepView>(s: Seq<T>) -> Seq<T::V> {
    Seq::new(s.len(), |i: int| s[i].deep_view())
}

/// What the references point to, in order.
pub open spec fn plain<T>(s: Seq<&T>) -> Seq<T> {
    Seq::new(s.len(), |i: int| *s[i])
}

/// The views of pairs of texts, in order.
pub open spec fn pairs(s: Seq<(&str, &str)>) -> Seq<(Seq<char>, Seq<char>)> {
    Seq::new(s.len(), |i: int| (s[i].0@, s[i].1@))
}

pub broadcast proof fn lemma_each_push<T: DeepView>(s: Seq<T>, x: T)
    ensures
        #[trigger] each(s.push(x)) == each(s).push(x.deep_view()),
{
    assert(each(s.push(x)) =~= each(s).push(x.deep_view()));
}

pub broadcast proof fn lemma_each_empty<T: DeepView>()
    ensures
        #[trigger] each(Seq::<T>::empty()) == Seq::<T::V>::empty(),
{
    assert(each(Seq::<T>::empty()) =~= Seq::<T::V>::empty());
}

pub broadcast proof fn lemma_deep_view_is_each<T: DeepView>(v: Vec<T>)
    ensures
        #[trigger] v.deep_view() == each(v@),
{
    assert(v.deep_view() =~= each(v@));
}

pub broadcast proof fn lemma_plain_push<T>(s: Seq<&T>, x: &T)
    ensures
        #[trigger] plain(s.push(x)) == plain(s).push(*x),
{
    assert(plain(s.push(x)) =~= plain(s).push(*x));
}

pub broadcast group group_views {
    lemma_plain_push,
    lemma_each_push,
    lemma_each_empty,
    lemma_deep_view_is_each,
}

} // verus!
