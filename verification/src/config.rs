//! Normalizing an optional one-or-many configuration value into a plain
//! list.

use vstd::prelude::*;

verus! {

/// One value, or a list of values.
#[derive(Debug, PartialEq, Eq)]
pub enum SingleOrList<T> {
    Single(T),
    List(Vec<T>),
}

/// An optional one-or-many value, as a configuration file writes it.
#[derive(Debug, PartialEq, Eq)]
pub struct OptSingleOrList<T>(pub Option<SingleOrList<T>>);

/// The normalized form: always a list.
#[derive(Debug, PartialEq, Eq)]
pub struct NormalizedList<T> {
    pub inner: Vec<T>,
}

impl<T> OptSingleOrList<T> {
    /// Normalizes: nothing becomes the empty list, one value a singleton,
    /// a list itself.
    pub fn to_normalized_list(self) -> (r: NormalizedList<T>)
        ensures
            r.inner@ == (match self.0 {
                Option::None => Seq::<T>::empty(),
                Option::Some(SingleOrList::Single(v)) => seq![v],
                Option::Some(SingleOrList::List(l)) => l@,
            }),
    {
        match self.0 {
            None => NormalizedList { inner: Vec::new() },
            Some(SingleOrList::Single(v)) => {
                let mut inner: Vec<T> = Vec::new();
                inner.push(v);
                proof {
                    assert(inner@ =~= seq![inner@[0]]);
                }
                NormalizedList { inner }
            },
            Some(SingleOrList::List(l)) => NormalizedList { inner: l },
        }
    }
}

impl<T> NormalizedList<T> {
    /// Wraps a list as already normalized.
    pub fn from(list: Vec<T>) -> (r: Self)
        ensures
            r.inner@ == list@,
    {
        NormalizedList { inner: list }
    }

    /// Wraps one value as a normalized singleton list.
    pub fn from_single(val: T) -> (r: Self)
        ensures
            r.inner@ =~= seq![val],
    {
        let mut inner: Vec<T> = Vec::new();
        inner.push(val);
        NormalizedList { inner }
    }
}

} // verus!
