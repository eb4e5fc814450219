use crate::token::Token;
use std::marker::PhantomData;
use vstd::prelude::*;

verus! {

/// Splits a tag of several values into the tags of each of them.
pub trait Split<Lifetimes>: Sized {
    type Return;

    /// `parts` may be what splitting this tag gives.
    spec fn splits(self, parts: Self::Return) -> bool;

    /// Splits the tag, which is the inverse of joining its parts.
    fn split(self) -> (parts: Self::Return)
        ensures
            self.splits(parts),
    ;
}

/// The two lifetimes of the tokens that the token of a pair splits into.
pub struct Lifetimes2<'t2, 't1>(PhantomData<(&'t2 (), &'t1 ())>);

impl<'tall, 't2, 't1, T2, T1> Split<Lifetimes2<'t2, 't1>> for Token<'tall, (T2, T1)> where
    'tall: 't1 + 't2,
 {
    type Return = (Token<'t2, T2>, Token<'t1, T1>);

    open spec fn splits(self, parts: (Token<'t2, T2>, Token<'t1, T1>)) -> bool {
        parts.0@ == self@.0 && parts.1@ == self@.1
    }

    fn split(self) -> (parts: (Token<'t2, T2>, Token<'t1, T1>)) {
        self.split_pair()
    }
}

} // verus!
