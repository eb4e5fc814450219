use crate::access::{target, Take, TakeOwned};
use crate::chain::{chain_of, chains, Chain};
use crate::token::Token;
use crate::{AllOrNone, Apply, Handle, OneMut, PartialApply, Skip};
use std::marker::PhantomData;
use vstd::prelude::*;

verus! {

/// What protects a `T`, together with the function that is to modify `T`.
/// The function has not run yet: it runs on a copy of `T` when this value
/// is applied.
#[must_use]
pub struct Prepared<A, T, F, E> {
    inner: A,
    f: F,
    marker: PhantomData<(T, E)>,
}

impl<A, T, F, E> Prepared<A, T, F, E> {
    /// What protects `T`.
    pub closed spec fn protected(self) -> A {
        self.inner
    }

    /// The function that is to modify `T`.
    pub closed spec fn function(self) -> F {
        self.f
    }

    /// Stages `f` on what `inner` protects.
    pub fn new(inner: A, f: F) -> (prepared: Self)
        ensures
            prepared.protected() == inner,
            prepared.function() == f,
    {
        Self { inner, f, marker: PhantomData }
    }

    /// Puts this value and `other` into one that applies both or
    /// neither. This value's function runs first.
    ///
    /// The last clause says how the chain accepts and plans the pair of
    /// the two functions. It is stated here because the verifier does not
    /// look the implementation of `PartialApply` up for a closure whose
    /// type it knows.
    pub fn chain<'t1, 't2, A2, T2, F2, O, O2>(self, other: Prepared<A2, T2, F2, E>) -> (both:
        Prepared<Chain<A, A2>, (T, T2), (F, F2), E>) where
        A: PartialApply<'t1, T, F, O, E>,
        A2: PartialApply<'t2, T2, F2, O2, E>,
        T: 't1,
        T2: 't2,

        ensures
            both.protected() == chain_of(self.protected(), other.protected()),
            both.function() == (self.function(), other.function()),
            chains::<A, A2, T, T2, F, F2, O, O2, E>(both.function()),
    {
        Prepared::new(Chain::new(self.inner, other.inner), (self.f, other.f))
    }

    /// Copies `T`, modifies the copy, and then replaces the original `T`
    /// with it: all or none.
    ///
    /// - `Ok` implies the original `T` got completely modified (ie. no
    ///   incomplete modifications occurred),
    /// - `Err` implies the original `T` is untouched.
    pub fn apply<'t, O>(self) -> (outcome: AllOrNone<'t, O, E, T>) where
        A: PartialApply<'t, T, F, O, E>,

        requires
            runs_on_copies(self.protected(), self.function()),
        ensures
            commits(self.protected(), self.function(), outcome),
    {
        let copy = self.inner.get_next();
        match A::modify_next(copy, self.f) {
            Ok((o, next)) => {
                let consumed = self.inner.replace(next);
                Ok((o, consumed))
            },
            Err(e) => {
                let token = self.inner.release();
                Err((e, token))
            },
        }
    }

    /// Gives the function up, and hands back the token of a `T` that was
    /// not written to.
    pub fn unchecked_cancel<'t>(self) -> (token: Token<'t, T>) where A: Handle<'t, T>
        ensures
            self.protected().untouched(),
            token@ == self.protected().value(),
    {
        self.inner.release()
    }
}

impl<A, T, F, E> Take<F, target::Function> for Prepared<A, T, F, E> {
    open spec fn held(&self) -> F {
        self.function()
    }

    fn take_ref(&self) -> (field: &F) {
        &self.f
    }

    fn take_mut(&mut self) -> (field: &mut F)
        ensures
            final(self).protected() == old(self).protected(),
    {
        &mut self.f
    }
}

impl<A, T, F, E> TakeOwned<F, target::Function> for Prepared<A, T, F, E> {
    open spec fn gives(self, field: F) -> bool {
        field == self.function()
    }

    fn take_owned(self) -> (field: F) {
        self.f
    }
}

impl<'t, A, T, F, E> TakeOwned<Token<'t, T>, target::Token> for Prepared<A, T, F, E> where
    A: Handle<'t, T>,
 {
    open spec fn gives(self, field: Token<'t, T>) -> bool {
        field@ == self.protected().value() && self.protected().untouched()
    }

    fn take_owned(self) -> (field: Token<'t, T>) {
        self.unchecked_cancel()
    }
}

/// `f` may run on every copy that can be made of what `protected` holds
/// now.
pub open spec fn runs_on_copies<'t, A, T, F, O, E>(protected: A, f: F) -> bool where
    A: PartialApply<'t, T, F, O, E>,
 {
    forall|copy: T| #[trigger] A::copies(protected.value(), copy) ==> A::accepts(copy, f)
}

/// Running `f` on a copy of what `protected` holds now may end in
/// `planned`.
pub open spec fn plans_on_copy<'t, A, T, F, O, E>(
    protected: A,
    f: F,
    planned: Result<(O, T), E>,
) -> bool where A: PartialApply<'t, T, F, O, E> {
    exists|copy: T| A::copies(protected.value(), copy) && #[trigger] A::plans(copy, f, planned)
}

/// All or none: committing `f` on `protected` may end in `outcome`.
///
/// - With `Ok`, `f` succeeded on a copy, what is protected ends with the
///   copy as `f` left it, and the consumed token holds that value.
/// - With `Err`, `f` failed on a copy with that error, what is protected
///   ends with the value it had, and the token holds that value.
pub open spec fn commits<'t, A, T, F, O, E>(
    protected: A,
    f: F,
    outcome: AllOrNone<'t, O, E, T>,
) -> bool where A: PartialApply<'t, T, F, O, E> {
    match outcome {
        Ok((o, consumed)) => {
            &&& plans_on_copy(protected, f, Ok((o, consumed@)))
            &&& protected.replaced(consumed@)
        },
        Err((e, token)) => {
            &&& plans_on_copy(protected, f, Err::<(O, T), E>(e))
            &&& protected.untouched()
            &&& token@ == protected.value()
        },
    }
}

impl<'t, A, T, F, O, E> Apply<'t, T, F, O, E> for Prepared<A, T, F, E> where
    A: PartialApply<'t, T, F, O, E>,
 {
    open spec fn ready(self) -> bool {
        runs_on_copies(self.protected(), self.function())
    }

    open spec fn applies(self, outcome: AllOrNone<'t, O, E, T>) -> bool {
        commits(self.protected(), self.function(), outcome)
    }

    fn apply(self) -> (outcome: AllOrNone<'t, O, E, T>) {
        Prepared::apply(self)
    }
}

/// All or none, of one `T`: where committing `prepared` may end in
/// `outcome`, with `Ok` the protected `T` ends with the value that the
/// consumed token holds, and with `Err` it ends with the value it had.
pub proof fn lemma_all_or_none<'t, T: Clone, F, O, E>(
    prepared: Prepared<OneMut<'t, T>, T, F, E>,
    outcome: AllOrNone<'t, O, E, T>,
) where OneMut<'t, T>: PartialApply<'t, T, F, O, E>
    requires
        commits(prepared.protected(), prepared.function(), outcome),
    ensures
        (match outcome {
            Ok((_, consumed)) => *final(prepared.protected().target()) == consumed@,
            Err((_, token)) => {
                &&& *final(prepared.protected().target()) == prepared.protected()@
                &&& token@ == prepared.protected()@
            },
        }),
{
}

/// All or none, of two: where committing `prepared` may end in `outcome`,
/// with `Ok` each protected value ends with its part of what the consumed
/// token holds, and with `Err` each ends with the value it had.
pub proof fn lemma_all_or_none_of_two<'t1, 't2, 'tboth, T1: Clone, T2: Clone, F1, F2, O1, O2, E>(
    prepared: Prepared<Chain<OneMut<'t1, T1>, OneMut<'t2, T2>>, (T1, T2), (F1, F2), E>,
    outcome: AllOrNone<'tboth, (O1, O2), E, (T1, T2)>,
) where
    OneMut<'t1, T1>: PartialApply<'t1, T1, F1, O1, E>,
    OneMut<'t2, T2>: PartialApply<'t2, T2, F2, O2, E>,

    requires
        commits(prepared.protected(), prepared.function(), outcome),
    ensures
        (match outcome {
            Ok((_, consumed)) => {
                &&& *final(prepared.protected().a1.target()) == consumed@.0
                &&& *final(prepared.protected().a2.target()) == consumed@.1
            },
            Err((_, token)) => {
                &&& *final(prepared.protected().a1.target()) == prepared.protected().a1@
                &&& *final(prepared.protected().a2.target()) == prepared.protected().a2@
                &&& token@ == (prepared.protected().a1@, prepared.protected().a2@)
            },
        }),
{
}

/// A skip is always applied: it may be applied whatever `T` holds, applying
/// it ends in `Ok`, and `T` ends with a copy of the value it had.
pub proof fn lemma_skip_is_applied<'t, T: Clone, E>(
    prepared: Prepared<OneMut<'t, T>, T, Skip, E>,
    outcome: AllOrNone<'t, (), E, T>,
)
    requires
        commits(prepared.protected(), prepared.function(), outcome),
    ensures
        runs_on_copies::<OneMut<'t, T>, T, Skip, (), E>(prepared.protected(), prepared.function()),
        (match outcome {
            Ok((_, consumed)) => {
                &&& cloned::<T>(prepared.protected()@, consumed@)
                &&& *final(prepared.protected().target()) == consumed@
            },
            Err(_) => false,
        }),
{
}

} // verus!
