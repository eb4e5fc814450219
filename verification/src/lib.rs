//! Mutation of several values that happens for all of them or for none.
//!
//! A `OneMut` protects one `T` behind an exclusive reference. A function
//! is staged on it with `prepare()`, several staged functions are chained
//! with `Prepared::chain`, and `apply()` commits: every function runs on a
//! copy of its `T`, in order, and only where all succeeded the originals
//! are replaced. A `Token` is what is left of a `T` that was not written
//! to, a `ConsumedToken` of one that was resolved.
//!
//! How the contracts speak:
//!
//! - the view of a `OneMut` is what its `T` holds now, and
//!   `*final(one_mut.target())` is what `T` holds once the `OneMut` is
//!   gone;
//! - the view of a token is the value of the `T` that it stands for;
//! - `commits`, in `prepared`, says what a commit may end in, and the
//!   lemmas beside it say so of one `T` and of two;
//! - a staged function is known by what it requires and ensures of the
//!   reference that it is handed.

use vstd::prelude::*;

pub mod access;
pub mod chain;
pub mod prepared;
pub mod split;
pub mod token;

pub use crate::access::{target, Take, TakeOwned};
pub use crate::chain::Chain;
pub use crate::prepared::Prepared;
pub use crate::token::{ConsumedToken, Token, UpgraderToken};

verus! {

/// Controls mutation access into `T`, allowing at most one scoped mut
/// access by using a `Token`.
///
/// The mutation is allowed in a particular scope, which gets lazily
/// executed in a copy of `T`. If no errors occurred, the copy then gets
/// placed into the original `T`.
///
/// The mutation's scope exists on `prepare()`.
/// The lazy appliance exists on a `Prepared::apply()`.
///
/// - If the appliance is successful, the `Token` gets consumed and
///   doesn't allow further mut accesses. The `ConsumedToken` can prove
///   that `T` got linearly accessed, ie. that it got changed exactly
///   once, even if such "change" was an intentional `skip()`.
/// - If the appliance fails, `T` never gets changed and only the `Token`
///   is returned. This means that further accesses are disallowed and
///   the `Token` can prove that `T` stayed unchanged.
///
/// The view of a `OneMut` is the value that `T` holds now.
#[must_use]
pub struct OneMut<'t, T> {
    inner: &'t mut T,
    token: Token<'t, T>,
}

/// The function that `skip()` stages: it leaves `T` as it is and returns
/// `Ok(())`.
pub struct Skip;

impl<'t, T> View for OneMut<'t, T> {
    type V = T;

    closed spec fn view(&self) -> T {
        *self.inner
    }
}

/// Allows shared access into the protected `T`.
impl<'t, T> AsRef<T> for OneMut<'t, T> {
    fn as_ref(&self) -> (value: &T)
        ensures
            *value == self@,
    {
        &*self.inner
    }
}

impl<'t, T> OneMut<'t, T> {
    /// The token is that of a `T` that holds what `T` holds now.
    #[verifier::type_invariant]
    spec fn token_is_current(self) -> bool {
        self.token@ == *self.inner
    }

    /// The reference to the protected `T`. Contracts name it to say what
    /// `T` ends with, which is `*final(..)` of it.
    pub closed spec fn target(self) -> &'t mut T {
        self.inner
    }

    /// `T` ends with `next`: that is what `write` ensures, which writes
    /// `next` into it.
    pub open spec fn ends_with(self, next: T) -> bool {
        exists|consumed: ConsumedToken<'t, T>|
            call_ensures(OneMut::<T>::write, (self, next), consumed)
    }

    /// `T` ends with the value that it holds now: that is what
    /// `unchecked_token` ensures, which gives `T` up as it is.
    pub open spec fn ends_unchanged(self) -> bool {
        exists|token: Token<'t, T>| call_ensures(OneMut::<T>::unchecked_token, (self,), token)
    }

    /// `T` is resolved once: whatever it is said to end with is one and
    /// the same value, and is the value that it holds now where `T` is
    /// also said to end unchanged.
    pub proof fn lemma_resolved_once(self, next1: T, next2: T)
        requires
            self.ends_with(next1),
            self.ends_with(next2) || (self.ends_unchanged() && next2 == self@),
        ensures
            next1 == next2,
            *final(self.target()) == next1,
    {
    }

    /// Protects the `T` behind `inner`, which holds its value until this
    /// `OneMut` is resolved.
    pub fn new(inner: &'t mut T) -> (one_mut: Self)
        ensures
            one_mut@ == *old(inner),
            *final(one_mut.target()) == *final(inner),
    {
        let (token, inner) = Token::new(inner);
        Self { inner, token }
    }

    /// Defines how `T` should be mutated, given an `Ok` response.
    ///
    /// The definition is stored to be lazily applied, for when the
    /// `Prepared` value gets an `apply()`.
    ///
    /// _A priori_, all mutations are applied into a copy of `T`.
    /// - `Err` signals for the (potentially changed) copy of `T` to be
    ///   discarded, and for the original `T` to be kept intact.
    /// - `Ok` signals for the (potentially changed) copy of `T` to be
    ///   replaced into the original `T`, while the old value of the
    ///   original `T` is discarded.
    ///
    /// The last clause says what `stages` is of this `f`. It is stated
    /// here because the verifier does not look the implementation of
    /// `PartialApply` up for a closure whose type it knows.
    pub fn prepare<F, O, E>(self, f: F) -> (prepared: Prepared<OneMut<'t, T>, T, F, E>) where
        T: Clone,
        F: FnOnce(&mut T) -> Result<O, E>,

        ensures
            prepared.protected() == self,
            prepared.function() == f,
            stages::<OneMut<'t, T>, T, F, O, E>(f),
    {
        self.unchecked_prepare(f)
    }

    /// Defines how `T` should be mutated, given an `Ok` response: stages
    /// `f`, as `prepare()` does.
    pub fn unchecked_prepare<F, O, E>(self, f: F) -> (prepared: Prepared<OneMut<'t, T>, T, F, E>)
        where
        T: Clone,
        F: FnOnce(&mut T) -> Result<O, E>,

        ensures
            prepared.protected() == self,
            prepared.function() == f,
            stages::<OneMut<'t, T>, T, F, O, E>(f),
    {
        Prepared::new(self, f)
    }

    /// Skips changing `T`, by staging the function that leaves it as it
    /// is.
    ///
    /// This may be useful for easily chaining `Prepared` values.
    pub fn skip<E>(self) -> (prepared: Prepared<OneMut<'t, T>, T, Skip, E>)
        ensures
            prepared.protected() == self,
    {
        self.unchecked_skip()
    }

    /// Skips changing `T`, by staging the function that leaves it as it
    /// is.
    ///
    /// This may be useful for easily chaining `Prepared` values.
    pub fn unchecked_skip<E>(self) -> (prepared: Prepared<OneMut<'t, T>, T, Skip, E>)
        ensures
            prepared.protected() == self,
    {
        Prepared::new(self, Skip)
    }

    /// Consumes the token without changing `T`.
    pub fn consume(self) -> (consumed: ConsumedToken<'t, T>)
        ensures
            consumed@ == self@,
            self.ends_unchanged(),
            *final(self.target()) == self@,
    {
        self.unchecked_consume()
    }

    /// Consumes the token without changing `T`.
    pub fn unchecked_consume(self) -> (consumed: ConsumedToken<'t, T>)
        ensures
            consumed@ == self@,
            self.ends_unchanged(),
            *final(self.target()) == self@,
    {
        let token = self.unchecked_token();
        token.consume()
    }

    /// Consumes the container `&'t mut T` to create an item `OneMut<L>`,
    /// while storing the container's token into `UpgraderToken`. The
    /// item `L` may later be modified, and the item's consumed token may
    /// be upgraded into a container's consumed token.
    ///
    /// `f1` takes the item out of the container. This function hands to
    /// `f1` the reference to the container and protects what `f1`
    /// returns: what `f1` ensures of the two references holds of the
    /// container and of the item that is returned.
    pub fn downgrade<'l, F1, L>(self, f1: F1) -> (parts: (UpgraderToken<'t, 'l, T, L>, OneMut<'l, L>))
        where
        F1: FnOnce(&'t mut T) -> &'l mut L,

        requires
            forall|container: &mut T| *container == self@ ==> call_requires(f1, (container,)),
        ensures
            parts.0@ == self@,
            exists|container: &mut T, item: &mut L|
                #![trigger call_ensures(f1, (container,), item)]
                *container == self@ && *final(container) == *final(self.target())
                    && call_ensures(f1, (container,), item) && *item == parts.1@
                    && *final(item) == *final(parts.1.target()),
    {
        proof {
            use_type_invariant(&self);
        }
        let OneMut { inner, token } = self;
        let l = OneMut::new(f1(inner));
        let u = UpgraderToken::new(token, &l);
        (u, l)
    }

    /// Gives the token out without changing `T`.
    pub fn token(self) -> (token: Token<'t, T>)
        ensures
            token@ == self@,
            self.ends_unchanged(),
            *final(self.target()) == self@,
    {
        self.unchecked_token()
    }

    /// Gives the token out without changing `T`.
    pub fn unchecked_token(self) -> (token: Token<'t, T>)
        ensures
            token@ == self@,
            *final(self.target()) == self@,
    {
        proof {
            use_type_invariant(&self);
        }
        self.token
    }

    /// Writes `next` into `T` and consumes the token: `T` is resolved
    /// with `next`.
    pub fn write(self, next: T) -> (consumed: ConsumedToken<'t, T>)
        ensures
            consumed@ == next,
            *final(self.target()) == next,
    {
        let OneMut { inner, token } = self;
        *inner = next;
        token.resolved_with(Ghost(next))
    }
}

/// Runs `f` on the copy `next`, in place, and hands the copy back with
/// what `f` returned, or the error alone.
pub fn plan<T, F, O, E>(next: T, f: F) -> (planned: Result<(O, T), E>) where
    F: FnOnce(&mut T) -> Result<O, E>,

    requires
        runs_on(next, f),
    ensures
        (match planned {
            Ok((o, modified)) => exists|copy: &mut T|
                *copy == next && *final(copy) == modified && call_ensures(f, (copy,), Ok::<O, E>(o)),
            Err(e) => exists|copy: &mut T| *copy == next && call_ensures(f, (copy,), Err::<O, E>(e)),
        }),
{
    let mut next = next;
    match f(&mut next) {
        Ok(o) => Ok((o, next)),
        Err(e) => Err(e),
    }
}

/// `f` may run on `next`: its precondition holds of every reference to a
/// `T` that holds `next`.
pub open spec fn runs_on<T, F, O, E>(next: T, f: F) -> bool where F: FnOnce(&mut T) -> Result<O, E> {
    forall|copy: &mut T| *copy == next ==> call_requires(f, (copy,))
}

/// Running `f` on `next` may end in `planned`: that is what `plan`
/// ensures of what it returns.
pub open spec fn ends_in<T, F, O, E>(next: T, f: F, planned: Result<(O, T), E>) -> bool where
    F: FnOnce(&mut T) -> Result<O, E>,
 {
    call_ensures(plan::<T, F, O, E>, (next, f), planned)
}

/// `A` accepts and plans the function `f` as `f` itself requires and
/// ensures.
pub open spec fn stages<'t, A, T, F, O, E>(f: F) -> bool where
    A: PartialApply<'t, T, F, O, E>,
    F: FnOnce(&mut T) -> Result<O, E>,
 {
    &&& forall|next: T| #[trigger] A::accepts(next, f) <==> runs_on(next, f)
    &&& forall|next: T, planned: Result<(O, T), E>| #[trigger]
        A::plans(next, f, planned) <==> ends_in(next, f, planned)
}

/// Extends `Result` relating `Ok` with `ConsumedToken`s and `Err` with
/// `Token`s.
///
/// - The `Ok` case enforces that _all_ `Token`s were consumed exactly
///   once (either by a mut access or by an intentional skipping of
///   such),
/// - And the `Err` case enforces that _none_ of the `Tokens` were
///   consumed, ie. no mut access occurred.
pub type AllOrNone<'tokens, T, E, Tokens> = Result<
    (T, ConsumedToken<'tokens, Tokens>),
    (E, Token<'tokens, Tokens>),
>;

/// Names the two types of a `Result`.
pub trait ResultLike {
    type Ok;

    type Err;
}

impl<T, E> ResultLike for Result<T, E> {
    type Ok = T;

    type Err = E;
}

/// What protects a `T`: a `OneMut`, or a `Chain` of two of these, which
/// protects a pair.
pub trait Handle<'t, T>: Sized {
    /// The value that the protected `T` holds now.
    spec fn value(&self) -> T;

    /// `copy` may be the copy that is made of a `T` that holds `original`.
    spec fn copies(original: T, copy: T) -> bool;

    /// The protected `T` ends with `next`.
    spec fn replaced(self, next: T) -> bool;

    /// The protected `T` ends with the value that it holds now.
    spec fn untouched(self) -> bool;

    /// Gives the original `T` up as it is.
    fn release(self) -> (token: Token<'t, T>)
        ensures
            self.untouched(),
            token@ == self.value(),
    ;
}

/// Trait types:
///
/// - `T` is the protected type.
/// - `F` is the scoped function that will mut access `T`.
/// - `O` is `F`'s `Ok` return type.
/// - `E` is `F`'s `Err` return type.
pub trait PartialApply<'t, T, F, O, E>: Handle<'t, T> {
    /// `f` may be run on the copy `next`.
    spec fn accepts(next: T, f: F) -> bool;

    /// Running `f` on the copy `next` may end in `planned`.
    spec fn plans(next: T, f: F, planned: Result<(O, T), E>) -> bool;

    /// Creates a copy of `T`.
    fn get_next(&self) -> (next: T)
        ensures
            Self::copies(self.value(), next),
    ;

    /// Applies a modification into a `T` (presumably the copy of `T`).
    fn modify_next(next: T, f: F) -> (planned: Result<(O, T), E>)
        requires
            Self::accepts(next, f),
        ensures
            Self::plans(next, f, planned),
    ;

    /// Replaces the original `T` with the modified copy of `T`.
    fn replace(self, next: T) -> (consumed: ConsumedToken<'t, T>)
        ensures
            self.replaced(next),
            consumed@ == next,
    ;
}

/// `apply()` guarantees that either:
///
/// - The original `T` is completely untouched and an `Err` is returned;
/// - The original `T` is completely updated, and an `Ok` is returned.
///
/// That is to say that once any change starts to happen in the original
/// `T`, no failure going forward, into the end of `apply()`, is allowed.
///
/// Trait types:
///
/// - `T` is the protected type.
/// - `F` is the scoped function that will mut access `T`.
/// - `O` is `F`'s `Ok` return type.
/// - `E` is `F`'s `Err` return type.
pub trait Apply<'t, T, F, O, E>: Sized {
    /// The staged function may run on every copy that can be made of
    /// what `T` holds now.
    spec fn ready(self) -> bool;

    /// Applying this value may end in `outcome`.
    spec fn applies(self, outcome: AllOrNone<'t, O, E, T>) -> bool;

    /// Copies `T`, modifies it, and then replaces it into the original
    /// `T`.
    ///
    /// - `Ok` implies the original `T` got completely modified (ie. no
    ///   incomplete modifications occurred),
    /// - `Err` implies the original `T` is untouched.
    fn apply(self) -> (outcome: AllOrNone<'t, O, E, T>)
        requires
            self.ready(),
        ensures
            self.applies(outcome),
    ;
}

impl<'t, T: Clone> Handle<'t, T> for OneMut<'t, T> {
    open spec fn value(&self) -> T {
        self@
    }

    open spec fn copies(original: T, copy: T) -> bool {
        cloned::<T>(original, copy)
    }

    open spec fn replaced(self, next: T) -> bool {
        self.ends_with(next)
    }

    open spec fn untouched(self) -> bool {
        self.ends_unchanged()
    }

    fn release(self) -> (token: Token<'t, T>) {
        self.unchecked_token()
    }
}

impl<'t, T: Clone, F, O, E> PartialApply<'t, T, F, O, E> for OneMut<'t, T> where
    F: FnOnce(&mut T) -> Result<O, E>,
 {
    open spec fn accepts(next: T, f: F) -> bool {
        runs_on(next, f)
    }

    open spec fn plans(next: T, f: F, planned: Result<(O, T), E>) -> bool {
        ends_in(next, f, planned)
    }

    fn get_next(&self) -> (next: T) {
        self.as_ref().clone()
    }

    fn modify_next(next: T, f: F) -> (planned: Result<(O, T), E>) {
        plan(next, f)
    }

    fn replace(self, next: T) -> (consumed: ConsumedToken<'t, T>) {
        self.write(next)
    }
}

impl<'t, T: Clone, E> PartialApply<'t, T, Skip, (), E> for OneMut<'t, T> {
    open spec fn accepts(next: T, f: Skip) -> bool {
        true
    }

    open spec fn plans(next: T, f: Skip, planned: Result<((), T), E>) -> bool {
        planned == Ok::<((), T), E>(((), next))
    }

    fn get_next(&self) -> (next: T) {
        self.as_ref().clone()
    }

    fn modify_next(next: T, f: Skip) -> (planned: Result<((), T), E>) {
        Ok(((), next))
    }

    fn replace(self, next: T) -> (consumed: ConsumedToken<'t, T>) {
        self.write(next)
    }
}

impl<'t, T> TakeOwned<Token<'t, T>, target::Token> for OneMut<'t, T> {
    open spec fn gives(self, field: Token<'t, T>) -> bool {
        field@ == self@ && self.ends_unchanged()
    }

    fn take_owned(self) -> (field: Token<'t, T>) {
        self.unchecked_token()
    }
}

} // verus!
