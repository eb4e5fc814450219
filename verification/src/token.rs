use crate::OneMut;
use std::marker::PhantomData;
use vstd::prelude::*;

verus! {

/// A tag value that can be moved or consumed, and indicates that
/// modifications into `T` can happen only in a single scope.
///
/// While the tag lives, `T` has not been written to. The tag keeps, as
/// ghost bookkeeping, the value that `T` still holds: that value is the
/// tag's view. No tag can be copied, and none is made but by `OneMut`.
///
/// See also `OneMut`.
#[must_use]
pub struct Token<'t, T> {
    untouched: Ghost<T>,
    marker: PhantomData<&'t T>,
}

/// A tag value that can be moved, and indicates that `T` will no longer
/// be able to be modified.
///
/// The tag keeps, as ghost bookkeeping, the value that was recorded when
/// `T` was resolved, which is the tag's view: the value written into `T`,
/// or held by `T`; for a container of an item, as `UpgraderToken` says.
pub struct ConsumedToken<'t, T> {
    resolved: Ghost<T>,
    marker: PhantomData<&'t T>,
}

/// A tag value related to containers.
///
/// This indicates that the container had some accessed item, and
/// depending on whether this item was modified or not, this tag can be
/// moved, consumed or be restored back into a `Token`.
///
/// Its view is the value that the container held when the item was
/// taken out of it.
#[must_use]
pub struct UpgraderToken<'u, 'l, U, L> {
    upper: Token<'u, U>,
    lower: PhantomData<&'l L>,
}

impl<'t, T> View for Token<'t, T> {
    type V = T;

    closed spec fn view(&self) -> T {
        self.untouched@
    }
}

impl<'t, T> View for ConsumedToken<'t, T> {
    type V = T;

    closed spec fn view(&self) -> T {
        self.resolved@
    }
}

impl<'u, 'l, U, L> View for UpgraderToken<'u, 'l, U, L> {
    type V = U;

    closed spec fn view(&self) -> U {
        self.upper@
    }
}

impl<'u, 'l, U, L> UpgraderToken<'u, 'l, U, L> {
    /// Keeps the container's token while `_lower` protects one of the
    /// container's items.
    pub fn new(upper: Token<'u, U>, _lower: &OneMut<'l, L>) -> (upgrader: Self)
        ensures
            upgrader@ == upper@,
    {
        Self { upper, lower: PhantomData }
    }

    /// Consumes the container's token, now that the item was resolved:
    /// the tag that is returned records what the container held when the
    /// item was taken out. What the container holds after the item was
    /// written to is known from the function that took the item out, as
    /// `OneMut::downgrade` ensures, not from this tag.
    pub fn consume(self, _lower: ConsumedToken<'l, L>) -> (consumed: ConsumedToken<'u, U>)
        ensures
            consumed@ == self@,
    {
        self.upper.consume()
    }

    /// Restores the container's token, given what turns into the token of
    /// the item: neither was written to.
    pub fn returned(self, _lower: impl Into<Token<'l, L>>) -> (upper: Token<'u, U>) where L: 'l
        ensures
            upper@ == self@,
    {
        self.upper
    }

    /// Discards an unconsumed lower token, and extracts the upper one.
    pub fn discard_lower(self, _lower: Token<'l, L>) -> (upper: Token<'u, U>)
        ensures
            upper@ == self@,
    {
        self.upper
    }
}

impl<'t, T> Token<'t, T> {
    /// Mints the token of the `T` behind `t`, and hands `t` back.
    pub(crate) fn new(t: &'t mut T) -> (minted: (Self, &'t mut T))
        ensures
            minted.0@ == *old(t),
            *minted.1 == *old(t),
            *final(minted.1) == *final(t),
    {
        (Token { untouched: Ghost(*t), marker: PhantomData }, t)
    }

    /// Concatenates this token with another one, as `join` does.
    pub fn then<'t2, 'tboth, T2>(self, token2: Token<'t2, T2>) -> (both: Token<'tboth, (T, T2)>)
        ensures
            both@ == (self@, token2@),
    {
        self.join(token2)
    }

    /// Joins this token with another one into the token of the pair.
    pub fn join<'t2, 'tboth, T2>(self, token2: Token<'t2, T2>) -> (both: Token<
        'tboth,
        (T, T2),
    >)
        ensures
            both@ == (self@, token2@),
    {
        Token { untouched: Ghost((self@, token2@)), marker: PhantomData }
    }

    /// Consumes the token: `T` is resolved with the value it holds.
    pub fn consume(self) -> (consumed: ConsumedToken<'t, T>)
        ensures
            consumed@ == self@,
    {
        self.resolved_with(Ghost(self@))
    }

    /// Consumes the token of a `T` that was resolved with `next`.
    pub(crate) fn resolved_with(self, Ghost(next): Ghost<T>) -> (consumed: ConsumedToken<'t, T>)
        ensures
            consumed@ == next,
    {
        ConsumedToken { resolved: Ghost(next), marker: PhantomData }
    }
}

impl<'t1, 't2, 'tboth, T1, T2> Token<'tboth, (T1, T2)> where 'tboth: 't1 + 't2 {
    /// Splits the token of a pair into the tokens of its two parts.
    pub(crate) fn split_pair(self) -> (parts: (Token<'t1, T1>, Token<'t2, T2>))
        ensures
            parts.0@ == self@.0,
            parts.1@ == self@.1,
    {
        (
            Token { untouched: Ghost(self@.0), marker: PhantomData },
            Token { untouched: Ghost(self@.1), marker: PhantomData },
        )
    }
}

impl<'t, T> ConsumedToken<'t, T> {
    /// Concatenates with another consumed token, as `join` does.
    pub fn then<'t2, 'tboth, T2>(self, token2: ConsumedToken<'t2, T2>) -> (both: ConsumedToken<
        'tboth,
        (T, T2),
    >)
        ensures
            both@ == (self@, token2@),
    {
        self.join(token2)
    }

    /// Joins this consumed token with another one into that of the pair.
    pub fn join<'t2, 'tboth, T2>(self, token2: ConsumedToken<'t2, T2>) -> (both:
        ConsumedToken<'tboth, (T, T2)>)
        ensures
            both@ == (self@, token2@),
    {
        ConsumedToken { resolved: Ghost((self@, token2@)), marker: PhantomData }
    }
}

impl<'t1, 't2, 'tboth, T1, T2> ConsumedToken<'tboth, (T1, T2)> where 'tboth: 't1 + 't2 {
    /// Splits the consumed token of a pair into those of its two parts.
    pub fn split2(self) -> (parts: (ConsumedToken<'t1, T1>, ConsumedToken<'t2, T2>))
        ensures
            parts.0@ == self@.0,
            parts.1@ == self@.1,
    {
        (
            ConsumedToken { resolved: Ghost(self@.0), marker: PhantomData },
            ConsumedToken { resolved: Ghost(self@.1), marker: PhantomData },
        )
    }
}

/// Consumes a Token.
impl<'t, T> From<Token<'t, T>> for ConsumedToken<'t, T> {
    fn from(token: Token<'t, T>) -> (consumed: Self) {
        token.consume()
    }
}

impl<'t, T> vstd::std_specs::convert::FromSpecImpl<Token<'t, T>> for ConsumedToken<'t, T> {
    open spec fn obeys_from_spec() -> bool {
        true
    }

    open spec fn from_spec(token: Token<'t, T>) -> Self {
        consumed_holding(token@)
    }
}

/// The consumed token whose view is `value`.
pub closed spec fn consumed_holding<'t, T>(value: T) -> ConsumedToken<'t, T> {
    ConsumedToken { resolved: Ghost(value), marker: PhantomData }
}

/// `consumed_holding(value)` is the consumed token whose view is `value`.
pub proof fn lemma_consumed_holding<'t, T>(value: T)
    ensures
        consumed_holding::<T>(value)@ == value,
{
}

/// A conversion that lets go of what protects a `T`, or that leaves a tag
/// as it is.
pub trait UncheckedFrom<T>: Sized {
    /// `from` may convert into `into`.
    spec fn converts(from: T, into: Self) -> bool;

    /// Performs the conversion.
    fn unchecked_from(from: T) -> (into: Self)
        ensures
            Self::converts(from, into),
    ;
}

impl<'t, T> UncheckedFrom<OneMut<'t, T>> for Token<'t, T> {
    open spec fn converts(from: OneMut<'t, T>, into: Self) -> bool {
        into@ == from@ && from.ends_unchanged()
    }

    fn unchecked_from(from: OneMut<'t, T>) -> (into: Self) {
        from.unchecked_token()
    }
}

impl<'t, T> UncheckedFrom<Token<'t, T>> for Token<'t, T> {
    open spec fn converts(from: Token<'t, T>, into: Self) -> bool {
        into == from
    }

    fn unchecked_from(from: Token<'t, T>) -> (into: Self) {
        from
    }
}

impl<'t, T> UncheckedFrom<OneMut<'t, T>> for ConsumedToken<'t, T> {
    open spec fn converts(from: OneMut<'t, T>, into: Self) -> bool {
        into@ == from@ && from.ends_unchanged()
    }

    fn unchecked_from(from: OneMut<'t, T>) -> (into: Self) {
        from.unchecked_consume()
    }
}

impl<'t, T> UncheckedFrom<ConsumedToken<'t, T>> for ConsumedToken<'t, T> {
    open spec fn converts(from: ConsumedToken<'t, T>, into: Self) -> bool {
        into == from
    }

    fn unchecked_from(from: ConsumedToken<'t, T>) -> (into: Self) {
        from
    }
}

/// Two tokens of one type are the same token where their views are the
/// same value: a token holds nothing else.
pub proof fn lemma_token_is_its_view<'t, T>(token1: Token<'t, T>, token2: Token<'t, T>)
    ensures
        token1 == token2 <==> token1@ == token2@,
{
}

/// Two consumed tokens of one type are the same where their views are the
/// same value.
pub proof fn lemma_consumed_token_is_its_view<'t, T>(
    consumed1: ConsumedToken<'t, T>,
    consumed2: ConsumedToken<'t, T>,
)
    ensures
        consumed1 == consumed2 <==> consumed1@ == consumed2@,
{
}

/// Splitting undoes joining: where `both` is what joining `token1` and
/// `token2` gives, and `parts` is what splitting `both` gives, `parts` are
/// `token1` and `token2` again.
pub proof fn lemma_split_undoes_join<'t1, 't2, 'tboth, T1, T2>(
    token1: Token<'t1, T1>,
    token2: Token<'t2, T2>,
    both: Token<'tboth, (T1, T2)>,
    parts: (Token<'t1, T1>, Token<'t2, T2>),
)
    requires
        both@ == (token1@, token2@),
        parts.0@ == both@.0 && parts.1@ == both@.1,
    ensures
        parts == (token1, token2),
{
}

/// Joining undoes splitting: where `parts` is what splitting `both`
/// gives, and `again` is what joining the two parts gives, `again` is
/// `both`.
pub proof fn lemma_join_undoes_split<'t1, 't2, 'tboth, T1, T2>(
    both: Token<'tboth, (T1, T2)>,
    parts: (Token<'t1, T1>, Token<'t2, T2>),
    again: Token<'tboth, (T1, T2)>,
)
    requires
        parts.0@ == both@.0 && parts.1@ == both@.1,
        again@ == (parts.0@, parts.1@),
    ensures
        again == both,
{
}

/// For consumed tokens, too, splitting undoes joining.
pub proof fn lemma_split2_undoes_join<'t1, 't2, 'tboth, T1, T2>(
    consumed1: ConsumedToken<'t1, T1>,
    consumed2: ConsumedToken<'t2, T2>,
    both: ConsumedToken<'tboth, (T1, T2)>,
    parts: (ConsumedToken<'t1, T1>, ConsumedToken<'t2, T2>),
)
    requires
        both@ == (consumed1@, consumed2@),
        parts.0@ == both@.0 && parts.1@ == both@.1,
    ensures
        parts == (consumed1, consumed2),
{
}

} // verus!
