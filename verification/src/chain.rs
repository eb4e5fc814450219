use crate::access::{target, TakeOwned};
use crate::prepared::{commits, plans_on_copy, runs_on_copies, Prepared};
use crate::token::{ConsumedToken, Token};
use crate::{AllOrNone, Apply, Handle, PartialApply};
use vstd::prelude::*;

verus! {

/// A pair of protected items that are committed together.
///
/// During a commit, copies of what `A1` and `A2` protect are modified in
/// this order, and only after both modifications succeeded the originals
/// are replaced with the modified copies, in the same order.
pub struct Chain<A1, A2> {
    pub a1: A1,
    pub a2: A2,
}

/// The chain of `a1` and `a2`.
pub open spec fn chain_of<A1, A2>(a1: A1, a2: A2) -> Chain<A1, A2> {
    Chain { a1, a2 }
}

impl<A1, A2> Chain<A1, A2> {
    /// The pair of `a1` and `a2`, in this order.
    pub fn new(a1: A1, a2: A2) -> (chain: Self)
        ensures
            chain == chain_of(a1, a2),
    {
        Self { a1, a2 }
    }

    /// The pair of this pair and `a3`: `a3` comes last.
    pub fn chain<A3>(self, a3: A3) -> (chain: Chain<Chain<A1, A2>, A3>)
        ensures
            chain == chain_of(self, a3),
    {
        Chain::new(self, a3)
    }
}

impl<'t1, 't2, 'tboth, A1, A2, T1, T2> Handle<'tboth, (T1, T2)> for Chain<A1, A2> where
    A1: Handle<'t1, T1>,
    A2: Handle<'t2, T2>,
    T1: 't1,
    T2: 't2,
 {
    open spec fn value(&self) -> (T1, T2) {
        (self.a1.value(), self.a2.value())
    }

    open spec fn copies(original: (T1, T2), copy: (T1, T2)) -> bool {
        A1::copies(original.0, copy.0) && A2::copies(original.1, copy.1)
    }

    open spec fn replaced(self, next: (T1, T2)) -> bool {
        self.a1.replaced(next.0) && self.a2.replaced(next.1)
    }

    open spec fn untouched(self) -> bool {
        self.a1.untouched() && self.a2.untouched()
    }

    fn release(self) -> (token: Token<'tboth, (T1, T2)>) {
        let token1 = self.a1.release();
        let token2 = self.a2.release();
        token1.join(token2)
    }
}

/// Both functions of `f` may run, each on its part of the copy `next`.
pub open spec fn accepts_both<'t1, 't2, A1, A2, T1, T2, F1, F2, O1, O2, E>(
    next: (T1, T2),
    f: (F1, F2),
) -> bool where A1: PartialApply<'t1, T1, F1, O1, E>, A2: PartialApply<'t2, T2, F2, O2, E> {
    A1::accepts(next.0, f.0) && A2::accepts(next.1, f.1)
}

/// Running the two functions of `f` in their order, each on its part of
/// the copy `next`, may end in `planned`:
///
/// - in `Ok`, where both succeeded, with the two results and the two
///   parts as the functions left them;
/// - in `Err` with the error of the first function, or with the error of
///   the second where the first succeeded.
pub open spec fn plans_both<'t1, 't2, A1, A2, T1, T2, F1, F2, O1, O2, E>(
    next: (T1, T2),
    f: (F1, F2),
    planned: Result<((O1, O2), (T1, T2)), E>,
) -> bool where A1: PartialApply<'t1, T1, F1, O1, E>, A2: PartialApply<'t2, T2, F2, O2, E> {
    match planned {
        Ok(((o1, o2), (next1, next2))) => {
            &&& A1::plans(next.0, f.0, Ok((o1, next1)))
            &&& A2::plans(next.1, f.1, Ok((o2, next2)))
        },
        Err(e) => {
            ||| A1::plans(next.0, f.0, Err(e))
            ||| exists|o1: O1, next1: T1|
                A1::plans(next.0, f.0, Ok((o1, next1))) && A2::plans(next.1, f.1, Err(e))
        },
    }
}

/// A chain of `A1` and `A2` accepts and plans the pair `f` as
/// `accepts_both` and `plans_both` say.
pub open spec fn chains<'t1, 't2, 'tboth, A1, A2, T1, T2, F1, F2, O1, O2, E>(f: (F1, F2)) -> bool where
    A1: PartialApply<'t1, T1, F1, O1, E>,
    A2: PartialApply<'t2, T2, F2, O2, E>,
    T1: 't1,
    T2: 't2,
 {
    &&& forall|next: (T1, T2)| #[trigger]
        <Chain<A1, A2> as PartialApply<'tboth, (T1, T2), (F1, F2), (O1, O2), E>>::accepts(next, f)
            <==> accepts_both::<A1, A2, T1, T2, F1, F2, O1, O2, E>(next, f)
    &&& forall|next: (T1, T2), planned: Result<((O1, O2), (T1, T2)), E>| #[trigger]
        <Chain<A1, A2> as PartialApply<'tboth, (T1, T2), (F1, F2), (O1, O2), E>>::plans(
            next,
            f,
            planned,
        ) <==> plans_both::<A1, A2, T1, T2, F1, F2, O1, O2, E>(next, f, planned)
}

impl<'t1, 't2, 'tboth, A1, A2, T1, T2, F1, F2, O1, O2, E> PartialApply<
    'tboth,
    (T1, T2),
    (F1, F2),
    (O1, O2),
    E,
> for Chain<A1, A2> where
    A1: PartialApply<'t1, T1, F1, O1, E>,
    A2: PartialApply<'t2, T2, F2, O2, E>,
    T1: 't1,
    T2: 't2,
 {
    open spec fn accepts(next: (T1, T2), f: (F1, F2)) -> bool {
        accepts_both::<A1, A2, T1, T2, F1, F2, O1, O2, E>(next, f)
    }

    open spec fn plans(next: (T1, T2), f: (F1, F2), planned: Result<((O1, O2), (T1, T2)), E>) -> bool {
        plans_both::<A1, A2, T1, T2, F1, F2, O1, O2, E>(next, f, planned)
    }

    fn get_next(&self) -> (next: (T1, T2)) {
        let t1 = self.a1.get_next();
        let t2 = self.a2.get_next();
        (t1, t2)
    }

    fn modify_next(next: (T1, T2), f: (F1, F2)) -> (planned: Result<((O1, O2), (T1, T2)), E>) {
        let (next1, next2) = next;
        let (f1, f2) = f;
        let (o1, next1) = match A1::modify_next(next1, f1) {
            Ok(planned1) => planned1,
            Err(e) => {
                return Err(e);
            },
        };
        let (o2, next2) = match A2::modify_next(next2, f2) {
            Ok(planned2) => planned2,
            Err(e) => {
                return Err(e);
            },
        };
        Ok(((o1, o2), (next1, next2)))
    }

    fn replace(self, next: (T1, T2)) -> (consumed: ConsumedToken<'tboth, (T1, T2)>) {
        let (next1, next2) = next;
        let consumed1 = self.a1.replace(next1);
        let consumed2 = self.a2.replace(next2);
        consumed1.join(consumed2)
    }
}

impl<A1, A2, F1, F2> TakeOwned<(F1, F2), target::Function> for Chain<A1, A2> where
    A1: TakeOwned<F1, target::Function>,
    A2: TakeOwned<F2, target::Function>,
 {
    open spec fn gives(self, field: (F1, F2)) -> bool {
        self.a1.gives(field.0) && self.a2.gives(field.1)
    }

    fn take_owned(self) -> (field: (F1, F2)) {
        let f1 = self.a1.take_owned();
        let f2 = self.a2.take_owned();
        (f1, f2)
    }
}

impl<'t1, 't2, 'tboth, A1, A2, T1, T2> TakeOwned<Token<'tboth, (T1, T2)>, target::Token> for Chain<
    A1,
    A2,
> where
    A1: TakeOwned<Token<'t1, T1>, target::Token>,
    A2: TakeOwned<Token<'t2, T2>, target::Token>,
    T1: 't1,
    T2: 't2,
 {
    open spec fn gives(self, field: Token<'tboth, (T1, T2)>) -> bool {
        exists|token1: Token<'t1, T1>, token2: Token<'t2, T2>|
            {
                &&& #[trigger] self.a1.gives(token1)
                &&& #[trigger] self.a2.gives(token2)
                &&& field@ == (token1@, token2@)
            }
    }

    fn take_owned(self) -> (field: Token<'tboth, (T1, T2)>) {
        let token1 = self.a1.take_owned();
        let token2 = self.a2.take_owned();
        token1.join(token2)
    }
}

impl<A1, A2, T1, T2, F1, F2, E> Chain<Prepared<A1, T1, F1, E>, Prepared<A2, T2, F2, E>> {
    /// What the two prepared values protect, as a chain.
    pub open spec fn protected(self) -> Chain<A1, A2> {
        chain_of(self.a1.protected(), self.a2.protected())
    }

    /// The functions of the two prepared values, as a pair.
    pub open spec fn function(self) -> (F1, F2) {
        (self.a1.function(), self.a2.function())
    }

    /// Applies both prepared values or neither, as the one value does
    /// that `Prepared::chain` makes of the two.
    ///
    /// The last clause says how the chain accepts and plans the pair of
    /// the two functions, as that of `Prepared::chain` does.
    pub fn apply<'t1, 't2, 'tboth, O1, O2>(self) -> (outcome: AllOrNone<
        'tboth,
        (O1, O2),
        E,
        (T1, T2),
    >) where
        A1: PartialApply<'t1, T1, F1, O1, E>,
        A2: PartialApply<'t2, T2, F2, O2, E>,
        T1: 't1,
        T2: 't2,

        requires
            runs_on_copies(self.a1.protected(), self.a1.function()),
            runs_on_copies(self.a2.protected(), self.a2.function()),
        ensures
            commits(self.protected(), self.function(), outcome),
            chains::<A1, A2, T1, T2, F1, F2, O1, O2, E>(self.function()),
    {
        self.a1.chain(self.a2).apply()
    }
}

impl<'t1, 't2, 'tboth, A1, A2, T1, T2, F1, F2, O1, O2, E> Apply<
    'tboth,
    (T1, T2),
    (F1, F2),
    (O1, O2),
    E,
> for Chain<Prepared<A1, T1, F1, E>, Prepared<A2, T2, F2, E>> where
    A1: PartialApply<'t1, T1, F1, O1, E>,
    A2: PartialApply<'t2, T2, F2, O2, E>,
    T1: 't1,
    T2: 't2,
 {
    open spec fn ready(self) -> bool {
        &&& runs_on_copies(self.a1.protected(), self.a1.function())
        &&& runs_on_copies(self.a2.protected(), self.a2.function())
    }

    open spec fn applies(self, outcome: AllOrNone<'tboth, (O1, O2), E, (T1, T2)>) -> bool {
        commits(self.protected(), self.function(), outcome)
    }

    fn apply(self) -> (outcome: AllOrNone<'tboth, (O1, O2), E, (T1, T2)>) {
        Chain::apply(self)
    }
}

/// The outcome `left` of a commit on `((T1, T2), T3)` and the outcome
/// `right` of one on `(T1, (T2, T3))` are the same but for the grouping:
/// both are `Ok` with the same three results and the same three values in
/// the consumed tokens, or both are `Err` with the same error and the same
/// three values in the tokens.
pub open spec fn same_but_for_grouping<'l, 'r, T1, T2, T3, O1, O2, O3, E>(
    left: AllOrNone<'l, ((O1, O2), O3), E, ((T1, T2), T3)>,
    right: AllOrNone<'r, (O1, (O2, O3)), E, (T1, (T2, T3))>,
) -> bool {
    match (left, right) {
        (Ok((o, consumed)), Ok((p, regrouped))) => {
            &&& p == (o.0.0, (o.0.1, o.1))
            &&& regrouped@ == (consumed@.0.0, (consumed@.0.1, consumed@.1))
        },
        (Err((e, token)), Err((d, regrouped))) => {
            &&& d == e
            &&& regrouped@ == (token@.0.0, (token@.0.1, token@.1))
        },
        _ => false,
    }
}

/// `copy` may be a copy of what `protected` holds now.
spec fn copies_for<'t, A, T>(protected: A, copy: T) -> bool where A: Handle<'t, T> {
    A::copies(protected.value(), copy)
}

/// `A::accepts`, of the `A` that `protected` is.
spec fn accepts_for<'t, A, T, F, O, E>(protected: A, next: T, f: F) -> bool where
    A: PartialApply<'t, T, F, O, E>,
 {
    A::accepts(next, f)
}

/// `A::plans`, of the `A` that `protected` is.
spec fn plans_for<'t, A, T, F, O, E>(protected: A, next: T, f: F, planned: Result<(O, T), E>) -> bool where
    A: PartialApply<'t, T, F, O, E>,
 {
    A::plans(next, f, planned)
}

/// `runs_on_copies`, said of a `protected` that is at hand.
proof fn lemma_runs_on_copies<'t, A, T, F, O, E>(protected: A, f: F) where
    A: PartialApply<'t, T, F, O, E>,

    ensures
        runs_on_copies(protected, f) <==> forall|copy: T| #[trigger]
            copies_for(protected, copy) ==> accepts_for(protected, copy, f),
{
    if forall|copy: T| #[trigger] copies_for(protected, copy) ==> accepts_for(protected, copy, f) {
        assert forall|copy: T| #[trigger] A::copies(protected.value(), copy) implies A::accepts(
            copy,
            f,
        ) by {
            assert(copies_for(protected, copy));
        }
    }
}

/// `plans_on_copy`, said of a `protected` that is at hand.
proof fn lemma_plans_on_copy<'t, A, T, F, O, E>(protected: A, f: F, planned: Result<(O, T), E>) where
    A: PartialApply<'t, T, F, O, E>,

    ensures
        plans_on_copy(protected, f, planned) <==> exists|copy: T|
            copies_for(protected, copy) && #[trigger] plans_for(protected, copy, f, planned),
{
    if plans_on_copy(protected, f, planned) {
        let copy = choose|copy: T|
            A::copies(protected.value(), copy) && #[trigger] A::plans(copy, f, planned);
        assert(copies_for(protected, copy) && plans_for(protected, copy, f, planned));
    }
}

/// What planning three functions may end in is the same in both
/// groupings.
proof fn lemma_plans_in_both_groupings<'t1, 't2, 't3, A1, A2, A3, T1, T2, T3, F1, F2, F3, O1, O2, O3, E>(
    a1: A1,
    a2: A2,
    a3: A3,
    next: ((T1, T2), T3),
    f: ((F1, F2), F3),
    left: Result<(((O1, O2), O3), ((T1, T2), T3)), E>,
    right: Result<((O1, (O2, O3)), (T1, (T2, T3))), E>,
) where
    A1: PartialApply<'t1, T1, F1, O1, E>,
    A2: PartialApply<'t2, T2, F2, O2, E>,
    A3: PartialApply<'t3, T3, F3, O3, E>,
    T1: 't1,
    T2: 't2,
    T3: 't3,

    requires
        (match (left, right) {
            (Ok((o, modified)), Ok((p, regrouped))) => {
                &&& p == (o.0.0, (o.0.1, o.1))
                &&& regrouped == (modified.0.0, (modified.0.1, modified.1))
            },
            (Err(e), Err(d)) => d == e,
            _ => false,
        }),
    ensures
        plans_for(chain_of(chain_of(a1, a2), a3), next, f, left) <==> plans_for(
            chain_of(a1, chain_of(a2, a3)),
            (next.0.0, (next.0.1, next.1)),
            (f.0.0, (f.0.1, f.1)),
            right,
        ),
{
    let ((c1, c2), c3) = next;
    let ((f1, f2), f3) = f;
    let a12 = chain_of(a1, a2);
    let a23 = chain_of(a2, a3);
    let grouped_left = plans_for(chain_of(a12, a3), next, f, left);
    let grouped_right = plans_for(chain_of(a1, a23), (c1, (c2, c3)), (f1, (f2, f3)), right);
    match left {
        Ok(_) => {
            // Both groupings ask the same of each of the three functions.
        },
        Err(e) => {
            // In either grouping the commit fails with `e` where the first
            // function does, or the second after the first succeeded, or
            // the third after the first two succeeded.
            let first_fails = A1::plans(c1, f1, Err(e));
            let second_fails = exists|o1: O1, n1: T1|
                A1::plans(c1, f1, Ok((o1, n1))) && A2::plans(c2, f2, Err(e));
            let third_fails = exists|o1: O1, n1: T1, o2: O2, n2: T2|
                {
                    &&& A1::plans(c1, f1, Ok((o1, n1)))
                    &&& A2::plans(c2, f2, Ok((o2, n2)))
                    &&& A3::plans(c3, f3, Err(e))
                };
            let first_two_fail = plans_for(a12, (c1, c2), (f1, f2), Err::<((O1, O2), (T1, T2)), E>(e));
            let last_two_fail = plans_for(a23, (c2, c3), (f2, f3), Err::<((O2, O3), (T2, T3)), E>(e));
            assert(grouped_left <==> first_fails || second_fails || third_fails) by {
                if grouped_left && !first_two_fail {
                    let (o12, n12) = choose|o12: (O1, O2), n12: (T1, T2)|
                        <Chain<A1, A2> as PartialApply<(T1, T2), (F1, F2), (O1, O2), E>>::plans(
                            (c1, c2),
                            (f1, f2),
                            Ok((o12, n12)),
                        ) && A3::plans(c3, f3, Err(e));
                    assert(A1::plans(c1, f1, Ok((o12.0, n12.0))));
                    assert(A2::plans(c2, f2, Ok((o12.1, n12.1))));
                }
                if third_fails {
                    let (o1, n1, o2, n2) = choose|o1: O1, n1: T1, o2: O2, n2: T2|
                        {
                            &&& A1::plans(c1, f1, Ok((o1, n1)))
                            &&& A2::plans(c2, f2, Ok((o2, n2)))
                            &&& A3::plans(c3, f3, Err(e))
                        };
                    assert(plans_for(a12, (c1, c2), (f1, f2), Ok(((o1, o2), (n1, n2)))));
                }
            }
            assert(grouped_right <==> first_fails || second_fails || third_fails) by {
                if grouped_right && !first_fails {
                    let (o1, n1) = choose|o1: O1, n1: T1|
                        A1::plans(c1, f1, Ok((o1, n1))) && <Chain<A2, A3> as PartialApply<
                            (T2, T3),
                            (F2, F3),
                            (O2, O3),
                            E,
                        >>::plans((c2, c3), (f2, f3), Err(e));
                    if !A2::plans(c2, f2, Err(e)) {
                        let (o2, n2) = choose|o2: O2, n2: T2|
                            A2::plans(c2, f2, Ok((o2, n2))) && A3::plans(c3, f3, Err(e));
                        assert(A1::plans(c1, f1, Ok((o1, n1))) && A2::plans(c2, f2, Ok((o2, n2))));
                    }
                }
                if second_fails {
                    let (o1, n1) = choose|o1: O1, n1: T1|
                        A1::plans(c1, f1, Ok((o1, n1))) && A2::plans(c2, f2, Err(e));
                    assert(last_two_fail);
                }
                if third_fails {
                    let (o1, n1, o2, n2) = choose|o1: O1, n1: T1, o2: O2, n2: T2|
                        {
                            &&& A1::plans(c1, f1, Ok((o1, n1)))
                            &&& A2::plans(c2, f2, Ok((o2, n2)))
                            &&& A3::plans(c3, f3, Err(e))
                        };
                    assert(last_two_fail);
                }
            }
        },
    }
}

/// Chaining is associative. Take three protected values and three
/// functions, grouped as `((1, 2), 3)` and as `(1, (2, 3))`. The functions
/// may run in the one grouping where they may in the other, and what a
/// commit may end in is the same in both but for the grouping: the same
/// success or failure, the same results or error, and each protected value
/// ends with the same value.
pub proof fn lemma_chain_is_associative<'t1, 't2, 't3, 'l, 'r, A1, A2, A3, T1, T2, T3, F1, F2, F3, O1, O2, O3, E>(
    a1: A1,
    a2: A2,
    a3: A3,
    f1: F1,
    f2: F2,
    f3: F3,
    left: AllOrNone<'l, ((O1, O2), O3), E, ((T1, T2), T3)>,
    right: AllOrNone<'r, (O1, (O2, O3)), E, (T1, (T2, T3))>,
) where
    A1: PartialApply<'t1, T1, F1, O1, E>,
    A2: PartialApply<'t2, T2, F2, O2, E>,
    A3: PartialApply<'t3, T3, F3, O3, E>,
    T1: 't1,
    T2: 't2,
    T3: 't3,

    requires
        same_but_for_grouping(left, right),
    ensures
        runs_on_copies(chain_of(chain_of(a1, a2), a3), ((f1, f2), f3)) <==> runs_on_copies(
            chain_of(a1, chain_of(a2, a3)),
            (f1, (f2, f3)),
        ),
        commits(chain_of(chain_of(a1, a2), a3), ((f1, f2), f3), left) <==> commits(
            chain_of(a1, chain_of(a2, a3)),
            (f1, (f2, f3)),
            right,
        ),
{
    let lh = chain_of(chain_of(a1, a2), a3);
    let rh = chain_of(a1, chain_of(a2, a3));
    let lf = ((f1, f2), f3);
    let rf = (f1, (f2, f3));

    lemma_runs_on_copies(lh, lf);
    lemma_runs_on_copies(rh, rf);
    if runs_on_copies(lh, lf) {
        assert forall|copy: (T1, (T2, T3))| #[trigger] copies_for(rh, copy) implies accepts_for(
            rh,
            copy,
            rf,
        ) by {
            let grouped = ((copy.0, copy.1.0), copy.1.1);
            assert(copies_for(lh, grouped) && accepts_for(lh, grouped, lf));
        }
    }
    if runs_on_copies(rh, rf) {
        assert forall|copy: ((T1, T2), T3)| #[trigger] copies_for(lh, copy) implies accepts_for(
            lh,
            copy,
            lf,
        ) by {
            let grouped = (copy.0.0, (copy.0.1, copy.1));
            assert(copies_for(rh, grouped) && accepts_for(rh, grouped, rf));
        }
    }

    let (planned_left, planned_right) = match (left, right) {
        (Ok((o, consumed)), Ok((p, regrouped))) => (Ok((o, consumed@)), Ok((p, regrouped@))),
        (Err((e, _)), Err((d, _))) => (Err(e), Err(d)),
        _ => arbitrary(),
    };
    lemma_plans_on_copy(lh, lf, planned_left);
    lemma_plans_on_copy(rh, rf, planned_right);
    if plans_on_copy(lh, lf, planned_left) {
        let copy = choose|copy: ((T1, T2), T3)|
            copies_for(lh, copy) && #[trigger] plans_for(lh, copy, lf, planned_left);
        let grouped = (copy.0.0, (copy.0.1, copy.1));
        lemma_plans_in_both_groupings(a1, a2, a3, copy, lf, planned_left, planned_right);
        assert(copies_for(rh, grouped) && plans_for(rh, grouped, rf, planned_right));
    }
    if plans_on_copy(rh, rf, planned_right) {
        let grouped = choose|copy: (T1, (T2, T3))|
            copies_for(rh, copy) && #[trigger] plans_for(rh, copy, rf, planned_right);
        let copy = ((grouped.0, grouped.1.0), grouped.1.1);
        lemma_plans_in_both_groupings(a1, a2, a3, copy, lf, planned_left, planned_right);
        assert(copies_for(lh, copy) && plans_for(lh, copy, lf, planned_left));
    }
}

} // verus!
