use onemut::{AllOrNone, Apply, Chain, OneMut, PartialApply, Prepared, Take, TakeOwned};
use std::cell::RefCell;

#[derive(Clone, Debug, PartialEq)]
struct Account {
    balance: u32,
}

fn deposit(amount: u32) -> impl FnOnce(&mut Account) -> Result<u32, String> {
    move |account: &mut Account| {
        account.balance += amount;
        Ok(account.balance)
    }
}

fn withdraw(amount: u32) -> impl FnOnce(&mut Account) -> Result<u32, String> {
    move |account: &mut Account| {
        if account.balance < amount {
            // the copy is changed before the failure, the original must not be
            account.balance = 0;
            return Err(format!("cannot withdraw {}", amount));
        }
        account.balance -= amount;
        Ok(account.balance)
    }
}

#[test]
fn success_writes_every_resource() {
    let mut a = 0u8;
    let mut b = 0u8;
    let pa = OneMut::new(&mut a).unchecked_prepare(|a: &mut u8| {
        *a += 1;
        Ok::<u8, ()>(*a)
    });
    let pb = OneMut::new(&mut b).unchecked_prepare(|b: &mut u8| {
        *b += 1;
        Ok::<u8, ()>(*b)
    });
    let outcome = pa.chain(pb).apply();
    assert!(outcome.is_ok());
    let ((ra, rb), _consumed) = outcome.ok().unwrap();
    assert_eq!((ra, rb), (1, 1));
    assert_eq!(a, 1);
    assert_eq!(b, 1);
}

#[test]
fn failure_of_the_first_leaves_every_resource() {
    let mut a = 0u8;
    let mut b = 0u8;
    let pa = OneMut::new(&mut a).unchecked_prepare(|a: &mut u8| {
        *a += 1;
        Err::<u8, &str>("first")
    });
    let pb = OneMut::new(&mut b).unchecked_prepare(|b: &mut u8| {
        *b += 1;
        Ok::<u8, &str>(*b)
    });
    let outcome = pa.chain(pb).apply();
    let (error, _token) = outcome.err().unwrap();
    assert_eq!(error, "first");
    assert_eq!(a, 0);
    assert_eq!(b, 0);
}

#[test]
fn failure_of_the_second_leaves_every_resource() {
    let mut a = 0u8;
    let mut b = 0u8;
    let pa = OneMut::new(&mut a).unchecked_prepare(|a: &mut u8| {
        *a += 1;
        Ok::<u8, &str>(*a)
    });
    let pb = OneMut::new(&mut b).unchecked_prepare(|b: &mut u8| {
        *b += 1;
        Err::<u8, &str>("second")
    });
    let outcome = pa.chain(pb).apply();
    let (error, _token) = outcome.err().unwrap();
    assert_eq!(error, "second");
    assert_eq!(a, 0);
    assert_eq!(b, 0);
}

#[test]
fn the_first_failure_is_the_one_returned() {
    let mut a = 0u8;
    let mut b = 0u8;
    let pa = OneMut::new(&mut a).unchecked_prepare(|_a: &mut u8| Err::<(), &str>("first"));
    let pb = OneMut::new(&mut b).unchecked_prepare(|_b: &mut u8| Err::<(), &str>("second"));
    let (error, _token) = pa.chain(pb).apply().err().unwrap();
    assert_eq!(error, "first");
}

#[test]
fn functions_run_from_left_to_right_and_stop_at_a_failure() {
    let log = RefCell::new(Vec::new());
    let mut a = 1u8;
    let mut b = 2u8;
    let mut c = 3u8;
    let pa = OneMut::new(&mut a).unchecked_prepare(|a: &mut u8| {
        log.borrow_mut().push(*a);
        Ok::<(), ()>(())
    });
    let pb = OneMut::new(&mut b).unchecked_prepare(|b: &mut u8| {
        log.borrow_mut().push(*b);
        Err::<(), ()>(())
    });
    let pc = OneMut::new(&mut c).unchecked_prepare(|c: &mut u8| {
        log.borrow_mut().push(*c);
        Ok::<(), ()>(())
    });
    let outcome = pa.chain(pb).chain(pc).apply();
    assert!(outcome.is_err());
    assert_eq!(*log.borrow(), vec![1, 2]);
}

#[test]
fn single_resource_success() {
    let mut account = Account { balance: 10 };
    let outcome = OneMut::new(&mut account).unchecked_prepare(deposit(5)).apply();
    let (balance, _consumed) = outcome.ok().unwrap();
    assert_eq!(balance, 15);
    assert_eq!(account, Account { balance: 15 });
}

#[test]
fn single_resource_failure() {
    let mut account = Account { balance: 10 };
    let outcome = OneMut::new(&mut account).unchecked_prepare(withdraw(11)).apply();
    let (error, _token) = outcome.err().unwrap();
    assert_eq!(error, "cannot withdraw 11");
    assert_eq!(account, Account { balance: 10 });
}

#[test]
fn transfer_is_all_or_none() {
    let mut from = Account { balance: 10 };
    let mut to = Account { balance: 1 };
    {
        let staged = OneMut::new(&mut to)
            .unchecked_prepare(deposit(20))
            .chain(OneMut::new(&mut from).unchecked_prepare(withdraw(20)));
        assert!(staged.apply().is_err());
    }
    assert_eq!(from.balance, 10);
    assert_eq!(to.balance, 1);
    {
        let staged = OneMut::new(&mut to)
            .unchecked_prepare(deposit(7))
            .chain(OneMut::new(&mut from).unchecked_prepare(withdraw(7)));
        let ((credited, left), _consumed) = staged.apply().ok().unwrap();
        assert_eq!((credited, left), (8, 3));
    }
    assert_eq!(from.balance, 3);
    assert_eq!(to.balance, 8);
}

#[test]
fn prepare_and_unchecked_prepare_stage_alike() {
    let mut a = 5u8;
    let mut b = 5u8;
    let ra = OneMut::new(&mut a)
        .prepare(|a: &mut u8| {
            *a *= 2;
            Ok::<u8, ()>(*a)
        })
        .apply()
        .ok()
        .unwrap()
        .0;
    let rb = OneMut::new(&mut b)
        .unchecked_prepare(|b: &mut u8| {
            *b *= 2;
            Ok::<u8, ()>(*b)
        })
        .apply()
        .ok()
        .unwrap()
        .0;
    assert_eq!((ra, a), (10, 10));
    assert_eq!((rb, b), (10, 10));
}

#[test]
fn skip_resolves_without_a_change() {
    let mut a = 0u8;
    let outcome: AllOrNone<'_, (), (), u8> = OneMut::new(&mut a).unchecked_skip().apply();
    assert!(outcome.is_ok());
    assert_eq!(a, 0);
}

#[test]
fn skip_chains_with_a_staged_function() {
    let mut a = 7u8;
    let mut b = 0u8;
    let skipped = OneMut::new(&mut a).skip::<()>();
    let staged = OneMut::new(&mut b).unchecked_prepare(|b: &mut u8| {
        *b = 9;
        Ok::<u8, ()>(*b)
    });
    let (((), rb), _consumed) = skipped.chain(staged).apply().ok().unwrap();
    assert_eq!(rb, 9);
    assert_eq!(a, 7);
    assert_eq!(b, 9);
}

#[test]
fn skip_is_undone_by_a_failure_beside_it() {
    let mut a = 7u8;
    let mut b = 0u8;
    let staged = OneMut::new(&mut b).unchecked_prepare(|b: &mut u8| {
        *b = 9;
        Err::<u8, u8>(3)
    });
    let skipped = OneMut::new(&mut a).unchecked_skip::<u8>();
    let (error, _token) = staged.chain(skipped).apply().err().unwrap();
    assert_eq!(error, 3);
    assert_eq!((a, b), (7, 0));
}

#[test]
fn both_groupings_of_three_succeed_alike() {
    let mut left = (1u8, 2u8, 3u8);
    let mut right = (1u8, 2u8, 3u8);
    let add = |n: u8| move |x: &mut u8| {
        *x += n;
        Ok::<u8, ()>(*x)
    };
    let (((l1, l2), l3), _consumed) = OneMut::new(&mut left.0)
        .unchecked_prepare(add(10))
        .chain(OneMut::new(&mut left.1).unchecked_prepare(add(20)))
        .chain(OneMut::new(&mut left.2).unchecked_prepare(add(30)))
        .apply()
        .ok()
        .unwrap();
    let ((r1, (r2, r3)), _consumed) = OneMut::new(&mut right.0)
        .unchecked_prepare(add(10))
        .chain(
            OneMut::new(&mut right.1)
                .unchecked_prepare(add(20))
                .chain(OneMut::new(&mut right.2).unchecked_prepare(add(30))),
        )
        .apply()
        .ok()
        .unwrap();
    assert_eq!((l1, l2, l3), (11, 22, 33));
    assert_eq!((r1, r2, r3), (11, 22, 33));
    assert_eq!(left, (11, 22, 33));
    assert_eq!(right, left);
}

#[test]
fn both_groupings_of_three_fail_alike() {
    for failing in 0..3u8 {
        let mut left = (1u8, 2u8, 3u8);
        let mut right = (1u8, 2u8, 3u8);
        let step = |index: u8| move |x: &mut u8| {
            *x += 100;
            if index == failing {
                Err(index)
            } else {
                Ok(*x)
            }
        };
        let (l_error, _token) = OneMut::new(&mut left.0)
            .unchecked_prepare(step(0))
            .chain(OneMut::new(&mut left.1).unchecked_prepare(step(1)))
            .chain(OneMut::new(&mut left.2).unchecked_prepare(step(2)))
            .apply()
            .err()
            .unwrap();
        let (r_error, _token) = OneMut::new(&mut right.0)
            .unchecked_prepare(step(0))
            .chain(
                OneMut::new(&mut right.1)
                    .unchecked_prepare(step(1))
                    .chain(OneMut::new(&mut right.2).unchecked_prepare(step(2))),
            )
            .apply()
            .err()
            .unwrap();
        assert_eq!(l_error, failing);
        assert_eq!(r_error, failing);
        assert_eq!(left, (1, 2, 3));
        assert_eq!(right, (1, 2, 3));
    }
}

#[test]
fn a_chain_of_two_prepared_values_applies_both() {
    let mut a = 1u8;
    let mut b = 2u8;
    let pa = OneMut::new(&mut a).unchecked_prepare(|a: &mut u8| {
        *a += 1;
        Ok::<u8, ()>(*a)
    });
    let pb = OneMut::new(&mut b).unchecked_prepare(|b: &mut u8| {
        *b += 1;
        Ok::<u8, ()>(*b)
    });
    let ((ra, rb), _consumed) = Chain::new(pa, pb).apply().ok().unwrap();
    assert_eq!((ra, rb), (2, 3));
    assert_eq!((a, b), (2, 3));
}

#[test]
fn a_chain_of_two_prepared_values_applies_neither() {
    let mut a = 1u8;
    let mut b = 2u8;
    let pa = OneMut::new(&mut a).unchecked_prepare(|a: &mut u8| {
        *a += 1;
        Ok::<u8, u8>(*a)
    });
    let pb = OneMut::new(&mut b).unchecked_prepare(|b: &mut u8| {
        *b += 1;
        Err::<u8, u8>(*b)
    });
    let (error, _token) = Chain::new(pa, pb).apply().err().unwrap();
    assert_eq!(error, 3);
    assert_eq!((a, b), (1, 2));
}

#[test]
fn applying_through_the_trait_is_the_same() {
    let mut a = 1u8;
    let mut b = 2u8;
    let pa = OneMut::new(&mut a).unchecked_prepare(|a: &mut u8| {
        *a += 1;
        Ok::<u8, u8>(*a)
    });
    let (ra, _consumed) = Apply::apply(pa).ok().unwrap();
    assert_eq!((ra, a), (2, 2));
    let pa = OneMut::new(&mut a).unchecked_prepare(|a: &mut u8| {
        *a += 1;
        Ok::<u8, u8>(*a)
    });
    let pb = OneMut::new(&mut b).unchecked_prepare(|b: &mut u8| {
        *b += 1;
        Err::<u8, u8>(*b)
    });
    let (error, _token) = Apply::apply(Chain::new(pa, pb)).err().unwrap();
    assert_eq!(error, 3);
    assert_eq!((a, b), (2, 2));
}

#[test]
fn chain_groups_to_the_left() {
    let chained = Chain::new(1u8, "two").chain(3.0f32);
    assert_eq!(chained.a1.a1, 1);
    assert_eq!(chained.a1.a2, "two");
    assert_eq!(chained.a2, 3.0);
}

#[test]
fn the_three_steps_of_a_commit_by_hand() {
    let mut a = 4u8;
    let handle = OneMut::new(&mut a);
    let double = |a: &mut u8| {
        *a *= 2;
        Ok::<u8, ()>(*a)
    };
    let copy =
        <OneMut<u8> as PartialApply<u8, fn(&mut u8) -> Result<u8, ()>, u8, ()>>::get_next(&handle);
    assert_eq!(copy, 4);
    let planned = <OneMut<u8> as PartialApply<u8, _, u8, ()>>::modify_next(copy, double);
    assert_eq!(planned, Ok((8, 8)));
    // nothing was written so far
    assert_eq!(*handle.as_ref(), 4);
    let (_, next) = planned.ok().unwrap();
    let _consumed = <OneMut<u8> as PartialApply<u8, fn(&mut u8) -> Result<u8, ()>, u8, ()>>::replace(
        handle, next,
    );
    assert_eq!(a, 8);
}

#[test]
fn plan_hands_the_copy_back_as_the_function_left_it() {
    let planned = onemut::plan(10u8, |x: &mut u8| {
        *x += 5;
        Ok::<&str, ()>("done")
    });
    assert_eq!(planned, Ok(("done", 15)));
    let failed = onemut::plan(10u8, |x: &mut u8| {
        *x += 5;
        Err::<(), u8>(*x)
    });
    assert_eq!(failed, Err(15));
}

#[test]
fn chained_plan_stops_at_the_first_failure() {
    let calls = RefCell::new(0u8);
    let planned = <Chain<OneMut<u8>, OneMut<u8>> as PartialApply<
        (u8, u8),
        _,
        (u8, u8),
        &str,
    >>::modify_next(
        (1, 2),
        (
            |x: &mut u8| {
                *calls.borrow_mut() += 1;
                *x += 1;
                Err::<u8, &str>("no")
            },
            |y: &mut u8| {
                *calls.borrow_mut() += 1;
                *y += 1;
                Ok::<u8, &str>(*y)
            },
        ),
    );
    assert_eq!(planned, Err("no"));
    assert_eq!(*calls.borrow(), 1);
}

#[test]
fn cancel_gives_the_function_up() {
    let mut a = 3u8;
    let staged = OneMut::new(&mut a).unchecked_prepare(|a: &mut u8| {
        *a = 0;
        Ok::<(), ()>(())
    });
    let _token = staged.unchecked_cancel();
    assert_eq!(a, 3);
}

#[test]
fn the_staged_function_can_be_reached() {
    let mut a = 3u8;
    let mut staged: Prepared<OneMut<u8>, u8, u8, ()> = Prepared::new(OneMut::new(&mut a), 1u8);
    assert_eq!(*Take::<u8, onemut::target::Function>::take_ref(&staged), 1);
    *Take::<u8, onemut::target::Function>::take_mut(&mut staged) = 2;
    assert_eq!(*Take::<u8, onemut::target::Function>::take_ref(&staged), 2);
    let taken: u8 = TakeOwned::<u8, onemut::target::Function>::take_owned(staged);
    assert_eq!(taken, 2);
    assert_eq!(a, 3);
}

#[test]
fn the_functions_of_a_chain_are_taken_in_order() {
    let mut a = 3u8;
    let mut b = 4u8;
    let first: Prepared<OneMut<u8>, u8, &str, ()> = Prepared::new(OneMut::new(&mut a), "one");
    let second: Prepared<OneMut<u8>, u8, &str, ()> = Prepared::new(OneMut::new(&mut b), "two");
    let taken: (&str, &str) =
        TakeOwned::<(&str, &str), onemut::target::Function>::take_owned(Chain::new(first, second));
    assert_eq!(taken, ("one", "two"));
}

#[test]
fn the_token_can_be_taken_out_of_what_protects() {
    let mut a = 3u8;
    let mut b = 4u8;
    let _token: onemut::Token<'_, u8> =
        TakeOwned::<onemut::Token<'_, u8>, onemut::target::Token>::take_owned(OneMut::new(&mut a));
    let staged = OneMut::new(&mut b).unchecked_prepare(|b: &mut u8| {
        *b = 0;
        Ok::<(), ()>(())
    });
    let _token: onemut::Token<'_, u8> =
        TakeOwned::<onemut::Token<'_, u8>, onemut::target::Token>::take_owned(staged);
    assert_eq!((a, b), (3, 4));
}

#[test]
fn the_tokens_of_a_chain_are_taken_as_one() {
    let mut a = 3u8;
    let mut b = 4u8;
    let chain = Chain::new(OneMut::new(&mut a), OneMut::new(&mut b));
    let _token: onemut::Token<'_, (u8, u8)> =
        TakeOwned::<onemut::Token<'_, (u8, u8)>, onemut::target::Token>::take_owned(chain);
    assert_eq!((a, b), (3, 4));
}

#[test]
fn shared_access_reads_the_protected_value() {
    let mut a = String::from("kept");
    let handle = OneMut::new(&mut a);
    assert_eq!(handle.as_ref(), "kept");
    let _token = handle.unchecked_token();
    assert_eq!(a, "kept");
}
