use onemut::split::{Lifetimes2, Split};
use onemut::token::UncheckedFrom;
use onemut::{ConsumedToken, OneMut, ResultLike, Token};

fn ok_of<R: ResultLike<Ok = u8>>(_: &R) -> u8 {
    1
}

fn err_of<R: ResultLike<Err = &'static str>>(_: &R) -> u8 {
    2
}

#[test]
fn tokens_hold_no_data() {
    assert_eq!(std::mem::size_of::<Token<'static, [u64; 8]>>(), 0);
    assert_eq!(std::mem::size_of::<ConsumedToken<'static, [u64; 8]>>(), 0);
    assert_eq!(std::mem::size_of::<onemut::UpgraderToken<'static, 'static, [u64; 8], u64>>(), 0);
}

#[test]
fn a_handle_is_as_large_as_a_reference() {
    assert_eq!(
        std::mem::size_of::<OneMut<'static, [u64; 8]>>(),
        std::mem::size_of::<&'static mut [u64; 8]>()
    );
}

#[test]
fn token_of_a_handle_leaves_the_value() {
    let mut a = 5u8;
    let _token: Token<'_, u8> = OneMut::new(&mut a).token();
    assert_eq!(a, 5);
    let _token: Token<'_, u8> = OneMut::new(&mut a).unchecked_token();
    assert_eq!(a, 5);
}

#[test]
fn consuming_a_handle_leaves_the_value() {
    let mut a = 5u8;
    let _consumed: ConsumedToken<'_, u8> = OneMut::new(&mut a).consume();
    assert_eq!(a, 5);
    let _consumed: ConsumedToken<'_, u8> = OneMut::new(&mut a).unchecked_consume();
    assert_eq!(a, 5);
}

#[test]
fn tokens_join_and_split() {
    let mut a = 1u8;
    let mut b = 2u16;
    let ta = OneMut::new(&mut a).unchecked_token();
    let tb = OneMut::new(&mut b).unchecked_token();
    let both: Token<'_, (u8, u16)> = ta.then(tb);
    let (ta, tb): (Token<'_, u8>, Token<'_, u16>) = Split::<Lifetimes2<'_, '_>>::split(both);
    let _again: Token<'_, (u8, u16)> = ta.then(tb);
    assert_eq!((a, b), (1, 2));
}

#[test]
fn consumed_tokens_join_and_split() {
    let mut a = 1u8;
    let mut b = 2u16;
    let ca = OneMut::new(&mut a).unchecked_consume();
    let cb = OneMut::new(&mut b).unchecked_consume();
    let both: ConsumedToken<'_, (u8, u16)> = ca.then(cb);
    let (ca, cb): (ConsumedToken<'_, u8>, ConsumedToken<'_, u16>) = both.split2();
    let _again: ConsumedToken<'_, (u8, u16)> = ca.then(cb);
    assert_eq!((a, b), (1, 2));
}

#[test]
fn a_token_is_consumed_by_value() {
    let mut a = 1u8;
    let token = OneMut::new(&mut a).unchecked_token();
    let _consumed: ConsumedToken<'_, u8> = token.consume();
    let token = OneMut::new(&mut a).unchecked_token();
    let _consumed: ConsumedToken<'_, u8> = ConsumedToken::from(token);
    let token = OneMut::new(&mut a).unchecked_token();
    let _consumed: ConsumedToken<'_, u8> = token.into();
    assert_eq!(a, 1);
}

#[test]
fn unchecked_conversions() {
    let mut a = 1u8;
    let token: Token<'_, u8> = Token::unchecked_from(OneMut::new(&mut a));
    let token: Token<'_, u8> = Token::unchecked_from(token);
    let consumed: ConsumedToken<'_, u8> = token.consume();
    let _consumed: ConsumedToken<'_, u8> = ConsumedToken::unchecked_from(consumed);
    let _consumed: ConsumedToken<'_, u8> = ConsumedToken::unchecked_from(OneMut::new(&mut a));
    assert_eq!(a, 1);
}

#[test]
fn result_names_its_two_types() {
    let r: Result<u8, &'static str> = Ok(3);
    assert_eq!(ok_of(&r), 1);
    assert_eq!(err_of(&r), 2);
}
