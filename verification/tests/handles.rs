use std::mem::size_of;

use nolife::brand::{Brand, Minter};
use nolife::{make_owned, Heap, Owned};

#[test]
fn tokens_have_no_footprint() {
    assert_eq!(size_of::<Brand>(), 0);
    assert_eq!(size_of::<Minter>(), 0);
}

#[test]
fn new_token_draws_from_the_generator() {
    let mut minter = Minter::new();
    let first = minter.new_token();
    let second = minter.new_token();
    drop(first);
    drop(second);
}

#[test]
fn divide_hands_out_the_slot() {
    let mut minter = Minter::new();
    let owned = make_owned(27u64);
    let token = minter.new_token();
    let (husk, slot) = owned.split(token);
    assert_eq!(*slot, 27u64);
    let _residual: () = husk.into_inner();
}

#[test]
fn wrap_a_container_directly() {
    let owned: Owned<u8, Heap> = Owned::from_inner(Box::new(200u8));
    assert_eq!(owned.into_inner(), 200u8);
}
