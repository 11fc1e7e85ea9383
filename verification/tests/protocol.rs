use nolife::brand::Minter;
use nolife::{begin_borrow, make_owned};

#[test]
fn extract_round_trip() {
    let owned = make_owned(5u64);
    assert_eq!(owned.into_inner(), 5u64);
}

#[test]
fn extract_round_trip_string() {
    let owned = make_owned(String::from("hello"));
    assert_eq!(owned.into_inner(), "hello");
}

#[test]
fn divide_reconstruct_round_trip() {
    let mut minter = Minter::new();
    let owned = make_owned(41i32);
    let (husk, r0) = begin_borrow(owned, &mut minter);
    let owned = r0.reconstruct(husk);
    assert_eq!(owned.into_inner(), 41i32);
}

#[test]
fn split_join_round_trip() {
    let mut minter = Minter::new();
    let owned = make_owned(7u8);
    let (husk, r0) = begin_borrow(owned, &mut minter);
    let (a, b) = r0.split();
    assert_eq!(*a.deref(), 7u8);
    assert_eq!(*b.deref(), 7u8);
    let r0 = a.join(b);
    assert_eq!(*r0.deref(), 7u8);
    let owned = r0.reconstruct(husk);
    assert_eq!(owned.into_inner(), 7u8);
}

#[test]
fn full_scenario() {
    let mut minter = Minter::new();
    let owned = make_owned(0i64);
    let (husk, r0) = begin_borrow(owned, &mut minter);
    let (a, b) = r0.split();
    assert_eq!(*a.deref(), 0i64);
    assert_eq!(*b.deref(), 0i64);
    let mut r0 = a.join(b);
    *r0.deref_mut() = 1;
    let owned = r0.reconstruct(husk);
    assert_eq!(owned.into_inner(), 1i64);
}

#[test]
fn mutation_visible_through_reads() {
    let mut minter = Minter::new();
    let owned = make_owned(10u32);
    let (husk, mut r0) = begin_borrow(owned, &mut minter);
    assert_eq!(*r0.deref(), 10u32);
    *r0.deref_mut() += 5;
    assert_eq!(*r0.deref(), 15u32);
    let owned = r0.reconstruct(husk);
    assert_eq!(owned.into_inner(), 15u32);
}

#[test]
fn deeper_split_tree() {
    let mut minter = Minter::new();
    let owned = make_owned(3u16);
    let (husk, r0) = begin_borrow(owned, &mut minter);
    let (a, b) = r0.split();
    let (a1, a2) = a.split();
    assert_eq!(*a1.deref(), 3u16);
    assert_eq!(*a2.deref(), 3u16);
    assert_eq!(*b.deref(), 3u16);
    let a = a1.join(a2);
    let r0 = a.join(b);
    let owned = r0.reconstruct(husk);
    assert_eq!(owned.into_inner(), 3u16);
}

#[test]
fn split_of_non_copy_value() {
    let mut minter = Minter::new();
    let owned = make_owned(vec![1u8, 2, 3]);
    let (husk, r0) = begin_borrow(owned, &mut minter);
    let (a, b) = r0.split();
    assert_eq!(a.deref(), b.deref());
    assert_eq!(a.deref(), &[1u8, 2, 3]);
    let r0 = a.join(b);
    let owned = r0.reconstruct(husk);
    assert_eq!(owned.into_inner(), vec![1u8, 2, 3]);
}

#[test]
fn leaked_references_are_not_fatal() {
    let mut minter = Minter::new();
    let owned = make_owned(9u64);
    let (husk, r0) = begin_borrow(owned, &mut minter);
    let (a, b) = r0.split();
    drop(a);
    drop(b);
    drop(husk);
}
