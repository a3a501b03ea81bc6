//! Which types hold no data, and for which a witness can be had.
use fn_item::holds_no_data;
use fn_item::IsFnItem;

fn add_one(n: u32) -> u32 {
    n + 1
}

fn callable_holds_no_data<F>(_callable: &F) -> bool {
    holds_no_data::<F>()
}

fn checked_for<P, F>(_pointer: P, _callable: &F) -> Option<IsFnItem<P, F>> {
    IsFnItem::checked()
}

#[test]
fn the_unit_type_holds_no_data() {
    assert!(holds_no_data::<()>());
}

#[test]
fn an_integer_holds_data() {
    assert!(!holds_no_data::<u8>());
    assert!(!holds_no_data::<u64>());
}

#[test]
fn an_empty_array_of_aligned_items_is_not_stateless() {
    assert_eq!(core::mem::size_of::<[u64; 0]>(), 0);
    assert!(!holds_no_data::<[u64; 0]>());
    assert!(holds_no_data::<[u8; 0]>());
}

#[test]
fn a_closure_without_captures_holds_no_data() {
    let f = |n: u32| n + 1;
    assert!(callable_holds_no_data(&f));
}

#[test]
fn a_function_item_holds_no_data() {
    assert!(callable_holds_no_data(&add_one));
}

#[test]
fn a_function_pointer_holds_data() {
    let pointer: fn(u32) -> u32 = add_one;
    assert!(!callable_holds_no_data(&pointer));
}

#[test]
fn a_closure_with_a_capture_holds_data() {
    let step = 5u32;
    let f = move |n: u32| n + step;
    assert_eq!(f(1), 6);
    assert!(!callable_holds_no_data(&f));
}

#[test]
fn a_witness_is_had_for_a_closure_without_captures() {
    let f = |n: u32| n + 1;
    let w = checked_for(f as fn(u32) -> u32, &f);
    assert!(w.is_some());
    assert_eq!(w.unwrap().call1(&f, (41,)), 42);
}

#[test]
fn a_witness_is_had_for_a_function_item() {
    let w = checked_for(add_one as fn(u32) -> u32, &add_one);
    assert!(w.is_some());
    w.unwrap().vouch();
}

#[test]
fn no_witness_is_had_for_a_closure_with_a_capture() {
    let step = 5u32;
    let f = move |n: u32| n + step;
    assert!(checked_for(add_one as fn(u32) -> u32, &f).is_none());
}

#[test]
fn no_witness_is_had_for_a_function_pointer() {
    let pointer: fn(u32) -> u32 = add_one;
    assert!(checked_for(pointer, &pointer).is_none());
}
