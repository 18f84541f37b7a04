use std::cell::Cell;
use std::convert::Infallible;
use std::mem::{align_of, size_of};
use std::rc::Rc;

use const_either::{ConstEither, ConstOption};

/// Counts how many times a value of it has been dropped.
struct DropCounter {
    drops: Rc<Cell<usize>>,
}

impl Drop for DropCounter {
    fn drop(&mut self) {
        self.drops.set(self.drops.get() + 1);
    }
}

fn counter(drops: &Rc<Cell<usize>>) -> DropCounter {
    DropCounter { drops: Rc::clone(drops) }
}

#[test]
fn nothing() {
    let _none = ConstOption::<Infallible, false>::new();
    let mut right = ConstEither::<Infallible, usize, true>::new(1234);

    assert_eq!(*right, 1234);
    *right = 456;
    assert_eq!(right.into_inner(), 456);
}

#[test]
fn something() {
    let some = ConstOption::<String, true>::new("Hello, world".to_string());
    assert_eq!(*some, "Hello, world");
}

#[test]
fn present_round_trip() {
    let some = ConstOption::<Vec<u32>, true>::new(vec![3, 1, 2]);
    assert_eq!(some.into_inner(), vec![3, 1, 2]);
    let empty = ConstOption::<String, true>::new(String::new());
    assert_eq!(empty.into_inner(), "");
}

#[test]
fn present_accessors() {
    let mut some = ConstOption::<u64, true>::new(10);
    assert_eq!(*some.as_ref(), 10);
    *some.as_mut() += 5;
    assert_eq!(*some, 15);
    *some = 40;
    assert_eq!(some.into_inner(), 40);
}

#[test]
fn absent_holds_no_payload() {
    let drops = Rc::new(Cell::new(0));
    {
        let _none = ConstOption::<DropCounter, false>::new();
    }
    assert_eq!(drops.get(), 0);
    assert_eq!(size_of::<ConstOption<Infallible, false>>(), 0);
    assert_eq!(size_of::<ConstOption<u64, false>>(), 0);
    assert_eq!(size_of::<ConstOption<String, false>>(), 0);
}

#[test]
fn layouts_carry_no_tag() {
    assert_eq!(size_of::<ConstOption<u64, true>>(), 8);
    assert_eq!(size_of::<ConstOption<u8, true>>(), 1);
    assert_eq!(size_of::<ConstEither<u64, u64, false>>(), 8);
    assert_eq!(size_of::<ConstEither<u64, u64, true>>(), 8);
    assert_eq!(size_of::<ConstEither<u8, u64, false>>(), 1);
    assert_eq!(size_of::<ConstEither<u8, u64, true>>(), 8);
    assert_eq!(align_of::<ConstEither<u8, u64, true>>(), align_of::<u64>());
    assert_eq!(size_of::<ConstEither<Infallible, usize, true>>(), size_of::<usize>());
}

#[test]
fn left_flip_round_trip() {
    let left = ConstEither::<String, u8, false>::new("abc".to_string());
    let right = left.flip();
    assert_eq!(*right, "abc");
    let back = right.flip();
    assert_eq!(*back.as_ref(), "abc");
    assert_eq!(back.into_inner(), "abc");
}

#[test]
fn right_flip_round_trip() {
    let right = ConstEither::<u8, i64, true>::new(-9);
    let left = right.flip();
    assert_eq!(*left, -9);
    assert_eq!(left.flip().into_inner(), -9);
}

#[test]
fn left_write_is_visible() {
    let mut left = ConstEither::<u32, String, false>::new(1);
    *left = 2;
    assert_eq!(*left, 2);
    *left.as_mut() *= 10;
    assert_eq!(left.into_inner(), 20);
}

#[test]
fn right_write_is_visible() {
    let mut right = ConstEither::<u32, String, true>::new("a".to_string());
    right.as_mut().push('b');
    right.push('c');
    assert_eq!(right.into_inner(), "abc");
}

#[test]
fn option_drops_payload_once() {
    let drops = Rc::new(Cell::new(0));
    for _ in 0..5 {
        let _some = ConstOption::<DropCounter, true>::new(counter(&drops));
    }
    assert_eq!(drops.get(), 5);
    let some = ConstOption::<DropCounter, true>::new(counter(&drops));
    let inner = some.into_inner();
    assert_eq!(drops.get(), 5);
    drop(inner);
    assert_eq!(drops.get(), 6);
}

#[test]
fn either_drops_payload_once() {
    let drops = Rc::new(Cell::new(0));
    for _ in 0..3 {
        let _left = ConstEither::<DropCounter, DropCounter, false>::new(counter(&drops));
    }
    assert_eq!(drops.get(), 3);
    for _ in 0..4 {
        let _right = ConstEither::<DropCounter, DropCounter, true>::new(counter(&drops));
    }
    assert_eq!(drops.get(), 7);
    let flipped = ConstEither::<DropCounter, u8, false>::new(counter(&drops)).flip();
    assert_eq!(drops.get(), 7);
    drop(flipped.flip());
    assert_eq!(drops.get(), 8);
}
