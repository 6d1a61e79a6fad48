use std::cell::{Cell, RefCell};
use std::rc::Rc;

use elementwise::consume::Consumer;
use elementwise::driver::ZipDriver;
use elementwise::iter::{mu_array, take, uninit_array, Slice};
use elementwise::simple::{zip_map_tracked, zip_map_untracked};
use elementwise::Array;

#[test]
fn add() {
    let a: Vec<i32> = vec![0, 1, 2, 3];
    let b: Vec<i32> = vec![4, 5, 6, 7];

    assert_eq!(Array(a).zip_map(b, |x: i32, y: i32| x + y), vec![4, 6, 8, 10]);
}

#[test]
fn add_assign() {
    let a: Vec<i32> = vec![0, 1, 2, 3];
    let b: Vec<i32> = vec![4, 5, 6, 7];

    let mut a = Array(a);

    a.zip_mut_map(b, |x: i32, y: i32| x + y);

    assert_eq!(a.0, vec![4, 6, 8, 10]);
}

/// A heap-owning value that counts how many instances are alive through a
/// shared counter, so a test can check that an operation neither leaks an
/// instance nor releases one twice.
struct Counted {
    value: Box<i32>,
    live: Rc<Cell<i64>>,
}

impl Counted {
    fn new(value: i32, live: &Rc<Cell<i64>>) -> Self {
        live.set(live.get() + 1);
        Counted { value: Box::new(value), live: Rc::clone(live) }
    }
}

impl Drop for Counted {
    fn drop(&mut self) {
        self.live.set(self.live.get() - 1);
    }
}

#[test]
fn no_panic_no_double_free() {
    let live = Rc::new(Cell::new(0i64));
    let a: Vec<Counted> = vec![0, 1, 2, 3].into_iter().map(|v| Counted::new(v, &live)).collect();
    let b: Vec<Counted> = vec![4, 5, 6, 7].into_iter().map(|v| Counted::new(v, &live)).collect();
    assert_eq!(live.get(), 8);

    let out = Array(a).zip_map(b, |x: Counted, y: Counted| {
        let sum = *x.value + *y.value;
        Counted::new(sum, &x.live)
    });

    let values: Vec<i32> = out.iter().map(|c| *c.value).collect();
    assert_eq!(values, vec![4, 6, 8, 10]);
    assert_eq!(live.get(), 4);

    drop(out);
    assert_eq!(live.get(), 0);
}

#[test]
fn combining_function_sees_increasing_indices() {
    let seen: Rc<RefCell<Vec<i32>>> = Rc::new(RefCell::new(Vec::new()));
    let log = Rc::clone(&seen);

    let a: Vec<i32> = vec![10, 20, 30, 40];
    let b: Vec<i32> = vec![1, 2, 3, 4];
    let out = Array(a).zip_map(b, move |x: i32, y: i32| {
        log.borrow_mut().push(x);
        x + y
    });

    assert_eq!(out, vec![11, 22, 33, 44]);
    assert_eq!(*seen.borrow(), vec![10, 20, 30, 40]);
}

#[test]
fn tracked_and_untracked_paths_agree() {
    let a: Vec<u8> = vec![3, 1, 4, 1, 5];
    let b: Vec<u8> = vec![2, 7, 1, 8, 2];
    let mul = |x: u8, y: u8| x.wrapping_mul(y);

    let tracked_out = zip_map_tracked(a.clone(), b.clone(), mul);
    let untracked_out = zip_map_untracked(a, b, mul);

    assert_eq!(tracked_out, untracked_out);
    assert_eq!(tracked_out, vec![6, 7, 4, 8, 10]);
}

#[test]
fn assign_paths_agree() {
    let a: Vec<i64> = vec![9, 8, 7];
    let b: Vec<i64> = vec![1, 2, 3];
    let sub = |x: i64, y: i64| x - y;

    let mut tracked_lhs = a.clone();
    elementwise::assign::zip_mut_map_tracked(&mut tracked_lhs, b.clone(), sub);
    let mut untracked_lhs = a;
    elementwise::assign::zip_mut_map_untracked(&mut untracked_lhs, b, sub);

    assert_eq!(tracked_lhs, untracked_lhs);
    assert_eq!(tracked_lhs, vec![8, 6, 4]);
}

#[test]
fn zip_map_on_empty_sequences() {
    let a: Vec<i32> = Vec::new();
    let b: Vec<i32> = Vec::new();
    let out = Array(a).zip_map(b, |x: i32, y: i32| x + y);
    assert!(out.is_empty());
}

#[test]
fn zip_mut_map_divides_in_place() {
    let a: Vec<i32> = vec![8, 18, 32];
    let b: Vec<i32> = vec![2, 3, 4];
    let mut a = Array(a);
    a.zip_mut_map(b, |x: i32, y: i32| x / y);
    assert_eq!(a.0, vec![4, 6, 8]);
}

#[test]
fn take_moves_value_out_of_slot() {
    let mut slot: Option<String> = Some(String::from("owned"));
    let value = take(&mut slot);
    assert_eq!(value, "owned");
    assert!(slot.is_none());
}

#[test]
fn storage_constructors() {
    let empty: Vec<Option<i32>> = uninit_array(3);
    assert_eq!(empty, vec![None, None, None]);

    let full = mu_array(vec![1, 2]);
    assert_eq!(full, vec![Some(1), Some(2)]);
}

#[test]
fn buffer_consumes_from_front_and_produces_at_back() {
    let mut input: Slice<i32> = Slice::full(vec![5, 6, 7]);
    let mut output: Slice<i32> = Slice::new(3);

    let first = input.pop_front_unchecked();
    assert_eq!(first, 5);
    output.push_unchecked(first * 10);
    output.push_unchecked(input.pop_front_unchecked() * 10);
    output.push_unchecked(input.pop_front_unchecked() * 10);

    assert_eq!(output.output(), vec![50, 60, 70]);
}

#[test]
fn consumer_hands_values_out_in_order() {
    let mut consumer = Consumer::new(vec![String::from("a"), String::from("b")]);
    assert_eq!(consumer.consume_next(), "a");
    assert_eq!(consumer.consume_next(), "b");
}

#[test]
fn driver_runs_all_steps() {
    let a: Vec<i32> = vec![1, 2, 3];
    let b: Vec<i32> = vec![10, 20, 30];
    let op = |x: i32, y: i32| x + y;
    let mut driver: ZipDriver<i32, i32, i32> = ZipDriver::new(a, b);
    driver.step(&op);
    driver.step(&op);
    driver.step(&op);
    assert_eq!(driver.into_output(), vec![11, 22, 33]);
}

#[test]
fn abandoned_buffer_releases_exactly_live_values() {
    let live = Rc::new(Cell::new(0i64));
    let values: Vec<Counted> = vec![1, 2, 3].into_iter().map(|v| Counted::new(v, &live)).collect();
    assert_eq!(live.get(), 3);

    let mut buffer = Slice::full(values);
    let front = buffer.pop_front_unchecked();
    assert_eq!(*front.value, 1);
    drop(front);
    assert_eq!(live.get(), 2);

    drop(buffer);
    assert_eq!(live.get(), 0);
}

#[test]
fn abandoned_consumer_releases_exactly_remaining_values() {
    let live = Rc::new(Cell::new(0i64));
    let values: Vec<Counted> = vec![1, 2, 3, 4].into_iter().map(|v| Counted::new(v, &live)).collect();
    assert_eq!(live.get(), 4);

    let mut consumer = Consumer::new(values);
    let first = consumer.consume_next();
    assert_eq!(*first.value, 1);
    drop(first);
    assert_eq!(live.get(), 3);

    drop(consumer);
    assert_eq!(live.get(), 0);
}

#[test]
fn abandoned_driver_releases_exactly_live_values() {
    let live = Rc::new(Cell::new(0i64));
    let a: Vec<Counted> = vec![0, 1].into_iter().map(|v| Counted::new(v, &live)).collect();
    let b: Vec<Counted> = vec![2, 3].into_iter().map(|v| Counted::new(v, &live)).collect();
    assert_eq!(live.get(), 4);

    let op = |x: Counted, y: Counted| Counted::new(*x.value + *y.value, &x.live);
    let mut driver: ZipDriver<Counted, Counted, Counted> = ZipDriver::new(a, b);
    driver.step(&op);
    assert_eq!(live.get(), 3);

    drop(driver);
    assert_eq!(live.get(), 0);
}
