use std::sync::Mutex;
use std::sync::atomic::AtomicUsize;
use std::sync::atomic::Ordering;

use mini_rayon::DrainProducer;
use mini_rayon::IntoParallelIteratorator;
use mini_rayon::ParallelIterator;
use mini_rayon::for_each;

#[test]
fn every_element_is_seen_exactly_once() {
    let acc = Mutex::new(Vec::new());
    let v = vec![1, 2, 3, 4, 5];
    v.into_par_iter().for_each(|x: i32| acc.lock().unwrap().push(x));
    let mut seen = acc.into_inner().unwrap();
    seen.sort();
    assert_eq!(seen, vec![1, 2, 3, 4, 5]);
}

#[test]
fn a_single_element_is_folded_once() {
    let acc = Mutex::new(Vec::new());
    let v = vec![42];
    v.into_par_iter().for_each(|x: i32| acc.lock().unwrap().push(x));
    assert_eq!(acc.into_inner().unwrap(), vec![42]);
}

#[test]
fn an_empty_source_never_invokes_the_operation() {
    let calls = AtomicUsize::new(0);
    let v: Vec<u8> = Vec::new();
    v.into_par_iter().for_each(|_| {
        calls.fetch_add(1, Ordering::SeqCst);
    });
    assert_eq!(calls.load(Ordering::SeqCst), 0);
}

#[test]
fn ten_thousand_elements_are_all_counted() {
    let counter = AtomicUsize::new(0);
    let v: Vec<usize> = (0..10_000).collect();
    v.into_par_iter().for_each(|_| {
        counter.fetch_add(1, Ordering::SeqCst);
    });
    assert_eq!(counter.load(Ordering::SeqCst), 10_000);
}

#[test]
fn the_collected_output_is_a_permutation_of_the_input() {
    let input: Vec<u64> = (0..257).map(|i| i * 31 % 257).collect();
    let acc = Mutex::new(Vec::new());
    input.clone().into_par_iter().for_each(|x: u64| acc.lock().unwrap().push(x));
    let mut seen = acc.into_inner().unwrap();
    let mut expected = input;
    seen.sort();
    expected.sort();
    assert_eq!(seen, expected);
}

#[test]
fn the_split_driver_matches_a_sequential_fold() {
    let input: Vec<i64> = (0..1000).collect();
    let sequential: i64 = input.iter().sum();
    let total = Mutex::new(0i64);
    input.into_par_iter().for_each(|x: i64| {
        *total.lock().unwrap() += x;
    });
    assert_eq!(total.into_inner().unwrap(), sequential);
}

#[test]
fn the_free_for_each_drives_an_iterator() {
    let acc = Mutex::new(Vec::new());
    let pi = vec![10, 20, 30].into_par_iter();
    let op = |x: i32| acc.lock().unwrap().push(x);
    for_each(pi, &op);
    let mut seen = acc.into_inner().unwrap();
    seen.sort();
    assert_eq!(seen, vec![10, 20, 30]);
}

#[test]
fn a_parallel_iterator_knows_its_length() {
    let pi = vec![1, 2, 3].into_par_iter();
    assert_eq!(pi.len(), 3);
}

#[test]
fn a_drain_producer_hands_every_element_out_in_order() {
    let producer = DrainProducer::from_vec(vec![1, 2, 3]);
    let mut drain = producer.into_iter();
    assert_eq!(drain.count(), 3);
    assert_eq!(drain.next(), Some(1));
    assert_eq!(drain.next(), Some(2));
    assert_eq!(drain.next(), Some(3));
    assert_eq!(drain.next(), None);
    assert_eq!(drain.count(), 0);
}
