use std::fmt::Debug;
use std::ops::Bound;
use std::sync::{Arc, Mutex};
use std::time::{Duration, Instant};

use zond::zvec::{ZVec, ZVecOperation};
use zond::{IdGenerator, OperationType, Operations, Policy, PolicyError, Zond, ZondHandler};

type Seen = Arc<Mutex<Vec<(usize, Vec<String>)>>>;

#[derive(Clone, Default)]
struct Batches(Seen);

impl<T: OperationType + Debug> ZondHandler<T> for Batches {
    fn handle(&self, id: usize, operations: Operations<T>) {
        let kinds = operations.iter().map(|o| format!("{:?}", o.get_type())).collect();
        self.0.lock().unwrap().push((id, kinds));
    }
}

fn batches(seen: &Batches) -> Vec<Vec<String>> {
    seen.0.lock().unwrap().iter().map(|(_, b)| b.clone()).collect()
}

fn zvec_with(policy: Policy) -> (ZVec<usize, Batches>, Batches) {
    let seen = Batches::default();
    (ZVec::new(Zond::new(seen.clone(), policy)), seen)
}

fn strs(items: &[&str]) -> Vec<String> {
    items.iter().map(|s| s.to_string()).collect()
}

#[test]
fn count_threshold_scenario() {
    let (mut z, seen) = zvec_with(Policy::on_count_operations(3).unwrap());
    z.push(1);
    assert!(batches(&seen).is_empty());
    z.push(2);
    assert_eq!(batches(&seen), vec![strs(&["New", "Push { value: 1 }", "Push { value: 2 }"])]);
    z.push(5);
    z.push(5);
    z.extend_from_within(1..);
    assert_eq!(batches(&seen).len(), 2);
    assert_eq!(
        batches(&seen)[1],
        strs(&[
            "Push { value: 5 }",
            "Push { value: 5 }",
            "ExtendFromWithin { src_start_bound: Included(1), src_end_bound: Unbounded }"
        ])
    );
    z.dedup();
    z.finish();
    assert_eq!(batches(&seen).len(), 3);
    assert_eq!(batches(&seen)[2], strs(&["Dedup"]));
}

#[test]
fn count_threshold_batches_are_exact() {
    let (mut z, seen) = zvec_with(Policy::on_count_operations(4).unwrap());
    for i in 0..10 {
        z.push(i);
    }
    // 11 operations: two batches of four, three still waiting.
    let b = batches(&seen);
    assert_eq!(b.len(), 2);
    assert!(b.iter().all(|batch| batch.len() == 4));
    z.finish();
    let b = batches(&seen);
    assert_eq!(b.len(), 3);
    assert_eq!(b[2].len(), 3);
}

#[test]
fn count_threshold_of_one_hands_over_every_operation() {
    let (mut z, seen) = zvec_with(Policy::on_count_operations(1).unwrap());
    z.push(7);
    z.pop();
    assert_eq!(batches(&seen), vec![strs(&["New"]), strs(&["Push { value: 7 }"]), strs(&["Pop"])]);
}

#[test]
fn zero_threshold_is_refused() {
    assert!(matches!(Policy::on_count_operations(0), Err(PolicyError::ZeroThreshold)));
    assert!(Policy::on_count_operations(1).is_ok());
}

#[test]
fn drop_only_waits_for_teardown() {
    let (mut z, seen) = zvec_with(Policy::on_drop_only());
    for i in 0..50 {
        z.push(i);
    }
    assert!(batches(&seen).is_empty());
    z.finish();
    let b = batches(&seen);
    assert_eq!(b.len(), 1);
    assert_eq!(b[0].len(), 51);
    assert_eq!(b[0][0], "New");
    assert_eq!(b[0][50], "Push { value: 49 }");
}

#[test]
fn debounced_threshold_is_strict() {
    let mut p = Policy::less_often(Duration::from_nanos(100));
    let at = Instant::now();
    assert!(!p.after_operation_at(at, 0));
    assert!(!p.after_operation_at(at, 100));
    assert!(p.after_operation_at(at, 101));
    assert!(!p.after_operation_at(at, 50));
}

#[test]
fn debounced_duration_is_read_in_nanoseconds() {
    let mut p = Policy::less_often(Duration::from_secs(2));
    let at = Instant::now();
    assert!(!p.after_operation_at(at, 2_000_000_000));
    assert!(p.after_operation_at(at, 2_000_000_001));
}

#[test]
fn debounced_long_period_never_flushes_early() {
    let (mut z, seen) = zvec_with(Policy::less_often(Duration::from_secs(3600)));
    z.push(1);
    z.push(2);
    assert!(batches(&seen).is_empty());
    z.finish();
    assert_eq!(batches(&seen), vec![strs(&["New", "Push { value: 1 }", "Push { value: 2 }"])]);
}

#[test]
fn drop_only_and_count_policies_ignore_time() {
    let mut p = Policy::on_drop_only();
    assert!(!p.after_operation_at(Instant::now(), u128::MAX));
    let mut q = Policy::on_count_operations(2).unwrap();
    assert!(!q.after_operation_at(Instant::now(), u128::MAX));
    assert!(q.after_operation_at(Instant::now(), 0));
}

#[test]
fn cloned_policy_starts_afresh() {
    let mut p = Policy::on_count_operations(2).unwrap();
    assert!(!p.after_operation());
    let mut q = p.clone();
    assert!(p.after_operation());
    assert!(!q.after_operation());
    assert!(q.after_operation());
}

#[test]
fn identifiers_differ() {
    let seen = Batches::default();
    let zond = Zond::new(seen.clone(), Policy::on_drop_only());
    let a: ZVec<usize, Batches> = ZVec::new(zond.clone());
    let b: ZVec<usize, Batches> = ZVec::new(zond.clone());
    let c: ZVec<usize, Batches> = ZVec::new(zond);
    a.finish();
    b.finish();
    c.finish();
    let mut ids: Vec<usize> = seen.0.lock().unwrap().iter().map(|(id, _)| *id).collect();
    ids.sort();
    ids.dedup();
    assert_eq!(ids.len(), 3);
}

#[test]
fn teardown_hands_over_what_waits() {
    let (mut z, seen) = zvec_with(Policy::on_count_operations(2).unwrap());
    z.push(1);
    z.push(2);
    assert_eq!(batches(&seen).len(), 1);
    z.finish();
    assert_eq!(batches(&seen), vec![strs(&["New", "Push { value: 1 }"]), strs(&["Push { value: 2 }"])]);
}

#[test]
fn teardown_hands_over_an_empty_batch() {
    let (z, seen) = zvec_with(Policy::on_count_operations(1).unwrap());
    z.finish();
    assert_eq!(batches(&seen), vec![strs(&["New"]), vec![]]);
}

#[test]
fn consuming_methods_tear_down() {
    let (mut z, seen) = zvec_with(Policy::on_drop_only());
    z.push(3);
    let b = z.into_boxed_slice().0;
    assert_eq!(&*b, &[3]);
    assert_eq!(batches(&seen), vec![strs(&["New", "Push { value: 3 }", "IntoBoxedSlice"])]);
}

#[test]
fn from_vec_records_a_copy() {
    let seen = Batches::default();
    let mut z: ZVec<usize, Batches> = ZVec::from_vec(vec![4, 5], Zond::new(seen.clone(), Policy::on_drop_only()));
    assert_eq!(z.as_slice(), &[4, 5]);
    z.finish();
    assert_eq!(batches(&seen), vec![strs(&["FromVec { from: [4, 5] }", "AsSlice"])]);
}

#[test]
fn drain_and_splice_take_their_range() {
    let (mut z, seen) = zvec_with(Policy::on_drop_only());
    z.extend_from_slice(&[1, 2, 3, 4, 5]);
    assert_eq!(z.drain(1..3), Some(vec![2, 3]));
    assert_eq!(z.as_slice(), &[1, 4, 5]);
    assert_eq!(z.splice(..=1, vec![9, 9, 9]), Some(vec![1, 4]));
    assert_eq!(z.as_slice(), &[9, 9, 9, 5]);
    assert_eq!(z.drain(2..9), None);
    assert_eq!(z.splice((Bound::Excluded(3), Bound::Excluded(3)), vec![]), None);
    assert_eq!(z.as_slice(), &[9, 9, 9, 5]);
    assert!(!z.extend_from_within(3..1));
    assert!(z.extend_from_within(3..));
    assert_eq!(z.as_slice(), &[9, 9, 9, 5, 5]);
    z.finish();
    let b = batches(&seen);
    assert_eq!(b[0][2], "Drain { start_bound: Included(1), end_bound: Excluded(3) }");
    assert_eq!(b[0][4], "Splice { start_bound: Unbounded, end_bound: Included(1) }");
}

#[test]
fn edits_do_what_vec_does() {
    let (mut z, _seen) = zvec_with(Policy::on_count_operations(5).unwrap());
    z.extend_from_slice(&[5, 1, 1, 2, 2, 2, 3]);
    z.dedup();
    assert_eq!(z.as_slice(), &[5, 1, 2, 3]);
    z.retain(|x| *x != 1);
    assert_eq!(z.as_slice(), &[5, 2, 3]);
    z.retain_mut(|x| {
        *x += 1;
        *x != 4
    });
    assert_eq!(z.as_slice(), &[6, 3]);
    z.insert(1, 8);
    assert_eq!(z.as_slice(), &[6, 8, 3]);
    assert_eq!(z.remove(0), 6);
    assert_eq!(z.swap_remove(0), 8);
    assert_eq!(z.as_slice(), &[3]);
    z.resize(3, 7);
    assert_eq!(z.as_slice(), &[3, 7, 7]);
    z.resize_with(5, || 1);
    assert_eq!(z.as_slice(), &[3, 7, 7, 1, 1]);
    z.truncate(4);
    assert_eq!(z.split_off(2), vec![7, 1]);
    let mut other = vec![10, 11];
    z.append(&mut other);
    assert!(other.is_empty());
    assert_eq!(z.as_slice(), &[3, 7, 10, 11]);
    z.dedup_by_key(|x| *x / 10);
    assert_eq!(z.as_slice(), &[3, 10]);
    z.dedup_by(|a, b| *a < *b);
    assert_eq!(z.as_slice(), &[3, 10]);
    z.as_mut_slice()[0] = 4;
    assert_eq!(z.pop(), Some(10));
    assert_eq!(z.len(), 1);
    assert!(!z.is_empty());
    z.clear();
    assert!(z.is_empty());
    assert_eq!(z.pop(), None);
    assert_eq!(z.into_vec().0, Vec::<usize>::new());
}

#[test]
fn capacity_methods_keep_the_items() {
    let (mut z, seen) = zvec_with(Policy::on_drop_only());
    z.push(1);
    z.reserve(10);
    assert!(z.capacity() >= 11);
    z.reserve_exact(20);
    assert!(z.capacity() >= 21);
    assert!(z.try_reserve(5).is_ok());
    assert!(z.try_reserve_exact(5).is_ok());
    assert!(z.try_reserve(usize::MAX).is_err());
    z.shrink_to(4);
    assert!(z.capacity() >= 4);
    z.shrink_to_fit();
    assert!(z.capacity() >= 1);
    assert_eq!(z.spare_capacity_mut().len() + 1, z.capacity());
    assert_eq!(z.as_slice(), &[1]);
    let leaked = z.leak().0;
    assert_eq!(leaked, &[1]);
    let b = batches(&seen);
    assert_eq!(b.len(), 1);
    assert_eq!(b[0][4], "ReserveExact { additional: 20 }");
    assert_eq!(b[0][b[0].len() - 1], "Leak");
}

#[test]
fn operations_carry_their_type() {
    let op = zond::Operation::new(ZVecOperation::<u8>::Len);
    assert!(matches!(op.get_type(), ZVecOperation::Len));
    assert!(*op.get_instant() <= Instant::now());
}

#[test]
fn dedup_cuts_runs_to_their_first() {
    let (mut z, _seen) = zvec_with(Policy::on_drop_only());
    z.extend_from_slice(&[1, 2, 5, 5, 2, 5, 5]);
    z.dedup();
    assert_eq!(z.as_slice(), &[1, 2, 5, 2, 5]);
}

#[test]
fn retain_keeps_order() {
    let (mut z, _seen) = zvec_with(Policy::on_drop_only());
    z.extend_from_slice(&[9, 1, 8, 2, 7, 3]);
    z.retain(|x| *x > 2);
    assert_eq!(z.as_slice(), &[9, 8, 7, 3]);
}

#[test]
fn try_reserve_exact_beyond_memory_errs() {
    let (mut z, seen) = zvec_with(Policy::on_drop_only());
    z.push(1);
    assert!(z.try_reserve_exact(usize::MAX).is_err());
    assert_eq!(z.as_slice(), &[1]);
    z.finish();
    assert_eq!(batches(&seen)[0][2], "TryReserveExact { additional: 18446744073709551615 }");
}

#[test]
fn shared_id_generator_numbers_across_configurations() {
    let ids = IdGenerator::new();
    let seen = Batches::default();
    let a: ZVec<usize, Batches> =
        ZVec::new(Zond::with_id_generator(seen.clone(), Policy::on_drop_only(), ids.clone()));
    let b: ZVec<usize, Batches> =
        ZVec::new(Zond::with_id_generator(seen.clone(), Policy::on_count_operations(2).unwrap(), ids));
    a.finish();
    b.finish();
    let got: Vec<usize> = seen.0.lock().unwrap().iter().map(|(id, _)| *id).collect();
    assert_eq!(got, vec![0, 1]);
}

#[test]
fn into_vec_records_and_hands_over_last() {
    let seen = Batches::default();
    let z: ZVec<usize, Batches> = ZVec::from_vec(vec![6], Zond::new(seen.clone(), Policy::on_count_operations(5).unwrap()));
    let v: Vec<usize> = z.into();
    assert_eq!(v, vec![6]);
    assert_eq!(batches(&seen), vec![strs(&["FromVec { from: [6] }", "IntoVec"])]);
}
