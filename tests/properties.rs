use copyvec::CopyVec;

#[test]
fn capacity_queries() {
    let mut v: CopyVec<u8, 3> = CopyVec::new();
    assert_eq!(v.capacity(), 3);
    assert_eq!(v.remaining_capacity(), 3);
    assert!(v.is_empty());
    v.push(9);
    assert_eq!(v.len(), 1);
    assert_eq!(v.remaining_capacity(), 2);
    assert_eq!(v.capacity(), 3);
}

#[test]
fn length_never_exceeds_capacity() {
    let mut v: CopyVec<u8, 2> = CopyVec::new();
    for x in 0u8..10 {
        let _ = v.try_push(x);
        assert!(v.len() <= v.capacity());
    }
    assert_eq!(v.len(), 2);
    assert_eq!(v.remaining_capacity(), 0);
}

#[test]
fn push_then_pop_restores() {
    let mut v: CopyVec<i32, 4> = CopyVec::from_slice(&[3, 1]);
    v.push(42);
    assert_eq!(v.pop(), Some(42));
    assert_eq!(v.as_slice(), &[3, 1]);
}

#[test]
fn pop_at_keeps_order() {
    let mut v: CopyVec<char, 4> = CopyVec::from_slice(&['a', 'b', 'c', 'd']);
    assert_eq!(v.pop_at(1), Some('b'));
    assert_eq!(v.as_slice(), &['a', 'c', 'd']);
}

#[test]
fn pop_at_out_of_bounds_leaves_vector() {
    let mut v: CopyVec<i32, 4> = CopyVec::from_slice(&[1, 2]);
    assert_eq!(v.pop_at(2), None);
    assert_eq!(v.pop_at(usize::MAX), None);
    assert_eq!(v.as_slice(), &[1, 2]);
}

#[test]
fn pop_at_last_index() {
    let mut v: CopyVec<i32, 4> = CopyVec::from_slice(&[1, 2, 3]);
    assert_eq!(v.pop_at(2), Some(3));
    assert_eq!(v.as_slice(), &[1, 2]);
}

#[test]
fn try_push_full_returns_value() {
    let mut v: CopyVec<i32, 2> = CopyVec::from_slice(&[1, 2]);
    assert_eq!(v.try_push(7), Err(7));
    assert_eq!(v.as_slice(), &[1, 2]);
    let mut w: CopyVec<i32, 2> = CopyVec::new();
    assert_eq!(w.try_push(7), Ok(()));
    assert_eq!(w.as_slice(), &[7]);
}

#[test]
fn zero_capacity_is_always_full() {
    let mut v: CopyVec<i32, 0> = CopyVec::new();
    assert_eq!(v.try_push(1), Err(1));
    assert_eq!(v.pop(), None);
    assert_eq!(v.capacity(), 0);
}

#[test]
fn equality_ignores_dead_slots() {
    let mut a: CopyVec<i32, 4> = CopyVec::from_slice(&[1, 2, 99, 100]);
    a.truncate(2);
    let b: CopyVec<i32, 4> = CopyVec::from_slice(&[1, 2]);
    assert!(a == b);
    let mut c: CopyVec<i32, 4> = CopyVec::from_slice(&[1, 2, 5]);
    c.pop();
    assert!(a == c);
    let d: CopyVec<i32, 4> = CopyVec::from_slice(&[1, 3]);
    assert!(a != d);
    let e: CopyVec<i32, 4> = CopyVec::from_slice(&[1]);
    assert!(a != e);
}

#[test]
fn round_trip_through_elements() {
    let v: CopyVec<i32, 4> = CopyVec::from_slice(&[1, 2, 3, 4]);
    let encoded: Vec<i32> = v.as_slice().to_vec();
    assert_eq!(encoded.len(), 4);
    assert_eq!(encoded, vec![1, 2, 3, 4]);
    let mut decoded: CopyVec<i32, 4> = CopyVec::new();
    for x in &encoded {
        assert_eq!(decoded.try_push(*x), Ok(()));
    }
    assert!(decoded == v);
    let empty: CopyVec<i32, 4> = CopyVec::new();
    assert_eq!(empty.as_slice().len(), 0);
}

#[test]
fn decode_overflow_reports_length() {
    let input = [1, 2, 3, 4, 5];
    let mut decoded: CopyVec<i32, 4> = CopyVec::new();
    let mut reported = None;
    for x in input.iter() {
        if decoded.try_push(*x).is_err() {
            reported = Some(decoded.overflow_len(Some(input.len())));
            break;
        }
    }
    assert_eq!(reported, Some(5));
    assert_eq!(decoded.capacity(), 4);
}

#[test]
fn decode_overflow_without_hint_reports_count() {
    let mut decoded: CopyVec<i32, 2> = CopyVec::from_slice(&[1, 2]);
    assert_eq!(decoded.try_push(3), Err(3));
    assert_eq!(decoded.overflow_len(None), 2);
    assert_eq!(decoded.as_slice(), &[1, 2]);
}

#[test]
fn truncate_and_clear() {
    let mut v: CopyVec<i32, 4> = CopyVec::from_slice(&[1, 2, 3, 4]);
    v.truncate(2);
    assert_eq!(v.as_slice(), &[1, 2]);
    v.truncate(10);
    assert_eq!(v.as_slice(), &[1, 2]);
    v.clear();
    assert!(v.as_slice().is_empty());
    assert_eq!(v.pop(), None);
}

#[test]
fn remove_shifts_left() {
    let mut v: CopyVec<i32, 4> = CopyVec::from_slice(&[10, 20, 30]);
    assert_eq!(v.remove(0), 10);
    assert_eq!(v.as_slice(), &[20, 30]);
}

#[test]
fn mutable_view_edits_in_place() {
    let mut v: CopyVec<i32, 4> = CopyVec::from_slice(&[1, 2, 3]);
    v.as_mut_slice()[1] = 20;
    assert_eq!(v.as_slice(), &[1, 20, 3]);
    assert_eq!(v.len(), 3);
    let view: &[i32] = &v;
    assert_eq!(view, &[1, 20, 3]);
}

#[test]
fn default_is_empty() {
    let v: CopyVec<i32, 4> = Default::default();
    assert!(v.is_empty());
    assert_eq!(v.remaining_capacity(), 4);
}

#[test]
fn overflow_len_prefers_hint() {
    let v: CopyVec<i32, 4> = CopyVec::from_slice(&[1, 2, 3, 4]);
    assert_eq!(v.overflow_len(Some(5)), 5);
    assert_eq!(v.overflow_len(None), 4);
}

#[derive(Clone, Copy, PartialEq)]
struct Point {
    x: i32,
    y: i32,
}

#[test]
fn element_without_default() {
    let mut v: CopyVec<Point, 2> = CopyVec::new();
    assert!(v.is_empty());
    v.push(Point { x: 1, y: 2 });
    v.push(Point { x: 3, y: 4 });
    assert_eq!(v.try_push(Point { x: 5, y: 6 }).is_err(), true);
    assert!(v.pop() == Some(Point { x: 3, y: 4 }));
    let first: u8 = 9;
    let mut r: CopyVec<&u8, 3> = CopyVec::default();
    r.push(&first);
    assert_eq!(*r.as_slice()[0], 9);
}
