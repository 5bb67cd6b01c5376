use dynvec::elem::decimal_str;
use dynvec::vector::Vector;

#[test]
fn new_starts_empty_with_default_capacity() {
    let v: Vector<u64> = Vector::new();
    assert_eq!(v.len(), 0);
    assert_eq!(v.cap(), 10);
}

#[test]
fn new_with_length_prefills_defaults() {
    let v: Vector<u64> = Vector::new_with_length(5);
    assert_eq!(v.len(), 5);
    assert_eq!(v.cap(), 10);
    for i in 0..5 {
        assert_eq!(*v.index(i), 0);
    }
}

#[test]
fn new_with_capacity_starts_empty() {
    let v: Vector<u64> = Vector::new_with_capacity(7);
    assert_eq!(v.len(), 0);
    assert_eq!(v.cap(), 7);
}

#[test]
fn push_past_capacity_grows() {
    let mut v: Vector<u64> = Vector::new();
    for i in 0..11 {
        v.push(i);
    }
    assert_eq!(v.len(), 11);
    assert!(v.cap() >= 11);
    assert_eq!(*v.index(10), 10);
}

#[test]
fn push_appends_exactly_one_element() {
    let mut v: Vector<u64> = Vector::new();
    v.push(42);
    assert_eq!(v.len(), 1);
    assert_eq!(*v.index(0), 42);
    v.push(7);
    assert_eq!(v.len(), 2);
    assert_eq!(*v.index(1), 7);
    assert_eq!(*v.index(0), 42);
}

#[test]
fn length_never_exceeds_capacity() {
    let mut v: Vector<u64> = Vector::new_with_capacity(0);
    for i in 0..100 {
        v.push(i);
        assert!(v.len() <= v.cap());
    }
    v.resize(3);
    assert!(v.len() <= v.cap());
    v.resize(50);
    assert!(v.len() <= v.cap());
}

#[test]
fn explicit_list_builds_in_order() {
    let v: Vector<u64> = Vector::from_vec(vec![7, 8, 9]);
    assert_eq!(v.len(), 3);
    assert_eq!(*v.index(0), 7);
    assert_eq!(*v.index(1), 8);
    assert_eq!(*v.index(2), 9);
}

#[test]
fn repeated_value_builds_count_copies() {
    let v: Vector<u64> = Vector::from_elem(4, 3);
    assert_eq!(v.len(), 3);
    for i in 0..3 {
        assert_eq!(*v.index(i), 4);
    }
}

#[test]
fn resize_shrink_clamps_length() {
    let mut v: Vector<u64> = Vector::new_with_length(5);
    v.resize(3);
    assert_eq!(v.len(), 3);
    assert_eq!(v.cap(), 3);
}

#[test]
fn resize_growth_preserves_elements() {
    let mut v: Vector<u64> = Vector::from_vec(vec![1, 2, 3]);
    let old_cap = v.cap();
    v.resize(old_cap * 4);
    assert_eq!(v.cap(), old_cap * 4);
    assert_eq!(v.len(), 3);
    assert_eq!(*v.index(0), 1);
    assert_eq!(*v.index(1), 2);
    assert_eq!(*v.index(2), 3);
}

#[test]
fn resize_shrink_keeps_surviving_elements() {
    let mut v: Vector<u64> = Vector::from_vec(vec![10, 20, 30, 40, 50]);
    v.resize(2);
    assert_eq!(v.len(), 2);
    assert_eq!(*v.index(0), 10);
    assert_eq!(*v.index(1), 20);
}

#[test]
fn resize_to_same_capacity_changes_nothing() {
    let mut v: Vector<u64> = Vector::from_vec(vec![5, 6]);
    let cap = v.cap();
    v.resize(cap);
    assert_eq!(v.cap(), cap);
    assert_eq!(v.len(), 2);
    assert_eq!(*v.index(0), 5);
    assert_eq!(*v.index(1), 6);
}

#[test]
fn write_then_read_round_trips() {
    let mut v: Vector<u64> = Vector::from_vec(vec![1, 2, 3]);
    *v.index_mut(1) = 99;
    assert_eq!(*v.index(1), 99);
    assert_eq!(*v.index(0), 1);
    assert_eq!(*v.index(2), 3);
    assert_eq!(v.len(), 3);
}

#[test]
fn empty_container_renders_as_brackets() {
    let v: Vector<u64> = Vector::new();
    assert_eq!(v.to_string(), "[]");
}

#[test]
fn elements_render_comma_separated() {
    let v: Vector<u64> = Vector::from_vec(vec![1, 2, 3]);
    assert_eq!(v.to_string(), "[1, 2, 3]");
}

#[test]
fn single_element_renders_without_separator() {
    let mut v: Vector<u64> = Vector::new();
    v.push(5);
    assert_eq!(v.to_string(), "[5]");
}

#[test]
fn debug_form_reports_true_capacity() {
    let v: Vector<u64> = Vector::from_vec(vec![1, 2, 3]);
    assert_eq!(
        v.debug_string(),
        "Vector { length: 3, capacity: 10, elements: [1, 2, 3] }"
    );
}

#[test]
fn decimal_rendering_is_exact() {
    assert_eq!(decimal_str(0), "0");
    assert_eq!(decimal_str(10), "10");
    assert_eq!(decimal_str(907), "907");
    assert_eq!(decimal_str(u64::MAX), "18446744073709551615");
}

#[test]
fn negative_elements_render_with_sign() {
    let v: Vector<i64> = Vector::from_vec(vec![-1, 0, i64::MIN]);
    assert_eq!(v.to_string(), "[-1, 0, -9223372036854775808]");
}

#[test]
fn push_triggered_growth_preserves_elements() {
    let mut v: Vector<u64> = Vector::new_with_capacity(2);
    for i in 0..30 {
        v.push(i);
    }
    assert_eq!(v.len(), 30);
    for i in 0..30 {
        assert_eq!(*v.index(i as usize), i);
    }
}

#[test]
fn default_values_by_element_type() {
    let b: Vector<bool> = Vector::new_with_length(2);
    assert!(!*b.index(0));
    let n: Vector<i64> = Vector::new_with_length(2);
    assert_eq!(*n.index(1), 0);
    let u: Vector<usize> = Vector::new_with_length(2);
    assert_eq!(*u.index(0), 0);
}
