use vector_shooter::collections::{keep_last, remove_indices};

#[test]
fn remove_indices_sorted_and_deduplicated() {
    let mut v = vec![10, 11, 12, 13, 14, 15];
    remove_indices(&mut v, &vec![4, 1, 4, 0]);
    assert_eq!(v, vec![12, 13, 15]);
}

#[test]
fn remove_indices_nothing_listed() {
    let mut v = vec!['a', 'b', 'c'];
    remove_indices(&mut v, &vec![]);
    assert_eq!(v, vec!['a', 'b', 'c']);
}

#[test]
fn keep_last_caps_trail() {
    let mut v: Vec<u32> = (0..130).collect();
    keep_last(&mut v, 120);
    assert_eq!(v.len(), 120);
    assert_eq!(v[0], 10);
    assert_eq!(v[119], 129);
    let mut short = vec![1, 2, 3];
    keep_last(&mut short, 120);
    assert_eq!(short, vec![1, 2, 3]);
}
