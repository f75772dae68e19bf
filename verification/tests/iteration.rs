use soa_iter::soa::SoaVec;

#[test]
fn three_records_iter_matches_columns() {
    let mut s = SoaVec::new(2);
    s.push_record(&vec![1, 10]);
    s.push_record(&vec![2, 20]);
    s.push_record(&vec![3, 30]);

    let mut it = s.iter();
    assert_eq!(s.next(&mut it), Some(vec![1, 10]));
    assert_eq!(s.next(&mut it), Some(vec![2, 20]));
    assert_eq!(s.next(&mut it), Some(vec![3, 30]));
    assert_eq!(s.next(&mut it), None);
    assert_eq!(s.next(&mut it), None);
}

#[test]
fn mutable_pass_doubles_second_field() {
    let mut s = SoaVec::new(2);
    s.push_record(&vec![1, 10]);
    s.push_record(&vec![2, 20]);
    s.push_record(&vec![3, 30]);

    let mut it = s.iter_mut();
    loop {
        let view = match s.next_mut(&mut it) {
            Some(view) => view,
            None => break,
        };
        let y = s.get_field(&view, 1);
        s.set_field(&view, 1, 2 * y);
    }

    let records = s.collect_records();
    assert_eq!(records, vec![vec![1, 20], vec![2, 40], vec![3, 60]]);
}

#[test]
fn mutable_pass_positional_correspondence() {
    let mut s = SoaVec::new(3);
    s.push_record(&vec![7, 8, 9]);
    s.push_record(&vec![70, 80, 90]);

    let mut it = s.iter_mut();
    let first = s.next_mut(&mut it).unwrap();
    assert_eq!(first.coords, vec![0, 0, 0]);
    assert_eq!(s.get_field(&first, 0), 7);
    assert_eq!(s.get_field(&first, 1), 8);
    assert_eq!(s.get_field(&first, 2), 9);
    let second = s.next_mut(&mut it).unwrap();
    assert_eq!(second.coords, vec![1, 1, 1]);
    assert_eq!(s.get_field(&second, 2), 90);
    assert!(s.next_mut(&mut it).is_none());
}

#[test]
fn empty_single_field_signals_end() {
    let s = SoaVec::new(1);
    let mut it = s.iter();
    assert_eq!(s.next(&mut it), None);
    assert_eq!(s.collect_records(), Vec::<Vec<i64>>::new());
}

#[test]
fn empty_multi_field_signals_end() {
    let s = SoaVec::new(3);
    let mut it = s.iter();
    assert_eq!(s.next(&mut it), None);
    assert!(s.collect_records().is_empty());
}

#[test]
fn five_field_views_map_positions() {
    let mut s = SoaVec::new(5);
    s.push_record(&vec![1, 2, 3, 4, 5]);
    s.push_record(&vec![10, 20, 30, 40, 50]);

    let records = s.collect_records();
    assert_eq!(records.len(), 2);
    assert_eq!(records[0], vec![1, 2, 3, 4, 5]);
    assert_eq!(records[1], vec![10, 20, 30, 40, 50]);

    let mut it = s.iter();
    assert_eq!(s.next(&mut it), Some(vec![1, 2, 3, 4, 5]));
    assert_eq!(s.next(&mut it), Some(vec![10, 20, 30, 40, 50]));
    assert_eq!(s.next(&mut it), None);
}

#[test]
fn first_field_gates_termination() {
    // Synthetic unequal columns: the first column is shorter. The step
    // function must report end-of-sequence from column 0 alone, while
    // still advancing every cursor once per step.
    let s = SoaVec { columns: vec![vec![1], vec![10, 20]] };
    let mut it = s.iter();
    assert_eq!(s.next(&mut it), Some(vec![1, 10]));
    assert_eq!(it.pos, vec![1, 1]);
    assert_eq!(s.next(&mut it), None);
    assert_eq!(it.pos, vec![1, 2]);
    assert_eq!(s.next(&mut it), None);
    assert_eq!(it.pos, vec![1, 2]);
}

#[test]
fn collect_after_push_sees_new_record() {
    let mut s = SoaVec::new(2);
    s.push_record(&vec![5, 6]);
    assert_eq!(s.collect_records(), vec![vec![5, 6]]);
    s.push_record(&vec![7, 8]);
    assert_eq!(s.collect_records(), vec![vec![5, 6], vec![7, 8]]);
}
