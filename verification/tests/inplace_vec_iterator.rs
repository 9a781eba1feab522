use inplace_iter::inplace_vec_iterator::InplaceVecIterator;

#[test]
fn inplace_iterator_visits_every_element_in_order() {
    let v = vec![1, 2, 3, 4, 5];
    let mut cursor = InplaceVecIterator::new(v);
    let mut seen = Vec::new();
    while let Some(item) = cursor.next() {
        seen.push(*item.get_value(&cursor));
    }
    assert_eq!(seen, vec![1, 2, 3, 4, 5]);
    assert_eq!(cursor.into_inner(), vec![1, 2, 3, 4, 5]);
}

#[test]
fn inplace_iterator_take_value_returns_the_element() {
    let v = vec!["a".to_string(), "b".to_string(), "c".to_string()];
    let mut cursor = InplaceVecIterator::new(v);
    let first = cursor.next().unwrap();
    assert_eq!(first.take_value(&mut cursor), "a");
    // the last element has moved to the front and is visited next
    let moved = cursor.next().unwrap();
    assert_eq!(moved.get_value(&cursor), "c");
    let second = cursor.next().unwrap();
    assert_eq!(second.get_value(&cursor), "b");
    assert!(cursor.next().is_none());
    assert_eq!(cursor.into_inner(), vec!["c".to_string(), "b".to_string()]);
}

#[test]
fn inplace_iterator_take_value_of_the_last_element_moves_nothing() {
    let v = vec![1, 2, 3];
    let mut cursor = InplaceVecIterator::new(v);
    cursor.next();
    cursor.next();
    let last = cursor.next().unwrap();
    assert_eq!(last.take_value(&mut cursor), 3);
    assert!(cursor.next().is_none());
    assert_eq!(cursor.into_inner(), vec![1, 2]);
}

#[test]
fn inplace_iterator_take_value_of_the_only_element() {
    let v = vec![9];
    let mut cursor = InplaceVecIterator::new(v);
    let only = cursor.next().unwrap();
    assert_eq!(only.take_value(&mut cursor), 9);
    assert!(cursor.next().is_none());
    assert!(cursor.next().is_none());
    assert!(cursor.into_inner().is_empty());
}

#[test]
fn inplace_iterator_get_value_mut_writes_into_the_vector() {
    let v = vec![1, 2, 3];
    let mut cursor = InplaceVecIterator::new(v);
    while let Some(item) = cursor.next() {
        *item.get_value_mut(&mut cursor) *= 10;
        assert!(!item.check_rotten(&cursor));
    }
    assert_eq!(cursor.into_inner(), vec![10, 20, 30]);
}

#[test]
fn inplace_iterator_removes_even_and_doubles_odd() {
    let v = vec![1, 2, 3, 4, 5];
    let mut cursor = InplaceVecIterator::new(v);
    while let Some(item) = cursor.next() {
        if *item.get_value(&cursor) % 2 == 0 {
            let _ = item.take_value(&mut cursor);
        } else {
            *item.get_value_mut(&mut cursor) *= 2;
        }
    }
    let v = cursor.into_inner();
    assert_eq!(v.len(), 3);
    assert_eq!(v, vec![2, 10, 6]);
}

#[test]
fn inplace_iterator_takes_above_three_and_doubles_the_rest() {
    let v = vec![1, 2, 3, 4, 5];
    let mut sum = 0;
    let mut cursor = InplaceVecIterator::new(v);
    while let Some(item) = cursor.next() {
        if *item.get_value(&cursor) > 3 {
            sum += item.take_value(&mut cursor);
        } else {
            *item.get_value_mut(&mut cursor) *= 2;
        }
    }
    let v = cursor.into_inner();
    assert_eq!(sum, 9);
    assert_eq!(v.len(), 3);
    assert_eq!(v, vec![2, 4, 6]);
}

#[test]
fn inplace_iterator_remove_all_leaves_nothing() {
    let v = vec![5, 4, 3, 2, 1];
    let mut cursor = InplaceVecIterator::new(v);
    let mut count = 0;
    while let Some(item) = cursor.next() {
        let _ = item.take_value(&mut cursor);
        count += 1;
    }
    assert_eq!(count, 5);
    assert!(cursor.into_inner().is_empty());
}

#[test]
fn inplace_iterator_keeps_the_multiset_of_survivors() {
    let v = vec![4, 1, 4, 2, 4, 3, 4];
    let mut cursor = InplaceVecIterator::new(v);
    while let Some(item) = cursor.next() {
        if *item.get_value(&cursor) == 4 {
            let _ = item.take_value(&mut cursor);
        }
    }
    let mut v = cursor.into_inner();
    v.sort();
    assert_eq!(v, vec![1, 2, 3]);
}

#[test]
fn inplace_iterator_on_an_empty_vector() {
    let v: Vec<i32> = Vec::new();
    let mut cursor = InplaceVecIterator::new(v);
    assert!(cursor.next().is_none());
    assert!(cursor.next().is_none());
    assert!(cursor.into_inner().is_empty());
}

#[test]
fn inplace_item_is_fresh_until_the_next_advance() {
    let v = vec![1, 2, 3, 4, 5];
    let mut cursor = InplaceVecIterator::new(v);
    let saved = cursor.next().unwrap();
    assert!(!saved.check_rotten(&cursor));
    assert_eq!(saved.get_value(&cursor), &1);
    let current = cursor.next().unwrap();
    assert!(saved.check_rotten(&cursor));
    assert!(!current.check_rotten(&cursor));
}

#[test]
fn inplace_item_is_stale_after_rotten_item() {
    let v = vec![1, 2];
    let mut cursor = InplaceVecIterator::new(v);
    let item = cursor.next().unwrap();
    cursor.rotten_item();
    assert!(item.check_rotten(&cursor));
    // the pass itself goes on
    let second = cursor.next().unwrap();
    assert_eq!(second.get_value(&cursor), &2);
}

#[test]
fn inplace_item_of_an_earlier_position_is_stale_after_a_removal_in_between() {
    let v = vec![1, 2, 3];
    let mut cursor = InplaceVecIterator::new(v);
    let first = cursor.next().unwrap();
    let second = cursor.next().unwrap();
    let _ = second.take_value(&mut cursor);
    assert!(first.check_rotten(&cursor));
    let again = cursor.next().unwrap();
    assert!(first.check_rotten(&cursor));
    assert_eq!(again.get_value(&cursor), &3);
}

#[test]
fn inplace_iterator_unguarded_works_the_same_way() {
    let v = vec![1, 2, 3, 4, 5];
    let mut sum = 0;
    let mut cursor = InplaceVecIterator::new_unguarded(v);
    while let Some(item) = cursor.next() {
        if *item.get_value(&cursor) > 3 {
            sum += item.take_value(&mut cursor);
        } else {
            *item.get_value_mut(&mut cursor) *= 2;
        }
    }
    assert_eq!(sum, 9);
    assert_eq!(cursor.into_inner(), vec![2, 4, 6]);
}

#[test]
fn inplace_iterator_unguarded_still_tells_stale_handles() {
    let v = vec![1, 2, 3];
    let mut cursor = InplaceVecIterator::new_unguarded(v);
    let saved = cursor.next().unwrap();
    assert!(!saved.check_rotten(&cursor));
    let _ = cursor.next().unwrap();
    assert!(saved.check_rotten(&cursor));
}
