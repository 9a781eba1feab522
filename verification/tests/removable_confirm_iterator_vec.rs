use inplace_iter::removable_confirm_iterator_vec::InplaceRemovableConfirmVecIterator;
use inplace_iter::removable_confirm_iterator_vec::RemovableConfirmIterator;

fn remove_even(confirm: &mut InplaceRemovableConfirmVecIterator<i32, true>) {
    confirm.iter();
    while let Some(item) = confirm.next() {
        if *item.get_value(confirm) % 2 == 0 {
            item.remove_value(confirm);
        }
    }
}

fn collect(confirm: &mut InplaceRemovableConfirmVecIterator<i32, true>) -> Vec<i32> {
    let mut seen = Vec::new();
    confirm.iter();
    while let Some(item) = confirm.next() {
        seen.push(*item.get_value(confirm));
    }
    seen
}

#[test]
fn confirm_iterator_confirm_drops_the_removed_elements() {
    let numbers = vec![1, 2, 3, 4, 5];
    let mut confirm = InplaceRemovableConfirmVecIterator::new(numbers);
    remove_even(&mut confirm);
    // later passes do not see what was removed
    assert_eq!(collect(&mut confirm), vec![1, 5, 3]);
    assert_eq!(collect(&mut confirm), vec![1, 5, 3]);
    let numbers = confirm.confirm_removals();
    assert_eq!(numbers, vec![1, 5, 3]);
}

#[test]
fn confirm_iterator_cancel_keeps_every_element() {
    let numbers = vec![1, 2, 3, 4, 5];
    let mut confirm = InplaceRemovableConfirmVecIterator::new(numbers);
    remove_even(&mut confirm);
    let numbers = confirm.cancel_removals();
    assert_eq!(numbers.len(), 5);
    assert_eq!(numbers, vec![1, 5, 3, 4, 2]);
    let mut sorted = numbers.clone();
    sorted.sort();
    assert_eq!(sorted, vec![1, 2, 3, 4, 5]);
}

#[test]
fn confirm_iterator_without_removals_changes_nothing() {
    let numbers = vec![3, 1, 2];
    let mut confirm = InplaceRemovableConfirmVecIterator::new(numbers);
    assert_eq!(collect(&mut confirm), vec![3, 1, 2]);
    assert_eq!(confirm.confirm_removals(), vec![3, 1, 2]);
}

#[test]
fn confirm_iterator_never_started_confirms_the_whole_vector() {
    let numbers = vec![3, 1, 2];
    let confirm = InplaceRemovableConfirmVecIterator::new(numbers);
    assert_eq!(confirm.confirm_removals(), vec![3, 1, 2]);
}

#[test]
fn confirm_iterator_can_be_used_without_calling_iter_first() {
    let numbers = vec![1, 2, 3];
    let mut confirm = InplaceRemovableConfirmVecIterator::new(numbers);
    let first = confirm.next().unwrap();
    assert_eq!(first.get_value(&confirm), &1);
    let second = confirm.next_item().unwrap();
    assert_eq!(second.get_value(&confirm), &2);
    second.remove_value(&mut confirm);
    let third = confirm.next().unwrap();
    assert_eq!(third.get_value(&confirm), &3);
    assert!(confirm.next().is_none());
    assert_eq!(confirm.confirm_removals(), vec![1, 3]);
}

#[test]
fn confirm_iterator_remove_all_then_confirm_is_empty() {
    let numbers = vec![1, 2, 3, 4];
    let mut confirm = InplaceRemovableConfirmVecIterator::new(numbers);
    confirm.iter();
    while let Some(item) = confirm.next() {
        item.remove_value(&mut confirm);
    }
    assert!(collect(&mut confirm).is_empty());
    assert!(confirm.confirm_removals().is_empty());
}

#[test]
fn confirm_iterator_remove_all_then_cancel_has_every_element() {
    let numbers = vec![1, 2, 3, 4];
    let mut confirm = InplaceRemovableConfirmVecIterator::new(numbers);
    confirm.iter();
    while let Some(item) = confirm.next() {
        item.remove_value(&mut confirm);
    }
    let numbers = confirm.cancel_removals();
    // each removal trades places with the last kept element
    assert_eq!(numbers, vec![2, 3, 4, 1]);
}

#[test]
fn confirm_iterator_removals_add_up_over_passes() {
    let numbers = vec![1, 2, 3, 4, 5, 6];
    let mut confirm = InplaceRemovableConfirmVecIterator::new(numbers);
    remove_even(&mut confirm);
    assert_eq!(collect(&mut confirm), vec![1, 5, 3]);
    confirm.iter();
    while let Some(item) = confirm.next() {
        if *item.get_value(&confirm) == 1 {
            item.remove_value(&mut confirm);
        }
    }
    assert_eq!(collect(&mut confirm), vec![3, 5]);
    assert_eq!(confirm.confirm_removals(), vec![3, 5]);
}

#[test]
fn confirm_iterator_restart_in_the_middle_of_a_pass() {
    let numbers = vec![1, 2, 3];
    let mut confirm = InplaceRemovableConfirmVecIterator::new(numbers);
    confirm.iter();
    let first = confirm.next().unwrap();
    first.remove_value(&mut confirm);
    // a new pass starts at the front even though a removal was pending
    assert_eq!(collect(&mut confirm), vec![3, 2]);
    assert_eq!(confirm.cancel_removals(), vec![3, 2, 1]);
}

#[test]
fn confirm_iterator_changes_survive_a_cancel() {
    let numbers = vec![1, 2, 3, 4, 5];
    let mut confirm = InplaceRemovableConfirmVecIterator::new(numbers);
    confirm.iter();
    while let Some(item) = confirm.next() {
        if *item.get_value(&confirm) % 2 == 0 {
            item.remove_value(&mut confirm);
        } else {
            *item.get_value_mut(&mut confirm) *= 2;
        }
    }
    assert_eq!(confirm.cancel_removals(), vec![2, 10, 6, 4, 2]);
}

#[test]
fn confirm_iterator_changes_survive_a_confirm() {
    let numbers = vec![1, 2, 3, 4, 5];
    let mut confirm = InplaceRemovableConfirmVecIterator::new(numbers);
    confirm.iter();
    while let Some(item) = confirm.next() {
        if *item.get_value(&confirm) % 2 == 0 {
            item.remove_value(&mut confirm);
        } else {
            *item.get_value_mut(&mut confirm) *= 2;
        }
    }
    assert_eq!(confirm.confirm_removals(), vec![2, 10, 6]);
}

#[test]
fn confirm_iterator_on_an_empty_vector() {
    let numbers: Vec<i32> = Vec::new();
    let mut confirm = InplaceRemovableConfirmVecIterator::new(numbers);
    confirm.iter();
    assert!(confirm.next().is_none());
    assert!(confirm.next().is_none());
    assert!(confirm.cancel_removals().is_empty());
}

#[test]
fn confirm_item_goes_stale_on_the_next_advance_and_on_a_restart() {
    let numbers = vec![1, 2, 3];
    let mut confirm = InplaceRemovableConfirmVecIterator::new(numbers);
    confirm.iter();
    let saved = confirm.next().unwrap();
    assert!(!saved.check_rotten(&confirm));
    let current = confirm.next().unwrap();
    assert!(saved.check_rotten(&confirm));
    assert!(!current.check_rotten(&confirm));
    confirm.iter();
    assert!(current.check_rotten(&confirm));
    let first_again = confirm.next().unwrap();
    // the handle of the first pass stands for the same position, and is stale all the same
    assert!(saved.check_rotten(&confirm));
    assert!(!first_again.check_rotten(&confirm));
}

#[test]
fn confirm_iterator_advance_through_the_trait() {
    let numbers = vec![1, 2, 3];
    let mut confirm = InplaceRemovableConfirmVecIterator::new(numbers);
    confirm.iter();
    let first = confirm.advance().unwrap();
    assert_eq!(first.get_value(&confirm), &1);
    first.remove_value(&mut confirm);
    let moved = confirm.advance().unwrap();
    assert_eq!(moved.get_value(&confirm), &3);
    let second = confirm.advance().unwrap();
    assert_eq!(second.get_value(&confirm), &2);
    assert!(confirm.advance().is_none());
    assert!(confirm.advance().is_none());
    assert_eq!(confirm.confirm_removals(), vec![3, 2]);
}

#[test]
fn confirm_iterator_unguarded_removes_the_same_way() {
    let numbers = vec![1, 2, 3, 4, 5];
    let mut confirm = InplaceRemovableConfirmVecIterator::new_unguarded(numbers);
    confirm.iter();
    while let Some(item) = confirm.next() {
        if *item.get_value(&confirm) % 2 == 0 {
            item.remove_value(&mut confirm);
        }
    }
    assert_eq!(confirm.cancel_removals(), vec![1, 5, 3, 4, 2]);
}
