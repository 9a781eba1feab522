use inplace_iter::prelude::InplaceVector;
use inplace_iter::prelude::RemovableConfirmIterator;
use inplace_iter::removable_iterator::RemovableItem;
use inplace_iter::removable_iterator::RemovableItemMut;
use inplace_iter::takeable_iterator::TakeableItem;
use inplace_iter::takeable_iterator::TakeableItemMut;

#[test]
fn vector_removable_iter_removes_even_numbers() {
    let numbers = vec![1, 2, 3, 4, 5];
    let mut cursor = numbers.removable_iter();
    while let Some(item) = cursor.next() {
        if *RemovableItem::get(&item, &cursor) % 2 == 0 {
            RemovableItem::remove(item, &mut cursor);
        }
    }
    let numbers = cursor.into_inner();
    assert_eq!(numbers.len(), 3);
    assert_eq!(numbers, vec![1, 5, 3]);
}

#[test]
fn vector_removable_iter_mut_removes_even_and_doubles_odd() {
    let numbers = vec![1, 2, 3, 4, 5];
    let mut cursor = numbers.removable_iter_mut();
    while let Some(mut item) = cursor.next() {
        if *RemovableItemMut::get(&item, &cursor) % 2 == 0 {
            RemovableItemMut::remove(item, &mut cursor);
        } else {
            *RemovableItemMut::get_mut(&mut item, &mut cursor) *= 2;
        }
    }
    let numbers = cursor.into_inner();
    assert_eq!(numbers.len(), 3);
    assert_eq!(numbers, vec![2, 10, 6]);
}

#[test]
fn vector_takeable_iter_takes_values_above_three() {
    let numbers = vec![1, 2, 3, 4, 5];
    let mut sum = 0;
    let mut cursor = numbers.takeable_iter();
    while let Some(item) = cursor.next() {
        if *TakeableItem::get(&item, &cursor) > 3 {
            sum += TakeableItem::take(item, &mut cursor);
        }
    }
    let numbers = cursor.into_inner();
    assert_eq!(sum, 9);
    assert_eq!(numbers.len(), 3);
}

#[test]
fn vector_takeable_iter_mut_takes_above_three_and_doubles_the_rest() {
    let numbers = vec![1, 2, 3, 4, 5];
    let mut sum = 0;
    let mut cursor = numbers.takeable_iter_mut();
    while let Some(item) = cursor.next() {
        if *TakeableItemMut::get(&item, &cursor) > 3 {
            sum += TakeableItemMut::take(item, &mut cursor);
        } else {
            *TakeableItemMut::get_mut(&item, &mut cursor) *= 2;
        }
    }
    let numbers = cursor.into_inner();
    assert_eq!(sum, 9);
    assert_eq!(numbers.len(), 3);
    assert_eq!(numbers, vec![2, 4, 6]);
}

#[test]
fn vector_takeable_iter_takes_long_names() {
    let names = vec!["Alice".to_string(), "Bob".to_string(), "Charlie".to_string()];
    let mut long_names = Vec::new();
    let mut cursor = names.takeable_iter();
    while let Some(item) = cursor.next() {
        if TakeableItem::get(&item, &cursor).len() > 4 {
            long_names.push(TakeableItem::take(item, &mut cursor));
        }
    }
    let names = cursor.into_inner();
    assert_eq!(long_names, vec!["Alice", "Charlie"]);
    assert_eq!(names.len(), 1);
    assert_eq!(names[0], "Bob");
}

#[test]
fn vector_removable_confirm_iter_confirm() {
    let numbers = vec![1, 2, 3, 4, 5];
    let mut confirm = numbers.removable_confirm_iter();
    confirm.iter();
    while let Some(item) = confirm.next() {
        if *RemovableItem::get(&item, &confirm) % 2 == 0 {
            RemovableItem::remove(item, &mut confirm);
        }
    }
    let mut next_iter = Vec::new();
    confirm.iter();
    while let Some(item) = confirm.next() {
        next_iter.push(*RemovableItem::get(&item, &confirm));
    }
    assert_eq!(next_iter, vec![1, 5, 3]);
    let numbers = confirm.confirm_removals();
    assert_eq!(numbers, vec![1, 5, 3]);
}

#[test]
fn vector_removable_confirm_iter_cancel() {
    let numbers = vec![1, 2, 3, 4, 5];
    let mut confirm = numbers.removable_confirm_iter();
    confirm.iter();
    while let Some(item) = confirm.next() {
        if *RemovableItem::get(&item, &confirm) % 2 == 0 {
            RemovableItem::remove(item, &mut confirm);
        }
    }
    let numbers = confirm.cancel_removals();
    assert_eq!(numbers, vec![1, 5, 3, 4, 2]);
}

#[test]
fn vector_removable_confirm_iter_mut_keeps_changes_after_cancel() {
    let numbers = vec![1, 2, 3, 4, 5];
    let mut confirm = numbers.removable_confirm_iter_mut();
    confirm.iter();
    while let Some(mut item) = confirm.next() {
        if *RemovableItemMut::get(&item, &confirm) % 2 == 0 {
            RemovableItemMut::remove(item, &mut confirm);
        } else {
            *RemovableItemMut::get_mut(&mut item, &mut confirm) += 10;
        }
    }
    let numbers = confirm.cancel_removals();
    assert_eq!(numbers, vec![11, 15, 13, 4, 2]);
}
