use singly_linked_list::linkedlist::LinkedList;

/// An element type without `Clone`.
struct Token(u8);

fn contents<T: Clone>(list: &LinkedList<T>) -> Vec<T> {
    list.iter().collect()
}

#[test]
fn new_list_holds_nothing() {
    let mut list: LinkedList<u32> = LinkedList::new();
    assert_eq!(contents(&list), Vec::<u32>::new());
    assert_eq!(list.pop_front(), None);
}

#[test]
fn push_back_keeps_insertion_order() {
    let mut list = LinkedList::new();
    for value in [10, 20, 30, 40, 50] {
        list.push_back(value);
    }
    assert_eq!(contents(&list), vec![10, 20, 30, 40, 50]);
}

#[test]
fn push_front_reverses_insertion_order() {
    let mut list = LinkedList::new();
    for value in [10, 20, 30, 40, 50] {
        list.push_front(value);
    }
    assert_eq!(contents(&list), vec![50, 40, 30, 20, 10]);
}

#[test]
fn push_back_on_empty_list_equals_push_front() {
    let mut by_back = LinkedList::new();
    by_back.push_back('a');
    let mut by_front = LinkedList::new();
    by_front.push_front('a');
    assert_eq!(contents(&by_back), vec!['a']);
    assert_eq!(contents(&by_back), contents(&by_front));
}

#[test]
fn pop_front_on_empty_list_keeps_returning_none() {
    let mut list: LinkedList<String> = LinkedList::new();
    for _ in 0..5 {
        assert_eq!(list.pop_front(), None);
        assert_eq!(contents(&list), Vec::<String>::new());
    }
    list.push_back("still usable".to_string());
    assert_eq!(list.pop_front(), Some("still usable".to_string()));
    assert_eq!(list.pop_front(), None);
    assert_eq!(list.pop_front(), None);
}

#[test]
fn push_front_then_pop_front_leaves_empty_list_empty() {
    let mut list = LinkedList::new();
    list.push_front(7);
    assert_eq!(list.pop_front(), Some(7));
    assert_eq!(contents(&list), Vec::<i32>::new());
    assert_eq!(list.pop_front(), None);
}

#[test]
fn push_front_then_pop_front_restores_longer_list() {
    let mut list = LinkedList::new();
    list.push_back(1);
    list.push_back(2);
    list.push_back(3);
    list.push_front(99);
    assert_eq!(contents(&list), vec![99, 1, 2, 3]);
    assert_eq!(list.pop_front(), Some(99));
    assert_eq!(contents(&list), vec![1, 2, 3]);
}

#[test]
fn pop_front_promotes_the_second_node() {
    let mut list = LinkedList::new();
    list.push_back("first");
    list.push_back("second");
    list.push_back("third");
    assert_eq!(list.pop_front(), Some("first"));
    assert_eq!(contents(&list), vec!["second", "third"]);
    assert_eq!(list.pop_front(), Some("second"));
    assert_eq!(contents(&list), vec!["third"]);
    assert_eq!(list.pop_front(), Some("third"));
    assert_eq!(contents(&list), Vec::<&str>::new());
    assert_eq!(list.pop_front(), None);
}

#[test]
fn interleaved_pushes_then_pop_then_iterate() {
    let mut list: LinkedList<String> = LinkedList::new();
    list.push_back("Lol".to_string());
    list.push_front("Such wow".to_string());
    list.push_back("rofl".to_string());
    list.push_back("kekw".to_string());
    list.push_back("x'D".to_string());
    assert_eq!(list.pop_front(), Some("Such wow".to_string()));
    assert_eq!(contents(&list), vec!["Lol", "rofl", "kekw", "x'D"]);
}

#[test]
fn mixed_pushes_add_one_element_each() {
    let mut list = LinkedList::new();
    let mut pushed_back = Vec::new();
    let mut pushed_front = Vec::new();
    for value in 0..12u32 {
        if value % 3 == 0 {
            list.push_front(value);
            pushed_front.push(value);
        } else {
            list.push_back(value);
            pushed_back.push(value);
        }
    }
    assert_eq!(pushed_front.len(), 4);
    assert_eq!(pushed_back.len(), 8);
    let held = contents(&list);
    assert_eq!(held.len(), 12);
    assert_eq!(held, vec![9, 6, 3, 0, 1, 2, 4, 5, 7, 8, 10, 11]);
    let mut sorted = held.clone();
    sorted.sort();
    assert_eq!(sorted, (0..12).collect::<Vec<u32>>());
}

#[test]
fn no_pushes_give_length_zero() {
    let list: LinkedList<u8> = LinkedList::new();
    assert_eq!(contents(&list).len(), 0);
}

#[test]
fn only_front_pushes_give_their_count() {
    let mut list = LinkedList::new();
    for value in 0..6 {
        list.push_front(value);
    }
    assert_eq!(contents(&list).len(), 6);
}

#[test]
fn equal_elements_are_kept_apart() {
    let mut list = LinkedList::new();
    list.push_back(5);
    list.push_back(5);
    list.push_front(5);
    assert_eq!(contents(&list), vec![5, 5, 5]);
    assert_eq!(list.pop_front(), Some(5));
    assert_eq!(contents(&list), vec![5, 5]);
}

#[test]
fn list_is_usable_again_after_being_emptied() {
    let mut list = LinkedList::new();
    list.push_back(1);
    list.push_back(2);
    assert_eq!(list.pop_front(), Some(1));
    assert_eq!(list.pop_front(), Some(2));
    assert_eq!(list.pop_front(), None);
    list.push_back(3);
    list.push_front(4);
    assert_eq!(contents(&list), vec![4, 3]);
}

#[test]
fn long_list_keeps_every_element_in_order() {
    let mut list = LinkedList::new();
    for value in 0..2000u32 {
        list.push_back(value);
    }
    assert_eq!(contents(&list), (0..2000).collect::<Vec<u32>>());
    for value in 0..2000u32 {
        assert_eq!(list.pop_front(), Some(value));
    }
    assert_eq!(list.pop_front(), None);
}

#[test]
fn elements_need_not_be_cloneable_to_be_pushed_and_popped() {
    let mut list = LinkedList::new();
    list.push_back(Token(1));
    list.push_front(Token(2));
    assert_eq!(list.pop_front().map(|token| token.0), Some(2));
    assert_eq!(list.pop_front().map(|token| token.0), Some(1));
    assert!(list.pop_front().is_none());
}
