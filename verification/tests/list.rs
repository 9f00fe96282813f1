use rusty_list::FloatBits;
use rusty_list::List;
use rusty_list::ListItem;

fn float(value: f64) -> FloatBits {
    FloatBits { bits: value.to_bits() }
}

fn render(item: &ListItem) -> String {
    match item.to_text() {
        Some(text) => text,
        None => match item {
            ListItem::Float(value) => f64::from_bits(value.bits).to_string(),
            _ => unreachable!(),
        },
    }
}

fn rendered(list: &List) -> Vec<String> {
    let mut texts = Vec::new();
    for item in list.iter() {
        texts.push(render(item));
    }
    texts
}

#[test]
fn new_list_is_empty() {
    let list = List::new();
    assert_eq!(list.len(), 0);
    assert_eq!(list.get::<i32>(0), None);
    assert!(list.iter().next().is_none());
}

#[test]
fn mixed_inserts_read_back_by_type() {
    let mut list = List::new();
    list.insert(42);
    list.insert(String::from("hello"));
    list.insert(float(3.14));
    assert_eq!(list.len(), 3);
    assert_eq!(list.get::<i32>(0), Some(&42));
    assert_eq!(list.get::<String>(1), Some(&String::from("hello")));
    assert_eq!(list.get::<i32>(1), None);
    assert_eq!(list.get::<FloatBits>(2).map(|v| f64::from_bits(v.bits)), Some(3.14));
    assert_eq!(rendered(&list), vec!["42", "hello", "3.14"]);
}

#[test]
fn insert_then_get_first() {
    let mut list = List::new();
    list.insert(42);
    assert_eq!(list.get::<i32>(0), Some(&42));
}

#[test]
fn len_counts_inserts_since_clear() {
    let mut list = List::new();
    for n in 0..5 {
        assert_eq!(list.len(), n as usize);
        list.insert(n);
    }
    assert_eq!(list.len(), 5);
    list.insert_at_beginning(String::from("front"));
    assert_eq!(list.len(), 6);
    list.replace(2, 9).unwrap();
    assert_eq!(list.len(), 6);
    list.clear();
    assert_eq!(list.len(), 0);
    list.insert(1);
    list.insert(2);
    assert_eq!(list.len(), 2);
}

#[test]
fn insert_then_get_last() {
    let mut list = List::new();
    list.insert(String::from("a"));
    list.insert(7);
    assert_eq!(list.get::<i32>(list.len() - 1), Some(&7));
    list.insert(String::from("tail"));
    assert_eq!(list.get::<String>(list.len() - 1), Some(&String::from("tail")));
    list.insert(float(-0.5));
    assert_eq!(list.get::<FloatBits>(list.len() - 1), Some(&float(-0.5)));
}

#[test]
fn get_as_another_type_is_none() {
    let mut list = List::new();
    list.insert(1);
    list.insert(String::from("one"));
    list.insert(float(1.0));
    assert_eq!(list.get::<String>(0), None);
    assert_eq!(list.get::<FloatBits>(0), None);
    assert_eq!(list.get::<i32>(1), None);
    assert_eq!(list.get::<FloatBits>(1), None);
    assert_eq!(list.get::<i32>(2), None);
    assert_eq!(list.get::<String>(2), None);
    assert!(list.get_mut::<String>(0).is_none());
    assert!(list.get_mut::<i32>(2).is_none());
}

#[test]
fn get_out_of_bounds_is_none() {
    let mut list = List::new();
    list.insert(1);
    assert_eq!(list.get::<i32>(1), None);
    assert_eq!(list.get::<i32>(usize::MAX), None);
    assert!(list.get_mut::<i32>(1).is_none());
    assert!(list.get_mut::<i32>(usize::MAX).is_none());
}

#[test]
fn replace_out_of_bounds_changes_nothing() {
    let mut list = List::new();
    list.insert(1);
    list.insert(String::from("two"));
    assert_eq!(list.replace(2, 3), Err("Index out of range"));
    assert_eq!(list.replace(usize::MAX, String::from("x")), Err("Index out of range"));
    assert_eq!(list.len(), 2);
    assert_eq!(list.get::<i32>(0), Some(&1));
    assert_eq!(list.get::<String>(1), Some(&String::from("two")));
}

#[test]
fn replace_on_empty_list_fails() {
    let mut list = List::new();
    assert_eq!(list.replace(0, 1), Err("Index out of range"));
    assert_eq!(list.len(), 0);
}

#[test]
fn replace_changes_one_item() {
    let mut list = List::new();
    list.insert(42);
    list.replace(0, 43).unwrap();
    assert_eq!(list.get::<i32>(0), Some(&43));

    list.insert(String::from("b"));
    list.insert(float(2.5));
    assert_eq!(list.replace(1, 7), Ok(()));
    assert_eq!(list.len(), 3);
    assert_eq!(list.get::<i32>(0), Some(&43));
    assert_eq!(list.get::<i32>(1), Some(&7));
    assert_eq!(list.get::<String>(1), None);
    assert_eq!(list.get::<FloatBits>(2), Some(&float(2.5)));
}

#[test]
fn replace_may_change_the_type() {
    let mut list = List::new();
    list.insert(1);
    list.replace(0, String::from("one")).unwrap();
    assert_eq!(list.get::<i32>(0), None);
    assert_eq!(list.get::<String>(0), Some(&String::from("one")));
    list.replace(0, float(1.0)).unwrap();
    assert_eq!(list.get::<String>(0), None);
    assert_eq!(list.get::<FloatBits>(0), Some(&float(1.0)));
}

#[test]
fn insert_at_beginning_shifts_the_rest() {
    let mut list = List::new();
    list.insert(1);
    list.insert(String::from("two"));
    list.insert(float(3.0));
    list.insert_at_beginning(0);
    assert_eq!(list.len(), 4);
    assert_eq!(list.get::<i32>(0), Some(&0));
    assert_eq!(list.get::<i32>(1), Some(&1));
    assert_eq!(list.get::<String>(2), Some(&String::from("two")));
    assert_eq!(list.get::<FloatBits>(3), Some(&float(3.0)));
}

#[test]
fn insert_at_beginning_of_empty_list() {
    let mut list = List::new();
    list.insert_at_beginning(String::from("only"));
    assert_eq!(list.len(), 1);
    assert_eq!(list.get::<String>(0), Some(&String::from("only")));
}

#[test]
fn clear_removes_everything() {
    let mut list = List::new();
    list.insert(42);
    list.insert(String::from("x"));
    list.clear();
    assert_eq!(list.len(), 0);
    assert_eq!(list.get::<i32>(0), None);
    assert_eq!(list.get::<String>(0), None);
    assert_eq!(list.get::<FloatBits>(0), None);
    assert!(list.iter().next().is_none());
    list.clear();
    assert_eq!(list.len(), 0);
}

#[test]
fn get_mut_changes_in_place() {
    let mut list = List::new();
    list.insert(42);
    if let Some(value) = list.get_mut::<i32>(0) {
        *value += 1;
    }
    assert_eq!(list.get::<i32>(0), Some(&43));

    list.insert(String::from("ab"));
    list.insert(float(1.5));
    list.get_mut::<String>(1).unwrap().push('c');
    list.get_mut::<FloatBits>(2).unwrap().bits = 2.5f64.to_bits();
    assert_eq!(list.len(), 3);
    assert_eq!(list.get::<i32>(0), Some(&43));
    assert_eq!(list.get::<String>(1), Some(&String::from("abc")));
    assert_eq!(list.get::<FloatBits>(2), Some(&float(2.5)));
}

#[test]
fn iteration_follows_index_order() {
    let mut list = List::new();
    list.insert(2);
    list.insert(String::from("three"));
    list.insert_at_beginning(1);
    list.insert(float(4.5));
    list.replace(1, String::from("two")).unwrap();
    assert_eq!(rendered(&list), vec!["1", "two", "three", "4.5"]);
    assert_eq!(list.iter().count(), list.len());
}

#[test]
fn iteration_of_empty_list_visits_nothing() {
    let list = List::new();
    assert_eq!(list.iter().count(), 0);
    let mut cleared = List::new();
    cleared.insert(1);
    cleared.clear();
    assert_eq!(cleared.iter().count(), 0);
}

#[test]
fn iteration_ends_and_stays_ended() {
    let mut list = List::new();
    list.insert(1);
    list.insert(2);
    let mut iter = list.iter();
    assert!(matches!(iter.next(), Some(ListItem::Int(1))));
    assert!(matches!(iter.next(), Some(ListItem::Int(2))));
    assert!(iter.next().is_none());
    assert!(iter.next().is_none());
    let mut again = list.iter();
    assert!(matches!(again.next(), Some(ListItem::Int(1))));
}

#[test]
fn iteration_hands_out_the_items_themselves() {
    let mut list = List::new();
    list.insert(String::from("s"));
    list.insert(float(0.25));
    let mut iter = list.iter();
    match iter.next() {
        Some(ListItem::Str(text)) => assert_eq!(text, "s"),
        _ => panic!("expected a text"),
    }
    match iter.next() {
        Some(ListItem::Float(value)) => assert_eq!(f64::from_bits(value.bits), 0.25),
        _ => panic!("expected a number"),
    }
}
