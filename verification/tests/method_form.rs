use discard_while::discard_while;
use discard_while::DiscardWhile;

#[test]
fn method_stops_at_the_first_item_that_fails() {
    let mut range = 1..=10;
    let result: (Option<i32>, usize) = range.discard_while(|&n| n != 5);
    assert_eq!(result, (Some(5), 4));
    assert_eq!(range, 6..=10);
}

#[test]
fn method_always_true_discards_everything() {
    let mut range = 1..=10;
    let result: (Option<i32>, usize) = range.discard_while(|_| true);
    assert_eq!(result, (None, 10));
    assert!(range.is_empty());
}

#[test]
fn method_always_false_returns_the_first_item() {
    let mut range = 1..=10;
    let result: (Option<i32>, usize) = range.discard_while(|_| false);
    assert_eq!(result, (Some(1), 0));
    assert_eq!(range, 2..=10);
}

#[test]
fn method_on_an_empty_sequence() {
    let mut nothing = std::iter::empty::<char>();
    assert_eq!(nothing.discard_while(|c| c.is_alphabetic()), (None, 0));
}

#[test]
fn method_on_adapted_iterators() {
    let text: &str = "   \t indented";
    let mut chars = text.chars();
    assert_eq!(chars.discard_while(|c| c.is_whitespace()), (Some('i'), 5));
    assert_eq!(chars.as_str(), "ndented");

    let mut squares = (1u32..).map(|n| n * n);
    assert_eq!(squares.discard_while(|&sq| sq < 50), (Some(64), 7));
    assert_eq!(squares.next(), Some(81));
}

#[test]
fn both_forms_return_the_same() {
    let inputs: Vec<Vec<i32>> = vec![
        vec![],
        vec![0],
        vec![5],
        vec![1, 2, 3, 4, 5, 6, 7, 8, 9, 10],
        vec![5, 5, 5],
        vec![-1, -2, -3],
        vec![2, 4, 6, 7, 8, 10, 11],
    ];
    for items in inputs.iter() {
        let mut by_function = items.iter().copied();
        let mut by_method = items.iter().copied();
        let from_function: (Option<i32>, usize) = discard_while(&mut by_function, |&n| n != 5);
        let from_method: (Option<i32>, usize) = by_method.discard_while(|&n| n != 5);
        assert_eq!(from_function, from_method);
        let left_by_function: Vec<i32> = by_function.collect();
        let left_by_method: Vec<i32> = by_method.collect();
        assert_eq!(left_by_function, left_by_method);

        let mut by_function = items.iter().copied();
        let mut by_method = items.iter().copied();
        let from_function: (Option<i32>, usize) = discard_while(&mut by_function, |&n| n % 2 == 0);
        let from_method: (Option<i32>, usize) = by_method.discard_while(|&n| n % 2 == 0);
        assert_eq!(from_function, from_method);
        let left_by_function: Vec<i32> = by_function.collect();
        let left_by_method: Vec<i32> = by_method.collect();
        assert_eq!(left_by_function, left_by_method);
    }
}

#[test]
fn both_forms_agree_with_a_counting_predicate() {
    let items: Vec<u8> = vec![10, 20, 30, 40, 50];
    for limit in 0..7usize {
        let mut calls: usize = 0;
        let mut by_function = items.iter();
        let from_function: (Option<&u8>, usize) = discard_while(&mut by_function, |_| {
            calls += 1;
            calls <= limit
        });
        let mut calls: usize = 0;
        let mut by_method = items.iter();
        let from_method: (Option<&u8>, usize) = by_method.discard_while(|_| {
            calls += 1;
            calls <= limit
        });
        assert_eq!(from_function, from_method);
        assert_eq!(from_function.1, limit.min(items.len()));
        assert_eq!(from_function.0, items.get(limit));
        assert_eq!(by_function.as_slice(), by_method.as_slice());
    }
}

#[test]
fn method_through_a_mutable_reference() {
    let items: Vec<u16> = vec![1, 2, 3, 4];
    let mut iter = items.iter().copied();
    let borrowed = &mut iter;
    assert_eq!(borrowed.discard_while(|&n| n < 2), (Some(2), 1));
    assert_eq!(iter.next(), Some(3));
}
