use roku_ecp::text::{bool_string, decimal_string, join_with_commas};

#[test]
fn booleans_are_lower_case_words() {
    assert_eq!(bool_string(true), "true");
    assert_eq!(bool_string(false), "false");
}

#[test]
fn decimal_numerals() {
    assert_eq!(decimal_string(0), "0");
    assert_eq!(decimal_string(7), "7");
    assert_eq!(decimal_string(9), "9");
    assert_eq!(decimal_string(10), "10");
    assert_eq!(decimal_string(12), "12");
    assert_eq!(decimal_string(100), "100");
    assert_eq!(decimal_string(1234567890), "1234567890");
    assert_eq!(decimal_string(4294967295), "4294967295");
}

#[test]
fn decimal_numerals_agree_with_the_standard_library() {
    let mut n: u32 = 1;
    for _ in 0..200 {
        assert_eq!(decimal_string(n), n.to_string());
        assert_eq!(decimal_string(n - 1), (n - 1).to_string());
        n = n.wrapping_mul(2654435761).wrapping_add(12345);
        if n == 0 {
            n = 1;
        }
    }
}

#[test]
fn joining_no_item_gives_nothing() {
    assert_eq!(join_with_commas(&Vec::new()), "");
}

#[test]
fn joining_one_item_gives_the_item() {
    assert_eq!(join_with_commas(&vec!["netflix".to_string()]), "netflix");
}

#[test]
fn joining_puts_one_comma_between_neighbours() {
    let items = vec!["a".to_string(), "bc".to_string(), "def".to_string()];
    assert_eq!(join_with_commas(&items), "a,bc,def");
}

#[test]
fn joining_keeps_empty_items_and_inner_commas() {
    let items = vec!["".to_string(), "x,y".to_string(), "".to_string()];
    assert_eq!(join_with_commas(&items), ",x,y,");
}

#[test]
fn joining_agrees_with_the_standard_library() {
    let items = vec!["12".to_string(), "13".to_string(), "2285".to_string(), "x".to_string()];
    assert_eq!(join_with_commas(&items), items.join(","));
}
