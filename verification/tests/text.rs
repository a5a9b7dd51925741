use newsdata_io::text::{decimal_string, join};

fn strings(items: &[&str]) -> Vec<String> {
    items.iter().map(|item| item.to_string()).collect()
}

#[test]
fn join_of_no_item_is_empty() {
    assert_eq!(join(&Vec::new()), "");
}

#[test]
fn join_of_one_item_has_no_comma() {
    assert_eq!(join(&strings(&["top"])), "top");
}

#[test]
fn join_puts_one_comma_between_neighbours() {
    assert_eq!(join(&strings(&["top", "world"])), "top,world");
    assert_eq!(join(&strings(&["us", "gb", "de"])), "us,gb,de");
}

#[test]
fn join_keeps_empty_items_and_inner_commas() {
    assert_eq!(join(&strings(&["", ""])), ",");
    assert_eq!(join(&strings(&["a,b", "c"])), "a,b,c");
    assert_eq!(join(&strings(&["a", "", "b"])), "a,,b");
}

#[test]
fn join_agrees_with_the_standard_library() {
    let items = strings(&["business", "crime", "", "top", "ünïcödé"]);
    assert_eq!(join(&items), items.join(","));
}

#[test]
fn decimal_of_small_numbers() {
    assert_eq!(decimal_string(0), "0");
    assert_eq!(decimal_string(7), "7");
    assert_eq!(decimal_string(10), "10");
    assert_eq!(decimal_string(50), "50");
    assert_eq!(decimal_string(1234567890), "1234567890");
}

#[test]
fn decimal_of_negative_numbers() {
    assert_eq!(decimal_string(-1), "-1");
    assert_eq!(decimal_string(-10), "-10");
    assert_eq!(decimal_string(-907), "-907");
}

#[test]
fn decimal_of_the_extremes() {
    assert_eq!(decimal_string(i32::MAX), "2147483647");
    assert_eq!(decimal_string(i32::MIN), "-2147483648");
}

#[test]
fn decimal_agrees_with_the_standard_library() {
    let mut n: i32 = -100_003;
    while n < 100_003 {
        assert_eq!(decimal_string(n), n.to_string());
        n += 997;
    }
    for n in [99, 100, 101, 999, 1000, 1001, -99, -100, -101, 1 << 30, -(1 << 30)] {
        assert_eq!(decimal_string(n), n.to_string());
    }
}
