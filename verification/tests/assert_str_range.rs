use range_split::str::{is_valid_range, range_fail};

#[test]
fn assert_str_range_borrows() {
    let s = String::new();
    let r = 0..0;
    if !is_valid_range(&s, &r) {
        panic!("{}", range_fail(&s, &r));
    }
    let _ = (s, r);
}
