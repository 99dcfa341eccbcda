use taskman::text::{append_i32, append_u64, append_usize_list};

fn u64_text(n: u64) -> String {
    let mut s = String::new();
    append_u64(&mut s, n);
    s
}

fn i32_text(n: i32) -> String {
    let mut s = String::new();
    append_i32(&mut s, n);
    s
}

#[test]
fn decimal_of_unsigned_values() {
    assert_eq!(u64_text(0), "0");
    assert_eq!(u64_text(7), "7");
    assert_eq!(u64_text(10), "10");
    assert_eq!(u64_text(12345), "12345");
    assert_eq!(u64_text(u64::MAX), "18446744073709551615");
}

#[test]
fn decimal_of_signed_values() {
    assert_eq!(i32_text(0), "0");
    assert_eq!(i32_text(-1), "-1");
    assert_eq!(i32_text(42), "42");
    assert_eq!(i32_text(i32::MIN), "-2147483648");
    assert_eq!(i32_text(i32::MAX), "2147483647");
}

#[test]
fn decimal_appends_after_existing_text() {
    let mut s = String::from("pid=");
    append_i32(&mut s, -20);
    assert_eq!(s, "pid=-20");
}

#[test]
fn list_rendering_matches_debug_format() {
    for items in [vec![], vec![3usize], vec![0, 1, 1024], vec![usize::MAX, 7]] {
        let mut s = String::new();
        append_usize_list(&mut s, &items);
        assert_eq!(s, format!("{:?}", items));
    }
}
