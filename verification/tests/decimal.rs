use tower_governor::decimal::append_decimal;

fn written(n: u64) -> String {
    let mut out = String::new();
    append_decimal(&mut out, n);
    out
}

#[test]
fn writes_numbers_in_decimal() {
    assert_eq!(written(0), "0");
    assert_eq!(written(7), "7");
    assert_eq!(written(10), "10");
    assert_eq!(written(99), "99");
    assert_eq!(written(100), "100");
    assert_eq!(written(1_020_304), "1020304");
    assert_eq!(written(u64::MAX), "18446744073709551615");
}

#[test]
fn appends_behind_what_is_there() {
    let mut out = String::from("wait ");
    append_decimal(&mut out, 90);
    append_decimal(&mut out, 0);
    assert_eq!(out, "wait 900");
}

#[test]
fn writes_as_the_standard_library_does() {
    let mut n: u64 = 1;
    for _ in 0..200 {
        assert_eq!(written(n), n.to_string());
        assert_eq!(written(n - 1), (n - 1).to_string());
        n = n.wrapping_mul(6364136223846793005).wrapping_add(1442695040888963407) | 1;
    }
}
