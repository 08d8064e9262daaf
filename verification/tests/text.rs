use motorchik::text::decimal_string;

#[test]
fn decimal_string_of_small_numbers() {
    assert_eq!("0", decimal_string(0));
    assert_eq!("7", decimal_string(7));
    assert_eq!("9", decimal_string(9));
    assert_eq!("10", decimal_string(10));
    assert_eq!("100", decimal_string(100));
    assert_eq!("1905", decimal_string(1905));
}

#[test]
fn decimal_string_of_large_numbers() {
    assert_eq!("546748910765604875", decimal_string(546748910765604875));
    assert_eq!("18446744073709551615", decimal_string(u64::MAX));
}

#[test]
fn decimal_string_agrees_with_the_standard_rendering() {
    let mut n: u64 = 1;
    for _ in 0..64 {
        assert_eq!(n.to_string(), decimal_string(n));
        assert_eq!((n - 1).to_string(), decimal_string(n - 1));
        n = n.wrapping_mul(2);
        if n == 0 {
            break;
        }
    }
}
