use pokeapi::text::decimal_text;

#[test]
fn decimal_of_zero() {
    assert_eq!(decimal_text(0), "0");
}

#[test]
fn decimal_of_single_digits() {
    let expected = ["0", "1", "2", "3", "4", "5", "6", "7", "8", "9"];
    for (n, text) in expected.iter().enumerate() {
        assert_eq!(decimal_text(n), *text);
    }
}

#[test]
fn decimal_of_ten_has_two_digits() {
    assert_eq!(decimal_text(10), "10");
}

#[test]
fn decimal_keeps_inner_zeros() {
    assert_eq!(decimal_text(1005), "1005");
    assert_eq!(decimal_text(20_300), "20300");
}

#[test]
fn decimal_of_larger_numbers() {
    assert_eq!(decimal_text(64), "64");
    assert_eq!(decimal_text(1_234_567_890), "1234567890");
}

#[test]
fn decimal_of_the_largest_number() {
    assert_eq!(decimal_text(usize::MAX), usize::MAX.to_string());
}

#[test]
fn decimal_reads_back_as_the_number() {
    for n in [0usize, 1, 9, 10, 99, 100, 4096, 65_535, 1_000_000] {
        assert_eq!(decimal_text(n).parse::<usize>().unwrap(), n);
    }
}

#[test]
fn decimal_tells_numbers_apart() {
    assert_ne!(decimal_text(1), decimal_text(10));
    assert_ne!(decimal_text(12), decimal_text(21));
}
