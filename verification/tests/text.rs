use tunnlto::text::{
    parse_i32, push_decimal, push_signed_decimal, same_text, text_contains, text_starts_with,
};

#[test]
fn contains_agrees_with_the_standard_library() {
    let texts = ["", "a", "aab", "Tunnel has started", "x Tunnel has started.", "Tunnel", "é é"];
    for text in texts {
        for pattern in texts {
            assert_eq!(text_contains(text, pattern), text.contains(pattern));
            assert_eq!(text_starts_with(text, pattern), text.starts_with(pattern));
            assert_eq!(same_text(text, pattern), text == pattern);
        }
    }
}

#[test]
fn decimal_numbers_are_written() {
    for n in [0u32, 7, 10, 128, 4096, u32::MAX] {
        let mut out = String::from("n=");
        push_decimal(&mut out, n);
        assert_eq!(out, format!("n={}", n));
    }
    for i in [0i32, -1, 1, -10, 305, i32::MIN, i32::MAX] {
        let mut out = String::new();
        push_signed_decimal(&mut out, i);
        assert_eq!(out, i.to_string());
    }
}

#[test]
fn numbers_are_read_as_the_standard_library_reads_them() {
    let texts = [
        "", "+", "-", "0", "-0", "+5", "50", "007", " 5", "5 ", "1_0", "--1", "+-1", "x", "٣",
        "2147483647", "2147483648", "-2147483648", "-2147483649", "99999999999999999999",
    ];
    for text in texts {
        assert_eq!(parse_i32(text), text.parse::<i32>().ok(), "{}", text);
    }
}

#[test]
fn written_numbers_are_read_back() {
    for i in [0, -1, 50, i32::MIN, i32::MAX] {
        let mut out = String::new();
        push_signed_decimal(&mut out, i);
        assert_eq!(parse_i32(&out), Some(i));
    }
}
