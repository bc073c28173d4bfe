use lidar_fill_state::text::{
    append_decimal, append_zero_padded, lines, same_text, split, split_once, starts_with, trim,
};

#[test]
fn trimming_agrees_with_std() {
    for s in ["", " ", "a", " a b\t", "\u{a0}x\u{2003}\u{85}", "\u{200b} y", "\r\nz\u{3000}"] {
        assert_eq!(trim(s), s.trim());
    }
    let mut n: u32 = 0;
    while n < 0x3100 {
        if let Some(c) = char::from_u32(n) {
            assert_eq!(trim(&c.to_string()).is_empty(), c.is_whitespace());
        }
        n += 1;
    }
}

#[test]
fn lines_agree_with_std() {
    for s in ["", "\n", "a", "a\n", "a\r\nb\r", "\r\n\n\r\r\nx", "\u{e9}\n\u{1f4a1}"] {
        assert_eq!(lines(s), s.lines().collect::<Vec<&str>>());
    }
}

#[test]
fn splitting_agrees_with_std() {
    for s in ["", ",", "a", "a,b", ",a,,b,", "\u{e9},\u{1f4a1}"] {
        assert_eq!(split(s, ','), s.split(",").collect::<Vec<&str>>());
        assert_eq!(split_once(s, ','), s.split_once(','));
    }
}

#[test]
fn comparing_agrees_with_std() {
    for a in ["", "a", "ab", "abc", "\u{e9}"] {
        for b in ["", "a", "ab", "b", "\u{e9}"] {
            assert_eq!(same_text(a, b), a == b);
            assert_eq!(starts_with(a, b), a.starts_with(b));
        }
    }
}

#[test]
fn numbers_agree_with_std() {
    for n in [0, 9, 10, 99, 100, 65_535, 4_294_967_295] {
        let mut out = String::from("n=");
        append_decimal(&mut out, n);
        assert_eq!(out, format!("n={}", n));
    }
    for n in [0, 5, -5, 999, -999, 12_345, -12_345, i16::MIN] {
        let mut out = String::new();
        append_zero_padded(&mut out, n, 6);
        append_zero_padded(&mut out, n, 0);
        assert_eq!(out, format!("{:06}{}", n, n));
    }
}
