use solana_rust::basics::{
    add, apply, average, calculate_length, change, first_word, gives_ownership, greeting,
    largest, parse_and_double, square, Article, IntParseError, Rectangle, Summary, Tweet,
};

#[test]
fn arithmetic_functions() {
    assert_eq!(add(5, 7), 12);
    assert_eq!(add(-5, 2), -3);
    assert_eq!(square(4), 16);
    assert_eq!(square(-3), 9);
    assert_eq!(average(10, 20), 15);
    assert_eq!(average(3, 4), 3);
    assert_eq!(average(-3, -4), -3);
    assert_eq!(average(-3, 0), -1);
}

#[test]
fn strings_and_borrowing() {
    assert_eq!(greeting("Sara"), "Salam, Sara!");
    assert_eq!(gives_ownership(), "yours");
    assert_eq!(calculate_length(&String::from("hello")), 5);
    assert_eq!(calculate_length(&String::from("héllo")), 6);
    let mut s = String::from("hello");
    change(&mut s);
    assert_eq!(s, "hello, world");
}

#[test]
fn first_word_stops_at_the_first_space() {
    assert_eq!(first_word("hello world"), "hello");
    assert_eq!(first_word("hello"), "hello");
    assert_eq!(first_word(""), "");
    assert_eq!(first_word(" lead"), "");
    assert_eq!(first_word("héllo wörld"), "héllo");
}

#[test]
fn rectangles() {
    let rect1 = Rectangle { width: 30, height: 50 };
    let rect2 = Rectangle { width: 10, height: 40 };
    assert_eq!(rect1.area(), 1500);
    assert!(rect1.can_hold(&rect2));
    assert!(!rect2.can_hold(&rect1));
    assert!(!rect1.can_hold(&rect1));
    let sq = Rectangle::square(20);
    assert_eq!(sq, Rectangle { width: 20, height: 20 });
    assert_eq!(sq.area(), 400);
}

#[test]
fn parse_and_double_results() {
    assert_eq!(parse_and_double("21"), Ok(42));
    assert_eq!(parse_and_double("abc"), Err(IntParseError::InvalidDigit));
    assert_eq!(parse_and_double(""), Err(IntParseError::Empty));
    assert_eq!(parse_and_double("-"), Err(IntParseError::InvalidDigit));
    assert_eq!(parse_and_double("+5"), Ok(10));
    assert_eq!(parse_and_double("-7"), Ok(-14));
    assert_eq!(parse_and_double("2147483648"), Err(IntParseError::PosOverflow));
    assert_eq!(parse_and_double("-2147483649"), Err(IntParseError::NegOverflow));
    let both = parse_and_double("99999999999x");
    assert!(both == Err(IntParseError::PosOverflow) || both == Err(IntParseError::InvalidDigit));
    assert_eq!(parse_and_double("12x"), Err(IntParseError::InvalidDigit));
    assert_eq!(parse_and_double(" 5"), Err(IntParseError::InvalidDigit));
}

#[test]
fn largest_picks_the_maximum() {
    assert_eq!(largest(&[34, 50, 25, 100, 65]), 100);
    assert_eq!(largest(&['y', 'm', 'a', 'q']), 'y');
    assert_eq!(largest(&[-3]), -3);
}

#[test]
fn summaries() {
    let article = Article { title: String::from("Rust seekho"), author: String::from("Ali") };
    let tweet = Tweet { username: String::from("rustlang"), content: String::from("Ownership zabardast hai") };
    assert_eq!(article.summarize(), "Rust seekho by Ali");
    assert_eq!(tweet.summarize(), "@rustlang: Ownership zabardast hai");
    assert_eq!(tweet.preview(), "(padho...)");
    assert_eq!(article.preview(), "(padho...)");
}

#[test]
fn apply_calls_the_closure() {
    assert_eq!(apply(10, |x| x + 100), 110);
    let multiplier = 3;
    assert_eq!(apply(5, |x| x * multiplier), 15);
}

/// The reading of an `i32` numeral that `parse_and_double` relies on: optional
/// sign, decimal digits, the first problem met from the left decides the error.
fn reference_parse(s: &str) -> Result<i32, IntParseError> {
    let chars: Vec<char> = s.chars().collect();
    if chars.is_empty() {
        return Err(IntParseError::Empty);
    }
    if (chars[0] == '+' || chars[0] == '-') && chars.len() == 1 {
        return Err(IntParseError::InvalidDigit);
    }
    let negative = chars[0] == '-';
    let digits = if chars[0] == '+' || chars[0] == '-' { &chars[1..] } else { &chars[..] };
    let p = digits.iter().position(|c| !c.is_ascii_digit()).unwrap_or(digits.len());
    let mut v: i128 = 0;
    for c in &digits[..p] {
        v = v * 10 + (*c as i128 - '0' as i128);
        if v > 1i128 << 40 {
            break;
        }
    }
    if !negative && v > i32::MAX as i128 {
        Err(IntParseError::PosOverflow)
    } else if negative && -v < i32::MIN as i128 {
        Err(IntParseError::NegOverflow)
    } else if p < digits.len() {
        Err(IntParseError::InvalidDigit)
    } else if negative {
        Ok((-v) as i32)
    } else {
        Ok(v as i32)
    }
}

#[test]
fn parse_reading_agrees_with_the_standard_library() {
    let pieces = ["", "+", "-", "0", "7", "12", "x", " ", "é", "2147483647", "2147483648", "99999999999", "000", "1_0"];
    for a in pieces {
        for b in pieces {
            for c in ["", "-", "5", "a"] {
                let s = format!("{}{}{}", a, b, c);
                let expected = reference_parse(&s);
                let std_kind = s.parse::<i32>().map_err(|e| match e.kind() {
                    std::num::IntErrorKind::Empty => IntParseError::Empty,
                    std::num::IntErrorKind::PosOverflow => IntParseError::PosOverflow,
                    std::num::IntErrorKind::NegOverflow => IntParseError::NegOverflow,
                    _ => IntParseError::InvalidDigit,
                });
                assert_eq!(std_kind, expected, "input {:?}", s);
                match expected {
                    Ok(n) if (n as i64 * 2).abs() <= i32::MAX as i64 => assert_eq!(parse_and_double(&s), Ok(n * 2)),
                    Err(e) => assert_eq!(parse_and_double(&s), Err(e)),
                    _ => {}
                }
            }
        }
    }
}
