use onchain_service::Address;

const PROVIDER: &str = "0xABCDEF0123456789abcdef0123456789ABCD1234";

fn provider_bytes() -> [u8; 20] {
    [
        0xab, 0xcd, 0xef, 0x01, 0x23, 0x45, 0x67, 0x89, 0xab, 0xcd, 0xef, 0x01, 0x23, 0x45, 0x67,
        0x89, 0xab, 0xcd, 0x12, 0x34,
    ]
}

#[test]
fn parses_a_prefixed_address() {
    let address = Address::parse(PROVIDER).expect("valid address");
    assert_eq!(address.to_bytes(), provider_bytes());
}

#[test]
fn parses_an_address_without_prefix() {
    let address = Address::parse(&PROVIDER[2..]).expect("valid address");
    assert_eq!(address, Address::from_bytes(provider_bytes()));
}

#[test]
fn ignores_blanks_between_digits() {
    let text = "0xABCDEF0123 456789abcdef\t0123456789ABCD12\r\n34 ";
    let address = Address::parse(text).expect("valid address");
    assert_eq!(address.to_bytes(), provider_bytes());
}

#[test]
fn rejects_text_that_is_no_address() {
    assert_eq!(Address::parse("not-an-address"), None);
    assert_eq!(Address::parse(""), None);
    assert_eq!(Address::parse("0x"), None);
}

#[test]
fn rejects_wrong_digit_counts() {
    assert_eq!(Address::parse(&PROVIDER[..PROVIDER.len() - 1]), None);
    assert_eq!(Address::parse(&PROVIDER[..PROVIDER.len() - 2]), None);
    assert_eq!(Address::parse(&format!("{}0", PROVIDER)), None);
    assert_eq!(Address::parse(&format!("{}00", PROVIDER)), None);
}

#[test]
fn rejects_other_prefixes_and_characters() {
    assert_eq!(Address::parse(&format!("0X{}", &PROVIDER[2..])), None);
    assert_eq!(Address::parse(&format!("0x{}", PROVIDER)), None);
    assert_eq!(Address::parse(&format!(" {}", PROVIDER)), None);
    assert_eq!(Address::parse("0xABCDEF0123456789abcdef0123456789ABCD12g4"), None);
    assert_eq!(Address::parse("0xABCDEF0123456789abcdef0123456789ABCD12\u{e9}4"), None);
}

/// The textual form, written out independently: one optional `0x`, blanks
/// anywhere, forty hexadecimal digits, nothing else.
fn read_by_the_grammar(text: &str) -> Option<[u8; 20]> {
    let body = text.strip_prefix("0x").unwrap_or(text);
    let mut digits = Vec::new();
    for c in body.chars() {
        if c == ' ' || c == '\t' || c == '\n' || c == '\r' {
            continue;
        }
        digits.push(c.to_digit(16).filter(|_| c.is_ascii())? as u8);
    }
    if digits.len() != 40 {
        return None;
    }
    let mut bytes = [0u8; 20];
    for (k, byte) in bytes.iter_mut().enumerate() {
        *byte = 16 * digits[2 * k] + digits[2 * k + 1];
    }
    Some(bytes)
}

struct Lcg(u64);

impl Lcg {
    fn next(&mut self, bound: u64) -> u64 {
        self.0 = self.0.wrapping_mul(6364136223846793005).wrapping_add(1442695040888963407);
        (self.0 >> 33) % bound
    }
}

#[test]
fn parser_agrees_with_the_grammar_on_generated_texts() {
    let digits: Vec<char> = "0123456789abcdefABCDEF".chars().collect();
    let others: Vec<char> = " \t\n\rxXgG-_.:/\u{e9}\u{20ac}\u{0}\u{b}".chars().collect();
    let mut random = Lcg(0x5eed);
    let mut valid = 0;
    for round in 0..20_000 {
        let mut text = String::new();
        match random.next(4) {
            0 => text.push_str("0x"),
            1 if round % 7 == 0 => text.push_str("0X"),
            _ => {}
        }
        let length = 36 + random.next(9);
        let noise = random.next(4);
        for _ in 0..length {
            if noise > 0 && random.next(12) < noise {
                text.push(others[random.next(others.len() as u64) as usize]);
            } else {
                text.push(digits[random.next(digits.len() as u64) as usize]);
            }
        }
        let expected = read_by_the_grammar(&text);
        if expected.is_some() {
            valid += 1;
        }
        assert_eq!(Address::parse(&text).map(|a| a.to_bytes()), expected, "{:?}", text);
    }
    assert!(valid > 500, "only {} valid texts were generated", valid);
}

#[test]
fn parser_agrees_with_the_grammar_on_short_texts() {
    let alphabet: Vec<char> = "0x1aF \n-\u{e9}".chars().collect();
    let mut texts = vec![String::new()];
    for _ in 0..4 {
        let mut longer = Vec::new();
        for text in &texts {
            for c in &alphabet {
                let mut next = text.clone();
                next.push(*c);
                longer.push(next);
            }
        }
        for text in &longer {
            let padded = format!("{}{}", text, "7".repeat(38));
            assert_eq!(
                Address::parse(&padded).map(|a| a.to_bytes()),
                read_by_the_grammar(&padded),
                "{:?}",
                padded
            );
            let tailed = format!("{}{}", "7".repeat(38), text);
            assert_eq!(
                Address::parse(&tailed).map(|a| a.to_bytes()),
                read_by_the_grammar(&tailed),
                "{:?}",
                tailed
            );
        }
        texts = longer;
    }
}
