use identifier_validation::utils::validation::{is_legacy_identifier, is_uri_identifier};
use regex::Regex;

/// The URI format as a regular expression, with `.` standing for any
/// character, a line break too.
fn uri_pattern() -> Regex {
    Regex::new(r"(?s)^[a-zA-Z0-9\+\-\.]+:.+$").unwrap()
}

/// The legacy format as a regular expression.
fn legacy_pattern() -> Regex {
    Regex::new("^[1-9A-HJ-NP-Za-km-z]{21,22}$").unwrap()
}

/// Every text of at most `max` characters over `alphabet`.
fn texts_over(alphabet: &[char], max: usize) -> Vec<String> {
    let mut all = vec![String::new()];
    let mut last = vec![String::new()];
    for _ in 0..max {
        let mut next = Vec::new();
        for text in &last {
            for c in alphabet {
                let mut longer = text.clone();
                longer.push(*c);
                next.push(longer);
            }
        }
        all.extend(next.iter().cloned());
        last = next;
    }
    all
}

#[test]
fn uri_predicate_agrees_with_the_regular_expression() {
    let pattern = uri_pattern();
    let alphabet = ['a', 'Z', '7', '+', ':', '/', ' ', '\n', '\u{e9}'];
    let texts = texts_over(&alphabet, 5);
    assert_eq!(texts.len(), 66430);
    for text in &texts {
        assert_eq!(is_uri_identifier(text), pattern.is_match(text), "{:?}", text);
    }
}

#[test]
fn uri_predicate_agrees_with_the_regular_expression_on_examples() {
    let pattern = uri_pattern();
    let examples = [
        "not-a-uri",
        "did:example:123",
        ":missing-scheme",
        "did:",
        "did:\n",
        "did:a\nb",
        "di\nd:a",
        "https://example.org",
        "mailto:someone@example.org",
        "a.b-c+d:e",
        "a_b:c",
        "",
    ];
    for text in examples {
        assert_eq!(is_uri_identifier(text), pattern.is_match(text), "{:?}", text);
        assert_eq!(is_uri_identifier(text), pattern.captures(text).is_some(), "{:?}", text);
    }
}

#[test]
fn legacy_predicate_agrees_with_the_regular_expression() {
    let pattern = legacy_pattern();
    let base = "WgWxqztrNooG92RXvxSTWvTh7MpTaR";
    for len in 0..=30 {
        let text = &base[..len];
        assert_eq!(is_legacy_identifier(text), pattern.is_match(text), "{:?}", text);
        if len == 0 {
            continue;
        }
        for code in 0u32..0x250 {
            let c = char::from_u32(code).unwrap();
            for at in [0, len / 2, len - 1] {
                let changed: String = text
                    .chars()
                    .enumerate()
                    .map(|(i, old)| if i == at { c } else { old })
                    .collect();
                assert_eq!(
                    is_legacy_identifier(&changed),
                    pattern.is_match(&changed),
                    "{:?}",
                    changed
                );
            }
        }
    }
}
