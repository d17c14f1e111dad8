use ironbar_core::sysinfo::parser::parse_input;
use ironbar_core::sysinfo::token::{Alignment, FormatError, Function, Part, Prefix, TokenType};

#[test]
fn static_only() {
    let tokens = parse_input("hello world").unwrap();
    println!("{tokens:?}");

    assert_eq!(tokens.len(), 1);
    assert!(matches!(&tokens[0], Part::Static(str) if str == "hello world"));
}

#[test]
fn basic() {
    let tokens = parse_input("{cpu_frequency}").unwrap();
    println!("{tokens:?}");

    assert_eq!(tokens.len(), 1);

    assert!(matches!(&tokens[0], Part::Token(_)));
    let Part::Token(token) = tokens.get(0).unwrap() else {
        return;
    };

    assert_eq!(token.token, TokenType::CpuFrequency);
}

#[test]
fn named() {
    let tokens = parse_input("{cpu_frequency@cpu0}").unwrap();
    println!("{tokens:?}");

    assert_eq!(tokens.len(), 1);

    assert!(matches!(&tokens[0], Part::Token(_)));
    let Part::Token(token) = tokens.get(0).unwrap() else {
        return;
    };

    assert_eq!(token.token, TokenType::CpuFrequency);
    assert!(matches!(&token.function, Function::Name(n) if n == "cpu0"));
}

#[test]
fn conversion() {
    let tokens = parse_input("{cpu_frequency#G}").unwrap();
    println!("{tokens:?}");

    assert_eq!(tokens.len(), 1);

    assert!(matches!(&tokens[0], Part::Token(_)));
    let Part::Token(token) = tokens.get(0).unwrap() else {
        return;
    };

    assert_eq!(token.token, TokenType::CpuFrequency);
    assert_eq!(token.prefix, Prefix::Giga);
}

#[test]
fn formatting_basic() {
    let tokens = parse_input("{cpu_frequency:.2}").unwrap();
    println!("{tokens:?}");

    assert_eq!(tokens.len(), 1);

    assert!(matches!(&tokens[0], Part::Token(_)));
    let Part::Token(token) = tokens.get(0).unwrap() else {
        return;
    };

    assert_eq!(token.token, TokenType::CpuFrequency);
    assert_eq!(token.formatting.precision, 2);
}

#[test]
fn formatting_complex() {
    let tokens = parse_input("{cpu_frequency:0<5.2}").unwrap();
    println!("{tokens:?}");

    assert_eq!(tokens.len(), 1);

    assert!(matches!(&tokens[0], Part::Token(_)));
    let Part::Token(token) = tokens.get(0).unwrap() else {
        return;
    };

    assert_eq!(token.token, TokenType::CpuFrequency);
    assert_eq!(token.formatting.fill, '0');
    assert_eq!(token.formatting.align, Alignment::Left);
    assert_eq!(token.formatting.width, 5);
    assert_eq!(token.formatting.precision, 2);
}

#[test]
fn complex() {
    let tokens = parse_input("{cpu_frequency@cpu0#G:.2}").unwrap();
    println!("{tokens:?}");

    assert_eq!(tokens.len(), 1);

    assert!(matches!(&tokens[0], Part::Token(_)));
    let Part::Token(token) = tokens.get(0).unwrap() else {
        return;
    };

    assert_eq!(token.token, TokenType::CpuFrequency);
    assert!(matches!(&token.function, Function::Name(n) if n == "cpu0"));
    assert_eq!(token.prefix, Prefix::Giga);
    assert_eq!(token.formatting.precision, 2);
}

#[test]
fn static_then_token() {
    let tokens = parse_input("Freq: {cpu_frequency#G:.2}").unwrap();
    println!("{tokens:?}");

    assert_eq!(tokens.len(), 2);

    assert!(matches!(&tokens[0], Part::Static(str) if str == "Freq: "));

    assert!(matches!(&tokens[1], Part::Token(_)));
    let Part::Token(token) = tokens.get(1).unwrap() else {
        return;
    };

    assert_eq!(token.token, TokenType::CpuFrequency);
    assert_eq!(token.formatting.precision, 2);
}

#[test]
fn token_then_static() {
    let tokens = parse_input("{cpu_frequency#G:.2} GHz").unwrap();
    println!("{tokens:?}");

    assert_eq!(tokens.len(), 2);

    assert!(matches!(&tokens[0], Part::Token(_)));
    let Part::Token(token) = tokens.get(0).unwrap() else {
        return;
    };

    assert_eq!(token.token, TokenType::CpuFrequency);
    assert_eq!(token.formatting.precision, 2);

    assert!(matches!(&tokens[1], Part::Static(str) if str == " GHz"));
}

#[test]
fn unknown_token_is_an_error() {
    let err = parse_input("{no_such_token}").unwrap_err();
    assert_eq!(err, FormatError::UnknownToken("no_such_token".to_string()));
}

#[test]
fn invalid_prefix_falls_back_to_default() {
    let tokens = parse_input("{cpu_frequency#X}").unwrap();
    let Part::Token(token) = &tokens[0] else {
        panic!("expected a token");
    };
    assert_eq!(token.prefix, Prefix::Giga);
}

#[test]
fn bad_alignment_width_and_precision() {
    let tokens = parse_input("{memory_free:x^7.3}").unwrap();
    let Part::Token(token) = &tokens[0] else {
        panic!("expected a token");
    };
    assert_eq!(token.formatting.fill, 'x');
    assert_eq!(token.formatting.align, Alignment::Center);
    assert_eq!(token.formatting.width, 7);
    assert_eq!(token.formatting.precision, 3);
    assert!(matches!(parse_input("{memory_free:.x}"), Err(FormatError::InvalidPrecision(_))));
}

#[test]
fn error_messages() {
    assert_eq!(Prefix::from_str("g").unwrap_err().message(), "invalid prefix: g");
    assert_eq!(Prefix::from_str("").unwrap_err().message(), "invalid prefix: ");
    assert_eq!(FormatError::UnknownAlignment('x').message(), "Unknown alignment: x");
    assert_eq!(FormatError::InvalidPrecision("x".to_string()).message(), "invalid digit found in string");
    assert_eq!(FormatError::InvalidPrecision("+".to_string()).message(), "invalid digit found in string");
    assert_eq!(
        FormatError::InvalidWidth("99999999999999999999999".to_string()).message(),
        "number too large to fit in target type"
    );
    assert_eq!(FormatError::InvalidWidth(String::new()).message(), "cannot parse integer from empty string");
    assert_eq!(FormatError::UnknownToken("x".to_string()).message(), "invalid token type: x");
}
