use ironbar_core::sysinfo::parser::parse_input;
use ironbar_core::sysinfo::render::{TokenText, apply_padding, char_utf8_len, render_all};
use ironbar_core::sysinfo::token::{Alignment, Formatting, Function, Prefix, TokenType};
use ironbar_core::sysinfo::{Interval, Intervals, RefreshType, default_interval, parts_affected_by};

fn fmt(width: usize, fill: char, align: Alignment) -> Formatting {
    Formatting { width, fill, align, precision: 1 }
}

#[test]
fn padding_fills_by_byte_length() {
    assert_eq!(apply_padding("1.5", fmt(5, '0', Alignment::Left)), "001.5");
    assert_eq!(apply_padding("1.5", fmt(5, '0', Alignment::Right)), "1.500");
    assert_eq!(apply_padding("1.5", fmt(5, '0', Alignment::Center)), "01.50");
    assert_eq!(apply_padding("12345", fmt(3, '0', Alignment::Left)), "12345");
    assert_eq!(apply_padding("ab", fmt(5, '\u{20ac}', Alignment::Right)), "ab\u{20ac}");
    assert_eq!(char_utf8_len('a'), 1);
    assert_eq!(char_utf8_len('\u{e9}'), 2);
    assert_eq!(char_utf8_len('\u{20ac}'), 3);
    assert_eq!(char_utf8_len('\u{1f600}'), 4);
}

#[test]
fn render_all_joins_parts_with_values() {
    let parts = parse_input("CPU {cpu_percent:>4} up {uptime}").unwrap();
    let values = vec![
        None,
        Some(TokenText::Number("5.0".to_string())),
        None,
        Some(TokenText::Text("1d".to_string())),
    ];
    assert_eq!(render_all(&parts, &values), "CPU 5.00 up 1d");
}

#[test]
fn token_defaults_and_refresh() {
    assert_eq!(Function::default_for(TokenType::CpuFrequency), Function::Mean);
    assert_eq!(Prefix::default_for(TokenType::NetDown), Prefix::MegaBit);
    assert_eq!(default_interval(), 5);
    assert_eq!(Interval::default(), Interval::All(5));
    let i = Interval::Individual(Intervals { memory: 1, cpu: 2, temps: 3, disks: 4, networks: 6, system: 7 });
    assert_eq!(i.networks(), 6);
    assert_eq!(Interval::All(9).disks(), 9);
    assert!(TokenType::NetUp.is_affected_by(RefreshType::Network));
    assert!(!TokenType::NetUp.is_affected_by(RefreshType::Cpu));
    let parts = parse_input("{memory_percent} {uptime}").unwrap();
    assert!(parts_affected_by(&parts, RefreshType::System));
    assert!(!parts_affected_by(&parts, RefreshType::Disks));
}

#[test]
fn rendering_halves_concatenates() {
    let a = parse_input("cpu {cpu_percent} ").unwrap();
    let b = parse_input("mem {memory_percent}%").unwrap();
    let text = |s: &str| Some(TokenText::Text(s.to_string()));
    let va = vec![None, text("12"), None];
    let vb = vec![None, text("40"), None];
    let mut ab = parse_input("cpu {cpu_percent} ").unwrap();
    ab.extend(parse_input("mem {memory_percent}%").unwrap());
    let vab = vec![None, text("12"), None, None, text("40"), None];
    assert_eq!(render_all(&ab, &vab), format!("{}{}", render_all(&a, &va), render_all(&b, &vb)));
    assert_eq!(render_all(&ab, &vab), "cpu 12 mem 40%");
    assert_eq!(render_all(&Vec::new(), &va), "");
}
