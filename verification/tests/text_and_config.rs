use task_manager::config::{connection_options, listen_address, load_config, secret_label};
use task_manager::text::{
    concat_text, contains, is_blank, parse_u16, starts_with, str_eq, u32_to_decimal, utf8_len_at_least,
};

#[test]
fn blank_text_is_whitespace_only() {
    assert!(is_blank(""));
    assert!(is_blank("   \t\n"));
    assert!(is_blank("\u{3000}\u{a0}"));
    assert!(!is_blank("  a "));
    assert!(!is_blank("x"));
}

#[test]
fn prefix_and_substring_search() {
    assert!(starts_with("/api/login", "/api/login"));
    assert!(starts_with("/api/login/x", "/api/login"));
    assert!(!starts_with("/api/log", "/api/login"));
    assert!(contains("UNIQUE constraint failed", "UNIQUE"));
    assert!(contains("abc", ""));
    assert!(!contains("unique", "UNIQUE"));
    assert!(str_eq("todo", "todo"));
    assert!(!str_eq("todo", "tod"));
    assert_eq!(concat_text("ab", "cd"), "abcd");
}

#[test]
fn decimal_rendering() {
    assert_eq!(u32_to_decimal(0), "0");
    assert_eq!(u32_to_decimal(7), "7");
    assert_eq!(u32_to_decimal(100), "100");
    assert_eq!(u32_to_decimal(4294967295), "4294967295");
}

#[test]
fn port_parsing_matches_std() {
    for s in ["3000", "+80", "0003000", "65535", "0", "65536", "-1", "", "+", " 80", "8a", "99999999999"] {
        assert_eq!(parse_u16(s), s.parse::<u16>().ok(), "input {:?}", s);
    }
}

#[test]
fn utf8_length_threshold() {
    assert!(!utf8_len_at_least("abcde", 6));
    assert!(utf8_len_at_least("abcdef", 6));
    assert!(utf8_len_at_least("h\u{e9}llo", 6));
    assert!(!utf8_len_at_least("h\u{e9}ll", 6));
    assert!(utf8_len_at_least("\u{1f600}\u{1f600}", 6));
    assert!(utf8_len_at_least("", 0));
}

#[test]
fn config_defaults() {
    let c = load_config(None, None, None, None);
    assert_eq!(c.database_url, "sqlite:///data/tasks.db");
    assert_eq!(c.jwt_secret, "dev-secret-key-change-in-production");
    assert_eq!(c.host, "127.0.0.1");
    assert_eq!(c.port, 3000);
}

#[test]
fn config_from_environment_values() {
    let c = load_config(
        Some("sqlite://x.db".to_string()),
        Some("s3cret".to_string()),
        Some("0.0.0.0".to_string()),
        Some("8080".to_string()),
    );
    assert_eq!(c.database_url, "sqlite://x.db");
    assert_eq!(c.jwt_secret, "s3cret");
    assert_eq!(c.host, "0.0.0.0");
    assert_eq!(c.port, 8080);
    assert_eq!(load_config(None, None, None, Some("http".to_string())).port, 3000);
    assert_eq!(load_config(None, None, None, Some("70000".to_string())).port, 3000);
}

#[test]
fn secret_banner_label() {
    assert_eq!(secret_label("dev-secret-key-change-in-production"), "[DEFAULT]");
    assert_eq!(secret_label("a-real-secret"), "[SET]");
}

#[test]
fn listen_address_joins_host_and_port() {
    assert_eq!(listen_address("127.0.0.1", 3000), "127.0.0.1:3000");
    assert_eq!(listen_address("0.0.0.0", 0), "0.0.0.0:0");
}

#[test]
fn sqlite_urls_create_missing_files() {
    assert_eq!(connection_options("sqlite:///data/tasks.db"), "sqlite:///data/tasks.db?mode=rwc");
    assert_eq!(connection_options("sqlite::memory:"), "sqlite::memory:");
}

#[test]
fn blank_agrees_with_trim_on_every_char_up_to_u3100() {
    for u in 0u32..0x3100 {
        if let Some(c) = char::from_u32(u) {
            let s = c.to_string();
            assert_eq!(is_blank(&s), s.trim().is_empty(), "char {:#x}", u);
        }
    }
}

#[test]
fn port_parsing_agrees_with_std_on_numbers() {
    for n in (0u32..70000).step_by(7) {
        let s = n.to_string();
        assert_eq!(parse_u16(&s), s.parse::<u16>().ok());
        let plus = format!("+{}", s);
        assert_eq!(parse_u16(&plus), plus.parse::<u16>().ok());
    }
}
