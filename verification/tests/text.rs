use git_host::assets::{
    config_path, credentials_path, profiles_path, server_signing_key_path, trusted_keys_path,
};
use git_host::text::{
    chars_of, decimal_string, parse_i32_chars, parse_i64_chars, split_chars, trim_chars, words_of,
    CharClass,
};

fn cs(s: &str) -> Vec<char> {
    s.chars().collect()
}

#[test]
fn decimal_round_trip() {
    for n in [0i64, 7, -7, 1234567890, i64::MAX, i64::MIN] {
        let s = decimal_string(n);
        assert_eq!(s, n.to_string());
        assert_eq!(parse_i64_chars(&cs(&s)), Some(n));
    }
}

#[test]
fn integer_parsing_matches_std() {
    for s in ["", "+", "-", "+-1", "12a", " 1", "007", "-0", "+42", "9223372036854775807",
        "9223372036854775808", "-9223372036854775808", "-9223372036854775809", "2147483648", "-2147483648"]
    {
        assert_eq!(parse_i64_chars(&cs(s)), s.parse::<i64>().ok(), "{:?}", s);
        assert_eq!(parse_i32_chars(&cs(s)), s.parse::<i32>().ok(), "{:?}", s);
    }
}

#[test]
fn splitting_and_trimming_match_std() {
    for s in ["", "a", " a b  c ", "\u{3000}x\u{a0}y\u{85}", "\r\n\t"] {
        let words: Vec<String> = words_of(&cs(s)).into_iter().map(|w| w.into_iter().collect()).collect();
        let expected: Vec<String> = s.split_whitespace().map(String::from).collect();
        assert_eq!(words, expected);
        let trimmed: String = trim_chars(&cs(s), CharClass::Whitespace).into_iter().collect();
        assert_eq!(trimmed, s.trim());
        let parts: Vec<String> =
            split_chars(&cs(s), CharClass::Exactly('a')).into_iter().map(|w| w.into_iter().collect()).collect();
        let expected: Vec<String> = s.split('a').map(String::from).collect();
        assert_eq!(parts, expected);
    }
    assert_eq!(chars_of("héllo"), cs("héllo"));
}

#[test]
fn asset_files() {
    assert_eq!(config_path("/data/app"), "/data/app/config.json");
    assert_eq!(profiles_path("/data/app/"), "/data/app/profiles.json");
    assert_eq!(credentials_path(""), "credentials.json");
    assert_eq!(trusted_keys_path("d"), "d/trusted_ed25519_public_keys.json");
    assert_eq!(server_signing_key_path("d"), "d/server_ed25519_signing_key");
    for dir in ["/data/app", "/data/app/", "", "d"] {
        assert_eq!(
            config_path(dir),
            std::path::Path::new(dir).join("config.json").to_str().unwrap()
        );
    }
}
