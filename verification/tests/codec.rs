use basic_auth::{Auth, User};

#[test]
fn test_header_encode() {
    let username = "SampleUser";
    let password = "password";
    let user = User::new(&username, &password);
    assert_eq!(
        format!("{}:{}", base64::encode(username), base64::encode(password)),
        user.encode(),
        "The encoded header should be {}:{}",
        base64::encode(username),
        base64::encode(password)
    );
}

#[test]
fn test_header_decode() {
    let header = "Basic U2FtcGxlVXNlcg==:cGFzc3dvcmQ=";
    assert_eq!(
        Some(User::new("SampleUser", "password")),
        User::decode(header)
    );
}

#[test]
fn round_trip_ascii() {
    let user = User::new("Aladdin", "open sesame");
    let header = format!("Basic {}", user.encode());
    assert_eq!(Some(User::new("Aladdin", "open sesame")), User::decode(&header));
}

#[test]
fn round_trip_password_with_colons() {
    let user = User::new("Maria", "Pass:user:Home");
    let header = format!("Basic {}", user.encode());
    assert_eq!(Some(User::new("Maria", "Pass:user:Home")), User::decode(&header));
}

#[test]
fn round_trip_empty_fields() {
    let user = User::new("", "");
    assert_eq!(":", user.encode());
    let header = format!("Basic {}", user.encode());
    assert_eq!(Some(User::new("", "")), User::decode(&header));
}

#[test]
fn round_trip_non_ascii() {
    let user = User::new("P\u{e9}ter", "p\u{e4}ssword\u{2603}");
    let header = format!("Basic {}", user.encode());
    assert_eq!(
        Some(User::new("P\u{e9}ter", "p\u{e4}ssword\u{2603}")),
        User::decode(&header)
    );
}

#[test]
fn scheme_rejection() {
    assert_eq!(None, User::decode("Bearer AAA:BBB"));
}

#[test]
fn scheme_is_case_sensitive() {
    assert_eq!(None, User::decode("basic U2FtcGxlVXNlcg==:cGFzc3dvcmQ="));
}

#[test]
fn shape_rejection_no_colon() {
    assert_eq!(None, User::decode("Basic AAAA"));
}

#[test]
fn shape_rejection_two_colons() {
    assert_eq!(None, User::decode("Basic AAAA:BBBB:CCCC"));
}

#[test]
fn missing_payload_rejected() {
    assert_eq!(None, User::decode("Basic"));
    assert_eq!(None, User::decode("Basic   "));
    assert_eq!(None, User::decode(""));
}

#[test]
fn bad_base64() {
    assert_eq!(None, User::decode("Basic !!!:!!!"));
}

#[test]
fn bad_utf8() {
    // `/w==` decodes to the single byte 0xFF, which is not valid UTF-8
    assert_eq!(None, User::decode("Basic /w==:/w=="));
}

#[test]
fn surrounding_whitespace_and_trailing_tokens_ignored() {
    let user = User::new("SampleUser", "password");
    let header = format!("  Basic \t {}  extra tokens", user.encode());
    assert_eq!(Some(User::new("SampleUser", "password")), User::decode(&header));
}

#[test]
fn unicode_whitespace_separators() {
    let user = User::new("SampleUser", "password");
    let expected = Some(User::new("SampleUser", "password"));
    // form feed, vertical tab, next line, no-break space, ideographic space:
    // all of them split tokens, exactly as `str::split_whitespace` does
    for sep in ['\u{c}', '\u{b}', '\u{85}', '\u{a0}', '\u{2003}', '\u{3000}'] {
        let header = format!("Basic{}{}", sep, user.encode());
        assert_eq!(expected, User::decode(&header), "separator U+{:04X}", sep as u32);
        let padded = format!("{}Basic{}{}{}extra", sep, sep, user.encode(), sep);
        assert_eq!(expected, User::decode(&padded), "separator U+{:04X}", sep as u32);
    }
}

#[test]
fn whitespace_model_matches_std() {
    // the decoder's token splitting must agree with `str::split_whitespace`
    for c in char::MIN..='\u{3001}' {
        let header = format!("Basic{}dXNlcg==:cGFzcw==", c);
        let via_std = header.split_whitespace().nth(1) == Some("dXNlcg==:cGFzcw==");
        let decoded = User::decode(&header).is_some();
        assert_eq!(via_std, decoded, "disagreement at U+{:04X}", c as u32);
    }
}

#[test]
fn new_and_get_name() {
    let user = User::new("Peter", "1234");
    assert_eq!("Peter", user.get_name());
}

#[test]
fn from_pair() {
    assert_eq!(User::new("Peter", "1234"), User::from(["Peter", "1234"]));
}
