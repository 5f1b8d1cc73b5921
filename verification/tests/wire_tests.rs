use drogue_core::auth::{
    AuthenticationResponse, Credential, ErrorInformation, Outcome,
};
use drogue_core::model::{Application, CoreSection, Device};
use drogue_core::wire::{
    encode_bytes, encode_chain, encode_credential, encode_credential_list, encode_json_string,
    encode_response,
};

#[test]
fn ser_credentials() {
    let ser = encode_credential_list(&vec![
        Credential::Password("foo".into()),
        Credential::UsernamePassword { username: "foo".into(), password: "bar".into() },
    ]);
    let value: serde_json::Value = serde_json::from_str(&ser).unwrap();
    let expected: serde_json::Value = serde_json::from_str(
        r#"[{"pass": "foo"}, {"user": {"username": "foo", "password": "bar"}}]"#,
    )
    .unwrap();
    assert_eq!(value, expected)
}

#[test]
fn test_encode_fail() {
    let str = encode_response(&AuthenticationResponse { outcome: Outcome::Fail });
    assert_eq!(String::from(r#"{"outcome":"fail"}"#), str);
}

#[test]
fn test_encode_pass() {
    let str = encode_response(&AuthenticationResponse {
        outcome: Outcome::Pass {
            application: Application {
                name: "a1".to_string(),
                core: CoreSection::Absent,
                trust_anchors: Vec::new(),
            },
            device: Device {
                name: "d1".to_string(),
                application: "a1".to_string(),
                enabled: true,
                credentials: Vec::new(),
                gateway_selector: Vec::new(),
            },
        },
    });

    assert_eq!(
        String::from(
            r#"{"outcome":{"pass":{"application":{"metadata":{"name":"a1"}},"device":{"metadata":{"application":"a1","name":"d1"}}}}}"#
        ),
        str
    );
}

#[test]
fn json_strings_are_escaped() {
    assert_eq!(encode_json_string("plain"), r#""plain""#);
    assert_eq!(encode_json_string("say \"hi\""), r#""say \"hi\"""#);
    assert_eq!(encode_json_string("a\\b"), r#""a\\b""#);
    assert_eq!(encode_json_string("line\nbreak"), r#""line\nbreak""#);
    assert_eq!(encode_json_string("tab\there"), r#""tab\there""#);
    assert_eq!(encode_json_string("cr\rhere"), r#""cr\rhere""#);
    assert_eq!(encode_json_string("\u{8}\u{c}"), r#""\b\f""#);
    assert_eq!(encode_json_string("\u{1}\u{1f}"), r#""\u0001\u001f""#);
    // what the encoder emits is what serde_json reads back
    let round: String = serde_json::from_str(&encode_json_string("a\"b\\c\nd\u{3}")).unwrap();
    assert_eq!(round, "a\"b\\c\nd\u{3}");
}

#[test]
fn certificate_credentials_encode_as_byte_arrays() {
    assert_eq!(encode_bytes(&vec![]), "[]");
    assert_eq!(encode_bytes(&vec![0, 9, 10, 99, 100, 255]), "[0,9,10,99,100,255]");
    assert_eq!(encode_chain(&vec![vec![1, 2], vec![3]]), "[[1,2],[3]]");
    let ser = encode_credential(&Credential::Certificate(vec![vec![1, 2], vec![3]]));
    assert_eq!(ser, r#"{"cert":[[1,2],[3]]}"#);
}

#[test]
fn error_information_text() {
    let info = ErrorInformation { error: "NotFound".to_string(), message: "no app".to_string() };
    assert_eq!(info.text(), "NotFound: no app");
}

#[test]
fn failed_response_is_uniform() {
    let r = AuthenticationResponse::failed();
    assert!(matches!(r.outcome, Outcome::Fail));
    assert_eq!(encode_response(&r), r#"{"outcome":"fail"}"#);
}
