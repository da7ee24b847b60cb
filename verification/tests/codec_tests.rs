use stirling_auth::codec::{form_decode_str, percent_encode};
use stirling_auth::json::build_json_object;
use stirling_auth::provision::{parse_bool, render_provisioning_config};
use stirling_auth::text::{
    decimal_string, str_ends_with, to_ascii_lower, trim_str, trim_trailing_slashes,
};

#[test]
fn percent_encode_keeps_unreserved() {
    assert_eq!(percent_encode("AZaz09-_.~"), "AZaz09-_.~");
}

#[test]
fn percent_encode_escapes_reserved() {
    assert_eq!(
        percent_encode("http://127.0.0.1:54321/callback"),
        "http%3A%2F%2F127.0.0.1%3A54321%2Fcallback"
    );
    assert_eq!(percent_encode("a b&c=d"), "a%20b%26c%3Dd");
}

#[test]
fn form_decode_handles_plus_and_percent() {
    assert_eq!(form_decode_str("a+b"), "a b");
    assert_eq!(form_decode_str("a%2Bb"), "a+b");
    assert_eq!(form_decode_str("%48%65%6c%6C%6f"), "Hello");
    // A percent sign not followed by two hexadecimal digits is kept.
    assert_eq!(form_decode_str("100%"), "100%");
    assert_eq!(form_decode_str("a%zzb"), "a%zzb");
}

#[test]
fn trim_trailing_slashes_examples() {
    assert_eq!(trim_trailing_slashes("https://x.example/"), "https://x.example");
    assert_eq!(trim_trailing_slashes("https://x.example///"), "https://x.example");
    assert_eq!(trim_trailing_slashes("https://x.example"), "https://x.example");
    assert_eq!(trim_trailing_slashes(""), "");
    assert_eq!(trim_trailing_slashes("///"), "");
}

#[test]
fn trim_str_examples() {
    assert_eq!(trim_str("  a b \t\n"), "a b");
    assert_eq!(trim_str("\r\n"), "");
    assert_eq!(trim_str("x"), "x");
}

#[test]
fn ascii_lower_examples() {
    assert_eq!(to_ascii_lower("TrUe"), "true");
    assert_eq!(to_ascii_lower("YES!"), "yes!");
}

#[test]
fn ends_with_examples() {
    assert!(str_ends_with("report.pdf", ".pdf"));
    assert!(!str_ends_with("report.pdfx", ".pdf"));
    assert!(!str_ends_with("df", ".pdf"));
}

#[test]
fn decimal_rendering() {
    assert_eq!(decimal_string(0), "0");
    assert_eq!(decimal_string(7), "7");
    assert_eq!(decimal_string(54321), "54321");
    assert_eq!(decimal_string(18446744073709551615), "18446744073709551615");
}

#[test]
fn parse_bool_spellings() {
    assert!(parse_bool("1"));
    assert!(parse_bool("true"));
    assert!(parse_bool(" TRUE "));
    assert!(parse_bool("Yes"));
    assert!(parse_bool("y"));
    assert!(!parse_bool("0"));
    assert!(!parse_bool("no"));
    assert!(!parse_bool(""));
    assert!(!parse_bool("truthy"));
}

#[test]
fn json_object_rendering_and_escaping() {
    let pairs = vec![
        ("email".to_string(), "a@b.example".to_string()),
        ("password".to_string(), "p\"w\\1\n".to_string()),
    ];
    assert_eq!(
        build_json_object(&pairs),
        "{\"email\":\"a@b.example\",\"password\":\"p\\\"w\\\\1\\n\"}"
    );
    let empty: Vec<(String, String)> = vec![];
    assert_eq!(build_json_object(&empty), "{}");
}

#[test]
fn rendered_body_is_json_serde_agrees() {
    // The verified serializer's output must parse back to the same values.
    let pairs = vec![
        ("k1".to_string(), "line\nbreak and \"quote\"".to_string()),
        ("k2".to_string(), "tab\tand backslash \\".to_string()),
    ];
    let body = build_json_object(&pairs);
    let v: serde_json::Value = serde_json::from_str(&body).unwrap();
    assert_eq!(v.get("k1").unwrap().as_str().unwrap(), "line\nbreak and \"quote\"");
    assert_eq!(v.get("k2").unwrap().as_str().unwrap(), "tab\tand backslash \\");
}

#[test]
fn provisioning_config_is_exact_and_valid_json() {
    let rendered = render_provisioning_config("https://pdf.example.com", false);
    assert_eq!(
        rendered,
        "{\n  \"serverUrl\": \"https://pdf.example.com\",\n  \"lockConnectionMode\": false\n}"
    );
    let v: serde_json::Value = serde_json::from_str(&rendered).unwrap();
    assert_eq!(v.get("serverUrl").unwrap().as_str().unwrap(), "https://pdf.example.com");
    assert_eq!(v.get("lockConnectionMode").unwrap().as_bool().unwrap(), false);
    let locked = render_provisioning_config("http://a/", true);
    assert!(locked.contains("\"lockConnectionMode\": true"));
}
