use smartclock::portal::{handle_request, parse_form, request_complete, FormError, HttpAction};

fn post_request(parts: &[(&str, &str)]) -> Vec<u8> {
    let mut body = String::new();
    for (name, value) in parts {
        body.push_str("------abc\r\nContent-Disposition: form-data; name=\"");
        body.push_str(name);
        body.push_str("\"\r\n\r\n");
        body.push_str(value);
        body.push_str("\r\n");
    }
    body.push_str("------abc--\r\n");
    let mut req = String::from(
        "POST /configure_wifi HTTP/1.1\r\nContent-Type: multipart/form-data; boundary=----abc\r\n\r\n",
    );
    req.push_str(&body);
    req.into_bytes()
}

#[test]
fn multipart_form_yields_both_fields() {
    let req = post_request(&[("ssid", "home-network"), ("password", "secret123")]);
    match handle_request(&req) {
        HttpAction::SaveCredentials { ssid, password } => {
            assert_eq!(ssid, b"home-network".to_vec());
            assert_eq!(password, b"secret123".to_vec());
        }
        other => panic!("expected credentials, got {:?}", other),
    }
}

#[test]
fn multipart_field_order_does_not_matter() {
    let req = post_request(&[("password", "secret123"), ("ssid", "home-network")]);
    match handle_request(&req) {
        HttpAction::SaveCredentials { ssid, password } => {
            assert_eq!(ssid, b"home-network".to_vec());
            assert_eq!(password, b"secret123".to_vec());
        }
        other => panic!("expected credentials, got {:?}", other),
    }
}

#[test]
fn parse_form_extracts_the_raw_fields() {
    let req = post_request(&[("ssid", "home-network"), ("password", "secret123")]);
    let fields = parse_form(&req).expect("well-formed form");
    assert_eq!(fields.len(), 2);
    assert_eq!(fields[0].0, b"ssid".to_vec());
    assert_eq!(fields[0].1, b"home-network".to_vec());
    assert_eq!(fields[1].0, b"password".to_vec());
    assert_eq!(fields[1].1, b"secret123".to_vec());
}

#[test]
fn form_without_blank_line_is_invalid() {
    let req = b"POST /configure_wifi HTTP/1.1\r\nContent-Type: text/plain".to_vec();
    assert_eq!(parse_form(&req), Err(FormError::InvalidRequestFormat));
}

#[test]
fn form_without_content_type_is_rejected() {
    let req = b"POST /configure_wifi HTTP/1.1\r\nAccept: */*\r\n\r\nbody".to_vec();
    assert_eq!(parse_form(&req), Err(FormError::NoContentType));
}

#[test]
fn form_with_plain_content_type_is_rejected() {
    let req =
        b"POST /configure_wifi HTTP/1.1\r\nContent-Type: text/plain\r\n\r\nssid=x".to_vec();
    assert_eq!(parse_form(&req), Err(FormError::NotMultipart));
}

#[test]
fn form_without_boundary_is_rejected() {
    let req =
        b"POST /configure_wifi HTTP/1.1\r\nContent-Type: multipart/form-data\r\n\r\nx".to_vec();
    assert_eq!(parse_form(&req), Err(FormError::NoBoundary));
}

#[test]
fn part_without_name_attribute_aborts_the_parse() {
    let req = b"POST /c HTTP/1.1\r\nContent-Type: multipart/form-data; boundary=----abc\r\n\r\n------abc\r\nContent-Disposition: form-data; filename=\"x\"\r\n\r\nv\r\n------abc--\r\n".to_vec();
    assert_eq!(parse_form(&req), Err(FormError::NoNameAttribute));
}

#[test]
fn body_without_any_field_is_rejected() {
    let req =
        b"POST /c HTTP/1.1\r\nContent-Type: multipart/form-data; boundary=----abc\r\n\r\nnothing here"
            .to_vec();
    assert_eq!(parse_form(&req), Err(FormError::NoValidFields));
}

#[test]
fn more_fields_than_capacity_is_rejected() {
    let parts: Vec<(String, String)> = (0..21)
        .map(|i| (format!("f{}", i), format!("v{}", i)))
        .collect();
    let borrowed: Vec<(&str, &str)> = parts
        .iter()
        .map(|(a, b)| (a.as_str(), b.as_str()))
        .collect();
    let req = post_request(&borrowed);
    assert_eq!(parse_form(&req), Err(FormError::TooManyFields));
}

#[test]
fn missing_ssid_or_password_is_rejected_without_crash() {
    let req = post_request(&[("ssid", "home-network")]);
    match handle_request(&req) {
        HttpAction::Reject(e) => assert_eq!(e, FormError::MissingField),
        other => panic!("expected rejection, got {:?}", other),
    }
}

#[test]
fn duplicate_field_takes_the_last_value() {
    let req = post_request(&[
        ("ssid", "first"),
        ("password", "pw"),
        ("ssid", "second"),
    ]);
    match handle_request(&req) {
        HttpAction::SaveCredentials { ssid, .. } => assert_eq!(ssid, b"second".to_vec()),
        other => panic!("expected credentials, got {:?}", other),
    }
}

#[test]
fn get_config_serves_the_page() {
    let req = b"GET /config HTTP/1.1\r\nHost: portal\r\n\r\n".to_vec();
    assert!(matches!(handle_request(&req), HttpAction::ServeConfigPage));
}

#[test]
fn other_requests_are_ignored() {
    let req = b"GET /favicon.ico HTTP/1.1\r\n\r\n".to_vec();
    assert!(matches!(handle_request(&req), HttpAction::Ignore));
    let req2 = b"DELETE /config HTTP/1.1\r\n\r\n".to_vec();
    assert!(matches!(handle_request(&req2), HttpAction::Ignore));
    let req3 = b"garbage".to_vec();
    assert!(matches!(handle_request(&req3), HttpAction::Ignore));
}

#[test]
fn request_complete_waits_for_the_blank_line() {
    assert!(!request_complete(b"GET /config HTTP/1.1\r\nHost:"));
    assert!(request_complete(b"GET /config HTTP/1.1\r\n\r\n"));
}
