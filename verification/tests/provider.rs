use cloudflare_ddns::config::CloudflareAPI;
use cloudflare_ddns::errors::CycleError;
use cloudflare_ddns::provider::{
    auth_headers, decode_envelope, decode_update_envelope, list_url, select_record, update_body,
    update_url,
};
use cloudflare_ddns::record::{CloudflareDNSRecord, CloudflareError, CloudflareResp};

fn sample_config() -> CloudflareAPI {
    CloudflareAPI {
        auth_email: String::from("admin@example.com"),
        api_key: String::from("SECRET-REDACTED"),
        zone_id: String::from("zone123"),
        dns_record_name: String::from("home.example.com"),
    }
}

#[test]
fn fetch_returns_matching_record_unchanged() {
    let body = "{\"success\": true, \"result\": [{\"id\": \"abc\", \"type\": \"A\", \
                 \"name\": \"home.example.com\", \"content\": \"203.0.113.1\"}]}";
    let resp = decode_envelope(body).unwrap();
    assert!(resp.errors.is_empty());
    assert!(resp.success);
    let record = select_record(&resp);
    assert_eq!(record.id, "abc");
    assert_eq!(record.cf_type, "A");
    assert_eq!(record.name, "home.example.com");
    assert_eq!(record.content, "203.0.113.1");
}

#[test]
fn fetch_with_empty_result_list_falls_back_to_default_record() {
    let body = "{\"success\": true, \"result\": [], \"errors\": []}";
    let resp = decode_envelope(body).unwrap();
    let record = select_record(&resp);
    assert_eq!(record.id, "");
    assert_eq!(record.cf_type, "");
    assert_eq!(record.name, "");
    assert_eq!(record.content, "");
}

#[test]
fn fetch_with_failure_envelope_falls_back_to_default_record() {
    let body = "{\"success\": false, \"result\": null, \
                 \"errors\": [{\"code\": 9109, \"message\": \"Invalid access token\"}]}";
    let resp = decode_envelope(body).unwrap();
    assert!(!resp.success);
    assert_eq!(resp.errors.len(), 1);
    assert_eq!(resp.errors[0].code, 9109);
    assert_eq!(resp.errors[0].message, "Invalid access token");
    let record = select_record(&resp);
    assert_eq!(record.id, "");
    assert_eq!(record.content, "");
}

#[test]
fn fetch_with_absent_result_field_falls_back_to_default_record() {
    let body = "{\"success\": true, \"errors\": []}";
    let resp = decode_envelope(body).unwrap();
    assert!(resp.result.is_none());
    let record = select_record(&resp);
    assert_eq!(record.id, "");
    assert_eq!(record.content, "");
}

#[test]
fn malformed_json_is_a_parse_error() {
    let outcome = decode_envelope("{not json");
    assert!(matches!(outcome, Err(CycleError::ParseError)));
}

#[test]
fn unexpected_envelope_shape_is_a_parse_error() {
    // well-formed JSON, but no success flag
    let outcome = decode_envelope("{\"result\": [], \"errors\": []}");
    assert!(matches!(outcome, Err(CycleError::ParseError)));
    // success flag of the wrong type
    let outcome = decode_envelope("{\"success\": \"yes\", \"result\": [], \"errors\": []}");
    assert!(matches!(outcome, Err(CycleError::ParseError)));
    // record element missing its content field
    let outcome = decode_envelope(
        "{\"success\": true, \"result\": [{\"id\": \"abc\", \"type\": \"A\", \
         \"name\": \"home.example.com\"}], \"errors\": []}",
    );
    assert!(matches!(outcome, Err(CycleError::ParseError)));
}

#[test]
fn select_record_picks_first_of_several_matches() {
    let resp = CloudflareResp {
        success: true,
        result: Some(vec![
            CloudflareDNSRecord {
                id: String::from("first"),
                cf_type: String::from("A"),
                name: String::from("home.example.com"),
                content: String::from("203.0.113.1"),
            },
            CloudflareDNSRecord {
                id: String::from("second"),
                cf_type: String::from("A"),
                name: String::from("home.example.com"),
                content: String::from("203.0.113.2"),
            },
        ]),
        errors: Vec::new(),
    };
    let record = select_record(&resp);
    assert_eq!(record.id, "first");
    assert_eq!(record.content, "203.0.113.1");
}

#[test]
fn select_record_ignores_records_of_failure_envelope() {
    let resp = CloudflareResp {
        success: false,
        result: Some(vec![CloudflareDNSRecord {
            id: String::from("abc"),
            cf_type: String::from("A"),
            name: String::from("home.example.com"),
            content: String::from("203.0.113.1"),
        }]),
        errors: vec![CloudflareError { code: 1, message: String::from("failed") }],
    };
    let record = select_record(&resp);
    assert_eq!(record.id, "");
    assert_eq!(record.content, "");
}

#[test]
fn update_envelope_reads_the_success_flag_and_ignores_the_record_payload() {
    let body = "{\"success\": true, \"result\": {\"id\": \"abc\", \"type\": \"A\", \
                 \"name\": \"home.example.com\", \"content\": \"203.0.113.5\"}, \
                 \"errors\": []}";
    let resp = decode_update_envelope(body).unwrap();
    assert!(resp.success);
    assert!(resp.result.is_none());
    assert!(resp.errors.is_empty());

    let failure = "{\"success\": false, \"result\": null, \
                   \"errors\": [{\"code\": 7003, \"message\": \"No route for that URI\"}]}";
    let resp = decode_update_envelope(failure).unwrap();
    assert!(!resp.success);
    assert_eq!(resp.errors[0].code, 7003);

    assert!(matches!(decode_update_envelope("broken"), Err(CycleError::ParseError)));
}

#[test]
fn list_url_has_zone_and_name() {
    let url = list_url(&sample_config());
    assert_eq!(
        url,
        "https://api.cloudflare.com/client/v4/zones/zone123/dns_records?type=A&name=home.example.com"
    );
}

#[test]
fn update_url_has_zone_and_record_id() {
    let url = update_url(&sample_config(), "abc");
    assert_eq!(url, "https://api.cloudflare.com/client/v4/zones/zone123/dns_records/abc");
}

#[test]
fn every_request_carries_the_three_auth_headers_verbatim() {
    let headers = auth_headers(&sample_config());
    assert_eq!(headers.len(), 3);
    assert_eq!(headers[0].0, "x-auth-email");
    assert_eq!(headers[0].1, "admin@example.com");
    assert_eq!(headers[1].0, "x-auth-key");
    assert_eq!(headers[1].1, "SECRET-REDACTED");
    assert_eq!(headers[2].0, "content-type");
    assert_eq!(headers[2].1, "application/json");
}

#[test]
fn update_body_carries_only_the_new_content() {
    let body = update_body("203.0.113.5");
    assert_eq!(body, "{\"content\": \"203.0.113.5\"}");
}
