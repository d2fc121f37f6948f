use cloudflare_ddns::config::CloudflareAPI;
use cloudflare_ddns::errors::CycleError;
use cloudflare_ddns::reconciler::{
    cycle_over, cycle_start, cycle_step, default_endpoints, CycleAction, CycleEvent, CycleState,
};
use cloudflare_ddns::record::{CloudflareDNSRecord, CloudflareResp};

fn sample_config() -> CloudflareAPI {
    CloudflareAPI {
        auth_email: String::from("admin@example.com"),
        api_key: String::from("SECRET-REDACTED"),
        zone_id: String::from("zone123"),
        dns_record_name: String::from("home.example.com"),
    }
}

fn envelope_with_content(id: &str, content: &str) -> CloudflareResp {
    CloudflareResp {
        success: true,
        result: Some(vec![CloudflareDNSRecord {
            id: String::from(id),
            cf_type: String::from("A"),
            name: String::from("home.example.com"),
            content: String::from(content),
        }]),
        errors: Vec::new(),
    }
}

#[test]
fn matching_ip_ends_cycle_without_update() {
    let config = sample_config();
    let (state, action) = cycle_start(default_endpoints());
    assert!(matches!(action, CycleAction::Probe { .. }));
    let (state, action) =
        cycle_step(&config, state, CycleEvent::ProbeSucceeded(String::from("1.2.3.4\n")));
    assert!(matches!(action, CycleAction::Fetch { .. }));
    let (state, action) = cycle_step(
        &config,
        state,
        CycleEvent::FetchSucceeded(envelope_with_content("abc", "1.2.3.4")),
    );
    assert!(matches!(action, CycleAction::Finish));
    assert!(cycle_over(&state));
    match state {
        CycleState::Done { outcome } => {
            assert_eq!(outcome.public_ip, "1.2.3.4");
            assert_eq!(outcome.record_content, "1.2.3.4");
            assert!(!outcome.updated);
        },
        other => panic!("cycle should have ended as a no-op, got {:?}", other),
    }
}

#[test]
fn differing_ip_updates_exactly_that_record_with_the_resolved_ip() {
    let config = sample_config();
    let (state, _) = cycle_start(default_endpoints());
    let (state, _) =
        cycle_step(&config, state, CycleEvent::ProbeSucceeded(String::from("1.2.3.4")));
    let (state, action) = cycle_step(
        &config,
        state,
        CycleEvent::FetchSucceeded(envelope_with_content("abc", "5.6.7.8")),
    );
    match action {
        CycleAction::Patch { url, body } => {
            assert_eq!(url, "https://api.cloudflare.com/client/v4/zones/zone123/dns_records/abc");
            assert_eq!(body, "{\"content\": \"1.2.3.4\"}");
        },
        other => panic!("a differing IP must trigger an update, got {:?}", other),
    }
    let success = CloudflareResp { success: true, result: None, errors: Vec::new() };
    let (state, action) = cycle_step(&config, state, CycleEvent::UpdateSucceeded(success));
    assert!(matches!(action, CycleAction::Finish));
    match state {
        CycleState::Done { outcome } => {
            assert_eq!(outcome.public_ip, "1.2.3.4");
            assert_eq!(outcome.record_content, "5.6.7.8");
            assert!(outcome.updated);
        },
        other => panic!("the cycle should have ended updated, got {:?}", other),
    }
}

#[test]
fn probe_body_is_trimmed_and_later_endpoints_are_not_probed() {
    let config = sample_config();
    let endpoints = default_endpoints();
    assert_eq!(endpoints.len(), 3);
    assert_eq!(endpoints[0], "http://icanhazip.com");
    assert_eq!(endpoints[1], "http://myexternalip.com/raw");
    assert_eq!(endpoints[2], "http://ifconfig.me/ip");
    let (state, action) = cycle_start(endpoints);
    assert!(matches!(action, CycleAction::Probe { url } if url == "http://icanhazip.com"));
    // endpoint 1 fails, the machine advances to endpoint 2
    let (state, action) = cycle_step(&config, state, CycleEvent::ProbeFailed);
    assert!(matches!(action, CycleAction::Probe { url } if url == "http://myexternalip.com/raw"));
    // endpoint 2 answers: the trimmed body is the public IP and the next
    // action is the record fetch, not another probe
    let (state, action) = cycle_step(
        &config,
        state,
        CycleEvent::ProbeSucceeded(String::from("  203.0.113.5\n")),
    );
    assert!(matches!(action, CycleAction::Fetch { .. }));
    match state {
        CycleState::FetchingRecord { public_ip } => assert_eq!(public_ip, "203.0.113.5"),
        other => panic!("the probe answer should resolve the IP, got {:?}", other),
    }
}

#[test]
fn exhausting_all_endpoints_fails_with_no_public_ip_available() {
    let config = sample_config();
    let (state, _) = cycle_start(default_endpoints());
    let (state, action) = cycle_step(&config, state, CycleEvent::ProbeFailed);
    assert!(matches!(action, CycleAction::Probe { .. }));
    let (state, action) = cycle_step(&config, state, CycleEvent::ProbeFailed);
    assert!(matches!(action, CycleAction::Probe { .. }));
    let (state, action) = cycle_step(&config, state, CycleEvent::ProbeFailed);
    assert!(matches!(action, CycleAction::Finish));
    assert!(cycle_over(&state));
    assert!(matches!(state, CycleState::Failed { error: CycleError::NoPublicIPAvailable }));
}

#[test]
fn fetch_failure_aborts_the_cycle() {
    let config = sample_config();
    let (state, _) = cycle_start(default_endpoints());
    let (state, _) =
        cycle_step(&config, state, CycleEvent::ProbeSucceeded(String::from("1.2.3.4")));
    let (state, action) =
        cycle_step(&config, state, CycleEvent::FetchFailed(CycleError::TransportError));
    assert!(matches!(action, CycleAction::Finish));
    assert!(matches!(state, CycleState::Failed { error: CycleError::TransportError }));
}

#[test]
fn non_success_update_envelope_surfaces_as_provider_error() {
    let config = sample_config();
    let (state, _) = cycle_start(default_endpoints());
    let (state, _) =
        cycle_step(&config, state, CycleEvent::ProbeSucceeded(String::from("1.2.3.4")));
    let (state, _) = cycle_step(
        &config,
        state,
        CycleEvent::FetchSucceeded(envelope_with_content("abc", "5.6.7.8")),
    );
    let failure = CloudflareResp { success: false, result: None, errors: Vec::new() };
    let (state, action) = cycle_step(&config, state, CycleEvent::UpdateSucceeded(failure));
    assert!(matches!(action, CycleAction::Finish));
    assert!(matches!(state, CycleState::Failed { error: CycleError::ProviderError }));
}

#[test]
fn missing_record_still_tries_the_update_and_surfaces_the_failure() {
    // No matching record: the fetch falls back to the zero-value record,
    // whose empty content differs from the real IP, so an update against
    // the empty record identifier goes out and its provider-side failure
    // is not swallowed.
    let config = sample_config();
    let (state, _) = cycle_start(default_endpoints());
    let (state, _) =
        cycle_step(&config, state, CycleEvent::ProbeSucceeded(String::from("1.2.3.4")));
    let empty = CloudflareResp { success: true, result: Some(Vec::new()), errors: Vec::new() };
    let (state, action) = cycle_step(&config, state, CycleEvent::FetchSucceeded(empty));
    match action {
        CycleAction::Patch { url, body } => {
            assert_eq!(url, "https://api.cloudflare.com/client/v4/zones/zone123/dns_records/");
            assert_eq!(body, "{\"content\": \"1.2.3.4\"}");
        },
        other => panic!("an update should have been attempted, got {:?}", other),
    }
    let failure = CloudflareResp { success: false, result: None, errors: Vec::new() };
    let (state, _) = cycle_step(&config, state, CycleEvent::UpdateSucceeded(failure));
    assert!(matches!(state, CycleState::Failed { error: CycleError::ProviderError }));
}

#[test]
fn update_transport_failure_aborts_the_cycle() {
    let config = sample_config();
    let (state, _) = cycle_start(default_endpoints());
    let (state, _) =
        cycle_step(&config, state, CycleEvent::ProbeSucceeded(String::from("1.2.3.4")));
    let (state, _) = cycle_step(
        &config,
        state,
        CycleEvent::FetchSucceeded(envelope_with_content("abc", "5.6.7.8")),
    );
    let (state, _) =
        cycle_step(&config, state, CycleEvent::UpdateFailed(CycleError::TransportError));
    assert!(matches!(state, CycleState::Failed { error: CycleError::TransportError }));
}
