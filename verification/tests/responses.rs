//! The status envelope: code "1" is success with the payload intact,
//! record listing treats code "10" as an empty success, and every
//! other code surfaces the provider's code and message verbatim.

use dnspod::error::DnspodError;
use dnspod::schema::{
    Domain, DomainCreateDomain, DomainCreateResponse, DomainInfoResponse, DomainListResponse,
    Record, RecordCreateRecord, RecordCreateResponse, RecordId, RecordListDomain,
    RecordListResponse, RecordModifyRecord, RecordModifyResponse, RecordStatusRecord,
    RecordStatusResponse, Status, StatusResponse,
};

fn status(code: &str, message: &str) -> Status {
    Status { code: code.to_string(), message: message.to_string(), created_at: None }
}

fn domain(id: &str, name: &str) -> Domain {
    Domain {
        id: id.to_string(),
        name: name.to_string(),
        punycode: None,
        grade: None,
        grade_title: None,
        status: None,
        ext_status: None,
        records: None,
        group_id: None,
        is_mark: None,
        remark: None,
        is_vip: None,
        searchengine_push: None,
        beian: None,
        created_on: None,
        updated_on: None,
        ttl: None,
        owner: None,
        user_id: None,
    }
}

fn record(id: &str, name: &str, value: &str) -> Record {
    Record {
        id: id.to_string(),
        name: name.to_string(),
        line: None,
        record_type: None,
        ttl: None,
        value: value.to_string(),
        mx: None,
        enabled: None,
        status: None,
        monitor_status: None,
        remark: None,
        updated_on: None,
        hold: None,
    }
}

#[test]
fn success_passes_domain_list_through() {
    let resp = DomainListResponse {
        status: status("1", "Action completed successful"),
        info: None,
        domains: Some(vec![domain("1", "a.com"), domain("2", "b.com")]),
    };
    let ok = resp.into_result().unwrap();
    assert_eq!(ok.status.code, "1");
    let domains = ok.domains.unwrap();
    assert_eq!(domains.len(), 2);
    assert_eq!(domains[0].id, "1");
    assert_eq!(domains[0].name, "a.com");
    assert_eq!(domains[1].id, "2");
}

#[test]
fn success_passes_domain_info_through() {
    let resp = DomainInfoResponse { status: status("1", "OK"), domain: domain("7", "c.com") };
    let ok = resp.into_result().unwrap();
    assert_eq!(ok.domain.id, "7");
    assert_eq!(ok.domain.name, "c.com");
}

#[test]
fn success_passes_domain_create_through() {
    let resp = DomainCreateResponse {
        status: status("1", "OK"),
        domain: DomainCreateDomain {
            id: "31".to_string(),
            punycode: Some("d.com".to_string()),
            domain: Some("d.com".to_string()),
        },
    };
    let ok = resp.into_result().unwrap();
    assert_eq!(ok.domain.id, "31");
    assert_eq!(ok.domain.domain.as_deref(), Some("d.com"));
}

#[test]
fn success_passes_record_list_through() {
    let resp = RecordListResponse {
        status: status("1", "OK"),
        domain: None,
        info: None,
        records: Some(vec![record("9", "www", "1.2.3.4")]),
    };
    let ok = resp.into_result().unwrap();
    let records = ok.records.unwrap();
    assert_eq!(records.len(), 1);
    assert_eq!(records[0].id, "9");
    assert_eq!(records[0].value, "1.2.3.4");
}

#[test]
fn record_list_code_10_is_empty_success() {
    let resp = RecordListResponse {
        status: status("10", "No records"),
        domain: Some(RecordListDomain {
            id: "1".to_string(),
            name: "x.com".to_string(),
            punycode: None,
            grade: None,
            owner: None,
        }),
        info: None,
        records: None,
    };
    let ok = resp.into_result().unwrap();
    assert_eq!(ok.status.code, "10");
    let records = ok.records.expect("records must be present, not absent");
    assert_eq!(records.len(), 0);
    assert_eq!(ok.domain.unwrap().id, "1");
}

#[test]
fn record_list_other_code_is_error() {
    let resp = RecordListResponse {
        status: status("6", "Invalid domain id"),
        domain: None,
        info: None,
        records: None,
    };
    match resp.into_result() {
        Err(DnspodError::Api(s)) => {
            assert_eq!(s.code, "6");
            assert_eq!(s.message, "Invalid domain id");
        }
        _ => panic!("expected a provider-reported failure"),
    }
}

#[test]
fn domain_list_code_10_is_error() {
    let resp = DomainListResponse { status: status("10", "No domains"), info: None, domains: None };
    match resp.into_result() {
        Err(DnspodError::Api(s)) => assert_eq!(s.code, "10"),
        _ => panic!("code 10 outside record listing must be an error"),
    }
}

#[test]
fn status_response_code_10_is_error() {
    let resp = StatusResponse { status: status("10", "nothing here") };
    assert!(matches!(resp.into_result(), Err(DnspodError::Api(_))));
}

#[test]
fn record_create_code_10_is_error() {
    let resp = RecordCreateResponse {
        status: status("10", "nope"),
        record: RecordCreateRecord { id: "1".to_string(), name: "www".to_string(), status: None },
    };
    assert!(matches!(resp.into_result(), Err(DnspodError::Api(_))));
}

#[test]
fn error_carries_code_and_message_verbatim() {
    let resp = StatusResponse { status: status("85", "Domain is locked") };
    match resp.into_result() {
        Err(DnspodError::Api(s)) => {
            assert_eq!(s.code, "85");
            assert_eq!(s.message, "Domain is locked");
        }
        _ => panic!("expected a provider-reported failure"),
    }
}

#[test]
fn create_record_success_scenario() {
    let resp = RecordCreateResponse {
        status: status("1", "OK"),
        record: RecordCreateRecord {
            id: "100".to_string(),
            name: "www".to_string(),
            status: None,
        },
    };
    let ok = resp.into_result().unwrap();
    assert_eq!(ok.record.id, "100");
    assert_eq!(ok.record.name, "www");
}

#[test]
fn modify_record_success_passes_through() {
    let resp = RecordModifyResponse {
        status: status("1", "OK"),
        record: RecordModifyRecord {
            id: RecordId::Number(100),
            name: "www".to_string(),
            value: Some("1.2.3.4".to_string()),
            status: None,
        },
    };
    let ok = resp.into_result().unwrap();
    assert_eq!(ok.record.id.as_text(), "100");
}

#[test]
fn record_status_success_passes_through() {
    let resp = RecordStatusResponse {
        status: status("1", "OK"),
        record: RecordStatusRecord {
            id: RecordId::Text("55".to_string()),
            name: "www".to_string(),
            status: Some("disable".to_string()),
        },
    };
    let ok = resp.into_result().unwrap();
    assert_eq!(ok.record.id.as_text(), "55");
    assert_eq!(ok.record.status.as_deref(), Some("disable"));
}

#[test]
fn describe_api_error_carries_code_and_message() {
    let e = DnspodError::Api(status("6", "Invalid domain id"));
    assert_eq!(e.describe(), "API error 6: Invalid domain id");
    assert!(e.request_error().is_none());
}

#[test]
fn describe_request_error_wraps_transport_failure() {
    let bad = reqwest::Client::new().get("://not-a-url").build().unwrap_err();
    let e = DnspodError::Request(bad);
    assert!(e.request_error().is_some());
    assert!(e.describe().starts_with("Request error: "));
}
