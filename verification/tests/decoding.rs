//! Accessors over the loosely-typed fields: TTL defaults, the record
//! type default, and the polymorphic record id normalized to text.

use dnspod::schema::{Domain, Record, RecordId, RecordInfo};

fn domain_with_ttl(ttl: Option<&str>) -> Domain {
    Domain {
        id: "1".to_string(),
        name: "x.com".to_string(),
        punycode: None,
        grade: None,
        grade_title: None,
        status: None,
        ext_status: None,
        records: None,
        group_id: None,
        is_mark: None,
        remark: None,
        is_vip: None,
        searchengine_push: None,
        beian: None,
        created_on: None,
        updated_on: None,
        ttl: ttl.map(|t| t.to_string()),
        owner: None,
        user_id: None,
    }
}

fn record_with(record_type: Option<&str>, ttl: Option<&str>) -> Record {
    Record {
        id: "9".to_string(),
        name: "www".to_string(),
        line: None,
        record_type: record_type.map(|t| t.to_string()),
        ttl: ttl.map(|t| t.to_string()),
        value: "1.2.3.4".to_string(),
        mx: None,
        enabled: None,
        status: None,
        monitor_status: None,
        remark: None,
        updated_on: None,
        hold: None,
    }
}

fn record_info_with_ttl(ttl: Option<&str>) -> RecordInfo {
    RecordInfo {
        id: "9".to_string(),
        sub_domain: "www".to_string(),
        record_type: "A".to_string(),
        record_line: "default".to_string(),
        value: "1.2.3.4".to_string(),
        mx: None,
        ttl: ttl.map(|t| t.to_string()),
        enabled: None,
        monitor_status: None,
        remark: None,
        updated_on: None,
        domain_id: None,
    }
}

#[test]
fn domain_ttl_defaults_to_600_when_absent() {
    assert_eq!(domain_with_ttl(None).get_ttl(), 600);
}

#[test]
fn domain_ttl_defaults_to_600_when_unparsable() {
    assert_eq!(domain_with_ttl(Some("abc")).get_ttl(), 600);
    assert_eq!(domain_with_ttl(Some("12x")).get_ttl(), 600);
    assert_eq!(domain_with_ttl(Some("")).get_ttl(), 600);
    assert_eq!(domain_with_ttl(Some("-1")).get_ttl(), 600);
}

#[test]
fn domain_ttl_defaults_to_600_on_overflow() {
    // One past the largest value that fits.
    assert_eq!(domain_with_ttl(Some("18446744073709551616")).get_ttl(), 600);
}

#[test]
fn domain_ttl_parses_when_present() {
    assert_eq!(domain_with_ttl(Some("3600")).get_ttl(), 3600);
    assert_eq!(domain_with_ttl(Some("0")).get_ttl(), 0);
    assert_eq!(domain_with_ttl(Some("18446744073709551615")).get_ttl(), u64::MAX);
}

#[test]
fn record_ttl_uses_caller_default() {
    assert_eq!(record_with(None, None).get_ttl(450), 450);
    assert_eq!(record_with(None, Some("junk")).get_ttl(450), 450);
    assert_eq!(record_with(None, Some("120")).get_ttl(450), 120);
}

#[test]
fn record_info_ttl_uses_caller_default() {
    assert_eq!(record_info_with_ttl(None).get_ttl(300), 300);
    assert_eq!(record_info_with_ttl(Some("86400")).get_ttl(300), 86400);
}

#[test]
fn record_type_defaults_to_a() {
    assert_eq!(record_with(None, None).get_type(), "A");
    assert_eq!(record_with(Some("TXT"), None).get_type(), "TXT");
}

#[test]
fn record_id_number_reads_as_text() {
    assert_eq!(RecordId::Number(100).as_text(), "100");
    assert_eq!(RecordId::Number(0).as_text(), "0");
    assert_eq!(RecordId::Number(u64::MAX).as_text(), "18446744073709551615");
}

#[test]
fn record_id_string_reads_as_text() {
    assert_eq!(RecordId::Text("100".to_string()).as_text(), "100");
}
