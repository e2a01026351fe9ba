//! The provider's response shapes, decoded into plain typed values,
//! and the envelope check every operation applies: status code `"1"`
//! is the sole success signal, except that record listing treats code
//! `"10"` as success with an empty record collection.

use vstd::prelude::*;
use crate::error::DnspodError;
use crate::text::{dec_rep, dec_value, parses_as_u64, parse_u64, string_eq, u64_to_string};
use crate::DEFAULT_DOMAIN_TTL;

verus! {

/// The status envelope present on every response.
#[derive(Debug, Clone)]
pub struct Status {
    pub code: String,
    pub message: String,
    pub created_at: Option<String>,
}

/// A TTL carried as optional text: its parsed value, or the given
/// default when the field is absent or not a decimal number.
pub open spec fn ttl_or_default(ttl: Option<String>, default_ttl: u64) -> u64 {
    match ttl {
        Some(t) => if parses_as_u64(t@) {
            dec_value(t@) as u64
        } else {
            default_ttl
        },
        None => default_ttl,
    }
}

/// Parses an optional textual TTL, falling back to the default.
fn parse_ttl(ttl: &Option<String>, default_ttl: u64) -> (r: u64)
    ensures
        r == ttl_or_default(*ttl, default_ttl),
{
    match ttl {
        Some(t) => match parse_u64(t.as_str()) {
            Some(v) => v,
            None => default_ttl,
        },
        None => default_ttl,
    }
}

/// A zone as the provider reports it; secondary fields stay optional
/// text exactly as received.
#[derive(Debug, Clone)]
pub struct Domain {
    pub id: String,
    pub name: String,
    pub punycode: Option<String>,
    pub grade: Option<String>,
    pub grade_title: Option<String>,
    pub status: Option<String>,
    pub ext_status: Option<String>,
    pub records: Option<String>,
    pub group_id: Option<String>,
    pub is_mark: Option<String>,
    pub remark: Option<String>,
    pub is_vip: Option<String>,
    pub searchengine_push: Option<String>,
    pub beian: Option<String>,
    pub created_on: Option<String>,
    pub updated_on: Option<String>,
    pub ttl: Option<String>,
    pub owner: Option<String>,
    pub user_id: Option<String>,
}

impl Domain {
    /// The zone's TTL; 600 seconds when absent or unparsable.
    pub fn get_ttl(&self) -> (r: u64)
        ensures
            r == ttl_or_default(self.ttl, DEFAULT_DOMAIN_TTL),
    {
        parse_ttl(&self.ttl, DEFAULT_DOMAIN_TTL)
    }
}

/// Aggregate counters attached to a domain listing.
#[derive(Debug, Clone)]
pub struct DomainListInfo {
    pub domain_total: Option<u32>,
    pub all_total: Option<u32>,
    pub mine_total: Option<u32>,
    pub share_total: Option<u32>,
    pub vip_total: Option<u32>,
    pub ismark_total: Option<u32>,
    pub pause_total: Option<u32>,
    pub error_total: Option<u32>,
    pub lock_total: Option<u32>,
    pub spam_total: Option<u32>,
    pub vip_expire: Option<u32>,
    pub share_out_total: Option<u32>,
}

/// An identifier that the provider serializes sometimes as a JSON
/// string and sometimes as a JSON number; it is normalized to one
/// canonical text form by [`RecordId::as_text`].
#[derive(Debug, Clone)]
pub enum RecordId {
    Text(String),
    Number(u64),
}

/// The canonical text of a polymorphic identifier: the string itself,
/// or the decimal numeral of the number.
pub open spec fn record_id_text(id: RecordId) -> Seq<char> {
    match id {
        RecordId::Text(s) => s@,
        RecordId::Number(n) => dec_rep(n as nat),
    }
}

impl RecordId {
    /// The identifier as text, whichever way it arrived.
    pub fn as_text(&self) -> (r: String)
        ensures
            r@ == record_id_text(*self),
    {
        match self {
            RecordId::Text(s) => s.clone(),
            RecordId::Number(n) => u64_to_string(*n),
        }
    }
}

/// A resource record as reported in a record listing.
#[derive(Debug, Clone)]
pub struct Record {
    pub id: String,
    pub name: String,
    pub line: Option<String>,
    pub record_type: Option<String>,
    pub ttl: Option<String>,
    pub value: String,
    pub mx: Option<String>,
    pub enabled: Option<String>,
    pub status: Option<String>,
    pub monitor_status: Option<String>,
    pub remark: Option<String>,
    pub updated_on: Option<String>,
    pub hold: Option<String>,
}

/// A record type carried as optional text: itself, or `"A"` when the
/// field is absent.
pub open spec fn type_or_default(record_type: Option<String>) -> Seq<char> {
    match record_type {
        Some(t) => t@,
        None => "A"@,
    }
}

impl Record {
    /// The record's TTL; the caller-supplied default when absent or
    /// unparsable.
    pub fn get_ttl(&self, default_ttl: u64) -> (r: u64)
        ensures
            r == ttl_or_default(self.ttl, default_ttl),
    {
        parse_ttl(&self.ttl, default_ttl)
    }

    /// The record's type; `"A"` when the field is absent.
    pub fn get_type(&self) -> (r: &str)
        ensures
            r@ == type_or_default(self.record_type),
    {
        match &self.record_type {
            Some(t) => t.as_str(),
            None => "A",
        }
    }
}

/// A record as reported by the single-record lookup.
#[derive(Debug, Clone)]
pub struct RecordInfo {
    pub id: String,
    pub sub_domain: String,
    pub record_type: String,
    pub record_line: String,
    pub value: String,
    pub mx: Option<String>,
    pub ttl: Option<String>,
    pub enabled: Option<String>,
    pub monitor_status: Option<String>,
    pub remark: Option<String>,
    pub updated_on: Option<String>,
    pub domain_id: Option<String>,
}

impl RecordInfo {
    /// The record's TTL; the caller-supplied default when absent or
    /// unparsable.
    pub fn get_ttl(&self, default_ttl: u64) -> (r: u64)
        ensures
            r == ttl_or_default(self.ttl, default_ttl),
    {
        parse_ttl(&self.ttl, default_ttl)
    }
}

/// Counters attached to a record listing.
#[derive(Debug, Clone)]
pub struct RecordListInfo {
    pub sub_domains: Option<String>,
    pub record_total: Option<String>,
}

/// The domain block attached to a record listing.
#[derive(Debug, Clone)]
pub struct RecordListDomain {
    pub id: String,
    pub name: String,
    pub punycode: Option<String>,
    pub grade: Option<String>,
    pub owner: Option<String>,
}

/// The domain block attached to a single-record lookup.
#[derive(Debug, Clone)]
pub struct RecordInfoDomain {
    pub id: String,
    pub domain: String,
    pub domain_grade: Option<String>,
}

/// The payload of a domain creation.
#[derive(Debug, Clone)]
pub struct DomainCreateDomain {
    pub id: String,
    pub punycode: Option<String>,
    pub domain: Option<String>,
}

/// The payload of a record creation.
#[derive(Debug, Clone)]
pub struct RecordCreateRecord {
    pub id: String,
    pub name: String,
    pub status: Option<String>,
}

/// The payload of a record modification; the id arrives as string or
/// number.
#[derive(Debug, Clone)]
pub struct RecordModifyRecord {
    pub id: RecordId,
    pub name: String,
    pub value: Option<String>,
    pub status: Option<String>,
}

/// The payload of a record status change; the id arrives as string or
/// number.
#[derive(Debug, Clone)]
pub struct RecordStatusRecord {
    pub id: RecordId,
    pub name: String,
    pub status: Option<String>,
}

/// A response carrying the envelope alone.
#[derive(Debug, Clone)]
pub struct StatusResponse {
    pub status: Status,
}

impl StatusResponse {
    /// Envelope check: code `"1"` passes the response through whole;
    /// every other code is the provider's failure, carried verbatim.
    pub fn into_result(self) -> (r: Result<StatusResponse, DnspodError>)
        ensures
            self.status.code@ == "1"@ ==> r == Ok::<StatusResponse, DnspodError>(self),
            self.status.code@ != "1"@ ==> (r matches Err(e) && e matches DnspodError::Api(s) && s
                == self.status),
    {
        if string_eq(&self.status.code, "1") {
            Ok(self)
        } else {
            Err(DnspodError::Api(self.status))
        }
    }
}

/// The response to a domain listing.
#[derive(Debug, Clone)]
pub struct DomainListResponse {
    pub status: Status,
    pub info: Option<DomainListInfo>,
    pub domains: Option<Vec<Domain>>,
}

impl DomainListResponse {
    /// Envelope check: code `"1"` passes the response through whole;
    /// every other code is the provider's failure, carried verbatim.
    pub fn into_result(self) -> (r: Result<DomainListResponse, DnspodError>)
        ensures
            self.status.code@ == "1"@ ==> r == Ok::<DomainListResponse, DnspodError>(self),
            self.status.code@ != "1"@ ==> (r matches Err(e) && e matches DnspodError::Api(s) && s
                == self.status),
    {
        if string_eq(&self.status.code, "1") {
            Ok(self)
        } else {
            Err(DnspodError::Api(self.status))
        }
    }
}

/// The response to a domain lookup.
#[derive(Debug, Clone)]
pub struct DomainInfoResponse {
    pub status: Status,
    pub domain: Domain,
}

impl DomainInfoResponse {
    /// Envelope check: code `"1"` passes the response through whole;
    /// every other code is the provider's failure, carried verbatim.
    pub fn into_result(self) -> (r: Result<DomainInfoResponse, DnspodError>)
        ensures
            self.status.code@ == "1"@ ==> r == Ok::<DomainInfoResponse, DnspodError>(self),
            self.status.code@ != "1"@ ==> (r matches Err(e) && e matches DnspodError::Api(s) && s
                == self.status),
    {
        if string_eq(&self.status.code, "1") {
            Ok(self)
        } else {
            Err(DnspodError::Api(self.status))
        }
    }
}

/// The response to a domain creation.
#[derive(Debug, Clone)]
pub struct DomainCreateResponse {
    pub status: Status,
    pub domain: DomainCreateDomain,
}

impl DomainCreateResponse {
    /// Envelope check: code `"1"` passes the response through whole;
    /// every other code is the provider's failure, carried verbatim.
    pub fn into_result(self) -> (r: Result<DomainCreateResponse, DnspodError>)
        ensures
            self.status.code@ == "1"@ ==> r == Ok::<DomainCreateResponse, DnspodError>(self),
            self.status.code@ != "1"@ ==> (r matches Err(e) && e matches DnspodError::Api(s) && s
                == self.status),
    {
        if string_eq(&self.status.code, "1") {
            Ok(self)
        } else {
            Err(DnspodError::Api(self.status))
        }
    }
}

/// The response to a record listing.
#[derive(Debug, Clone)]
pub struct RecordListResponse {
    pub status: Status,
    pub domain: Option<RecordListDomain>,
    pub info: Option<RecordListInfo>,
    pub records: Option<Vec<Record>>,
}

impl RecordListResponse {
    /// Envelope check for record listing alone: code `"1"` passes the
    /// response through whole; code `"10"` is the provider's "no
    /// records match" signal and becomes success with the record
    /// collection present and empty, whatever else the response held;
    /// every other code is the provider's failure, carried verbatim.
    pub fn into_result(self) -> (r: Result<RecordListResponse, DnspodError>)
        ensures
            self.status.code@ == "1"@ ==> r == Ok::<RecordListResponse, DnspodError>(self),
            self.status.code@ == "10"@ ==> (r matches Ok(ok) && ok.status == self.status
                && ok.domain == self.domain && ok.info == self.info && (ok.records matches Some(
                recs,
            ) && recs@ == Seq::<Record>::empty())),
            self.status.code@ != "1"@ && self.status.code@ != "10"@ ==> (r matches Err(e)
                && e matches DnspodError::Api(s) && s == self.status),
    {
        proof {
            reveal_strlit("1");
            reveal_strlit("10");
            assert("1"@.len() == 1);
            assert("10"@.len() == 2);
            assert("1"@ != "10"@);
        }
        if string_eq(&self.status.code, "1") {
            Ok(self)
        } else if string_eq(&self.status.code, "10") {
            // The provider's documented empty-result signal for this
            // one operation: success, with no records.
            let empty: Vec<Record> = Vec::new();
            Ok(RecordListResponse {
                status: self.status,
                domain: self.domain,
                info: self.info,
                records: Some(empty),
            })
        } else {
            Err(DnspodError::Api(self.status))
        }
    }
}

/// The response to a single-record lookup.
#[derive(Debug, Clone)]
pub struct RecordInfoResponse {
    pub status: Status,
    pub domain: RecordInfoDomain,
    pub record: RecordInfo,
}

impl RecordInfoResponse {
    /// Envelope check: code `"1"` passes the response through whole;
    /// every other code is the provider's failure, carried verbatim.
    pub fn into_result(self) -> (r: Result<RecordInfoResponse, DnspodError>)
        ensures
            self.status.code@ == "1"@ ==> r == Ok::<RecordInfoResponse, DnspodError>(self),
            self.status.code@ != "1"@ ==> (r matches Err(e) && e matches DnspodError::Api(s) && s
                == self.status),
    {
        if string_eq(&self.status.code, "1") {
            Ok(self)
        } else {
            Err(DnspodError::Api(self.status))
        }
    }
}

/// The response to a record creation.
#[derive(Debug, Clone)]
pub struct RecordCreateResponse {
    pub status: Status,
    pub record: RecordCreateRecord,
}

impl RecordCreateResponse {
    /// Envelope check: code `"1"` passes the response through whole;
    /// every other code is the provider's failure, carried verbatim.
    pub fn into_result(self) -> (r: Result<RecordCreateResponse, DnspodError>)
        ensures
            self.status.code@ == "1"@ ==> r == Ok::<RecordCreateResponse, DnspodError>(self),
            self.status.code@ != "1"@ ==> (r matches Err(e) && e matches DnspodError::Api(s) && s
                == self.status),
    {
        if string_eq(&self.status.code, "1") {
            Ok(self)
        } else {
            Err(DnspodError::Api(self.status))
        }
    }
}

/// The response to a record modification.
#[derive(Debug, Clone)]
pub struct RecordModifyResponse {
    pub status: Status,
    pub record: RecordModifyRecord,
}

impl RecordModifyResponse {
    /// Envelope check: code `"1"` passes the response through whole;
    /// every other code is the provider's failure, carried verbatim.
    pub fn into_result(self) -> (r: Result<RecordModifyResponse, DnspodError>)
        ensures
            self.status.code@ == "1"@ ==> r == Ok::<RecordModifyResponse, DnspodError>(self),
            self.status.code@ != "1"@ ==> (r matches Err(e) && e matches DnspodError::Api(s) && s
                == self.status),
    {
        if string_eq(&self.status.code, "1") {
            Ok(self)
        } else {
            Err(DnspodError::Api(self.status))
        }
    }
}

/// The response to a record status change.
#[derive(Debug, Clone)]
pub struct RecordStatusResponse {
    pub status: Status,
    pub record: RecordStatusRecord,
}

impl RecordStatusResponse {
    /// Envelope check: code `"1"` passes the response through whole;
    /// every other code is the provider's failure, carried verbatim.
    pub fn into_result(self) -> (r: Result<RecordStatusResponse, DnspodError>)
        ensures
            self.status.code@ == "1"@ ==> r == Ok::<RecordStatusResponse, DnspodError>(self),
            self.status.code@ != "1"@ ==> (r matches Err(e) && e matches DnspodError::Api(s) && s
                == self.status),
    {
        if string_eq(&self.status.code, "1") {
            Ok(self)
        } else {
            Err(DnspodError::Api(self.status))
        }
    }
}

} // verus!
