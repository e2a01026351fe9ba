//! The API client: it owns the login token and encodes every
//! operation's request body exactly as the provider expects it, the
//! fixed credential prefix first, then each present parameter in the
//! operation's order, an omitted optional parameter appearing nowhere.

use vstd::prelude::*;
use crate::form::{append_pair, form_body, form_pair, form_prefix, prefix_string};
use crate::form::{form_pairs, lemma_form_pairs_one, lemma_form_pairs_three, lemma_form_pairs_two};
use crate::text::{dec_rep, u64_to_string};

verus! {

/// Base URL of the provider's RPC endpoint.
pub const DNSPOD_API_URL: &'static str = "https://api.dnspod.com";

/// Per-operation endpoint paths, appended to [`DNSPOD_API_URL`].
pub const DOMAIN_LIST_PATH: &'static str = "/Domain.List";

pub const DOMAIN_INFO_PATH: &'static str = "/Domain.Info";

pub const DOMAIN_CREATE_PATH: &'static str = "/Domain.Create";

pub const DOMAIN_REMOVE_PATH: &'static str = "/Domain.Remove";

pub const RECORD_LIST_PATH: &'static str = "/Record.List";

pub const RECORD_INFO_PATH: &'static str = "/Record.Info";

pub const RECORD_CREATE_PATH: &'static str = "/Record.Create";

pub const RECORD_MODIFY_PATH: &'static str = "/Record.Modify";

pub const RECORD_REMOVE_PATH: &'static str = "/Record.Remove";

pub const RECORD_STATUS_PATH: &'static str = "/Record.Status";

/// An optional numeric parameter's contribution to a body: nothing
/// when omitted, `&key=value` when supplied.
pub open spec fn opt_pair(key: Seq<char>, value: Option<u64>) -> Seq<char> {
    match value {
        Some(v) => form_pair(key, dec_rep(v as nat)),
        None => Seq::<char>::empty(),
    }
}

/// Body of a domain listing request.
pub open spec fn list_domains_body(
    token: Seq<char>,
    offset: Option<u32>,
    length: Option<u32>,
) -> Seq<char> {
    form_prefix(token) + opt_pair("offset"@, u32_opt(offset)) + opt_pair("length"@, u32_opt(length))
}

/// Widens an optional `u32` for [`opt_pair`].
pub open spec fn u32_opt(v: Option<u32>) -> Option<u64> {
    match v {
        Some(x) => Some(x as u64),
        None => None,
    }
}

/// Widens an optional `u16` for [`opt_pair`].
pub open spec fn u16_opt(v: Option<u16>) -> Option<u64> {
    match v {
        Some(x) => Some(x as u64),
        None => None,
    }
}

/// Body of a domain lookup by id.
pub open spec fn get_domain_body(token: Seq<char>, domain_id: Seq<char>) -> Seq<char> {
    form_prefix(token) + form_pair("domain_id"@, domain_id)
}

/// Body of a domain lookup by name.
pub open spec fn get_domain_by_name_body(token: Seq<char>, domain: Seq<char>) -> Seq<char> {
    form_prefix(token) + form_pair("domain"@, domain)
}

/// Body of a domain creation.
pub open spec fn create_domain_body(token: Seq<char>, domain: Seq<char>) -> Seq<char> {
    form_prefix(token) + form_pair("domain"@, domain)
}

/// Body of a domain removal.
pub open spec fn delete_domain_body(token: Seq<char>, domain_id: Seq<char>) -> Seq<char> {
    form_prefix(token) + form_pair("domain_id"@, domain_id)
}

/// Body of a record listing request.
pub open spec fn list_records_body(
    token: Seq<char>,
    domain_id: Seq<char>,
    offset: Option<u32>,
    length: Option<u32>,
) -> Seq<char> {
    form_prefix(token) + form_pair("domain_id"@, domain_id) + opt_pair("offset"@, u32_opt(offset))
        + opt_pair("length"@, u32_opt(length))
}

/// Body of a single-record lookup.
pub open spec fn get_record_body(
    token: Seq<char>,
    domain_id: Seq<char>,
    record_id: Seq<char>,
) -> Seq<char> {
    form_prefix(token) + form_pair("domain_id"@, domain_id) + form_pair("record_id"@, record_id)
}

/// Body of a record creation.
pub open spec fn create_record_body(
    token: Seq<char>,
    domain_id: Seq<char>,
    sub_domain: Seq<char>,
    record_type: Seq<char>,
    record_line: Seq<char>,
    value: Seq<char>,
    mx: Option<u16>,
    ttl: Option<u64>,
) -> Seq<char> {
    form_prefix(token) + form_pair("domain_id"@, domain_id) + form_pair("sub_domain"@, sub_domain)
        + form_pair("record_type"@, record_type) + form_pair("record_line"@, record_line)
        + form_pair("value"@, value) + opt_pair("mx"@, u16_opt(mx)) + opt_pair("ttl"@, ttl)
}

/// Body of a record modification; the caller resupplies every field.
pub open spec fn modify_record_body(
    token: Seq<char>,
    domain_id: Seq<char>,
    record_id: Seq<char>,
    sub_domain: Seq<char>,
    record_type: Seq<char>,
    record_line: Seq<char>,
    value: Seq<char>,
    mx: Option<u16>,
    ttl: Option<u64>,
) -> Seq<char> {
    form_prefix(token) + form_pair("domain_id"@, domain_id) + form_pair("record_id"@, record_id)
        + form_pair("sub_domain"@, sub_domain) + form_pair("record_type"@, record_type)
        + form_pair("record_line"@, record_line) + form_pair("value"@, value) + opt_pair(
        "mx"@,
        u16_opt(mx),
    ) + opt_pair("ttl"@, ttl)
}

/// Body of a record removal.
pub open spec fn delete_record_body(
    token: Seq<char>,
    domain_id: Seq<char>,
    record_id: Seq<char>,
) -> Seq<char> {
    form_prefix(token) + form_pair("domain_id"@, domain_id) + form_pair("record_id"@, record_id)
}

/// Body of a record status change.
pub open spec fn set_record_status_body(
    token: Seq<char>,
    domain_id: Seq<char>,
    record_id: Seq<char>,
    status: Seq<char>,
) -> Seq<char> {
    form_prefix(token) + form_pair("domain_id"@, domain_id) + form_pair("record_id"@, record_id)
        + form_pair("status"@, status)
}

/// An omitted optional parameter is absent from a record listing body
/// outright: with neither pagination field supplied, the body is
/// exactly the required parameters and nothing else; each supplied
/// optional appends exactly `&key=value` after everything encoded
/// before it.
pub proof fn lemma_list_records_optional_params(
    token: Seq<char>,
    domain_id: Seq<char>,
    offset: Option<u32>,
    length: Option<u32>,
)
    ensures
        list_records_body(token, domain_id, None, None) == form_prefix(token) + form_pair(
            "domain_id"@,
            domain_id,
        ),
        offset matches Some(o) ==> list_records_body(token, domain_id, offset, None)
            == list_records_body(token, domain_id, None, None) + form_pair(
            "offset"@,
            dec_rep(o as nat),
        ),
        length matches Some(l) ==> list_records_body(token, domain_id, offset, length)
            == list_records_body(token, domain_id, offset, None) + form_pair(
            "length"@,
            dec_rep(l as nat),
        ),
{
    assert(list_records_body(token, domain_id, None, None) =~= form_prefix(token) + form_pair(
        "domain_id"@,
        domain_id,
    ));
    match offset {
        Some(o) => {
            assert(list_records_body(token, domain_id, offset, None) =~= list_records_body(
                token,
                domain_id,
                None,
                None,
            ) + form_pair("offset"@, dec_rep(o as nat)));
        },
        None => {},
    }
    match length {
        Some(l) => {
            assert(list_records_body(token, domain_id, offset, length) =~= list_records_body(
                token,
                domain_id,
                offset,
                None,
            ) + form_pair("length"@, dec_rep(l as nat)));
        },
        None => {},
    }
}

/// The same for record creation: `mx` and `ttl` contribute nothing
/// when omitted, and each appends exactly `&key=value` at the end when
/// supplied.
pub proof fn lemma_create_record_optional_params(
    token: Seq<char>,
    domain_id: Seq<char>,
    sub_domain: Seq<char>,
    record_type: Seq<char>,
    record_line: Seq<char>,
    value: Seq<char>,
    mx: Option<u16>,
    ttl: Option<u64>,
)
    ensures
        create_record_body(
            token,
            domain_id,
            sub_domain,
            record_type,
            record_line,
            value,
            None,
            None,
        ) == form_prefix(token) + form_pair("domain_id"@, domain_id) + form_pair(
            "sub_domain"@,
            sub_domain,
        ) + form_pair("record_type"@, record_type) + form_pair("record_line"@, record_line)
            + form_pair("value"@, value),
        mx matches Some(m) ==> create_record_body(
            token,
            domain_id,
            sub_domain,
            record_type,
            record_line,
            value,
            mx,
            None,
        ) == create_record_body(
            token,
            domain_id,
            sub_domain,
            record_type,
            record_line,
            value,
            None,
            None,
        ) + form_pair("mx"@, dec_rep(m as nat)),
        ttl matches Some(t) ==> create_record_body(
            token,
            domain_id,
            sub_domain,
            record_type,
            record_line,
            value,
            mx,
            ttl,
        ) == create_record_body(
            token,
            domain_id,
            sub_domain,
            record_type,
            record_line,
            value,
            mx,
            None,
        ) + form_pair("ttl"@, dec_rep(t as nat)),
{
    let required = form_prefix(token) + form_pair("domain_id"@, domain_id) + form_pair(
        "sub_domain"@,
        sub_domain,
    ) + form_pair("record_type"@, record_type) + form_pair("record_line"@, record_line)
        + form_pair("value"@, value);
    assert(create_record_body(
        token,
        domain_id,
        sub_domain,
        record_type,
        record_line,
        value,
        None,
        None,
    ) =~= required);
    match mx {
        Some(m) => {
            assert(create_record_body(
                token,
                domain_id,
                sub_domain,
                record_type,
                record_line,
                value,
                mx,
                None,
            ) =~= create_record_body(
                token,
                domain_id,
                sub_domain,
                record_type,
                record_line,
                value,
                None,
                None,
            ) + form_pair("mx"@, dec_rep(m as nat)));
        },
        None => {},
    }
    match ttl {
        Some(t) => {
            assert(create_record_body(
                token,
                domain_id,
                sub_domain,
                record_type,
                record_line,
                value,
                mx,
                ttl,
            ) =~= create_record_body(
                token,
                domain_id,
                sub_domain,
                record_type,
                record_line,
                value,
                mx,
                None,
            ) + form_pair("ttl"@, dec_rep(t as nat)));
        },
        None => {},
    }
}

/// The client core: it holds the opaque login token and produces the
/// request body of every operation. The HTTP exchange itself is the
/// transport's affair.
#[derive(Debug, Clone)]
pub struct Client {
    login_token: String,
}

impl Client {
    /// The credential as it stands in every request body.
    pub closed spec fn token_view(&self) -> Seq<char> {
        self.login_token@
    }

    /// A client for the given login token; the token is opaque here
    /// and never validated.
    pub fn new(login_token: &str) -> (r: Client)
        ensures
            r.token_view() == login_token@,
    {
        Client { login_token: String::from_str(login_token) }
    }

    /// The common body layout: credential prefix, then each given
    /// parameter as `&key=value`, in order.
    fn build_form_params(&self, params: &Vec<(String, String)>) -> (r: String)
        ensures
            r@ == form_body(self.token_view(), params@),
    {
        let mut form = prefix_string(self.login_token.as_str());
        let n = params.len();
        let mut i: usize = 0;
        while i < n
            invariant
                i <= n,
                n == params@.len(),
                form@ == form_prefix(self.token_view()) + form_pairs(params@.take(i as int)),
            decreases n - i,
        {
            let pair = &params[i];
            append_pair(&mut form, pair.0.as_str(), pair.1.as_str());
            proof {
                assert(params@.take(i + 1).drop_last() =~= params@.take(i as int));
                assert(params@.take(i + 1).last() == params@[i as int]);
                assert(form@ =~= form_prefix(self.token_view()) + form_pairs(
                    params@.take(i + 1),
                ));
            }
            i = i + 1;
        }
        proof {
            assert(params@.take(n as int) =~= params@);
        }
        form
    }

    /// Request body for listing domains, with optional pagination.
    pub fn list_domains_request(&self, offset: Option<u32>, length: Option<u32>) -> (r: String)
        ensures
            r@ == list_domains_body(self.token_view(), offset, length),
    {
        let mut body = prefix_string(self.login_token.as_str());
        if let Some(o) = offset {
            let v = u64_to_string(o as u64);
            append_pair(&mut body, "offset", v.as_str());
        }
        if let Some(l) = length {
            let v = u64_to_string(l as u64);
            append_pair(&mut body, "length", v.as_str());
        }
        proof {
            assert(body@ =~= list_domains_body(self.token_view(), offset, length));
        }
        body
    }

    /// Request body for looking a domain up by id.
    pub fn get_domain_request(&self, domain_id: &str) -> (r: String)
        ensures
            r@ == get_domain_body(self.token_view(), domain_id@),
    {
        let mut params: Vec<(String, String)> = Vec::new();
        params.push((String::from_str("domain_id"), String::from_str(domain_id)));
        let body = self.build_form_params(&params);
        proof {
            lemma_form_pairs_one(params@);
            assert(body@ =~= get_domain_body(self.token_view(), domain_id@));
        }
        body
    }

    /// Request body for looking a domain up by name.
    pub fn get_domain_by_name_request(&self, domain: &str) -> (r: String)
        ensures
            r@ == get_domain_by_name_body(self.token_view(), domain@),
    {
        let mut params: Vec<(String, String)> = Vec::new();
        params.push((String::from_str("domain"), String::from_str(domain)));
        let body = self.build_form_params(&params);
        proof {
            lemma_form_pairs_one(params@);
            assert(body@ =~= get_domain_by_name_body(self.token_view(), domain@));
        }
        body
    }

    /// Request body for creating a domain.
    pub fn create_domain_request(&self, domain: &str) -> (r: String)
        ensures
            r@ == create_domain_body(self.token_view(), domain@),
    {
        let mut params: Vec<(String, String)> = Vec::new();
        params.push((String::from_str("domain"), String::from_str(domain)));
        let body = self.build_form_params(&params);
        proof {
            lemma_form_pairs_one(params@);
            assert(body@ =~= create_domain_body(self.token_view(), domain@));
        }
        body
    }

    /// Request body for removing a domain.
    pub fn delete_domain_request(&self, domain_id: &str) -> (r: String)
        ensures
            r@ == delete_domain_body(self.token_view(), domain_id@),
    {
        let mut params: Vec<(String, String)> = Vec::new();
        params.push((String::from_str("domain_id"), String::from_str(domain_id)));
        let body = self.build_form_params(&params);
        proof {
            lemma_form_pairs_one(params@);
            assert(body@ =~= delete_domain_body(self.token_view(), domain_id@));
        }
        body
    }

    /// Request body for listing a domain's records, with optional
    /// pagination.
    pub fn list_records_request(
        &self,
        domain_id: &str,
        offset: Option<u32>,
        length: Option<u32>,
    ) -> (r: String)
        ensures
            r@ == list_records_body(self.token_view(), domain_id@, offset, length),
    {
        let mut body = prefix_string(self.login_token.as_str());
        append_pair(&mut body, "domain_id", domain_id);
        if let Some(o) = offset {
            let v = u64_to_string(o as u64);
            append_pair(&mut body, "offset", v.as_str());
        }
        if let Some(l) = length {
            let v = u64_to_string(l as u64);
            append_pair(&mut body, "length", v.as_str());
        }
        proof {
            assert(body@ =~= list_records_body(self.token_view(), domain_id@, offset, length));
        }
        body
    }

    /// Request body for a single-record lookup.
    pub fn get_record_request(&self, domain_id: &str, record_id: &str) -> (r: String)
        ensures
            r@ == get_record_body(self.token_view(), domain_id@, record_id@),
    {
        let mut params: Vec<(String, String)> = Vec::new();
        params.push((String::from_str("domain_id"), String::from_str(domain_id)));
        params.push((String::from_str("record_id"), String::from_str(record_id)));
        let body = self.build_form_params(&params);
        proof {
            lemma_form_pairs_two(params@);
            assert(body@ =~= get_record_body(self.token_view(), domain_id@, record_id@));
        }
        body
    }

    /// Request body for creating a record; `mx` and `ttl` are omitted
    /// from the body outright when not supplied.
    pub fn create_record_request(
        &self,
        domain_id: &str,
        sub_domain: &str,
        record_type: &str,
        record_line: &str,
        value: &str,
        mx: Option<u16>,
        ttl: Option<u64>,
    ) -> (r: String)
        ensures
            r@ == create_record_body(
                self.token_view(),
                domain_id@,
                sub_domain@,
                record_type@,
                record_line@,
                value@,
                mx,
                ttl,
            ),
    {
        let mut body = prefix_string(self.login_token.as_str());
        append_pair(&mut body, "domain_id", domain_id);
        append_pair(&mut body, "sub_domain", sub_domain);
        append_pair(&mut body, "record_type", record_type);
        append_pair(&mut body, "record_line", record_line);
        append_pair(&mut body, "value", value);
        if let Some(m) = mx {
            let v = u64_to_string(m as u64);
            append_pair(&mut body, "mx", v.as_str());
        }
        if let Some(t) = ttl {
            let v = u64_to_string(t);
            append_pair(&mut body, "ttl", v.as_str());
        }
        proof {
            assert(body@ =~= create_record_body(
                self.token_view(),
                domain_id@,
                sub_domain@,
                record_type@,
                record_line@,
                value@,
                mx,
                ttl,
            ));
        }
        body
    }

    /// Request body for modifying a record; the provider replaces the
    /// record whole, so every field is resupplied.
    pub fn modify_record_request(
        &self,
        domain_id: &str,
        record_id: &str,
        sub_domain: &str,
        record_type: &str,
        record_line: &str,
        value: &str,
        mx: Option<u16>,
        ttl: Option<u64>,
    ) -> (r: String)
        ensures
            r@ == modify_record_body(
                self.token_view(),
                domain_id@,
                record_id@,
                sub_domain@,
                record_type@,
                record_line@,
                value@,
                mx,
                ttl,
            ),
    {
        let mut body = prefix_string(self.login_token.as_str());
        append_pair(&mut body, "domain_id", domain_id);
        append_pair(&mut body, "record_id", record_id);
        append_pair(&mut body, "sub_domain", sub_domain);
        append_pair(&mut body, "record_type", record_type);
        append_pair(&mut body, "record_line", record_line);
        append_pair(&mut body, "value", value);
        if let Some(m) = mx {
            let v = u64_to_string(m as u64);
            append_pair(&mut body, "mx", v.as_str());
        }
        if let Some(t) = ttl {
            let v = u64_to_string(t);
            append_pair(&mut body, "ttl", v.as_str());
        }
        proof {
            assert(body@ =~= modify_record_body(
                self.token_view(),
                domain_id@,
                record_id@,
                sub_domain@,
                record_type@,
                record_line@,
                value@,
                mx,
                ttl,
            ));
        }
        body
    }

    /// Request body for removing a record.
    pub fn delete_record_request(&self, domain_id: &str, record_id: &str) -> (r: String)
        ensures
            r@ == delete_record_body(self.token_view(), domain_id@, record_id@),
    {
        let mut params: Vec<(String, String)> = Vec::new();
        params.push((String::from_str("domain_id"), String::from_str(domain_id)));
        params.push((String::from_str("record_id"), String::from_str(record_id)));
        let body = self.build_form_params(&params);
        proof {
            lemma_form_pairs_two(params@);
            assert(body@ =~= delete_record_body(self.token_view(), domain_id@, record_id@));
        }
        body
    }

    /// Request body for enabling or disabling a record; `status` is
    /// the provider's enumerated string, passed through verbatim.
    pub fn set_record_status_request(
        &self,
        domain_id: &str,
        record_id: &str,
        status: &str,
    ) -> (r: String)
        ensures
            r@ == set_record_status_body(self.token_view(), domain_id@, record_id@, status@),
    {
        let mut params: Vec<(String, String)> = Vec::new();
        params.push((String::from_str("domain_id"), String::from_str(domain_id)));
        params.push((String::from_str("record_id"), String::from_str(record_id)));
        params.push((String::from_str("status"), String::from_str(status)));
        let body = self.build_form_params(&params);
        proof {
            lemma_form_pairs_three(params@);
            assert(body@ =~= set_record_status_body(
                self.token_view(),
                domain_id@,
                record_id@,
                status@,
            ));
        }
        body
    }
}

} // verus!
