//! The provider's request encoding: every call is a form-url-encoded
//! body beginning with the credential and format fields, followed by
//! `&key=value` for each parameter that is present.

use vstd::prelude::*;

verus! {

/// One form parameter as it is appended to a body: `&key=value`.
pub open spec fn form_pair(key: Seq<char>, value: Seq<char>) -> Seq<char> {
    seq!['&'] + key + seq!['='] + value
}

/// The fixed opening of every request body: the login token and the
/// JSON format selector.
pub open spec fn form_prefix(token: Seq<char>) -> Seq<char> {
    "login_token="@ + token + "&format=json"@
}

/// A parameter list encoded in order, each entry as `&key=value`.
pub open spec fn form_pairs(params: Seq<(String, String)>) -> Seq<char>
    decreases params.len(),
{
    if params.len() == 0 {
        Seq::empty()
    } else {
        form_pairs(params.drop_last()) + form_pair(params.last().0@, params.last().1@)
    }
}

/// A whole request body: the fixed prefix, then the parameters.
pub open spec fn form_body(token: Seq<char>, params: Seq<(String, String)>) -> Seq<char> {
    form_prefix(token) + form_pairs(params)
}

/// A parameter supplied at the end of the list contributes exactly
/// `&key=value`, appended after everything encoded before it; the same
/// list without it encodes to exactly the shorter body. This is what
/// makes an omitted optional parameter absent from the body outright
/// rather than present with an empty value.
pub proof fn lemma_form_body_push(
    token: Seq<char>,
    params: Seq<(String, String)>,
    key: String,
    value: String,
)
    ensures
        form_body(token, params.push((key, value))) == form_body(token, params) + form_pair(
            key@,
            value@,
        ),
{
    let pushed = params.push((key, value));
    assert(pushed.drop_last() =~= params);
    assert(pushed.last() == (key, value));
    assert(form_pairs(pushed) == form_pairs(params) + form_pair(key@, value@));
    assert(form_body(token, pushed) =~= form_body(token, params) + form_pair(key@, value@));
}

/// A one-parameter list encodes to its single `&key=value`.
pub proof fn lemma_form_pairs_one(ps: Seq<(String, String)>)
    requires
        ps.len() == 1,
    ensures
        form_pairs(ps) == form_pair(ps[0].0@, ps[0].1@),
{
    assert(ps.drop_last() =~= Seq::<(String, String)>::empty());
    assert(form_pairs(Seq::<(String, String)>::empty()) == Seq::<char>::empty());
    assert(ps.last() == ps[0]);
    assert(form_pairs(ps) =~= form_pair(ps[0].0@, ps[0].1@));
}

/// A two-parameter list encodes to its pairs in order.
pub proof fn lemma_form_pairs_two(ps: Seq<(String, String)>)
    requires
        ps.len() == 2,
    ensures
        form_pairs(ps) == form_pair(ps[0].0@, ps[0].1@) + form_pair(ps[1].0@, ps[1].1@),
{
    lemma_form_pairs_one(ps.drop_last());
    assert(ps.drop_last()[0] == ps[0]);
    assert(ps.last() == ps[1]);
    assert(form_pairs(ps) =~= form_pair(ps[0].0@, ps[0].1@) + form_pair(ps[1].0@, ps[1].1@));
}

/// A three-parameter list encodes to its pairs in order.
pub proof fn lemma_form_pairs_three(ps: Seq<(String, String)>)
    requires
        ps.len() == 3,
    ensures
        form_pairs(ps) == form_pair(ps[0].0@, ps[0].1@) + form_pair(ps[1].0@, ps[1].1@) + form_pair(
            ps[2].0@,
            ps[2].1@,
        ),
{
    lemma_form_pairs_two(ps.drop_last());
    assert(ps.drop_last()[0] == ps[0]);
    assert(ps.drop_last()[1] == ps[1]);
    assert(ps.last() == ps[2]);
    assert(form_pairs(ps) =~= form_pair(ps[0].0@, ps[0].1@) + form_pair(ps[1].0@, ps[1].1@)
        + form_pair(ps[2].0@, ps[2].1@));
}

/// Appends `&key=value` to a request body under construction.
pub(crate) fn append_pair(out: &mut String, key: &str, value: &str)
    ensures
        final(out)@ == old(out)@ + form_pair(key@, value@),
{
    out.append("&");
    out.append(key);
    out.append("=");
    out.append(value);
    proof {
        reveal_strlit("&");
        reveal_strlit("=");
        assert(out@ =~= old(out)@ + form_pair(key@, value@));
    }
}

/// Builds the fixed opening of a request body for the given token.
pub(crate) fn prefix_string(token: &str) -> (r: String)
    ensures
        r@ == form_prefix(token@),
{
    let mut s = String::from_str("login_token=");
    s.append(token);
    s.append("&format=json");
    proof {
        assert(s@ =~= form_prefix(token@));
    }
    s
}

} // verus!
