use vstd::prelude::*;
use crate::errors::{is_bad_request, AppError};

verus! {

/// The path prefix whose requests skip bearer-token validation.
pub const PUBLIC_LOGIN_ROUTE: &'static str = "/api/auth/login";

/// Whether `p` is a prefix of `s`.
pub open spec fn has_prefix(s: Seq<char>, p: Seq<char>) -> bool {
    p.len() <= s.len() && s.subrange(0, p.len() as int) == p
}

/// Whether `s` starts with `prefix`.
pub fn starts_with(s: &str, prefix: &str) -> (r: bool)
    ensures
        r == has_prefix(s@, prefix@),
{
    let n = s.unicode_len();
    let m = prefix.unicode_len();
    if m > n {
        return false;
    }
    let mut i: usize = 0;
    while i < m
        invariant
            m == prefix@.len(),
            n == s@.len(),
            m <= n,
            i <= m,
            s@.subrange(0, i as int) == prefix@.subrange(0, i as int),
        decreases m - i,
    {
        if s.get_char(i) != prefix.get_char(i) {
            assert(s@.subrange(0, m as int)[i as int] != prefix@[i as int]);
            return false;
        }
        assert(s@.subrange(0, i + 1) == s@.subrange(0, i as int).push(s@[i as int]));
        assert(prefix@.subrange(0, i + 1) == prefix@.subrange(0, i as int).push(prefix@[i as int]));
        i = i + 1;
    }
    assert(prefix@.subrange(0, m as int) == prefix@);
    true
}

/// Whether a request path is exempt from bearer-token validation.
pub open spec fn is_public_route_spec(path: Seq<char>) -> bool {
    has_prefix(path, PUBLIC_LOGIN_ROUTE@)
}

/// Whether `path` targets a public route (one that needs no bearer token).
pub fn is_public_route(path: &str) -> (r: bool)
    ensures
        r == is_public_route_spec(path@),
{
    starts_with(path, PUBLIC_LOGIN_ROUTE)
}

} // verus!

verus! {

/// A character allowed before the `@` of an email address.
pub open spec fn is_local_char(c: char) -> bool {
    ('a' <= c && c <= 'z') || ('A' <= c && c <= 'Z') || ('0' <= c && c <= '9') || c == '.' || c
        == '_' || c == '%' || c == '+' || c == '-'
}

/// A character allowed in the domain of an email address, before its last label.
pub open spec fn is_domain_char(c: char) -> bool {
    ('a' <= c && c <= 'z') || ('A' <= c && c <= 'Z') || ('0' <= c && c <= '9') || c == '.' || c
        == '-'
}

/// A character allowed in the top-level label of an email address.
pub open spec fn is_alpha_char(c: char) -> bool {
    ('a' <= c && c <= 'z') || ('A' <= c && c <= 'Z')
}

/// Whether every character of `s` in `[lo, hi)` satisfies `f`.
pub open spec fn all_in(s: Seq<char>, lo: int, hi: int, f: spec_fn(char) -> bool) -> bool {
    forall|k: int| lo <= k < hi ==> f(#[trigger] s[k])
}

/// The accepted shape of an email address: a non-empty local part, `@`,
/// a non-empty domain, `.`, and a top-level label of at least two letters,
/// with nothing before or after.
pub open spec fn is_email_shaped(s: Seq<char>) -> bool {
    exists|i: int, j: int|
        #![trigger s[i], s[j]]
        0 < i && i + 1 < j && j + 2 < s.len() && s[i] == '@' && s[j] == '.' && all_in(
            s,
            0,
            i,
            |c: char| is_local_char(c),
        ) && all_in(s, i + 1, j, |c: char| is_domain_char(c)) && all_in(
            s,
            j + 1,
            s.len() as int,
            |c: char| is_alpha_char(c),
        )
}

/// The pattern that email addresses are matched against.
pub const EMAIL_PATTERN: &'static str = r"^[a-zA-Z0-9._%+-]+@[a-zA-Z0-9.-]+\.[a-zA-Z]{2,}$";

/// Relies on `regex::Regex::new` and `regex::Regex::is_match`: the anchored
/// pattern `EMAIL_PATTERN` compiles, and matches exactly the texts that
/// `is_email_shaped` describes (its `$` matches only at the end of the text).
#[verifier::external_body]
fn email_pattern_matches(email: &str) -> (r: bool)
    ensures
        r == is_email_shaped(email@),
{
    match regex::Regex::new(EMAIL_PATTERN) {
        Ok(re) => re.is_match(email),
        Err(_) => false,
    }
}

/// Whether `email` has the shape of an email address.
pub fn is_valid_email(email: &str) -> (r: bool)
    ensures
        r == is_email_shaped(email@),
{
    email_pattern_matches(email)
}

/// The message for a required field left empty.
pub open spec fn empty_field_message(prefix: Seq<char>, field: Seq<char>) -> Seq<char> {
    prefix + ": "@ + field + " cannot be empty"@
}

/// Checks `(field name, is empty)` pairs in order: the first empty field gives
/// a `BadRequest` naming it after `error_prefix`; none empty gives `Ok`.
pub fn validate_required_fields(validations: &[(&str, bool)], error_prefix: &str) -> (r: Result<
    (),
    AppError,
>)
    ensures
        r is Ok <==> forall|k: int| 0 <= k < validations@.len() ==> !(#[trigger] validations@[k]).1,
        r is Err ==> exists|k: int|
            0 <= k < validations@.len() && (#[trigger] validations@[k]).1 && (forall|j: int|
                0 <= j < k ==> !(#[trigger] validations@[j]).1) && is_bad_request(
                r->Err_0,
                empty_field_message(error_prefix@, validations@[k].0@),
            ),
{
    let mut i: usize = 0;
    while i < validations.len()
        invariant
            i <= validations@.len(),
            forall|j: int| 0 <= j < i ==> !(#[trigger] validations@[j]).1,
        decreases validations@.len() - i,
    {
        let (field_name, is_empty) = validations[i];
        if is_empty {
            let msg = String::from_str(error_prefix).concat(": ").concat(field_name).concat(
                " cannot be empty",
            );
            return Err(AppError::BadRequest(msg));
        }
        i = i + 1;
    }
    Ok(())
}

} // verus!
