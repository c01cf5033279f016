//! Statuses and URLs of HTTP.
use crate::text::decimal;
use vstd::prelude::*;

verus! {

/// A status that reports success.
pub open spec fn is_success(code: u16) -> bool {
    200 <= code < 300
}

/// The text of `reqwest::StatusCode` for a code: its number and its reason.
pub uninterp spec fn status_text(code: u16) -> Seq<char>;

/// The `Display` of `reqwest::StatusCode::from_u16`. It depends on the code alone,
/// and begins with the number and a space.
#[verifier::external_body]
pub(crate) fn describe_status(code: u16) -> (r: String)
    requires
        100 <= code <= 999,
    ensures
        r@ == status_text(code),
        (decimal(code as nat) + " "@).is_prefix_of(r@),
{
    match reqwest::StatusCode::from_u16(code) {
        Ok(status) => status.to_string(),
        Err(error) => error.to_string(),
    }
}

/// What `reqwest::Url::parse` and two appended query pairs make of a URL: the
/// URL, or the text of the error.
pub uninterp spec fn url_with_query(
    url: Seq<char>,
    key: Seq<char>,
    value: Seq<char>,
    other_key: Seq<char>,
    other_value: Seq<char>,
) -> Result<Seq<char>, Seq<char>>;

pub open spec fn url_view(r: Result<String, String>) -> Result<Seq<char>, Seq<char>> {
    match r {
        Ok(url) => Ok(url@),
        Err(error) => Err(error@),
    }
}

/// `reqwest::Url::parse`, then `query_pairs_mut` with two calls of `append_pair`.
/// The result depends on the five texts alone.
#[verifier::external_body]
pub(crate) fn append_query(url: &str, key: &str, value: &str, other_key: &str, other_value: &str) -> (r: Result<
    String,
    String,
>)
    ensures
        url_view(r) == url_with_query(url@, key@, value@, other_key@, other_value@),
{
    let mut parsed = reqwest::Url::parse(url).map_err(|error| error.to_string())?;
    parsed.query_pairs_mut().append_pair(key, value).append_pair(other_key, other_value);
    Ok(parsed.to_string())
}

/// The statuses of success are those from 200 to 299.
pub proof fn law_success_is_in_the_two_hundreds(code: u16)
    ensures
        is_success(code) <==> code / 100 == 2,
{
}

} // verus!
