//! The OAuth2 application: where it sends users back to, checked before it
//! is handed to the server.
use vstd::prelude::*;

use crate::error::{AppError, AppResult};

verus! {

/// What `url::Url::parse` gives for a text: the parsed URL when the text is
/// a valid absolute URL, else the text of the `url::ParseError` it reports.
pub uninterp spec fn url_parse(text: Seq<char>) -> Result<url::Url, Seq<char>>;

#[verifier::external_type_specification]
#[verifier::external_body]
pub struct ExUrl(url::Url);

/// `url::Url::parse`: parses an absolute URL. Claimed: its result is what
/// [`url_parse`] names for the text, the error given by its `Display` text.
/// `Url::parse` depends on its text alone.
#[verifier::external_body]
fn parse_url(text: &str) -> (r: Result<url::Url, String>)
    ensures
        r matches Ok(u) ==> (url_parse(text@) matches Ok(v) && v == u),
        r matches Err(m) ==> (url_parse(text@) matches Err(t) && t == m@),
{
    match url::Url::parse(text) {
        Ok(u) => Ok(u),
        Err(e) => Err(e.to_string()),
    }
}

/// The message that reports a redirect URL that does not parse.
pub open spec fn invalid_redirect_message(failure: Seq<char>) -> Seq<char> {
    "Invalid redirect URL format: "@ + failure
}

/// The redirect target, given what parsing the redirect URL gave: the URL,
/// or the parser's message under "Invalid redirect URL format".
pub fn redirect_target_from(parsed: Result<url::Url, String>) -> (r: AppResult<url::Url>)
    ensures
        parsed is Ok <==> r is Ok,
        parsed matches Ok(u) ==> r == Ok::<url::Url, AppError>(u),
        parsed matches Err(m) ==> (r matches Err(AppError::Other(t)) && t@
            == invalid_redirect_message(m@)),
{
    match parsed {
        Ok(u) => Ok(u),
        Err(m) => Err(
            AppError::Other(String::from_str("Invalid redirect URL format: ").concat(m.as_str())),
        ),
    }
}

/// The redirect target of the OAuth2 application: `redirect_url` parsed as
/// an absolute URL, or an error that says why it is not one.
pub fn redirect_target(redirect_url: &str) -> (r: AppResult<url::Url>)
    ensures
        url_parse(redirect_url@) matches Ok(u) ==> r == Ok::<url::Url, AppError>(u),
        url_parse(redirect_url@) matches Err(m) ==> (r matches Err(AppError::Other(t)) && t@
            == invalid_redirect_message(m)),
{
    let parsed = parse_url(redirect_url);
    redirect_target_from(parsed)
}

} // verus!
