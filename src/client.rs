//! The request to the provider and what becomes of its outcome.
//!
//! A lookup runs in three steps: `request_url` decides whether there is
//! anything to send; the caller sends it and decodes the answer; and
//! `conclude` turns the decoded report, or the first error met, into the
//! text to print or the error to report.

use vstd::prelude::*;
use crate::report::{Request, WeatherReport};
use crate::summary::{report_text, summarize};

verus! {

#[verifier::external_type_specification]
#[verifier::external_body]
pub struct ExUrl(url::Url);

#[verifier::external_type_specification]
#[verifier::external_body]
pub struct ExParseError(url::ParseError);

/// Whether `url::Url::parse` accepts `text`.
pub uninterp spec fn url_accepts(text: Seq<char>) -> bool;

/// Relies on `url::Url::parse`: it succeeds exactly on the texts it
/// accepts, which depends on the text alone.
#[verifier::external_body]
fn parse_url(text: &str) -> (r: Result<url::Url, url::ParseError>)
    ensures
        r is Ok <==> url_accepts(text@),
{
    url::Url::parse(text)
}

/// Why a lookup ended without a summary.
#[derive(Clone, Copy, Debug, PartialEq, Eq, Structural)]
pub enum WeatherError {
    /// No credential was available for the provider.
    MissingCredential,
    /// City and country code do not make a valid URL.
    InvalidUrl,
    /// The request could not be sent or no answer came back.
    Network,
    /// The answer is not a report of the expected shape.
    Decode,
}

/// The human-readable description of each error.
pub open spec fn error_text(e: WeatherError) -> Seq<char> {
    match e {
        WeatherError::MissingCredential => "the API_TOKEN environment variable is not set"@,
        WeatherError::InvalidUrl => "city and country code do not form a valid request URL"@,
        WeatherError::Network => "the request to the weather provider failed"@,
        WeatherError::Decode => "the weather provider's answer could not be decoded"@,
    }
}

impl WeatherError {
    /// A description of the error for the user.
    pub fn describe(&self) -> (r: String)
        ensures
            r@ == error_text(*self),
    {
        match self {
            WeatherError::MissingCredential => String::from_str(
                "the API_TOKEN environment variable is not set",
            ),
            WeatherError::InvalidUrl => String::from_str(
                "city and country code do not form a valid request URL",
            ),
            WeatherError::Network => String::from_str("the request to the weather provider failed"),
            WeatherError::Decode => String::from_str(
                "the weather provider's answer could not be decoded",
            ),
        }
    }
}

/// The request URL: city and country code in the `q` parameter and the
/// credential in `appid`, all inserted verbatim.
pub open spec fn url_text(city: Seq<char>, country_code: Seq<char>, token: Seq<char>) -> Seq<char> {
    "http://api.openweathermap.org/data/2.5/weather"@ + "?q="@ + city + ","@ + country_code
        + "&appid="@ + token
}

/// Writes the request URL for a city, a country code and a credential.
pub fn request_url_text(city: &str, country_code: &str, token: &str) -> (r: String)
    ensures
        r@ == url_text(city@, country_code@, token@),
{
    let mut out = String::from_str("http://api.openweathermap.org/data/2.5/weather");
    out.append("?q=");
    out.append(city);
    out.append(",");
    out.append(country_code);
    out.append("&appid=");
    out.append(token);
    assert(out@ =~= url_text(city@, country_code@, token@));
    out
}

/// The URL to fetch for `request` with the credential `token`, read by the
/// caller. Without a credential nothing is to be sent.
pub fn request_url(request: &Request, token: Option<&str>) -> (r: Result<url::Url, WeatherError>)
    ensures
        token is None ==> r == Err::<url::Url, WeatherError>(WeatherError::MissingCredential),
        token is Some ==> {
            let text = url_text(request.city@, request.country_code@, token->0@);
            &&& r is Ok <==> url_accepts(text)
            &&& !url_accepts(text) ==> r == Err::<url::Url, WeatherError>(WeatherError::InvalidUrl)
        },
{
    match token {
        None => Err(WeatherError::MissingCredential),
        Some(t) => {
            let text = request_url_text(request.city.as_str(), request.country_code.as_str(), t);
            match parse_url(text.as_str()) {
                Ok(u) => Ok(u),
                Err(_) => Err(WeatherError::InvalidUrl),
            }
        },
    }
}

/// The end of a lookup: the summary of a decoded report, or the first
/// error met on the way, unchanged and with no summary.
pub fn conclude(request: &Request, outcome: Result<WeatherReport, WeatherError>) -> (r: Result<
    String,
    WeatherError,
>)
    ensures
        outcome is Ok ==> r is Ok && r->Ok_0@ == report_text(*request, outcome->Ok_0),
        outcome is Err ==> r == Err::<String, WeatherError>(outcome->Err_0),
{
    match outcome {
        Ok(report) => Ok(summarize(request, &report)),
        Err(e) => Err(e),
    }
}

} // verus!
