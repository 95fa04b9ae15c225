//! Where a file is fetched from: its sub URL, resolved against the URL of
//! the manifest.

use vstd::prelude::*;

verus! {

/// The error with which the `url` crate refuses a URL. Nothing is known of
/// it here but which error it is.
#[verifier::external_type_specification]
#[verifier::external_body]
pub struct ExParseError(url::ParseError);

/// The serialization of the URL that `url::Url::parse` makes of `input`, or
/// the error with which it refuses `input` as an absolute URL.
pub uninterp spec fn url_parsed(input: Seq<char>) -> Result<Seq<char>, url::ParseError>;

/// The serialization of the URL that `input` refers to where it stands in a
/// document at the URL `base`, as `url::ParseOptions::parse` resolves it, or
/// the error with which `base` is refused as an absolute URL or `input` as
/// a reference.
pub uninterp spec fn url_joined(base: Seq<char>, input: Seq<char>) -> Result<
    Seq<char>,
    url::ParseError,
>;

/// Parses an absolute URL with `url::Url::parse` and hands back its
/// serialization, or the error of the parser.
#[verifier::external_body]
fn parse(input: &str) -> (r: Result<String, url::ParseError>)
    ensures
        match r {
            Ok(url) => url_parsed(input@) == Ok::<Seq<char>, url::ParseError>(url@),
            Err(error) => url_parsed(input@) == Err::<Seq<char>, url::ParseError>(error),
        },
{
    match url::Url::parse(input) {
        Ok(url) => Ok(url.into()),
        Err(error) => Err(error),
    }
}

/// Resolves `input` with `url::ParseOptions::parse`, whose base URL is what
/// `url::Url::parse` makes of `base`, and hands back the serialization of
/// the result, or the error of the parser.
#[verifier::external_body]
fn join(base: &str, input: &str) -> (r: Result<String, url::ParseError>)
    ensures
        match r {
            Ok(url) => url_joined(base@, input@) == Ok::<Seq<char>, url::ParseError>(url@),
            Err(error) => url_joined(base@, input@) == Err::<Seq<char>, url::ParseError>(error),
        },
{
    let base = match url::Url::parse(base) {
        Ok(base) => base,
        Err(error) => return Err(error),
    };
    match url::Url::options().base_url(Some(&base)).parse(input) {
        Ok(url) => Ok(url.into()),
        Err(error) => Err(error),
    }
}

/// The serialization of the absolute URL `input`.
pub fn parse_base_url(input: &str) -> (r: Result<String, url::ParseError>)
    ensures
        match r {
            Ok(url) => url_parsed(input@) == Ok::<Seq<char>, url::ParseError>(url@),
            Err(error) => url_parsed(input@) == Err::<Seq<char>, url::ParseError>(error),
        },
{
    parse(input)
}

/// The URL that `sub_url` refers to in a manifest at `base_url`: a relative
/// reference is joined onto the base, an absolute one overrides it.
pub fn resolve_file_url(base_url: &str, sub_url: &str) -> (r: Result<String, url::ParseError>)
    ensures
        match r {
            Ok(url) => url_joined(base_url@, sub_url@) == Ok::<Seq<char>, url::ParseError>(url@),
            Err(error) => url_joined(base_url@, sub_url@) == Err::<Seq<char>, url::ParseError>(
                error,
            ),
        },
{
    join(base_url, sub_url)
}

} // verus!
