//! Endpoint descriptors: a URL paired with the status code the endpoint is
//! expected to answer with, validated at construction.

use vstd::prelude::*;
use crate::valid_expected_code;

verus! {

/// Whether `url::Url::parse` accepts the string as an absolute URL.
/// The outcome depends on the characters of the string alone.
pub uninterp spec fn url_well_formed(s: Seq<char>) -> bool;

/// Relies on url::Url::parse: whether a string parses as an absolute URL
/// is a function of the string alone.
#[verifier::external_body]
fn parses_as_url(s: &str) -> (r: bool)
    ensures
        r == url_well_formed(s@),
{
    url::Url::parse(s).is_ok()
}

/// Why a descriptor could not be constructed.
#[derive(Debug, Clone, Copy, PartialEq, Eq, Structural)]
pub enum ValidationError {
    /// The URL string does not parse as an absolute URL.
    InvalidUrl,
    /// The expected status code lies outside the valid HTTP range.
    StatusCodeOutOfRange,
}

/// A service endpoint to check: a URL and the status code a healthy
/// endpoint answers with. Immutable after construction.
#[derive(Debug)]
pub struct EndpointDescriptor {
    url: String,
    expected_status_code: u16,
}

impl EndpointDescriptor {
    /// The descriptor's URL, as a sequence of characters.
    pub closed spec fn spec_url(&self) -> Seq<char> {
        self.url@
    }

    /// The status code a healthy endpoint answers with.
    pub closed spec fn spec_expected(&self) -> u16 {
        self.expected_status_code
    }

    /// Every constructed descriptor holds a well-formed URL and an
    /// expected code in the valid HTTP range.
    pub open spec fn wf(&self) -> bool {
        &&& url_well_formed(self.spec_url())
        &&& valid_expected_code(self.spec_expected())
    }

    /// Builds a descriptor, rejecting a URL that does not parse as an
    /// absolute URL and an expected code outside the valid HTTP range.
    pub fn new(url: String, expected_status_code: u16) -> (r: Result<EndpointDescriptor, ValidationError>)
        ensures
            r is Ok <==> (url_well_formed(url@) && valid_expected_code(expected_status_code)),
            r matches Ok(d) ==> d.wf() && d.spec_url() == url@ && d.spec_expected() == expected_status_code,
            !url_well_formed(url@) ==> (r matches Err(e) && e == ValidationError::InvalidUrl),
            url_well_formed(url@) && !valid_expected_code(expected_status_code)
                ==> (r matches Err(e) && e == ValidationError::StatusCodeOutOfRange),
    {
        if !parses_as_url(url.as_str()) {
            Err(ValidationError::InvalidUrl)
        } else if expected_status_code < 100 || expected_status_code > 599 {
            Err(ValidationError::StatusCodeOutOfRange)
        } else {
            Ok(EndpointDescriptor { url, expected_status_code })
        }
    }

    /// The URL this descriptor points at.
    pub fn url(&self) -> (r: &str)
        ensures
            r@ == self.spec_url(),
    {
        self.url.as_str()
    }

    /// An owned copy of the URL.
    pub fn url_owned(&self) -> (r: String)
        ensures
            r@ == self.spec_url(),
    {
        self.url.clone()
    }

    /// The status code a healthy endpoint answers with.
    pub fn expected_status_code(&self) -> (r: u16)
        ensures
            r == self.spec_expected(),
    {
        self.expected_status_code
    }
}

} // verus!
