//! The health evaluator: one blocking GET request per descriptor, with the
//! outcome classified into a `HealthResult`. A transport failure is reported
//! in the result and never aborts a batch.

use vstd::prelude::*;
use crate::descriptor::EndpointDescriptor;
use crate::transport;

verus! {

/// The outcome of evaluating one endpoint. `actual_status_code` is `0`
/// exactly when no response was obtained; real status codes start at 100.
#[derive(Debug)]
pub struct HealthResult {
    /// The URL of the descriptor this result answers for.
    pub url: String,
    /// True exactly when the endpoint answered with the expected status code.
    pub is_healthy: bool,
    /// The status code the endpoint answered with, or `0` when no response
    /// was obtained.
    pub actual_status_code: u16,
    /// A description of the transport failure, present exactly when no
    /// response was obtained.
    pub error: Option<String>,
}

/// A transport outcome as spec values: the received status code, or the
/// description of the failure.
pub open spec fn outcome_view(outcome: Result<u16, String>) -> Result<u16, Seq<char>> {
    match outcome {
        Ok(code) => Ok(code),
        Err(message) => Err(message@),
    }
}

/// How a result classifies one transport outcome for an endpoint with the
/// given URL and expected status code: a received code is healthy exactly
/// when it equals the expected one; a transport failure is unhealthy with
/// the sentinel code `0` and the failure's description.
pub open spec fn classified(
    url: Seq<char>,
    expected: u16,
    outcome: Result<u16, Seq<char>>,
    r: HealthResult,
) -> bool {
    &&& r.url@ == url
    &&& match outcome {
        Ok(code) => {
            &&& r.is_healthy == (code == expected)
            &&& r.actual_status_code == code
            &&& r.error is None
        },
        Err(message) => {
            &&& !r.is_healthy
            &&& r.actual_status_code == 0
            &&& (r.error matches Some(m) && m@ == message)
        },
    }
}

/// What holds of a result whatever the transport did: the sentinel code `0`
/// and a present error report the same event, an unhealthy one; a received
/// code lies in the HTTP range and is healthy exactly when it equals the
/// expected one.
pub open spec fn evaluation_sound(url: Seq<char>, expected: u16, r: HealthResult) -> bool {
    &&& r.url@ == url
    &&& (r.error is Some <==> r.actual_status_code == 0)
    &&& (r.error is Some ==> !r.is_healthy)
    &&& (r.error is None ==> 100 <= r.actual_status_code <= 999
        && (r.is_healthy <==> r.actual_status_code == expected))
}

/// Builds the result for one transport outcome: the received status code is
/// healthy exactly when it equals the descriptor's expected one; a transport
/// failure gives the sentinel code `0` and carries the failure's description.
pub fn classify(d: &EndpointDescriptor, outcome: Result<u16, String>) -> (r: HealthResult)
    ensures
        classified(d.spec_url(), d.spec_expected(), outcome_view(outcome), r),
{
    match outcome {
        Ok(code) => HealthResult {
            url: d.url_owned(),
            is_healthy: code == d.expected_status_code(),
            actual_status_code: code,
            error: None,
        },
        Err(message) => HealthResult {
            url: d.url_owned(),
            is_healthy: false,
            actual_status_code: 0,
            error: Some(message),
        },
    }
}

/// Performs one blocking GET request against the descriptor's URL and
/// classifies the outcome. A transport failure is absorbed into the result:
/// the call always returns, with the sentinel code `0` and an error
/// description in that case.
pub fn evaluate(d: &EndpointDescriptor) -> (r: HealthResult)
    ensures
        evaluation_sound(d.spec_url(), d.spec_expected(), r),
        exists|o: Result<u16, Seq<char>>|
            #[trigger] classified(d.spec_url(), d.spec_expected(), o, r)
            && (o matches Ok(code) ==> 100 <= code <= 999),
{
    let outcome = transport::fetch_status(d.url());
    classify(d, outcome)
}

/// Evaluates each descriptor in input order: exactly one result per
/// descriptor, at the same position, and no failure of one endpoint aborts
/// the rest.
pub fn evaluate_batch(descriptors: &Vec<EndpointDescriptor>) -> (results: Vec<HealthResult>)
    ensures
        results@.len() == descriptors@.len(),
        forall|i: int| 0 <= i < descriptors@.len() ==> evaluation_sound(
            descriptors@[i].spec_url(),
            descriptors@[i].spec_expected(),
            #[trigger] results@[i],
        ),
{
    let mut results: Vec<HealthResult> = Vec::new();
    let mut idx: usize = 0;
    while idx < descriptors.len()
        invariant
            idx <= descriptors@.len(),
            results@.len() == idx,
            forall|i: int| 0 <= i < idx ==> evaluation_sound(
                descriptors@[i].spec_url(),
                descriptors@[i].spec_expected(),
                #[trigger] results@[i],
            ),
        decreases descriptors@.len() - idx,
    {
        let r = evaluate(&descriptors[idx]);
        results.push(r);
        idx = idx + 1;
    }
    results
}

/// Law: evaluation is a function of the descriptor and the observed
/// transport outcome. Two evaluations of the same URL and expected code that
/// observe the same outcome agree on the health verdict and on the reported
/// status code.
pub proof fn lemma_same_outcome_same_verdict(
    url: Seq<char>,
    expected: u16,
    outcome: Result<u16, Seq<char>>,
    r1: HealthResult,
    r2: HealthResult,
)
    requires
        classified(url, expected, outcome, r1),
        classified(url, expected, outcome, r2),
    ensures
        r1.is_healthy == r2.is_healthy,
        r1.actual_status_code == r2.actual_status_code,
        r1.error is Some <==> r2.error is Some,
        r1.url@ == r2.url@,
{
}

} // verus!
