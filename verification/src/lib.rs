//! Health checking for HTTP service endpoints.
//!
//! An [`descriptor::EndpointDescriptor`] pairs a URL with the status code the
//! endpoint is expected to answer with. The evaluator issues one blocking GET
//! request per descriptor and classifies the outcome into a
//! [`evaluator::HealthResult`]: healthy when the actual status code equals the
//! expected one, unhealthy otherwise, with transport failures reported in the
//! result rather than aborting the batch.

pub mod descriptor;
pub mod evaluator;
mod transport;

use vstd::prelude::*;

verus! {

/// An expected status code must lie in the valid HTTP status range.
pub open spec fn valid_expected_code(code: u16) -> bool {
    100 <= code <= 599
}

} // verus!
