//! A simulated protocol overhead: what a request of a given size would cost
//! to send and to answer under a protocol with a fixed cost and costs in
//! proportion.

use vstd::prelude::*;
use crate::stats::Ratio;

verus! {

/// The fixed cost of an upload, in bytes: 25 megabytes.
pub const BASE_OVERHEAD: usize = 25 * 1024 * 1024;

/// The bytes uploaded for each byte of a request, beyond the fixed cost.
pub const UPLOAD_FACTOR: usize = 10;

/// The bytes of a response for each byte of its request.
pub const RESPONSE_FACTOR: usize = 10;

/// The bytes downloaded for each hundred bytes of a response.
pub const DOWNLOAD_PER_HUNDRED: usize = 4;

/// The simulated cost of one request.
#[derive(Clone, Copy, Debug, PartialEq, Eq, Structural)]
pub struct OverheadEstimate {
    /// The size of the request, in bytes.
    pub request_size: usize,
    /// The size of its response, in bytes.
    pub response_size: usize,
    /// The bytes uploaded for it.
    pub upload_total: usize,
    /// The bytes downloaded for it.
    pub download_total: usize,
    /// The bytes uploaded for each byte of the request.
    pub upload_ratio: Ratio,
    /// The bytes downloaded for each byte of the response.
    pub download_ratio: Ratio,
}

/// The bytes uploaded for a request: the fixed cost and ten times its size.
pub open spec fn upload_total(request_size: nat) -> nat {
    BASE_OVERHEAD as nat + request_size * UPLOAD_FACTOR as nat
}

/// The size of the response to a request: ten times its size.
pub open spec fn response_size(request_size: nat) -> nat {
    request_size * RESPONSE_FACTOR as nat
}

/// The bytes downloaded for a response: four hundredths of its size, rounded
/// down.
pub open spec fn download_total(response_size: nat) -> nat {
    response_size * DOWNLOAD_PER_HUNDRED as nat / 100
}

/// The simulated cost of a request of `request_size` bytes, where each of its
/// amounts fits the machine's word.
pub open spec fn overhead_of(request_size: usize) -> Option<OverheadEstimate> {
    let response = response_size(request_size as nat);
    let upload = upload_total(request_size as nat);
    let download = download_total(response);
    if upload > usize::MAX {
        None
    } else {
        Some(
            OverheadEstimate {
                request_size,
                response_size: response as usize,
                upload_total: upload as usize,
                download_total: download as usize,
                upload_ratio: Ratio { numer: upload as usize, denom: request_size },
                download_ratio: Ratio { numer: download as usize, denom: response as usize },
            },
        )
    }
}

/// Estimates the cost of a request of `request_size` bytes. There is no
/// estimate where the bytes uploaded would not fit the machine's word.
pub fn estimate_overhead(request_size: usize) -> (estimate: Option<OverheadEstimate>)
    ensures
        estimate == overhead_of(request_size),
{
    let scaled: usize = match request_size.checked_mul(UPLOAD_FACTOR) {
        Some(scaled) => scaled,
        None => { return None; },
    };
    let upload: usize = match scaled.checked_add(BASE_OVERHEAD) {
        Some(upload) => upload,
        None => { return None; },
    };
    let response: usize = request_size * RESPONSE_FACTOR;
    let download: usize = response / 25;
    Some(
        OverheadEstimate {
            request_size,
            response_size: response,
            upload_total: upload,
            download_total: download,
            upload_ratio: Ratio { numer: upload, denom: request_size },
            download_ratio: Ratio { numer: download, denom: response },
        },
    )
}

} // verus!
