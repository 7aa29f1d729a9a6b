use vstd::prelude::*;

use crate::imaging::ImageError;
use crate::providers::ProviderError;

verus! {

/// Why a request failed, by the stage that failed.
#[derive(Clone, Debug)]
pub enum ProcessorError {
    /// The image could not be prepared.
    Image(ImageError),
    /// The backend gave no analysis.
    Provider(ProviderError),
    /// The request could not be sent or its answer not received.
    Transport(String),
}

} // verus!
