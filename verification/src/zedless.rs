//! Errors that may be silenced, and the fork's own feature switches.

use vstd::prelude::*;

verus! {

/// An error that a caller may be told to ignore.
#[derive(Debug, Clone)]
pub enum SilentError {
    /// The operation failed, but the error should be ignored.
    Silent,
    /// The operation failed, and the error should be handled normally.
    Error { error: String },
}

/// A feature switch of the fork. No switches are defined yet, so no value of
/// this type names one.
#[derive(Clone, Debug, PartialEq, Eq, Hash, Structural)]
pub struct ZedlessFeature {}

/// The fork's own settings.
#[derive(Clone, Debug, PartialEq, Eq)]
pub struct ZedlessSettings {
    /// The features to enable.
    pub features: Vec<ZedlessFeature>,
    /// Prediction server URL.
    pub zeta_url: Option<String>,
}

} // verus!
