//! The errors of the verified core.

use std::time::SystemTimeError;

use vstd::prelude::*;

verus! {

/// Why building an activity was refused.
#[derive(Debug, Clone, Copy)]
pub enum ActivitySpecBuildError {
    /// An image's text or URL was given without the image itself.
    ImageAssetsTooEarly,
    /// The status display points to an element that is not set.
    StatusDisplayElementMissing(&'static str),
    /// An element's URL was given without the element itself.
    ElementURLProvidedEarly(&'static str),
}

/// The abstract content of a build error.
pub enum BuildErrorModel {
    ImageAssetsTooEarly,
    StatusDisplayElementMissing(Seq<char>),
    ElementURLProvidedEarly(Seq<char>),
}

impl View for ActivitySpecBuildError {
    type V = BuildErrorModel;

    open spec fn view(&self) -> BuildErrorModel {
        match self {
            ActivitySpecBuildError::ImageAssetsTooEarly => BuildErrorModel::ImageAssetsTooEarly,
            ActivitySpecBuildError::StatusDisplayElementMissing(s) => {
                BuildErrorModel::StatusDisplayElementMissing(s@)
            },
            ActivitySpecBuildError::ElementURLProvidedEarly(s) => BuildErrorModel::ElementURLProvidedEarly(
                s@,
            ),
        }
    }
}

/// Why the connection to Discord was lost.
#[derive(Debug, Clone)]
pub enum DisconnectReason {
    PeerClosed,
    ServerClosed,
    OldRelicComputer(String),
    ReadFrameError(String),
    SendFrameError(String),
    SendActivityError(String),
    ClearActivityError(String),
    ClientChannelClosed,
    Unknown,
}

/// Why a timestamp could not be computed.
#[derive(Debug)]
pub enum TimestampError {
    /// The system clock is set before the Unix epoch.
    SystemTime(SystemTimeError),
    /// The end of the activity lies beyond what a `u64` of seconds can hold.
    EndOverflow,
}

} // verus!
