//! Errors of the session layer.

use vstd::prelude::*;
use vstd::string::StringExecFns;

verus! {

/// The ways a session operation can fail.
///
/// `NotStarted` and `ChannelClosed` are operational errors of `send_audio`;
/// `InvalidRequest` and `ConnectFailed` are start-time errors, each carrying
/// the text of the underlying failure.
#[derive(Debug)]
pub enum DgError {
    /// `send_audio` was called while no session exists.
    NotStarted,
    /// The outbound relay has terminated, so the audio queue has no consumer.
    ChannelClosed,
    /// The connect request could not be built: a bad endpoint URL, or a
    /// credential that cannot be carried in an authorization header.
    InvalidRequest(String),
    /// The connect to the remote endpoint failed.
    ConnectFailed(String),
}

impl DgError {
    /// The human-readable text of this error.
    pub open spec fn spec_message(self) -> Seq<char> {
        match self {
            DgError::NotStarted => "Deepgram not started"@,
            DgError::ChannelClosed => "Audio channel closed"@,
            DgError::InvalidRequest(s) => s@,
            DgError::ConnectFailed(s) => "WS connect failed: "@ + s@,
        }
    }

    /// Renders the error as the string a caller reports.
    pub fn message(&self) -> (r: String)
        ensures
            r@ == self.spec_message(),
    {
        match self {
            DgError::NotStarted => String::from_str("Deepgram not started"),
            DgError::ChannelClosed => String::from_str("Audio channel closed"),
            DgError::InvalidRequest(s) => s.clone(),
            DgError::ConnectFailed(s) => {
                let prefix = String::from_str("WS connect failed: ");
                prefix.concat(s.as_str())
            },
        }
    }
}

} // verus!
