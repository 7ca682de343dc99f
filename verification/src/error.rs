//! The failures of the bridge and how far each of them travels.

use vstd::prelude::*;

verus! {

/// What can go wrong in the bridge.
#[derive(Debug, Clone, PartialEq, Eq)]
pub enum BridgeError {
    /// A payload handed to `emit` is not a serialized message.
    InvalidPayload,
    /// A send or a receive met a channel whose other side is gone, or that
    /// was never set up.
    ChannelClosed,
    /// The scripting callback raised; the text is what it reported.
    CallbackFailure(String),
    /// The native window or its surface could not be constructed.
    SurfaceCreationFailure(String),
    /// An instruction was applied but the surface failed to evaluate it.
    ScriptEvaluationFailure(String),
}

impl BridgeError {
    /// Whether the error is returned to the caller of the entry point in
    /// which it arose. The others are caught where they arise and reported;
    /// they end neither the loop nor the process.
    pub open spec fn spec_is_surfaced(&self) -> bool {
        match *self {
            BridgeError::InvalidPayload => true,
            BridgeError::ChannelClosed => true,
            BridgeError::SurfaceCreationFailure(_) => true,
            BridgeError::CallbackFailure(_) => false,
            BridgeError::ScriptEvaluationFailure(_) => false,
        }
    }

    /// Whether the error is returned to the caller of the entry point in
    /// which it arose, rather than reported and swallowed.
    #[verifier::when_used_as_spec(spec_is_surfaced)]
    pub fn is_surfaced(&self) -> (surfaced: bool)
        ensures
            surfaced == self.spec_is_surfaced(),
    {
        match self {
            BridgeError::InvalidPayload => true,
            BridgeError::ChannelClosed => true,
            BridgeError::SurfaceCreationFailure(_) => true,
            BridgeError::CallbackFailure(_) => false,
            BridgeError::ScriptEvaluationFailure(_) => false,
        }
    }

    /// The words that introduce the error in a report.
    pub open spec fn spec_headline(&self) -> Seq<char> {
        match *self {
            BridgeError::InvalidPayload => "invalid payload"@,
            BridgeError::ChannelClosed => "channel closed"@,
            BridgeError::CallbackFailure(_) => "callback failed: "@,
            BridgeError::SurfaceCreationFailure(_) => "surface creation failed: "@,
            BridgeError::ScriptEvaluationFailure(_) => "script evaluation failed: "@,
        }
    }

    /// What the failing side reported, where the error carries it.
    pub open spec fn spec_detail(&self) -> Seq<char> {
        match *self {
            BridgeError::InvalidPayload => Seq::empty(),
            BridgeError::ChannelClosed => Seq::empty(),
            BridgeError::CallbackFailure(detail) => detail@,
            BridgeError::SurfaceCreationFailure(detail) => detail@,
            BridgeError::ScriptEvaluationFailure(detail) => detail@,
        }
    }

    /// The error as a line for a log or for the caller: its headline followed
    /// by what the failing side reported.
    pub fn message(&self) -> (text: String)
        ensures
            text@ == self.spec_headline() + self.spec_detail(),
    {
        match self {
            BridgeError::InvalidPayload => "invalid payload".to_owned(),
            BridgeError::ChannelClosed => "channel closed".to_owned(),
            BridgeError::CallbackFailure(detail) => {
                let mut text = "callback failed: ".to_owned();
                text.append(detail.as_str());
                text
            },
            BridgeError::SurfaceCreationFailure(detail) => {
                let mut text = "surface creation failed: ".to_owned();
                text.append(detail.as_str());
                text
            },
            BridgeError::ScriptEvaluationFailure(detail) => {
                let mut text = "script evaluation failed: ".to_owned();
                text.append(detail.as_str());
                text
            },
        }
    }
}

} // verus!
