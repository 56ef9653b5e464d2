use vstd::prelude::*;

verus! {

/// Why a configuration was refused by `build`.
#[derive(Clone, Copy, Debug, PartialEq, Eq, Structural)]
pub enum ConfigProblem {
    EmptyHost,
    EmptyClientId,
    EmptySubscribedTopic,
    EmptyPublishingTopic,
    QualityOfServiceOutOfRange,
}

/// The errors of a session.
#[derive(Clone, Copy, Debug, PartialEq, Eq, Structural)]
pub enum SessionError {
    /// Invalid builder input, detected before any I/O.
    ConfigError(ConfigProblem),
    /// The transport could not connect or reconnect.
    ConnectionError,
    /// The subscription was not possible or was rejected.
    SubscriptionError,
    /// The publication was not possible or was rejected.
    PublishError,
    /// An inbound payload is not valid UTF-8.
    DecodeError,
}

} // verus!
