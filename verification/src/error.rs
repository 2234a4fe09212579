use vstd::prelude::*;

verus! {

/// twilight-gateway's error for a failed shard recommendation, carried
/// through unopened.
#[verifier::external_type_specification]
#[verifier::external_body]
pub struct ExStartRecommendedError(twilight_gateway::error::StartRecommendedError);

/// twilight-http's request error, carried through unopened.
#[verifier::external_type_specification]
#[verifier::external_body]
pub struct ExHttpError(twilight_http::Error);

/// twilight-http's error for an unreadable response body, carried through
/// unopened.
#[verifier::external_type_specification]
#[verifier::external_body]
pub struct ExDeserializeBodyError(twilight_http::response::DeserializeBodyError);

/// An error of this library.
pub enum AuroraError {
    /// A command could not be mentioned: the name that was asked for, and why.
    CommandMentionError(String, String),
    /// No handler is registered for the command of this name.
    CommandHandlerNotFound(String),
    /// The gateway could not say how many shards to start with.
    ShardRecommendationError(twilight_gateway::error::StartRecommendedError),
    /// A request to Discord's HTTP API failed.
    TwilightHttpError(twilight_http::Error),
    /// A response of Discord's HTTP API could not be read.
    TwilightHttpDeserializeError(twilight_http::response::DeserializeBodyError),
}

/// A result of this library.
pub type AuroraResult<T> = Result<T, AuroraError>;

} // verus!
