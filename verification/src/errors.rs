use vstd::prelude::*;

verus! {

/// Every failure this library reports: credential, parse, transport,
/// decode and encode conditions, and the exchange's own error envelopes.
#[derive(Debug, Clone, PartialEq, Eq)]
pub enum KrakenError {
    /// A signed operation was attempted while no credential is configured.
    NoApiKeySet,
    /// The exchange answered with its error envelope; the payload is its message.
    KrakenError(String),
    /// The spot exchange answered with its error envelope, a list of messages.
    KrakenErrors(Vec<String>),
    /// A response or frame matched no known shape.
    CannotDeserializeResponse(String),
    /// The websocket was closed by a close frame.
    WebsocketClosed,
    /// A binary frame arrived where only text frames are protocol payloads.
    UnexpectedWebsocketBinaryContent(Vec<u8>),
    /// A currency-pair string was malformed; carries the offending input.
    ParsePairFailed(String),
    /// A symbol string was malformed; carries the offending input.
    ParseSymbolFailed(String),
    /// A currency string was malformed; carries the offending input.
    ParseCurrencyFailed(String),
    /// A control-only command was asked for a bare wire form.
    CannotSerialize,
    /// A configured API secret was not valid base64.
    Base64DecodeFailed,
}

} // verus!
