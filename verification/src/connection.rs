//! How the connection to the service is to be opened.

use vstd::prelude::*;

verus! {

/// How many times a lost connection is meant to be opened again. The loop
/// stops at the first failure and does not consult this bound.
pub const RECONNECTION_MAX_RETRIES: u64 = 5;

/// The largest message accepted in either direction: 256 MiB.
pub const MAX_RESPONSE_SIZE: usize = 1024 * 1024 * 256;

/// A compression encoding that may be negotiated with the service.
#[derive(Clone, Copy, Debug, PartialEq, Eq)]
pub enum Compression {
    /// The gzip encoding.
    Gzip,
    /// The zstd encoding.
    Zstd,
}

/// What to ask of the transport when the connection is opened.
#[derive(Clone, Debug, PartialEq, Eq)]
pub struct ConnectionSettings {
    /// Where the service listens.
    pub endpoint: String,
    /// The encodings accepted for incoming data.
    pub accepted: Vec<Compression>,
    /// The encoding selected for outgoing data.
    pub sent: Compression,
    /// The largest incoming message, in bytes.
    pub max_decoding_message_size: usize,
    /// The largest outgoing message, in bytes.
    pub max_encoding_message_size: usize,
}

/// The settings every connection is opened with: both encodings accepted,
/// one of them selected for sending, and the same size bound both ways.
pub open spec fn settings_for(endpoint: String, settings: ConnectionSettings) -> bool {
    &&& settings.endpoint == endpoint
    &&& settings.accepted@ == seq![Compression::Gzip, Compression::Zstd]
    &&& settings.sent == Compression::Zstd
    &&& settings.max_decoding_message_size == MAX_RESPONSE_SIZE
    &&& settings.max_encoding_message_size == MAX_RESPONSE_SIZE
}

/// The settings for a connection to `endpoint`.
pub fn connection_settings(endpoint: String) -> (settings: ConnectionSettings)
    ensures
        settings_for(endpoint, settings),
{
    let mut accepted: Vec<Compression> = Vec::new();
    accepted.push(Compression::Gzip);
    accepted.push(Compression::Zstd);
    assert(accepted@ =~= seq![Compression::Gzip, Compression::Zstd]);
    ConnectionSettings {
        endpoint,
        accepted,
        sent: Compression::Zstd,
        max_decoding_message_size: MAX_RESPONSE_SIZE,
        max_encoding_message_size: MAX_RESPONSE_SIZE,
    }
}

} // verus!
