//! Building the request for one batch: the body that names the position to
//! stream from, and the metadata that authenticates and routes the call.

use crate::header_text::{is_header_text, lemma_header_text_bytes, lemma_header_text_concat};
use crate::metadata::{insert_ascii_value, metadata_entries, parse_ascii_value};
use crate::record::ResumePosition;
use tonic::metadata::MetadataMap;
use vstd::prelude::*;
use vstd::string::StringExecFns;
use vstd::utf8::encode_utf8;

verus! {

/// The metadata name under which the credential travels.
pub const GRPC_API_GATEWAY_API_KEY_HEADER: &'static str = "authorization";

/// The metadata name under which the request name travels. It identifies the
/// destination of the data.
pub const GRPC_REQUEST_NAME_HEADER: &'static str = "x-aptos-request-name";

/// Which of the two header values could not be encoded as metadata.
#[derive(Clone, Copy, Debug, PartialEq, Eq)]
pub enum InvalidMetadataError {
    /// The credential holds a character that no header value may hold.
    Authorization,
    /// The request name holds a character that no header value may hold.
    RequestName,
}

/// The request for one batch. It is built once and not changed afterwards.
#[derive(Debug)]
pub struct BatchRequest {
    starting_version: ResumePosition,
    transactions_count: Option<u64>,
    metadata: MetadataMap,
}

/// What a request for one batch says: the body fields, and the bytes of each
/// metadata value by its name.
pub struct BatchRequestView {
    pub starting_version: ResumePosition,
    pub transactions_count: Option<u64>,
    pub metadata: Map<Seq<char>, Seq<u8>>,
}

impl View for BatchRequest {
    type V = BatchRequestView;

    closed spec fn view(&self) -> BatchRequestView {
        BatchRequestView {
            starting_version: self.starting_version,
            transactions_count: self.transactions_count,
            metadata: metadata_entries(self.metadata),
        }
    }
}

impl BatchRequest {
    /// The position the batch is to start from.
    pub fn starting_version(&self) -> (version: ResumePosition)
        ensures
            version == self@.starting_version,
    {
        self.starting_version
    }

    /// How many records the service is asked to return, if a number is given.
    pub fn transactions_count(&self) -> (count: Option<u64>)
        ensures
            count == self@.transactions_count,
    {
        self.transactions_count
    }

    /// The metadata that travels with the call.
    pub fn metadata(&self) -> (metadata: &MetadataMap)
        ensures
            metadata_entries(*metadata) == self@.metadata,
    {
        &self.metadata
    }

    /// Gives the metadata up, to be attached to the call.
    pub fn into_metadata(self) -> (metadata: MetadataMap)
        ensures
            metadata_entries(metadata) == self@.metadata,
    {
        self.metadata
    }
}

/// What a call of the builder reports: the view of the request it built, or
/// the header it refused.
pub open spec fn built_view(
    built: Result<BatchRequest, InvalidMetadataError>,
) -> Result<BatchRequestView, InvalidMetadataError> {
    match built {
        Ok(request) => Ok(request@),
        Err(refused) => Err(refused),
    }
}

/// The credential as it travels: a bearer token.
pub open spec fn bearer(token: Seq<char>) -> Seq<char> {
    "Bearer "@ + token
}

/// The request that given inputs call for, or the header that cannot be
/// encoded. The credential is looked at first.
pub open spec fn request_for(
    starting_version: ResumePosition,
    transactions_count: Option<u64>,
    auth_token: Seq<char>,
    request_name: Seq<char>,
) -> Result<BatchRequestView, InvalidMetadataError> {
    if !is_header_text(auth_token) {
        Err(InvalidMetadataError::Authorization)
    } else if !is_header_text(request_name) {
        Err(InvalidMetadataError::RequestName)
    } else {
        Ok(
            BatchRequestView {
                starting_version,
                transactions_count,
                metadata: Map::empty().insert(
                    GRPC_API_GATEWAY_API_KEY_HEADER@,
                    encode_utf8(bearer(auth_token)),
                ).insert(GRPC_REQUEST_NAME_HEADER@, encode_utf8(request_name)),
            },
        )
    }
}

/// Builds the request for the batch that starts at `starting_version`.
///
/// The body carries the position and the optional count. The metadata carries
/// the credential as a bearer token and the request name, each under its own
/// name. Neither string is checked beyond what a header value must satisfy;
/// an empty one is accepted.
pub fn grpc_request_builder(
    starting_version: ResumePosition,
    transactions_count: Option<u64>,
    grpc_auth_token: String,
    processor_name: String,
) -> (built: Result<BatchRequest, InvalidMetadataError>)
    ensures
        built is Ok <==> is_header_text(grpc_auth_token@) && is_header_text(processor_name@),
        built_view(built) == request_for(
            starting_version,
            transactions_count,
            grpc_auth_token@,
            processor_name@,
        ),
{
    let mut metadata = MetadataMap::new();
    let credential = String::from_str("Bearer ").concat(grpc_auth_token.as_str());
    proof {
        reveal_strlit("Bearer ");
        reveal_strlit("authorization");
        reveal_strlit("x-aptos-request-name");
        lemma_header_text_concat("Bearer "@, grpc_auth_token@);
        lemma_header_text_bytes(credential@);
        lemma_header_text_bytes(processor_name@);
    }
    match parse_ascii_value(credential.as_str()) {
        Ok(value) => insert_ascii_value(&mut metadata, GRPC_API_GATEWAY_API_KEY_HEADER, value),
        Err(_) => {
            return Err(InvalidMetadataError::Authorization);
        },
    }
    match parse_ascii_value(processor_name.as_str()) {
        Ok(value) => insert_ascii_value(&mut metadata, GRPC_REQUEST_NAME_HEADER, value),
        Err(_) => {
            return Err(InvalidMetadataError::RequestName);
        },
    }
    Ok(BatchRequest { starting_version, transactions_count, metadata })
}

/// A request carries exactly two metadata entries: the credential as a
/// bearer token, and the request name.
pub proof fn lemma_request_carries_both_headers(
    starting_version: ResumePosition,
    transactions_count: Option<u64>,
    auth_token: Seq<char>,
    request_name: Seq<char>,
)
    requires
        is_header_text(auth_token),
        is_header_text(request_name),
    ensures
        request_for(starting_version, transactions_count, auth_token, request_name) is Ok,
        request_for(starting_version, transactions_count, auth_token, request_name) matches Ok(
            request,
        ) ==> {
            &&& request.starting_version == starting_version
            &&& request.transactions_count == transactions_count
            &&& request.metadata.dom() =~= set![
                GRPC_API_GATEWAY_API_KEY_HEADER@,
                GRPC_REQUEST_NAME_HEADER@,
            ]
            &&& request.metadata[GRPC_API_GATEWAY_API_KEY_HEADER@] == encode_utf8(
                bearer(auth_token),
            )
            &&& request.metadata[GRPC_REQUEST_NAME_HEADER@] == encode_utf8(request_name)
        },
{
    reveal_strlit("authorization");
    reveal_strlit("x-aptos-request-name");
    assert(GRPC_API_GATEWAY_API_KEY_HEADER@.len() != GRPC_REQUEST_NAME_HEADER@.len());
}

/// Building a request is a function of its inputs: two calls with the same
/// inputs report the same body fields and the same metadata, or refuse the
/// same header.
pub proof fn lemma_same_inputs_same_request(
    first: Result<BatchRequest, InvalidMetadataError>,
    second: Result<BatchRequest, InvalidMetadataError>,
    starting_version: ResumePosition,
    transactions_count: Option<u64>,
    auth_token: Seq<char>,
    request_name: Seq<char>,
)
    requires
        built_view(first) == request_for(
            starting_version,
            transactions_count,
            auth_token,
            request_name,
        ),
        built_view(second) == request_for(
            starting_version,
            transactions_count,
            auth_token,
            request_name,
        ),
    ensures
        built_view(first) == built_view(second),
{
}

} // verus!
