//! The interface of the registry: the messages it accepts, the outbound
//! requests it emits for the caller to perform, and the answers its queries
//! return.

use vstd::prelude::*;

use crate::error::{ContractError, ErrorView};
use crate::state::MirroredData;
use crate::state::WrapData;

verus! {

/// One-time setup: the controlling authority and the code reference used to
/// create mirror collections.
#[derive(Clone, Debug, PartialEq, Eq)]
pub struct InstantiateMsg {
    pub controller: String,
    pub cw721_code_id: u64,
}

/// The mutating operations.
#[derive(Debug, PartialEq, Eq)]
pub enum ExecuteMsg {
    /// Escrow the named assets of a registered original collection and mint
    /// their mirrors to the caller.
    Wrap { collection_address: String, token_ids: Vec<String> },
    /// Burn the named mirror assets and release the escrowed originals back
    /// to the caller. Keyed by the mirror collection's identity.
    Unwrap { collection_address: String, token_ids: Vec<String> },
    /// Pair an original collection with a new mirror collection.
    RegisterCollection { original_collection: String, new_collection: MirroredData },
}

/// The read-only queries.
#[derive(Clone, Debug, PartialEq, Eq)]
pub enum QueryMsg {
    /// The controlling authority.
    Controller {},
    /// The record registered for an original collection.
    OriginalCollectionInfo { collection_address: String },
    /// The record published for a mirror collection.
    MirroredCollectionInfo { collection_address: String },
    /// The record stored under a record id.
    WrapData { index: u64 },
}

/// What a query returns.
#[derive(Debug, PartialEq, Eq)]
pub enum QueryAnswer {
    Controller { controller: String },
    OriginalCollectionInfo { index: u64, data: WrapData },
    MirroredCollectionInfo { index: u64, data: WrapData },
    WrapDataInfo { data: WrapData },
}

/// Kept for compatibility with the wider interface; no operation here
/// produces it.
#[derive(Clone, Debug, PartialEq, Eq)]
pub struct ReceiverResponse {
    pub name: String,
    pub address: String,
}

/// Kept for compatibility with the wider interface; no operation here
/// produces it.
#[derive(Clone, Debug, PartialEq, Eq)]
pub struct ExchangingInfoResponse {
    pub accepted_denom: String,
    pub token_address: String,
    pub price_feed: String,
}

/// An outbound request the caller must perform. The whole list of one
/// operation stands or falls together: the caller commits them only as one
/// unit, and an operation that errors emits none at all.
#[derive(Debug, PartialEq, Eq)]
pub enum Request {
    /// Create the mirror collection for a newly registered original. The
    /// correlation token tags the creation so its completion can be handed
    /// to [`crate::contract::reply`].
    CreateMirror {
        correlation_token: u64,
        code_id: u64,
        name: String,
        symbol: String,
        minter: String,
        admin: String,
    },
    /// Move an asset of a collection to a new holder.
    Transfer { collection: String, recipient: String, token_id: String },
    /// Mint a mirror asset to a holder, carrying its descriptive reference.
    Mint { collection: String, owner: String, token_id: String, token_uri: Option<String> },
    /// Destroy a mirror asset.
    Burn { collection: String, token_id: String },
}

/// Mathematical model of a [`Request`] value.
#[verifier::ext_equal]
pub enum RequestView {
    CreateMirror {
        correlation_token: u64,
        code_id: u64,
        name: Seq<char>,
        symbol: Seq<char>,
        minter: Seq<char>,
        admin: Seq<char>,
    },
    Transfer { collection: Seq<char>, recipient: Seq<char>, token_id: Seq<char> },
    Mint {
        collection: Seq<char>,
        owner: Seq<char>,
        token_id: Seq<char>,
        token_uri: Option<Seq<char>>,
    },
    Burn { collection: Seq<char>, token_id: Seq<char> },
}

impl View for Request {
    type V = RequestView;

    open spec fn view(&self) -> RequestView {
        match self {
            Request::CreateMirror { correlation_token, code_id, name, symbol, minter, admin } => {
                RequestView::CreateMirror {
                    correlation_token: *correlation_token,
                    code_id: *code_id,
                    name: name@,
                    symbol: symbol@,
                    minter: minter@,
                    admin: admin@,
                }
            },
            Request::Transfer { collection, recipient, token_id } => {
                RequestView::Transfer {
                    collection: collection@,
                    recipient: recipient@,
                    token_id: token_id@,
                }
            },
            Request::Mint { collection, owner, token_id, token_uri } => {
                RequestView::Mint {
                    collection: collection@,
                    owner: owner@,
                    token_id: token_id@,
                    token_uri: token_uri.deep_view(),
                }
            },
            Request::Burn { collection, token_id } => {
                RequestView::Burn { collection: collection@, token_id: token_id@ }
            },
        }
    }
}

impl DeepView for Request {
    type V = RequestView;

    open spec fn deep_view(&self) -> RequestView {
        self.view()
    }
}

/// An advisory attribute of an operation's outcome: a method tag or an
/// echoed input, for observability. Not part of the correctness contract.
#[derive(Clone, Debug, PartialEq, Eq)]
pub struct Attribute {
    pub key: String,
    pub value: String,
}

/// The structured outcome of a successful mutating operation: the outbound
/// requests to perform, and advisory attributes.
#[derive(Debug, PartialEq, Eq)]
pub struct Response {
    pub requests: Vec<Request>,
    pub attributes: Vec<Attribute>,
}

impl View for Response {
    type V = Seq<RequestView>;

    open spec fn view(&self) -> Seq<RequestView> {
        self.requests.deep_view()
    }
}

/// The model an operation's outcome denotes: the emitted requests on
/// success, the error on refusal. Attributes are advisory and carry no
/// weight here.
pub open spec fn outcome_view(r: Result<Response, ContractError>) -> Result<
    Seq<RequestView>,
    ErrorView,
> {
    match r {
        Ok(resp) => Ok(resp@),
        Err(e) => Err(e@),
    }
}

} // verus!
