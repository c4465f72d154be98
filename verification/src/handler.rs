//! How a request of the wallet is handled.
//!
//! A handler takes one event and returns the action that comes next: the caller performs it and
//! calls the same handler again with the event that tells its outcome, until there is a reply.

use crate::message::{Message, MessageView, VERSION};
use crate::seed::{optional_bytes, RootSeed};
use crate::state::{Config, ConfigView, SeedGoal};
use crate::summary::{
    reclaim_summary, transfer_summary, GeneratePrivateTransferBatchParams,
    GenerateReclaimBatchParams, TransactionSummary, TransactionSummaryView,
};
use vstd::prelude::*;

verus! {

/// The status code of an internal server error
pub const INTERNAL_SERVER_ERROR: u16 = 500;

/// Why a request fails. `E` is the error of an action of the caller.
pub enum Fault<E> {
    /// An action of the caller failed with this error, which is passed on.
    Outside(E),
    /// The service fails the request with this status code and message.
    Status { status: u16, message: &'static str },
}

/// What a [`Fault`] says.
pub enum FaultView<E> {
    Outside(E),
    Status { status: u16, message: Seq<char> },
}

impl<E> View for Fault<E> {
    type V = FaultView<E>;

    open spec fn view(&self) -> FaultView<E> {
        match *self {
            Fault::Outside(error) => FaultView::Outside(error),
            Fault::Status { status, message } => FaultView::Status { status, message: message@ },
        }
    }
}

/// An internal server error with the given `message`.
pub open spec fn internal_error<E>(message: Seq<char>) -> FaultView<E> {
    FaultView::Status { status: INTERNAL_SERVER_ERROR, message }
}

/// Ensures that there is a `value`, and if not returns an internal server error.
pub fn ensure<T, E>(value: Option<T>, message: &'static str) -> (result: Result<T, Fault<E>>)
    ensures
        match value {
            Some(v) => result == Ok::<T, Fault<E>>(v),
            None => result matches Err(fault) && fault@ == internal_error::<E>(message@),
        },
{
    match value {
        Some(v) => Ok(v),
        None => Err(Fault::Status { status: INTERNAL_SERVER_ERROR, message }),
    }
}

/// What the user is prompted with when a request needs their password
pub enum Prompt {
    /// The name of the request
    Name(&'static str),
    /// The transaction that is to be signed
    Transaction(TransactionSummary),
}

/// What a [`Prompt`] says.
pub enum PromptView {
    Name(Seq<char>),
    Transaction(TransactionSummaryView),
}

impl View for Prompt {
    type V = PromptView;

    open spec fn view(&self) -> PromptView {
        match self {
            Prompt::Name(name) => PromptView::Name(name@),
            Prompt::Transaction(summary) => PromptView::Transaction(summary@),
        }
    }
}

/// What the wallet can ask for
#[derive(Clone, Copy, Debug, PartialEq, Eq, Structural)]
pub enum Endpoint {
    /// A sign of life
    Heartbeat,
    /// The recovery of an account
    RecoverAccount,
    /// A derived shielded address
    DeriveShieldedAddress,
    /// An asset
    GenerateAsset,
    /// Mint data
    Mint,
    /// Private transfer data
    PrivateTransfer,
    /// Reclaim data
    Reclaim,
}

/// How the body of a request is encoded
#[derive(Clone, Copy, Debug, PartialEq, Eq, Structural)]
pub enum Format {
    /// Parameters of an account recovery
    RecoverAccount,
    /// Parameters of the derivation of a shielded address
    DeriveShieldedAddress,
    /// Parameters of the generation of an asset
    GenerateAsset,
    /// Parameters of a batch of private transfers
    PrivateTransfer,
    /// Parameters of a batch that ends in a reclaim
    Reclaim,
}

/// What the service reads of a decoded body
pub enum Params {
    /// Nothing, of the parameters of an account recovery
    RecoverAccount,
    /// Nothing, of the parameters of the derivation of a shielded address
    DeriveShieldedAddress,
    /// Nothing, of the parameters of the generation of an asset
    GenerateAsset,
    /// A batch of private transfers
    PrivateTransfer(GeneratePrivateTransferBatchParams),
    /// A batch that ends in a reclaim
    Reclaim(GenerateReclaimBatchParams),
}

/// What has happened to a request. `D` is what the generation reads of a decoded body, and `E` the
/// error of a body that cannot be read. The service never looks into a `D`: that it was decoded
/// from the same body as the [`Params`] beside it is up to the caller.
pub enum Event<D, E> {
    /// The request has arrived.
    Arrived,
    /// The body was read.
    Body(Result<Vec<u8>, E>),
    /// The body was decoded, unless it is malformed.
    Decoded(Option<(Params, D)>),
    /// The request for the root seed was settled, in a state with this configuration.
    Seed { details: D, seed: Option<RootSeed>, config: Config },
    /// The data that the wallet asked for were generated and encoded, unless encoding failed.
    Generated(Option<Vec<u8>>),
}

/// A reply to the wallet
pub enum Reply {
    /// Plain text
    Text(String),
    /// A message, as JSON
    Json(Message),
}

/// What the caller of a handler does next.
pub enum Action<D, E> {
    /// Read the body of the request.
    ReadBody,
    /// Decode this body.
    Decode { format: Format, body: Vec<u8> },
    /// Request the root seed, with this prompt in case the user has to be asked, and hand the
    /// details back.
    Seed { goal: SeedGoal, prompt: Prompt, details: D },
    /// Generate what the wallet asked for at `endpoint` from the details that were handed back and
    /// the seed, with the proving keys at these paths, and encode it.
    Generate { endpoint: Endpoint, details: D, keys: Vec<String>, seed: RootSeed },
    /// Reply to the wallet.
    Reply(Result<Reply, Fault<E>>),
}

/// What an [`Event`] tells.
pub enum EventView<D, E> {
    Arrived,
    Body(Result<Seq<u8>, E>),
    Decoded(Option<(Params, D)>),
    Seed { details: D, seed: Option<Seq<u8>>, config: ConfigView },
    Generated(Option<Seq<u8>>),
}

/// What a [`Reply`] says.
pub enum ReplyView {
    Text(Seq<char>),
    Json(MessageView),
}

/// What is generated, and from what.
pub struct Job<D> {
    pub endpoint: Endpoint,
    pub details: D,
    pub keys: Seq<Seq<char>>,
    pub seed: Seq<u8>,
}

/// What an [`Action`] asks for.
pub enum ActionView<D, E> {
    ReadBody,
    Decode { format: Format, body: Seq<u8> },
    Seed { goal: SeedGoal, prompt: PromptView, details: D },
    Generate(Job<D>),
    Reply(Result<ReplyView, FaultView<E>>),
}

impl<D, E> View for Event<D, E> {
    type V = EventView<D, E>;

    open spec fn view(&self) -> EventView<D, E> {
        match *self {
            Event::Arrived => EventView::Arrived,
            Event::Body(Ok(body)) => EventView::Body(Ok(body@)),
            Event::Body(Err(error)) => EventView::Body(Err(error)),
            Event::Decoded(decoded) => EventView::Decoded(decoded),
            Event::Seed { details, seed, config } => EventView::Seed {
                details,
                seed: optional_bytes(seed),
                config: config@,
            },
            Event::Generated(Some(data)) => EventView::Generated(Some(data@)),
            Event::Generated(None) => EventView::Generated(None),
        }
    }
}

impl View for Reply {
    type V = ReplyView;

    open spec fn view(&self) -> ReplyView {
        match self {
            Reply::Text(text) => ReplyView::Text(text@),
            Reply::Json(message) => ReplyView::Json(message@),
        }
    }
}

impl<D, E> View for Action<D, E> {
    type V = ActionView<D, E>;

    open spec fn view(&self) -> ActionView<D, E> {
        match *self {
            Action::ReadBody => ActionView::ReadBody,
            Action::Decode { format, body } => ActionView::Decode { format, body: body@ },
            Action::Seed { goal, prompt, details } => ActionView::Seed {
                goal,
                prompt: prompt@,
                details,
            },
            Action::Generate { endpoint, details, keys, seed } => ActionView::Generate(
                Job {
                    endpoint,
                    details,
                    keys: keys@.map_values(|key: String| key@),
                    seed: seed@,
                },
            ),
            Action::Reply(Ok(reply)) => ActionView::Reply(Ok(reply@)),
            Action::Reply(Err(fault)) => ActionView::Reply(Err(fault@)),
        }
    }
}

/// How the body of a request at `endpoint` is encoded. Minting takes the parameters of the
/// generation of an asset. A heartbeat has no body that is read.
pub open spec fn body_format(endpoint: Endpoint) -> Option<Format> {
    match endpoint {
        Endpoint::Heartbeat => None,
        Endpoint::RecoverAccount => Some(Format::RecoverAccount),
        Endpoint::DeriveShieldedAddress => Some(Format::DeriveShieldedAddress),
        Endpoint::GenerateAsset | Endpoint::Mint => Some(Format::GenerateAsset),
        Endpoint::PrivateTransfer => Some(Format::PrivateTransfer),
        Endpoint::Reclaim => Some(Format::Reclaim),
    }
}

/// What a request at `endpoint` wants of the root seed: transactions need the user's consent.
pub open spec fn seed_goal(endpoint: Endpoint) -> SeedGoal {
    match endpoint {
        Endpoint::PrivateTransfer | Endpoint::Reclaim => SeedGoal::Check,
        _ => SeedGoal::Get,
    }
}

/// What the user is prompted with for a request at `endpoint`, unless its body was decoded to the
/// parameters of something else: the name of the request, or the summary of the transaction.
pub open spec fn seed_prompt(endpoint: Endpoint, params: Params) -> Option<PromptView> {
    match (endpoint, params) {
        (Endpoint::RecoverAccount, Params::RecoverAccount) => Some(
            PromptView::Name("recover_account"@),
        ),
        (Endpoint::DeriveShieldedAddress, Params::DeriveShieldedAddress) => Some(
            PromptView::Name("derive_shielded_address"@),
        ),
        (Endpoint::GenerateAsset, Params::GenerateAsset) => Some(
            PromptView::Name("generate_asset"@),
        ),
        (Endpoint::Mint, Params::GenerateAsset) => Some(PromptView::Name("mint"@)),
        (Endpoint::PrivateTransfer, Params::PrivateTransfer(batch)) => Some(
            PromptView::Transaction(transfer_summary(batch@)),
        ),
        (Endpoint::Reclaim, Params::Reclaim(batch)) => Some(
            PromptView::Transaction(reclaim_summary(batch)),
        ),
        _ => None,
    }
}

/// The proving keys that the generation at `endpoint` needs, by their paths.
pub open spec fn key_paths(endpoint: Endpoint, config: ConfigView) -> Seq<Seq<char>> {
    match endpoint {
        Endpoint::PrivateTransfer => seq![config.private_transfer_proving_key_path],
        Endpoint::Reclaim => seq![
            config.private_transfer_proving_key_path,
            config.reclaim_proving_key_path,
        ],
        _ => Seq::empty(),
    }
}

/// The reply that carries the `data` generated at `endpoint`. A heartbeat carries none.
pub open spec fn data_reply(endpoint: Endpoint, data: Seq<u8>) -> ReplyView {
    match endpoint {
        Endpoint::Heartbeat => heartbeat_reply(),
        Endpoint::RecoverAccount => ReplyView::Json(
            MessageView::RecoverAccount { recovered_account: data, version: VERSION@ },
        ),
        Endpoint::DeriveShieldedAddress => ReplyView::Json(
            MessageView::ShieldedAddress { address: data, version: "0.0.0"@ },
        ),
        Endpoint::GenerateAsset => ReplyView::Json(
            MessageView::Asset { asset: data, version: VERSION@ },
        ),
        Endpoint::Mint => ReplyView::Json(MessageView::Mint { mint_data: data, version: VERSION@ }),
        Endpoint::PrivateTransfer => ReplyView::Json(
            MessageView::PrivateTransfer { private_transfer_data: data, version: VERSION@ },
        ),
        Endpoint::Reclaim => ReplyView::Json(
            MessageView::Reclaim { reclaim_data: data, version: VERSION@ },
        ),
    }
}

/// The reply to a heartbeat.
pub open spec fn heartbeat_reply() -> ReplyView {
    ReplyView::Text("heartbeat"@)
}

/// What the handler of `endpoint` does on an event. A heartbeat is replied to at once. Any other
/// handler reads the body, decodes it, requests the seed, generates the data and replies with
/// them, in this order. An unreadable body is replied to with the error of the read; anything else
/// that is missing, with an internal server error without a message. A body that was decoded to
/// the parameters of something else counts as malformed.
pub open spec fn reaction<D, E>(endpoint: Endpoint, event: EventView<D, E>) -> ActionView<D, E> {
    match body_format(endpoint) {
        None => ActionView::Reply(Ok(heartbeat_reply())),
        Some(format) => match event {
            EventView::Arrived => ActionView::ReadBody,
            EventView::Body(Ok(body)) => ActionView::Decode { format, body },
            EventView::Body(Err(error)) => ActionView::Reply(Err(FaultView::Outside(error))),
            EventView::Decoded(Some((params, details))) => match seed_prompt(endpoint, params) {
                Some(prompt) => ActionView::Seed { goal: seed_goal(endpoint), prompt, details },
                None => ActionView::Reply(Err(internal_error(""@))),
            },
            EventView::Seed { details, seed: Some(seed), config } => ActionView::Generate(
                Job { endpoint, details, keys: key_paths(endpoint, config), seed },
            ),
            EventView::Generated(Some(data)) => ActionView::Reply(Ok(data_reply(endpoint, data))),
            EventView::Decoded(None) | EventView::Seed { seed: None, .. } | EventView::Generated(
                None,
            ) => ActionView::Reply(Err(internal_error(""@))),
        },
    }
}

/// Returns the paths of the proving keys that the generation at `endpoint` needs.
pub fn proving_keys(endpoint: Endpoint, config: &Config) -> (keys: Vec<String>)
    ensures
        keys@.map_values(|key: String| key@) == key_paths(endpoint, config@),
{
    let keys = match endpoint {
        Endpoint::PrivateTransfer => vec![config.private_transfer_proving_key_path.clone()],
        Endpoint::Reclaim => vec![
            config.private_transfer_proving_key_path.clone(),
            config.reclaim_proving_key_path.clone(),
        ],
        _ => Vec::new(),
    };
    assert(keys@.map_values(|key: String| key@) =~= key_paths(endpoint, config@));
    keys
}

/// How far an event takes a handler: to an action, or to what handlers do differently.
pub(crate) enum Progress<D, E> {
    /// The next action
    Act(Action<D, E>),
    /// The body is decoded.
    Decoded(Params, D),
    /// The data are generated.
    Generated(Vec<u8>),
}

/// Takes an event as far as all handlers but that of the heartbeat do alike. `format` is that of
/// the body.
pub(crate) fn progress<D, E>(
    endpoint: Endpoint,
    format: Format,
    event: Event<D, E>,
) -> (progress: Progress<D, E>)
    requires
        body_format(endpoint) == Some(format),
    ensures
        match progress {
            Progress::Act(action) => action@ == reaction(endpoint, event@),
            Progress::Decoded(params, details) => event@ == EventView::<D, E>::Decoded(
                Some((params, details)),
            ),
            Progress::Generated(data) => event@ == EventView::<D, E>::Generated(Some(data@)),
        },
{
    match event {
        Event::Arrived => Progress::Act(Action::ReadBody),
        Event::Body(Ok(body)) => Progress::Act(Action::Decode { format, body }),
        Event::Body(Err(error)) => Progress::Act(Action::Reply(Err(Fault::Outside(error)))),
        Event::Decoded(decoded) => match ensure(decoded, "") {
            Ok((params, details)) => Progress::Decoded(params, details),
            Err(fault) => Progress::Act(Action::Reply(Err(fault))),
        },
        Event::Seed { details, seed, config } => match ensure(seed, "") {
            Ok(seed) => {
                let keys = proving_keys(endpoint, &config);
                Progress::Act(Action::Generate { endpoint, details, keys, seed })
            },
            Err(fault) => Progress::Act(Action::Reply(Err(fault))),
        },
        Event::Generated(data) => match ensure(data, "") {
            Ok(data) => Progress::Generated(data),
            Err(fault) => Progress::Act(Action::Reply(Err(fault))),
        },
    }
}

/// Requests the root seed with `prompt`, or replies with an internal server error if there is none
/// because the body was decoded to the parameters of something else.
pub(crate) fn request_seed<D, E>(
    goal: SeedGoal,
    prompt: Option<Prompt>,
    details: D,
) -> (action: Action<D, E>)
    ensures
        action@ == (match prompt {
            Some(p) => ActionView::<D, E>::Seed { goal, prompt: p@, details },
            None => ActionView::<D, E>::Reply(Err(internal_error(""@))),
        }),
{
    match ensure(prompt, "") {
        Ok(prompt) => Action::Seed { goal, prompt, details },
        Err(fault) => Action::Reply(Err(fault)),
    }
}

} // verus!
