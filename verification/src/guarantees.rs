//! What the service does, in terms of what goes into its functions and what comes out.

use crate::base58::base58_text;
use crate::handler::{
    ensure, proving_keys, Action, Endpoint, Event, Fault, Format, Params, Prompt, Reply,
};
use crate::message::{Message, VERSION};
use crate::seed::{clone_optional, KnownPassword, Password, RootSeed};
use crate::service::{routes, CorsPolicy, Method, Route, Service, State};
use crate::startup::{startup_step, StartupAction, StartupEvent, StartupStep};
use crate::state::{
    seed_step, set_step, Config, InnerStateView, SeedAction, SeedEvent, SeedGoal, SeedStep,
};
use crate::summary::{lemma_summary_shows_amount, TransactionKind};
use vstd::prelude::*;

verus! {

/// Whatever data are generated for the recovery of an account, the reply is a message of its own
/// kind that carries exactly these bytes and the server's version. Where there are none, the reply
/// is an internal server error without a message.
pub proof fn law_recover_account_reply<A, D, E>(data: Option<Vec<u8>>, action: Action<D, E>)
    requires
        call_ensures(Service::<A>::recover_account::<D, E>, (Event::Generated(data),), action),
    ensures
        match data {
            Some(bytes) => {
                &&& action matches Action::Reply(Ok(Reply::Json(Message::RecoverAccount(message))))
                &&& message.recovered_account@.len() == bytes@.len()
                &&& forall|i: int|
                    0 <= i < bytes@.len() ==> message.recovered_account@[i] == bytes@[i]
                &&& message.version@ == VERSION@
            },
            None => action matches Action::Reply(Err(Fault::Status { status, message })) && status
                == 500 && message@.len() == 0,
        },
{
    reveal_strlit("");
}

/// Whatever data are generated for the derivation of a shielded address, the reply is a message of
/// its own kind that carries exactly these bytes and version 0.0.0. Where there are none, the reply
/// is an internal server error without a message.
pub proof fn law_derive_shielded_address_reply<A, D, E>(data: Option<Vec<u8>>, action: Action<D, E>)
    requires
        call_ensures(
            Service::<A>::derive_shielded_address::<D, E>,
            (Event::Generated(data),),
            action,
        ),
    ensures
        match data {
            Some(bytes) => {
                &&& action matches Action::Reply(Ok(Reply::Json(Message::ShieldedAddress(message))))
                &&& message.address@.len() == bytes@.len()
                &&& forall|i: int|
                    0 <= i < bytes@.len() ==> message.address@[i] == bytes@[i]
                &&& message.version@ == "0.0.0"@
            },
            None => action matches Action::Reply(Err(Fault::Status { status, message })) && status
                == 500 && message@.len() == 0,
        },
{
    reveal_strlit("");
}

/// Whatever data are generated for the generation of an asset, the reply is a message of its own
/// kind that carries exactly these bytes and the server's version. Where there are none, the reply
/// is an internal server error without a message.
pub proof fn law_generate_asset_reply<A, D, E>(data: Option<Vec<u8>>, action: Action<D, E>)
    requires
        call_ensures(Service::<A>::generate_asset::<D, E>, (Event::Generated(data),), action),
    ensures
        match data {
            Some(bytes) => {
                &&& action matches Action::Reply(Ok(Reply::Json(Message::Asset(message))))
                &&& message.asset@.len() == bytes@.len()
                &&& forall|i: int|
                    0 <= i < bytes@.len() ==> message.asset@[i] == bytes@[i]
                &&& message.version@ == VERSION@
            },
            None => action matches Action::Reply(Err(Fault::Status { status, message })) && status
                == 500 && message@.len() == 0,
        },
{
    reveal_strlit("");
}

/// Whatever data are generated for a request for mint data, the reply is a message of its own kind
/// that carries exactly these bytes and the server's version. Where there are none, the reply is an
/// internal server error without a message.
pub proof fn law_mint_reply<A, D, E>(data: Option<Vec<u8>>, action: Action<D, E>)
    requires
        call_ensures(Service::<A>::mint::<D, E>, (Event::Generated(data),), action),
    ensures
        match data {
            Some(bytes) => {
                &&& action matches Action::Reply(Ok(Reply::Json(Message::Mint(message))))
                &&& message.mint_data@.len() == bytes@.len()
                &&& forall|i: int|
                    0 <= i < bytes@.len() ==> message.mint_data@[i] == bytes@[i]
                &&& message.version@ == VERSION@
            },
            None => action matches Action::Reply(Err(Fault::Status { status, message })) && status
                == 500 && message@.len() == 0,
        },
{
    reveal_strlit("");
}

/// Whatever data are generated for a request for private transfer data, the reply is a message of
/// its own kind that carries exactly these bytes and the server's version. Where there are none,
/// the reply is an internal server error without a message.
pub proof fn law_private_transfer_reply<A, D, E>(data: Option<Vec<u8>>, action: Action<D, E>)
    requires
        call_ensures(Service::<A>::private_transfer::<D, E>, (Event::Generated(data),), action),
    ensures
        match data {
            Some(bytes) => {
                &&& action matches Action::Reply(Ok(Reply::Json(Message::PrivateTransfer(message))))
                &&& message.private_transfer_data@.len() == bytes@.len()
                &&& forall|i: int|
                    0 <= i < bytes@.len() ==> message.private_transfer_data@[i] == bytes@[i]
                &&& message.version@ == VERSION@
            },
            None => action matches Action::Reply(Err(Fault::Status { status, message })) && status
                == 500 && message@.len() == 0,
        },
{
    reveal_strlit("");
}

/// Whatever data are generated for a request for reclaim data, the reply is a message of its own
/// kind that carries exactly these bytes and the server's version. Where there are none, the reply
/// is an internal server error without a message.
pub proof fn law_reclaim_reply<A, D, E>(data: Option<Vec<u8>>, action: Action<D, E>)
    requires
        call_ensures(Service::<A>::reclaim::<D, E>, (Event::Generated(data),), action),
    ensures
        match data {
            Some(bytes) => {
                &&& action matches Action::Reply(Ok(Reply::Json(Message::Reclaim(message))))
                &&& message.reclaim_data@.len() == bytes@.len()
                &&& forall|i: int|
                    0 <= i < bytes@.len() ==> message.reclaim_data@[i] == bytes@[i]
                &&& message.version@ == VERSION@
            },
            None => action matches Action::Reply(Err(Fault::Status { status, message })) && status
                == 500 && message@.len() == 0,
        },
{
    reveal_strlit("");
}

/// Different endpoints never give the same reply, nor do different data at one endpoint.
pub proof fn law_reply_tells_endpoint_and_data<A, D, E>(
    a: Endpoint,
    a_data: Vec<u8>,
    a_action: Action<D, E>,
    b: Endpoint,
    b_data: Vec<u8>,
    b_action: Action<D, E>,
)
    requires
        call_ensures(
            Service::<A>::handle::<D, E>,
            (a, Event::Generated(Some(a_data))),
            a_action,
        ),
        call_ensures(
            Service::<A>::handle::<D, E>,
            (b, Event::Generated(Some(b_data))),
            b_action,
        ),
        a_action == b_action || a_action@ == b_action@,
    ensures
        a == b,
        a != Endpoint::Heartbeat ==> a_data@ == b_data@,
{
}

/// A heartbeat is answered with the text `heartbeat`, whatever has happened.
pub proof fn law_heartbeat_reply<A, D, E>(event: Event<D, E>, action: Action<D, E>)
    requires
        call_ensures(Service::<A>::heartbeat::<D, E>, (event,), action)
            || call_ensures(Service::<A>::handle::<D, E>, (Endpoint::Heartbeat, event), action),
    ensures
        action matches Action::Reply(Ok(Reply::Text(text))) && text@ == seq![
            'h', 'e', 'a', 'r', 't', 'b', 'e', 'a', 't',
        ],
{
    reveal_strlit("heartbeat");
    assert("heartbeat"@ =~= seq!['h', 'e', 'a', 'r', 't', 'b', 'e', 'a', 't']);
}

/// Any request but a heartbeat first has its body read. What was read is decoded, byte for byte, in
/// the format of the endpoint, which minting shares with the generation of an asset; the error of a
/// failed read is passed on. A body that does not decode, a seed that is missing and data that
/// cannot be encoded are each answered with an internal server error without a message.
pub proof fn law_request_before_decoding<A, D, E>(
    endpoint: Endpoint,
    event: Event<D, E>,
    action: Action<D, E>,
)
    requires
        endpoint != Endpoint::Heartbeat,
        call_ensures(Service::<A>::handle::<D, E>, (endpoint, event), action),
    ensures
        match event {
            Event::Arrived => action is ReadBody,
            Event::Body(Ok(bytes)) => {
                &&& action matches Action::Decode { format, body }
                &&& body@ == bytes@
                &&& format == match endpoint {
                    Endpoint::RecoverAccount => Format::RecoverAccount,
                    Endpoint::DeriveShieldedAddress => Format::DeriveShieldedAddress,
                    Endpoint::GenerateAsset => Format::GenerateAsset,
                    Endpoint::Mint => Format::GenerateAsset,
                    Endpoint::PrivateTransfer => Format::PrivateTransfer,
                    _ => Format::Reclaim,
                }
            },
            Event::Body(Err(error)) => action matches Action::Reply(Err(Fault::Outside(e))) && e
                == error,
            Event::Decoded(None) | Event::Seed { seed: None, .. } | Event::Generated(None) => {
                &&& action matches Action::Reply(Err(Fault::Status { status, message }))
                &&& status == 500
                &&& message@.len() == 0
            },
            _ => true,
        },
{
    reveal_strlit("");
}

/// A decoded request for `recover_account` asks for the seed under that name, without asking for
/// consent where a seed is stored, and hands the details on. One that was decoded to the parameters
/// of something else is answered with an internal server error.
pub proof fn law_recover_account_prompt<A, D, E>(params: Params, details: D, action: Action<D, E>)
    requires
        call_ensures(
            Service::<A>::recover_account::<D, E>,
            (Event::Decoded(Some((params, details))),),
            action,
        ),
    ensures
        if params is RecoverAccount {
            &&& action matches Action::Seed { goal, prompt: Prompt::Name(name), details: d }
            &&& goal == SeedGoal::Get
            &&& name@ == "recover_account"@
            &&& d == details
        } else {
            action matches Action::Reply(Err(Fault::Status { status, message })) && status == 500
                && message@.len() == 0
        },
{
    reveal_strlit("");
}

/// A decoded request for `derive_shielded_address` asks for the seed under that name, without
/// asking for consent where a seed is stored, and hands the details on. One that was decoded to the
/// parameters of something else is answered with an internal server error.
pub proof fn law_derive_shielded_address_prompt<A, D, E>(
    params: Params,
    details: D,
    action: Action<D, E>,
)
    requires
        call_ensures(
            Service::<A>::derive_shielded_address::<D, E>,
            (Event::Decoded(Some((params, details))),),
            action,
        ),
    ensures
        if params is DeriveShieldedAddress {
            &&& action matches Action::Seed { goal, prompt: Prompt::Name(name), details: d }
            &&& goal == SeedGoal::Get
            &&& name@ == "derive_shielded_address"@
            &&& d == details
        } else {
            action matches Action::Reply(Err(Fault::Status { status, message })) && status == 500
                && message@.len() == 0
        },
{
    reveal_strlit("");
}

/// A decoded request for `generate_asset` asks for the seed under that name, without asking for
/// consent where a seed is stored, and hands the details on. One that was decoded to the parameters
/// of something else is answered with an internal server error.
pub proof fn law_generate_asset_prompt<A, D, E>(params: Params, details: D, action: Action<D, E>)
    requires
        call_ensures(
            Service::<A>::generate_asset::<D, E>,
            (Event::Decoded(Some((params, details))),),
            action,
        ),
    ensures
        if params is GenerateAsset {
            &&& action matches Action::Seed { goal, prompt: Prompt::Name(name), details: d }
            &&& goal == SeedGoal::Get
            &&& name@ == "generate_asset"@
            &&& d == details
        } else {
            action matches Action::Reply(Err(Fault::Status { status, message })) && status == 500
                && message@.len() == 0
        },
{
    reveal_strlit("");
}

/// A decoded request for `mint` asks for the seed under that name, without asking for
/// consent where a seed is stored, and hands the details on. One that was decoded to the parameters
/// of something else is answered with an internal server error.
pub proof fn law_mint_prompt<A, D, E>(params: Params, details: D, action: Action<D, E>)
    requires
        call_ensures(
            Service::<A>::mint::<D, E>,
            (Event::Decoded(Some((params, details))),),
            action,
        ),
    ensures
        if params is GenerateAsset {
            &&& action matches Action::Seed { goal, prompt: Prompt::Name(name), details: d }
            &&& goal == SeedGoal::Get
            &&& name@ == "mint"@
            &&& d == details
        } else {
            action matches Action::Reply(Err(Fault::Status { status, message })) && status == 500
                && message@.len() == 0
        },
{
    reveal_strlit("");
}

/// A decoded request for `private_transfer` asks for the user's consent and hands the details on.
/// The user is shown a private transfer to the address of the batch, of the value of its last
/// transfer, in its asset. One that was decoded to the parameters of something else is answered
/// with an internal server error.
pub proof fn law_private_transfer_prompt<A, D, E>(params: Params, details: D, action: Action<D, E>)
    requires
        call_ensures(
            Service::<A>::private_transfer::<D, E>,
            (Event::Decoded(Some((params, details))),),
            action,
        ),
    ensures
        match params {
            Params::PrivateTransfer(batch) => {
                &&& action matches Action::Seed {
                    goal,
                    prompt: Prompt::Transaction(summary),
                    details: d,
                }
                &&& goal == SeedGoal::Check
                &&& d == details
                &&& summary.kind matches TransactionKind::PrivateTransfer { recipient }
                &&& recipient@ == base58_text(batch@.receiving_address)
                &&& summary.amount@.len() >= 1
                &&& forall|i: int|
                    0 <= i < summary.amount@.len() ==> '0' <= #[trigger] summary.amount@[i] <= '9'
                &&& summary.amount@[0] == '0' ==> summary.amount@.len() == 1
                &&& summary.amount@.fold_left(
                    0int,
                    |n: int, c: char| n * 10 + (c as int - '0' as int),
                ) == batch@.private_transfer_params_list.last().non_change_output_value
                &&& batch@.asset_id == 1 <==> (summary.currency_symbol matches Some(s) && s@
                    == seq!['D', 'O', 'T'])
                &&& batch@.asset_id == 2 <==> (summary.currency_symbol matches Some(s) && s@
                    == seq!['K', 'S', 'M'])
                &&& summary.currency_symbol is None <==> batch@.asset_id != 1
                    && batch@.asset_id != 2
            },
            _ => action matches Action::Reply(Err(Fault::Status { status, message })) && status
                == 500 && message@.len() == 0,
        },
{
    reveal_strlit("");
    if let Params::PrivateTransfer(batch) = params {
        lemma_summary_shows_amount(
            action->prompt->Transaction_0,
            batch@.private_transfer_params_list.last().non_change_output_value,
            batch@.asset_id,
        );
    }
}

/// A decoded request for `reclaim` asks for the user's consent and hands the details on. The user
/// is shown a reclaim of the value that is reclaimed, in its asset. One that was decoded to the
/// parameters of something else is answered with an internal server error.
pub proof fn law_reclaim_prompt<A, D, E>(params: Params, details: D, action: Action<D, E>)
    requires
        call_ensures(
            Service::<A>::reclaim::<D, E>,
            (Event::Decoded(Some((params, details))),),
            action,
        ),
    ensures
        match params {
            Params::Reclaim(batch) => {
                &&& action matches Action::Seed {
                    goal,
                    prompt: Prompt::Transaction(summary),
                    details: d,
                }
                &&& goal == SeedGoal::Check
                &&& d == details
                &&& summary.kind is Reclaim
                &&& summary.amount@.len() >= 1
                &&& forall|i: int|
                    0 <= i < summary.amount@.len() ==> '0' <= #[trigger] summary.amount@[i] <= '9'
                &&& summary.amount@[0] == '0' ==> summary.amount@.len() == 1
                &&& summary.amount@.fold_left(
                    0int,
                    |n: int, c: char| n * 10 + (c as int - '0' as int),
                ) == batch.reclaim_params.reclaim_value
                &&& batch.reclaim_params.asset_id == 1 <==> (summary.currency_symbol matches Some(s)
                    && s@ == seq!['D', 'O', 'T'])
                &&& batch.reclaim_params.asset_id == 2 <==> (summary.currency_symbol matches Some(s)
                    && s@ == seq!['K', 'S', 'M'])
                &&& summary.currency_symbol is None <==> batch.reclaim_params.asset_id != 1
                    && batch.reclaim_params.asset_id != 2
            },
            _ => action matches Action::Reply(Err(Fault::Status { status, message })) && status
                == 500 && message@.len() == 0,
        },
{
    reveal_strlit("");
    if let Params::Reclaim(batch) = params {
        lemma_summary_shows_amount(
            action->prompt->Transaction_0,
            batch.reclaim_params.reclaim_value,
            batch.reclaim_params.asset_id,
        );
    }
}

/// Private transfers need the proving key for private transfers, reclaims that key and then the one
/// for reclaims, and nothing else needs a key.
pub proof fn law_proving_keys(endpoint: Endpoint, config: &Config, keys: Vec<String>)
    requires
        call_ensures(proving_keys, (endpoint, config), keys),
    ensures
        match endpoint {
            Endpoint::PrivateTransfer => keys@.len() == 1 && keys@[0]@
                == config.private_transfer_proving_key_path@,
            Endpoint::Reclaim => keys@.len() == 2 && keys@[0]@
                == config.private_transfer_proving_key_path@ && keys@[1]@
                == config.reclaim_proving_key_path@,
            _ => keys@.len() == 0,
        },
{
    let paths = keys@.map_values(|key: String| key@);
    assert(paths.len() == keys@.len());
    assert(keys@.len() > 0 ==> paths[0] == keys@[0]@);
    assert(keys@.len() > 1 ==> paths[1] == keys@[1]@);
}

/// Once a request but a heartbeat has its seed, what the endpoint stands for is generated from the
/// details as they were handed back, that very seed, and the endpoint's proving keys: the one for
/// private transfers, that one and then the one for reclaims, or none.
pub proof fn law_generation<A, D, E>(
    endpoint: Endpoint,
    details: D,
    seed: RootSeed,
    config: Config,
    action: Action<D, E>,
)
    requires
        endpoint != Endpoint::Heartbeat,
        call_ensures(
            Service::<A>::handle::<D, E>,
            (endpoint, Event::Seed { details, seed: Some(seed), config }),
            action,
        ),
    ensures
        ({
            &&& action matches Action::Generate { endpoint: e, details: d, keys, seed: s }
            &&& e == endpoint
            &&& d == details
            &&& s@ == seed@
            &&& match endpoint {
                Endpoint::PrivateTransfer => keys@.len() == 1 && keys@[0]@
                    == config.private_transfer_proving_key_path@,
                Endpoint::Reclaim => keys@.len() == 2 && keys@[0]@
                    == config.private_transfer_proving_key_path@ && keys@[1]@
                    == config.reclaim_proving_key_path@,
                _ => keys@.len() == 0,
            }
        }),
{
    let keys = action->keys;
    let paths = keys@.map_values(|key: String| key@);
    assert(paths.len() == keys@.len());
    assert(keys@.len() > 0 ==> paths[0] == keys@[0]@);
    assert(keys@.len() > 1 ==> paths[1] == keys@[1]@);
}

/// A value that is there is handed on as it is; one that is missing becomes an internal server
/// error with the given message.
pub proof fn law_ensure<T, E>(
    value: Option<T>,
    message: &'static str,
    result: Result<T, Fault<E>>,
)
    requires
        call_ensures(ensure::<T, E>, (value, message), result),
    ensures
        match value {
            Some(v) => result matches Ok(r) && r == v,
            None => result matches Err(Fault::Status { status, message: m }) && status == 500 && m@
                == message@,
        },
{
}

/// A seed exposes the bytes that it was built from, and so does a copy of it. Two seeds are equal
/// if and only if they were built from the same bytes.
pub proof fn law_seed_holds_its_bytes(
    a_bytes: Vec<u8>,
    a: RootSeed,
    exposed: &Vec<u8>,
    copy: RootSeed,
    b_bytes: Vec<u8>,
    b: RootSeed,
    same: bool,
)
    requires
        call_ensures(RootSeed::new, (a_bytes,), a),
        call_ensures(<RootSeed as Clone>::clone, (&a,), copy),
        call_ensures(RootSeed::expose_secret, (&a,), exposed) || call_ensures(
            RootSeed::expose_secret,
            (&copy,),
            exposed,
        ),
        call_ensures(RootSeed::new, (b_bytes,), b),
        call_ensures(<RootSeed as PartialEq>::eq, (&a, &b), same),
    ensures
        exposed@ == a_bytes@,
        same <==> a_bytes@ == b_bytes@,
{
}

/// A copy of an optional seed is there if and only if the seed is, and then holds the same bytes.
pub proof fn law_optional_seed_is_copied(seed: &Option<RootSeed>, copy: Option<RootSeed>)
    requires
        call_ensures(clone_optional, (seed,), copy),
    ensures
        match *seed {
            Some(s) => copy matches Some(c) && c@ == s@,
            None => copy is None,
        },
{
}

/// A password that is known is known by the text that it was built from; one that was withheld is
/// not known.
pub proof fn law_password_holds_its_text(
    text: String,
    given: Password,
    known: Option<KnownPassword>,
    withheld: Password,
    unknown: Option<KnownPassword>,
)
    requires
        call_ensures(Password::from_known, (text,), given),
        call_ensures(Password::known, (given,), known),
        call_ensures(Password::from_unknown, (), withheld),
        call_ensures(Password::known, (withheld,), unknown),
    ensures
        known matches Some(password) && password@ == text@ && forall|exposed: &String|
            call_ensures(KnownPassword::expose_secret, (&password,), exposed) ==> exposed@ == text@,
        unknown is None,
{
}

/// A new state holds no seed, and its configuration is the given one, field by field.
pub proof fn law_new_state<A>(config: Config, authorizer: A, state: State<A>, held: Config)
    requires
        call_ensures(State::<A>::new, (config, authorizer), state),
        call_ensures(State::<A>::config, (&state,), held),
    ensures
        state@.root_seed is None,
        state@.authorizer == authorizer,
        ({
            &&& held.service_url@ == config.service_url@
            &&& held.origin_url@ == config.origin_url@
            &&& held.root_seed_file@ == config.root_seed_file@
            &&& held.private_transfer_proving_key_path@ == config.private_transfer_proving_key_path@
            &&& held.reclaim_proving_key_path@ == config.reclaim_proving_key_path@
        }),
        ({
            &&& config.service_url@ == state@.config.service_url
            &&& config.origin_url@ == state@.config.origin_url
            &&& config.root_seed_file@ == state@.config.root_seed_file
            &&& config.private_transfer_proving_key_path@
                == state@.config.private_transfer_proving_key_path
            &&& config.reclaim_proving_key_path@ == state@.config.reclaim_proving_key_path
        }),
{
}

/// The configuration that a state returns is the one that it holds, field by field.
pub proof fn law_state_returns_its_config<A>(state: &State<A>, config: Config)
    requires
        call_ensures(State::<A>::config, (state,), config),
    ensures
        config.service_url@ == state@.config.service_url,
        config.origin_url@ == state@.config.origin_url,
        config.root_seed_file@ == state@.config.root_seed_file,
        config.private_transfer_proving_key_path@
            == state@.config.private_transfer_proving_key_path,
        config.reclaim_proving_key_path@ == state@.config.reclaim_proving_key_path,
{
}

/// One step of a request for the seed, with the seeds that are stored before and after it.
///
/// Where no seed is stored, the user is asked first, with the prompt of the request. A password
/// that they give is used on the configured file, and what it loads is stored and is the answer;
/// where they withhold it, or nothing loads, nothing is stored and there is no answer.
///
/// A stored seed always stays. A request to use it is answered with it at once. A request to use it
/// with consent asks the user all the same, and is answered with it if and only if the password
/// loads the same bytes.
pub proof fn law_seed_request_step<T, E>(
    goal: SeedGoal,
    before: Option<Seq<u8>>,
    file: Seq<char>,
    event: SeedEvent<T, E>,
    after: Option<Seq<u8>>,
    action: SeedAction<T>,
)
    requires
        (SeedStep { stored: after, action: action@ }) == seed_step(goal, before, file, event@),
    ensures
        before matches Some(seed) ==> after == Some(seed),
        match before {
            Some(stored) if goal == SeedGoal::Get => action matches SeedAction::Settle(Some(seed))
                && seed@ == stored,
            _ => match event {
                SeedEvent::Asked(prompt) => after == before && (action matches
                    SeedAction::Authorize(p) && p == prompt),
                SeedEvent::Authorized(password) => after == before && match password@ {
                    Some(text) => action matches SeedAction::Load { file: f, password: p } && f@
                        == file && p@ == text,
                    None => action matches SeedAction::Settle(None),
                },
                SeedEvent::Loaded(Ok(loaded)) => match before {
                    Some(stored) if stored != loaded@ => action matches SeedAction::Settle(None),
                    _ => after == Some(loaded@) && (action matches SeedAction::Settle(Some(seed))
                        && seed@ == loaded@),
                },
                SeedEvent::Loaded(Err(_)) => after == before && (action matches SeedAction::Settle(
                    None,
                )),
            },
        },
{
}

/// One step of setting the seed, with the seeds that are stored before and after it: the user is
/// asked, a password that they give is used on the configured file, and what it loads, or nothing,
/// is stored and is the answer. A withheld password leaves the seed as it is, and that is the
/// answer.
pub proof fn law_seed_setting_step<T, E>(
    before: Option<Seq<u8>>,
    file: Seq<char>,
    event: SeedEvent<T, E>,
    after: Option<Seq<u8>>,
    action: SeedAction<T>,
)
    requires
        (SeedStep { stored: after, action: action@ }) == set_step(before, file, event@),
    ensures
        match event {
            SeedEvent::Asked(prompt) => after == before && (action matches SeedAction::Authorize(p)
                && p == prompt),
            SeedEvent::Authorized(password) => after == before && match password@ {
                Some(text) => action matches SeedAction::Load { file: f, password: p } && f@ == file
                    && p@ == text,
                None => action matches SeedAction::Settle(answer) && match before {
                    Some(stored) => answer matches Some(seed) && seed@ == stored,
                    None => answer is None,
                },
            },
            SeedEvent::Loaded(Ok(loaded)) => after == Some(loaded@) && (action matches
                SeedAction::Settle(Some(seed)) && seed@ == loaded@),
            SeedEvent::Loaded(Err(_)) => after is None && (action matches SeedAction::Settle(None)),
        },
{
}

/// A known password is used on the configured file. One that was withheld leaves the seed as it is,
/// and that is the answer.
pub proof fn law_seed_from_password<A, T>(
    state: &State<A>,
    password: Password,
    action: SeedAction<T>,
)
    requires
        call_ensures(State::<A>::set_seed_from_password::<T>, (state, password), action),
    ensures
        match password@ {
            Some(text) => action matches SeedAction::Load { file, password: p } && file@
                == state@.config.root_seed_file && p@ == text,
            None => action matches SeedAction::Settle(answer) && match state@.root_seed {
                Some(stored) => answer matches Some(seed) && seed@ == stored,
                None => answer is None,
            },
        },
{
}

/// One step of a start, with the states before and after it. Only the outcome of a load changes the
/// state, and of it only the seed: it becomes the loaded one, or nothing. The configuration is set
/// up as it is held, then the authorizer with it; a failed setup is given up with its error. A
/// password is used on the configured file. Then the service listens at the configured URL.
pub proof fn law_startup_step<A, E, L>(
    before: InnerStateView<A>,
    event: StartupEvent<E, L>,
    after: InnerStateView<A>,
    action: StartupAction<E>,
)
    requires
        (StartupStep { state: after, action: action@ }) == startup_step(before, event@),
    ensures
        after.config == before.config,
        after.authorizer == before.authorizer,
        event !is SeedLoaded ==> after.root_seed == before.root_seed,
        match event {
            StartupEvent::Started => {
                &&& action matches StartupAction::SetUpConfig(config)
                &&& config.service_url@ == before.config.service_url
                &&& config.origin_url@ == before.config.origin_url
                &&& config.root_seed_file@ == before.config.root_seed_file
                &&& config.private_transfer_proving_key_path@
                    == before.config.private_transfer_proving_key_path
                &&& config.reclaim_proving_key_path@ == before.config.reclaim_proving_key_path
            },
            StartupEvent::ConfigReady(Ok(_)) => {
                &&& action matches StartupAction::SetUpAuthorizer(config)
                &&& config.service_url@ == before.config.service_url
                &&& config.origin_url@ == before.config.origin_url
                &&& config.root_seed_file@ == before.config.root_seed_file
                &&& config.private_transfer_proving_key_path@
                    == before.config.private_transfer_proving_key_path
                &&& config.reclaim_proving_key_path@ == before.config.reclaim_proving_key_path
            },
            StartupEvent::ConfigReady(Err(error)) => action matches StartupAction::Fail(e) && e
                == error,
            StartupEvent::AuthorizerReady(password) => match password@ {
                Some(text) => action matches StartupAction::LoadSeed { file, password: p } && file@
                    == before.config.root_seed_file && p@ == text,
                None => action matches StartupAction::Listen(url) && url@
                    == before.config.service_url,
            },
            StartupEvent::SeedLoaded(loaded) => {
                &&& action matches StartupAction::Listen(url)
                &&& url@ == before.config.service_url
                &&& match loaded {
                    Ok(seed) => after.root_seed == Some(seed@),
                    Err(_) => after.root_seed is None,
                }
            },
        },
{
}

/// A service is built with a state that holds the given configuration and authorizer and no seed.
/// It admits GET and POST from the configured origin, without credentials. It has one route for
/// each endpoint, by POST but for the heartbeat, which is reached by GET.
pub proof fn law_service_parts<A>(
    config: Config,
    authorizer: A,
    service: Service<A>,
    parts: (State<A>, CorsPolicy, Vec<Route>),
    state: &State<A>,
)
    requires
        call_ensures(Service::<A>::build, (config, authorizer), service),
        call_ensures(Service::<A>::into_parts, (service,), parts),
        call_ensures(Service::<A>::state, (&service,), state) || state == parts.0,
    ensures
        state@.root_seed is None,
        state@.authorizer == authorizer,
        ({
            &&& config.service_url@ == state@.config.service_url
            &&& config.origin_url@ == state@.config.origin_url
            &&& config.root_seed_file@ == state@.config.root_seed_file
            &&& config.private_transfer_proving_key_path@
                == state@.config.private_transfer_proving_key_path
            &&& config.reclaim_proving_key_path@ == state@.config.reclaim_proving_key_path
        }),
        parts.1.allow_methods@ == "GET, POST"@,
        parts.1.allow_origin@ == config.origin_url@,
        !parts.1.allow_credentials,
        parts.2@.len() == 7,
        forall|i: int, j: int|
            0 <= i < j < parts.2@.len() ==> (#[trigger] parts.2@[i]).endpoint != (
            #[trigger] parts.2@[j]).endpoint,
        forall|i: int|
            0 <= i < parts.2@.len() ==> {
                let route = #[trigger] parts.2@[i];
                match route.endpoint {
                    Endpoint::Heartbeat => route.method == Method::Get && route.path@
                        == "/heartbeat"@,
                    Endpoint::RecoverAccount => route.method == Method::Post && route.path@
                        == "/recoverAccount"@,
                    Endpoint::DeriveShieldedAddress => route.method == Method::Post && route.path@
                        == "/deriveShieldedAddress"@,
                    Endpoint::GenerateAsset => route.method == Method::Post && route.path@
                        == "/generateAsset"@,
                    Endpoint::Mint => route.method == Method::Post && route.path@
                        == "/generateMintData"@,
                    Endpoint::PrivateTransfer => route.method == Method::Post && route.path@
                        == "/generatePrivateTransferData"@,
                    Endpoint::Reclaim => route.method == Method::Post && route.path@
                        == "/generateReclaimData"@,
                }
            },
{
    let views = parts.2@.map_values(|route: Route| route@);
    assert(views == routes());
    assert(views.len() == parts.2@.len());
    assert forall|i: int| 0 <= i < parts.2@.len() implies (#[trigger] parts.2@[i])@
        == routes()[i] by {
        assert(views[i] == parts.2@[i]@);
    }
}

} // verus!
