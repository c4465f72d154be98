//! Whole requests of the wallet, from their arrival to the reply.

use crate::handler::{
    body_format, data_reply, heartbeat_reply, internal_error, key_paths, reaction, seed_goal,
    seed_prompt, ActionView, Endpoint, EventView, FaultView, Format, Job, Params, PromptView,
    ReplyView,
};
use crate::message::{MessageView, VERSION};
use crate::settlement::{law_check_root_seed, law_get_root_seed, settlement, Surroundings};
use crate::state::{ConfigView, SeedEventView};
use crate::summary::{reclaim_summary, transfer_summary};
use vstd::prelude::*;

verus! {

/// What the outside answers to the actions of a handler.
#[verifier::reject_recursive_types(D)]
pub ghost struct World<D, E> {
    /// The body of the request, or the error of reading it.
    pub body: Result<Seq<u8>, E>,
    /// What a body decodes to in a format, unless it is malformed: what the service reads of it,
    /// and the details that the generation reads of it. That the two agree is up to the
    /// application.
    pub decode: spec_fn(Format, Seq<u8>) -> Option<(Params, D)>,
    /// The user and the seed file.
    pub around: Surroundings,
    /// The encoded data that a job gives, unless they cannot be encoded.
    pub generate: spec_fn(Job<D>) -> Option<Seq<u8>>,
}

impl<D, E> World<D, E> {
    /// What the body decodes to as a request at `endpoint`, if it can be read and is not malformed.
    pub open spec fn request(self, endpoint: Endpoint) -> Option<(Params, D)> {
        match (self.body, body_format(endpoint)) {
            (Ok(body), Some(format)) => match (self.decode)(format, body) {
                Some((params, details)) if seed_prompt(endpoint, params) is Some => Some(
                    (params, details),
                ),
                _ => None,
            },
            _ => None,
        }
    }

    /// What the user is prompted with for the request, if it is not malformed.
    pub open spec fn prompt(self, endpoint: Endpoint) -> PromptView {
        seed_prompt(endpoint, (self.request(endpoint)->0).0)->0
    }
}

/// How a request of the wallet ends.
pub ghost struct Exchange<D, E> {
    /// The seed that is stored afterwards.
    pub stored: Option<Seq<u8>>,
    /// What the user was prompted with.
    pub prompts: Seq<PromptView>,
    /// What was generated, and from what, if anything was.
    pub job: Option<Job<D>>,
    /// The reply.
    pub reply: Result<ReplyView, FaultView<E>>,
}

/// How many more actions may follow an event.
pub open spec fn actions_left<D, E>(event: EventView<D, E>) -> nat {
    match event {
        EventView::Arrived => 4,
        EventView::Body(_) => 3,
        EventView::Decoded(_) => 2,
        EventView::Seed { .. } => 1,
        EventView::Generated(_) => 0,
    }
}

/// How a request at `endpoint` ends after `event`, where each action is performed and its outcome
/// handed back.
pub open spec fn exchange<D, E>(
    endpoint: Endpoint,
    stored: Option<Seq<u8>>,
    config: ConfigView,
    event: EventView<D, E>,
    world: World<D, E>,
) -> Exchange<D, E>
    decreases actions_left(event),
{
    match reaction(endpoint, event) {
        ActionView::ReadBody => exchange(
            endpoint,
            stored,
            config,
            EventView::<D, E>::Body(world.body),
            world,
        ),
        ActionView::Decode { format, body } => exchange(
            endpoint,
            stored,
            config,
            EventView::<D, E>::Decoded((world.decode)(format, body)),
            world,
        ),
        ActionView::Seed { goal, prompt, details } => {
            let settled = settlement(
                goal,
                stored,
                config.root_seed_file,
                SeedEventView::Asked(prompt),
                world.around,
            );
            let rest = exchange(
                endpoint,
                settled.stored,
                config,
                EventView::<D, E>::Seed { details, seed: settled.answer, config },
                world,
            );
            Exchange { prompts: settled.prompts + rest.prompts, ..rest }
        },
        ActionView::Generate(job) => Exchange {
            job: Some(job),
            ..exchange(
                endpoint,
                stored,
                config,
                EventView::<D, E>::Generated((world.generate)(job)),
                world,
            )
        },
        ActionView::Reply(reply) => Exchange { stored, prompts: Seq::empty(), job: None, reply },
    }
}

/// How a request at `endpoint` ends, from its arrival.
pub open spec fn answered<D, E>(
    endpoint: Endpoint,
    stored: Option<Seq<u8>>,
    config: ConfigView,
    world: World<D, E>,
) -> Exchange<D, E> {
    exchange(endpoint, stored, config, EventView::Arrived, world)
}

/// A heartbeat is answered, whatever is stored and whatever the request holds, and does nothing
/// else.
pub proof fn law_heartbeat<D, E>(
    stored: Option<Seq<u8>>,
    config: ConfigView,
    world: World<D, E>,
)
    ensures
        answered(Endpoint::Heartbeat, stored, config, world) == (Exchange::<D, E> {
            stored,
            prompts: Seq::empty(),
            job: None,
            reply: Ok(heartbeat_reply()),
        }),
{
}

/// A request whose body cannot be read is replied to with the error of the read. A malformed one
/// is replied to with an internal server error. Neither prompts the user, touches the stored seed
/// or generates anything.
pub proof fn law_bad_request<D, E>(
    endpoint: Endpoint,
    stored: Option<Seq<u8>>,
    config: ConfigView,
    world: World<D, E>,
)
    requires
        endpoint != Endpoint::Heartbeat,
        world.request(endpoint) is None,
    ensures
        answered(endpoint, stored, config, world) == (Exchange::<D, E> {
            stored,
            prompts: Seq::empty(),
            job: None,
            reply: match world.body {
                Err(error) => Err(FaultView::Outside(error)),
                Ok(_) => Err(internal_error::<E>(""@)),
            },
        }),
{
    reveal_with_fuel(exchange, 5);
}

/// A request that decodes settles its request for the seed. Where that gives no seed, the reply is
/// an internal server error and nothing is generated. Where it gives one, what the endpoint stands
/// for is generated from the details that the request decodes to, the endpoint's proving keys and
/// that seed, and the reply carries it, or is an internal server error if it cannot be encoded.
pub proof fn law_good_request<D, E>(
    endpoint: Endpoint,
    stored: Option<Seq<u8>>,
    config: ConfigView,
    world: World<D, E>,
)
    requires
        world.request(endpoint) is Some,
    ensures
        ({
            let details = (world.request(endpoint)->0).1;
            let settled = settlement(
                seed_goal(endpoint),
                stored,
                config.root_seed_file,
                SeedEventView::Asked(world.prompt(endpoint)),
                world.around,
            );
            answered(endpoint, stored, config, world) == (match settled.answer {
                None => Exchange {
                    stored: settled.stored,
                    prompts: settled.prompts,
                    job: None,
                    reply: Err(internal_error::<E>(""@)),
                },
                Some(seed) => {
                    let job = Job { endpoint, details, keys: key_paths(endpoint, config), seed };
                    Exchange {
                        stored: settled.stored,
                        prompts: settled.prompts,
                        job: Some(job),
                        reply: match (world.generate)(job) {
                            Some(data) => Ok(data_reply(endpoint, data)),
                            None => Err(internal_error::<E>(""@)),
                        },
                    }
                },
            })
        }),
{
    reveal_with_fuel(exchange, 5);
    let settled = settlement(
        seed_goal(endpoint),
        stored,
        config.root_seed_file,
        SeedEventView::Asked(world.prompt(endpoint)),
        world.around,
    );
    assert(settled.prompts + Seq::<PromptView>::empty() =~= settled.prompts);
}

/// No request of the wallet replaces or drops a stored seed.
pub proof fn law_request_keeps_stored_seed<D, E>(
    endpoint: Endpoint,
    stored: Option<Seq<u8>>,
    config: ConfigView,
    world: World<D, E>,
)
    requires
        stored is Some,
    ensures
        answered(endpoint, stored, config, world).stored == stored,
{
    if world.request(endpoint) is Some {
        let prompt = world.prompt(endpoint);
        law_good_request(endpoint, stored, config, world);
        law_get_root_seed(stored, config.root_seed_file, prompt, world.around);
        law_check_root_seed(stored, config.root_seed_file, prompt, world.around);
    } else if endpoint != Endpoint::Heartbeat {
        law_bad_request(endpoint, stored, config, world);
    }
}

/// Once a seed is stored, requests that are no transactions are answered without a prompt.
pub proof fn law_derivation_is_silent<D, E>(
    endpoint: Endpoint,
    stored: Option<Seq<u8>>,
    config: ConfigView,
    world: World<D, E>,
)
    requires
        endpoint != Endpoint::PrivateTransfer,
        endpoint != Endpoint::Reclaim,
        stored is Some,
    ensures
        answered(endpoint, stored, config, world).prompts == Seq::<PromptView>::empty(),
{
    if world.request(endpoint) is Some {
        law_good_request(endpoint, stored, config, world);
        law_get_root_seed(stored, config.root_seed_file, world.prompt(endpoint), world.around);
    } else if endpoint != Endpoint::Heartbeat {
        law_bad_request(endpoint, stored, config, world);
    }
}

/// A transaction that decodes prompts the user exactly once, whatever is stored. It is generated if
/// and only if the password that the user gives in this very request unlocks a seed, which is the
/// stored seed where one is stored; then that seed is used. If the user refuses, the reply is an
/// internal server error and the stored seed stays as it was.
pub proof fn law_consent<D, E>(
    endpoint: Endpoint,
    stored: Option<Seq<u8>>,
    config: ConfigView,
    world: World<D, E>,
)
    requires
        endpoint == Endpoint::PrivateTransfer || endpoint == Endpoint::Reclaim,
        world.request(endpoint) is Some,
    ensures
        ({
            let end = answered(endpoint, stored, config, world);
            let unlocked = world.around.unlocked(config.root_seed_file);
            let consent = unlocked is Some && (stored is None || stored == unlocked);
            &&& end.prompts == seq![world.prompt(endpoint)]
            &&& end.job == if consent {
                Some(
                    Job {
                        endpoint,
                        details: (world.request(endpoint)->0).1,
                        keys: key_paths(endpoint, config),
                        seed: unlocked->0,
                    },
                )
            } else {
                None
            }
            &&& end.stored == if consent {
                unlocked
            } else {
                stored
            }
            &&& !consent ==> end.reply == Err::<ReplyView, FaultView<E>>(
                internal_error::<E>(""@),
            )
        }),
{
    law_good_request(endpoint, stored, config, world);
    law_check_root_seed(stored, config.root_seed_file, world.prompt(endpoint), world.around);
}

/// Private transfer data are generated only after the user was shown the summary of the batch that
/// the request decodes to, and gave a password that unlocks the seed that is used. They are
/// generated from the details that the same decoding gave, with the proving key for private
/// transfers.
pub proof fn law_private_transfer_is_authorized<D, E>(
    stored: Option<Seq<u8>>,
    config: ConfigView,
    world: World<D, E>,
)
    requires
        answered(Endpoint::PrivateTransfer, stored, config, world).job is Some,
    ensures
        ({
            let end = answered(Endpoint::PrivateTransfer, stored, config, world);
            let job = end.job->0;
            &&& world.request(Endpoint::PrivateTransfer) matches Some((params, details))
            &&& params matches Params::PrivateTransfer(batch)
            &&& end.prompts == seq![PromptView::Transaction(transfer_summary(batch@))]
            &&& job.endpoint == Endpoint::PrivateTransfer
            &&& job.details == details
            &&& job.keys == seq![config.private_transfer_proving_key_path]
            &&& Some(job.seed) == world.around.unlocked(config.root_seed_file)
            &&& stored is Some ==> stored == Some(job.seed)
        }),
{
    if world.request(Endpoint::PrivateTransfer) is Some {
        law_consent(Endpoint::PrivateTransfer, stored, config, world);
    } else {
        law_bad_request(Endpoint::PrivateTransfer, stored, config, world);
    }
}

/// Reclaim data are generated only after the user was shown the summary of the reclaim that the
/// request decodes to, and gave a password that unlocks the seed that is used. They are generated
/// from the details that the same decoding gave, with the proving keys for private transfers and
/// for reclaims.
pub proof fn law_reclaim_is_authorized<D, E>(
    stored: Option<Seq<u8>>,
    config: ConfigView,
    world: World<D, E>,
)
    requires
        answered(Endpoint::Reclaim, stored, config, world).job is Some,
    ensures
        ({
            let end = answered(Endpoint::Reclaim, stored, config, world);
            let job = end.job->0;
            &&& world.request(Endpoint::Reclaim) matches Some((params, details))
            &&& params matches Params::Reclaim(batch)
            &&& end.prompts == seq![PromptView::Transaction(reclaim_summary(batch))]
            &&& job.endpoint == Endpoint::Reclaim
            &&& job.details == details
            &&& job.keys == seq![
                config.private_transfer_proving_key_path,
                config.reclaim_proving_key_path,
            ]
            &&& Some(job.seed) == world.around.unlocked(config.root_seed_file)
            &&& stored is Some ==> stored == Some(job.seed)
        }),
{
    if world.request(Endpoint::Reclaim) is Some {
        law_consent(Endpoint::Reclaim, stored, config, world);
    } else {
        law_bad_request(Endpoint::Reclaim, stored, config, world);
    }
}

/// Any request but a heartbeat that succeeds is answered with exactly the bytes that were generated
/// for it, in a message of the endpoint's own kind. They were generated from the details that its
/// own body decodes to and a seed: the stored one, or where none is stored, the one that the user
/// unlocked.
pub proof fn law_success_carries_generated_data<D, E>(
    endpoint: Endpoint,
    stored: Option<Seq<u8>>,
    config: ConfigView,
    world: World<D, E>,
)
    requires
        endpoint != Endpoint::Heartbeat,
        answered(endpoint, stored, config, world).reply is Ok,
    ensures
        ({
            let end = answered(endpoint, stored, config, world);
            let format = match endpoint {
                Endpoint::RecoverAccount => Format::RecoverAccount,
                Endpoint::DeriveShieldedAddress => Format::DeriveShieldedAddress,
                Endpoint::GenerateAsset | Endpoint::Mint => Format::GenerateAsset,
                Endpoint::PrivateTransfer => Format::PrivateTransfer,
                _ => Format::Reclaim,
            };
            &&& end.job matches Some(job)
            &&& job.endpoint == endpoint
            &&& world.body matches Ok(body)
            &&& (world.decode)(format, body) matches Some((_, details))
            &&& job.details == details
            &&& match stored {
                Some(seed) => job.seed == seed,
                None => Some(job.seed) == world.around.unlocked(config.root_seed_file),
            }
            &&& (world.generate)(job) matches Some(data)
            &&& match endpoint {
                Endpoint::RecoverAccount => end.reply matches Ok(
                    ReplyView::Json(
                        MessageView::RecoverAccount { recovered_account: bytes, version },
                    ),
                ) && bytes == data && version == VERSION@,
                Endpoint::DeriveShieldedAddress => end.reply matches Ok(
                    ReplyView::Json(MessageView::ShieldedAddress { address: bytes, version }),
                ) && bytes == data && version == "0.0.0"@,
                Endpoint::GenerateAsset => end.reply matches Ok(
                    ReplyView::Json(MessageView::Asset { asset: bytes, version }),
                ) && bytes == data && version == VERSION@,
                Endpoint::Mint => end.reply matches Ok(
                    ReplyView::Json(MessageView::Mint { mint_data: bytes, version }),
                ) && bytes == data && version == VERSION@,
                Endpoint::PrivateTransfer => end.reply matches Ok(
                    ReplyView::Json(
                        MessageView::PrivateTransfer { private_transfer_data: bytes, version },
                    ),
                ) && bytes == data && version == VERSION@,
                Endpoint::Reclaim => end.reply matches Ok(
                    ReplyView::Json(MessageView::Reclaim { reclaim_data: bytes, version }),
                ) && bytes == data && version == VERSION@,
                Endpoint::Heartbeat => true,
            }
        }),
{
    if world.request(endpoint) is Some {
        let prompt = world.prompt(endpoint);
        law_good_request(endpoint, stored, config, world);
        law_get_root_seed(stored, config.root_seed_file, prompt, world.around);
        law_check_root_seed(stored, config.root_seed_file, prompt, world.around);
    } else {
        law_bad_request(endpoint, stored, config, world);
    }
}

} // verus!
