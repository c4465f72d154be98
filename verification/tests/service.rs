use manta_signer::handler::{
    ensure, proving_keys, Action, Endpoint, Event, Fault, Format, Params, Prompt, Reply,
};
use manta_signer::message::Message;
use manta_signer::seed::{Password, RootSeed};
use manta_signer::service::{Method, Service, State};
use manta_signer::startup::{StartupAction, StartupEvent};
use manta_signer::state::{Config, SeedAction, SeedEvent, SeedGoal};
use manta_signer::summary::{
    GeneratePrivateTransferBatchParams, GenerateReclaimBatchParams, PrivateTransferParams,
    ReclaimParams, TransactionKind, TransactionSummary,
};

type Signer = Service<()>;

fn config() -> Config {
    Config {
        service_url: "127.0.0.1:29987".to_string(),
        origin_url: "https://app.example".to_string(),
        root_seed_file: "seed.aes".to_string(),
        private_transfer_proving_key_path: "transfer.bin".to_string(),
        reclaim_proving_key_path: "reclaim.bin".to_string(),
    }
}

fn batch() -> GeneratePrivateTransferBatchParams {
    GeneratePrivateTransferBatchParams::new(
        1,
        vec![0x04, 0x30, 0x5e, 0x2b, 0x24, 0x73, 0xf0, 0x58],
        vec![PrivateTransferParams { non_change_output_value: 250 }],
    )
    .unwrap()
}

fn reclaim_batch() -> GenerateReclaimBatchParams {
    GenerateReclaimBatchParams { reclaim_params: ReclaimParams { asset_id: 2, reclaim_value: 9 } }
}

/// Every endpoint with a body, and what its body decodes to.
fn with_bodies() -> Vec<(Endpoint, Format, Params)> {
    vec![
        (Endpoint::RecoverAccount, Format::RecoverAccount, Params::RecoverAccount),
        (
            Endpoint::DeriveShieldedAddress,
            Format::DeriveShieldedAddress,
            Params::DeriveShieldedAddress,
        ),
        (Endpoint::GenerateAsset, Format::GenerateAsset, Params::GenerateAsset),
        (Endpoint::Mint, Format::GenerateAsset, Params::GenerateAsset),
        (Endpoint::PrivateTransfer, Format::PrivateTransfer, Params::PrivateTransfer(batch())),
        (Endpoint::Reclaim, Format::Reclaim, Params::Reclaim(reclaim_batch())),
    ]
}

type Step = Action<u32, &'static str>;

fn handle(endpoint: Endpoint, event: Event<u32, &'static str>) -> Step {
    Signer::handle(endpoint, event)
}

fn is_internal_error(action: &Step) -> bool {
    matches!(action, Action::Reply(Err(Fault::Status { status: 500, message: "" })))
}

fn settled(seed: Option<Vec<u8>>) -> Event<u32, &'static str> {
    Event::Seed { details: 77, seed: seed.map(RootSeed::new), config: config() }
}

#[test]
fn build_sets_up_routes() {
    let (_, _, routes) = Service::build(config(), ()).into_parts();
    let listed: Vec<(Method, &str, Endpoint)> =
        routes.iter().map(|r| (r.method, r.path, r.endpoint)).collect();
    assert_eq!(
        listed,
        [
            (Method::Get, "/heartbeat", Endpoint::Heartbeat),
            (Method::Post, "/recoverAccount", Endpoint::RecoverAccount),
            (Method::Post, "/deriveShieldedAddress", Endpoint::DeriveShieldedAddress),
            (Method::Post, "/generateAsset", Endpoint::GenerateAsset),
            (Method::Post, "/generateMintData", Endpoint::Mint),
            (Method::Post, "/generatePrivateTransferData", Endpoint::PrivateTransfer),
            (Method::Post, "/generateReclaimData", Endpoint::Reclaim),
        ]
    );
}

#[test]
fn build_admits_the_configured_origin() {
    let service = Service::build(config(), ());
    assert_eq!(service.state().config().origin_url, "https://app.example");
    let (_, cors, _) = service.into_parts();
    assert_eq!(cors.allow_methods, "GET, POST");
    assert_eq!(cors.allow_origin, "https://app.example");
    assert!(!cors.allow_credentials);
}

#[test]
fn heartbeat() {
    for event in [Event::Arrived, Event::Decoded(None), Event::Body(Err("broken")), settled(None)] {
        assert!(matches!(
            Signer::heartbeat::<u32, &'static str>(event),
            Action::Reply(Ok(Reply::Text(text))) if text == "heartbeat"
        ));
    }
    assert!(matches!(
        handle(Endpoint::Heartbeat, Event::Arrived),
        Action::Reply(Ok(Reply::Text(text))) if text == "heartbeat"
    ));
}

#[test]
fn ensure_maps_nothing_to_an_internal_error() {
    assert!(matches!(ensure::<u8, u8>(Some(3), "lost"), Ok(3)));
    assert!(matches!(
        ensure::<u8, u8>(None, "lost"),
        Err(Fault::Status { status: 500, message: "lost" })
    ));
}

#[test]
fn requests_are_read_and_decoded() {
    for (endpoint, expected, _) in with_bodies() {
        assert!(matches!(handle(endpoint, Event::Arrived), Action::ReadBody));
        assert!(matches!(
            handle(endpoint, Event::Body(Ok(vec![1, 2]))),
            Action::Decode { format, body } if format == expected && body == [1, 2]
        ));
    }
}

#[test]
fn read_errors_are_passed_on() {
    for (endpoint, _, _) in with_bodies() {
        assert!(matches!(
            handle(endpoint, Event::Body(Err("broken"))),
            Action::Reply(Err(Fault::Outside("broken")))
        ));
    }
}

#[test]
fn malformed_bodies_are_internal_errors() {
    for (endpoint, _, _) in with_bodies() {
        assert!(is_internal_error(&handle(endpoint, Event::Decoded(None))));
    }
}

#[test]
fn params_of_something_else_are_malformed() {
    for (endpoint, _, _) in with_bodies() {
        for (_, format, params) in with_bodies() {
            let own = with_bodies().iter().any(|(e, f, _)| *e == endpoint && *f == format);
            let action = handle(endpoint, Event::Decoded(Some((params, 5))));
            assert_eq!(is_internal_error(&action), !own);
        }
    }
}

#[test]
fn missing_seeds_are_internal_errors() {
    for (endpoint, _, _) in with_bodies() {
        assert!(is_internal_error(&handle(endpoint, settled(None))));
    }
}

#[test]
fn unencodable_data_are_internal_errors() {
    for (endpoint, _, _) in with_bodies() {
        assert!(is_internal_error(&handle(endpoint, Event::Generated(None))));
    }
}

#[test]
fn derivations_get_the_seed_under_their_name() {
    let prompt_of = |action: Step| match action {
        Action::Seed { goal: SeedGoal::Get, prompt: Prompt::Name(name), details: 5 } => name,
        _ => panic!("expected a named request for the seed"),
    };
    assert_eq!(
        prompt_of(Signer::recover_account(Event::Decoded(Some((Params::RecoverAccount, 5))))),
        "recover_account"
    );
    assert_eq!(
        prompt_of(Signer::derive_shielded_address(Event::Decoded(Some((
            Params::DeriveShieldedAddress,
            5
        ))))),
        "derive_shielded_address"
    );
    assert_eq!(
        prompt_of(Signer::generate_asset(Event::Decoded(Some((Params::GenerateAsset, 5))))),
        "generate_asset"
    );
    assert_eq!(
        prompt_of(Signer::mint(Event::Decoded(Some((Params::GenerateAsset, 5))))),
        "mint"
    );
}

#[test]
fn transfers_check_the_seed_with_their_summary() {
    let event = Event::Decoded(Some((Params::PrivateTransfer(batch()), 5)));
    match Signer::private_transfer::<u32, &str>(event) {
        Action::Seed {
            goal: SeedGoal::Check,
            prompt: Prompt::Transaction(summary),
            details: 5,
        } => {
            assert_eq!(
                summary,
                TransactionSummary {
                    kind: TransactionKind::PrivateTransfer { recipient: "he11owor1d".to_string() },
                    amount: "250".to_string(),
                    currency_symbol: Some("DOT"),
                }
            );
        }
        _ => panic!("expected a request for consent"),
    }
}

#[test]
fn reclaims_check_the_seed_with_their_summary() {
    let event = Event::Decoded(Some((Params::Reclaim(reclaim_batch()), 6)));
    match Signer::reclaim::<u32, &str>(event) {
        Action::Seed {
            goal: SeedGoal::Check,
            prompt: Prompt::Transaction(summary),
            details: 6,
        } => {
            assert_eq!(
                summary,
                TransactionSummary {
                    kind: TransactionKind::Reclaim,
                    amount: "9".to_string(),
                    currency_symbol: Some("KSM"),
                }
            );
        }
        _ => panic!("expected a request for consent"),
    }
}

#[test]
fn data_are_generated_from_details_keys_and_seed() {
    for (asked, _, _) in with_bodies() {
        let expected: &[&str] = match asked {
            Endpoint::PrivateTransfer => &["transfer.bin"],
            Endpoint::Reclaim => &["transfer.bin", "reclaim.bin"],
            _ => &[],
        };
        match handle(asked, settled(Some(vec![6, 6]))) {
            Action::Generate { endpoint, details, keys, seed } => {
                assert_eq!(endpoint, asked);
                assert_eq!(details, 77);
                assert_eq!(keys, expected);
                assert_eq!(seed.expose_secret(), &[6, 6]);
            }
            _ => panic!("expected a generation"),
        }
    }
}

#[test]
fn replies_carry_the_generated_data() {
    let reply = |endpoint: Endpoint, data: u8| {
        match handle(endpoint, Event::Generated(Some(vec![data]))) {
            Action::Reply(Ok(Reply::Json(message))) => message,
            _ => panic!("expected a message"),
        }
    };
    assert!(matches!(
        reply(Endpoint::RecoverAccount, 1),
        Message::RecoverAccount(m) if m.recovered_account == [1] && m.version == "0.1.0"
    ));
    assert!(matches!(
        reply(Endpoint::DeriveShieldedAddress, 2),
        Message::ShieldedAddress(m) if m.address == [2] && m.version == "0.0.0"
    ));
    assert!(matches!(
        reply(Endpoint::GenerateAsset, 3),
        Message::Asset(m) if m.asset == [3] && m.version == "0.1.0"
    ));
    assert!(matches!(
        reply(Endpoint::Mint, 4),
        Message::Mint(m) if m.mint_data == [4] && m.version == "0.1.0"
    ));
    assert!(matches!(
        reply(Endpoint::PrivateTransfer, 5),
        Message::PrivateTransfer(m) if m.private_transfer_data == [5] && m.version == "0.1.0"
    ));
    assert!(matches!(
        reply(Endpoint::Reclaim, 6),
        Message::Reclaim(m) if m.reclaim_data == [6] && m.version == "0.1.0"
    ));
}

#[test]
fn proving_keys_by_endpoint() {
    assert_eq!(proving_keys(Endpoint::PrivateTransfer, &config()), ["transfer.bin"]);
    assert_eq!(proving_keys(Endpoint::Reclaim, &config()), ["transfer.bin", "reclaim.bin"]);
    assert!(proving_keys(Endpoint::Mint, &config()).is_empty());
    assert!(proving_keys(Endpoint::Heartbeat, &config()).is_empty());
}

fn is_test_config(given: &Config) -> bool {
    given.service_url == "127.0.0.1:29987"
        && given.origin_url == "https://app.example"
        && given.root_seed_file == "seed.aes"
        && given.private_transfer_proving_key_path == "transfer.bin"
        && given.reclaim_proving_key_path == "reclaim.bin"
}

/// Starts a service. Returns where it listens, or the error with which it gave up.
fn start(
    state: &mut State<()>,
    setup: Result<(), &'static str>,
    password: Option<&str>,
    seed: Result<Vec<u8>, u8>,
) -> Result<String, &'static str> {
    let mut event: StartupEvent<&'static str, u8> = StartupEvent::Started;
    loop {
        event = match Signer::serve(state, event) {
            StartupAction::SetUpConfig(given) => {
                assert!(is_test_config(&given));
                StartupEvent::ConfigReady(setup)
            }
            StartupAction::SetUpAuthorizer(given) => {
                assert!(is_test_config(&given));
                StartupEvent::AuthorizerReady(match password {
                    Some(text) => Password::from_known(text.to_string()),
                    None => Password::from_unknown(),
                })
            }
            StartupAction::LoadSeed { file, password: given } => {
                assert_eq!(file, "seed.aes");
                assert_eq!(Some(given.expose_secret().as_str()), password);
                StartupEvent::SeedLoaded(seed.clone().map(RootSeed::new))
            }
            StartupAction::Listen(url) => return Ok(url),
            StartupAction::Fail(error) => return Err(error),
        };
    }
}

fn stored_seed(state: &mut State<()>) -> Option<Vec<u8>> {
    match state.get_root_seed::<(), ()>(SeedEvent::Asked(())) {
        SeedAction::Settle(Some(seed)) => Some(seed.expose_secret().clone()),
        SeedAction::Authorize(()) => None,
        _ => panic!("expected a settlement or a prompt"),
    }
}

#[test]
fn start_with_a_seed() {
    let mut state = State::new(config(), ());
    assert_eq!(
        start(&mut state, Ok(()), Some("right"), Ok(vec![1, 2])),
        Ok("127.0.0.1:29987".to_string())
    );
    assert_eq!(stored_seed(&mut state), Some(vec![1, 2]));
}

#[test]
fn start_performs_its_actions_in_order() {
    let mut state = State::new(config(), ());
    let mut step = |event: StartupEvent<&'static str, u8>| Signer::serve(&mut state, event);
    assert!(matches!(
        step(StartupEvent::Started),
        StartupAction::SetUpConfig(given) if is_test_config(&given)
    ));
    assert!(matches!(
        step(StartupEvent::ConfigReady(Ok(()))),
        StartupAction::SetUpAuthorizer(given) if is_test_config(&given)
    ));
    assert!(matches!(
        step(StartupEvent::AuthorizerReady(Password::from_known("right".to_string()))),
        StartupAction::LoadSeed { file, password }
            if file == "seed.aes" && password.expose_secret() == "right"
    ));
    assert!(matches!(
        step(StartupEvent::SeedLoaded(Ok(RootSeed::new(vec![1])))),
        StartupAction::Listen(url) if url == "127.0.0.1:29987"
    ));
    assert_eq!(stored_seed(&mut state), Some(vec![1]));
}

#[test]
fn start_without_a_password() {
    let mut state = State::new(config(), ());
    assert_eq!(
        start(&mut state, Ok(()), None, Ok(vec![1, 2])),
        Ok("127.0.0.1:29987".to_string())
    );
    assert_eq!(stored_seed(&mut state), None);
}

#[test]
fn start_with_a_wrong_password() {
    let mut state = State::new(config(), ());
    assert_eq!(
        start(&mut state, Ok(()), Some("wrong"), Err(1)),
        Ok("127.0.0.1:29987".to_string())
    );
    assert_eq!(stored_seed(&mut state), None);
}

#[test]
fn start_fails_where_setup_fails() {
    let mut state = State::new(config(), ());
    assert_eq!(
        start(&mut state, Err("no directory"), Some("right"), Ok(vec![1])),
        Err("no directory")
    );
    assert_eq!(stored_seed(&mut state), None);
}

/// How a request of the wallet ended.
struct End {
    reply: Result<Reply, Fault<&'static str>>,
    prompted: usize,
    generated: bool,
}

/// What the outside answers to the actions of a handler.
struct World {
    body: Result<Vec<u8>, &'static str>,
    well_formed: bool,
    password: Option<&'static str>,
    loaded: Result<Vec<u8>, u8>,
}

impl World {
    fn new(password: Option<&'static str>, loaded: Result<Vec<u8>, u8>) -> Self {
        Self { body: Ok(vec![0xaa]), well_formed: true, password, loaded }
    }
}

/// Runs a request at `endpoint` to its reply. The generated data are the bytes of the seed.
fn run(state: &mut State<()>, endpoint: Endpoint, world: &World) -> End {
    let mut prompted = 0;
    let mut generated = false;
    let mut event = Event::Arrived;
    loop {
        event = match handle(endpoint, event) {
            Action::ReadBody => Event::Body(world.body.clone()),
            Action::Decode { body, .. } => {
                assert_eq!(Ok(body), world.body);
                let params = with_bodies().into_iter().find(|(e, _, _)| *e == endpoint);
                Event::Decoded(params.filter(|_| world.well_formed).map(|(_, _, p)| (p, 31)))
            }
            Action::Seed { goal, prompt, details } => {
                let mut seed_event: SeedEvent<Prompt, u8> = SeedEvent::Asked(prompt);
                let seed = loop {
                    seed_event = match state.request_root_seed(goal, seed_event) {
                        SeedAction::Authorize(_) => {
                            prompted += 1;
                            SeedEvent::Authorized(match world.password {
                                Some(text) => Password::from_known(text.to_string()),
                                None => Password::from_unknown(),
                            })
                        }
                        SeedAction::Load { .. } => {
                            SeedEvent::Loaded(world.loaded.clone().map(RootSeed::new))
                        }
                        SeedAction::Settle(seed) => break seed,
                    };
                };
                Event::Seed { details, seed, config: state.config() }
            }
            Action::Generate { details, seed, .. } => {
                assert_eq!(details, 31);
                generated = true;
                Event::Generated(Some(seed.expose_secret().clone()))
            }
            Action::Reply(reply) => return End { reply, prompted, generated },
        };
    }
}

#[test]
fn authorized_transactions_are_answered() {
    let mut state = State::new(config(), ());
    let world = World::new(Some("right"), Ok(vec![1, 2, 3]));
    for _ in 0..2 {
        let end = run(&mut state, Endpoint::PrivateTransfer, &world);
        assert!(matches!(
            end.reply,
            Ok(Reply::Json(Message::PrivateTransfer(m))) if m.private_transfer_data == [1, 2, 3]
        ));
        assert_eq!(end.prompted, 1);
        let end = run(&mut state, Endpoint::Reclaim, &world);
        assert!(matches!(
            end.reply,
            Ok(Reply::Json(Message::Reclaim(m))) if m.reclaim_data == [1, 2, 3]
        ));
        assert_eq!(end.prompted, 1);
    }
}

#[test]
fn refused_transactions_are_internal_errors() {
    let mut state = State::new(config(), ());
    let consent = World::new(Some("right"), Ok(vec![1, 2, 3]));
    assert!(run(&mut state, Endpoint::PrivateTransfer, &consent).reply.is_ok());
    for (password, loaded) in [
        (None, Ok(vec![1, 2, 3])),
        (Some("wrong"), Err(1)),
        (Some("other"), Ok(vec![3, 2, 1])),
    ] {
        let world = World::new(password, loaded);
        for endpoint in [Endpoint::PrivateTransfer, Endpoint::Reclaim] {
            let end = run(&mut state, endpoint, &world);
            assert!(matches!(end.reply, Err(Fault::Status { status: 500, message: "" })));
            assert_eq!(end.prompted, 1);
            assert!(!end.generated);
            assert_eq!(stored_seed(&mut state), Some(vec![1, 2, 3]));
        }
    }
}

#[test]
fn derivation_is_silent_once_a_seed_is_stored() {
    let mut state = State::new(config(), ());
    let world = World::new(Some("right"), Ok(vec![1, 2, 3]));
    for expected_prompts in [1, 0, 0] {
        let end = run(&mut state, Endpoint::Mint, &world);
        assert!(matches!(
            end.reply,
            Ok(Reply::Json(Message::Mint(m))) if m.mint_data == [1, 2, 3]
        ));
        assert_eq!(end.prompted, expected_prompts);
    }
}

#[test]
fn bad_requests_prompt_nobody() {
    let mut state = State::new(config(), ());
    for (endpoint, _, _) in with_bodies() {
        let mut world = World::new(Some("right"), Ok(vec![1, 2, 3]));
        world.well_formed = false;
        let end = run(&mut state, endpoint, &world);
        assert!(matches!(end.reply, Err(Fault::Status { status: 500, message: "" })));
        assert_eq!((end.prompted, end.generated), (0, false));
        world.body = Err("broken");
        let end = run(&mut state, endpoint, &world);
        assert!(matches!(end.reply, Err(Fault::Outside("broken"))));
        assert_eq!((end.prompted, end.generated), (0, false));
    }
    assert_eq!(stored_seed(&mut state), None);
}
