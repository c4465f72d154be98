use manta_signer::seed::{Password, RootSeed};
use manta_signer::service::State;
use manta_signer::state::{Config, InnerState, SeedAction, SeedEvent, SeedGoal};

fn config() -> Config {
    Config {
        service_url: "127.0.0.1:29987".to_string(),
        origin_url: "https://app.example".to_string(),
        root_seed_file: "seed.aes".to_string(),
        private_transfer_proving_key_path: "transfer.bin".to_string(),
        reclaim_proving_key_path: "reclaim.bin".to_string(),
    }
}

/// Settles a request for the seed. `password` is what the user gives when prompted, `load` what
/// the seed file gives. Returns the answer and what the user was prompted with.
fn settle(
    state: &mut State<&'static str>,
    goal: SeedGoal,
    prompt: &'static str,
    password: Option<&str>,
    load: &dyn Fn(&str, &str) -> Result<Vec<u8>, u8>,
) -> (Option<Vec<u8>>, Vec<&'static str>) {
    let mut prompts = Vec::new();
    let mut event: SeedEvent<&'static str, u8> = SeedEvent::Asked(prompt);
    loop {
        event = match state.request_root_seed(goal, event) {
            SeedAction::Authorize(prompt) => {
                prompts.push(prompt);
                SeedEvent::Authorized(match password {
                    Some(text) => Password::from_known(text.to_string()),
                    None => Password::from_unknown(),
                })
            }
            SeedAction::Load { file, password } => {
                SeedEvent::Loaded(load(&file, password.expose_secret()).map(RootSeed::new))
            }
            SeedAction::Settle(seed) => {
                return (seed.map(|s| s.expose_secret().clone()), prompts);
            }
        };
    }
}

fn seed_file(file: &str, password: &str) -> Result<Vec<u8>, u8> {
    match (file, password) {
        ("seed.aes", "right") => Ok(vec![1, 2, 3]),
        ("seed.aes", "other") => Ok(vec![1, 2, 4]),
        _ => Err(1),
    }
}

#[test]
fn new_state_has_no_seed() {
    let mut state = State::new(config(), "authorizer");
    let (answer, prompts) = settle(&mut state, SeedGoal::Get, "mint", None, &seed_file);
    assert_eq!(answer, None);
    assert_eq!(prompts, ["mint"]);
}

#[test]
fn get_unlocks_once_and_then_stays_silent() {
    let mut state = State::new(config(), "authorizer");
    assert_eq!(
        settle(&mut state, SeedGoal::Get, "mint", Some("right"), &seed_file),
        (Some(vec![1, 2, 3]), vec!["mint"])
    );
    assert_eq!(
        settle(&mut state, SeedGoal::Get, "again", Some("other"), &seed_file),
        (Some(vec![1, 2, 3]), vec![])
    );
}

#[test]
fn get_with_wrong_password_stores_nothing() {
    let mut state = State::new(config(), "authorizer");
    assert_eq!(
        settle(&mut state, SeedGoal::Get, "mint", Some("wrong"), &seed_file),
        (None, vec!["mint"])
    );
    assert_eq!(
        settle(&mut state, SeedGoal::Get, "mint", Some("right"), &seed_file),
        (Some(vec![1, 2, 3]), vec!["mint"])
    );
}

#[test]
fn check_without_a_stored_seed_stores_what_is_unlocked() {
    let mut state = State::new(config(), "authorizer");
    assert_eq!(
        settle(&mut state, SeedGoal::Check, "send", Some("other"), &seed_file),
        (Some(vec![1, 2, 4]), vec!["send"])
    );
    assert_eq!(
        settle(&mut state, SeedGoal::Get, "mint", None, &seed_file),
        (Some(vec![1, 2, 4]), vec![])
    );
}

#[test]
fn check_always_prompts() {
    let mut state = State::new(config(), "authorizer");
    settle(&mut state, SeedGoal::Get, "mint", Some("right"), &seed_file);
    for _ in 0..3 {
        assert_eq!(
            settle(&mut state, SeedGoal::Check, "send", Some("right"), &seed_file),
            (Some(vec![1, 2, 3]), vec!["send"])
        );
    }
}

#[test]
fn check_refuses_and_keeps_the_stored_seed() {
    let mut state = State::new(config(), "authorizer");
    settle(&mut state, SeedGoal::Get, "mint", Some("right"), &seed_file);
    for password in [None, Some("wrong"), Some("other")] {
        assert_eq!(
            settle(&mut state, SeedGoal::Check, "send", password, &seed_file),
            (None, vec!["send"])
        );
        assert_eq!(
            settle(&mut state, SeedGoal::Get, "mint", None, &seed_file),
            (Some(vec![1, 2, 3]), vec![])
        );
    }
}

#[test]
fn load_uses_configured_file_and_given_password() {
    let mut state = InnerState::new(config(), ());
    let action = state.get_root_seed::<u8, u8>(SeedEvent::Authorized(Password::from_known(
        "secret".to_string(),
    )));
    match action {
        SeedAction::Load { file, password } => {
            assert_eq!(file, "seed.aes");
            assert_eq!(password.expose_secret(), "secret");
        }
        _ => panic!("expected a load"),
    }
}

#[test]
fn seed_is_set_from_authorization() {
    let mut state = InnerState::new(config(), ());
    let action = state.set_seed_from_authorization::<u8, u8>(SeedEvent::Asked(3));
    assert!(matches!(action, SeedAction::Authorize(3)));
    let action = state.set_seed_from_authorization::<u8, u8>(SeedEvent::Loaded(Ok(
        RootSeed::new(vec![5]),
    )));
    assert!(matches!(action, SeedAction::Settle(Some(seed)) if seed.expose_secret() == &[5]));
    let action =
        state.set_seed_from_authorization::<u8, u8>(SeedEvent::Authorized(Password::from_unknown()));
    assert!(matches!(action, SeedAction::Settle(Some(seed)) if seed.expose_secret() == &[5]));
    let action = state.set_seed_from_authorization::<u8, u8>(SeedEvent::Loaded(Err(0)));
    assert!(matches!(action, SeedAction::Settle(None)));
}

#[test]
fn get_keeps_a_stored_seed_out_of_turn() {
    let mut state = State::new(config(), "authorizer");
    settle(&mut state, SeedGoal::Get, "mint", Some("right"), &seed_file);
    let events: Vec<SeedEvent<u8, u8>> = vec![
        SeedEvent::Loaded(Err(1)),
        SeedEvent::Loaded(Ok(RootSeed::new(vec![9]))),
        SeedEvent::Authorized(Password::from_known("other".to_string())),
        SeedEvent::Authorized(Password::from_unknown()),
        SeedEvent::Asked(0),
    ];
    for event in events {
        assert!(matches!(
            state.get_root_seed(event),
            SeedAction::Settle(Some(seed)) if seed.expose_secret() == &[1, 2, 3]
        ));
    }
}

#[test]
fn state_gives_out_config_and_authorizer() {
    let mut state = State::new(config(), "first");
    assert_eq!(state.config().root_seed_file, "seed.aes");
    assert_eq!(state.config().service_url, "127.0.0.1:29987");
    assert_eq!(*state.authorizer(), "first");
    *state.authorizer() = "second";
    assert_eq!(*state.authorizer(), "second");
}

#[test]
fn seeds_compare_by_their_bytes() {
    let seed = RootSeed::new(vec![1, 2, 3]);
    assert!(seed == seed.clone());
    assert!(seed == RootSeed::new(vec![1, 2, 3]));
    assert!(seed != RootSeed::new(vec![1, 2, 4]));
    assert!(seed != RootSeed::new(vec![0, 2, 3]));
    assert!(seed != RootSeed::new(vec![1, 2]));
    assert!(RootSeed::new(vec![]) == RootSeed::new(vec![]));
}

#[test]
fn passwords_are_known_or_not() {
    let known = Password::from_known("x".to_string()).known();
    assert_eq!(known.unwrap().expose_secret(), "x");
    assert!(Password::from_unknown().known().is_none());
}
