//! How the service starts.
//!
//! As with requests, the caller performs the action that is returned and hands back the event
//! that tells its outcome. The caller holds the state to itself until the service listens.

use crate::seed::{KnownPassword, Password, RootSeed};
use crate::service::{Service, State};
use crate::state::{Config, ConfigView, InnerStateView, SeedAction};
use vstd::prelude::*;

verus! {

/// What has happened to a service that starts. `E` is the error of a failed setup, `L` that of a
/// failed load.
pub enum StartupEvent<E, L> {
    /// The service is to start.
    Started,
    /// The configuration was set up.
    ConfigReady(Result<(), E>),
    /// The authorizer was set up and gave this password.
    AuthorizerReady(Password),
    /// The seed file was read.
    SeedLoaded(Result<RootSeed, L>),
}

/// What the caller does next to start the service.
pub enum StartupAction<E> {
    /// Set up this configuration.
    SetUpConfig(Config),
    /// Set up the authorizer with this configuration.
    SetUpAuthorizer(Config),
    /// Read the seed from `file`, with `password`.
    LoadSeed { file: String, password: KnownPassword },
    /// Let go of the state and listen at this URL. The service ends as listening ends.
    Listen(String),
    /// Give up, with this error.
    Fail(E),
}

/// What a [`StartupEvent`] tells: of a failed load, only that it failed.
pub enum StartupEventView<E> {
    Started,
    ConfigReady(Result<(), E>),
    AuthorizerReady(Option<Seq<char>>),
    SeedLoaded(Option<Seq<u8>>),
}

/// What a [`StartupAction`] asks for.
pub enum StartupActionView<E> {
    SetUpConfig(ConfigView),
    SetUpAuthorizer(ConfigView),
    LoadSeed { file: Seq<char>, password: Seq<char> },
    Listen(Seq<char>),
    Fail(E),
}

impl<E, L> View for StartupEvent<E, L> {
    type V = StartupEventView<E>;

    open spec fn view(&self) -> StartupEventView<E> {
        match *self {
            StartupEvent::Started => StartupEventView::Started,
            StartupEvent::ConfigReady(result) => StartupEventView::ConfigReady(result),
            StartupEvent::AuthorizerReady(password) => StartupEventView::AuthorizerReady(password@),
            StartupEvent::SeedLoaded(Ok(seed)) => StartupEventView::SeedLoaded(Some(seed@)),
            StartupEvent::SeedLoaded(Err(_)) => StartupEventView::SeedLoaded(None),
        }
    }
}

impl<E> View for StartupAction<E> {
    type V = StartupActionView<E>;

    open spec fn view(&self) -> StartupActionView<E> {
        match *self {
            StartupAction::SetUpConfig(config) => StartupActionView::SetUpConfig(config@),
            StartupAction::SetUpAuthorizer(config) => StartupActionView::SetUpAuthorizer(config@),
            StartupAction::LoadSeed { file, password } => StartupActionView::LoadSeed {
                file: file@,
                password: password@,
            },
            StartupAction::Listen(url) => StartupActionView::Listen(url@),
            StartupAction::Fail(error) => StartupActionView::Fail(error),
        }
    }
}

/// The state after an event of the start, and the action that follows.
pub struct StartupStep<A, E> {
    pub state: InnerStateView<A>,
    pub action: StartupActionView<E>,
}

/// What the start does on an event: it sets up the configuration of the state, sets up the
/// authorizer with it, loads the seed if the authorizer gave a password, and listens, in this
/// order. It gives up only if the configuration cannot be set up; that a seed does not load is no
/// reason to.
pub open spec fn startup_step<A, E>(
    state: InnerStateView<A>,
    event: StartupEventView<E>,
) -> StartupStep<A, E> {
    match event {
        StartupEventView::Started => StartupStep {
            state,
            action: StartupActionView::SetUpConfig(state.config),
        },
        StartupEventView::ConfigReady(Ok(_)) => StartupStep {
            state,
            action: StartupActionView::SetUpAuthorizer(state.config),
        },
        StartupEventView::ConfigReady(Err(error)) => StartupStep {
            state,
            action: StartupActionView::Fail(error),
        },
        StartupEventView::AuthorizerReady(Some(password)) => StartupStep {
            state,
            action: StartupActionView::LoadSeed { file: state.config.root_seed_file, password },
        },
        StartupEventView::AuthorizerReady(None) => StartupStep {
            state,
            action: StartupActionView::Listen(state.config.service_url),
        },
        StartupEventView::SeedLoaded(loaded) => StartupStep {
            state: state.with_seed(loaded),
            action: StartupActionView::Listen(state.config.service_url),
        },
    }
}

impl<A> Service<A> {
    /// Starts the service.
    pub fn serve<E, L>(
        state: &mut State<A>,
        event: StartupEvent<E, L>,
    ) -> (action: StartupAction<E>)
        ensures
            (StartupStep { state: final(state)@, action: action@ }) == startup_step(
                old(state)@,
                event@,
            ),
    {
        match event {
            StartupEvent::Started => StartupAction::SetUpConfig(state.config()),
            StartupEvent::ConfigReady(Ok(_)) => StartupAction::SetUpAuthorizer(state.config()),
            StartupEvent::ConfigReady(Err(error)) => StartupAction::Fail(error),
            StartupEvent::AuthorizerReady(password) => match state.set_seed_from_password::<()>(
                password,
            ) {
                SeedAction::Load { file, password } => StartupAction::LoadSeed { file, password },
                _ => StartupAction::Listen(state.config().service_url),
            },
            StartupEvent::SeedLoaded(loaded) => {
                state.set_seed_from_load::<(), L>(loaded);
                StartupAction::Listen(state.config().service_url)
            },
        }
    }
}

/// How a service runs, from its start to its end.
pub ghost struct Launch<A, E> {
    /// The actions that are performed, in order.
    pub actions: Seq<StartupActionView<E>>,
    /// The state with which the service listens, or gives up.
    pub state: InnerStateView<A>,
    /// How the service ends.
    pub result: Result<(), E>,
}

/// What the outside answers to the actions of a start.
pub ghost struct LaunchSite<E> {
    /// The outcome of setting up a configuration.
    pub set_up: spec_fn(ConfigView) -> Result<(), E>,
    /// The password that the authorizer gives when it is set up with a configuration, if it gives
    /// one.
    pub password: spec_fn(ConfigView) -> Option<Seq<char>>,
    /// The seed that a file and a password give, if they give one.
    pub load: spec_fn(Seq<char>, Seq<char>) -> Option<Seq<u8>>,
    /// How listening at a URL ends.
    pub listen: spec_fn(Seq<char>) -> Result<(), E>,
}

/// How many more actions may follow that of an event.
pub open spec fn actions_left<E>(event: StartupEventView<E>) -> nat {
    match event {
        StartupEventView::Started => 3,
        StartupEventView::ConfigReady(_) => 2,
        StartupEventView::AuthorizerReady(_) => 1,
        StartupEventView::SeedLoaded(_) => 0,
    }
}

/// How a service runs after `event`, where each action is performed and its outcome handed back.
pub open spec fn launch<A, E>(
    state: InnerStateView<A>,
    event: StartupEventView<E>,
    site: LaunchSite<E>,
) -> Launch<A, E>
    decreases actions_left(event),
{
    let step = startup_step(state, event);
    let rest = match step.action {
        StartupActionView::SetUpConfig(config) => launch(
            step.state,
            StartupEventView::ConfigReady((site.set_up)(config)),
            site,
        ),
        StartupActionView::SetUpAuthorizer(config) => launch(
            step.state,
            StartupEventView::AuthorizerReady((site.password)(config)),
            site,
        ),
        StartupActionView::LoadSeed { file, password } => launch(
            step.state,
            StartupEventView::SeedLoaded((site.load)(file, password)),
            site,
        ),
        StartupActionView::Listen(url) => Launch {
            actions: Seq::empty(),
            state: step.state,
            result: (site.listen)(url),
        },
        StartupActionView::Fail(error) => Launch {
            actions: Seq::empty(),
            state: step.state,
            result: Err(error),
        },
    };
    Launch { actions: seq![step.action] + rest.actions, ..rest }
}

/// A start sets up the configuration of the state. If that fails, it gives up with the error, with
/// the state as it was, and does nothing else. Otherwise it sets up the authorizer once, with that
/// configuration. A password that the authorizer gives is used to load the seed from the configured
/// file, and what it loads, or nothing if it fails, is stored; without a password nothing is loaded
/// and the state stays as it was. Then the service listens at the configured URL, and ends as
/// listening ends.
pub proof fn law_start<A, E>(state: InnerStateView<A>, site: LaunchSite<E>)
    ensures
        ({
            let config = state.config;
            let file = config.root_seed_file;
            let url = config.service_url;
            launch(state, StartupEventView::Started, site) == (match (site.set_up)(config) {
                Err(error) => Launch {
                    actions: seq![
                        StartupActionView::SetUpConfig(config),
                        StartupActionView::Fail(error),
                    ],
                    state,
                    result: Err(error),
                },
                Ok(_) => match (site.password)(config) {
                    Some(password) => Launch {
                        actions: seq![
                            StartupActionView::SetUpConfig(config),
                            StartupActionView::SetUpAuthorizer(config),
                            StartupActionView::LoadSeed { file, password },
                            StartupActionView::Listen(url),
                        ],
                        state: state.with_seed((site.load)(file, password)),
                        result: (site.listen)(url),
                    },
                    None => Launch {
                        actions: seq![
                            StartupActionView::SetUpConfig(config),
                            StartupActionView::SetUpAuthorizer(config),
                            StartupActionView::Listen(url),
                        ],
                        state,
                        result: (site.listen)(url),
                    },
                },
            })
        }),
{
    reveal_with_fuel(launch, 4);
    let run = launch(state, StartupEventView::Started, site);
    let config = state.config;
    let file = config.root_seed_file;
    let url = config.service_url;
    let set_up = StartupActionView::<E>::SetUpConfig(config);
    let authorize = StartupActionView::<E>::SetUpAuthorizer(config);
    match (site.set_up)(config) {
        Err(error) => {
            assert(run.actions =~= seq![set_up, StartupActionView::Fail(error)]);
        },
        Ok(_) => match (site.password)(config) {
            Some(password) => {
                assert(run.actions =~= seq![
                    set_up,
                    authorize,
                    StartupActionView::LoadSeed { file, password },
                    StartupActionView::Listen(url),
                ]);
            },
            None => {
                assert(run.actions =~= seq![set_up, authorize, StartupActionView::Listen(url)]);
            },
        },
    }
}

} // verus!
