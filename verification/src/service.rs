//! Manta Signer Service

use crate::handler::{
    progress, reaction, request_seed, Action, Endpoint, Event, Format, Params, Progress, Prompt,
    Reply,
};
use crate::message::{
    AssetMessage, Message, MintMessage, PrivateTransferMessage, ReclaimMessage,
    RecoverAccountMessage, ShieldedAddressMessage,
};
use crate::seed::{Password, RootSeed};
use crate::state::{
    seed_step, set_step, Config, InnerState, InnerStateView, SeedAction,
    SeedActionView, SeedEvent, SeedEventView, SeedGoal, SeedStep,
};
use crate::summary::TransactionSummary;
use vstd::prelude::*;

verus! {

/// Signer State
pub struct State<A>(InnerState<A>);

impl<A> View for State<A> {
    type V = InnerStateView<A>;

    closed spec fn view(&self) -> InnerStateView<A> {
        self.0@
    }
}

impl<A> State<A> {
    /// Builds a new [`State`] using `config` and `authorizer`.
    pub fn new(config: Config, authorizer: A) -> (state: Self)
        ensures
            state@ == (InnerStateView { config: config@, authorizer, root_seed: None }),
    {
        Self(InnerState::new(config, authorizer))
    }

    /// Returns the server configuration for `self`.
    pub fn config(&self) -> (config: Config)
        ensures
            config@ == self@.config,
    {
        self.0.config().clone()
    }

    /// Returns the authorizer of `self`.
    pub fn authorizer(&mut self) -> (authorizer: &mut A)
        ensures
            *authorizer == old(self)@.authorizer,
            final(self)@ == (InnerStateView { authorizer: *final(authorizer), ..old(self)@ }),
    {
        self.0.authorizer()
    }

    /// Returns the stored root seed if it exists, otherwise, gets the password from the user
    /// and tries to decrypt the root seed.
    pub fn get_root_seed<T, E>(&mut self, event: SeedEvent<T, E>) -> (action: SeedAction<T>)
        ensures
            final(self)@ == old(self)@.with_seed(final(self)@.root_seed),
            final(self)@.config == old(self)@.config,
            final(self)@.authorizer == old(self)@.authorizer,
            (SeedStep { stored: final(self)@.root_seed, action: action@ }) == seed_step(
                SeedGoal::Get,
                old(self)@.root_seed,
                old(self)@.config.root_seed_file,
                event@,
            ),
    {
        self.0.get_root_seed(event)
    }

    /// Returns the currently stored root seed if it matches the one returned by the user after
    /// prompting.
    pub fn check_root_seed<T, E>(&mut self, event: SeedEvent<T, E>) -> (action: SeedAction<T>)
        ensures
            final(self)@ == old(self)@.with_seed(final(self)@.root_seed),
            final(self)@.config == old(self)@.config,
            final(self)@.authorizer == old(self)@.authorizer,
            (SeedStep { stored: final(self)@.root_seed, action: action@ }) == seed_step(
                SeedGoal::Check,
                old(self)@.root_seed,
                old(self)@.config.root_seed_file,
                event@,
            ),
    {
        self.0.check_root_seed(event)
    }

    /// Requests the root seed with the given `goal`.
    pub fn request_root_seed<T, E>(
        &mut self,
        goal: SeedGoal,
        event: SeedEvent<T, E>,
    ) -> (action: SeedAction<T>)
        ensures
            final(self)@ == old(self)@.with_seed(final(self)@.root_seed),
            final(self)@.config == old(self)@.config,
            final(self)@.authorizer == old(self)@.authorizer,
            (SeedStep { stored: final(self)@.root_seed, action: action@ }) == seed_step(
                goal,
                old(self)@.root_seed,
                old(self)@.config.root_seed_file,
                event@,
            ),
    {
        match goal {
            SeedGoal::Get => self.get_root_seed(event),
            SeedGoal::Check => self.check_root_seed(event),
        }
    }

    /// Starts to set the seed from a given `password`: a known one unlocks the seed file, an
    /// unknown one leaves the seed as it is.
    pub fn set_seed_from_password<T>(&self, password: Password) -> (action: SeedAction<T>)
        ensures
            action@ == set_step::<T>(
                self@.root_seed,
                self@.config.root_seed_file,
                SeedEventView::Authorized(password@),
            ).action,
    {
        self.0.set_seed_from_password(password)
    }

    /// Sets the seed from the outcome of a load. A failed load leaves no seed.
    pub fn set_seed_from_load<T, E>(
        &mut self,
        loaded: Result<RootSeed, E>,
    ) -> (action: SeedAction<T>)
        ensures
            final(self)@ == old(self)@.with_seed(SeedEvent::<T, E>::Loaded(loaded)@->Loaded_0),
            action@ == SeedActionView::<T>::Settle(final(self)@.root_seed),
            final(self)@.config == old(self)@.config,
            final(self)@.authorizer == old(self)@.authorizer,
            match loaded {
                Ok(seed) => final(self)@.root_seed == Some(seed@) && (action matches
                    SeedAction::Settle(Some(answer)) && answer@ == seed@),
                Err(_) => final(self)@.root_seed is None && (action matches
                    SeedAction::Settle(None)),
            },
    {
        self.0.set_seed_from_load(loaded)
    }
}

/// HTTP method
#[derive(Clone, Copy, Debug, PartialEq, Eq, Structural)]
pub enum Method {
    /// GET
    Get,
    /// POST
    Post,
}

/// A path of the service
pub struct Route {
    /// Method that the path answers to
    pub method: Method,
    /// Path
    pub path: &'static str,
    /// What is asked for at the path
    pub endpoint: Endpoint,
}

/// What a [`Route`] says.
pub struct RouteView {
    pub method: Method,
    pub path: Seq<char>,
    pub endpoint: Endpoint,
}

impl View for Route {
    type V = RouteView;

    open spec fn view(&self) -> RouteView {
        RouteView { method: self.method, path: self.path@, endpoint: self.endpoint }
    }
}

/// The routes of the service.
pub open spec fn routes() -> Seq<RouteView> {
    seq![
        RouteView {
            method: Method::Get,
            path: "/heartbeat"@,
            endpoint: Endpoint::Heartbeat,
        },
        RouteView {
            method: Method::Post,
            path: "/recoverAccount"@,
            endpoint: Endpoint::RecoverAccount,
        },
        RouteView {
            method: Method::Post,
            path: "/deriveShieldedAddress"@,
            endpoint: Endpoint::DeriveShieldedAddress,
        },
        RouteView {
            method: Method::Post,
            path: "/generateAsset"@,
            endpoint: Endpoint::GenerateAsset,
        },
        RouteView {
            method: Method::Post,
            path: "/generateMintData"@,
            endpoint: Endpoint::Mint,
        },
        RouteView {
            method: Method::Post,
            path: "/generatePrivateTransferData"@,
            endpoint: Endpoint::PrivateTransfer,
        },
        RouteView {
            method: Method::Post,
            path: "/generateReclaimData"@,
            endpoint: Endpoint::Reclaim,
        },
    ]
}

/// No two routes share a path or an endpoint.
pub proof fn law_routes_are_distinct(i: int, j: int)
    requires
        0 <= i < j < routes().len(),
    ensures
        routes()[i].path != routes()[j].path,
        routes()[i].endpoint != routes()[j].endpoint,
{
    reveal_strlit("/heartbeat");
    reveal_strlit("/recoverAccount");
    reveal_strlit("/deriveShieldedAddress");
    reveal_strlit("/generateAsset");
    reveal_strlit("/generateMintData");
    reveal_strlit("/generatePrivateTransferData");
    reveal_strlit("/generateReclaimData");
    // The paths already differ in length.
    assert(routes()[i].path.len() != routes()[j].path.len());
}

/// Every endpoint has a route. It is reached by POST, but for the heartbeat, which is reached by
/// GET.
pub proof fn law_endpoint_is_routed(endpoint: Endpoint)
    ensures
        exists|i: int| 0 <= i < routes().len() && (#[trigger] routes()[i]).endpoint == endpoint,
        forall|i: int|
            0 <= i < routes().len() && (#[trigger] routes()[i]).endpoint == endpoint ==> (
            routes()[i].method == Method::Get <==> endpoint == Endpoint::Heartbeat),
{
    let i: int = match endpoint {
        Endpoint::Heartbeat => 0,
        Endpoint::RecoverAccount => 1,
        Endpoint::DeriveShieldedAddress => 2,
        Endpoint::GenerateAsset => 3,
        Endpoint::Mint => 4,
        Endpoint::PrivateTransfer => 5,
        Endpoint::Reclaim => 6,
    };
    assert(routes()[i].endpoint == endpoint);
}

/// Which requests from other origins the service admits
pub struct CorsPolicy {
    /// Value of the header that lists the methods
    pub allow_methods: &'static str,
    /// The configured origin, as text
    pub allow_origin: String,
    /// Whether requests may carry credentials
    pub allow_credentials: bool,
}

/// What a [`CorsPolicy`] says.
pub struct CorsPolicyView {
    pub allow_methods: Seq<char>,
    pub allow_origin: Seq<char>,
    pub allow_credentials: bool,
}

impl View for CorsPolicy {
    type V = CorsPolicyView;

    open spec fn view(&self) -> CorsPolicyView {
        CorsPolicyView {
            allow_methods: self.allow_methods@,
            allow_origin: self.allow_origin@,
            allow_credentials: self.allow_credentials,
        }
    }
}

/// Signer Service
pub struct Service<A> {
    state: State<A>,
    cors: CorsPolicy,
    routes: Vec<Route>,
}

/// What a [`Service`] consists of.
pub struct ServiceView<A> {
    pub state: InnerStateView<A>,
    pub cors: CorsPolicyView,
    pub routes: Seq<RouteView>,
}

impl<A> View for Service<A> {
    type V = ServiceView<A>;

    closed spec fn view(&self) -> ServiceView<A> {
        ServiceView {
            state: self.state@,
            cors: self.cors@,
            routes: self.routes@.map_values(|route: Route| route@),
        }
    }
}

impl<A> Service<A> {
    /// Builds a new [`Service`] from `config` and `authorizer`.
    pub fn build(config: Config, authorizer: A) -> (service: Self)
        ensures
            service@ == (ServiceView {
                state: InnerStateView { config: config@, authorizer, root_seed: None },
                cors: CorsPolicyView {
                    allow_methods: "GET, POST"@,
                    allow_origin: config@.origin_url,
                    allow_credentials: false,
                },
                routes: routes(),
            }),
    {
        let cors = CorsPolicy {
            allow_methods: "GET, POST",
            allow_origin: config.origin_url.clone(),
            allow_credentials: false,
        };
        let routes = vec![
            Route { method: Method::Get, path: "/heartbeat", endpoint: Endpoint::Heartbeat },
            Route {
                method: Method::Post,
                path: "/recoverAccount",
                endpoint: Endpoint::RecoverAccount,
            },
            Route {
                method: Method::Post,
                path: "/deriveShieldedAddress",
                endpoint: Endpoint::DeriveShieldedAddress,
            },
            Route {
                method: Method::Post,
                path: "/generateAsset",
                endpoint: Endpoint::GenerateAsset,
            },
            Route { method: Method::Post, path: "/generateMintData", endpoint: Endpoint::Mint },
            Route {
                method: Method::Post,
                path: "/generatePrivateTransferData",
                endpoint: Endpoint::PrivateTransfer,
            },
            Route {
                method: Method::Post,
                path: "/generateReclaimData",
                endpoint: Endpoint::Reclaim,
            },
        ];
        assert(routes@.map_values(|route: Route| route@) =~= self::routes());
        Self { state: State::new(config, authorizer), cors, routes }
    }

    /// Returns a reference to the internal state of the service.
    pub fn state(&self) -> (state: &State<A>)
        ensures
            state@ == self@.state,
    {
        &self.state
    }

    /// Takes the service apart.
    pub fn into_parts(self) -> (parts: (State<A>, CorsPolicy, Vec<Route>))
        ensures
            self@ == (ServiceView {
                state: parts.0@,
                cors: parts.1@,
                routes: parts.2@.map_values(|route: Route| route@),
            }),
    {
        (self.state, self.cors, self.routes)
    }
}

impl<A> Service<A> {
    /// Sends a heartbeat to the client.
    pub fn heartbeat<D, E>(event: Event<D, E>) -> (action: Action<D, E>)
        ensures
            action@ == reaction(Endpoint::Heartbeat, event@),
    {
        let _ = event;
        Action::Reply(Ok(Reply::Text("heartbeat".to_owned())))
    }

    /// Runs an account recovery for the given request.
    pub fn recover_account<D, E>(event: Event<D, E>) -> (action: Action<D, E>)
        ensures
            action@ == reaction(Endpoint::RecoverAccount, event@),
    {
        match progress(Endpoint::RecoverAccount, Format::RecoverAccount, event) {
            Progress::Act(action) => action,
            Progress::Decoded(params, details) => {
                let prompt = match params {
                    Params::RecoverAccount => Some(Prompt::Name("recover_account")),
                    _ => None,
                };
                request_seed(SeedGoal::Get, prompt, details)
            },
            Progress::Generated(data) => {
                let message = Message::RecoverAccount(RecoverAccountMessage::new(data));
                Action::Reply(Ok(Reply::Json(message)))
            },
        }
    }

    /// Generates a new derived shielded address for the given request.
    pub fn derive_shielded_address<D, E>(event: Event<D, E>) -> (action: Action<D, E>)
        ensures
            action@ == reaction(Endpoint::DeriveShieldedAddress, event@),
    {
        match progress(Endpoint::DeriveShieldedAddress, Format::DeriveShieldedAddress, event) {
            Progress::Act(action) => action,
            Progress::Decoded(params, details) => {
                let prompt = match params {
                    Params::DeriveShieldedAddress => Some(Prompt::Name("derive_shielded_address")),
                    _ => None,
                };
                request_seed(SeedGoal::Get, prompt, details)
            },
            Progress::Generated(data) => {
                let message = Message::ShieldedAddress(ShieldedAddressMessage::new(data));
                Action::Reply(Ok(Reply::Json(message)))
            },
        }
    }

    /// Generates an asset for the given request.
    pub fn generate_asset<D, E>(event: Event<D, E>) -> (action: Action<D, E>)
        ensures
            action@ == reaction(Endpoint::GenerateAsset, event@),
    {
        match progress(Endpoint::GenerateAsset, Format::GenerateAsset, event) {
            Progress::Act(action) => action,
            Progress::Decoded(params, details) => {
                let prompt = match params {
                    Params::GenerateAsset => Some(Prompt::Name("generate_asset")),
                    _ => None,
                };
                request_seed(SeedGoal::Get, prompt, details)
            },
            Progress::Generated(data) => {
                let message = Message::Asset(AssetMessage::new(data));
                Action::Reply(Ok(Reply::Json(message)))
            },
        }
    }

    /// Generates mint data for the given request.
    pub fn mint<D, E>(event: Event<D, E>) -> (action: Action<D, E>)
        ensures
            action@ == reaction(Endpoint::Mint, event@),
    {
        match progress(Endpoint::Mint, Format::GenerateAsset, event) {
            Progress::Act(action) => action,
            Progress::Decoded(params, details) => {
                let prompt = match params {
                    Params::GenerateAsset => Some(Prompt::Name("mint")),
                    _ => None,
                };
                request_seed(SeedGoal::Get, prompt, details)
            },
            Progress::Generated(data) => {
                let message = Message::Mint(MintMessage::new(data));
                Action::Reply(Ok(Reply::Json(message)))
            },
        }
    }

    /// Generates private transfer data for the given request.
    pub fn private_transfer<D, E>(event: Event<D, E>) -> (action: Action<D, E>)
        ensures
            action@ == reaction(Endpoint::PrivateTransfer, event@),
    {
        match progress(Endpoint::PrivateTransfer, Format::PrivateTransfer, event) {
            Progress::Act(action) => action,
            Progress::Decoded(params, details) => {
                let prompt = match params {
                    Params::PrivateTransfer(batch) => Some(
                        Prompt::Transaction(TransactionSummary::from(&batch)),
                    ),
                    _ => None,
                };
                request_seed(SeedGoal::Check, prompt, details)
            },
            Progress::Generated(data) => {
                let message = Message::PrivateTransfer(PrivateTransferMessage::new(data));
                Action::Reply(Ok(Reply::Json(message)))
            },
        }
    }

    /// Generates reclaim data for the given request.
    pub fn reclaim<D, E>(event: Event<D, E>) -> (action: Action<D, E>)
        ensures
            action@ == reaction(Endpoint::Reclaim, event@),
    {
        match progress(Endpoint::Reclaim, Format::Reclaim, event) {
            Progress::Act(action) => action,
            Progress::Decoded(params, details) => {
                let prompt = match params {
                    Params::Reclaim(batch) => Some(
                        Prompt::Transaction(TransactionSummary::from(&batch)),
                    ),
                    _ => None,
                };
                request_seed(SeedGoal::Check, prompt, details)
            },
            Progress::Generated(data) => {
                let message = Message::Reclaim(ReclaimMessage::new(data));
                Action::Reply(Ok(Reply::Json(message)))
            },
        }
    }

    /// Handles a request at `endpoint`.
    pub fn handle<D, E>(endpoint: Endpoint, event: Event<D, E>) -> (action: Action<D, E>)
        ensures
            action@ == reaction(endpoint, event@),
    {
        match endpoint {
            Endpoint::Heartbeat => Self::heartbeat(event),
            Endpoint::RecoverAccount => Self::recover_account(event),
            Endpoint::DeriveShieldedAddress => Self::derive_shielded_address(event),
            Endpoint::GenerateAsset => Self::generate_asset(event),
            Endpoint::Mint => Self::mint(event),
            Endpoint::PrivateTransfer => Self::private_transfer(event),
            Endpoint::Reclaim => Self::reclaim(event),
        }
    }
}

} // verus!
