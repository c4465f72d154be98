//! The state of the signer, and how a request comes by the root seed.
//!
//! Coming by the seed may take a dialog with the user and a read of the seed file. Each function
//! here takes one event and returns the action that comes next: the caller performs it and calls
//! the same function again with the event that tells its outcome, until the request is settled.
//! The caller holds the state to itself from the first event of a request to its settlement.

use crate::seed::{clone_optional, optional_bytes, KnownPassword, Password, RootSeed};
use vstd::prelude::*;

verus! {

/// Server Configuration
pub struct Config {
    /// URL at which the service listens
    pub service_url: String,
    /// URL of the front end that may call the service
    pub origin_url: String,
    /// Path of the file that holds the encrypted root seed
    pub root_seed_file: String,
    /// Path of the proving key for private transfers
    pub private_transfer_proving_key_path: String,
    /// Path of the proving key for reclaims
    pub reclaim_proving_key_path: String,
}

/// What a [`Config`] says.
pub struct ConfigView {
    pub service_url: Seq<char>,
    pub origin_url: Seq<char>,
    pub root_seed_file: Seq<char>,
    pub private_transfer_proving_key_path: Seq<char>,
    pub reclaim_proving_key_path: Seq<char>,
}

impl View for Config {
    type V = ConfigView;

    open spec fn view(&self) -> ConfigView {
        ConfigView {
            service_url: self.service_url@,
            origin_url: self.origin_url@,
            root_seed_file: self.root_seed_file@,
            private_transfer_proving_key_path: self.private_transfer_proving_key_path@,
            reclaim_proving_key_path: self.reclaim_proving_key_path@,
        }
    }
}

impl Clone for Config {
    fn clone(&self) -> (config: Self)
        ensures
            config == *self,
    {
        Config {
            service_url: self.service_url.clone(),
            origin_url: self.origin_url.clone(),
            root_seed_file: self.root_seed_file.clone(),
            private_transfer_proving_key_path: self.private_transfer_proving_key_path.clone(),
            reclaim_proving_key_path: self.reclaim_proving_key_path.clone(),
        }
    }
}

/// What has happened to a request for the seed. `T` is what the user is prompted with, `E` the
/// error of a failed load.
pub enum SeedEvent<T, E> {
    /// The request was made, with this prompt in case the user has to be asked.
    Asked(T),
    /// The user was prompted and gave this password.
    Authorized(Password),
    /// The seed file was read.
    Loaded(Result<RootSeed, E>),
}

/// What the caller of a seed request does next.
pub enum SeedAction<T> {
    /// Prompt the user for the password.
    Authorize(T),
    /// Read the seed from `file`, with `password`.
    Load { file: String, password: KnownPassword },
    /// Nothing: this is the answer.
    Settle(Option<RootSeed>),
}

/// What a [`SeedEvent`] tells: of a failed load, only that it failed.
pub enum SeedEventView<T> {
    Asked(T),
    Authorized(Option<Seq<char>>),
    Loaded(Option<Seq<u8>>),
}

/// What a [`SeedAction`] asks for.
pub enum SeedActionView<T> {
    Authorize(T),
    Load { file: Seq<char>, password: Seq<char> },
    Settle(Option<Seq<u8>>),
}

impl<T, E> View for SeedEvent<T, E> {
    type V = SeedEventView<T>;

    open spec fn view(&self) -> SeedEventView<T> {
        match *self {
            SeedEvent::Asked(prompt) => SeedEventView::Asked(prompt),
            SeedEvent::Authorized(password) => SeedEventView::Authorized(password@),
            SeedEvent::Loaded(Ok(seed)) => SeedEventView::Loaded(Some(seed@)),
            SeedEvent::Loaded(Err(_)) => SeedEventView::Loaded(None),
        }
    }
}

impl<T> View for SeedAction<T> {
    type V = SeedActionView<T>;

    open spec fn view(&self) -> SeedActionView<T> {
        match *self {
            SeedAction::Authorize(prompt) => SeedActionView::Authorize(prompt),
            SeedAction::Load { file, password } => SeedActionView::Load {
                file: file@,
                password: password@,
            },
            SeedAction::Settle(seed) => SeedActionView::Settle(optional_bytes(seed)),
        }
    }
}

/// What a request wants of the root seed.
#[derive(Clone, Copy, Debug, PartialEq, Eq, Structural)]
pub enum SeedGoal {
    /// Use the seed: see [`InnerState::get_root_seed`].
    Get,
    /// Use the seed with the user's consent: see [`InnerState::check_root_seed`].
    Check,
}

/// The stored seed after an event, and the action that follows.
pub struct SeedStep<T> {
    pub stored: Option<Seq<u8>>,
    pub action: SeedActionView<T>,
}

/// A request that replaces the stored seed with the one that the user's password unlocks: the
/// seed is replaced when a load was tried, by nothing if it failed, and kept when the user
/// withheld the password. Either way the stored seed is the answer.
pub open spec fn set_step<T>(
    stored: Option<Seq<u8>>,
    file: Seq<char>,
    event: SeedEventView<T>,
) -> SeedStep<T> {
    match event {
        SeedEventView::Asked(prompt) => SeedStep {
            stored,
            action: SeedActionView::Authorize(prompt),
        },
        SeedEventView::Authorized(Some(password)) => SeedStep {
            stored,
            action: SeedActionView::Load { file, password },
        },
        SeedEventView::Authorized(None) => SeedStep {
            stored,
            action: SeedActionView::Settle(stored),
        },
        SeedEventView::Loaded(loaded) => SeedStep {
            stored: loaded,
            action: SeedActionView::Settle(loaded),
        },
    }
}

/// A request for the seed: a stored seed is the answer, and stays, whatever the event.
pub open spec fn get_step<T>(
    stored: Option<Seq<u8>>,
    file: Seq<char>,
    event: SeedEventView<T>,
) -> SeedStep<T> {
    if stored is Some {
        SeedStep { stored, action: SeedActionView::Settle(stored) }
    } else {
        set_step(stored, file, event)
    }
}

/// A request for the seed that the user has to authorize: a stored seed stays as it is, and is the
/// answer only if the user's password unlocks that very seed.
pub open spec fn check_step<T>(
    stored: Option<Seq<u8>>,
    file: Seq<char>,
    event: SeedEventView<T>,
) -> SeedStep<T> {
    match (stored, event) {
        (Some(_), SeedEventView::Authorized(None)) => SeedStep {
            stored,
            action: SeedActionView::Settle(None),
        },
        (Some(_), SeedEventView::Loaded(loaded)) => SeedStep {
            stored,
            action: SeedActionView::Settle(
                if loaded == stored {
                    stored
                } else {
                    None
                },
            ),
        },
        _ => set_step(stored, file, event),
    }
}

/// The step of a request with the given `goal`.
pub open spec fn seed_step<T>(
    goal: SeedGoal,
    stored: Option<Seq<u8>>,
    file: Seq<char>,
    event: SeedEventView<T>,
) -> SeedStep<T> {
    match goal {
        SeedGoal::Get => get_step(stored, file, event),
        SeedGoal::Check => check_step(stored, file, event),
    }
}

/// Inner State
pub struct InnerState<A> {
    /// Server Configuration
    config: Config,
    /// Authorizer
    authorizer: A,
    /// Current Root Seed
    root_seed: Option<RootSeed>,
}

/// What an [`InnerState`] holds.
pub struct InnerStateView<A> {
    pub config: ConfigView,
    pub authorizer: A,
    pub root_seed: Option<Seq<u8>>,
}

impl<A> View for InnerState<A> {
    type V = InnerStateView<A>;

    closed spec fn view(&self) -> InnerStateView<A> {
        InnerStateView {
            config: self.config@,
            authorizer: self.authorizer,
            root_seed: optional_bytes(self.root_seed),
        }
    }
}

impl<A> InnerStateView<A> {
    /// This state with another stored seed.
    pub open spec fn with_seed(self, root_seed: Option<Seq<u8>>) -> Self {
        InnerStateView { root_seed, ..self }
    }
}

impl<A> InnerState<A> {
    /// Builds a new [`InnerState`] from `config` and `authorizer`.
    pub fn new(config: Config, authorizer: A) -> (state: Self)
        ensures
            state@ == (InnerStateView { config: config@, authorizer, root_seed: None }),
    {
        Self { config, authorizer, root_seed: None }
    }

    /// Returns the server configuration.
    pub fn config(&self) -> (config: &Config)
        ensures
            config@ == self@.config,
    {
        &self.config
    }

    /// Returns the authorizer.
    pub fn authorizer(&mut self) -> (authorizer: &mut A)
        ensures
            *authorizer == old(self)@.authorizer,
            final(self)@ == (InnerStateView { authorizer: *final(authorizer), ..old(self)@ }),
    {
        &mut self.authorizer
    }

    /// Starts to set the inner seed from a given `password`: a known one unlocks the seed file, an
    /// unknown one leaves the seed as it is.
    pub fn set_seed_from_password<T>(&self, password: Password) -> (action: SeedAction<T>)
        ensures
            action@ == set_step::<T>(
                self@.root_seed,
                self@.config.root_seed_file,
                SeedEventView::Authorized(password@),
            ).action,
    {
        match password.known() {
            Some(password) => SeedAction::Load {
                file: self.config.root_seed_file.clone(),
                password,
            },
            None => SeedAction::Settle(clone_optional(&self.root_seed)),
        }
    }

    /// Sets the inner seed from the outcome of a load. A failed load leaves no seed.
    pub fn set_seed_from_load<T, E>(
        &mut self,
        loaded: Result<RootSeed, E>,
    ) -> (action: SeedAction<T>)
        ensures
            final(self)@ == old(self)@.with_seed(SeedEvent::<T, E>::Loaded(loaded)@->Loaded_0),
            action@ == SeedActionView::<T>::Settle(final(self)@.root_seed),
            final(self)@.config == old(self)@.config,
            final(self)@.authorizer == old(self)@.authorizer,
            match loaded {
                Ok(seed) => final(self)@.root_seed == Some(seed@) && (action matches
                    SeedAction::Settle(Some(answer)) && answer@ == seed@),
                Err(_) => final(self)@.root_seed is None && (action matches
                    SeedAction::Settle(None)),
            },
    {
        self.root_seed = match loaded {
            Ok(seed) => Some(seed),
            Err(_) => None,
        };
        SeedAction::Settle(clone_optional(&self.root_seed))
    }

    /// Sets the inner seed from the password that the user gives when prompted.
    pub fn set_seed_from_authorization<T, E>(
        &mut self,
        event: SeedEvent<T, E>,
    ) -> (action: SeedAction<T>)
        ensures
            final(self)@ == old(self)@.with_seed(final(self)@.root_seed),
            final(self)@.config == old(self)@.config,
            final(self)@.authorizer == old(self)@.authorizer,
            (SeedStep { stored: final(self)@.root_seed, action: action@ }) == set_step(
                old(self)@.root_seed,
                old(self)@.config.root_seed_file,
                event@,
            ),
    {
        match event {
            SeedEvent::Asked(prompt) => SeedAction::Authorize(prompt),
            SeedEvent::Authorized(password) => self.set_seed_from_password(password),
            SeedEvent::Loaded(loaded) => self.set_seed_from_load(loaded),
        }
    }

    /// Returns the stored root seed if it exists, otherwise, gets the password from the user
    /// and tries to decrypt the root seed.
    pub fn get_root_seed<T, E>(&mut self, event: SeedEvent<T, E>) -> (action: SeedAction<T>)
        ensures
            final(self)@ == old(self)@.with_seed(final(self)@.root_seed),
            final(self)@.config == old(self)@.config,
            final(self)@.authorizer == old(self)@.authorizer,
            (SeedStep { stored: final(self)@.root_seed, action: action@ }) == get_step(
                old(self)@.root_seed,
                old(self)@.config.root_seed_file,
                event@,
            ),
    {
        match &self.root_seed {
            Some(seed) => SeedAction::Settle(Some(seed.clone())),
            None => self.set_seed_from_authorization(event),
        }
    }

    /// Returns the currently stored root seed if it matches the one returned by the user after
    /// prompting.
    pub fn check_root_seed<T, E>(&mut self, event: SeedEvent<T, E>) -> (action: SeedAction<T>)
        ensures
            final(self)@ == old(self)@.with_seed(final(self)@.root_seed),
            final(self)@.config == old(self)@.config,
            final(self)@.authorizer == old(self)@.authorizer,
            (SeedStep { stored: final(self)@.root_seed, action: action@ }) == check_step(
                old(self)@.root_seed,
                old(self)@.config.root_seed_file,
                event@,
            ),
    {
        match &self.root_seed {
            Some(current_root_seed) => match event {
                SeedEvent::Asked(prompt) => SeedAction::Authorize(prompt),
                SeedEvent::Authorized(password) => match password.known() {
                    Some(password) => SeedAction::Load {
                        file: self.config.root_seed_file.clone(),
                        password,
                    },
                    None => SeedAction::Settle(None),
                },
                SeedEvent::Loaded(Ok(loaded)) => {
                    if *current_root_seed == loaded {
                        SeedAction::Settle(Some(current_root_seed.clone()))
                    } else {
                        SeedAction::Settle(None)
                    }
                },
                SeedEvent::Loaded(Err(_)) => SeedAction::Settle(None),
            },
            None => self.set_seed_from_authorization(event),
        }
    }
}

} // verus!
