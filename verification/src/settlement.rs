//! Whole requests for the root seed, from the first event to the settlement.

use crate::state::{seed_step, SeedActionView, SeedEventView, SeedGoal};
use vstd::prelude::*;

verus! {

/// What the user and the seed file answer if they are asked.
pub ghost struct Surroundings {
    /// The password that the user gives when prompted, if they give one.
    pub password: Option<Seq<char>>,
    /// The seed that a file and a password give, if they give one.
    pub load: spec_fn(Seq<char>, Seq<char>) -> Option<Seq<u8>>,
}

impl Surroundings {
    /// The seed that the user unlocks: nothing if they withhold the password.
    pub open spec fn unlocked(self, file: Seq<char>) -> Option<Seq<u8>> {
        match self.password {
            Some(password) => (self.load)(file, password),
            None => None,
        }
    }
}

/// How a request for the seed ends.
pub ghost struct Settlement<T> {
    /// The seed that is stored afterwards.
    pub stored: Option<Seq<u8>>,
    /// What the user was prompted with.
    pub prompts: Seq<T>,
    /// The answer to the request.
    pub answer: Option<Seq<u8>>,
}

/// How many more actions may follow an event.
pub open spec fn actions_left<T>(event: SeedEventView<T>) -> nat {
    match event {
        SeedEventView::Asked(_) => 2,
        SeedEventView::Authorized(_) => 1,
        SeedEventView::Loaded(_) => 0,
    }
}

/// How a request ends after `event`, where each action is performed and its outcome handed back.
pub open spec fn settlement<T>(
    goal: SeedGoal,
    stored: Option<Seq<u8>>,
    file: Seq<char>,
    event: SeedEventView<T>,
    around: Surroundings,
) -> Settlement<T>
    decreases actions_left(event),
{
    let step = seed_step(goal, stored, file, event);
    match step.action {
        SeedActionView::Settle(answer) => Settlement {
            stored: step.stored,
            prompts: Seq::empty(),
            answer,
        },
        SeedActionView::Authorize(prompt) => {
            let rest = settlement(
                goal,
                step.stored,
                file,
                SeedEventView::<T>::Authorized(around.password),
                around,
            );
            Settlement { prompts: seq![prompt] + rest.prompts, ..rest }
        },
        SeedActionView::Load { file: path, password } => settlement(
            goal,
            step.stored,
            file,
            SeedEventView::<T>::Loaded((around.load)(path, password)),
            around,
        ),
    }
}

/// A request for the seed returns the stored seed if it exists, and then prompts nobody.
/// Otherwise it prompts the user once, and both stores and returns what their password unlocks
/// from the configured file.
pub proof fn law_get_root_seed<T>(
    stored: Option<Seq<u8>>,
    file: Seq<char>,
    prompt: T,
    around: Surroundings,
)
    ensures
        settlement(SeedGoal::Get, stored, file, SeedEventView::Asked(prompt), around) == (
        if stored is Some {
            Settlement { stored, prompts: Seq::empty(), answer: stored }
        } else {
            Settlement {
                stored: around.unlocked(file),
                prompts: seq![prompt],
                answer: around.unlocked(file),
            }
        }),
{
    reveal_with_fuel(settlement, 3);
    assert(seq![prompt] + Seq::<T>::empty() =~= seq![prompt]);
}

/// A request for an authorized use of the seed prompts the user once, whatever is stored. A stored
/// seed stays, and is returned if and only if the user's password unlocks that very seed. Where
/// none is stored, what the password unlocks is stored and returned.
pub proof fn law_check_root_seed<T>(
    stored: Option<Seq<u8>>,
    file: Seq<char>,
    prompt: T,
    around: Surroundings,
)
    ensures
        settlement(SeedGoal::Check, stored, file, SeedEventView::Asked(prompt), around) == (
        Settlement {
            stored: if stored is Some {
                stored
            } else {
                around.unlocked(file)
            },
            prompts: seq![prompt],
            answer: if stored is Some && stored != around.unlocked(file) {
                None
            } else {
                around.unlocked(file)
            },
        }),
{
    reveal_with_fuel(settlement, 3);
    assert(seq![prompt] + Seq::<T>::empty() =~= seq![prompt]);
}

/// One request of a history.
pub ghost struct SeedRequest<T> {
    pub goal: SeedGoal,
    pub prompt: T,
    pub around: Surroundings,
}

/// How one request of a history ends.
pub open spec fn request_settlement<T>(
    stored: Option<Seq<u8>>,
    file: Seq<char>,
    request: SeedRequest<T>,
) -> Settlement<T> {
    settlement(
        request.goal,
        stored,
        file,
        SeedEventView::Asked(request.prompt),
        request.around,
    )
}

/// The seed that is stored after `requests`, one after the other.
pub open spec fn stored_after<T>(
    stored: Option<Seq<u8>>,
    file: Seq<char>,
    requests: Seq<SeedRequest<T>>,
) -> Option<Seq<u8>>
    decreases requests.len(),
{
    if requests.len() == 0 {
        stored
    } else {
        request_settlement(
            stored_after(stored, file, requests.drop_last()),
            file,
            requests.last(),
        ).stored
    }
}

/// No series of requests replaces or drops a stored seed.
pub proof fn law_stored_seed_is_kept<T>(
    stored: Option<Seq<u8>>,
    file: Seq<char>,
    requests: Seq<SeedRequest<T>>,
)
    requires
        stored is Some,
    ensures
        stored_after(stored, file, requests) == stored,
    decreases requests.len(),
{
    if requests.len() > 0 {
        law_stored_seed_is_kept(stored, file, requests.drop_last());
        let last = requests.last();
        law_get_root_seed(stored, file, last.prompt, last.around);
        law_check_root_seed(stored, file, last.prompt, last.around);
    }
}

/// A seed that was not stored at first is one that a password of the user unlocked from the
/// configured file, in one of the requests.
pub proof fn law_stored_seed_was_unlocked<T>(file: Seq<char>, requests: Seq<SeedRequest<T>>)
    requires
        stored_after(None, file, requests) is Some,
    ensures
        exists|i: int|
            0 <= i < requests.len() && (#[trigger] requests[i]).around.unlocked(file)
                == stored_after(None, file, requests),
    decreases requests.len(),
{
    let earlier = requests.drop_last();
    let last = requests.last();
    if stored_after(None, file, earlier) is Some {
        law_stored_seed_was_unlocked(file, earlier);
        let i = choose|i: int|
            0 <= i < earlier.len() && (#[trigger] earlier[i]).around.unlocked(file)
                == stored_after(None, file, earlier);
        law_get_root_seed(stored_after(None, file, earlier), file, last.prompt, last.around);
        law_check_root_seed(stored_after(None, file, earlier), file, last.prompt, last.around);
        assert(requests[i] == earlier[i]);
    } else {
        law_get_root_seed(None, file, last.prompt, last.around);
        law_check_root_seed(None, file, last.prompt, last.around);
        assert(requests[requests.len() - 1] == last);
    }
}

/// Whatever a request returns is the seed that is stored when it is settled.
pub proof fn law_answer_is_stored_seed<T>(
    stored: Option<Seq<u8>>,
    file: Seq<char>,
    request: SeedRequest<T>,
)
    ensures
        request_settlement(stored, file, request).answer is Some ==> request_settlement(
            stored,
            file,
            request,
        ).answer == request_settlement(stored, file, request).stored,
{
    law_get_root_seed(stored, file, request.prompt, request.around);
    law_check_root_seed(stored, file, request.prompt, request.around);
}

} // verus!
