//! Profiles: answering their store's failures, and activating one by refreshing the
//! session of each of its accounts.

use std::collections::HashMap;

use vstd::prelude::*;
use crate::machine::{is_run, Machine};
use crate::registry::{no_plugin_message, no_plugin_text, Reach, Storefront, StorefrontRef};
use crate::status::{Code, CoreError, ErrorKind, ProfileError, Status};

verus! {

broadcast use vstd::std_specs::hash::group_hash_axioms;

/// The code that a failure of the profile store is answered with.
pub open spec fn failure_code(kind: ErrorKind) -> Code {
    match kind {
        ErrorKind::Profile(ProfileError::NotFound) => Code::NotFound,
        ErrorKind::Profile(ProfileError::SteamAccountAlreadyLinked) => Code::AlreadyExists,
        _ => Code::Internal,
    }
}

/// Answers a failure of the profile store.
pub fn to_status(err: CoreError) -> (r: Status)
    ensures
        err.answered(failure_code(err.kind), r),
{
    let code: Code = match &err.kind {
        ErrorKind::Profile(ProfileError::NotFound) => Code::NotFound,
        ErrorKind::Profile(ProfileError::SteamAccountAlreadyLinked) => Code::AlreadyExists,
        _ => Code::Internal,
    };
    err.answer(code)
}

/// Answers a call with what the profile store gave.
pub fn answer<T>(result: Result<T, CoreError>) -> (r: Result<T, Status>)
    ensures
        match result {
            Ok(value) => r == Ok::<T, Status>(value),
            Err(err) => r matches Err(status) && err.answered(failure_code(err.kind), status),
        },
{
    match result {
        Ok(value) => Ok(value),
        Err(err) => Err(to_status(err)),
    }
}

/// A request to activate a profile, or only some of its storefronts.
#[derive(Debug)]
pub struct ActivateProfileRequest {
    pub profile_id: String,
    pub only: Vec<i32>,
}

/// How the activation of one account ended.
#[derive(Clone, Copy, Debug, PartialEq, Eq, Structural)]
pub enum ActivationOutcome {
    Success,
    CredentialStale,
    PluginUnavailable,
    NetworkError,
}

/// The report on one account.
#[derive(Debug)]
pub struct AccountActivationResult {
    pub storefront: i32,
    pub outcome: ActivationOutcome,
    pub detail: String,
}

/// What a report on one account holds.
pub struct ReportView {
    pub storefront: i32,
    pub outcome: ActivationOutcome,
    pub detail: Seq<char>,
}

impl View for AccountActivationResult {
    type V = ReportView;

    open spec fn view(&self) -> ReportView {
        ReportView { storefront: self.storefront, outcome: self.outcome, detail: self.detail@ }
    }
}

/// What some reports hold.
pub open spec fn reports(results: Seq<AccountActivationResult>) -> Seq<ReportView> {
    results.map_values(|r: AccountActivationResult| r@)
}

/// An activation in progress: the accounts still to come, the reports so far, and what
/// is to be stored. A storefront is to be stored with the account that its plugin gave,
/// or with none where its credentials are stale.
pub struct Activation<A> {
    pub profile_id: String,
    pub pending: Vec<StorefrontRef>,
    pub results: Vec<AccountActivationResult>,
    pub updates: HashMap<i32, Option<A>>,
}

/// What an activation in progress holds.
#[verifier::ext_equal]
pub struct ActivationView<A> {
    pub profile_id: String,
    pub pending: Seq<StorefrontRef>,
    pub results: Seq<ReportView>,
    pub updates: Map<i32, Option<A>>,
}

impl<A> View for Activation<A> {
    type V = ActivationView<A>;

    open spec fn view(&self) -> ActivationView<A> {
        ActivationView {
            profile_id: self.profile_id,
            pending: self.pending@,
            results: reports(self.results@),
            updates: self.updates@,
        }
    }
}

/// How the attempt to refresh one account went.
pub enum Attempt<A> {
    Refreshed(A),
    Refused(Status),
    NoPlugin,
    Unreachable(Status),
}

/// The report on an attempt.
pub open spec fn report<A>(storefront: Storefront, attempt: Attempt<A>) -> ReportView {
    match attempt {
        Attempt::Refreshed(_) => ReportView {
            storefront: storefront.number,
            outcome: ActivationOutcome::Success,
            detail: seq![],
        },
        Attempt::Refused(status) => ReportView {
            storefront: storefront.number,
            outcome: ActivationOutcome::CredentialStale,
            detail: status.message@,
        },
        Attempt::NoPlugin => ReportView {
            storefront: storefront.number,
            outcome: ActivationOutcome::PluginUnavailable,
            detail: no_plugin_message(storefront.name@),
        },
        Attempt::Unreachable(status) => ReportView {
            storefront: storefront.number,
            outcome: ActivationOutcome::NetworkError,
            detail: status.message@,
        },
    }
}

/// What is to be stored after an attempt: an account that was refreshed replaces the
/// stored one, one whose credentials were refused is marked stale, and any other is
/// left as it is.
pub open spec fn updated<A>(
    updates: Map<i32, Option<A>>,
    storefront: i32,
    attempt: Attempt<A>,
) -> Map<i32, Option<A>> {
    match attempt {
        Attempt::Refreshed(account) => updates.insert(storefront, Some(account)),
        Attempt::Refused(_) => updates.insert(storefront, None),
        _ => updates,
    }
}

impl<A> ActivationView<A> {
    /// The activation once an attempt at an account is over.
    pub open spec fn settled(self, storefront: Storefront, attempt: Attempt<A>) -> Self {
        ActivationView {
            results: self.results.push(report(storefront, attempt)),
            updates: updated(self.updates, storefront.number, attempt),
            ..self
        }
    }
}

/// Some accounts from the first one on whose storefront is known.
pub open spec fn from_known(accounts: Seq<StorefrontRef>) -> Seq<StorefrontRef>
    decreases accounts.len(),
{
    if accounts.len() > 0 && accounts[0].name is None {
        from_known(accounts.skip(1))
    } else {
        accounts
    }
}

/// Activating a profile, by what is to be done next. `P` is the stored profile, `A` an
/// account that a plugin gives.
pub enum ActivateProfile<P, A> {
    /// Select the accounts to activate.
    Select(ActivateProfileRequest),
    /// Reach the plugin of a storefront.
    Reach(Activation<A>, Storefront),
    /// Have the plugin refresh the session of the profile and storefront.
    Refresh(Activation<A>, Storefront),
    /// Store what is to be stored.
    Apply(Activation<A>),
    /// Answer the call.
    Done(Result<(P, Vec<AccountActivationResult>), Status>),
}

/// What activating a profile waits for.
pub enum ActivateEvent<P, A> {
    Selected(Result<Vec<StorefrontRef>, CoreError>),
    Reached(Reach),
    Refreshed(Result<A, Status>),
    Applied(Result<P, CoreError>),
}

/// The activation goes on with the next account whose storefront is known, and is to
/// be stored where there is none.
pub open spec fn goes_on<P, A>(run: ActivationView<A>, next: ActivateProfile<P, A>) -> bool {
    let rest = from_known(run.pending);
    if rest.len() > 0 {
        next matches ActivateProfile::Reach(kept, storefront) && kept@ == (ActivationView {
            pending: rest.skip(1),
            ..run
        }) && rest[0].is_known_as(storefront)
    } else {
        next matches ActivateProfile::Apply(kept) && kept@ == (ActivationView {
            pending: seq![],
            ..run
        })
    }
}

fn go_on<P, A>(run: Activation<A>) -> (next: ActivateProfile<P, A>)
    ensures
        goes_on(run@, next),
{
    let ghost before = run@;
    let mut left = run;
    while left.pending.len() > 0
        invariant
            before == run@,
            from_known(left.pending@) == from_known(before.pending),
            left@ == (ActivationView { pending: left.pending@, ..before }),
        decreases left.pending@.len(),
    {
        let ghost pending = left.pending@;
        let account = left.pending.remove(0);
        assert(left.pending@ =~= pending.skip(1));
        match account.known() {
            Some(storefront) => {
                return ActivateProfile::Reach(left, storefront);
            },
            None => {},
        }
    }
    assert(left.pending@ =~= seq![]);
    ActivateProfile::Apply(left)
}

fn settle<A>(
    run: Activation<A>,
    storefront: &Storefront,
    attempt: Attempt<A>,
) -> (r: Activation<A>)
    ensures
        r@ == run@.settled(*storefront, attempt),
{
    let mut results = run.results;
    let mut updates = run.updates;
    let ghost before = results@;
    let (outcome, detail) = match attempt {
        Attempt::Refreshed(account) => {
            updates.insert(storefront.number, Some(account));
            (ActivationOutcome::Success, String::new())
        },
        Attempt::Refused(status) => {
            updates.insert(storefront.number, None);
            (ActivationOutcome::CredentialStale, status.message)
        },
        Attempt::NoPlugin => (ActivationOutcome::PluginUnavailable, no_plugin_text(storefront)),
        Attempt::Unreachable(status) => (ActivationOutcome::NetworkError, status.message),
    };
    results.push(AccountActivationResult { storefront: storefront.number, outcome, detail });
    assert(reports(results@) =~= reports(before).push(report(*storefront, attempt)));
    Activation { profile_id: run.profile_id, pending: run.pending, results, updates }
}

impl<P, A> ActivateProfile<P, A> {
    /// Begins with the accounts.
    pub fn begin(request: ActivateProfileRequest) -> (r: Self)
        ensures
            r == ActivateProfile::<P, A>::Select(request),
    {
        ActivateProfile::Select(request)
    }
}

/// The attempt that reaching a plugin has already decided.
pub open spec fn not_reached<A>(reach: Reach) -> Attempt<A> {
    match reach {
        Reach::Failed(status) => Attempt::Unreachable(status),
        _ => Attempt::NoPlugin,
    }
}

/// The attempt that a plugin's answer decides.
pub open spec fn refreshed<A>(answer: Result<A, Status>) -> Attempt<A> {
    match answer {
        Ok(account) => Attempt::Refreshed(account),
        Err(status) => Attempt::Refused(status),
    }
}

impl<P, A> Machine for ActivateProfile<P, A> {
    type Event = ActivateEvent<P, A>;

    open spec fn awaits(self, event: ActivateEvent<P, A>) -> bool {
        match self {
            ActivateProfile::Select(_) => event is Selected,
            ActivateProfile::Reach(_, _) => event is Reached,
            ActivateProfile::Refresh(_, _) => event is Refreshed,
            ActivateProfile::Apply(_) => event is Applied,
            ActivateProfile::Done(_) => false,
        }
    }

    open spec fn stepped(self, event: ActivateEvent<P, A>, next: Self) -> bool {
        match (self, event) {
            (ActivateProfile::Select(request), ActivateEvent::Selected(Ok(accounts))) => goes_on(
                ActivationView {
                    profile_id: request.profile_id,
                    pending: accounts@,
                    results: seq![],
                    updates: Map::empty(),
                },
                next,
            ),
            (ActivateProfile::Select(_), ActivateEvent::Selected(Err(err))) => next matches
                ActivateProfile::Done(Err(status)) && err.answered(failure_code(err.kind), status),
            (
                ActivateProfile::Reach(run, storefront),
                ActivateEvent::Reached(Reach::Connected),
            ) => next == ActivateProfile::<P, A>::Refresh(run, storefront),
            (ActivateProfile::Reach(run, storefront), ActivateEvent::Reached(reach)) => goes_on(
                run@.settled(storefront, not_reached(reach)),
                next,
            ),
            (ActivateProfile::Refresh(run, storefront), ActivateEvent::Refreshed(answer)) => goes_on(
                run@.settled(storefront, refreshed(answer)),
                next,
            ),
            (ActivateProfile::Apply(run), ActivateEvent::Applied(Ok(profile))) => next
                == ActivateProfile::<P, A>::Done(Ok((profile, run.results))),
            (ActivateProfile::Apply(_), ActivateEvent::Applied(Err(err))) => next matches
                ActivateProfile::Done(Err(status)) && err.answered(failure_code(err.kind), status),
            _ => next == self,
        }
    }

    fn step(self, event: ActivateEvent<P, A>) -> (next: Self) {
        match (self, event) {
            (ActivateProfile::Select(request), ActivateEvent::Selected(selected)) => {
                match selected {
                    Ok(accounts) => {
                        let run: Activation<A> = Activation {
                            profile_id: request.profile_id,
                            pending: accounts,
                            results: Vec::new(),
                            updates: HashMap::new(),
                        };
                        assert(run@.results =~= seq![]);
                        go_on(run)
                    },
                    Err(err) => ActivateProfile::Done(Err(to_status(err))),
                }
            },
            (ActivateProfile::Reach(run, storefront), ActivateEvent::Reached(reach)) => {
                match reach {
                    Reach::Connected => ActivateProfile::Refresh(run, storefront),
                    Reach::Absent => go_on(settle(run, &storefront, Attempt::NoPlugin)),
                    Reach::Failed(status) => go_on(
                        settle(run, &storefront, Attempt::Unreachable(status)),
                    ),
                }
            },
            (ActivateProfile::Refresh(run, storefront), ActivateEvent::Refreshed(answer)) => {
                match answer {
                    Ok(account) => go_on(settle(run, &storefront, Attempt::Refreshed(account))),
                    Err(status) => go_on(settle(run, &storefront, Attempt::Refused(status))),
                }
            },
            (ActivateProfile::Apply(run), ActivateEvent::Applied(applied)) => {
                match applied {
                    Ok(profile) => ActivateProfile::Done(Ok((profile, run.results))),
                    Err(err) => ActivateProfile::Done(Err(to_status(err))),
                }
            },
            (state, _) => state,
        }
    }
}

/// The numbers of the accounts whose storefront is known, in order.
pub open spec fn known_numbers(accounts: Seq<StorefrontRef>) -> Seq<i32>
    decreases accounts.len(),
{
    if accounts.len() == 0 {
        seq![]
    } else if accounts[0].name is None {
        known_numbers(accounts.skip(1))
    } else {
        seq![accounts[0].number] + known_numbers(accounts.skip(1))
    }
}

/// The storefronts that some reports are about, in order.
pub open spec fn reported(results: Seq<ReportView>) -> Seq<i32> {
    results.map_values(|r: ReportView| r.storefront)
}

/// An outcome that changes what is stored of the account.
pub open spec fn is_stored(outcome: ActivationOutcome) -> bool {
    outcome == ActivationOutcome::Success || outcome == ActivationOutcome::CredentialStale
}

/// What is to be stored agrees with the reports: it concerns the storefronts that
/// answered, and the last answer of a storefront decides between its new account and
/// the mark that its credentials are stale.
pub open spec fn agrees<A>(results: Seq<ReportView>, updates: Map<i32, Option<A>>) -> bool {
    &&& forall|n: i32| #[trigger]
        updates.contains_key(n) ==> exists|j: int|
            0 <= j < results.len() && (#[trigger] results[j]).storefront == n && is_stored(
                results[j].outcome,
            )
    &&& forall|j: int|
        0 <= j < results.len() && is_stored((#[trigger] results[j]).outcome)
            ==> updates.contains_key(results[j].storefront)
    &&& forall|j: int|
        0 <= j < results.len() && is_stored((#[trigger] results[j]).outcome) && last_answer(
            results,
            j,
        ) ==> (updates[results[j].storefront] is Some <==> results[j].outcome
            == ActivationOutcome::Success)
}

/// No later report is about an answer of the same storefront.
pub open spec fn last_answer(results: Seq<ReportView>, j: int) -> bool {
    forall|k: int|
        j < k < results.len() && is_stored((#[trigger] results[k]).outcome) ==> results[k].storefront
            != results[j].storefront
}

impl<P, A> ActivateProfile<P, A> {
    /// The storefronts that are or will be reported on, in order.
    pub open spec fn agenda(self) -> Seq<i32> {
        match self {
            ActivateProfile::Reach(run, storefront) => reported(run@.results)
                + seq![storefront.number] + known_numbers(run.pending@),
            ActivateProfile::Refresh(run, storefront) => reported(run@.results)
                + seq![storefront.number] + known_numbers(run.pending@),
            ActivateProfile::Apply(run) => reported(run@.results),
            ActivateProfile::Done(Ok((_, results))) => reported(reports(results@)),
            _ => seq![],
        }
    }

    /// The activation that is in progress.
    pub open spec fn progress(self) -> Option<ActivationView<A>> {
        match self {
            ActivateProfile::Reach(run, _) => Some(run@),
            ActivateProfile::Refresh(run, _) => Some(run@),
            ActivateProfile::Apply(run) => Some(run@),
            _ => None,
        }
    }
}

proof fn lemma_from_known(accounts: Seq<StorefrontRef>)
    ensures
        known_numbers(accounts) == known_numbers(from_known(accounts)),
        from_known(accounts).len() > 0 ==> from_known(accounts)[0].name is Some,
        from_known(accounts).len() <= accounts.len(),
    decreases accounts.len(),
{
    if accounts.len() > 0 && accounts[0].name is None {
        lemma_from_known(accounts.skip(1));
    }
}

proof fn lemma_goes_on<P, A>(run: ActivationView<A>, next: ActivateProfile<P, A>)
    requires
        goes_on(run, next),
    ensures
        next.agenda() == reported(run.results) + known_numbers(run.pending),
        next.progress() matches Some(kept) && kept.results == run.results && kept.updates
            == run.updates && kept.profile_id == run.profile_id,
        next.remaining() <= 2 * run.pending.len() + 1,
{
    lemma_from_known(run.pending);
    let rest = from_known(run.pending);
    if rest.len() > 0 {
        let number = rest[0].number;
        assert(known_numbers(rest) == seq![number] + known_numbers(rest.skip(1)));
        assert(next.agenda() =~= reported(run.results) + known_numbers(run.pending));
    } else {
        assert(next.agenda() =~= reported(run.results) + known_numbers(run.pending));
    }
}

proof fn lemma_agrees<A>(run: ActivationView<A>, storefront: Storefront, attempt: Attempt<A>)
    requires
        agrees(run.results, run.updates),
    ensures
        agrees(
            run.settled(storefront, attempt).results,
            run.settled(storefront, attempt).updates,
        ),
{
    let n = run.results.len() as int;
    let after = run.settled(storefront, attempt);
    let new = report(storefront, attempt);
    assert(after.results[n] == new);
    assert forall|m: i32| #[trigger] after.updates.contains_key(m) implies exists|j: int|
        0 <= j < after.results.len() && (#[trigger] after.results[j]).storefront == m && is_stored(
            after.results[j].outcome,
        ) by {
        if run.updates.contains_key(m) {
            let j = choose|j: int|
                0 <= j < run.results.len() && (#[trigger] run.results[j]).storefront == m
                    && is_stored(run.results[j].outcome);
            assert(after.results[j] == run.results[j]);
        } else {
            assert(after.results[n].storefront == m);
        }
    }
    assert forall|j: int|
        0 <= j < after.results.len() && is_stored(
            (#[trigger] after.results[j]).outcome,
        ) implies after.updates.contains_key(after.results[j].storefront) by {
        if j < n {
            assert(after.results[j] == run.results[j]);
        }
    }
    assert forall|j: int|
        0 <= j < after.results.len() && is_stored((#[trigger] after.results[j]).outcome)
            && last_answer(after.results, j) implies (after.updates[after.results[j].storefront] is Some
        <==> after.results[j].outcome == ActivationOutcome::Success) by {
        if j < n {
            assert(after.results[j] == run.results[j]);
            assert(last_answer(run.results, j)) by {
                assert forall|k: int|
                    j < k < run.results.len() && is_stored(
                        (#[trigger] run.results[k]).outcome,
                    ) implies run.results[k].storefront != run.results[j].storefront by {
                    assert(after.results[k] == run.results[k]);
                }
            }
            if is_stored(new.outcome) {
                assert(after.results[n].storefront != after.results[j].storefront);
            }
        }
    }
}

impl<P, A> ActivateProfile<P, A> {
    /// How many more events an activation can wait for once its accounts are selected.
    pub open spec fn remaining(self) -> nat {
        match self {
            ActivateProfile::Reach(run, _) => 2 * run.pending@.len() + 3,
            ActivateProfile::Refresh(run, _) => 2 * run.pending@.len() + 2,
            ActivateProfile::Apply(_) => 1,
            _ => 0,
        }
    }
}

proof fn lemma_activation_step<P, A>(
    state: ActivateProfile<P, A>,
    event: ActivateEvent<P, A>,
    next: ActivateProfile<P, A>,
)
    requires
        state.awaits(event),
        state.stepped(event, next),
        state.progress() matches Some(run) && agrees(run.results, run.updates),
    ensures
        next.progress() is Some ==> next.agenda() == state.agenda() && agrees(
            next.progress()->0.results,
            next.progress()->0.updates,
        ) && next.progress()->0.profile_id == state.progress()->0.profile_id,
        next.progress() is None ==> state is Apply && next is Done,
        next matches ActivateProfile::Done(Ok(_)) ==> next.agenda() == state.agenda(),
        next.remaining() < state.remaining(),
{
    match (state, event) {
        (
            ActivateProfile::Reach(run, storefront),
            ActivateEvent::Reached(Reach::Connected),
        ) => {},
        (ActivateProfile::Reach(run, storefront), ActivateEvent::Reached(reach)) => {
            let after = run@.settled(storefront, not_reached(reach));
            lemma_agrees(run@, storefront, not_reached(reach));
            lemma_goes_on(after, next);
            assert(reported(after.results) =~= reported(run@.results) + seq![storefront.number]);
        },
        (ActivateProfile::Refresh(run, storefront), ActivateEvent::Refreshed(answer)) => {
            let after = run@.settled(storefront, refreshed(answer));
            lemma_agrees(run@, storefront, refreshed(answer));
            lemma_goes_on(after, next);
            assert(reported(after.results) =~= reported(run@.results) + seq![storefront.number]);
        },
        _ => {},
    }
}

proof fn lemma_activation_run<P, A>(
    request: ActivateProfileRequest,
    accounts: Vec<StorefrontRef>,
    states: Seq<ActivateProfile<P, A>>,
    events: Seq<ActivateEvent<P, A>>,
    n: int,
)
    requires
        is_run(states, events),
        states[0] == ActivateProfile::<P, A>::Select(request),
        1 <= n <= events.len(),
        events[0] == ActivateEvent::<P, A>::Selected(Ok(accounts)),
    ensures
        states[n].progress() matches Some(run) ==> states[n].agenda() == known_numbers(accounts@)
            && agrees(run.results, run.updates) && run.profile_id == request.profile_id,
        states[n].progress() is None ==> states[n] is Done && n >= 2 && states[n - 1] is Apply,
        states[n] matches ActivateProfile::Done(Ok(_)) ==> states[n].agenda() == known_numbers(
            accounts@,
        ),
        states[n].remaining() + n <= 2 * accounts@.len() + 2,
    decreases n,
{
    assert(states[n - 1].awaits(events[n - 1]));
    if n == 1 {
        let fresh = ActivationView::<A> {
            profile_id: request.profile_id,
            pending: accounts@,
            results: seq![],
            updates: Map::empty(),
        };
        lemma_goes_on(fresh, states[1]);
        assert(reported(fresh.results) + known_numbers(accounts@) =~= known_numbers(accounts@));
    } else {
        lemma_activation_run(request, accounts, states, events, n - 1);
        lemma_activation_step(states[n - 1], events[n - 1], states[n]);
    }
}

/// Every selected account whose storefront is known is reported on once, in order, and
/// no other account is, whatever became of each of them.
pub proof fn activation_reports_every_account<P, A>(
    request: ActivateProfileRequest,
    accounts: Vec<StorefrontRef>,
    states: Seq<ActivateProfile<P, A>>,
    events: Seq<ActivateEvent<P, A>>,
    profile: P,
    results: Vec<AccountActivationResult>,
)
    requires
        is_run(states, events),
        states[0] == ActivateProfile::<P, A>::Select(request),
        events.len() > 0,
        events[0] == ActivateEvent::<P, A>::Selected(Ok(accounts)),
        states.last() == ActivateProfile::<P, A>::Done(Ok((profile, results))),
    ensures
        reported(reports(results@)) == known_numbers(accounts@),
{
    lemma_activation_run(request, accounts, states, events, events.len() as int);
}

/// What an activation stores agrees with what it reports: an account is replaced where
/// the report says success, marked stale where it says so, and left alone where its
/// plugin was not reached. It is stored under the profile of the request.
pub proof fn activation_stores_what_it_reports<P, A>(
    request: ActivateProfileRequest,
    states: Seq<ActivateProfile<P, A>>,
    events: Seq<ActivateEvent<P, A>>,
)
    requires
        is_run(states, events),
        states[0] == ActivateProfile::<P, A>::Select(request),
        states.last() is Apply,
    ensures
        agrees(
            reports(states.last()->Apply_0.results@),
            states.last()->Apply_0.updates@,
        ),
        states.last()->Apply_0.profile_id == request.profile_id,
{
    assert(events.len() > 0);
    assert(states[0].awaits(events[0]));
    let first = events[0];
    match first {
        ActivateEvent::Selected(Ok(accounts)) => {
            lemma_activation_run(request, accounts, states, events, events.len() as int);
        },
        _ => {
            assert(events.len() > 1 ==> states[1].awaits(events[1]));
        },
    }
}

/// An activation ends: it waits at most twice for each selected account.
pub proof fn activation_ends<P, A>(
    request: ActivateProfileRequest,
    accounts: Vec<StorefrontRef>,
    states: Seq<ActivateProfile<P, A>>,
    events: Seq<ActivateEvent<P, A>>,
)
    requires
        is_run(states, events),
        states[0] == ActivateProfile::<P, A>::Select(request),
        events.len() > 0,
        events[0] == ActivateEvent::<P, A>::Selected(Ok(accounts)),
    ensures
        events.len() <= 2 * accounts@.len() + 2,
{
    lemma_activation_run(request, accounts, states, events, events.len() as int);
}

/// A failure of the profile store is not found, or already there, exactly where the store
/// says so, and internal otherwise.
pub proof fn profile_failures_are_apart(kind: ErrorKind)
    ensures
        failure_code(kind) == Code::NotFound <==> kind == ErrorKind::Profile(ProfileError::NotFound),
        failure_code(kind) == Code::AlreadyExists <==> kind == ErrorKind::Profile(
            ProfileError::SteamAccountAlreadyLinked,
        ),
        failure_code(kind) == Code::NotFound || failure_code(kind) == Code::AlreadyExists
            || failure_code(kind) == Code::Internal,
{
}

/// A plugin that refuses to refresh a session, whatever it says and under whatever code,
/// leaves one more report, which says that the credentials of that storefront are stale
/// in the plugin's words; and the account of that storefront, and no other, is to be
/// stored as stale.
pub proof fn refused_refresh_is_stale<P, A>(
    states: Seq<ActivateProfile<P, A>>,
    events: Seq<ActivateEvent<P, A>>,
    i: int,
    run: Activation<A>,
    storefront: Storefront,
    status: Status,
)
    requires
        is_run(states, events),
        0 <= i < events.len(),
        states[i] == ActivateProfile::<P, A>::Refresh(run, storefront),
        events[i] == ActivateEvent::<P, A>::Refreshed(Err(status)),
    ensures
        states[i + 1] is Reach || states[i + 1] is Apply,
        states[i + 1].progress() matches Some(after) && {
            &&& after.profile_id == run.profile_id
            &&& after.results.len() == run.results@.len() + 1
            &&& after.results.last().storefront == storefront.number
            &&& after.results.last().outcome == ActivationOutcome::CredentialStale
            &&& after.results.last().detail == status.message@
            &&& forall|k: int|
                0 <= k < run.results@.len() ==> #[trigger] after.results[k] == run.results@[k]@
            &&& after.updates == run.updates@.insert(storefront.number, None)
        },
{
    assert(states[i].awaits(events[i]));
    lemma_one_more_report(run, storefront, refreshed(Err(status)), states[i + 1]);
}

/// A session that was refreshed leaves one more report, which says that it went well and
/// nothing else; and the account that the plugin gave is to be stored for that
/// storefront, and for no other.
pub proof fn refreshed_account_is_stored<P, A>(
    states: Seq<ActivateProfile<P, A>>,
    events: Seq<ActivateEvent<P, A>>,
    i: int,
    run: Activation<A>,
    storefront: Storefront,
    account: A,
)
    requires
        is_run(states, events),
        0 <= i < events.len(),
        states[i] == ActivateProfile::<P, A>::Refresh(run, storefront),
        events[i] == ActivateEvent::<P, A>::Refreshed(Ok(account)),
    ensures
        states[i + 1] is Reach || states[i + 1] is Apply,
        states[i + 1].progress() matches Some(after) && {
            &&& after.profile_id == run.profile_id
            &&& after.results.len() == run.results@.len() + 1
            &&& after.results.last().storefront == storefront.number
            &&& after.results.last().outcome == ActivationOutcome::Success
            &&& after.results.last().detail.len() == 0
            &&& forall|k: int|
                0 <= k < run.results@.len() ==> #[trigger] after.results[k] == run.results@[k]@
            &&& after.updates == run.updates@.insert(storefront.number, Some(account))
        },
{
    assert(states[i].awaits(events[i]));
    lemma_one_more_report(run, storefront, refreshed(Ok(account)), states[i + 1]);
}

/// A plugin that is connected is asked to refresh the session of the same storefront. One
/// that is missing, or that could not be reached, leaves one more report, which says so
/// under its own outcome; what is to be stored stays as it is.
pub proof fn plugin_out_of_reach_leaves_the_account<P, A>(
    states: Seq<ActivateProfile<P, A>>,
    events: Seq<ActivateEvent<P, A>>,
    i: int,
    run: Activation<A>,
    storefront: Storefront,
    reach: Reach,
)
    requires
        is_run(states, events),
        0 <= i < events.len(),
        states[i] == ActivateProfile::<P, A>::Reach(run, storefront),
        events[i] == ActivateEvent::<P, A>::Reached(reach),
    ensures
        reach is Connected ==> states[i + 1] == ActivateProfile::<P, A>::Refresh(run, storefront),
        !(reach is Connected) ==> {
            &&& states[i + 1] is Reach || states[i + 1] is Apply
            &&& states[i + 1].progress() matches Some(after) && {
                &&& after.profile_id == run.profile_id
                &&& after.results.len() == run.results@.len() + 1
                &&& after.results.last().storefront == storefront.number
                &&& reach is Absent ==> after.results.last().outcome
                    == ActivationOutcome::PluginUnavailable && after.results.last().detail
                    == "no plugin registered for "@ + storefront.name@
                &&& reach matches Reach::Failed(status) ==> after.results.last().outcome
                    == ActivationOutcome::NetworkError && after.results.last().detail
                    == status.message@
                &&& forall|k: int|
                    0 <= k < run.results@.len() ==> #[trigger] after.results[k] == run.results@[k]@
                &&& after.updates == run.updates@
            }
        },
{
    assert(states[i].awaits(events[i]));
    if !(reach is Connected) {
        lemma_one_more_report(run, storefront, not_reached(reach), states[i + 1]);
    }
}

proof fn lemma_one_more_report<P, A>(
    run: Activation<A>,
    storefront: Storefront,
    attempt: Attempt<A>,
    next: ActivateProfile<P, A>,
)
    requires
        goes_on(run@.settled(storefront, attempt), next),
    ensures
        next is Reach || next is Apply,
        next.progress() matches Some(after) && {
            &&& after.profile_id == run.profile_id
            &&& after.updates == updated(run.updates@, storefront.number, attempt)
            &&& after.results.len() == run.results@.len() + 1
            &&& after.results.last() == report(storefront, attempt)
            &&& forall|k: int|
                0 <= k < run.results@.len() ==> #[trigger] after.results[k] == run.results@[k]@
        },
{
    lemma_goes_on(run@.settled(storefront, attempt), next);
    assert(reports(run.results@).len() == run.results@.len());
}

/// A report of an outcome comes of an event of its own: success of a refreshed account,
/// stale credentials of a refusal in the same words, a missing plugin of one that the
/// registry does not know, and a failure of the network of a plugin that could not be
/// reached, in the same words.
pub proof fn each_report_has_its_event<P, A>(
    request: ActivateProfileRequest,
    states: Seq<ActivateProfile<P, A>>,
    events: Seq<ActivateEvent<P, A>>,
    n: int,
)
    requires
        is_run(states, events),
        states[0] == ActivateProfile::<P, A>::Select(request),
        0 <= n < states.len(),
    ensures
        states[n].progress() matches Some(run) ==> forall|k: int|
            0 <= k < run.results.len() ==> match (#[trigger] run.results[k]).outcome {
                ActivationOutcome::Success => exists|i: int|
                    0 <= i < n && (#[trigger] events[i] matches ActivateEvent::Refreshed(Ok(_))),
                ActivationOutcome::CredentialStale => exists|i: int|
                    0 <= i < n && (#[trigger] events[i] matches ActivateEvent::Refreshed(
                        Err(status),
                    ) && status.message@ == run.results[k].detail),
                ActivationOutcome::PluginUnavailable => exists|i: int|
                    0 <= i < n && (#[trigger] events[i] matches ActivateEvent::Reached(
                        Reach::Absent,
                    )),
                ActivationOutcome::NetworkError => exists|i: int|
                    0 <= i < n && (#[trigger] events[i] matches ActivateEvent::Reached(
                        Reach::Failed(status),
                    ) && status.message@ == run.results[k].detail),
            },
    decreases n,
{
    if n > 0 {
        each_report_has_its_event(request, states, events, n - 1);
        let event = events[n - 1];
        assert(states[n - 1].awaits(event));
        match (states[n - 1], event) {
            (ActivateProfile::Select(own), ActivateEvent::Selected(Ok(accounts))) => {
                lemma_goes_on(
                    ActivationView::<A> {
                        profile_id: own.profile_id,
                        pending: accounts@,
                        results: seq![],
                        updates: Map::empty(),
                    },
                    states[n],
                );
            },
            (ActivateProfile::Reach(run, storefront), ActivateEvent::Reached(reach)) => {
                plugin_out_of_reach_leaves_the_account(
                    states,
                    events,
                    n - 1,
                    run,
                    storefront,
                    reach,
                );
            },
            (ActivateProfile::Refresh(run, storefront), ActivateEvent::Refreshed(answer)) => {
                match answer {
                    Ok(account) => refreshed_account_is_stored(
                        states,
                        events,
                        n - 1,
                        run,
                        storefront,
                        account,
                    ),
                    Err(status) => refused_refresh_is_stale(
                        states,
                        events,
                        n - 1,
                        run,
                        storefront,
                        status,
                    ),
                }
            },
            _ => {},
        }
    }
}

/// What an activation is answered with: the failure to select the accounts or to store
/// the outcome, or else the stored profile with the reports as they are.
pub proof fn activation_is_answered_by_the_store<P, A>(
    request: ActivateProfileRequest,
    answer: Result<(P, Vec<AccountActivationResult>), Status>,
    states: Seq<ActivateProfile<P, A>>,
    events: Seq<ActivateEvent<P, A>>,
)
    requires
        is_run(states, events),
        states[0] == ActivateProfile::<P, A>::Select(request),
        states.last() == ActivateProfile::<P, A>::Done(answer),
    ensures
        events.len() > 0,
        match events.last() {
            ActivateEvent::Selected(Err(err)) => events.len() == 1 && (answer matches Err(status)
                && err.answered(failure_code(err.kind), status)),
            ActivateEvent::Applied(Ok(profile)) => states[events.len() - 1] matches
                ActivateProfile::Apply(run) && run.profile_id == request.profile_id && answer == Ok::<
                (P, Vec<AccountActivationResult>),
                Status,
            >((profile, run.results)),
            ActivateEvent::Applied(Err(err)) => answer matches Err(status) && err.answered(
                failure_code(err.kind),
                status,
            ),
            _ => false,
        },
{
    assert(events.len() > 0);
    let n = events.len() - 1;
    assert(states[n].awaits(events[n]));
    assert(states[0].awaits(events[0]));
    if let ActivateEvent::Selected(Ok(accounts)) = events[0] {
        lemma_activation_run(request, accounts, states, events, events.len() as int);
        if n >= 1 {
            lemma_activation_run(request, accounts, states, events, n as int);
        }
    } else {
        assert(events.len() > 1 ==> states[1].awaits(events[1]));
    }
    match (states[n], events[n]) {
        (ActivateProfile::Reach(run, storefront), ActivateEvent::Reached(reach)) => {
            if !(reach is Connected) {
                lemma_goes_on(run@.settled(storefront, not_reached(reach)), states[n + 1]);
            }
        },
        (ActivateProfile::Refresh(run, storefront), ActivateEvent::Refreshed(answer)) => {
            lemma_goes_on(run@.settled(storefront, refreshed(answer)), states[n + 1]);
        },
        _ => {},
    }
}

/// The accounts that an activation reports on are those that were selected and whose
/// storefront has a name, in order.
pub proof fn known_accounts_are_those_with_a_name(accounts: Seq<StorefrontRef>)
    ensures
        ({
            let known = accounts.filter(|account: StorefrontRef| account.name is Some);
            &&& known_numbers(accounts).len() == known.len()
            &&& forall|k: int|
                0 <= k < known.len() ==> #[trigger] known_numbers(accounts)[k] == known[k].number
        }),
    decreases accounts.len(),
{
    let has_name = |account: StorefrontRef| account.name is Some;
    if accounts.len() == 0 {
        reveal(Seq::filter);
    } else {
        let rest = accounts.skip(1);
        let one = seq![accounts[0]];
        known_accounts_are_those_with_a_name(rest);
        assert(accounts =~= one + rest);
        Seq::filter_distributes_over_add(one, rest, has_name);
        assert(one.filter(has_name) =~= if has_name(accounts[0]) {
            one
        } else {
            seq![]
        }) by {
            reveal(Seq::filter);
            assert(one.drop_last() =~= seq![]);
            assert(one.drop_last().filter(has_name) =~= seq![]);
            assert(one.last() == accounts[0]);
        }
        if accounts[0].name is None {
            assert(accounts.filter(has_name) =~= rest.filter(has_name));
        } else {
            assert(accounts.filter(has_name) =~= one + rest.filter(has_name));
        }
    }
}

/// What the profile store gives is answered as it is; its failure as not found or already
/// there where the store says so, with the status of another service where it is one, and
/// as internal otherwise.
pub proof fn profile_store_is_answered<T>(result: Result<T, CoreError>, r: Result<T, Status>)
    requires
        call_ensures(answer::<T>, (result,), r),
    ensures
        result matches Ok(value) ==> r == Ok::<T, Status>(value),
        result matches Err(err) ==> (r matches Err(status) && match err.kind {
            ErrorKind::Status(own) => status == own,
            ErrorKind::Profile(ProfileError::NotFound) => status.says(
                Code::NotFound,
                err.message@,
            ),
            ErrorKind::Profile(ProfileError::SteamAccountAlreadyLinked) => status.says(
                Code::AlreadyExists,
                err.message@,
            ),
            _ => status.says(Code::Internal, err.message@),
        }),
{
}

/// An activation begins with the request as it is.
pub proof fn activation_begins_with_the_request<P, A>(
    request: ActivateProfileRequest,
    call: ActivateProfile<P, A>,
)
    requires
        call_ensures(ActivateProfile::<P, A>::begin, (request,), call),
    ensures
        call == ActivateProfile::<P, A>::Select(request),
{
}

/// A report is seen as it is, and so is what an activation in progress holds.
pub proof fn reports_are_seen_as_they_are<A>(run: Activation<A>, k: int)
    requires
        0 <= k < run.results@.len(),
    ensures
        run@.profile_id == run.profile_id,
        run@.pending == run.pending@,
        run@.updates == run.updates@,
        run@.results.len() == run.results@.len(),
        run@.results[k].storefront == run.results@[k].storefront,
        run@.results[k].outcome == run.results@[k].outcome,
        run@.results[k].detail == run.results@[k].detail@,
{
}

/// Whatever comes of a step of an activation is awaited there, and nothing is awaited once
/// the call is answered.
pub proof fn activation_awaits_every_outcome<P, A>(
    state: ActivateProfile<P, A>,
    accounts: Result<Vec<StorefrontRef>, CoreError>,
    reach: Reach,
    answer: Result<A, Status>,
    applied: Result<P, CoreError>,
    event: ActivateEvent<P, A>,
)
    ensures
        state is Select <==> state.awaits(ActivateEvent::Selected(accounts)),
        state is Reach <==> state.awaits(ActivateEvent::Reached(reach)),
        state is Refresh <==> state.awaits(ActivateEvent::Refreshed(answer)),
        state is Apply <==> state.awaits(ActivateEvent::Applied(applied)),
        state is Done ==> !state.awaits(event),
{
}

/// An event that an activation does not wait for changes nothing.
pub proof fn stray_events_do_not_touch_an_activation<P, A>(state: ActivateProfile<P, A>, event: ActivateEvent<P, A>, next: ActivateProfile<P, A>)
    requires
        !state.awaits(event),
        state.stepped(event, next),
    ensures
        next == state,
{
}

} // verus!
