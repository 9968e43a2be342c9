//! Listing and watching the games of a profile across storefronts.
//!
//! One storefront's plugin that cannot be reached, or that fails, does not affect the
//! others.

use vstd::prelude::*;
use crate::machine::{is_run, Machine};
use crate::registry::{Reach, Storefront, StorefrontRef};
use crate::status::Status;

verus! {

/// Whether an account's session can be used.
#[derive(Clone, Copy, Debug, PartialEq, Eq, Structural)]
pub enum AuthState {
    Active,
    Other(i32),
}

/// An account of a profile.
#[derive(Debug)]
pub struct LinkedAccount {
    pub storefront: Storefront,
    pub auth_state: AuthState,
}

/// The storefronts of the accounts that are active, in order.
pub open spec fn active_storefronts(accounts: Seq<LinkedAccount>) -> Seq<Storefront>
    decreases accounts.len(),
{
    if accounts.len() == 0 {
        seq![]
    } else {
        let before = active_storefronts(accounts.drop_last());
        if accounts.last().auth_state == AuthState::Active {
            before.push(accounts.last().storefront)
        } else {
            before
        }
    }
}

fn select_active(accounts: Vec<LinkedAccount>) -> (r: Vec<Storefront>)
    ensures
        r@ == active_storefronts(accounts@),
{
    let mut active: Vec<Storefront> = Vec::new();
    for account in it: accounts
        invariant
            it.seq() == accounts@,
            active@ == active_storefronts(accounts@.take(it.index() as int)),
    {
        let ghost more = accounts@.take(it.index() + 1);
        assert(more.drop_last() =~= accounts@.take(it.index() as int));
        assert(more.last() == account);
        if account.auth_state == AuthState::Active {
            active.push(account.storefront);
        }
    }
    assert(accounts@.take(accounts@.len() as int) =~= accounts@);
    active
}

/// A game of a profile. `S` is the state of an installed game, `D` what else there is to
/// a game.
#[derive(Debug)]
pub struct Game<S, D> {
    pub id: String,
    pub storefront: StorefrontRef,
    pub install_state: Option<S>,
    pub details: D,
}

/// The games that were listed so far, and the storefronts still to come.
#[derive(Debug)]
pub struct Listing<S, D> {
    pub profile_id: String,
    pub pending: Vec<Storefront>,
    pub games: Vec<Game<S, D>>,
}

/// What a listing holds.
#[verifier::ext_equal]
pub struct ListingView<S, D> {
    pub profile_id: String,
    pub pending: Seq<Storefront>,
    pub games: Seq<Game<S, D>>,
}

impl<S, D> View for Listing<S, D> {
    type V = ListingView<S, D>;

    open spec fn view(&self) -> ListingView<S, D> {
        ListingView { profile_id: self.profile_id, pending: self.pending@, games: self.games@ }
    }
}

/// The games whose install state was looked up, and those still to come.
#[derive(Debug)]
pub struct Marking<S, D> {
    pub profile_id: String,
    pub marked: Vec<Game<S, D>>,
    pub rest: Vec<Game<S, D>>,
}

/// What a marking holds.
#[verifier::ext_equal]
pub struct MarkingView<S, D> {
    pub profile_id: String,
    pub marked: Seq<Game<S, D>>,
    pub rest: Seq<Game<S, D>>,
}

impl<S, D> View for Marking<S, D> {
    type V = MarkingView<S, D>;

    open spec fn view(&self) -> MarkingView<S, D> {
        MarkingView { profile_id: self.profile_id, marked: self.marked@, rest: self.rest@ }
    }
}

impl<S, D> MarkingView<S, D> {
    /// The marking with the games in front whose storefront is not known passed over.
    pub open spec fn at_known(self) -> Self
        decreases self.rest.len(),
    {
        if self.rest.len() > 0 && self.rest[0].storefront.name is None {
            MarkingView {
                marked: self.marked.push(self.rest[0]),
                rest: self.rest.skip(1),
                ..self
            }.at_known()
        } else {
            self
        }
    }
}

/// A game with the state that its record gives, where there is a record.
pub open spec fn with_record<S, D>(game: Game<S, D>, record: Option<S>) -> Game<S, D> {
    match record {
        Some(state) => Game { install_state: Some(state), ..game },
        None => game,
    }
}

/// Listing the games of a profile, by what is to be done next.
#[derive(Debug)]
pub enum ListGames<S, D> {
    /// Get the accounts of the profile.
    GetProfile(String),
    /// Reach the plugin of a storefront.
    Reach(Listing<S, D>, Storefront),
    /// Have the plugin list the games of the profile.
    List(Listing<S, D>, Storefront),
    /// Look up the record of the installation of the profile's game, by its storefront.
    Lookup(Marking<S, D>, Game<S, D>, Storefront),
    /// Answer the call.
    Done(Result<Vec<Game<S, D>>, Status>),
}

/// What listing games waits for.
#[derive(Debug)]
pub enum ListEvent<S, D> {
    Profile(Result<Vec<LinkedAccount>, Status>),
    Reached(Reach),
    Listed(Result<Vec<Game<S, D>>, Status>),
    /// The state of the installed game, where there is a record.
    Record(Option<S>),
}

/// The games are marked one after the other, and answered when none is left.
pub open spec fn goes_on_marking<S, D>(marking: MarkingView<S, D>, next: ListGames<S, D>) -> bool {
    let at = marking.at_known();
    if at.rest.len() > 0 {
        next matches ListGames::Lookup(kept, game, storefront) && kept@ == (MarkingView {
            rest: at.rest.skip(1),
            ..at
        }) && game == at.rest[0] && game.storefront.is_known_as(storefront)
    } else {
        next matches ListGames::Done(Ok(games)) && games@ == at.marked
    }
}

/// The storefronts are asked one after the other, and the games marked when none is
/// left.
pub open spec fn goes_on_listing<S, D>(listing: ListingView<S, D>, next: ListGames<S, D>) -> bool {
    if listing.pending.len() > 0 {
        next matches ListGames::Reach(kept, storefront) && kept@ == (ListingView {
            pending: listing.pending.skip(1),
            ..listing
        }) && storefront == listing.pending[0]
    } else {
        goes_on_marking(
            MarkingView {
                profile_id: listing.profile_id,
                marked: seq![],
                rest: listing.games,
            },
            next,
        )
    }
}

fn go_on_marking<S, D>(marking: Marking<S, D>) -> (r: ListGames<S, D>)
    ensures
        goes_on_marking(marking@, r),
{
    let ghost wanted = marking@.at_known();
    let mut at = marking;
    while at.rest.len() > 0
        invariant
            at@.at_known() == wanted,
            wanted == marking@.at_known(),
        decreases at.rest.len(),
    {
        let ghost before = at@;
        let game = at.rest.remove(0);
        assert(at.rest@ =~= before.rest.skip(1));
        match game.storefront.known() {
            Some(storefront) => {
                return ListGames::Lookup(at, game, storefront);
            },
            None => {
                at.marked.push(game);
            },
        }
    }
    ListGames::Done(Ok(at.marked))
}

fn go_on_listing<S, D>(listing: Listing<S, D>) -> (r: ListGames<S, D>)
    ensures
        goes_on_listing(listing@, r),
{
    let ghost before = listing@;
    let mut at = listing;
    if at.pending.len() > 0 {
        let storefront = at.pending.remove(0);
        assert(at.pending@ =~= before.pending.skip(1));
        ListGames::Reach(at, storefront)
    } else {
        go_on_marking(Marking { profile_id: at.profile_id, marked: Vec::new(), rest: at.games })
    }
}

fn gathered<S, D>(games: Vec<Game<S, D>>, more: Vec<Game<S, D>>) -> (r: Vec<Game<S, D>>)
    ensures
        r@ == games@ + more@,
{
    let mut all = games;
    let mut rest = more;
    all.append(&mut rest);
    all
}

impl<S, D> ListGames<S, D> {
    /// Begins with the profile.
    pub fn begin(profile_id: String) -> (r: Self)
        ensures
            r == ListGames::<S, D>::GetProfile(profile_id),
    {
        ListGames::GetProfile(profile_id)
    }
}

impl<S, D> Machine for ListGames<S, D> {
    type Event = ListEvent<S, D>;

    open spec fn awaits(self, event: ListEvent<S, D>) -> bool {
        match self {
            ListGames::GetProfile(_) => event is Profile,
            ListGames::Reach(_, _) => event is Reached,
            ListGames::List(_, _) => event is Listed,
            ListGames::Lookup(_, _, _) => event is Record,
            ListGames::Done(_) => false,
        }
    }

    open spec fn stepped(self, event: ListEvent<S, D>, next: Self) -> bool {
        match (self, event) {
            (ListGames::GetProfile(profile_id), ListEvent::Profile(Ok(accounts))) => {
                goes_on_listing(
                    ListingView {
                        profile_id,
                        pending: active_storefronts(accounts@),
                        games: seq![],
                    },
                    next,
                )
            },
            (ListGames::GetProfile(_), ListEvent::Profile(Err(status))) => next
                == ListGames::<S, D>::Done(Err(status)),
            (ListGames::Reach(listing, storefront), ListEvent::Reached(reach)) => match reach {
                Reach::Connected => next matches ListGames::List(kept, known) && kept@ == listing@
                    && known == storefront,
                _ => goes_on_listing(listing@, next),
            },
            (ListGames::List(listing, _), ListEvent::Listed(Ok(games))) => goes_on_listing(
                ListingView { games: listing@.games + games@, ..listing@ },
                next,
            ),
            (ListGames::List(listing, _), ListEvent::Listed(Err(_))) => goes_on_listing(
                listing@,
                next,
            ),
            (ListGames::Lookup(marking, game, _), ListEvent::Record(record)) => goes_on_marking(
                MarkingView {
                    marked: marking@.marked.push(with_record(game, record)),
                    ..marking@
                },
                next,
            ),
            _ => next == self,
        }
    }

    fn step(self, event: ListEvent<S, D>) -> (next: Self) {
        match (self, event) {
            (ListGames::GetProfile(profile_id), ListEvent::Profile(Ok(accounts))) => {
                go_on_listing(
                    Listing { profile_id, pending: select_active(accounts), games: Vec::new() },
                )
            },
            (ListGames::GetProfile(_), ListEvent::Profile(Err(status))) => ListGames::Done(
                Err(status),
            ),
            (ListGames::Reach(listing, storefront), ListEvent::Reached(reach)) => match reach {
                Reach::Connected => ListGames::List(listing, storefront),
                _ => go_on_listing(listing),
            },
            (ListGames::List(listing, _), ListEvent::Listed(Ok(games))) => go_on_listing(
                Listing {
                    profile_id: listing.profile_id,
                    pending: listing.pending,
                    games: gathered(listing.games, games),
                },
            ),
            (ListGames::List(listing, _), ListEvent::Listed(Err(_))) => go_on_listing(listing),
            (ListGames::Lookup(marking, game, _), ListEvent::Record(record)) => {
                let game = match record {
                    Some(state) => Game {
                        id: game.id,
                        storefront: game.storefront,
                        install_state: Some(state),
                        details: game.details,
                    },
                    None => game,
                };
                let mut marking = marking;
                marking.marked.push(game);
                go_on_marking(marking)
            },
            (state, _) => state,
        }
    }
}

/// The games that plugins listed, in order.
pub open spec fn listed<S, D>(events: Seq<ListEvent<S, D>>) -> Seq<Game<S, D>>
    decreases events.len(),
{
    if events.len() == 0 {
        seq![]
    } else {
        match events.last() {
            ListEvent::Listed(Ok(games)) => listed(events.drop_last()) + games@,
            _ => listed(events.drop_last()),
        }
    }
}

/// The records that were looked up, in order.
pub open spec fn records<S, D>(events: Seq<ListEvent<S, D>>) -> Seq<Option<S>>
    decreases events.len(),
{
    if events.len() == 0 {
        seq![]
    } else {
        match events.last() {
            ListEvent::Record(record) => records(events.drop_last()).push(record),
            _ => records(events.drop_last()),
        }
    }
}

/// The storefronts whose plugins were to be reached, in order.
pub open spec fn asked<S, D>(states: Seq<ListGames<S, D>>) -> Seq<Storefront>
    decreases states.len(),
{
    if states.len() == 0 {
        seq![]
    } else {
        match states.last() {
            ListGames::Reach(_, storefront) => asked(states.drop_last()).push(storefront),
            _ => asked(states.drop_last()),
        }
    }
}

/// Games with their records: one record for each game whose storefront is known, in
/// order.
pub open spec fn with_records<S, D>(games: Seq<Game<S, D>>, found: Seq<Option<S>>) -> Seq<
    Game<S, D>,
>
    decreases games.len(),
{
    if games.len() == 0 {
        seq![]
    } else if games.last().storefront.name is None {
        with_records(games.drop_last(), found).push(games.last())
    } else {
        with_records(games.drop_last(), found.drop_last()).push(
            with_record(games.last(), found.last()),
        )
    }
}

/// How many of some games have a storefront that is known.
pub open spec fn known_games<S, D>(games: Seq<Game<S, D>>) -> nat {
    games.filter(|game: Game<S, D>| game.storefront.name is Some).len()
}

impl<S, D> MarkingView<S, D> {
    /// This marking has put the records that were found to the first of some games, and
    /// the others are still to come.
    pub open spec fn is_part_of(self, all: Seq<Game<S, D>>, found: Seq<Option<S>>) -> bool {
        let n = self.marked.len() as int;
        &&& n <= all.len()
        &&& self.marked == with_records(all.take(n), found)
        &&& self.rest == all.skip(n)
        &&& found.len() == known_games(all.take(n))
    }
}

proof fn lemma_at_known<S, D>(
    marking: MarkingView<S, D>,
    all: Seq<Game<S, D>>,
    found: Seq<Option<S>>,
)
    requires
        marking.is_part_of(all, found),
    ensures
        marking.at_known().is_part_of(all, found),
        marking.at_known().rest.len() > 0
            ==> marking.at_known().rest[0].storefront.name is Some,
    decreases marking.rest.len(),
{
    if marking.rest.len() > 0 && marking.rest[0].storefront.name is None {
        let n = marking.marked.len() as int;
        let more = MarkingView {
            marked: marking.marked.push(marking.rest[0]),
            rest: marking.rest.skip(1),
            ..marking
        };
        assert(all.take(n + 1).drop_last() =~= all.take(n));
        assert(all.skip(n).skip(1) =~= all.skip(n + 1));
        lemma_known_games(all, n);
        lemma_at_known(more, all, found);
    }
}

proof fn lemma_known_games<S, D>(all: Seq<Game<S, D>>, n: int)
    requires
        0 <= n < all.len(),
    ensures
        known_games(all.take(n + 1)) == known_games(all.take(n)) + if all[n].storefront.name
            is Some {
            1nat
        } else {
            0nat
        },
{
    reveal(Seq::filter);
    assert(all.take(n + 1).drop_last() =~= all.take(n));
}

proof fn lemma_with_records_len<S, D>(games: Seq<Game<S, D>>, found: Seq<Option<S>>)
    ensures
        with_records(games, found).len() == games.len(),
    decreases games.len(),
{
    if games.len() > 0 {
        lemma_with_records_len(games.drop_last(), found);
        lemma_with_records_len(games.drop_last(), found.drop_last());
    }
}

/// What holds of a list in progress, from the accounts and what came since.
spec fn holds_together<S, D>(
    state: ListGames<S, D>,
    active: Seq<Storefront>,
    reached: Seq<Storefront>,
    all: Seq<Game<S, D>>,
    found: Seq<Option<S>>,
) -> bool {
    match state {
        ListGames::Reach(listing, _) => {
            &&& listing@.games == all
            &&& reached + listing@.pending == active
            &&& found.len() == 0
        },
        ListGames::List(listing, _) => {
            &&& listing@.games == all
            &&& reached + listing@.pending == active
            &&& found.len() == 0
        },
        ListGames::Lookup(marking, game, _) => {
            let n = marking@.marked.len() as int;
            &&& n < all.len()
            &&& marking@.marked == with_records(all.take(n), found)
            &&& game == all[n]
            &&& game.storefront.name is Some
            &&& marking@.rest == all.skip(n + 1)
            &&& found.len() == known_games(all.take(n))
            &&& reached == active
        },
        ListGames::Done(Ok(games)) => {
            &&& games@ == with_records(all, found)
            &&& found.len() == known_games(all)
            &&& reached == active
        },
        _ => false,
    }
}

proof fn lemma_goes_on_marking<S, D>(
    marking: MarkingView<S, D>,
    next: ListGames<S, D>,
    active: Seq<Storefront>,
    all: Seq<Game<S, D>>,
    found: Seq<Option<S>>,
)
    requires
        marking.is_part_of(all, found),
        goes_on_marking(marking, next),
    ensures
        holds_together(next, active, active, all, found),
        !(next is Reach),
{
    lemma_at_known(marking, all, found);
    let at = marking.at_known();
    let n = at.marked.len() as int;
    if at.rest.len() > 0 {
        assert(at.rest.skip(1) =~= all.skip(n + 1));
    } else {
        assert(all.take(n) =~= all);
    }
}

proof fn lemma_goes_on_listing<S, D>(
    listing: ListingView<S, D>,
    next: ListGames<S, D>,
    active: Seq<Storefront>,
    reached: Seq<Storefront>,
    found: Seq<Option<S>>,
)
    requires
        goes_on_listing(listing, next),
        reached + listing.pending == active,
        found.len() == 0,
    ensures
        holds_together(
            next,
            active,
            match next {
                ListGames::Reach(_, storefront) => reached.push(storefront),
                _ => reached,
            },
            listing.games,
            found,
        ),
{
    if listing.pending.len() > 0 {
        assert(reached.push(listing.pending[0]) + listing.pending.skip(1) =~= active);
    } else {
        assert(reached =~= active);
        assert(listing.games.take(0) =~= seq![]);
        assert(known_games(listing.games.take(0)) == 0) by {
            reveal(Seq::filter);
        }
        assert(listing.games.skip(0) =~= listing.games);
        lemma_goes_on_marking(
            MarkingView {
                profile_id: listing.profile_id,
                marked: seq![],
                rest: listing.games,
            },
            next,
            active,
            listing.games,
            found,
        );
    }
}

proof fn lemma_holds_together<S, D>(
    profile_id: String,
    accounts: Vec<LinkedAccount>,
    states: Seq<ListGames<S, D>>,
    events: Seq<ListEvent<S, D>>,
)
    requires
        is_run(states, events),
        states[0] == ListGames::<S, D>::GetProfile(profile_id),
        events.len() > 0,
        events[0] == ListEvent::<S, D>::Profile(Ok(accounts)),
    ensures
        holds_together(
            states.last(),
            active_storefronts(accounts@),
            asked(states),
            listed(events),
            records(events),
        ),
    decreases events.len(),
{
    let active = active_storefronts(accounts@);
    let n = events.len() - 1;
    let before = states.drop_last();
    let past = events.drop_last();
    assert(states.take(n + 1) =~= before);
    assert(events.take(n) =~= past);
    assert(states[n].awaits(events[n]));
    if n == 0 {
        assert(past =~= seq![]);
        assert(records(past) == Seq::<Option<S>>::empty());
        assert(listed(past) == Seq::<Game<S, D>>::empty());
        assert(before =~= seq![states[0]]);
        assert(before.drop_last() =~= seq![]);
        assert(asked(before.drop_last()) == Seq::<Storefront>::empty());
        assert(asked(before) == Seq::<Storefront>::empty());
        assert(Seq::<Storefront>::empty() + active =~= active);
        lemma_goes_on_listing(
            ListingView { profile_id, pending: active, games: seq![] },
            states.last(),
            active,
            asked(before),
            records(events),
        );
    } else {
        crate::machine::run_prefix(states, events, n as int);
        lemma_holds_together(profile_id, accounts, before, past);
        assert(before.last() == states[n]);
        match (states[n], events[n]) {
            (ListGames::Reach(listing, _), ListEvent::Reached(reach)) => {
                if !(reach is Connected) {
                    lemma_goes_on_listing(
                        listing@,
                        states.last(),
                        active,
                        asked(before),
                        records(events),
                    );
                }
            },
            (ListGames::List(listing, _), ListEvent::Listed(Ok(games))) => {
                lemma_goes_on_listing(
                    ListingView { games: listing@.games + games@, ..listing@ },
                    states.last(),
                    active,
                    asked(before),
                    records(events),
                );
            },
            (ListGames::List(listing, _), ListEvent::Listed(Err(_))) => {
                lemma_goes_on_listing(
                    listing@,
                    states.last(),
                    active,
                    asked(before),
                    records(events),
                );
            },
            (ListGames::Lookup(marking, game, _), ListEvent::Record(record)) => {
                let all = listed(events);
                let found = records(events);
                let m = marking@.marked.len() as int;
                let more = MarkingView {
                    marked: marking@.marked.push(with_record(game, record)),
                    ..marking@
                };
                assert(all.take(m + 1).drop_last() =~= all.take(m));
                lemma_known_games(all, m);
                assert(found.drop_last() =~= records(past));
                assert(more.is_part_of(all, found));
                lemma_goes_on_marking(more, states.last(), active, all, found);
            },
            _ => {},
        }
    }
}

/// The games that are answered are those that plugins listed, all of them and in the
/// same order, each with the state that its record gives. The plugin of every active
/// account was to be reached, once and in order.
pub proof fn every_listed_game_is_answered<S, D>(
    profile_id: String,
    accounts: Vec<LinkedAccount>,
    games: Vec<Game<S, D>>,
    states: Seq<ListGames<S, D>>,
    events: Seq<ListEvent<S, D>>,
)
    requires
        is_run(states, events),
        states[0] == ListGames::<S, D>::GetProfile(profile_id),
        events.len() > 0,
        events[0] == ListEvent::<S, D>::Profile(Ok(accounts)),
        states.last() == ListGames::Done(Ok(games)),
    ensures
        asked(states) == active_storefronts(accounts@),
        games@ == with_records(listed(events), records(events)),
        games@.len() == listed(events).len(),
        records(events).len() == known_games(listed(events)),
{
    lemma_holds_together(profile_id, accounts, states, events);
    lemma_with_records_len(listed(events), records(events));
}

/// A list fails only where the profile cannot be read. No plugin makes it fail.
pub proof fn no_plugin_fails_the_list<S, D>(
    profile_id: String,
    status: Status,
    states: Seq<ListGames<S, D>>,
    events: Seq<ListEvent<S, D>>,
)
    requires
        is_run(states, events),
        states[0] == ListGames::<S, D>::GetProfile(profile_id),
        states.last() == ListGames::<S, D>::Done(Err(status)),
    ensures
        events.len() == 1,
        events[0] == ListEvent::<S, D>::Profile(Err(status)),
{
    assert(events.len() > 0);
    assert(states[0].awaits(events[0]));
    if let ListEvent::Profile(Ok(accounts)) = events[0] {
        lemma_holds_together(profile_id, accounts, states, events);
    } else {
        assert(states[1] is Done);
        assert(events.len() > 1 ==> states[1].awaits(events[1]));
    }
}

/// The storefronts whose games are still to be watched.
#[derive(Debug)]
pub struct Watching {
    pub profile_id: String,
    pub pending: Vec<Storefront>,
}

/// Watching the games of a profile, by what is to be done next.
#[derive(Debug)]
pub enum WatchGames {
    /// Get the accounts of the profile.
    GetProfile(String),
    /// Reach the plugin of a storefront.
    Reach(Watching, Storefront),
    /// Start to forward what the plugin tells of the profile's games.
    Forward(Watching, Storefront),
    /// Answer the call: with what is forwarded, or with a failure.
    Done(Result<(), Status>),
}

/// What watching games waits for.
#[derive(Debug)]
pub enum WatchEvent {
    Profile(Result<Vec<LinkedAccount>, Status>),
    Reached(Reach),
    Forwarding,
}

/// The storefronts are reached one after the other, and the call is answered when none
/// is left.
pub open spec fn goes_on_watching(
    profile_id: String,
    pending: Seq<Storefront>,
    next: WatchGames,
) -> bool {
    if pending.len() > 0 {
        next matches WatchGames::Reach(kept, storefront) && kept.profile_id == profile_id
            && kept.pending@ == pending.skip(1) && storefront == pending[0]
    } else {
        next matches WatchGames::Done(Ok(_))
    }
}

fn go_on_watching(watching: Watching) -> (r: WatchGames)
    ensures
        goes_on_watching(watching.profile_id, watching.pending@, r),
{
    let ghost before = watching.pending@;
    let mut at = watching;
    if at.pending.len() > 0 {
        let storefront = at.pending.remove(0);
        assert(at.pending@ =~= before.skip(1));
        WatchGames::Reach(at, storefront)
    } else {
        WatchGames::Done(Ok(()))
    }
}

impl WatchGames {
    /// Begins with the profile.
    pub fn begin(profile_id: String) -> (r: Self)
        ensures
            r == WatchGames::GetProfile(profile_id),
    {
        WatchGames::GetProfile(profile_id)
    }
}

impl Machine for WatchGames {
    type Event = WatchEvent;

    open spec fn awaits(self, event: WatchEvent) -> bool {
        match self {
            WatchGames::GetProfile(_) => event is Profile,
            WatchGames::Reach(_, _) => event is Reached,
            WatchGames::Forward(_, _) => event is Forwarding,
            WatchGames::Done(_) => false,
        }
    }

    open spec fn stepped(self, event: WatchEvent, next: Self) -> bool {
        match (self, event) {
            (WatchGames::GetProfile(profile_id), WatchEvent::Profile(Ok(accounts))) => {
                goes_on_watching(profile_id, active_storefronts(accounts@), next)
            },
            (WatchGames::GetProfile(_), WatchEvent::Profile(Err(status))) => next
                == WatchGames::Done(Err(status)),
            (WatchGames::Reach(watching, storefront), WatchEvent::Reached(reach)) => match reach {
                Reach::Connected => next == WatchGames::Forward(watching, storefront),
                _ => goes_on_watching(watching.profile_id, watching.pending@, next),
            },
            (WatchGames::Forward(watching, _), WatchEvent::Forwarding) => goes_on_watching(
                watching.profile_id,
                watching.pending@,
                next,
            ),
            _ => next == self,
        }
    }

    fn step(self, event: WatchEvent) -> (next: Self) {
        match (self, event) {
            (WatchGames::GetProfile(profile_id), WatchEvent::Profile(Ok(accounts))) => {
                go_on_watching(Watching { profile_id, pending: select_active(accounts) })
            },
            (WatchGames::GetProfile(_), WatchEvent::Profile(Err(status))) => WatchGames::Done(
                Err(status),
            ),
            (WatchGames::Reach(watching, storefront), WatchEvent::Reached(reach)) => match reach {
                Reach::Connected => WatchGames::Forward(watching, storefront),
                _ => go_on_watching(watching),
            },
            (WatchGames::Forward(watching, _), WatchEvent::Forwarding) => go_on_watching(watching),
            (state, _) => state,
        }
    }
}

/// The storefronts whose plugins were to be reached to watch them, with whether they
/// were, in order.
pub open spec fn tried(states: Seq<WatchGames>, events: Seq<WatchEvent>) -> Seq<(Storefront, bool)>
    decreases events.len(),
{
    if events.len() == 0 {
        seq![]
    } else {
        let before = tried(states.drop_last(), events.drop_last());
        match (states[events.len() - 1], events.last()) {
            (WatchGames::Reach(_, storefront), WatchEvent::Reached(reach)) => before.push(
                (storefront, reach == Reach::Connected),
            ),
            _ => before,
        }
    }
}

/// The storefronts that are forwarded, in order.
pub open spec fn forwarded(states: Seq<WatchGames>) -> Seq<Storefront>
    decreases states.len(),
{
    if states.len() == 0 {
        seq![]
    } else {
        match states.last() {
            WatchGames::Forward(_, storefront) => forwarded(states.drop_last()).push(storefront),
            _ => forwarded(states.drop_last()),
        }
    }
}

/// The storefronts that were reached among those that were tried.
pub open spec fn connected(all: Seq<(Storefront, bool)>) -> Seq<Storefront>
    decreases all.len(),
{
    if all.len() == 0 {
        seq![]
    } else if all.last().1 {
        connected(all.drop_last()).push(all.last().0)
    } else {
        connected(all.drop_last())
    }
}

/// The storefronts that were tried, without how that went.
pub open spec fn storefronts(all: Seq<(Storefront, bool)>) -> Seq<Storefront> {
    all.map_values(|one: (Storefront, bool)| one.0)
}

proof fn lemma_watching(
    profile_id: String,
    accounts: Vec<LinkedAccount>,
    states: Seq<WatchGames>,
    events: Seq<WatchEvent>,
)
    requires
        is_run(states, events),
        states[0] == WatchGames::GetProfile(profile_id),
        events.len() > 0,
        events[0] == WatchEvent::Profile(Ok(accounts)),
    ensures
        forwarded(states) == connected(tried(states, events)),
        match states.last() {
            WatchGames::Reach(watching, storefront) => storefronts(tried(states, events)).push(
                storefront,
            ) + watching.pending@ == active_storefronts(accounts@),
            WatchGames::Forward(watching, _) => storefronts(tried(states, events))
                + watching.pending@ == active_storefronts(accounts@),
            WatchGames::Done(Ok(_)) => storefronts(tried(states, events)) == active_storefronts(
                accounts@,
            ),
            _ => false,
        },
    decreases events.len(),
{
    let active = active_storefronts(accounts@);
    let n = events.len() - 1;
    let before = states.drop_last();
    let past = events.drop_last();
    assert(states.take(n + 1) =~= before);
    assert(events.take(n) =~= past);
    assert(states[n].awaits(events[n]));
    let all = tried(states, events);
    if n == 0 {
        assert(past =~= seq![]);
        assert(tried(before, past) == Seq::<(Storefront, bool)>::empty());
        assert(before =~= seq![states[0]]);
        assert(before.drop_last() =~= seq![]);
        assert(forwarded(before.drop_last()) == Seq::<Storefront>::empty());
        assert(forwarded(before) == Seq::<Storefront>::empty());
        assert(storefronts(all) =~= Seq::<Storefront>::empty());
        if active.len() > 0 {
            assert(Seq::<Storefront>::empty().push(active[0]) + active.skip(1) =~= active);
        } else {
            assert(Seq::<Storefront>::empty() =~= active);
        }
    } else {
        crate::machine::run_prefix(states, events, n as int);
        lemma_watching(profile_id, accounts, before, past);
        assert(before.last() == states[n]);
        let done = tried(before, past);
        match (states[n], events[n]) {
            (WatchGames::Reach(watching, storefront), WatchEvent::Reached(reach)) => {
                assert(all.drop_last() =~= done);
                assert(storefronts(all) =~= storefronts(done).push(storefront));
                let pending = watching.pending@;
                if !(reach is Connected) {
                    lemma_next_watched(storefronts(all), pending, active);
                }
            },
            (WatchGames::Forward(watching, _), WatchEvent::Forwarding) => {
                lemma_next_watched(storefronts(all), watching.pending@, active);
            },
            _ => {},
        }
    }
}

proof fn lemma_next_watched(
    done: Seq<Storefront>,
    pending: Seq<Storefront>,
    active: Seq<Storefront>,
)
    requires
        done + pending == active,
    ensures
        pending.len() > 0 ==> done.push(pending[0]) + pending.skip(1) == active,
        pending.len() == 0 ==> done == active,
{
    if pending.len() > 0 {
        assert(done.push(pending[0]) + pending.skip(1) =~= active);
    } else {
        assert(done =~= active);
    }
}

/// A watch of a profile's games tries the plugin of every active account, once and in
/// order, and forwards exactly those that were reached.
pub proof fn every_reached_storefront_is_watched(
    profile_id: String,
    accounts: Vec<LinkedAccount>,
    states: Seq<WatchGames>,
    events: Seq<WatchEvent>,
)
    requires
        is_run(states, events),
        states[0] == WatchGames::GetProfile(profile_id),
        events.len() > 0,
        events[0] == WatchEvent::Profile(Ok(accounts)),
        states.last() is Done,
    ensures
        states.last() matches WatchGames::Done(Ok(_)),
        storefronts(tried(states, events)) == active_storefronts(accounts@),
        forwarded(states) == connected(tried(states, events)),
{
    lemma_watching(profile_id, accounts, states, events);
}

/// The storefronts of two lists of accounts, one behind the other, are those of the first
/// and then those of the second.
pub proof fn accounts_count_on_their_own(front: Seq<LinkedAccount>, back: Seq<LinkedAccount>)
    ensures
        active_storefronts(front + back) == active_storefronts(front) + active_storefronts(back),
    decreases back.len(),
{
    if back.len() == 0 {
        assert(front + back =~= front);
        assert(active_storefronts(front) + active_storefronts(back) =~= active_storefronts(front));
    } else {
        accounts_count_on_their_own(front, back.drop_last());
        assert((front + back).drop_last() =~= front + back.drop_last());
        assert(active_storefronts(front + back) =~= active_storefronts(front)
            + active_storefronts(back));
    }
}

/// An account counts exactly where it is active, whatever stands before or behind it: the
/// storefronts are those of the active accounts, each once and in order.
pub proof fn every_active_account_counts(accounts: Seq<LinkedAccount>)
    ensures
        ({
            let active = accounts.filter(
                |account: LinkedAccount| account.auth_state == AuthState::Active,
            );
            &&& active_storefronts(accounts).len() == active.len()
            &&& forall|k: int|
                0 <= k < active.len() ==> #[trigger] active_storefronts(accounts)[k]
                    == active[k].storefront
        }),
        forall|i: int|
            0 <= i < accounts.len() && (#[trigger] accounts[i]).auth_state == AuthState::Active
                ==> active_storefronts(accounts).contains(accounts[i].storefront),
    decreases accounts.len(),
{
    reveal(Seq::filter);
    if accounts.len() > 0 {
        let before = accounts.drop_last();
        let all = active_storefronts(accounts);
        let some = active_storefronts(before);
        every_active_account_counts(before);
        assert forall|i: int|
            0 <= i < accounts.len() && (#[trigger] accounts[i]).auth_state
                == AuthState::Active implies all.contains(accounts[i].storefront) by {
            if i < before.len() {
                assert(before[i] == accounts[i]);
                let k = choose|k: int| 0 <= k < some.len() && some[k] == accounts[i].storefront;
                assert(all[k] == some[k]);
            } else {
                assert(all.last() == accounts[i].storefront);
            }
        }
    }
}

/// Every storefront that counts is that of an active account.
pub proof fn every_storefront_has_an_active_account(accounts: Seq<LinkedAccount>, k: int)
    requires
        0 <= k < active_storefronts(accounts).len(),
    ensures
        exists|i: int|
            0 <= i < accounts.len() && (#[trigger] accounts[i]).auth_state == AuthState::Active
                && accounts[i].storefront == active_storefronts(accounts)[k],
    decreases accounts.len(),
{
    let before = accounts.drop_last();
    let some = active_storefronts(before);
    if k < some.len() {
        every_storefront_has_an_active_account(before, k);
        let i = choose|i: int|
            0 <= i < before.len() && (#[trigger] before[i]).auth_state == AuthState::Active
                && before[i].storefront == some[k];
        assert(accounts[i] == before[i]);
    } else {
        assert(accounts[accounts.len() - 1].storefront == active_storefronts(accounts)[k]);
    }
}

/// The record of a game changes its install state and nothing else, and no record changes
/// nothing at all.
pub proof fn record_changes_the_install_state<S, D>(game: Game<S, D>, record: Option<S>)
    ensures
        with_record(game, record).id == game.id,
        with_record(game, record).storefront == game.storefront,
        with_record(game, record).details == game.details,
        with_record(game, record).install_state == match record {
            Some(state) => Some(state),
            None => game.install_state,
        },
{
}

/// Games with their records are the same games in the same places. One whose storefront is
/// not known stays as it is; the record of one whose storefront is known is the one that
/// comes next, where there are as many records as such games.
pub proof fn records_go_to_their_games<S, D>(games: Seq<Game<S, D>>, found: Seq<Option<S>>, k: int)
    requires
        0 <= k < games.len(),
        found.len() == known_games(games),
    ensures
        with_records(games, found).len() == games.len(),
        with_records(games, found)[k].id == games[k].id,
        with_records(games, found)[k].storefront == games[k].storefront,
        with_records(games, found)[k].details == games[k].details,
        games[k].storefront.name is None ==> with_records(games, found)[k].install_state
            == games[k].install_state,
        games[k].storefront.name is Some ==> ({
            let before = known_games(games.take(k));
            &&& before < found.len()
            &&& with_records(games, found)[k].install_state == match found[before as int] {
                Some(state) => Some(state),
                None => games[k].install_state,
            }
        }),
    decreases games.len(),
{
    reveal(Seq::filter);
    let front = games.drop_last();
    let rest = if games.last().storefront.name is None {
        found
    } else {
        found.drop_last()
    };
    lemma_with_records_len(front, rest);
    if k < front.len() {
        records_go_to_their_games(front, rest, k);
        assert(front.take(k) =~= games.take(k));
        assert(with_records(games, found)[k] == with_records(front, rest)[k]);
    } else {
        assert(games.take(k) =~= front);
    }
}

impl<S, D> ListGames<S, D> {
    /// The profile whose games are listed, while they are.
    pub open spec fn profile_id(self) -> Option<String> {
        match self {
            ListGames::GetProfile(profile_id) => Some(profile_id),
            ListGames::Reach(listing, _) => Some(listing.profile_id),
            ListGames::List(listing, _) => Some(listing.profile_id),
            ListGames::Lookup(marking, _, _) => Some(marking.profile_id),
            ListGames::Done(_) => None,
        }
    }
}

proof fn lemma_at_known_profile<S, D>(marking: MarkingView<S, D>)
    ensures
        marking.at_known().profile_id == marking.profile_id,
    decreases marking.rest.len(),
{
    if marking.rest.len() > 0 && marking.rest[0].storefront.name is None {
        lemma_at_known_profile(
            MarkingView {
                marked: marking.marked.push(marking.rest[0]),
                rest: marking.rest.skip(1),
                ..marking
            },
        );
    }
}

/// Everything that a list asks for is about the profile of the request.
pub proof fn list_stays_with_its_profile<S, D>(
    profile_id: String,
    states: Seq<ListGames<S, D>>,
    events: Seq<ListEvent<S, D>>,
    i: int,
)
    requires
        is_run(states, events),
        states[0] == ListGames::<S, D>::GetProfile(profile_id),
        0 <= i < states.len(),
    ensures
        states[i] is Done || states[i].profile_id() == Some(profile_id),
    decreases i,
{
    if i > 0 {
        list_stays_with_its_profile(profile_id, states, events, i - 1);
        assert(states[i - 1].awaits(events[i - 1]));
        match (states[i - 1], events[i - 1]) {
            (ListGames::GetProfile(id), ListEvent::Profile(Ok(accounts))) => {
                lemma_at_known_profile(
                    MarkingView::<S, D> { profile_id: id, marked: seq![], rest: seq![] },
                );
            },
            (ListGames::Reach(listing, _), ListEvent::Reached(_)) => {
                lemma_at_known_profile(
                    MarkingView {
                        profile_id: listing@.profile_id,
                        marked: seq![],
                        rest: listing@.games,
                    },
                );
            },
            (ListGames::List(listing, _), ListEvent::Listed(Ok(games))) => {
                lemma_at_known_profile(
                    MarkingView {
                        profile_id: listing@.profile_id,
                        marked: seq![],
                        rest: listing@.games + games@,
                    },
                );
            },
            (ListGames::List(listing, _), ListEvent::Listed(Err(_))) => {
                lemma_at_known_profile(
                    MarkingView {
                        profile_id: listing@.profile_id,
                        marked: seq![],
                        rest: listing@.games,
                    },
                );
            },
            (ListGames::Lookup(marking, game, _), ListEvent::Record(record)) => {
                lemma_at_known_profile(
                    MarkingView {
                        marked: marking@.marked.push(with_record(game, record)),
                        ..marking@
                    },
                );
            },
            _ => {},
        }
    }
}

/// A plugin is asked to list games exactly where it was connected, and it is the plugin
/// that was to be reached.
pub proof fn connected_plugins_list_their_games<S, D>(
    profile_id: String,
    states: Seq<ListGames<S, D>>,
    events: Seq<ListEvent<S, D>>,
    i: int,
)
    requires
        is_run(states, events),
        states[0] == ListGames::<S, D>::GetProfile(profile_id),
        0 < i < states.len(),
    ensures
        states[i] is List <==> (states[i - 1] is Reach && events[i - 1] == ListEvent::<
            S,
            D,
        >::Reached(Reach::Connected)),
        states[i] matches ListGames::List(_, storefront) ==> (states[i - 1] matches
            ListGames::Reach(_, reached) && reached == storefront),
{
    assert(states[i - 1].awaits(events[i - 1]));
}

/// A record is looked up for a game whose storefront is known, under the number and the
/// name that the game gives.
pub proof fn records_are_looked_up_by_the_games_storefront<S, D>(
    profile_id: String,
    states: Seq<ListGames<S, D>>,
    events: Seq<ListEvent<S, D>>,
    i: int,
)
    requires
        is_run(states, events),
        states[0] == ListGames::<S, D>::GetProfile(profile_id),
        0 <= i < states.len(),
    ensures
        states[i] matches ListGames::Lookup(_, game, storefront) ==> game.storefront.number
            == storefront.number && game.storefront.name == Some(storefront.name),
{
    if i > 0 {
        assert(states[i - 1].awaits(events[i - 1]));
    }
}

/// A watch stays with the profile of the request, forwards exactly the storefronts that
/// were connected, and fails only where the profile cannot be read.
pub proof fn watch_stays_with_its_profile(
    profile_id: String,
    states: Seq<WatchGames>,
    events: Seq<WatchEvent>,
    i: int,
)
    requires
        is_run(states, events),
        states[0] == WatchGames::GetProfile(profile_id),
        0 <= i < states.len(),
    ensures
        match states[i] {
            WatchGames::GetProfile(id) => id == profile_id,
            WatchGames::Reach(watching, _) => watching.profile_id == profile_id,
            WatchGames::Forward(watching, storefront) => watching.profile_id == profile_id && i > 0
                && events[i - 1] == WatchEvent::Reached(Reach::Connected) && (states[i - 1] matches
                WatchGames::Reach(_, reached) && reached == storefront),
            WatchGames::Done(Ok(_)) => true,
            WatchGames::Done(Err(status)) => i == 1 && events[0] == WatchEvent::Profile(
                Err(status),
            ),
        },
        i > 0 && states[i - 1] is Reach && events[i - 1] == WatchEvent::Reached(Reach::Connected)
            ==> states[i] is Forward,
    decreases i,
{
    if i > 0 {
        watch_stays_with_its_profile(profile_id, states, events, i - 1);
        assert(states[i - 1].awaits(events[i - 1]));
        if i > 1 {
            assert(states[i - 2].awaits(events[i - 2]));
        }
    }
}

/// A list and a watch begin with the profile as it is.
pub proof fn listing_and_watching_begin_with_the_profile<S, D>(
    profile_id: String,
    list: ListGames<S, D>,
    watch: WatchGames,
)
    requires
        call_ensures(ListGames::<S, D>::begin, (profile_id,), list),
        call_ensures(WatchGames::begin, (profile_id,), watch),
    ensures
        list == ListGames::<S, D>::GetProfile(profile_id),
        watch == WatchGames::GetProfile(profile_id),
{
}

/// An account alone counts exactly where it is active.
pub proof fn account_alone_counts_where_it_is_active(account: LinkedAccount)
    ensures
        account.auth_state == AuthState::Active ==> active_storefronts(seq![account]) == seq![
            account.storefront,
        ],
        account.auth_state != AuthState::Active ==> active_storefronts(seq![account]).len() == 0,
{
    let one = seq![account];
    assert(one.drop_last() =~= seq![]);
    assert(active_storefronts(one.drop_last()) =~= seq![]);
    if account.auth_state == AuthState::Active {
        assert(active_storefronts(one) =~= seq![account.storefront]);
    }
}

/// Whatever comes of a step of a list or a watch is awaited there, and nothing is awaited
/// once the call is answered.
pub proof fn games_await_every_outcome<S, D>(
    list: ListGames<S, D>,
    watch: WatchGames,
    accounts: Result<Vec<LinkedAccount>, Status>,
    reach: Reach,
    games: Result<Vec<Game<S, D>>, Status>,
    record: Option<S>,
    listing: ListEvent<S, D>,
    watching: WatchEvent,
)
    ensures
        list is GetProfile <==> list.awaits(ListEvent::Profile(accounts)),
        list is Reach <==> list.awaits(ListEvent::Reached(reach)),
        list is List <==> list.awaits(ListEvent::Listed(games)),
        list is Lookup <==> list.awaits(ListEvent::Record(record)),
        list is Done ==> !list.awaits(listing),
        watch is GetProfile <==> watch.awaits(WatchEvent::Profile(accounts)),
        watch is Reach <==> watch.awaits(WatchEvent::Reached(reach)),
        watch is Forward <==> watch.awaits(WatchEvent::Forwarding),
        watch is Done ==> !watch.awaits(watching),
{
}

/// An event that a list of games does not wait for changes nothing.
pub proof fn stray_events_do_not_touch_a_list<S, D>(state: ListGames<S, D>, event: ListEvent<S, D>, next: ListGames<S, D>)
    requires
        !state.awaits(event),
        state.stepped(event, next),
    ensures
        next == state,
{
}

/// An event that a watch of games does not wait for changes nothing.
pub proof fn stray_events_do_not_touch_a_watch(state: WatchGames, event: WatchEvent, next: WatchGames)
    requires
        !state.awaits(event),
        state.stepped(event, next),
    ensures
        next == state,
{
}

} // verus!
