use vstd::prelude::*;

verus! {

/// Messages sent from the server to clients about the game state.
#[derive(Clone, Copy, Debug, PartialEq, Eq, Structural)]
pub enum ServerStateEvent {
    GoInGame,
    ReturnToLobby,
    PauseFighting,
    ResumeFighting,
    MoveToBreak,
    BreakToFighting,
}

/// The top-level state of a game session.
#[derive(Clone, Copy, Debug, PartialEq, Eq, Structural)]
pub enum GameState {
    Setup,
    ChoosingClass,
    InGame,
}

/// The state inside a running game.
#[derive(Clone, Copy, Debug, PartialEq, Eq, Structural)]
pub enum InGameState {
    NotInGame,
    Fighting,
    Break,
    Paused,
}

impl Default for GameState {
    fn default() -> (r: Self)
        ensures r == GameState::Setup,
    {
        GameState::Setup
    }
}

impl Default for InGameState {
    fn default() -> (r: Self)
        ensures r == InGameState::NotInGame,
    {
        InGameState::NotInGame
    }
}

/// The state changes requested for the next frame; a later request for the
/// same state replaces an earlier one, and `None` leaves the state as it is.
#[derive(Clone, Copy, Debug, PartialEq, Eq, Structural)]
pub struct NextStates {
    pub game: Option<GameState>,
    pub in_game: Option<InGameState>,
}

impl NextStates {
    pub fn none() -> (r: NextStates)
        ensures r == NextStates::spec_none(),
    {
        NextStates { game: None, in_game: None }
    }

    pub open spec fn spec_none() -> NextStates {
        NextStates { game: None, in_game: None }
    }
}

/// What a client requests on receiving `event` while in `cur` / `cur_ig`:
/// the new game state and the new in-game state, each `None` where the
/// event requests no change (an event that does not fit the current state
/// is ignored entirely).
pub open spec fn event_request(cur: GameState, cur_ig: InGameState, event: ServerStateEvent) -> (Option<GameState>, Option<InGameState>) {
    match event {
        ServerStateEvent::GoInGame =>
            if cur == GameState::InGame { (None, None) }
            else { (Some(GameState::InGame), Some(InGameState::Fighting)) },
        ServerStateEvent::ReturnToLobby =>
            if cur == GameState::ChoosingClass { (None, None) }
            else if cur_ig != InGameState::NotInGame { (Some(GameState::ChoosingClass), Some(InGameState::NotInGame)) }
            else { (Some(GameState::ChoosingClass), None) },
        ServerStateEvent::PauseFighting =>
            if cur == GameState::InGame && cur_ig == InGameState::Fighting { (None, Some(InGameState::Paused)) }
            else { (None, None) },
        ServerStateEvent::ResumeFighting =>
            if cur == GameState::InGame && cur_ig == InGameState::Paused { (None, Some(InGameState::Fighting)) }
            else { (None, None) },
        ServerStateEvent::MoveToBreak =>
            if cur == GameState::InGame && (cur_ig == InGameState::Paused || cur_ig == InGameState::Fighting) {
                (None, Some(InGameState::Break))
            } else { (None, None) },
        ServerStateEvent::BreakToFighting =>
            if cur == GameState::InGame && cur_ig == InGameState::Break { (None, Some(InGameState::Fighting)) }
            else { (None, None) },
    }
}

/// `next` after the requests of one event.
pub open spec fn apply_request(next: NextStates, request: (Option<GameState>, Option<InGameState>)) -> NextStates {
    NextStates {
        game: if request.0 is Some { request.0 } else { next.game },
        in_game: if request.1 is Some { request.1 } else { next.in_game },
    }
}

/// `next` after the requests of every event of one frame, in order. All of
/// them are judged against the state the frame started in.
pub open spec fn receive_all(cur: GameState, cur_ig: InGameState, events: Seq<ServerStateEvent>, next: NextStates) -> NextStates
    decreases events.len(),
{
    if events.len() == 0 {
        next
    } else {
        apply_request(
            receive_all(cur, cur_ig, events.drop_last(), next),
            event_request(cur, cur_ig, events.last()),
        )
    }
}

/// The states a frame ends in, given the requests made during it.
pub open spec fn settle(cur: GameState, cur_ig: InGameState, next: NextStates) -> (GameState, InGameState) {
    (
        match next.game { Some(g) => g, None => cur },
        match next.in_game { Some(g) => g, None => cur_ig },
    )
}

/// A game state and an in-game state fit together: the in-game state is
/// `NotInGame` exactly when no game is running.
pub open spec fn consistent(g: GameState, ig: InGameState) -> bool {
    (g == GameState::InGame) <==> (ig != InGameState::NotInGame)
}

fn receive_one(cur_state: GameState, cur_ig_state: InGameState, event: ServerStateEvent, next: &mut NextStates)
    ensures
        *final(next) == apply_request(*old(next), event_request(cur_state, cur_ig_state, event)),
{
    match event {
        ServerStateEvent::GoInGame => {
            if cur_state == GameState::InGame {
                return;
            }
            next.game = Some(GameState::InGame);
            next.in_game = Some(InGameState::Fighting);
        },
        ServerStateEvent::ReturnToLobby => {
            if cur_state == GameState::ChoosingClass {
                return;
            }
            next.game = Some(GameState::ChoosingClass);
            if cur_ig_state != InGameState::NotInGame {
                next.in_game = Some(InGameState::NotInGame);
            }
        },
        ServerStateEvent::PauseFighting => {
            if cur_state != GameState::InGame {
                return;
            }
            if cur_ig_state != InGameState::Fighting {
                return;
            }
            next.in_game = Some(InGameState::Paused);
        },
        ServerStateEvent::ResumeFighting => {
            if cur_state != GameState::InGame {
                return;
            }
            if cur_ig_state != InGameState::Paused {
                return;
            }
            next.in_game = Some(InGameState::Fighting);
        },
        ServerStateEvent::MoveToBreak => {
            if cur_state != GameState::InGame {
                return;
            }
            if cur_ig_state != InGameState::Paused && cur_ig_state != InGameState::Fighting {
                return;
            }
            next.in_game = Some(InGameState::Break);
        },
        ServerStateEvent::BreakToFighting => {
            if cur_state != GameState::InGame {
                return;
            }
            if cur_ig_state != InGameState::Break {
                return;
            }
            next.in_game = Some(InGameState::Fighting);
        },
    }
}

/// Handles the state events a client received from the server this frame:
/// each event requests the state changes that `event_request` gives, judged
/// against the states the frame started in; events that do not fit those
/// states are ignored.
pub fn c_receive_state_event(
    cur_state: GameState,
    cur_ig_state: InGameState,
    events: &Vec<ServerStateEvent>,
    next: &mut NextStates,
)
    ensures
        *final(next) == receive_all(cur_state, cur_ig_state, events@, *old(next)),
{
    let mut i: usize = 0;
    while i < events.len()
        invariant
            i <= events.len(),
            *next == receive_all(cur_state, cur_ig_state, events@.take(i as int), *old(next)),
        decreases events.len() - i,
    {
        assert(events@.take(i + 1).drop_last() =~= events@.take(i as int));
        receive_one(cur_state, cur_ig_state, events[i], next);
        i = i + 1;
    }
    assert(events@.take(events.len() as int) =~= events@);
}

/// Run on entering `GameState::InGame`: the fighting starts.
pub fn begin_fighting(next: &mut NextStates)
    ensures
        *final(next) == (NextStates { in_game: Some(InGameState::Fighting), ..*old(next) }),
{
    next.in_game = Some(InGameState::Fighting);
}

/// Run on leaving `GameState::InGame`: the in-game state returns to `NotInGame`.
pub fn leave_in_game_state(next: &mut NextStates)
    ensures
        *final(next) == (NextStates { in_game: Some(InGameState::NotInGame), ..*old(next) }),
{
    next.in_game = Some(InGameState::NotInGame);
}

/// Once every outstanding asset has loaded, the session moves on to choosing
/// a class; until then nothing changes. `loaded[i]` tells whether the i-th
/// outstanding asset has finished loading.
pub fn wait_for_assets(loaded: &Vec<bool>, next: &mut NextStates)
    ensures
        (forall|i: int| 0 <= i < loaded@.len() ==> loaded@[i]) ==>
            *final(next) == (NextStates { game: Some(GameState::ChoosingClass), ..*old(next) }),
        !(forall|i: int| 0 <= i < loaded@.len() ==> loaded@[i]) ==> *final(next) == *old(next),
{
    let mut i: usize = 0;
    while i < loaded.len()
        invariant
            i <= loaded.len(),
            forall|j: int| 0 <= j < i ==> loaded@[j],
        decreases loaded.len() - i,
    {
        if !loaded[i] {
            return;
        }
        i = i + 1;
    }
    next.game = Some(GameState::ChoosingClass);
}

/// A frame with a single state event keeps the game state and the in-game
/// state consistent with each other.
pub proof fn lemma_single_event_keeps_states_consistent(g: GameState, ig: InGameState, event: ServerStateEvent)
    requires
        consistent(g, ig),
    ensures
        ({
            let next = receive_all(g, ig, seq![event], NextStates::spec_none());
            let (g2, ig2) = settle(g, ig, next);
            consistent(g2, ig2)
        }),
{
    reveal_with_fuel(receive_all, 2);
    let s = seq![event];
    assert(s.drop_last() =~= Seq::<ServerStateEvent>::empty());
}

/// A frame that pauses followed by a frame that resumes changes no game
/// state, returns a fight to fighting and leaves every in-game state but a
/// pause as it was.
pub proof fn lemma_pause_then_resume(g: GameState, ig: InGameState)
    ensures
        ({
            let (g1, ig1) = settle(g, ig, receive_all(g, ig, seq![ServerStateEvent::PauseFighting], NextStates::spec_none()));
            let (g2, ig2) = settle(g1, ig1, receive_all(g1, ig1, seq![ServerStateEvent::ResumeFighting], NextStates::spec_none()));
            &&& g2 == g
            &&& (g == GameState::InGame && ig == InGameState::Fighting) ==> ig1 == InGameState::Paused && ig2 == InGameState::Fighting
            &&& ig != InGameState::Paused ==> ig2 == ig
        }),
{
    reveal_with_fuel(receive_all, 2);
    assert(seq![ServerStateEvent::PauseFighting].drop_last() =~= Seq::<ServerStateEvent>::empty());
    assert(seq![ServerStateEvent::ResumeFighting].drop_last() =~= Seq::<ServerStateEvent>::empty());
}

/// An event that arrives twice in a row in the same frame requests nothing
/// more than it did the first time.
pub proof fn lemma_repeated_event_is_idempotent(
    g: GameState, ig: InGameState, events: Seq<ServerStateEvent>, event: ServerStateEvent, next: NextStates,
)
    ensures
        receive_all(g, ig, events.push(event).push(event), next) == receive_all(g, ig, events.push(event), next),
{
    assert(events.push(event).push(event).drop_last() =~= events.push(event));
    assert(events.push(event).drop_last() =~= events);
}

/// An event that does not fit the state the frame started in leaves the
/// requested changes as they were.
pub proof fn lemma_ignored_event_changes_nothing(
    g: GameState, ig: InGameState, events: Seq<ServerStateEvent>, event: ServerStateEvent, next: NextStates,
)
    requires
        event_request(g, ig, event) == (None::<GameState>, None::<InGameState>),
    ensures
        receive_all(g, ig, events.push(event), next) == receive_all(g, ig, events, next),
{
    assert(events.push(event).drop_last() =~= events);
}


/// Where a frame with a single state event leaves the client. Going in game
/// starts fighting, unless a game is already running. Returning to the lobby
/// leaves any game for class choice, unless the client is choosing a class
/// already. Pausing stops a fight; resuming resumes a paused fight; a break
/// comes from a fight or a pause; a break ends in fighting. Any other event
/// leaves the client where it is.
pub proof fn lemma_single_event_outcome(g: GameState, ig: InGameState, event: ServerStateEvent)
    ensures
        settle(g, ig, receive_all(g, ig, seq![event], NextStates::spec_none())) == match event {
            ServerStateEvent::GoInGame =>
                if g == GameState::InGame { (g, ig) } else { (GameState::InGame, InGameState::Fighting) },
            ServerStateEvent::ReturnToLobby =>
                if g == GameState::ChoosingClass { (g, ig) } else { (GameState::ChoosingClass, InGameState::NotInGame) },
            ServerStateEvent::PauseFighting =>
                if g == GameState::InGame && ig == InGameState::Fighting { (g, InGameState::Paused) } else { (g, ig) },
            ServerStateEvent::ResumeFighting =>
                if g == GameState::InGame && ig == InGameState::Paused { (g, InGameState::Fighting) } else { (g, ig) },
            ServerStateEvent::MoveToBreak =>
                if g == GameState::InGame && (ig == InGameState::Fighting || ig == InGameState::Paused) {
                    (g, InGameState::Break)
                } else {
                    (g, ig)
                },
            ServerStateEvent::BreakToFighting =>
                if g == GameState::InGame && ig == InGameState::Break { (g, InGameState::Fighting) } else { (g, ig) },
        },
{
    reveal_with_fuel(receive_all, 2);
    assert(seq![event].drop_last() =~= Seq::<ServerStateEvent>::empty());
}

} // verus!
