use simple_game::state::{
    begin_fighting, c_receive_state_event, leave_in_game_state, wait_for_assets, GameState, InGameState, NextStates,
    ServerStateEvent,
};

fn receive(g: GameState, ig: InGameState, events: Vec<ServerStateEvent>) -> NextStates {
    let mut next = NextStates::none();
    c_receive_state_event(g, ig, &events, &mut next);
    next
}

fn settle(g: GameState, ig: InGameState, next: NextStates) -> (GameState, InGameState) {
    (next.game.unwrap_or(g), next.in_game.unwrap_or(ig))
}

#[test]
fn go_in_game_from_lobby() {
    let next = receive(GameState::ChoosingClass, InGameState::NotInGame, vec![ServerStateEvent::GoInGame]);
    assert_eq!(next, NextStates { game: Some(GameState::InGame), in_game: Some(InGameState::Fighting) });
}

#[test]
fn go_in_game_when_in_game_is_ignored() {
    let next = receive(GameState::InGame, InGameState::Fighting, vec![ServerStateEvent::GoInGame]);
    assert_eq!(next, NextStates::none());
}

#[test]
fn return_to_lobby() {
    let next = receive(GameState::InGame, InGameState::Break, vec![ServerStateEvent::ReturnToLobby]);
    assert_eq!(next, NextStates { game: Some(GameState::ChoosingClass), in_game: Some(InGameState::NotInGame) });
    let next = receive(GameState::Setup, InGameState::NotInGame, vec![ServerStateEvent::ReturnToLobby]);
    assert_eq!(next, NextStates { game: Some(GameState::ChoosingClass), in_game: None });
    let next = receive(GameState::ChoosingClass, InGameState::NotInGame, vec![ServerStateEvent::ReturnToLobby]);
    assert_eq!(next, NextStates::none());
}

#[test]
fn pause_and_resume() {
    let next = receive(GameState::InGame, InGameState::Fighting, vec![ServerStateEvent::PauseFighting]);
    let (g, ig) = settle(GameState::InGame, InGameState::Fighting, next);
    assert_eq!((g, ig), (GameState::InGame, InGameState::Paused));
    let next = receive(g, ig, vec![ServerStateEvent::ResumeFighting]);
    assert_eq!(settle(g, ig, next), (GameState::InGame, InGameState::Fighting));
    // Pausing when not fighting, or resuming when not paused, is ignored.
    assert_eq!(receive(GameState::InGame, InGameState::Break, vec![ServerStateEvent::PauseFighting]), NextStates::none());
    assert_eq!(receive(GameState::InGame, InGameState::Fighting, vec![ServerStateEvent::ResumeFighting]), NextStates::none());
    assert_eq!(receive(GameState::ChoosingClass, InGameState::Fighting, vec![ServerStateEvent::PauseFighting]), NextStates::none());
}

#[test]
fn breaks() {
    for ig in [InGameState::Fighting, InGameState::Paused] {
        assert_eq!(receive(GameState::InGame, ig, vec![ServerStateEvent::MoveToBreak]).in_game, Some(InGameState::Break));
    }
    assert_eq!(receive(GameState::InGame, InGameState::Break, vec![ServerStateEvent::MoveToBreak]), NextStates::none());
    assert_eq!(receive(GameState::Setup, InGameState::Fighting, vec![ServerStateEvent::MoveToBreak]), NextStates::none());
    assert_eq!(receive(GameState::InGame, InGameState::Break, vec![ServerStateEvent::BreakToFighting]).in_game, Some(InGameState::Fighting));
    assert_eq!(receive(GameState::InGame, InGameState::Paused, vec![ServerStateEvent::BreakToFighting]), NextStates::none());
}

#[test]
fn all_events_judged_against_starting_state() {
    // Both events fit the starting state; the later request for the in-game state wins.
    let next = receive(GameState::InGame, InGameState::Fighting, vec![ServerStateEvent::PauseFighting, ServerStateEvent::MoveToBreak]);
    assert_eq!(next, NextStates { game: None, in_game: Some(InGameState::Break) });
    // The pause does not make the resume fit: it is judged against Fighting.
    let next = receive(GameState::InGame, InGameState::Fighting, vec![ServerStateEvent::PauseFighting, ServerStateEvent::ResumeFighting]);
    assert_eq!(next, NextStates { game: None, in_game: Some(InGameState::Paused) });
    // Repeating an event changes nothing.
    let a = receive(GameState::InGame, InGameState::Fighting, vec![ServerStateEvent::PauseFighting]);
    let b = receive(GameState::InGame, InGameState::Fighting, vec![ServerStateEvent::PauseFighting, ServerStateEvent::PauseFighting]);
    assert_eq!(a, b);
    assert_eq!(receive(GameState::InGame, InGameState::Fighting, vec![]), NextStates::none());
}

#[test]
fn in_game_hooks() {
    let mut next = NextStates { game: Some(GameState::InGame), in_game: None };
    begin_fighting(&mut next);
    assert_eq!(next, NextStates { game: Some(GameState::InGame), in_game: Some(InGameState::Fighting) });
    leave_in_game_state(&mut next);
    assert_eq!(next, NextStates { game: Some(GameState::InGame), in_game: Some(InGameState::NotInGame) });
}

#[test]
fn waiting_for_assets() {
    let mut next = NextStates::none();
    wait_for_assets(&vec![true, false, true], &mut next);
    assert_eq!(next, NextStates::none());
    wait_for_assets(&vec![true, true], &mut next);
    assert_eq!(next.game, Some(GameState::ChoosingClass));
    let mut next = NextStates::none();
    wait_for_assets(&vec![], &mut next);
    assert_eq!(next.game, Some(GameState::ChoosingClass));
}

#[test]
fn default_states() {
    assert_eq!(GameState::default(), GameState::Setup);
    assert_eq!(InGameState::default(), InGameState::NotInGame);
}
