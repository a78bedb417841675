use convoy::controller::{ActionMode, Message, State};
use convoy::coord::Coord;
use convoy::pieces::PieceType;
use convoy::Player;

fn at(rank: usize, file: usize) -> Coord {
    Coord::new(rank, file).unwrap()
}

#[test]
fn starts_in_move_mode() {
    let state = State::default();
    assert_eq!(state.action_mode(), ActionMode::Move(None));
    assert_eq!(ActionMode::default(), ActionMode::Move(None));
    assert_eq!(state.game().cur_player(), Player::P1);
}

#[test]
fn pick_and_unpick_kind() {
    let mut state = State::default();
    state.update(Message::ChangeActionMode(ActionMode::Purchase(None)));
    state.update(Message::ChangePieceType(PieceType::Infantry));
    assert_eq!(state.action_mode(), ActionMode::Purchase(Some(PieceType::Infantry)));
    state.update(Message::ChangePieceType(PieceType::Convoy));
    assert_eq!(state.action_mode(), ActionMode::Purchase(Some(PieceType::Convoy)));
    state.update(Message::ChangePieceType(PieceType::Convoy));
    assert_eq!(state.action_mode(), ActionMode::Purchase(None));
}

#[test]
fn kind_ignored_outside_purchase_mode() {
    let mut state = State::default();
    state.update(Message::ChangePieceType(PieceType::Infantry));
    assert_eq!(state.action_mode(), ActionMode::Move(None));
}

#[test]
fn purchase_by_clicks() {
    let mut state = State::default();
    state.update(Message::ChangeActionMode(ActionMode::Purchase(None)));
    state.update(Message::ChangePieceType(PieceType::Infantry));
    state.update(Message::TileClicked(0, 2));
    assert_eq!(state.game()[Player::P1], 1);
    assert!(state.game().board().get(at(0, 2)).piece_option.is_some());
    // one coin left: the picked kind is dropped
    assert_eq!(state.action_mode(), ActionMode::Purchase(None));
}

#[test]
fn purchase_keeps_kind_while_affordable() {
    let mut state = State::default();
    state.update(Message::EndTurn);
    state.update(Message::EndTurn);
    assert_eq!(state.game()[Player::P1], 5);
    state.update(Message::ChangeActionMode(ActionMode::Purchase(None)));
    state.update(Message::ChangePieceType(PieceType::Infantry));
    state.update(Message::TileClicked(0, 2));
    assert_eq!(state.game()[Player::P1], 3);
    assert_eq!(state.action_mode(), ActionMode::Purchase(Some(PieceType::Infantry)));
}

#[test]
fn move_by_clicks() {
    let mut state = State::default();
    state.update(Message::ChangeActionMode(ActionMode::Purchase(None)));
    state.update(Message::ChangePieceType(PieceType::Infantry));
    state.update(Message::TileClicked(0, 2));
    state.update(Message::ChangeActionMode(ActionMode::Move(None)));
    state.update(Message::TileClicked(0, 2));
    assert_eq!(state.action_mode(), ActionMode::Move(Some(at(0, 2))));
    state.update(Message::TileClicked(1, 2));
    assert_eq!(state.action_mode(), ActionMode::Move(None));
    assert!(state.game().board().get(at(0, 2)).piece_option.is_none());
    assert!(state.game().board().get(at(1, 2)).piece_option.is_some());
}

#[test]
fn clicking_picked_piece_unpicks() {
    let mut state = State::default();
    state.update(Message::TileClicked(4, 4));
    assert_eq!(state.action_mode(), ActionMode::Move(Some(at(4, 4))));
    state.update(Message::TileClicked(4, 4));
    assert_eq!(state.action_mode(), ActionMode::Move(None));
}

#[test]
fn end_turn_resets_mode() {
    let mut state = State::default();
    state.update(Message::ChangeActionMode(ActionMode::Battle));
    state.update(Message::TileClicked(3, 3));
    assert_eq!(state.action_mode(), ActionMode::Battle);
    state.update(Message::EndTurn);
    assert_eq!(state.action_mode(), ActionMode::Move(None));
    assert_eq!(state.game().cur_player(), Player::P2);
    assert_eq!(state.game()[Player::P1], 5);
}
