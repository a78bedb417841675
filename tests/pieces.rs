use convoy::coord::Coord;
use convoy::pieces::{Piece, PieceType};
use convoy::Player;

#[test]
fn costs_of_each_kind() {
    assert_eq!(PieceType::Infantry.cost(), 2);
    assert_eq!(PieceType::Convoy.cost(), 3);
    assert_eq!(PieceType::Artillery.cost(), 4);
    assert_eq!(PieceType::Recon.cost(), 4);
}

#[test]
fn powers_of_each_kind() {
    assert_eq!(PieceType::Convoy.power(), 0);
    assert_eq!(PieceType::Infantry.power(), 2);
    assert_eq!(PieceType::Artillery.power(), 2);
    assert_eq!(PieceType::Recon.power(), 1);
}

#[test]
fn speeds_of_each_kind() {
    assert_eq!(PieceType::Convoy.speed(), 3);
    assert_eq!(PieceType::Infantry.speed(), 2);
    assert_eq!(PieceType::Artillery.speed(), 2);
    assert_eq!(PieceType::Recon.speed(), 4);
}

#[test]
fn ranges_of_each_kind() {
    assert_eq!(PieceType::Artillery.range(), 2..=3);
    assert_eq!(PieceType::Convoy.range(), 0..=0);
    assert_eq!(PieceType::Infantry.range(), 1..=1);
    assert_eq!(PieceType::Recon.range(), 1..=1);
}

#[test]
fn labels_of_each_kind() {
    assert_eq!(PieceType::Artillery.to_string(), "A");
    assert_eq!(PieceType::Convoy.to_string(), "C");
    assert_eq!(PieceType::Infantry.to_string(), "I");
    assert_eq!(PieceType::Recon.label(), 'R');
}

#[test]
fn new_piece_is_exhausted() {
    let p = Piece::new(Player::P2, PieceType::Convoy);
    assert_eq!(p.owner, Player::P2);
    assert!(p.exhausted);
    assert_eq!(p.piece_type, PieceType::Convoy);
}

#[test]
fn coord_bounds() {
    assert!(Coord::new(0, 0).is_some());
    assert!(Coord::new(7, 7).is_some());
    assert!(Coord::new(8, 0).is_none());
    assert!(Coord::new(0, 8).is_none());
    let c = Coord::new(3, 5).unwrap();
    assert_eq!(c.rank(), 3);
    assert_eq!(c.file(), 5);
}

#[test]
fn coord_distance_is_manhattan() {
    let a = Coord::new(0, 0).unwrap();
    let b = Coord::new(3, 4).unwrap();
    assert_eq!(a.distance(b), 7);
    assert_eq!(b.distance(a), 7);
    assert_eq!(b.distance(b), 0);
    let c = Coord::new(7, 0).unwrap();
    let d = Coord::new(0, 7).unwrap();
    assert_eq!(c.distance(d), 14);
}

#[test]
fn coord_names() {
    assert_eq!(Coord::new(0, 3).unwrap().to_string(), "A3");
    assert_eq!(Coord::new(7, 7).unwrap().to_string(), "H7");
    assert_eq!(Coord::new(2, 0).unwrap().to_string(), "C0");
}

#[test]
fn player_other() {
    assert_eq!(Player::P1.other(), Player::P2);
    assert_eq!(Player::P2.other(), Player::P1);
    assert_eq!(Player::default(), Player::P1);
}

