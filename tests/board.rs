use convoy::board::Board;
use convoy::coord::Coord;
use convoy::pieces::{Piece, PieceType};
use convoy::tile::{Tile, TileType};
use convoy::Player;

fn at(rank: usize, file: usize) -> Coord {
    Coord::new(rank, file).unwrap()
}

fn occupied(owner: Player, piece_type: PieceType) -> Tile {
    Tile { piece_option: Some(Piece::new(owner, piece_type)), tile_type: TileType::Regular }
}

#[test]
fn starting_board_layout() {
    let board = Board::new();
    assert_eq!(board.iter().len(), 64);
    for file in 0..8 {
        assert_eq!(board.get(at(0, file)).tile_type, TileType::Baseline(Player::P1));
        assert_eq!(board.get(at(7, file)).tile_type, TileType::Baseline(Player::P2));
        for rank in 1..7 {
            assert_eq!(board.get(at(rank, file)).tile_type, TileType::Regular);
        }
    }
    assert!(board.iter().iter().all(|t| t.piece_option.is_none()));
    assert_eq!(Board::default(), board);
}

#[test]
fn rows_follow_ranks() {
    let mut board = Board::new();
    board.set(at(2, 5), Tile { piece_option: None, tile_type: TileType::Town });
    let rows = board.rows();
    assert_eq!(rows.len(), 8);
    assert!(rows.iter().all(|r| r.len() == 8));
    assert_eq!(rows[2][5].tile_type, TileType::Town);
    assert_eq!(rows[0][0].tile_type, TileType::Baseline(Player::P1));
    assert_eq!(rows[7][3].tile_type, TileType::Baseline(Player::P2));
}

#[test]
fn set_then_get() {
    let mut board = Board::new();
    let t = occupied(Player::P1, PieceType::Recon);
    board.set(at(4, 4), t);
    assert_eq!(board.get(at(4, 4)), t);
    assert_eq!(board.iter()[4 * 8 + 4], t);
    assert_eq!(board.get(at(4, 5)), Tile::default());
}

#[test]
fn neighbours_in_order() {
    let mut board = Board::new();
    board.set(at(4, 3), occupied(Player::P1, PieceType::Infantry));
    board.set(at(2, 3), occupied(Player::P1, PieceType::Convoy));
    board.set(at(3, 4), occupied(Player::P2, PieceType::Recon));
    board.set(at(3, 2), occupied(Player::P2, PieceType::Artillery));
    let n = board.get_neighbours(at(3, 3));
    let kinds: Vec<PieceType> = n.iter().map(|t| t.piece_option.unwrap().piece_type).collect();
    assert_eq!(
        kinds,
        vec![PieceType::Infantry, PieceType::Convoy, PieceType::Recon, PieceType::Artillery]
    );
}

#[test]
fn neighbours_of_corner_and_edge() {
    let board = Board::new();
    assert_eq!(board.get_neighbours(at(0, 0)).len(), 2);
    assert_eq!(board.get_neighbours(at(7, 7)).len(), 2);
    assert_eq!(board.get_neighbours(at(0, 4)).len(), 3);
    assert_eq!(board.get_neighbours(at(4, 4)).len(), 4);
}

#[test]
fn no_moves_from_empty_tile() {
    let board = Board::new();
    assert!(board.get_moves(at(3, 3)).is_none());
}

#[test]
fn infantry_moves_two_steps() {
    let mut board = Board::new();
    board.set(at(0, 0), occupied(Player::P1, PieceType::Infantry));
    let moves = board.get_moves(at(0, 0)).unwrap();
    assert_eq!(moves, vec![at(0, 1), at(0, 2), at(1, 0), at(1, 1), at(2, 0)]);
}

#[test]
fn recon_moves_four_steps() {
    let mut board = Board::new();
    board.set(at(3, 3), occupied(Player::P1, PieceType::Recon));
    let moves = board.get_moves(at(3, 3)).unwrap();
    assert_eq!(moves.len(), 38);
    let start = at(3, 3);
    assert!(moves.iter().all(|m| start.distance(*m) >= 1 && start.distance(*m) <= 4));
    assert!(!moves.contains(&start));
}

#[test]
fn occupied_tiles_block_paths() {
    let mut board = Board::new();
    board.set(at(0, 0), occupied(Player::P1, PieceType::Convoy));
    board.set(at(1, 0), occupied(Player::P1, PieceType::Infantry));
    board.set(at(0, 1), occupied(Player::P2, PieceType::Infantry));
    assert_eq!(board.get_moves(at(0, 0)), Some(vec![]));
}

#[test]
fn paths_go_around_pieces() {
    let mut board = Board::new();
    board.set(at(3, 3), occupied(Player::P1, PieceType::Infantry));
    board.set(at(4, 3), occupied(Player::P2, PieceType::Infantry));
    let moves = board.get_moves(at(3, 3)).unwrap();
    assert!(!moves.contains(&at(4, 3)));
    // two steps straight up are blocked; the square is not reachable in two steps around
    assert!(!moves.contains(&at(5, 3)));
    assert!(moves.contains(&at(4, 4)));
    assert!(moves.contains(&at(1, 3)));
    assert_eq!(moves.len(), 10);
}

#[test]
fn piece_moves_match_board_moves() {
    let mut board = Board::new();
    let piece = Piece::new(Player::P2, PieceType::Convoy);
    board.set(at(7, 7), Tile { piece_option: Some(piece), tile_type: TileType::Baseline(Player::P2) });
    let from_piece = piece.get_moves(at(7, 7), &board);
    assert_eq!(board.get_moves(at(7, 7)), Some(from_piece.clone()));
    assert_eq!(from_piece.len(), 9);
}

#[test]
fn from_tiles_checks_size() {
    let board = Board::new();
    let tiles = board.iter().to_vec();
    assert_eq!(Board::from_tiles(tiles), Some(board));
    assert_eq!(Board::from_tiles(vec![Tile::default(); 63]), None);
}

#[test]
fn tile_predicates() {
    let town = Tile { piece_option: None, tile_type: TileType::Town };
    let base1 = Tile { piece_option: None, tile_type: TileType::Baseline(Player::P1) };
    let plain = Tile::default();
    assert!(town.gives_income());
    assert!(!base1.gives_income());
    assert!(town.has_supplies(Player::P1) && town.has_supplies(Player::P2));
    assert!(base1.has_supplies(Player::P1) && !base1.has_supplies(Player::P2));
    assert!(!plain.has_supplies(Player::P1));
    assert!(base1.produces_troops(Player::P1));
    assert!(!base1.produces_troops(Player::P2));
    assert!(!town.produces_troops(Player::P1));
    assert_eq!(plain.tile_type, TileType::Regular);
}

#[test]
fn index_by_square() {
    let mut board = Board::new();
    let t = occupied(Player::P2, PieceType::Artillery);
    board.set(at(6, 1), t);
    assert_eq!(board[at(6, 1)], t);
    assert_eq!(board[at(7, 1)].tile_type, TileType::Baseline(Player::P2));
}
