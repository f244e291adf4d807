use chess::coord::Coord;
use chess::game::{BoardStringParseError, Game, GameErrors, GameState};
use chess::moves::{get_piece_moves, Move, MoveError, StandardMove};
use chess::new_game;
use chess::pieces::{Piece, PieceType, Side};

#[test]
fn coord_round_trip_all() {
    for i in 0..64 {
        let c = Coord::from_index(i);
        let xy = c.get_x_and_y();
        assert!(0 <= xy[0] && xy[0] < 8);
        assert!(0 <= xy[1] && xy[1] < 8);
        assert_eq!(Coord::from_x_and_y(xy[0], xy[1]).get_index(), i);
    }
    for x in 0..8 {
        for y in 0..8 {
            let c = Coord::from_x_and_y(x, y);
            assert!(c.get_index() < 64);
            let xy = c.get_x_and_y();
            assert_eq!(xy[0], x);
            assert_eq!(xy[1], y);
        }
    }
}

#[test]
fn starting_position() {
    let game = new_game();

    let mut total = 0;
    let mut white = 0;
    let mut black = 0;
    for i in 0..64 {
        if let Some(p) = game.get_piece_at(Coord::from_index(i)) {
            total += 1;
            match p.get_side() {
                Side::White => white += 1,
                Side::Black => black += 1,
            }
        }
    }
    assert_eq!(total, 32);
    assert_eq!(white, 16);
    assert_eq!(black, 16);

    let corner = game.get_piece_at(Coord::from_x_and_y(0, 0)).unwrap();
    assert!(corner.is_type(PieceType::Rook));
    assert!(corner.is_side(Side::White));
    assert!(!corner.has_moved());

    assert!(game.is_playing());
    assert_eq!(game.current_side(), Some(Side::White));
    assert!(game.get_previous_move().is_none());
    assert!(game.get_winner().is_none());
}

#[test]
fn isolated_rook_fourteen_moves() {
    // A lone rook away from both kings moves along its two open lines
    let start_code = "....k...\
                      ........\
                      ........\
                      ...R....\
                      ........\
                      ........\
                      ........\
                      ....K...";
    let game = Game::from_string(start_code, Side::White).unwrap();
    let rook = game.get_piece_at(Coord::from_x_and_y(3, 4)).unwrap();
    let moves = game.get_moves_for_piece(rook).unwrap();
    assert_eq!(moves.len(), 14);
}

#[test]
fn castle_occupied_transit_removed() {
    // A bishop standing between the black king and its rooks blocks both
    let start_code = "r..bkb.r\
                      ........\
                      ........\
                      ........\
                      ........\
                      ........\
                      ........\
                      ....K...";
    let game = Game::from_string(start_code, Side::Black).unwrap();
    let king = game.get_black_king();
    let moves = get_piece_moves(&game, king);
    for m in &moves {
        assert!(!matches!(m, Move::Castle(_)));
    }
}

#[test]
fn castle_out_of_check_removed() {
    // The black king stands in check from the white rook: no castling out of check
    let start_code = "r...k..r\
                      ........\
                      ........\
                      ........\
                      ........\
                      ........\
                      ........\
                      ..K.R...";
    let game = Game::from_string(start_code, Side::Black).unwrap();
    let king = game.get_black_king();
    let moves = get_piece_moves(&game, king);
    for m in &moves {
        assert!(!matches!(m, Move::Castle(_)));
    }

    // With the white rook elsewhere both castles are available
    let start_code = "r...k..r\
                      ........\
                      ........\
                      ........\
                      ........\
                      ........\
                      ........\
                      ..K....R";
    let game = Game::from_string(start_code, Side::Black).unwrap();
    let king = game.get_black_king();
    let moves = get_piece_moves(&game, king);
    let castles = moves.iter().filter(|m| matches!(m, Move::Castle(_))).count();
    assert_eq!(castles, 2);
}

#[test]
fn promotion_never_standard() {
    let start_code = "....k...\
                      P.......\
                      ........\
                      ........\
                      ........\
                      ........\
                      ........\
                      ....K...";
    let game = Game::from_string(start_code, Side::White).unwrap();
    let pawn = game.get_piece_at(Coord::from_x_and_y(0, 6)).unwrap();
    let moves = get_piece_moves(&game, pawn);

    assert_eq!(moves.len(), 4);
    let mut seen = Vec::new();
    for m in &moves {
        match m {
            Move::Promotion(p) => {
                assert_eq!(p.to, Coord::from_x_and_y(0, 7));
                assert!(p.new_piece.has_moved());
                seen.push(p.new_piece.get_type());
            },
            _ => panic!("a pawn move to the far rank must be a promotion"),
        }
    }
    assert!(seen.contains(&PieceType::Queen));
    assert!(seen.contains(&PieceType::Rook));
    assert!(seen.contains(&PieceType::Bishop));
    assert!(seen.contains(&PieceType::Knight));
}

#[test]
fn promotion_by_capture() {
    // Push to the far rank and capture onto the far rank each expand into four
    let start_code = ".r..k...\
                      P.......\
                      ........\
                      ........\
                      ........\
                      ........\
                      ........\
                      ....K...";
    let game = Game::from_string(start_code, Side::White).unwrap();
    let pawn = game.get_piece_at(Coord::from_x_and_y(0, 6)).unwrap();
    let moves = get_piece_moves(&game, pawn);

    assert_eq!(moves.len(), 8);
    for m in &moves {
        assert!(matches!(m, Move::Promotion(_)));
    }
}

#[test]
fn checkmate_ends_game() {
    let start_code = ".....K.k\
                      ........\
                      ........\
                      ........\
                      ........\
                      ........\
                      ........\
                      ......Q.";
    let mut game = Game::from_string(start_code, Side::White).unwrap();
    let queen = game.get_piece_at(Coord::from_x_and_y(6, 0)).unwrap();

    game.make_move(Move::Standard(StandardMove::new(
        queen,
        Coord::from_x_and_y(6, 0),
        Coord::from_x_and_y(6, 7),
    )))
    .unwrap();

    // Black is mated: the game is over and no side has the move
    assert!(!game.is_playing());
    assert_eq!(game.get_state(), GameState::WhiteWon);
    assert_eq!(game.current_side(), None);
    assert!(game.is_in_check());

    // Terminal states are sticky: every further attempt is invalid
    let king = game.get_black_king();
    let attempt = Move::Standard(StandardMove::new(
        king,
        Coord::from_x_and_y(7, 7),
        Coord::from_x_and_y(7, 6),
    ));
    assert_eq!(game.make_move(attempt), Err(MoveError::InvalidMove));
    assert_eq!(game.apply_move(attempt), Err(MoveError::InvalidMove));
}

#[test]
fn stalemate_is_draw() {
    // After the white queen steps up, the black king has no move but is not in check
    let start_code = "k.......\
                      ........\
                      .Q......\
                      ........\
                      ........\
                      ........\
                      ........\
                      .......K";
    let game = Game::from_string(start_code, Side::Black).unwrap();
    assert_eq!(game.get_valid_moves().len(), 0);
    assert!(!game.is_in_check());

    // Reach the same position through make_move to observe the draw state
    let start_code = "k.......\
                      ........\
                      ........\
                      .Q......\
                      ........\
                      ........\
                      ........\
                      .......K";
    let mut game = Game::from_string(start_code, Side::White).unwrap();
    let queen = game.get_piece_at(Coord::from_x_and_y(1, 4)).unwrap();
    game.make_move(Move::Standard(StandardMove::new(
        queen,
        Coord::from_x_and_y(1, 4),
        Coord::from_x_and_y(1, 5),
    )))
    .unwrap();

    assert!(!game.is_playing());
    assert_eq!(game.get_state(), GameState::Draw);
    assert_eq!(game.current_side(), None);
    assert!(!game.is_in_check());
}

#[test]
fn checkmate_via_apply_move() {
    let start_code = ".....K.k\
                      ........\
                      ........\
                      ........\
                      ........\
                      ........\
                      ........\
                      ......Q.";
    let mut game = Game::from_string(start_code, Side::White).unwrap();
    let queen = game.get_piece_at(Coord::from_x_and_y(6, 0)).unwrap();

    game.apply_move(Move::Standard(StandardMove::new(
        queen,
        Coord::from_x_and_y(6, 0),
        Coord::from_x_and_y(6, 7),
    )))
    .unwrap();

    assert_eq!(game.get_state(), GameState::WhiteWon);
    assert_eq!(game.get_winner(), Some(Side::White));
    assert!(!game.is_playing());
}

#[test]
fn en_passant_application() {
    let start_code = "....k...\
                      .p......\
                      ........\
                      ..P.....\
                      ........\
                      ........\
                      ........\
                      ....K...";
    let mut game = Game::from_string(start_code, Side::Black).unwrap();
    let black_pawn = game.get_piece_at(Coord::from_x_and_y(1, 6)).unwrap();
    game.make_move(Move::Standard(StandardMove::new(
        black_pawn,
        Coord::from_x_and_y(1, 6),
        Coord::from_x_and_y(1, 4),
    )))
    .unwrap();

    let ep = game
        .get_valid_moves()
        .into_iter()
        .find(|m| matches!(m, Move::EnPassant(_)))
        .unwrap();
    game.apply_move(ep).unwrap();

    // The capturing pawn stands behind the captured pawn's square, both
    // origin squares are empty, and the captured pawn is gone
    let capturer = game.get_piece_at(Coord::from_x_and_y(1, 5)).unwrap();
    assert!(capturer.is_type(PieceType::Pawn));
    assert!(capturer.is_side(Side::White));
    assert!(game.get_piece_at(Coord::from_x_and_y(1, 4)).is_none());
    assert!(game.get_piece_at(Coord::from_x_and_y(2, 4)).is_none());
}

#[test]
fn invalid_move_leaves_game_unchanged() {
    let mut game = new_game();

    // A rook cannot leap over its own pawns from the corner
    let rook = game.get_piece_at(Coord::from_x_and_y(0, 0)).unwrap();
    let bad = Move::Standard(StandardMove::new(
        rook,
        Coord::from_x_and_y(0, 0),
        Coord::from_x_and_y(0, 4),
    ));
    assert_eq!(game.apply_move(bad), Err(MoveError::InvalidMove));

    // Nothing moved and it is still White's turn
    assert_eq!(game.current_side(), Some(Side::White));
    assert!(game.get_piece_at(Coord::from_x_and_y(0, 0)).is_some());
    assert!(game.get_piece_at(Coord::from_x_and_y(0, 4)).is_none());
    assert!(game.get_previous_move().is_none());
}

#[test]
fn stale_piece_rejected() {
    let game = new_game();

    // The piece value claims a square that holds a pawn instead
    let stale = Piece::new(Side::White, false, PieceType::Rook, Coord::from_x_and_y(0, 1));
    assert_eq!(game.get_moves_for_piece(stale), Err(GameErrors::PieceNotOnBoard));

    // The piece value claims an empty square
    let gone = Piece::new(Side::White, false, PieceType::Rook, Coord::from_x_and_y(0, 4));
    assert_eq!(game.get_moves_for_piece(gone), Err(GameErrors::PieceNotOnBoard));

    // A piece exactly as it stands on the board is accepted
    let rook = game.get_piece_at(Coord::from_x_and_y(0, 0)).unwrap();
    assert!(game.get_moves_for_piece(rook).is_ok());
}

#[test]
fn parse_error_unexpected_character() {
    let start_code = "....k..X\
                      ........\
                      ........\
                      ........\
                      ........\
                      ........\
                      ........\
                      ....K...";
    let r = Game::from_string(start_code, Side::White);
    assert!(matches!(r, Err(BoardStringParseError::UnexpectedCharacter)));
}

#[test]
fn parse_error_missing_kings() {
    let no_white = "....k...\
                    ........\
                    ........\
                    ........\
                    ........\
                    ........\
                    ........\
                    ....Q...";
    assert!(matches!(
        Game::from_string(no_white, Side::White),
        Err(BoardStringParseError::NoWhiteKing)
    ));

    let no_black = "....q...\
                    ........\
                    ........\
                    ........\
                    ........\
                    ........\
                    ........\
                    ....K...";
    assert!(matches!(
        Game::from_string(no_black, Side::White),
        Err(BoardStringParseError::NoBlackKing)
    ));
}

#[test]
fn get_pieces_returns_movers_pieces() {
    let game = new_game();
    let pieces = game.get_pieces();
    assert_eq!(pieces.len(), 16);
    for p in &pieces {
        assert!(p.is_side(Side::White));
        assert!(!p.has_moved());
    }
}

#[test]
fn iter_walks_every_piece() {
    let game = new_game();
    let mut it = game.iter();
    let mut count = 0;
    while let Some(p) = it.next() {
        assert_eq!(
            game.get_piece_at(p.get_loc()),
            Some(p),
            "the iterator yields pieces as they stand on the board"
        );
        count += 1;
    }
    assert_eq!(count, 32);
}

#[test]
fn pawn_single_push_after_moving() {
    let start_code = "....k...\
                      ........\
                      ........\
                      ........\
                      ........\
                      ........\
                      P.......\
                      ....K...";
    let mut game = Game::from_string(start_code, Side::White).unwrap();
    let pawn = game.get_piece_at(Coord::from_x_and_y(0, 1)).unwrap();
    game.make_move(Move::Standard(StandardMove::new(
        pawn,
        Coord::from_x_and_y(0, 1),
        Coord::from_x_and_y(0, 2),
    )))
    .unwrap();

    // A pawn that has moved may only push a single square
    let pawn = game.get_piece_at(Coord::from_x_and_y(0, 2)).unwrap();
    assert!(pawn.has_moved());
    let moves = get_piece_moves(&game, pawn);
    assert_eq!(moves.len(), 1);
    assert!(moves.contains(&Move::Standard(StandardMove::new(
        pawn,
        Coord::from_x_and_y(0, 2),
        Coord::from_x_and_y(0, 3)
    ))));
}

#[test]
fn check_detection() {
    let start_code = "....k...\
                      ....r...\
                      ........\
                      ........\
                      ........\
                      ........\
                      ........\
                      ....K...";
    let game = Game::from_string(start_code, Side::White).unwrap();
    assert!(game.is_in_check());
    assert!(game.is_side_in_check(Side::White));
    assert!(!game.is_side_in_check(Side::Black));
}

#[test]
fn pawn_threat_blocks_castling() {
    // A pawn threatens the two empty squares on its forward diagonals, so
    // the king may not castle through them: the white pawn on (4,6) attacks
    // (3,7) and (5,7), the transit squares of both castles
    let start_code = "r...k..r\
                      ....P...\
                      ........\
                      ........\
                      ........\
                      ........\
                      ........\
                      ....K...";
    let game = Game::from_string(start_code, Side::Black).unwrap();
    let king = game.get_black_king();
    let moves = get_piece_moves(&game, king);
    for m in &moves {
        assert!(!matches!(m, Move::Castle(_)));
    }
    // Capturing the pawn is still legal
    assert!(moves.contains(&Move::Standard(StandardMove::new(
        king,
        Coord::from_x_and_y(4, 7),
        Coord::from_x_and_y(4, 6)
    ))));
}

#[test]
fn fools_mate() {
    let mut game = new_game();

    let mut play = |game: &mut Game, from: (i8, i8), to: (i8, i8)| {
        let piece = game.get_piece_at(Coord::from_x_and_y(from.0, from.1)).unwrap();
        game.make_move(Move::Standard(StandardMove::new(
            piece,
            Coord::from_x_and_y(from.0, from.1),
            Coord::from_x_and_y(to.0, to.1),
        )))
        .unwrap();
    };

    play(&mut game, (5, 1), (5, 2)); // white pawn to f3
    play(&mut game, (4, 6), (4, 4)); // black pawn to e5
    play(&mut game, (6, 1), (6, 3)); // white pawn to g4
    play(&mut game, (3, 7), (7, 3)); // black queen to h4, mate

    assert_eq!(game.get_state(), GameState::BlackWon);
    assert!(!game.is_playing());
    assert!(game.is_in_check());
}

#[test]
fn render_starting_position() {
    let game = new_game();
    let expected = "r n b q k b n r \n\
                    p p p p p p p p \n\
                    . . . . . . . . \n\
                    . . . . . . . . \n\
                    . . . . . . . . \n\
                    . . . . . . . . \n\
                    P P P P P P P P \n\
                    R N B Q K B N R \n\
                    White to move";
    assert_eq!(game.render(), expected);
}
