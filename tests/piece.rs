use chess::Piece;

const KINDS: [Piece; 6] = [
    Piece::Pawn,
    Piece::Knight,
    Piece::Bishop,
    Piece::Rook,
    Piece::Queen,
    Piece::King,
];

const BLACK: [Piece; 6] = [
    Piece::BlackPawn,
    Piece::BlackKnight,
    Piece::BlackBishop,
    Piece::BlackRook,
    Piece::BlackQueen,
    Piece::BlackKing,
];

const WHITE: [Piece; 6] = [
    Piece::WhitePawn,
    Piece::WhiteKnight,
    Piece::WhiteBishop,
    Piece::WhiteRook,
    Piece::WhiteQueen,
    Piece::WhiteKing,
];

fn placeable() -> Vec<Piece> {
    let mut v = vec![Piece::Empty];
    v.extend_from_slice(&BLACK);
    v.extend_from_slice(&WHITE);
    v
}

#[test]
fn codes_pack_kind_and_color() {
    assert_eq!(Piece::Empty.to_isize(), 0);
    assert_eq!(Piece::Pawn.to_isize(), 1);
    assert_eq!(Piece::King.to_isize(), 6);
    assert_eq!(Piece::Black.to_isize(), 0b01000);
    assert_eq!(Piece::White.to_isize(), 0b10000);
    assert_eq!(Piece::BlackPawn.to_isize(), 0b01001);
    assert_eq!(Piece::WhiteKing.to_isize(), 0b10110);
}

#[test]
fn combine_kind_with_color() {
    for i in 0..6 {
        let k = KINDS[i];
        let b = k.bitor(Piece::Black);
        let w = k.bitor(Piece::White);
        assert_eq!(b, BLACK[i]);
        assert_eq!(w, WHITE[i]);
        assert_eq!(Piece::kind(b), k);
        assert_eq!(Piece::kind(w), k);
        assert_eq!(Piece::color(b), Piece::Black);
        assert_eq!(Piece::color(w), Piece::White);
    }
    assert_eq!(Piece::Pawn.bitor(Piece::White), Piece::WhitePawn);
}

#[test]
fn decompose_each_piece() {
    for p in placeable() {
        assert_eq!(Piece::kind(p).bitor(Piece::color(p)), p);
    }
}

#[test]
fn fields_of_bare_values() {
    assert_eq!(Piece::kind(Piece::Empty), Piece::Empty);
    assert_eq!(Piece::color(Piece::Empty), Piece::Empty);
    assert_eq!(Piece::kind(Piece::Queen), Piece::Queen);
    assert_eq!(Piece::color(Piece::Queen), Piece::Empty);
    assert_eq!(Piece::kind(Piece::White), Piece::Empty);
    assert_eq!(Piece::color(Piece::Black), Piece::Black);
}

#[test]
fn mask_isolates_a_field() {
    assert_eq!(Piece::BlackRook.bitand(Piece::King), Piece::Rook);
    assert_eq!(Piece::WhiteQueen.bitand(Piece::White), Piece::White);
    assert_eq!(Piece::WhiteQueen.bitand(Piece::Black), Piece::Empty);
}

#[test]
fn render_each_piece() {
    assert_eq!(Piece::Empty.to_str(), " ");
    assert_eq!(Piece::WhitePawn.to_str(), "P");
    assert_eq!(Piece::BlackKing.to_str(), "k");
    let black: Vec<&str> = BLACK.iter().map(|p| p.to_str()).collect();
    let white: Vec<&str> = WHITE.iter().map(|p| p.to_str()).collect();
    assert_eq!(black, vec!["p", "n", "b", "r", "q", "k"]);
    assert_eq!(white, vec!["P", "N", "B", "R", "Q", "K"]);
}

#[test]
fn render_is_distinct_on_placeable_values() {
    let all = placeable();
    for a in &all {
        assert_ne!(a.to_str(), "?");
        for b in &all {
            if a != b {
                assert_ne!(a.to_str(), b.to_str());
            }
        }
    }
}

#[test]
fn render_falls_back_for_bare_kind() {
    assert_eq!(Piece::Knight.to_str(), "?");
    assert_eq!(Piece::Black.to_str(), " ");
}

#[test]
fn decode_round_trips_codes() {
    let mut all = placeable();
    all.extend_from_slice(&KINDS);
    all.push(Piece::Black);
    all.push(Piece::White);
    for p in all {
        assert_eq!(Piece::decode(p.to_isize()), Some(p));
        assert_eq!(Piece::from_isize(p.to_isize()), p);
    }
}

#[test]
fn decode_rejects_unassigned_code() {
    assert_eq!(Piece::decode(0b01111), None);
    assert_eq!(Piece::decode(7), None);
    assert_eq!(Piece::decode(0b11000), None);
    assert_eq!(Piece::decode(23), None);
    assert_eq!(Piece::decode(-1), None);
    assert_eq!(Piece::decode(Piece::BlackPawn.to_isize() | Piece::WhitePawn.to_isize()), None);
}
