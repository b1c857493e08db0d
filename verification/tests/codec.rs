//! Regression tests of the feature-vector codec against a fixed known
//! position, and of the perspective flip.
use cerke_dqn::board::{Column, Coord, Row};
use cerke_dqn::piece::{Color, Piece, Profession, Side};
use cerke_dqn::state::{Phase, Situation};
use cerke_dqn::state_to_feature::{state_to_feature, BOARD_SEGMENT, RESERVE_FRAME, STATE_SIZE};

fn fixed_opening_board() -> Vec<(Coord, Piece)> {
    let mut board: Vec<(Coord, Piece)> = Vec::new();
    board.push((Coord(Row::O, Column::Z), Piece::Tam2));
    board.push((Coord(Row::A, Column::K), Piece::NonTam2Piece { color: Color::Kok1, prof: Profession::Kua2, side: Side::IASide }));
    board.push((Coord(Row::A, Column::L), Piece::NonTam2Piece { color: Color::Kok1, prof: Profession::Maun1, side: Side::IASide }));
    board.push((Coord(Row::A, Column::N), Piece::NonTam2Piece { color: Color::Kok1, prof: Profession::Kaun1, side: Side::IASide }));
    board.push((Coord(Row::A, Column::T), Piece::NonTam2Piece { color: Color::Kok1, prof: Profession::Uai1, side: Side::IASide }));
    board.push((Coord(Row::A, Column::Z), Piece::NonTam2Piece { color: Color::Kok1, prof: Profession::Io, side: Side::ASide }));
    board.push((Coord(Row::A, Column::X), Piece::NonTam2Piece { color: Color::Kok1, prof: Profession::Uai1, side: Side::ASide }));
    board.push((Coord(Row::A, Column::C), Piece::NonTam2Piece { color: Color::Kok1, prof: Profession::Kaun1, side: Side::ASide }));
    board.push((Coord(Row::A, Column::M), Piece::NonTam2Piece { color: Color::Kok1, prof: Profession::Maun1, side: Side::ASide }));
    board.push((Coord(Row::A, Column::P), Piece::NonTam2Piece { color: Color::Kok1, prof: Profession::Kua2, side: Side::ASide }));
    board.push((Coord(Row::E, Column::K), Piece::NonTam2Piece { color: Color::Kok1, prof: Profession::Tuk2, side: Side::ASide }));
    board.push((Coord(Row::E, Column::L), Piece::NonTam2Piece { color: Color::Kok1, prof: Profession::Gua2, side: Side::ASide }));
    board.push((Coord(Row::E, Column::T), Piece::NonTam2Piece { color: Color::Kok1, prof: Profession::Dau2, side: Side::ASide }));
    board.push((Coord(Row::E, Column::X), Piece::NonTam2Piece { color: Color::Kok1, prof: Profession::Dau2, side: Side::IASide }));
    board.push((Coord(Row::E, Column::M), Piece::NonTam2Piece { color: Color::Kok1, prof: Profession::Gua2, side: Side::IASide }));
    board.push((Coord(Row::E, Column::P), Piece::NonTam2Piece { color: Color::Kok1, prof: Profession::Tuk2, side: Side::IASide }));
    board.push((Coord(Row::I, Column::K), Piece::NonTam2Piece { color: Color::Kok1, prof: Profession::Kauk2, side: Side::IASide }));
    board.push((Coord(Row::I, Column::L), Piece::NonTam2Piece { color: Color::Kok1, prof: Profession::Kauk2, side: Side::ASide }));
    board.push((Coord(Row::I, Column::N), Piece::NonTam2Piece { color: Color::Kok1, prof: Profession::Kauk2, side: Side::IASide }));
    board.push((Coord(Row::I, Column::T), Piece::NonTam2Piece { color: Color::Kok1, prof: Profession::Kauk2, side: Side::ASide }));
    board.push((Coord(Row::I, Column::X), Piece::NonTam2Piece { color: Color::Kok1, prof: Profession::Kauk2, side: Side::ASide }));
    board.push((Coord(Row::I, Column::C), Piece::NonTam2Piece { color: Color::Kok1, prof: Profession::Kauk2, side: Side::IASide }));
    board.push((Coord(Row::I, Column::M), Piece::NonTam2Piece { color: Color::Kok1, prof: Profession::Kauk2, side: Side::ASide }));
    board.push((Coord(Row::I, Column::P), Piece::NonTam2Piece { color: Color::Kok1, prof: Profession::Kauk2, side: Side::IASide }));
    board.push((Coord(Row::AI, Column::K), Piece::NonTam2Piece { color: Color::Huok2, prof: Profession::Kauk2, side: Side::IASide }));
    board.push((Coord(Row::AI, Column::L), Piece::NonTam2Piece { color: Color::Huok2, prof: Profession::Kauk2, side: Side::ASide }));
    board.push((Coord(Row::AI, Column::N), Piece::NonTam2Piece { color: Color::Huok2, prof: Profession::Kauk2, side: Side::IASide }));
    board.push((Coord(Row::AI, Column::T), Piece::NonTam2Piece { color: Color::Huok2, prof: Profession::Kauk2, side: Side::ASide }));
    board.push((Coord(Row::AI, Column::Z), Piece::NonTam2Piece { color: Color::Huok2, prof: Profession::Nuak1, side: Side::IASide }));
    board.push((Coord(Row::AI, Column::X), Piece::NonTam2Piece { color: Color::Huok2, prof: Profession::Kauk2, side: Side::ASide }));
    board.push((Coord(Row::AI, Column::C), Piece::NonTam2Piece { color: Color::Huok2, prof: Profession::Kauk2, side: Side::IASide }));
    board.push((Coord(Row::AI, Column::M), Piece::NonTam2Piece { color: Color::Huok2, prof: Profession::Kauk2, side: Side::ASide }));
    board.push((Coord(Row::AI, Column::P), Piece::NonTam2Piece { color: Color::Huok2, prof: Profession::Kauk2, side: Side::IASide }));
    board.push((Coord(Row::AU, Column::K), Piece::NonTam2Piece { color: Color::Huok2, prof: Profession::Tuk2, side: Side::IASide }));
    board.push((Coord(Row::AU, Column::L), Piece::NonTam2Piece { color: Color::Huok2, prof: Profession::Gua2, side: Side::IASide }));
    board.push((Coord(Row::AU, Column::T), Piece::NonTam2Piece { color: Color::Huok2, prof: Profession::Dau2, side: Side::IASide }));
    board.push((Coord(Row::AU, Column::X), Piece::NonTam2Piece { color: Color::Huok2, prof: Profession::Dau2, side: Side::ASide }));
    board.push((Coord(Row::AU, Column::M), Piece::NonTam2Piece { color: Color::Huok2, prof: Profession::Gua2, side: Side::ASide }));
    board.push((Coord(Row::AU, Column::P), Piece::NonTam2Piece { color: Color::Huok2, prof: Profession::Tuk2, side: Side::ASide }));
    board.push((Coord(Row::IA, Column::K), Piece::NonTam2Piece { color: Color::Huok2, prof: Profession::Kua2, side: Side::ASide }));
    board.push((Coord(Row::IA, Column::L), Piece::NonTam2Piece { color: Color::Huok2, prof: Profession::Maun1, side: Side::ASide }));
    board.push((Coord(Row::IA, Column::N), Piece::NonTam2Piece { color: Color::Huok2, prof: Profession::Kaun1, side: Side::ASide }));
    board.push((Coord(Row::IA, Column::T), Piece::NonTam2Piece { color: Color::Huok2, prof: Profession::Uai1, side: Side::ASide }));
    board.push((Coord(Row::IA, Column::Z), Piece::NonTam2Piece { color: Color::Huok2, prof: Profession::Io, side: Side::IASide }));
    board.push((Coord(Row::IA, Column::X), Piece::NonTam2Piece { color: Color::Huok2, prof: Profession::Uai1, side: Side::IASide }));
    board.push((Coord(Row::IA, Column::C), Piece::NonTam2Piece { color: Color::Huok2, prof: Profession::Kaun1, side: Side::IASide }));
    board.push((Coord(Row::IA, Column::M), Piece::NonTam2Piece { color: Color::Huok2, prof: Profession::Maun1, side: Side::IASide }));
    board.push((Coord(Row::IA, Column::P), Piece::NonTam2Piece { color: Color::Huok2, prof: Profession::Kua2, side: Side::IASide }));
    board
}

fn situation(whose_turn: Side) -> Situation {
    Situation {
        board: fixed_opening_board(),
        a_side_hop1zuo1: Vec::new(),
        ia_side_hop1zuo1: Vec::new(),
        whose_turn,
        score: 20,
        season: 0,
    }
}

fn nonzero_indices(v: &[i8]) -> Vec<usize> {
    v.iter()
        .enumerate()
        .filter(|(_i, x)| **x != 0)
        .map(|(i, _x)| i)
        .collect()
}

#[test]
fn test_init_state() {
    let v = state_to_feature(&Phase::Start(situation(Side::IASide)));
    assert_eq!(v.len(), STATE_SIZE);
    let v = nonzero_indices(&v);
    let expect = vec![
        26, 67, 107, 154, 177, 218, 255, 299, 342, 385, 422, 462, 508, 546, 612, 630, 694, 741,
        777, 799, 861, 883, 924, 967, 1029, 1051, 1113, 1134, 1176, 1218, 1260, 1302, 1344, 1386,
        1428, 1470, 1512, 1554, 1596, 1638, 1721, 1722, 1764, 1806, 1848, 1890, 1932, 1974, 2016,
        2058, 2100, 2142, 2184, 2226, 2299, 2321, 2383, 2405, 2466, 2489, 2551, 2573, 2635, 2683,
        2720, 2730, 2806, 2814, 2870, 2898, 2952, 2999, 3040, 3081, 3121, 3168, 3231, 3272, 3309,
        3353, 3396, 3402, 3404, 3413, 3416, 3419, 3422, 3425, 3428, 3431, 3433, 3435, 3437, 3446,
        3449, 3452, 3455, 3458, 3461, 3464, 3466, 3470, 3472, 3481, 3484, 3487, 3490, 3493, 3496,
        3499, 3501, 3503, 3505, 3514, 3517, 3520, 3523, 3526, 3529, 3532, 3534,
    ];
    assert_eq!(v.len(), expect.len());
    assert_eq!(v, expect);
}

#[test]
fn test_perspective_flip() {
    let from_ia = state_to_feature(&Phase::Start(situation(Side::IASide)));
    let from_a = state_to_feature(&Phase::Start(situation(Side::ASide)));
    assert_eq!(from_ia.len(), STATE_SIZE);
    assert_eq!(from_a.len(), STATE_SIZE);
    assert_ne!(from_ia, from_a);
    // Board geometry is shared: per cell the lone set slot keeps its
    // colour and profession, and only the ownership offset (20) flips;
    // the Tam2 slot and truly empty cells agree exactly.
    for cell in 0..81 {
        let slot_a = (0..42).find(|c| from_a[cell * 42 + c] == 1).unwrap();
        let slot_ia = (0..42).find(|c| from_ia[cell * 42 + c] == 1).unwrap();
        assert!(
            (slot_a == slot_ia && (slot_a == 0 || slot_a == 41))
                || slot_a + 20 == slot_ia
                || slot_ia + 20 == slot_a,
            "cell {cell}: {slot_a} vs {slot_ia}"
        );
    }
    // Empty reserves: both frames show the zero-count slots either way.
    for s in 0..2 * RESERVE_FRAME {
        assert_eq!(from_a[BOARD_SEGMENT + s], from_ia[BOARD_SEGMENT + s]);
    }
}
