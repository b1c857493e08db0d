//! Tests of the action codec: flat indices, legality masks, and the
//! decoding of indices back into structured candidates.
use cerke_dqn::board::{coord_to_num, num_to_coord, Column, Coord, Row};
use cerke_dqn::mask::{afterhalf_candidates_to_mask, candidates_to_mask, get_candidate_by_index,
    get_after_half_candidate_by_index, get_tymok_candidate_by_index, tymok_mask};
use cerke_dqn::moves::{encode_acceptance, encode_action, AfterHalfAcceptance, NormalMove, PureMove,
    ACTION_SIZE};
use cerke_dqn::piece::{get_piece_key, num_to_nontam_piece, Color, Profession};

fn coord(r: Row, c: Column) -> Coord {
    Coord(r, c)
}

#[test]
fn coord_numbering_round_trips() {
    for i in 0..81 {
        let c = num_to_coord(&i);
        assert_eq!(coord_to_num(&c), i);
    }
}

#[test]
fn reserve_key_round_trips() {
    for k in 0..20 {
        let p = num_to_nontam_piece(&k);
        assert_eq!(get_piece_key(&p), k);
    }
}

#[test]
fn encode_board_moves_by_source_and_destination() {
    // Source E-N is cell 11, destination A-K is cell 0.
    let m = PureMove::NormalMove(NormalMove::NonTamMoveSrcDst {
        src: coord(Row::E, Column::N),
        dest: coord(Row::A, Column::K),
    });
    assert_eq!(encode_action(&m), 11 * 81);

    // A step's first half is addressed by its planned direction.
    let m = PureMove::InfAfterStep {
        src: coord(Row::A, Column::K),
        step: coord(Row::A, Column::L),
        planned_direction: coord(Row::E, Column::N),
    };
    assert_eq!(encode_action(&m), 11);

    // A pivot move is addressed by its second destination; IA-P is
    // cell 80.
    let m = PureMove::NormalMove(NormalMove::TamMoveNoStep {
        src: coord(Row::E, Column::N),
        first_dest: coord(Row::A, Column::L),
        second_dest: coord(Row::IA, Column::P),
    });
    assert_eq!(encode_action(&m), 11 * 81 + 80);
}

#[test]
fn encode_placement_in_hand_band() {
    // A Huok2 Dau2 placement: colour offset 10 plus profession
    // index 4. Destination I-Z is cell 22.
    let m = PureMove::NormalMove(NormalMove::NonTamMoveFromHopZuo {
        color: Color::Huok2,
        prof: Profession::Dau2,
        dest: coord(Row::I, Column::Z),
    });
    assert_eq!(encode_action(&m), 81 * 81 + 14 * 81 + 22);
}

#[test]
fn encode_acceptance_slots() {
    let with_dest = AfterHalfAcceptance { dest: Some(coord(Row::I, Column::Z)) };
    assert_eq!(encode_acceptance(&with_dest), 20 * 81 + 81 * 81 + 22);
    let without = AfterHalfAcceptance { dest: None };
    assert_eq!(encode_acceptance(&without), 20 * 81 + 81 * 81 + 81);
}

#[test]
fn start_mask_covers_exactly_the_candidates() {
    let board_moves = vec![
        PureMove::NormalMove(NormalMove::NonTamMoveSrcDst {
            src: coord(Row::E, Column::N),
            dest: coord(Row::A, Column::K),
        }),
        PureMove::InfAfterStep {
            src: coord(Row::A, Column::K),
            step: coord(Row::A, Column::L),
            planned_direction: coord(Row::E, Column::N),
        },
    ];
    let hand_moves = vec![PureMove::NormalMove(NormalMove::NonTamMoveFromHopZuo {
        color: Color::Huok2,
        prof: Profession::Dau2,
        dest: coord(Row::I, Column::Z),
    })];
    let mask = candidates_to_mask(&hand_moves, &board_moves);
    assert_eq!(mask.len(), ACTION_SIZE);
    let lit: Vec<usize> = (0..ACTION_SIZE).filter(|i| mask[*i] == 1).collect();
    assert_eq!(lit, vec![11, 11 * 81, 81 * 81 + 14 * 81 + 22]);
    assert!(mask.iter().all(|x| *x == 0 || *x == 1));
}

#[test]
fn decode_returns_first_candidate_of_a_shared_slot() {
    // The two pivot forms collapse onto one slot; decoding must give
    // the first one in the engine's order.
    let first = PureMove::NormalMove(NormalMove::TamMoveStepsDuringFormer {
        src: coord(Row::E, Column::N),
        step: coord(Row::E, Column::T),
        first_dest: coord(Row::A, Column::L),
        second_dest: coord(Row::IA, Column::P),
    });
    let second = PureMove::NormalMove(NormalMove::TamMoveStepsDuringLatter {
        src: coord(Row::E, Column::N),
        step: coord(Row::E, Column::T),
        first_dest: coord(Row::A, Column::L),
        second_dest: coord(Row::IA, Column::P),
    });
    let board_moves = vec![first, second];
    let hand_moves: Vec<PureMove> = Vec::new();
    let idx = encode_action(&first);
    assert_eq!(idx, encode_action(&second));
    let decoded = get_candidate_by_index(idx, &hand_moves, &board_moves);
    assert_eq!(decoded, first);
}

#[test]
fn decode_placement_reconstructs_the_move() {
    let m = PureMove::NormalMove(NormalMove::NonTamMoveFromHopZuo {
        color: Color::Huok2,
        prof: Profession::Dau2,
        dest: coord(Row::I, Column::Z),
    });
    let hand_moves = vec![m];
    let board_moves: Vec<PureMove> = Vec::new();
    let decoded = get_candidate_by_index(encode_action(&m), &hand_moves, &board_moves);
    assert_eq!(decoded, m);
}

#[test]
fn acceptance_mask_and_decode_round_trip() {
    let with_dest = AfterHalfAcceptance { dest: Some(coord(Row::I, Column::Z)) };
    let without = AfterHalfAcceptance { dest: None };
    let candidates = vec![with_dest, without];
    let mask = afterhalf_candidates_to_mask(&candidates);
    let lit: Vec<usize> = (0..ACTION_SIZE).filter(|i| mask[*i] == 1).collect();
    assert_eq!(lit, vec![20 * 81 + 81 * 81 + 22, 20 * 81 + 81 * 81 + 81]);
    for c in &candidates {
        let decoded = get_after_half_candidate_by_index(encode_acceptance(c), &candidates);
        assert_eq!(decoded, *c);
    }
}

#[test]
fn tymok_mask_has_the_two_answer_slots() {
    let mask = tymok_mask();
    let lit: Vec<usize> = (0..ACTION_SIZE).filter(|i| mask[*i] == 1).collect();
    assert_eq!(lit, vec![20 * 81 + 81 * 81 + 81 + 1, 20 * 81 + 81 * 81 + 81 + 2]);
    assert!(get_tymok_candidate_by_index(20 * 81 + 81 * 81 + 81 + 1));
    assert!(!get_tymok_candidate_by_index(20 * 81 + 81 * 81 + 81 + 2));
}
