//! Tests of the replay memory, the selection policy, the reward
//! arithmetic, and a small scripted episode end to end.
use cerke_dqn::agent::{target_refresh_due, td_one_hot};
use cerke_dqn::board::{Column, Coord, Row};
use cerke_dqn::environment::{game_end_reward, make_experience, settle_move, settle_tymok, Action,
    ActionResult, HandResolution, MoveResolution, TaxotOutcome};
use cerke_dqn::mask::candidates_to_mask;
use cerke_dqn::memory::{Experience, Memory};
use cerke_dqn::moves::{encode_action, NormalMove, PureMove, ACTION_SIZE};
use cerke_dqn::piece::{Color, Piece, Profession, Side};
use cerke_dqn::policy::{masked_argmax, select_action, Candidates};
use cerke_dqn::state::{Phase, Situation};

fn coord(r: Row, c: Column) -> Coord {
    Coord(r, c)
}

fn small_situation(whose_turn: Side, score: i32, season: u8) -> Situation {
    Situation {
        board: vec![
            (coord(Row::O, Column::Z), Piece::Tam2),
            (
                coord(Row::E, Column::N),
                Piece::NonTam2Piece {
                    color: Color::Kok1,
                    prof: Profession::Kauk2,
                    side: Side::ASide,
                },
            ),
        ],
        a_side_hop1zuo1: Vec::new(),
        ia_side_hop1zuo1: Vec::new(),
        whose_turn,
        score,
        season,
    }
}

#[test]
fn memory_never_outgrows_capacity() {
    let mut m: Memory<u8, usize, i64> = Memory::new();
    assert_eq!(m.capacity(), 50000);
    assert_eq!(m.len(), 0);
    for i in 0..m.capacity() + 100 {
        m.put(Experience { current_state: 0, action: i, next_state: 1, value: 7 });
        assert!(m.len() <= m.capacity());
    }
    assert_eq!(m.len(), m.capacity());
}

#[test]
fn sampled_experience_was_inserted() {
    let mut m: Memory<u8, usize, i64> = Memory::new();
    for i in 0..10 {
        m.put(Experience { current_state: 3, action: i, next_state: 4, value: 7 });
    }
    for _ in 0..50 {
        let e = m.sample();
        assert_eq!(e.current_state, 3);
        assert_eq!(e.next_state, 4);
        assert_eq!(e.value, 7);
        assert!(e.action < 10);
    }
}

#[test]
fn td_triple_is_one_hot_at_the_action() {
    let action = 4321;
    let (target, mask) = td_one_hot::<f32>(action, 2.5, 0.0, 1.0);
    assert_eq!(target.len(), ACTION_SIZE);
    assert_eq!(mask.len(), ACTION_SIZE);
    for j in 0..ACTION_SIZE {
        if j == action {
            assert_eq!(target[j], 2.5);
            assert_eq!(mask[j], 1.0);
        } else {
            assert_eq!(target[j], 0.0);
            assert_eq!(mask[j], 0.0);
        }
    }
    assert_eq!(mask.iter().filter(|x| **x != 0.0).count(), 1);
}

#[test]
fn target_refresh_every_tenth_step() {
    let due: Vec<i64> = (0..25).filter(|it| target_refresh_due(*it)).collect();
    assert_eq!(due, vec![9, 19]);
}

#[test]
fn masked_argmax_takes_first_best_legal_slot() {
    let mut scores = vec![0i64; 8];
    let mut mask = vec![0i8; 8];
    scores[1] = 50; // illegal, must be ignored
    scores[2] = 7;
    scores[5] = 9;
    scores[6] = 9;
    mask[2] = 1;
    mask[5] = 1;
    mask[6] = 1;
    assert_eq!(masked_argmax(&scores, &mask), Some(5));
    assert_eq!(masked_argmax(&scores, &vec![0i8; 8]), None);
}

#[test]
fn selection_answers_the_acceptance_decision_legally() {
    let with_dest = cerke_dqn::moves::AfterHalfAcceptance {
        dest: Some(coord(Row::I, Column::Z)),
    };
    let without = cerke_dqn::moves::AfterHalfAcceptance { dest: None };
    let candidates = Candidates::AfterCiurl(vec![with_dest, without]);
    for _ in 0..20 {
        let scores = vec![0i64; ACTION_SIZE];
        let (action, idx) = select_action(&candidates, &scores);
        assert!(idx == 20 * 81 + 81 * 81 + 22 || idx == 20 * 81 + 81 * 81 + 81);
        match action {
            Action::AfterHalf(c) => {
                assert_eq!(cerke_dqn::moves::encode_acceptance(&c), idx)
            }
            _ => panic!("an acceptance selection must be an acceptance answer"),
        }
    }
}

#[test]
fn selection_answers_the_resolution_decision_legally() {
    for _ in 0..20 {
        let scores = vec![0i64; ACTION_SIZE];
        let (action, idx) = select_action(&Candidates::Moved, &scores);
        assert!(idx == 20 * 81 + 81 * 81 + 81 + 1 || idx == 20 * 81 + 81 * 81 + 81 + 2);
        match action {
            Action::IsTymok(b) => assert_eq!(b, idx == 20 * 81 + 81 * 81 + 81 + 1),
            _ => panic!("a resolution selection must be a yes-or-no answer"),
        }
    }
}

#[test]
fn game_end_rewards_are_signed_for_the_mover() {
    // A win for the A side, seen by the IA-side mover holding 20
    // points: twenty points with the mover's negative sign, less the
    // mover's score, in milli-points.
    assert_eq!(game_end_reward(Some(Side::ASide), Side::IASide, 20), -40000);
    assert_eq!(game_end_reward(Some(Side::IASide), Side::IASide, 20), 0);
    assert_eq!(game_end_reward(None, Side::ASide, 20), -20000);
}

#[test]
fn settle_move_routes_each_resolution() {
    let moved = small_situation(Side::IASide, 20, 0);
    let fresh = small_situation(Side::ASide, 20, 0);

    let (next, res) =
        settle_move(moved.clone(), MoveResolution::NeitherTymokNorTaxot(fresh), Side::IASide, 20);
    assert!(matches!(next, Some(Phase::Start(_))));
    assert_eq!(res, ActionResult::Continue);

    let (next, res) = settle_move(moved.clone(), MoveResolution::HandExists, Side::IASide, 20);
    assert!(matches!(next, Some(Phase::Moved(_))));
    assert_eq!(res, ActionResult::Continue);

    let (next, res) = settle_move(
        moved,
        MoveResolution::GameEndsWithoutTymokTaxot { victor: Some(Side::ASide) },
        Side::IASide,
        20,
    );
    assert!(next.is_none());
    assert_eq!(res, ActionResult::Finish(-40000));
}

#[test]
fn settle_tymok_continues_or_scores_the_season() {
    let hand = HandResolution::HandExists {
        if_tymok: small_situation(Side::ASide, 20, 0),
        if_taxot: TaxotOutcome::NextSeason { mover_score_after: 25 },
    };
    let (next, res) = settle_tymok(true, hand.clone(), Side::IASide, 20);
    assert!(matches!(next, Some(Phase::Start(_))));
    assert_eq!(res, ActionResult::Continue);

    let (next, res) = settle_tymok(false, hand, Side::IASide, 20);
    assert!(next.is_none());
    assert_eq!(res, ActionResult::Finish(5000));

    let (next, res) = settle_tymok(
        false,
        HandResolution::GameEndsWithoutTymokTaxot { victor: None },
        Side::ASide,
        22,
    );
    assert!(next.is_none());
    assert_eq!(res, ActionResult::Finish(-22000));
}

#[test]
fn experience_reward_is_shaped_and_side_relative() {
    // Between the IA side's two decision points the score moved from
    // 20 to 22 within one season, and the A side's reserve grew by one
    // piece: 2000 milli-points plus minus one reserve unit, flipped to
    // the IA side's sign.
    let mut last = small_situation(Side::IASide, 20, 0);
    last.a_side_hop1zuo1.push(cerke_dqn::piece::NonTam2Piece {
        color: Color::Kok1,
        prof: Profession::Kauk2,
    });
    let last = Phase::Start(last);
    let prev = Phase::Start(small_situation(Side::IASide, 22, 0));
    let e = make_experience(last.clone(), prev.clone(), 42);
    assert_eq!(e.action, 42);
    assert_eq!(e.value, -1999);

    // Across seasons only the score movement counts.
    let last = Phase::Start(small_situation(Side::ASide, 20, 0));
    let prev = Phase::Start(small_situation(Side::ASide, 22, 1));
    let e = make_experience(last, prev, 42);
    assert_eq!(e.value, 2000);
}

#[test]
fn scripted_episodes_fill_the_memory_with_legal_actions() {
    // A scripted run of twenty inner episodes of up to a hundred steps
    // each: repeated opening selections with fresh scores, every
    // transition recorded, each episode closed by a terminal
    // resolution whose reward is summed.
    let board_moves = vec![
        PureMove::NormalMove(NormalMove::NonTamMoveSrcDst {
            src: coord(Row::E, Column::N),
            dest: coord(Row::E, Column::T),
        }),
        PureMove::NormalMove(NormalMove::NonTamMoveSrcDst {
            src: coord(Row::E, Column::N),
            dest: coord(Row::I, Column::N),
        }),
        PureMove::InfAfterStep {
            src: coord(Row::E, Column::N),
            step: coord(Row::E, Column::T),
            planned_direction: coord(Row::E, Column::X),
        },
    ];
    let hand_moves: Vec<PureMove> = Vec::new();
    let candidates =
        Candidates::Start { hop1zuo1: hand_moves.clone(), board: board_moves.clone() };
    let mask = candidates_to_mask(&hand_moves, &board_moves);

    let mut memory: Memory<Phase, usize, i64> = Memory::new();
    let mut terminal_sum: i64 = 0;
    for episode in 0..20i64 {
        let mut last: Option<Phase> = None;
        for step in 0..100i64 {
            let mut scores = vec![0i64; ACTION_SIZE];
            scores[11 * 81 + 12] = (episode + step) % 3; // favour one slot, vary it
            let (action, idx) = select_action(&candidates, &scores);
            assert!(idx < ACTION_SIZE);
            assert_eq!(mask[idx], 1);
            match action {
                Action::Pure(c) => assert_eq!(encode_action(&c), idx),
                _ => panic!("an opening selection must be an opening move"),
            }
            let here = Phase::Start(small_situation(
                if step % 2 == 0 { Side::IASide } else { Side::ASide },
                20 + (step % 5) as i32,
                0,
            ));
            if let Some(prev) = last.take() {
                memory.put(make_experience(prev, here.clone(), idx));
            }
            last = Some(here);
        }
        // The episode ends: an outright end for the side to move.
        let (next, res) = settle_move(
            small_situation(Side::IASide, 21, 0),
            MoveResolution::GameEndsWithoutTymokTaxot { victor: Some(Side::IASide) },
            Side::IASide,
            21,
        );
        assert!(next.is_none());
        match res {
            ActionResult::Finish(v) => terminal_sum += v,
            ActionResult::Continue => panic!("an outright end must finish the episode"),
        }
    }
    assert!(memory.len() > 0);
    for _ in 0..50 {
        let e = memory.sample();
        assert!(e.action < ACTION_SIZE);
        assert!(e.value.abs() <= 5000);
    }
    // Every terminal reward is a plain finite integer; here each
    // episode ended one point short of the mover's score.
    assert_eq!(terminal_sum, 20 * -1000);
}
