//! Feature-vector encoding of a game situation.
//!
//! A feature vector has `STATE_SIZE` entries in `{0, 1}`. The first
//! segment one-hot-codes each of the 81 cells over the 42 possible cell
//! contents, viewed from the player whose turn it is. Behind it stand
//! two frames of `RESERVE_FRAME` slots, first for the turn player and
//! then for the other player: per reserve key a bucket whose lone set
//! slot is the offset of that key plus the count of such pieces held,
//! the bucket widths coming from a fixed per-kind capacity table.
use vstd::prelude::*;

use crate::board::{Coord, coord_index, coord_to_num};
use crate::mask::zero_vec;
use crate::piece::{NonTam2Piece, Piece, Side, get_piece_key, lemma_piece_code_flip, piece_code,
    piece_key, piece_to_num};
use crate::state::Phase;

verus! {

/// Number of entries of the board segment: 81 cells, 42 contents each.
pub const BOARD_SEGMENT: usize = 42 * 81;

/// Number of slots of one player's reserve frame.
pub const RESERVE_FRAME: usize = 2 * (2 + 9 + 3 + 3 + 3 + 3 + 3 + 3 + 3 + 2);

/// Total number of entries of a feature vector: the board segment and
/// one reserve frame for each player.
pub const STATE_SIZE: usize = BOARD_SEGMENT + 2 * RESERVE_FRAME;

/// First slot of the bucket of reserve key `k` within a player frame.
pub open spec fn key_offset(k: int) -> int {
    if k == 0 {
        0
    } else if k == 1 {
        2
    } else if k == 2 {
        11
    } else if k == 3 {
        14
    } else if k == 4 {
        17
    } else if k == 5 {
        20
    } else if k == 6 {
        23
    } else if k == 7 {
        26
    } else if k == 8 {
        29
    } else if k == 9 {
        31
    } else if k == 10 {
        33
    } else if k == 11 {
        35
    } else if k == 12 {
        44
    } else if k == 13 {
        47
    } else if k == 14 {
        50
    } else if k == 15 {
        53
    } else if k == 16 {
        56
    } else if k == 17 {
        59
    } else if k == 18 {
        62
    } else {
        64
    }
}

/// How many pieces of reserve key `k` a player can hold at most: the
/// bucket of key `k` has `key_capacity(k) + 1` slots.
pub open spec fn key_capacity(k: int) -> int {
    if k == 1 || k == 11 {
        8
    } else if k == 0 || k == 8 || k == 9 || k == 10 || k == 18 {
        1
    } else if k == 19 {
        3
    } else {
        2
    }
}

/// First slot of the bucket of reserve key `k`, executably.
pub fn key_offset_of(k: usize) -> (n: usize)
    requires
        k < 20,
    ensures
        n as int == key_offset(k as int),
        n <= 64,
{
    match k {
        0 => 0,
        1 => 2,
        2 => 11,
        3 => 14,
        4 => 17,
        5 => 20,
        6 => 23,
        7 => 26,
        8 => 29,
        9 => 31,
        10 => 33,
        11 => 35,
        12 => 44,
        13 => 47,
        14 => 50,
        15 => 53,
        16 => 56,
        17 => 59,
        18 => 62,
        _ => 64,
    }
}

/// Every bucket lies inside a player frame: its last slot is below
/// `RESERVE_FRAME`.
pub proof fn lemma_key_table()
    ensures
        forall|k: int| 0 <= k < 20 ==> 0 <= key_offset(k),
        forall|k: int| 0 <= k < 20 ==> key_offset(k) + key_capacity(k) < RESERVE_FRAME,
{
}

/// How many pieces of reserve key `k` the listed reserve holds.
pub open spec fn count_key(s: Seq<NonTam2Piece>, k: int) -> int
    decreases s.len(),
{
    if s.len() == 0 {
        0
    } else {
        count_key(s.drop_last(), k) + if piece_key(s.last()) == k {
            1int
        } else {
            0int
        }
    }
}

/// A key's count never exceeds the reserve's length.
pub proof fn lemma_count_key_le_len(s: Seq<NonTam2Piece>, k: int)
    ensures
        0 <= count_key(s, k) <= s.len(),
    decreases s.len(),
{
    if s.len() > 0 {
        lemma_count_key_le_len(s.drop_last(), k);
    }
}

/// A reserve within capacity: no key is held more often than the bucket
/// table allows.
pub open spec fn reserve_within_capacity(s: Seq<NonTam2Piece>) -> bool {
    forall|k: int| 0 <= k < 20 ==> count_key(s, k) <= key_capacity(k)
}

/// The content code of a cell under the listed board, the later of two
/// entries on one cell counting, `0` (empty) when none is on it.
pub open spec fn cell_code(board: Seq<(Coord, Piece)>, cell: int, viewer: Side) -> int
    decreases board.len(),
{
    if board.len() == 0 {
        0
    } else if coord_index(board.last().0) == cell {
        piece_code(board.last().1, viewer)
    } else {
        cell_code(board.drop_last(), cell, viewer)
    }
}

/// The bit of slot `s` of a player frame: `1` exactly when some key's
/// bucket puts its count there.
pub open spec fn reserve_bit(r: Seq<NonTam2Piece>, s: int) -> i8 {
    if exists|k: int| 0 <= k < 20 && s == key_offset(k) + count_key(r, k) {
        1
    } else {
        0
    }
}

/// The bit of entry `j` of the feature vector of the given board,
/// reserves and turn player.
pub open spec fn feature_bit(
    board: Seq<(Coord, Piece)>,
    a_reserve: Seq<NonTam2Piece>,
    ia_reserve: Seq<NonTam2Piece>,
    turn: Side,
    j: int,
) -> i8 {
    let turn_reserve = if turn == Side::ASide {
        a_reserve
    } else {
        ia_reserve
    };
    let other_reserve = if turn == Side::ASide {
        ia_reserve
    } else {
        a_reserve
    };
    if j < BOARD_SEGMENT {
        if j % 42 == cell_code(board, j / 42, turn) {
            1
        } else {
            0
        }
    } else if j < BOARD_SEGMENT + RESERVE_FRAME {
        reserve_bit(turn_reserve, j - BOARD_SEGMENT)
    } else {
        reserve_bit(other_reserve, j - BOARD_SEGMENT - RESERVE_FRAME)
    }
}

/// A cell code lies in `[0, 42)`.
pub proof fn lemma_cell_code_range(board: Seq<(Coord, Piece)>, cell: int, viewer: Side)
    ensures
        0 <= cell_code(board, cell, viewer) < 42,
    decreases board.len(),
{
    if board.len() > 0 && coord_index(board.last().0) != cell {
        lemma_cell_code_range(board.drop_last(), cell, viewer);
    }
}

/// Law (feature shape, board segment): each cell's block of 42 entries
/// carries exactly one set entry — the one at the cell's content code.
/// Over the 81 blocks that is exactly 81 set entries.
pub proof fn lemma_feature_one_hot_cells(
    board: Seq<(Coord, Piece)>,
    a_reserve: Seq<NonTam2Piece>,
    ia_reserve: Seq<NonTam2Piece>,
    turn: Side,
)
    ensures
        forall|cell: int, c: int|
            0 <= cell < 81 && 0 <= c < 42 ==> (#[trigger] feature_bit(
                board,
                a_reserve,
                ia_reserve,
                turn,
                cell * 42 + c,
            ) == 1 <==> c == cell_code(board, cell, turn)),
{
    assert forall|cell: int, c: int| 0 <= cell < 81 && 0 <= c < 42 implies (#[trigger] feature_bit(
        board,
        a_reserve,
        ia_reserve,
        turn,
        cell * 42 + c,
    ) == 1 <==> c == cell_code(board, cell, turn)) by {
        lemma_cell_code_range(board, cell, turn);
        let j = cell * 42 + c;
        assert(0 <= j < 3402 && j / 42 == cell && j % 42 == c) by (nonlinear_arith)
            requires
                j == cell * 42 + c,
                0 <= cell < 81,
                0 <= c < 42,
        ;
    }
}

/// Law (feature shape, reserve frames): within one player's frame each
/// of the 20 reserve keys sets exactly one slot — the key's offset plus
/// its count — and no two keys share a slot, the counts staying within
/// the bucket table. That is exactly 20 set entries per frame.
pub proof fn lemma_reserve_frame_one_hot(r: Seq<NonTam2Piece>)
    requires
        reserve_within_capacity(r),
    ensures
        forall|k: int|
            0 <= k < 20 ==> #[trigger] reserve_bit(r, key_offset(k) + count_key(r, k)) == 1,
        forall|k1: int, k2: int|
            0 <= k1 < k2 < 20 ==> key_offset(k1) + count_key(r, k1) != key_offset(k2) + count_key(
                r,
                k2,
            ),
{
    assert forall|k: int| 0 <= k < 20 implies #[trigger] reserve_bit(
        r,
        key_offset(k) + count_key(r, k),
    ) == 1 by {
        let s = key_offset(k) + count_key(r, k);
        assert(exists|kk: int|
            0 <= kk < 20 && s == key_offset(kk) + #[trigger] count_key(r, kk)) by {
            assert(s == key_offset(k) + count_key(r, k));
        }
    }
    assert forall|k1: int, k2: int| 0 <= k1 < k2 < 20 implies key_offset(k1) + count_key(r, k1)
        != key_offset(k2) + count_key(r, k2) by {
        lemma_count_key_le_len(r, k1);
        lemma_count_key_le_len(r, k2);
        assert(key_offset(k1) + key_capacity(k1) < key_offset(k2));
    }
}

/// How many entries of `s` are set to one.
pub open spec fn ones(s: Seq<i8>) -> int
    decreases s.len(),
{
    if s.len() == 0 {
        0
    } else {
        ones(s.drop_last()) + if s.last() == 1 {
            1int
        } else {
            0int
        }
    }
}

/// Extending a prefix by one entry adds that entry's bit to the count.
proof fn lemma_ones_step(s: Seq<i8>, m: int)
    requires
        0 <= m < s.len(),
    ensures
        ones(s.take(m + 1)) == ones(s.take(m)) + if s[m] == 1 {
            1int
        } else {
            0int
        },
{
    assert(s.take(m + 1).drop_last() =~= s.take(m));
    assert(s.take(m + 1).last() == s[m]);
}

/// The running count of set entries over the board segment: each full
/// cell block contributes one, and a partial block contributes its one
/// once the block offset has passed the cell's code.
proof fn lemma_board_prefix(
    res: Seq<i8>,
    board: Seq<(Coord, Piece)>,
    a_reserve: Seq<NonTam2Piece>,
    ia_reserve: Seq<NonTam2Piece>,
    turn: Side,
    j: int,
)
    requires
        res.len() == STATE_SIZE,
        forall|i: int|
            0 <= i < STATE_SIZE ==> res[i] == feature_bit(board, a_reserve, ia_reserve, turn, i),
        0 <= j <= BOARD_SEGMENT,
    ensures
        ones(res.take(j)) == j / 42 + if j % 42 > cell_code(board, j / 42, turn) {
            1int
        } else {
            0int
        },
    decreases j,
{
    lemma_cell_code_range(board, j / 42, turn);
    if j == 0 {
        assert(res.take(0) =~= Seq::<i8>::empty());
    } else {
        lemma_board_prefix(res, board, a_reserve, ia_reserve, turn, j - 1);
        lemma_ones_step(res, j - 1);
        let k1 = (j - 1) / 42;
        let r1 = (j - 1) % 42;
        lemma_cell_code_range(board, k1, turn);
        assert(res[j - 1] == feature_bit(board, a_reserve, ia_reserve, turn, j - 1));
        if r1 < 41 {
            assert(j / 42 == k1 && j % 42 == r1 + 1) by (nonlinear_arith)
                requires
                    k1 == (j - 1) / 42,
                    r1 == (j - 1) % 42,
                    r1 < 41,
                    j >= 1,
            ;
        } else {
            assert(j / 42 == k1 + 1 && j % 42 == 0) by (nonlinear_arith)
                requires
                    k1 == (j - 1) / 42,
                    r1 == (j - 1) % 42,
                    r1 == 41,
                    j >= 1,
            ;
        }
    }
}

/// How many of the first `k` reserve keys put their set slot below
/// `s0`.
pub open spec fn slots_lt(r: Seq<NonTam2Piece>, s0: int, k: int) -> int
    decreases k,
{
    if k <= 0 {
        0
    } else {
        slots_lt(r, s0, k - 1) + if key_offset(k - 1) + count_key(r, k - 1) < s0 {
            1int
        } else {
            0int
        }
    }
}

/// Raising the bound by one admits exactly the key whose slot sits on
/// it, if any: the keys' slots are pairwise distinct.
proof fn lemma_slots_lt_step(r: Seq<NonTam2Piece>, s0: int, k: int)
    requires
        reserve_within_capacity(r),
        0 <= k <= 20,
    ensures
        slots_lt(r, s0 + 1, k) == slots_lt(r, s0, k) + if exists|kk: int|
            0 <= kk < k && key_offset(kk) + count_key(r, kk) == s0 {
            1int
        } else {
            0int
        },
    decreases k,
{
    if k > 0 {
        lemma_slots_lt_step(r, s0, k - 1);
        lemma_reserve_frame_one_hot(r);
        if key_offset(k - 1) + count_key(r, k - 1) == s0 {
            assert(!(exists|kk: int|
                0 <= kk < k - 1 && key_offset(kk) + count_key(r, kk) == s0));
        } else {
            if exists|kk: int| 0 <= kk < k && key_offset(kk) + count_key(r, kk) == s0 {
                let kk = choose|kk: int|
                    0 <= kk < k && key_offset(kk) + count_key(r, kk) == s0;
                assert(0 <= kk < k - 1 && key_offset(kk) + count_key(r, kk) == s0);
            }
        }
    }
}

/// No key's slot lies below zero.
proof fn lemma_slots_lt_zero(r: Seq<NonTam2Piece>, k: int)
    requires
        0 <= k <= 20,
    ensures
        slots_lt(r, 0, k) == 0,
    decreases k,
{
    if k > 0 {
        lemma_slots_lt_zero(r, k - 1);
        lemma_key_table();
        lemma_count_key_le_len(r, k - 1);
    }
}

/// Every key's slot lies below the frame bound, so the full frame
/// admits all twenty keys.
proof fn lemma_slots_lt_all(r: Seq<NonTam2Piece>, k: int)
    requires
        reserve_within_capacity(r),
        0 <= k <= 20,
    ensures
        slots_lt(r, RESERVE_FRAME as int, k) == k,
    decreases k,
{
    if k > 0 {
        lemma_slots_lt_all(r, k - 1);
        lemma_key_table();
        assert(count_key(r, k - 1) <= key_capacity(k - 1));
    }
}

/// The running count of set entries over one reserve frame rooted at
/// `base` equals the number of keys whose slot the prefix has passed.
proof fn lemma_frame_prefix(res: Seq<i8>, r: Seq<NonTam2Piece>, base: int, s0: int)
    requires
        res.len() == STATE_SIZE,
        0 <= base,
        base + RESERVE_FRAME <= STATE_SIZE,
        forall|s: int| 0 <= s < RESERVE_FRAME ==> #[trigger] res[base + s] == reserve_bit(r, s),
        reserve_within_capacity(r),
        0 <= s0 <= RESERVE_FRAME,
    ensures
        ones(res.take(base + s0)) == ones(res.take(base)) + slots_lt(r, s0, 20),
    decreases s0,
{
    if s0 == 0 {
        lemma_slots_lt_zero(r, 20);
    } else {
        lemma_frame_prefix(res, r, base, s0 - 1);
        lemma_ones_step(res, base + s0 - 1);
        lemma_slots_lt_step(r, s0 - 1, 20);
        assert(res[base + (s0 - 1)] == reserve_bit(r, s0 - 1));
    }
}

/// Law (feature shape, count): an encoded vector carries exactly
/// `81 + 2 * 20` set entries — one per cell block, and one per reserve
/// key in each player frame, the reserves staying within the bucket
/// table.
pub proof fn lemma_feature_ones(
    res: Seq<i8>,
    board: Seq<(Coord, Piece)>,
    a_reserve: Seq<NonTam2Piece>,
    ia_reserve: Seq<NonTam2Piece>,
    turn: Side,
)
    requires
        res.len() == STATE_SIZE,
        forall|j: int|
            0 <= j < STATE_SIZE ==> res[j] == feature_bit(board, a_reserve, ia_reserve, turn, j),
        reserve_within_capacity(a_reserve),
        reserve_within_capacity(ia_reserve),
    ensures
        ones(res) == 81 + 2 * 20,
{
    let turn_reserve = if turn == Side::ASide {
        a_reserve
    } else {
        ia_reserve
    };
    let other_reserve = if turn == Side::ASide {
        ia_reserve
    } else {
        a_reserve
    };
    lemma_board_prefix(res, board, a_reserve, ia_reserve, turn, BOARD_SEGMENT as int);
    lemma_cell_code_range(board, 81, turn);
    assert forall|s: int| 0 <= s < RESERVE_FRAME implies #[trigger] res[BOARD_SEGMENT + s]
        == reserve_bit(turn_reserve, s) by {
        assert(res[BOARD_SEGMENT + s] == feature_bit(
            board,
            a_reserve,
            ia_reserve,
            turn,
            BOARD_SEGMENT + s,
        ));
    }
    lemma_frame_prefix(res, turn_reserve, BOARD_SEGMENT as int, RESERVE_FRAME as int);
    lemma_slots_lt_all(turn_reserve, 20);
    assert forall|s: int|
        0 <= s < RESERVE_FRAME implies #[trigger] res[BOARD_SEGMENT + RESERVE_FRAME + s]
        == reserve_bit(other_reserve, s) by {
        assert(res[BOARD_SEGMENT + RESERVE_FRAME + s] == feature_bit(
            board,
            a_reserve,
            ia_reserve,
            turn,
            BOARD_SEGMENT + RESERVE_FRAME + s,
        ));
    }
    lemma_frame_prefix(
        res,
        other_reserve,
        BOARD_SEGMENT as int + RESERVE_FRAME as int,
        RESERVE_FRAME as int,
    );
    lemma_slots_lt_all(other_reserve, 20);
    assert(res.take(STATE_SIZE as int) =~= res);
}

/// A cell's content codes under the two viewers agree on everything
/// but the ownership offset: an empty cell or the Tam2 piece codes the
/// same both ways, and an ordinary piece's code moves by exactly 20.
pub proof fn lemma_cell_code_flip(board: Seq<(Coord, Piece)>, cell: int)
    ensures
        ({
            let ca = cell_code(board, cell, Side::ASide);
            let cb = cell_code(board, cell, Side::IASide);
            (ca == cb && (ca == 0 || ca == 41)) || ca - cb == 20 || cb - ca == 20
        }),
    decreases board.len(),
{
    if board.len() > 0 {
        if coord_index(board.last().0) == cell {
            lemma_piece_code_flip(board.last().1, Side::ASide, Side::IASide);
        } else {
            lemma_cell_code_flip(board.drop_last(), cell);
        }
    }
}

/// Law (perspective flip): one physical position, two viewers. The
/// two reserve frames swap places between the viewers, and on the
/// board each cell's code keeps its colour and profession while the
/// ownership offset flips — board geometry is shared, ownership tags
/// are not.
pub proof fn lemma_perspective_flip(
    board: Seq<(Coord, Piece)>,
    a_reserve: Seq<NonTam2Piece>,
    ia_reserve: Seq<NonTam2Piece>,
)
    ensures
        forall|s: int|
            0 <= s < RESERVE_FRAME ==> #[trigger] feature_bit(
                board,
                a_reserve,
                ia_reserve,
                Side::ASide,
                BOARD_SEGMENT + s,
            ) == feature_bit(
                board,
                a_reserve,
                ia_reserve,
                Side::IASide,
                BOARD_SEGMENT + RESERVE_FRAME + s,
            ),
        forall|s: int|
            0 <= s < RESERVE_FRAME ==> #[trigger] feature_bit(
                board,
                a_reserve,
                ia_reserve,
                Side::ASide,
                BOARD_SEGMENT + RESERVE_FRAME + s,
            ) == feature_bit(board, a_reserve, ia_reserve, Side::IASide, BOARD_SEGMENT + s),
        forall|cell: int|
            0 <= cell < 81 ==> {
                let ca = #[trigger] cell_code(board, cell, Side::ASide);
                let cb = cell_code(board, cell, Side::IASide);
                (ca == cb && (ca == 0 || ca == 41)) || ca - cb == 20 || cb - ca == 20
            },
{
    assert forall|cell: int| 0 <= cell < 81 implies {
        let ca = #[trigger] cell_code(board, cell, Side::ASide);
        let cb = cell_code(board, cell, Side::IASide);
        (ca == cb && (ca == 0 || ca == 41)) || ca - cb == 20 || cb - ca == 20
    } by {
        lemma_cell_code_flip(board, cell);
    }
}

/// A vector of `n` zero counters.
fn zero_usize_vec(n: usize) -> (v: Vec<usize>)
    ensures
        v@.len() == n,
        forall|i: int| 0 <= i < n ==> v@[i] == 0,
{
    let mut v: Vec<usize> = Vec::new();
    while v.len() < n
        invariant
            v@.len() <= n,
            forall|i: int| 0 <= i < v@.len() ==> v@[i] == 0,
        decreases n - v@.len(),
    {
        v.push(0);
    }
    v
}

/// Writes one player's reserve frame, rooted at `base`, into a stretch
/// of zeroed entries: per key a single `1` at the key's offset plus its
/// count.
fn fill_reserve_frame(res: &mut Vec<i8>, reserve: &Vec<NonTam2Piece>, base: usize)
    requires
        reserve_within_capacity(reserve@),
        old(res)@.len() == STATE_SIZE,
        base + RESERVE_FRAME <= STATE_SIZE,
        forall|s: int| 0 <= s < RESERVE_FRAME ==> #[trigger] old(res)@[base + s] == 0,
    ensures
        final(res)@.len() == STATE_SIZE,
        forall|s: int|
            0 <= s < RESERVE_FRAME ==> #[trigger] final(res)@[base + s] == reserve_bit(reserve@, s),
        forall|j: int|
            0 <= j < STATE_SIZE && !(base <= j < base + RESERVE_FRAME) ==> final(res)@[j] == old(
                res,
            )@[j],
{
    let mut hk = zero_usize_vec(20);
    let mut t: usize = 0;
    while t < reserve.len()
        invariant
            hk@.len() == 20,
            t <= reserve@.len(),
            forall|k: int|
                0 <= k < 20 ==> hk@[k] as int == count_key(reserve@.take(t as int), k),
        decreases reserve@.len() - t,
    {
        let key = get_piece_key(&reserve[t]);
        proof {
            lemma_count_key_le_len(reserve@.take(t as int), key as int);
            assert(reserve@.take(t as int).len() == t);
        }
        let cur = hk[key];
        hk.set(key, cur + 1);
        proof {
            assert(reserve@.take(t as int + 1).drop_last() =~= reserve@.take(t as int));
            assert(reserve@.take(t as int + 1).last() == reserve@[t as int]);
        }
        t += 1;
    }
    proof {
        assert(reserve@.take(reserve@.len() as int) =~= reserve@);
    }
    let mut k: usize = 0;
    while k < 20
        invariant
            res@.len() == STATE_SIZE,
            hk@.len() == 20,
            base + RESERVE_FRAME <= STATE_SIZE,
            k <= 20,
            reserve_within_capacity(reserve@),
            forall|kk: int| 0 <= kk < 20 ==> hk@[kk] as int == count_key(reserve@, kk),
            forall|s: int|
                0 <= s < RESERVE_FRAME ==> #[trigger] res@[base + s] as int == (if exists|kk: int|
                    0 <= kk < k && s == key_offset(kk) + count_key(reserve@, kk) {
                    1int
                } else {
                    0int
                }),
            forall|j: int|
                0 <= j < STATE_SIZE && !(base <= j < base + RESERVE_FRAME) ==> res@[j] == old(
                    res,
                )@[j],
        decreases 20 - k,
    {
        let off = key_offset_of(k);
        let cnt = hk[k];
        proof {
            lemma_key_table();
            assert(count_key(reserve@, k as int) <= key_capacity(k as int));
        }
        res.set(base + off + cnt, 1);
        k += 1;
    }
}

/// Encodes a board, the two reserves and the turn player as a feature
/// vector: the board one-hot per cell, then the turn player's reserve
/// frame, then the other player's.
pub fn state_a_to_feature(
    board: &Vec<(Coord, Piece)>,
    a_side_hop1zuo1: &Vec<NonTam2Piece>,
    ia_side_hop1zuo1: &Vec<NonTam2Piece>,
    whose_turn: &Side,
) -> (res: Vec<i8>)
    requires
        reserve_within_capacity(a_side_hop1zuo1@),
        reserve_within_capacity(ia_side_hop1zuo1@),
    ensures
        res@.len() == STATE_SIZE,
        forall|j: int|
            0 <= j < STATE_SIZE ==> res@[j] == feature_bit(
                board@,
                a_side_hop1zuo1@,
                ia_side_hop1zuo1@,
                *whose_turn,
                j,
            ),
{
    let mut res = zero_vec(STATE_SIZE);
    let mut hm = zero_usize_vec(81);
    let mut t: usize = 0;
    while t < board.len()
        invariant
            hm@.len() == 81,
            t <= board@.len(),
            forall|i: int|
                0 <= i < 81 ==> hm@[i] as int == cell_code(board@.take(t as int), i, *whose_turn),
            forall|i: int| 0 <= i < 81 ==> hm@[i] < 42,
        decreases board@.len() - t,
    {
        let pair = board[t];
        let ci = coord_to_num(&pair.0);
        let pc = piece_to_num(&pair.1, whose_turn);
        hm.set(ci, pc);
        proof {
            assert(board@.take(t as int + 1).drop_last() =~= board@.take(t as int));
            assert(board@.take(t as int + 1).last() == board@[t as int]);
        }
        t += 1;
    }
    proof {
        assert(board@.take(board@.len() as int) =~= board@);
    }
    let mut i: usize = 0;
    while i < 81
        invariant
            res@.len() == STATE_SIZE,
            hm@.len() == 81,
            i <= 81,
            forall|ii: int|
                0 <= ii < 81 ==> hm@[ii] as int == cell_code(board@, ii, *whose_turn) && hm@[ii]
                    < 42,
            forall|j: int|
                0 <= j < BOARD_SEGMENT ==> res@[j] as int == (if j / 42 < i && j % 42 == cell_code(
                    board@,
                    j / 42,
                    *whose_turn,
                ) {
                    1int
                } else {
                    0int
                }),
            forall|j: int| BOARD_SEGMENT <= j < STATE_SIZE ==> res@[j] == 0,
        decreases 81 - i,
    {
        let code = hm[i];
        let j0 = i * 42 + code;
        proof {
            assert(j0 / 42 == i && j0 % 42 == code) by (nonlinear_arith)
                requires
                    j0 == i * 42 + code,
                    code < 42,
                    i < 81,
            ;
        }
        res.set(j0, 1);
        i += 1;
    }
    let turn_first_is_a = match whose_turn {
        Side::ASide => true,
        Side::IASide => false,
    };
    if turn_first_is_a {
        fill_reserve_frame(&mut res, a_side_hop1zuo1, BOARD_SEGMENT);
        fill_reserve_frame(&mut res, ia_side_hop1zuo1, BOARD_SEGMENT + RESERVE_FRAME);
        proof {
            lemma_feature_assembled(
                res@,
                board@,
                a_side_hop1zuo1@,
                ia_side_hop1zuo1@,
                *whose_turn,
                a_side_hop1zuo1@,
                ia_side_hop1zuo1@,
            );
        }
    } else {
        fill_reserve_frame(&mut res, ia_side_hop1zuo1, BOARD_SEGMENT);
        fill_reserve_frame(&mut res, a_side_hop1zuo1, BOARD_SEGMENT + RESERVE_FRAME);
        proof {
            lemma_feature_assembled(
                res@,
                board@,
                a_side_hop1zuo1@,
                ia_side_hop1zuo1@,
                *whose_turn,
                ia_side_hop1zuo1@,
                a_side_hop1zuo1@,
            );
        }
    }
    res
}

/// Joins the three filled segments into the per-entry statement of the
/// whole feature vector.
proof fn lemma_feature_assembled(
    res: Seq<i8>,
    board: Seq<(Coord, Piece)>,
    a_reserve: Seq<NonTam2Piece>,
    ia_reserve: Seq<NonTam2Piece>,
    turn: Side,
    turn_reserve: Seq<NonTam2Piece>,
    other_reserve: Seq<NonTam2Piece>,
) requires
    res.len() == STATE_SIZE,
    turn_reserve == (if turn == Side::ASide {
        a_reserve
    } else {
        ia_reserve
    }),
    other_reserve == (if turn == Side::ASide {
        ia_reserve
    } else {
        a_reserve
    }),
    forall|j: int|
        0 <= j < BOARD_SEGMENT ==> res[j] as int == (if j / 42 < 81 && j % 42 == cell_code(
            board,
            j / 42,
            turn,
        ) {
            1int
        } else {
            0int
        }),
    forall|s: int| 0 <= s < RESERVE_FRAME ==> #[trigger] res[BOARD_SEGMENT + s] == reserve_bit(
        turn_reserve,
        s,
    ),
    forall|s: int|
        0 <= s < RESERVE_FRAME ==> #[trigger] res[BOARD_SEGMENT + RESERVE_FRAME + s]
            == reserve_bit(other_reserve, s),
 ensures
    forall|j: int|
        0 <= j < STATE_SIZE ==> res[j] == feature_bit(board, a_reserve, ia_reserve, turn, j),
{
    assert forall|j: int| 0 <= j < STATE_SIZE implies res[j] == feature_bit(
        board,
        a_reserve,
        ia_reserve,
        turn,
        j,
    ) by {
        if j < BOARD_SEGMENT {
            assert(j / 42 < 81 && 0 <= j / 42) by (nonlinear_arith)
                requires
                    0 <= j < 3402,
            ;
        } else if j < BOARD_SEGMENT + RESERVE_FRAME {
            assert(res[BOARD_SEGMENT + (j - BOARD_SEGMENT)] == reserve_bit(
                turn_reserve,
                j - BOARD_SEGMENT,
            ));
        } else {
            assert(res[BOARD_SEGMENT + RESERVE_FRAME + (j - BOARD_SEGMENT - RESERVE_FRAME)]
                == reserve_bit(other_reserve, j - BOARD_SEGMENT - RESERVE_FRAME));
        }
    }
}

/// Encodes a phase: every point of the turn cycle is encoded from its
/// situation data alone, viewed from the player whose turn it is.
pub fn state_to_feature(state: &Phase) -> (res: Vec<i8>)
    requires
        reserve_within_capacity(state.spec_situation().a_side_hop1zuo1@),
        reserve_within_capacity(state.spec_situation().ia_side_hop1zuo1@),
    ensures
        res@.len() == STATE_SIZE,
        forall|j: int|
            0 <= j < STATE_SIZE ==> res@[j] == feature_bit(
                state.spec_situation().board@,
                state.spec_situation().a_side_hop1zuo1@,
                state.spec_situation().ia_side_hop1zuo1@,
                state.spec_situation().whose_turn,
                j,
            ),
{
    let s = state.situation();
    state_a_to_feature(&s.board, &s.a_side_hop1zuo1, &s.ia_side_hop1zuo1, &s.whose_turn)
}

} // verus!
