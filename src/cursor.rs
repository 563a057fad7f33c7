use vstd::prelude::*;

verus! {

/// Cursor row of the enemy's hand.
pub const ENEMY_HAND_ROW: u8 = 0;

/// Cursor row of the enemy's field.
pub const ENEMY_FIELD_ROW: u8 = 1;

/// Cursor row of the player's own field.
pub const PLAYER_FIELD_ROW: u8 = 2;

/// Cursor row of the player's own hand; the last row.
pub const PLAYER_HAND_ROW: u8 = 3;

/// The highest column of a field row.
pub const LAST_FIELD_COLUMN: i32 = 4;

/// `v` raised to at least `lo`, then lowered to at most `hi`; when `hi < lo` the
/// result is `hi`.
pub open spec fn clamp(v: int, lo: int, hi: int) -> int {
    let raised = if v < lo {
        lo
    } else {
        v
    };
    if raised > hi {
        hi
    } else {
        raised
    }
}

/// The highest column of a hand row holding `len` cards: `len - 1`, which is -1
/// for an empty hand, the column that marks "no card".
pub open spec fn hand_limit(len: nat) -> int {
    if len > i32::MAX {
        i32::MAX as int
    } else {
        len - 1
    }
}

/// The highest column of `row`.
pub open spec fn row_limit(row: int, enemy_hand_len: nat, player_hand_len: nat) -> int {
    if row == ENEMY_HAND_ROW {
        hand_limit(enemy_hand_len)
    } else if row == PLAYER_HAND_ROW {
        hand_limit(player_hand_len)
    } else {
        LAST_FIELD_COLUMN as int
    }
}

/// The cursor after a move by `y` rows and `x` columns: the row is clamped to
/// the rows that exist, then the column to the slots or cards of the new row.
pub open spec fn moved_cursor(
    current: (u8, i32),
    y: int,
    x: int,
    enemy_hand_len: nat,
    player_hand_len: nat,
) -> (u8, i32) {
    let row = clamp(current.0 + y, 0, PLAYER_HAND_ROW as int);
    let col = clamp(current.1 + x, 0, row_limit(row, enemy_hand_len, player_hand_len));
    (row as u8, col as i32)
}

/// A moved cursor always lands on a row that exists; on a field row its column
/// names one of the five slots, on a hand row one of the hand's cards, or -1 when
/// that hand is empty.
pub proof fn lemma_cursor_in_range(
    current: (u8, i32),
    y: int,
    x: int,
    enemy_hand_len: nat,
    player_hand_len: nat,
)
    ensures
        ({
            let r = moved_cursor(current, y, x, enemy_hand_len, player_hand_len);
            let len = if r.0 == ENEMY_HAND_ROW {
                enemy_hand_len
            } else {
                player_hand_len
            };
            &&& r.0 <= PLAYER_HAND_ROW
            &&& (r.0 == ENEMY_FIELD_ROW || r.0 == PLAYER_FIELD_ROW) ==> 0 <= r.1 <= LAST_FIELD_COLUMN
            &&& (r.0 == ENEMY_HAND_ROW || r.0 == PLAYER_HAND_ROW) && len > 0 ==> 0 <= r.1 < len
            &&& (r.0 == ENEMY_HAND_ROW || r.0 == PLAYER_HAND_ROW) && len == 0 ==> r.1 == -1
        }),
{
}

fn hand_limit_exec(len: usize) -> (r: i64)
    ensures
        r == hand_limit(len as nat),
{
    if len > i32::MAX as usize {
        i32::MAX as i64
    } else {
        len as i64 - 1
    }
}

/// Moves `current` by `y` rows and `x` columns and clamps the result, given the
/// number of cards in the enemy's hand and in the player's hand.
pub fn clamp_highlight(
    current: (u8, i32),
    y: i32,
    x: i32,
    enemy_hand_len: usize,
    player_hand_len: usize,
) -> (r: (u8, i32))
    ensures
        r == moved_cursor(
            current,
            y as int,
            x as int,
            enemy_hand_len as nat,
            player_hand_len as nat,
        ),
{
    let want_row: i64 = current.0 as i64 + y as i64;
    let row: i64 = if want_row < 0 {
        0
    } else if want_row > PLAYER_HAND_ROW as i64 {
        PLAYER_HAND_ROW as i64
    } else {
        want_row
    };
    let limit: i64 = if row == ENEMY_HAND_ROW as i64 {
        hand_limit_exec(enemy_hand_len)
    } else if row == PLAYER_HAND_ROW as i64 {
        hand_limit_exec(player_hand_len)
    } else {
        LAST_FIELD_COLUMN as i64
    };
    let want_col: i64 = current.1 as i64 + x as i64;
    let raised: i64 = if want_col < 0 {
        0
    } else {
        want_col
    };
    let col: i64 = if raised > limit {
        limit
    } else {
        raised
    };
    (row as u8, col as i32)
}

} // verus!
