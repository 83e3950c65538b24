//! Counting the cells of a board.

use crate::snake::Vector2;
use crate::state::{in_reading_order, GameState};
use vstd::prelude::*;

verus! {

/// The cell with number `i` when the cells of a grid `w` wide are numbered
/// row by row.
pub open spec fn cell_at(w: int, i: int) -> Vector2 {
    Vector2 { x: (i % w) as i32, y: (i / w) as i32 }
}

/// Numbering the cells of a `w` by `h` grid row by row reaches every cell of
/// the grid once, and nothing else.
proof fn lemma_numbering(w: int, h: int)
    requires
        0 < w <= i32::MAX,
        0 < h <= i32::MAX,
    ensures
        forall|i: int|
            0 <= i < w * h ==> {
                &&& 0 <= (#[trigger] cell_at(w, i)).x < w
                &&& 0 <= cell_at(w, i).y < h
                &&& cell_at(w, i).y * w + cell_at(w, i).x == i
            },
        forall|x: int, y: int|
            0 <= x < w && 0 <= y < h ==> 0 <= #[trigger] (y * w + x) < w * h && cell_at(
                w,
                y * w + x,
            ) == (Vector2 { x: x as i32, y: y as i32 }),
{
    assert forall|i: int| 0 <= i < w * h implies {
        &&& 0 <= (#[trigger] cell_at(w, i)).x < w
        &&& 0 <= cell_at(w, i).y < h
        &&& cell_at(w, i).y * w + cell_at(w, i).x == i
    } by {
        vstd::arithmetic::div_mod::lemma_fundamental_div_mod(i, w);
        vstd::arithmetic::div_mod::lemma_mod_bound(i, w);
        vstd::arithmetic::div_mod::lemma_div_pos_is_pos(i, w);
        vstd::arithmetic::div_mod::lemma_multiply_divide_lt(i, w, h);
        assert(w * (i / w) == (i / w) * w) by (nonlinear_arith);
    }
    assert forall|x: int, y: int| 0 <= x < w && 0 <= y < h implies 0 <= #[trigger] (y * w + x) < w
        * h && cell_at(w, y * w + x) == (Vector2 { x: x as i32, y: y as i32 }) by {
        assert(0 <= y * w + x < w * h) by (nonlinear_arith)
            requires
                0 <= x < w,
                0 <= y < h,
        ;
        vstd::arithmetic::div_mod::lemma_fundamental_div_mod_converse(y * w + x, w, y, x);
    }
}

/// The cells of a `w` by `h` grid, row by row.
pub open spec fn board_cells(w: int, h: int) -> Seq<Vector2> {
    Seq::new((w * h) as nat, |i: int| cell_at(w, i))
}

/// A `w` by `h` grid has `w * h` cells: listed row by row, none comes twice,
/// and a cell is listed exactly if it lies on the grid.
proof fn lemma_board_cells(w: int, h: int)
    requires
        0 < w <= i32::MAX,
        0 < h <= i32::MAX,
    ensures
        board_cells(w, h).len() == w * h,
        board_cells(w, h).no_duplicates(),
        forall|p: Vector2|
            board_cells(w, h).contains(p) <==> 0 <= p.x < w && 0 <= p.y < h,
{
    lemma_numbering(w, h);
    assert(0 <= w * h) by (nonlinear_arith)
        requires
            0 < w,
            0 < h,
    ;
    let board = board_cells(w, h);
    assert forall|i: int, j: int|
        0 <= i < board.len() && 0 <= j < board.len() && i != j implies board[i] != board[j] by {
        assert(cell_at(w, i).y * w + cell_at(w, i).x == i);
        assert(cell_at(w, j).y * w + cell_at(w, j).x == j);
    }
    assert forall|p: Vector2| 0 <= p.x < w && 0 <= p.y < h implies board.contains(p) by {
        assert(board[p.y * w + p.x] == p);
    }
    assert forall|p: Vector2| board.contains(p) implies 0 <= p.x < w && 0 <= p.y < h by {
        let i = choose|i: int| 0 <= i < board.len() && board[i] == p;
        assert(p == cell_at(w, i));
    }
}

/// Cells in reading order are all different.
proof fn lemma_sorted_no_duplicates(cells: Seq<Vector2>)
    requires
        in_reading_order(cells),
    ensures
        cells.no_duplicates(),
{
    assert forall|i: int, j: int|
        0 <= i < cells.len() && 0 <= j < cells.len() && i != j implies cells[i] != cells[j] by {
        if i < j {
            assert(cells[i].precedes(cells[j]));
        } else {
            assert(cells[j].precedes(cells[i]));
        }
    }
}

/// Two sequences in reading order that hold the same cells hold each cell
/// at the same place.
proof fn lemma_same_place(a: Seq<Vector2>, b: Seq<Vector2>, i: int)
    requires
        in_reading_order(a),
        in_reading_order(b),
        a.len() == b.len(),
        forall|p: Vector2| a.contains(p) <==> b.contains(p),
        0 <= i < a.len(),
    ensures
        a[i] == b[i],
    decreases i,
{
    assert forall|k: int| 0 <= k < i implies a[k] == b[k] by {
        lemma_same_place(a, b, k);
    }
    assert(a.contains(a[i]));
    assert(b.contains(b[i]));
    let j = choose|j: int| 0 <= j < b.len() && b[j] == a[i];
    let k = choose|k: int| 0 <= k < a.len() && a[k] == b[i];
    if j < i {
        assert(a[j].precedes(a[i]));
    } else if k < i {
        assert(b[k].precedes(b[i]));
    } else if j > i {
        assert(b[i].precedes(b[j]));
        if k > i {
            assert(a[i].precedes(a[k]));
        }
    }
}

impl GameState {
    /// The cells under the snake, then those under the apples.
    pub open spec fn taken(self) -> Seq<Vector2> {
        self.body + self.food
    }

    /// Where the snake does not cross itself, no cell is taken twice, and
    /// the taken cells are those on the board that are not free.
    proof fn lemma_taken(self)
        requires
            self.wf(),
            self.body.no_duplicates(),
        ensures
            self.taken().no_duplicates(),
            forall|p: Vector2| self.taken().contains(p) <==> self.on_board(p) && !self.is_free(p),
    {
        let taken = self.taken();
        assert forall|i: int, j: int|
            0 <= i < self.body.len() && 0 <= j < self.food.len() implies self.body[i]
            != self.food[j] by {
            assert(!self.body.contains(self.food[j]));
        }
        vstd::seq_lib::lemma_no_dup_in_concat(self.body, self.food);
        assert forall|p: Vector2| taken.contains(p) implies self.on_board(p) && !self.is_free(
            p,
        ) by {
            let k = choose|k: int| 0 <= k < taken.len() && taken[k] == p;
            if k < self.body.len() {
                assert(p == self.body[k]);
            } else {
                assert(p == self.food[k - self.body.len()]);
            }
        }
        assert forall|p: Vector2| self.on_board(p) && !self.is_free(p) implies taken.contains(
            p,
        ) by {
            if self.body.contains(p) {
                let k = choose|k: int| 0 <= k < self.body.len() && self.body[k] == p;
                assert(taken[k] == p);
            } else {
                let k = choose|k: int| 0 <= k < self.food.len() && self.food[k] == p;
                assert(taken[self.body.len() + k] == p);
            }
        }
    }

    /// Snake and apples together never take more cells than the board has,
    /// where the snake does not cross itself.
    pub proof fn lemma_taken_within_area(self)
        requires
            self.wf(),
            self.body.no_duplicates(),
        ensures
            self.body.len() + self.food.len() <= self.board_size.x * self.board_size.y,
    {
        let board = board_cells(self.board_size.x as int, self.board_size.y as int);
        lemma_board_cells(self.board_size.x as int, self.board_size.y as int);
        self.lemma_taken();
        assert(self.taken().to_set().subset_of(board.to_set()));
        vstd::seq_lib::seq_to_set_is_finite(board);
        vstd::set_lib::lemma_len_subset(self.taken().to_set(), board.to_set());
        self.taken().unique_seq_to_set();
        board.unique_seq_to_set();
    }

    /// Every cell of the board is free, under the snake or under an apple:
    /// where the snake does not cross itself, the three counts add up to the
    /// number of cells.
    pub proof fn lemma_cell_count(self, free: Seq<Vector2>)
        requires
            self.wf(),
            self.body.no_duplicates(),
            self.lists_free_cells(free),
        ensures
            free.len() + self.body.len() + self.food.len() == self.board_size.x
                * self.board_size.y,
    {
        let board = board_cells(self.board_size.x as int, self.board_size.y as int);
        lemma_board_cells(self.board_size.x as int, self.board_size.y as int);
        self.lemma_taken();
        let taken = self.taken();
        let all = free + taken;
        lemma_sorted_no_duplicates(free);
        assert(all.no_duplicates()) by {
            assert forall|i: int, j: int|
                0 <= i < free.len() && 0 <= j < taken.len() implies free[i] != taken[j] by {
                assert(free.contains(free[i]));
                assert(taken.contains(taken[j]));
            }
            vstd::seq_lib::lemma_no_dup_in_concat(free, taken);
        }
        assert(all.to_set() =~= board.to_set()) by {
            assert forall|p: Vector2| all.contains(p) <==> board.contains(p) by {
                if all.contains(p) {
                    let k = choose|k: int| 0 <= k < all.len() && all[k] == p;
                    if k < free.len() {
                        assert(free.contains(free[k]));
                    } else {
                        assert(taken.contains(taken[k - free.len()]));
                    }
                }
                if board.contains(p) {
                    assert(self.on_board(p));
                    if self.is_free(p) {
                        assert(free.contains(p));
                        let k = choose|k: int| 0 <= k < free.len() && free[k] == p;
                        assert(all[k] == p);
                    } else {
                        assert(taken.contains(p));
                        let k = choose|k: int| 0 <= k < taken.len() && taken[k] == p;
                        assert(all[free.len() + k] == p);
                    }
                }
            }
        }
        all.unique_seq_to_set();
        board.unique_seq_to_set();
    }

    /// Where no cell is free and the snake does not cross itself, snake and
    /// apples take every cell of the board.
    pub proof fn lemma_full_board(self)
        requires
            self.wf(),
            self.body.no_duplicates(),
            forall|p: Vector2| !self.is_free(p),
        ensures
            self.body.len() + self.food.len() == self.board_size.x * self.board_size.y,
    {
        let none = Seq::<Vector2>::empty();
        assert forall|p: Vector2| !(#[trigger] none.contains(p)) by {}
        self.lemma_cell_count(none);
    }

    /// The free cells can be listed in one way only: two listings of the
    /// same state are the same sequence.
    pub proof fn lemma_one_listing(self, a: Seq<Vector2>, b: Seq<Vector2>)
        requires
            self.lists_free_cells(a),
            self.lists_free_cells(b),
        ensures
            a == b,
    {
        lemma_sorted_no_duplicates(a);
        lemma_sorted_no_duplicates(b);
        assert(a.to_set() =~= b.to_set());
        a.unique_seq_to_set();
        b.unique_seq_to_set();
        assert forall|i: int| 0 <= i < a.len() implies a[i] == b[i] by {
            lemma_same_place(a, b, i);
        }
        assert(a =~= b);
    }
}

} // verus!
