//! Decomposition of a displacement into unit steps.

use vstd::prelude::*;

verus! {

/// A signed displacement along one axis.
pub type Coord = i32;

/// The sign of `v`: -1, 0 or 1.
pub open spec fn sign(v: int) -> int {
    if v > 0 {
        1
    } else if v < 0 {
        -1
    } else {
        0
    }
}

/// The absolute value of `v`.
pub open spec fn magnitude(v: int) -> int {
    if v < 0 {
        -v
    } else {
        v
    }
}

/// The smaller of `a` and `b`.
pub open spec fn smaller(a: int, b: int) -> int {
    if a <= b {
        a
    } else {
        b
    }
}

/// The larger of `a` and `b`.
pub open spec fn larger(a: int, b: int) -> int {
    if a >= b {
        a
    } else {
        b
    }
}

/// `step` repeated `n` times.
pub open spec fn repeated<T>(step: Seq<T>, n: nat) -> Seq<T>
    decreases n,
{
    if n == 0 {
        Seq::empty()
    } else {
        repeated(step, (n - 1) as nat) + step
    }
}

/// The sum of the steps of `steps`, axis by axis.
pub open spec fn total(steps: Seq<(int, int)>) -> (int, int)
    decreases steps.len(),
{
    if steps.len() == 0 {
        (0, 0)
    } else {
        let before = total(steps.drop_last());
        (before.0 + steps.last().0, before.1 + steps.last().1)
    }
}

/// A displacement split into diagonal unit steps and the unit steps that are
/// left over on one axis.
///
/// The steps are taken in this order: `both_move` steps of
/// `(x_direction, y_direction)`, then `move_only_x` steps of
/// `(x_direction, 0)`, then `move_only_y` steps of `(0, y_direction)`.
#[derive(PartialEq, Eq, Structural, Copy, Clone, Debug)]
pub struct GradualMove {
    pub x_direction: Coord,
    pub y_direction: Coord,
    pub both_move: u32,
    pub move_only_x: u32,
    pub move_only_y: u32,
}

impl Default for GradualMove {
    /// No move at all.
    fn default() -> (g: Self)
        ensures
            g == (GradualMove {
                x_direction: 0,
                y_direction: 0,
                both_move: 0,
                move_only_x: 0,
                move_only_y: 0,
            }),
    {
        GradualMove { x_direction: 0, y_direction: 0, both_move: 0, move_only_x: 0, move_only_y: 0 }
    }
}

impl GradualMove {
    /// The decomposition of the displacement `(x, y)`.
    pub open spec fn of(x: Coord, y: Coord) -> GradualMove {
        let diagonal = smaller(magnitude(x as int), magnitude(y as int));
        GradualMove {
            x_direction: sign(x as int) as i32,
            y_direction: sign(y as int) as i32,
            both_move: diagonal as u32,
            move_only_x: (magnitude(x as int) - diagonal) as u32,
            move_only_y: (magnitude(y as int) - diagonal) as u32,
        }
    }

    /// The unit steps of the decomposition, in the order in which they are
    /// taken.
    pub open spec fn steps(self) -> Seq<(int, int)> {
        repeated(seq![(self.x_direction as int, self.y_direction as int)], self.both_move as nat)
            + repeated(seq![(self.x_direction as int, 0int)], self.move_only_x as nat) + repeated(
            seq![(0int, self.y_direction as int)],
            self.move_only_y as nat,
        )
    }

    /// Splits the displacement `(x, y)`.
    pub fn calculate(x: Coord, y: Coord) -> (g: Self)
        ensures
            g == Self::of(x, y),
            g.x_direction == sign(x as int),
            g.y_direction == sign(y as int),
            g.both_move == smaller(magnitude(x as int), magnitude(y as int)),
            g.both_move + g.move_only_x == magnitude(x as int),
            g.both_move + g.move_only_y == magnitude(y as int),
    {
        let x_direction: i32 = signum(x);
        let y_direction: i32 = signum(y);
        let move_x: u32 = distance(x);
        let move_y: u32 = distance(y);
        let both_move: u32 = if move_x <= move_y { move_x } else { move_y };
        GradualMove {
            x_direction,
            y_direction,
            both_move,
            move_only_x: move_x - both_move,
            move_only_y: move_y - both_move,
        }
    }
}

/// `n` repetitions of a sequence are `n` times as long.
pub proof fn lemma_repeated_length<T>(step: Seq<T>, n: nat)
    ensures
        repeated(step, n).len() == n * step.len(),
    decreases n,
{
    if n > 0 {
        lemma_repeated_length(step, (n - 1) as nat);
        assert((n - 1) * step.len() + step.len() == n * step.len()) by (nonlinear_arith);
    } else {
        assert(n * step.len() == 0) by (nonlinear_arith)
            requires
                n == 0,
        ;
    }
}

/// The sum of two runs of steps is the sum of their sums.
pub proof fn lemma_total_concat(a: Seq<(int, int)>, b: Seq<(int, int)>)
    ensures
        total(a + b) == (total(a).0 + total(b).0, total(a).1 + total(b).1),
    decreases b.len(),
{
    if b.len() == 0 {
        assert(a + b =~= a);
    } else {
        lemma_total_concat(a, b.drop_last());
        assert((a + b).drop_last() =~= a + b.drop_last());
        assert((a + b).last() == b.last());
    }
}

/// `n` times the same step sum to `n` times that step.
pub proof fn lemma_total_repeated(step: (int, int), n: nat)
    ensures
        total(repeated(seq![step], n)) == (n * step.0, n * step.1),
    decreases n,
{
    if n > 0 {
        lemma_total_repeated(step, (n - 1) as nat);
        lemma_total_concat(repeated(seq![step], (n - 1) as nat), seq![step]);
        assert(seq![step].drop_last() =~= Seq::<(int, int)>::empty());
        assert(total(seq![step].drop_last()) == (0int, 0int));
        assert(seq![step].last() == step);
        assert(total(seq![step]) == step);
        assert((n - 1) * step.0 + step.0 == n * step.0) by (nonlinear_arith);
        assert((n - 1) * step.1 + step.1 == n * step.1) by (nonlinear_arith);
    } else {
        assert(n * step.0 == 0 && n * step.1 == 0) by (nonlinear_arith)
            requires
                n == 0,
        ;
    }
}

/// Taking the unit steps of the decomposition of `(x, y)` one after the
/// other arrives at `(x, y)`: the diagonal steps and the steps left on an
/// axis make up the distance on that axis, there are as many diagonal steps
/// as the shorter distance allows, and the steps sum to the displacement.
pub proof fn lemma_steps_replay(x: i32, y: i32)
    ensures
        GradualMove::of(x, y).both_move + GradualMove::of(x, y).move_only_x == magnitude(x as int),
        GradualMove::of(x, y).both_move + GradualMove::of(x, y).move_only_y == magnitude(y as int),
        GradualMove::of(x, y).both_move == smaller(
            magnitude(x as int),
            magnitude(y as int),
        ),
        total(GradualMove::of(x, y).steps()) == (x as int, y as int),
{
    let g = GradualMove::of(x, y);
    let xd = g.x_direction as int;
    let yd = g.y_direction as int;
    let diagonal = repeated(seq![(xd, yd)], g.both_move as nat);
    let along_x = repeated(seq![(xd, 0int)], g.move_only_x as nat);
    let along_y = repeated(seq![(0int, yd)], g.move_only_y as nat);
    lemma_total_repeated((xd, yd), g.both_move as nat);
    lemma_total_repeated((xd, 0int), g.move_only_x as nat);
    lemma_total_repeated((0int, yd), g.move_only_y as nat);
    lemma_total_concat(diagonal, along_x);
    lemma_total_concat(diagonal + along_x, along_y);
    assert(g.both_move * xd + g.move_only_x * xd == (g.both_move + g.move_only_x) * xd)
        by (nonlinear_arith);
    assert(g.both_move * yd + g.move_only_y * yd == (g.both_move + g.move_only_y) * yd)
        by (nonlinear_arith);
    assert(g.move_only_x * 0 == 0);
    assert(g.move_only_y * 0 == 0);
    assert(magnitude(x as int) * xd == x) by (nonlinear_arith)
        requires
            xd == sign(x as int),
    ;
    assert(magnitude(y as int) * yd == y) by (nonlinear_arith)
        requires
            yd == sign(y as int),
    ;
}

fn signum(v: i32) -> (s: i32)
    ensures
        s == sign(v as int),
{
    if v > 0 {
        1
    } else if v < 0 {
        -1
    } else {
        0
    }
}

fn distance(v: i32) -> (d: u32)
    ensures
        d == magnitude(v as int),
{
    if v < 0 {
        (-(v as i64)) as u32
    } else {
        v as u32
    }
}

} // verus!
