//! The events that make up a gesture: a press, a move, a scroll.
//!
//! Vertical values follow one convention for the cursor and the wheel alike:
//! a positive value means up. The kernel counts the cursor's vertical axis
//! downwards, so a cursor move of `y` is written as the value `-y`; it counts
//! the wheel upwards, so a scroll is written as it is. The smallest 32-bit
//! number has no opposite: a vertical move of the cursor by it is refused.
//!
//! The kernel shows the events that it was given only when a synchronization
//! event follows them.

use crate::codec::EventParams;
use crate::key_codes::{EV_KEY, EV_REL, EV_SYN, REL_HWHEEL, REL_WHEEL, REL_X, REL_Y, SYN_REPORT};
use crate::motion::{
    larger,
    lemma_repeated_length,
    magnitude,
    repeated,
    sign,
    GradualMove,
};
use vstd::prelude::*;

verus! {

/// The synchronization event.
pub open spec fn sync() -> EventParams {
    (EV_SYN, SYN_REPORT, 0i32)
}

/// A key or button that goes down (`value` 1) or up (`value` 0).
pub open spec fn key(button: u16, value: i32) -> EventParams {
    (EV_KEY, button, value)
}

/// A move of the cursor by `x` to the right.
pub open spec fn rel_x(x: i32) -> EventParams {
    (EV_REL, REL_X, x)
}

/// A move of the cursor by `y` upwards.
pub open spec fn rel_y(y: i32) -> EventParams
    recommends
        y > i32::MIN,
{
    (EV_REL, REL_Y, (-y) as i32)
}

/// A turn of the horizontal wheel by `value`.
pub open spec fn wheel_x(value: i32) -> EventParams {
    (EV_REL, REL_HWHEEL, value)
}

/// A turn of the vertical wheel by `value`.
pub open spec fn wheel_y(value: i32) -> EventParams {
    (EV_REL, REL_WHEEL, value)
}

/// What a gradual gesture is made of: `diagonal` for each diagonal step of
/// `g`, then `along_x` for each step left on the horizontal axis, then
/// `along_y` for each step left on the vertical axis.
pub open spec fn stepped<T>(g: GradualMove, diagonal: Seq<T>, along_x: Seq<T>, along_y: Seq<T>) -> Seq<T> {
    repeated(diagonal, g.both_move as nat) + repeated(along_x, g.move_only_x as nat) + repeated(
        along_y,
        g.move_only_y as nat,
    )
}

/// The events of a gradual move of the cursor by `(x, y)`, each unit step
/// followed by a synchronization.
pub open spec fn gradual_move_events(x: i32, y: i32) -> Seq<EventParams> {
    let g = GradualMove::of(x, y);
    stepped(
        g,
        seq![rel_x(g.x_direction), rel_y(g.y_direction), sync()],
        seq![rel_x(g.x_direction), sync()],
        seq![rel_y(g.y_direction), sync()],
    )
}

/// The batches of a gradual move of the cursor by `(x, y)`: one batch for
/// each unit step, with its own synchronization.
pub open spec fn gradual_move_batches(x: i32, y: i32) -> Seq<Seq<EventParams>> {
    let g = GradualMove::of(x, y);
    stepped(
        g,
        seq![seq![rel_x(g.x_direction), rel_y(g.y_direction), sync()]],
        seq![seq![rel_x(g.x_direction), sync()]],
        seq![seq![rel_y(g.y_direction), sync()]],
    )
}

/// The batches of a gradual move of the cursor by `(x, y)` with one
/// synchronization at the very end.
pub open spec fn gradual_move_raw_batches(x: i32, y: i32) -> Seq<Seq<EventParams>> {
    let g = GradualMove::of(x, y);
    stepped(
        g,
        seq![seq![rel_x(g.x_direction), rel_y(g.y_direction)]],
        seq![seq![rel_x(g.x_direction)]],
        seq![seq![rel_y(g.y_direction)]],
    ).push(seq![sync()])
}

/// The events of a gradual scroll by `(x, y)`, each unit step followed by a
/// synchronization. A diagonal step turns both wheels by one and is
/// synchronized once.
pub open spec fn gradual_scroll_events(x: i32, y: i32) -> Seq<EventParams> {
    let g = GradualMove::of(x, y);
    stepped(
        g,
        seq![wheel_x(g.x_direction), wheel_y(g.y_direction), sync()],
        seq![wheel_x(g.x_direction), sync()],
        seq![wheel_y(g.y_direction), sync()],
    )
}

/// The batches of a gradual scroll by `(x, y)`: one batch for each unit
/// step, with its own synchronization.
pub open spec fn gradual_scroll_batches(x: i32, y: i32) -> Seq<Seq<EventParams>> {
    let g = GradualMove::of(x, y);
    stepped(
        g,
        seq![seq![wheel_x(g.x_direction), wheel_y(g.y_direction), sync()]],
        seq![seq![wheel_x(g.x_direction), sync()]],
        seq![seq![wheel_y(g.y_direction), sync()]],
    )
}

/// The batches of a gradual scroll by `(x, y)` with one synchronization at
/// the very end: each turn of a wheel is a batch of its own.
pub open spec fn gradual_scroll_raw_batches(x: i32, y: i32) -> Seq<Seq<EventParams>> {
    let g = GradualMove::of(x, y);
    stepped(
        g,
        seq![seq![wheel_x(g.x_direction)], seq![wheel_y(g.y_direction)]],
        seq![seq![wheel_x(g.x_direction)]],
        seq![seq![wheel_y(g.y_direction)]],
    ).push(seq![sync()])
}

/// The sum of the values of the events of `events` that have the type `kind`
/// and the code `code`.
pub open spec fn axis_total(events: Seq<EventParams>, kind: u16, code: u16) -> int
    decreases events.len(),
{
    if events.len() == 0 {
        0
    } else {
        axis_total(events.drop_last(), kind, code) + if events.last().0 == kind && events.last().1
            == code {
            events.last().2 as int
        } else {
            0
        }
    }
}

/// How many of the events of `events` are synchronizations.
pub open spec fn sync_count(events: Seq<EventParams>) -> nat
    decreases events.len(),
{
    if events.len() == 0 {
        0
    } else {
        sync_count(events.drop_last()) + if events.last() == sync() {
            1nat
        } else {
            0nat
        }
    }
}

/// All the events of `batches`, in their order.
pub open spec fn flattened(batches: Seq<Seq<EventParams>>) -> Seq<EventParams>
    decreases batches.len(),
{
    if batches.len() == 0 {
        Seq::empty()
    } else {
        flattened(batches.drop_last()) + batches.last()
    }
}

/// The value that the event `event` adds to the axis `(kind, code)`.
pub open spec fn axis_value(event: EventParams, kind: u16, code: u16) -> int {
    if event.0 == kind && event.1 == code {
        event.2 as int
    } else {
        0
    }
}

/// The sum over events that follow one another is the sum of the sums.
pub proof fn lemma_axis_total_concat(a: Seq<EventParams>, b: Seq<EventParams>, kind: u16, code: u16)
    ensures
        axis_total(a + b, kind, code) == axis_total(a, kind, code) + axis_total(b, kind, code),
    decreases b.len(),
{
    if b.len() == 0 {
        assert(a + b =~= a);
    } else {
        lemma_axis_total_concat(a, b.drop_last(), kind, code);
        assert((a + b).drop_last() =~= a + b.drop_last());
        assert((a + b).last() == b.last());
    }
}

/// The sum over one event is what that event adds.
pub proof fn lemma_axis_total_one(event: EventParams, kind: u16, code: u16)
    ensures
        axis_total(seq![event], kind, code) == axis_value(event, kind, code),
{
    assert(seq![event].drop_last() =~= Seq::<EventParams>::empty());
    assert(axis_total(seq![event].drop_last(), kind, code) == 0);
    assert(seq![event].last() == event);
}

/// The sum over `n` repetitions is `n` times the sum over one.
pub proof fn lemma_axis_total_repeated(step: Seq<EventParams>, n: nat, kind: u16, code: u16)
    ensures
        axis_total(repeated(step, n), kind, code) == n * axis_total(step, kind, code),
    decreases n,
{
    let one = axis_total(step, kind, code);
    if n > 0 {
        lemma_axis_total_repeated(step, (n - 1) as nat, kind, code);
        lemma_axis_total_concat(repeated(step, (n - 1) as nat), step, kind, code);
        assert((n - 1) * one + one == n * one) by (nonlinear_arith);
    } else {
        assert(n * one == 0) by (nonlinear_arith)
            requires
                n == 0,
        ;
    }
}

/// The sum over a gradual gesture: for each kind of step, the number of
/// steps times the sum over one.
pub proof fn lemma_axis_total_stepped(
    g: GradualMove,
    diagonal: Seq<EventParams>,
    along_x: Seq<EventParams>,
    along_y: Seq<EventParams>,
    kind: u16,
    code: u16,
)
    ensures
        axis_total(stepped(g, diagonal, along_x, along_y), kind, code) == g.both_move * axis_total(
            diagonal,
            kind,
            code,
        ) + g.move_only_x * axis_total(along_x, kind, code) + g.move_only_y * axis_total(
            along_y,
            kind,
            code,
        ),
{
    let first = repeated(diagonal, g.both_move as nat);
    let second = repeated(along_x, g.move_only_x as nat);
    let third = repeated(along_y, g.move_only_y as nat);
    lemma_axis_total_repeated(diagonal, g.both_move as nat, kind, code);
    lemma_axis_total_repeated(along_x, g.move_only_x as nat, kind, code);
    lemma_axis_total_repeated(along_y, g.move_only_y as nat, kind, code);
    lemma_axis_total_concat(first, second, kind, code);
    lemma_axis_total_concat(first + second, third, kind, code);
}

/// The events of batches that follow one another are the events of the
/// first followed by those of the second.
pub proof fn lemma_flattened_concat(a: Seq<Seq<EventParams>>, b: Seq<Seq<EventParams>>)
    ensures
        flattened(a + b) == flattened(a) + flattened(b),
    decreases b.len(),
{
    if b.len() == 0 {
        assert(a + b =~= a);
        assert(flattened(a) + flattened(b) =~= flattened(a));
    } else {
        lemma_flattened_concat(a, b.drop_last());
        assert((a + b).drop_last() =~= a + b.drop_last());
        assert((a + b).last() == b.last());
        assert(flattened(a + b) =~= flattened(a) + flattened(b));
    }
}

/// The events of `n` repetitions of some batches are `n` repetitions of the
/// events of those batches.
pub proof fn lemma_flattened_repeated(step: Seq<Seq<EventParams>>, n: nat)
    ensures
        flattened(repeated(step, n)) == repeated(flattened(step), n),
    decreases n,
{
    if n > 0 {
        lemma_flattened_repeated(step, (n - 1) as nat);
        lemma_flattened_concat(repeated(step, (n - 1) as nat), step);
    }
}

/// The events of the batches of a gradual gesture are the gradual gesture
/// of the events of the batches.
pub proof fn lemma_flattened_stepped(
    g: GradualMove,
    diagonal: Seq<Seq<EventParams>>,
    along_x: Seq<Seq<EventParams>>,
    along_y: Seq<Seq<EventParams>>,
)
    ensures
        flattened(stepped(g, diagonal, along_x, along_y)) == stepped(
            g,
            flattened(diagonal),
            flattened(along_x),
            flattened(along_y),
        ),
{
    let first = repeated(diagonal, g.both_move as nat);
    let second = repeated(along_x, g.move_only_x as nat);
    let third = repeated(along_y, g.move_only_y as nat);
    lemma_flattened_repeated(diagonal, g.both_move as nat);
    lemma_flattened_repeated(along_x, g.move_only_x as nat);
    lemma_flattened_repeated(along_y, g.move_only_y as nat);
    lemma_flattened_concat(first, second);
    lemma_flattened_concat(first + second, third);
}

proof fn lemma_axis_total_two(a: EventParams, b: EventParams, kind: u16, code: u16)
    ensures
        axis_total(seq![a, b], kind, code) == axis_value(a, kind, code) + axis_value(b, kind, code),
{
    lemma_axis_total_one(a, kind, code);
    lemma_axis_total_one(b, kind, code);
    lemma_axis_total_concat(seq![a], seq![b], kind, code);
    assert(seq![a, b] =~= seq![a] + seq![b]);
}

proof fn lemma_axis_total_three(
    a: EventParams,
    b: EventParams,
    c: EventParams,
    kind: u16,
    code: u16,
)
    ensures
        axis_total(seq![a, b, c], kind, code) == axis_value(a, kind, code) + axis_value(
            b,
            kind,
            code,
        ) + axis_value(c, kind, code),
{
    lemma_axis_total_two(a, b, kind, code);
    lemma_axis_total_one(c, kind, code);
    lemma_axis_total_concat(seq![a, b], seq![c], kind, code);
    assert(seq![a, b, c] =~= seq![a, b] + seq![c]);
}

proof fn lemma_signed_distance(v: i32, both: int, only: int, direction: int)
    requires
        direction == sign(v as int),
        both + only == magnitude(v as int),
    ensures
        both * direction + only * direction == v,
        both * (-direction) + only * (-direction) == -v,
{
    assert(both * direction + only * direction == (both + only) * direction) by (nonlinear_arith);
    assert(both * (-direction) + only * (-direction) == -((both + only) * direction))
        by (nonlinear_arith);
    assert(magnitude(v as int) * direction == v) by (nonlinear_arith)
        requires
            direction == sign(v as int),
    ;
}

/// A gradual move of the cursor by `(x, y)` moves it by `(x, y)`, whether
/// each step is synchronized or only the last, in events or in batches. The
/// moves along the horizontal axis sum to `x`; those along the vertical
/// axis, which the kernel counts downwards, sum to `-y`. The batches with a
/// synchronization for each step hold the same events as the list of events.
pub proof fn lemma_gradual_move_replay(x: i32, y: i32)
    ensures
        axis_total(gradual_move_events(x, y), EV_REL, REL_X) == x,
        axis_total(gradual_move_events(x, y), EV_REL, REL_Y) == -y,
        flattened(gradual_move_batches(x, y)) == gradual_move_events(x, y),
        axis_total(flattened(gradual_move_raw_batches(x, y)), EV_REL, REL_X) == x,
        axis_total(flattened(gradual_move_raw_batches(x, y)), EV_REL, REL_Y) == -y,
{
    let g = GradualMove::of(x, y);
    let right = rel_x(g.x_direction);
    let up = rel_y(g.y_direction);
    let xd = g.x_direction as int;
    let yd = g.y_direction as int;
    assert(axis_value(right, EV_REL, REL_X) == xd && axis_value(right, EV_REL, REL_Y) == 0);
    assert(axis_value(up, EV_REL, REL_X) == 0 && axis_value(up, EV_REL, REL_Y) == -yd);
    assert(axis_value(sync(), EV_REL, REL_X) == 0 && axis_value(sync(), EV_REL, REL_Y) == 0);
    lemma_signed_distance(x, g.both_move as int, g.move_only_x as int, xd);
    lemma_signed_distance(y, g.both_move as int, g.move_only_y as int, yd);
    assert(g.move_only_x * 0 == 0 && g.move_only_y * 0 == 0);
    // each step with its synchronization
    lemma_axis_total_three(right, up, sync(), EV_REL, REL_X);
    lemma_axis_total_three(right, up, sync(), EV_REL, REL_Y);
    lemma_axis_total_two(right, sync(), EV_REL, REL_X);
    lemma_axis_total_two(right, sync(), EV_REL, REL_Y);
    lemma_axis_total_two(up, sync(), EV_REL, REL_X);
    lemma_axis_total_two(up, sync(), EV_REL, REL_Y);
    lemma_axis_total_stepped(
        g,
        seq![right, up, sync()],
        seq![right, sync()],
        seq![up, sync()],
        EV_REL,
        REL_X,
    );
    lemma_axis_total_stepped(
        g,
        seq![right, up, sync()],
        seq![right, sync()],
        seq![up, sync()],
        EV_REL,
        REL_Y,
    );
    // the same in batches
    lemma_flattened_stepped(
        g,
        seq![seq![right, up, sync()]],
        seq![seq![right, sync()]],
        seq![seq![up, sync()]],
    );
    lemma_flattened_one(seq![right, up, sync()]);
    lemma_flattened_one(seq![right, sync()]);
    lemma_flattened_one(seq![up, sync()]);
    // one synchronization at the end
    let moves = stepped(g, seq![seq![right, up]], seq![seq![right]], seq![seq![up]]);
    lemma_flattened_stepped(g, seq![seq![right, up]], seq![seq![right]], seq![seq![up]]);
    lemma_flattened_one(seq![right, up]);
    lemma_flattened_one(seq![right]);
    lemma_flattened_one(seq![up]);
    lemma_flattened_one(seq![sync()]);
    lemma_flattened_concat(moves, seq![seq![sync()]]);
    assert(moves.push(seq![sync()]) =~= moves + seq![seq![sync()]]);
    lemma_axis_total_two(right, up, EV_REL, REL_X);
    lemma_axis_total_two(right, up, EV_REL, REL_Y);
    lemma_axis_total_one(right, EV_REL, REL_X);
    lemma_axis_total_one(right, EV_REL, REL_Y);
    lemma_axis_total_one(up, EV_REL, REL_X);
    lemma_axis_total_one(up, EV_REL, REL_Y);
    lemma_axis_total_one(sync(), EV_REL, REL_X);
    lemma_axis_total_one(sync(), EV_REL, REL_Y);
    lemma_axis_total_stepped(g, seq![right, up], seq![right], seq![up], EV_REL, REL_X);
    lemma_axis_total_stepped(g, seq![right, up], seq![right], seq![up], EV_REL, REL_Y);
    lemma_axis_total_concat(flattened(moves), seq![sync()], EV_REL, REL_X);
    lemma_axis_total_concat(flattened(moves), seq![sync()], EV_REL, REL_Y);
}

/// A gradual scroll by `(x, y)` scrolls by `(x, y)`, whether each step is
/// synchronized or only the last, in events or in batches: the turns of the
/// horizontal wheel sum to `x` and those of the vertical wheel to `y`. The
/// batches with a synchronization for each step hold the same events as the
/// list of events.
pub proof fn lemma_gradual_scroll_replay(x: i32, y: i32)
    ensures
        axis_total(gradual_scroll_events(x, y), EV_REL, REL_HWHEEL) == x,
        axis_total(gradual_scroll_events(x, y), EV_REL, REL_WHEEL) == y,
        flattened(gradual_scroll_batches(x, y)) == gradual_scroll_events(x, y),
        axis_total(flattened(gradual_scroll_raw_batches(x, y)), EV_REL, REL_HWHEEL) == x,
        axis_total(flattened(gradual_scroll_raw_batches(x, y)), EV_REL, REL_WHEEL) == y,
{
    let g = GradualMove::of(x, y);
    let across = wheel_x(g.x_direction);
    let up = wheel_y(g.y_direction);
    let xd = g.x_direction as int;
    let yd = g.y_direction as int;
    assert(axis_value(across, EV_REL, REL_HWHEEL) == xd && axis_value(across, EV_REL, REL_WHEEL)
        == 0);
    assert(axis_value(up, EV_REL, REL_HWHEEL) == 0 && axis_value(up, EV_REL, REL_WHEEL) == yd);
    assert(axis_value(sync(), EV_REL, REL_HWHEEL) == 0 && axis_value(sync(), EV_REL, REL_WHEEL)
        == 0);
    lemma_signed_distance(x, g.both_move as int, g.move_only_x as int, xd);
    lemma_signed_distance(y, g.both_move as int, g.move_only_y as int, yd);
    assert(g.move_only_x * 0 == 0 && g.move_only_y * 0 == 0);
    // each step with its synchronization
    lemma_axis_total_three(across, up, sync(), EV_REL, REL_HWHEEL);
    lemma_axis_total_three(across, up, sync(), EV_REL, REL_WHEEL);
    lemma_axis_total_two(across, sync(), EV_REL, REL_HWHEEL);
    lemma_axis_total_two(across, sync(), EV_REL, REL_WHEEL);
    lemma_axis_total_two(up, sync(), EV_REL, REL_HWHEEL);
    lemma_axis_total_two(up, sync(), EV_REL, REL_WHEEL);
    lemma_axis_total_stepped(
        g,
        seq![across, up, sync()],
        seq![across, sync()],
        seq![up, sync()],
        EV_REL,
        REL_HWHEEL,
    );
    lemma_axis_total_stepped(
        g,
        seq![across, up, sync()],
        seq![across, sync()],
        seq![up, sync()],
        EV_REL,
        REL_WHEEL,
    );
    // the same in batches
    lemma_flattened_stepped(
        g,
        seq![seq![across, up, sync()]],
        seq![seq![across, sync()]],
        seq![seq![up, sync()]],
    );
    lemma_flattened_one(seq![across, up, sync()]);
    lemma_flattened_one(seq![across, sync()]);
    lemma_flattened_one(seq![up, sync()]);
    // one synchronization at the end
    let turns = stepped(g, seq![seq![across], seq![up]], seq![seq![across]], seq![seq![up]]);
    lemma_flattened_stepped(g, seq![seq![across], seq![up]], seq![seq![across]], seq![seq![up]]);
    lemma_flattened_one(seq![across]);
    lemma_flattened_one(seq![up]);
    lemma_flattened_one(seq![sync()]);
    lemma_flattened_concat(seq![seq![across]], seq![seq![up]]);
    assert(seq![seq![across], seq![up]] =~= seq![seq![across]] + seq![seq![up]]);
    assert(seq![across] + seq![up] =~= seq![across, up]);
    lemma_flattened_concat(turns, seq![seq![sync()]]);
    assert(turns.push(seq![sync()]) =~= turns + seq![seq![sync()]]);
    lemma_axis_total_two(across, up, EV_REL, REL_HWHEEL);
    lemma_axis_total_two(across, up, EV_REL, REL_WHEEL);
    lemma_axis_total_one(across, EV_REL, REL_HWHEEL);
    lemma_axis_total_one(across, EV_REL, REL_WHEEL);
    lemma_axis_total_one(up, EV_REL, REL_HWHEEL);
    lemma_axis_total_one(up, EV_REL, REL_WHEEL);
    lemma_axis_total_one(sync(), EV_REL, REL_HWHEEL);
    lemma_axis_total_one(sync(), EV_REL, REL_WHEEL);
    lemma_axis_total_stepped(g, seq![across, up], seq![across], seq![up], EV_REL, REL_HWHEEL);
    lemma_axis_total_stepped(g, seq![across, up], seq![across], seq![up], EV_REL, REL_WHEEL);
    lemma_axis_total_concat(flattened(turns), seq![sync()], EV_REL, REL_HWHEEL);
    lemma_axis_total_concat(flattened(turns), seq![sync()], EV_REL, REL_WHEEL);
}

proof fn lemma_repeated_last(step: Seq<EventParams>, n: nat)
    requires
        n > 0,
        step.len() > 0,
    ensures
        repeated(step, n).len() > 0,
        repeated(step, n).last() == step.last(),
{
    let all = repeated(step, (n - 1) as nat) + step;
    assert(all.last() == step.last());
}

proof fn lemma_stepped_last(
    g: GradualMove,
    diagonal: Seq<EventParams>,
    along_x: Seq<EventParams>,
    along_y: Seq<EventParams>,
    end: EventParams,
)
    requires
        diagonal.len() > 0 && diagonal.last() == end,
        along_x.len() > 0 && along_x.last() == end,
        along_y.len() > 0 && along_y.last() == end,
        g.both_move > 0 || g.move_only_x > 0 || g.move_only_y > 0,
    ensures
        stepped(g, diagonal, along_x, along_y).len() > 0,
        stepped(g, diagonal, along_x, along_y).last() == end,
{
    let first = repeated(diagonal, g.both_move as nat);
    let second = repeated(along_x, g.move_only_x as nat);
    let third = repeated(along_y, g.move_only_y as nat);
    let all = first + second + third;
    if g.move_only_y > 0 {
        lemma_repeated_last(along_y, g.move_only_y as nat);
        assert(all.last() == third.last());
    } else if g.move_only_x > 0 {
        lemma_repeated_last(along_x, g.move_only_x as nat);
        assert(third =~= Seq::<EventParams>::empty());
        assert(all =~= first + second);
        assert(all.last() == second.last());
    } else {
        lemma_repeated_last(diagonal, g.both_move as nat);
        assert(third =~= Seq::<EventParams>::empty());
        assert(second =~= Seq::<EventParams>::empty());
        assert(all =~= first);
    }
}

/// A gradual gesture ends with a synchronization, so that the kernel shows
/// all of it: in each of its forms the last event is a synchronization. The
/// forms that synchronize each step hold no event where nothing is asked for.
pub proof fn lemma_gestures_end_synchronized(x: i32, y: i32)
    ensures
        flattened(gradual_move_raw_batches(x, y)).last() == sync(),
        flattened(gradual_scroll_raw_batches(x, y)).last() == sync(),
        x != 0 || y != 0 ==> gradual_move_events(x, y).last() == sync() && flattened(
            gradual_move_batches(x, y),
        ).last() == sync() && gradual_scroll_events(x, y).last() == sync() && flattened(
            gradual_scroll_batches(x, y),
        ).last() == sync(),
        x == 0 && y == 0 ==> gradual_move_events(x, y).len() == 0 && gradual_move_batches(
            x,
            y,
        ).len() == 0 && gradual_scroll_events(x, y).len() == 0 && gradual_scroll_batches(
            x,
            y,
        ).len() == 0,
{
    let g = GradualMove::of(x, y);
    lemma_gradual_move_replay(x, y);
    lemma_gradual_scroll_replay(x, y);
    let moves = stepped(
        g,
        seq![seq![rel_x(g.x_direction), rel_y(g.y_direction)]],
        seq![seq![rel_x(g.x_direction)]],
        seq![seq![rel_y(g.y_direction)]],
    );
    let turns = stepped(
        g,
        seq![seq![wheel_x(g.x_direction)], seq![wheel_y(g.y_direction)]],
        seq![seq![wheel_x(g.x_direction)]],
        seq![seq![wheel_y(g.y_direction)]],
    );
    lemma_flattened_concat(moves, seq![seq![sync()]]);
    lemma_flattened_concat(turns, seq![seq![sync()]]);
    lemma_flattened_one(seq![sync()]);
    assert(moves.push(seq![sync()]) =~= moves + seq![seq![sync()]]);
    assert(turns.push(seq![sync()]) =~= turns + seq![seq![sync()]]);
    assert((flattened(moves) + seq![sync()]).last() == sync());
    assert((flattened(turns) + seq![sync()]).last() == sync());
    if x != 0 || y != 0 {
        lemma_stepped_last(
            g,
            seq![rel_x(g.x_direction), rel_y(g.y_direction), sync()],
            seq![rel_x(g.x_direction), sync()],
            seq![rel_y(g.y_direction), sync()],
            sync(),
        );
        lemma_stepped_last(
            g,
            seq![wheel_x(g.x_direction), wheel_y(g.y_direction), sync()],
            seq![wheel_x(g.x_direction), sync()],
            seq![wheel_y(g.y_direction), sync()],
            sync(),
        );
    } else {
        assert(g.both_move == 0 && g.move_only_x == 0 && g.move_only_y == 0);
    }
}

/// The synchronizations of events that follow one another are those of the
/// first and those of the second.
pub proof fn lemma_sync_count_concat(a: Seq<EventParams>, b: Seq<EventParams>)
    ensures
        sync_count(a + b) == sync_count(a) + sync_count(b),
    decreases b.len(),
{
    if b.len() == 0 {
        assert(a + b =~= a);
    } else {
        lemma_sync_count_concat(a, b.drop_last());
        assert((a + b).drop_last() =~= a + b.drop_last());
        assert((a + b).last() == b.last());
    }
}

/// `n` repetitions hold `n` times the synchronizations of one.
pub proof fn lemma_sync_count_repeated(step: Seq<EventParams>, n: nat)
    ensures
        sync_count(repeated(step, n)) == n * sync_count(step),
    decreases n,
{
    let one = sync_count(step);
    if n > 0 {
        lemma_sync_count_repeated(step, (n - 1) as nat);
        lemma_sync_count_concat(repeated(step, (n - 1) as nat), step);
        assert((n - 1) * one + one == n * one) by (nonlinear_arith);
    } else {
        assert(n * one == 0) by (nonlinear_arith)
            requires
                n == 0,
        ;
    }
}

/// Events that are no synchronizations, with one synchronization behind
/// them, hold one synchronization.
proof fn lemma_sync_count_step(moves: Seq<EventParams>)
    requires
        forall|i: int| 0 <= i < moves.len() ==> moves[i].0 == EV_REL,
    ensures
        sync_count(moves) == 0,
        sync_count(moves.push(sync())) == 1,
    decreases moves.len(),
{
    if moves.len() > 0 {
        let head = moves.drop_last();
        assert forall|i: int| 0 <= i < head.len() implies head[i].0 == EV_REL by {
            assert(head[i] == moves[i]);
        }
        lemma_sync_count_step(head);
        assert(moves[moves.len() - 1].0 == EV_REL);
    }
    assert(moves.push(sync()).drop_last() =~= moves);
}

/// The synchronizations of a gradual gesture: for each kind of step, the
/// number of steps times the synchronizations of one.
proof fn lemma_sync_count_stepped(
    g: GradualMove,
    diagonal: Seq<EventParams>,
    along_x: Seq<EventParams>,
    along_y: Seq<EventParams>,
)
    ensures
        sync_count(stepped(g, diagonal, along_x, along_y)) == g.both_move * sync_count(diagonal)
            + g.move_only_x * sync_count(along_x) + g.move_only_y * sync_count(along_y),
{
    let first = repeated(diagonal, g.both_move as nat);
    let second = repeated(along_x, g.move_only_x as nat);
    let third = repeated(along_y, g.move_only_y as nat);
    lemma_sync_count_repeated(diagonal, g.both_move as nat);
    lemma_sync_count_repeated(along_x, g.move_only_x as nat);
    lemma_sync_count_repeated(along_y, g.move_only_y as nat);
    lemma_sync_count_concat(first, second);
    lemma_sync_count_concat(first + second, third);
}

/// A gradual gesture is synchronized once for each unit step, a diagonal
/// step counting as one: a move or a scroll by `(x, y)` holds as many
/// synchronizations as the larger of the two distances, and as many writes
/// where each step is a write of its own. The forms that synchronize at the
/// end hold one synchronization.
pub proof fn lemma_one_synchronization_per_step(x: i32, y: i32)
    ensures
        sync_count(gradual_move_events(x, y)) == larger(magnitude(x as int), magnitude(y as int)),
        sync_count(gradual_scroll_events(x, y)) == larger(
            magnitude(x as int),
            magnitude(y as int),
        ),
        gradual_move_batches(x, y).len() == larger(magnitude(x as int), magnitude(y as int)),
        gradual_scroll_batches(x, y).len() == larger(magnitude(x as int), magnitude(y as int)),
        sync_count(flattened(gradual_move_raw_batches(x, y))) == 1,
        sync_count(flattened(gradual_scroll_raw_batches(x, y))) == 1,
{
    let g = GradualMove::of(x, y);
    let right = rel_x(g.x_direction);
    let up = rel_y(g.y_direction);
    let across = wheel_x(g.x_direction);
    let turn = wheel_y(g.y_direction);
    let both = g.both_move as int;
    let only_x = g.move_only_x as int;
    let only_y = g.move_only_y as int;
    assert(both + only_x + only_y == larger(magnitude(x as int), magnitude(y as int)));
    assert(both * 1 + only_x * 1 + only_y * 1 == both + only_x + only_y);
    // each step with its synchronization
    lemma_sync_count_step(seq![right, up]);
    lemma_sync_count_step(seq![right]);
    lemma_sync_count_step(seq![up]);
    lemma_sync_count_step(seq![across, turn]);
    lemma_sync_count_step(seq![across]);
    lemma_sync_count_step(seq![turn]);
    assert(seq![right, up].push(sync()) =~= seq![right, up, sync()]);
    assert(seq![right].push(sync()) =~= seq![right, sync()]);
    assert(seq![up].push(sync()) =~= seq![up, sync()]);
    assert(seq![across, turn].push(sync()) =~= seq![across, turn, sync()]);
    assert(seq![across].push(sync()) =~= seq![across, sync()]);
    assert(seq![turn].push(sync()) =~= seq![turn, sync()]);
    lemma_sync_count_stepped(g, seq![right, up, sync()], seq![right, sync()], seq![up, sync()]);
    lemma_sync_count_stepped(
        g,
        seq![across, turn, sync()],
        seq![across, sync()],
        seq![turn, sync()],
    );
    // one write for each step
    lemma_repeated_length(seq![seq![right, up, sync()]], g.both_move as nat);
    lemma_repeated_length(seq![seq![right, sync()]], g.move_only_x as nat);
    lemma_repeated_length(seq![seq![up, sync()]], g.move_only_y as nat);
    lemma_repeated_length(seq![seq![across, turn, sync()]], g.both_move as nat);
    lemma_repeated_length(seq![seq![across, sync()]], g.move_only_x as nat);
    lemma_repeated_length(seq![seq![turn, sync()]], g.move_only_y as nat);
    // one synchronization at the end
    let moves = stepped(g, seq![seq![right, up]], seq![seq![right]], seq![seq![up]]);
    let turns = stepped(g, seq![seq![across], seq![turn]], seq![seq![across]], seq![seq![turn]]);
    lemma_flattened_stepped(g, seq![seq![right, up]], seq![seq![right]], seq![seq![up]]);
    lemma_flattened_stepped(g, seq![seq![across], seq![turn]], seq![seq![across]], seq![seq![turn]]);
    lemma_flattened_one(seq![right, up]);
    lemma_flattened_one(seq![right]);
    lemma_flattened_one(seq![up]);
    lemma_flattened_one(seq![across]);
    lemma_flattened_one(seq![turn]);
    lemma_flattened_one(seq![sync()]);
    lemma_flattened_concat(seq![seq![across]], seq![seq![turn]]);
    assert(seq![seq![across], seq![turn]] =~= seq![seq![across]] + seq![seq![turn]]);
    assert(seq![across] + seq![turn] =~= seq![across, turn]);
    lemma_sync_count_stepped(g, seq![right, up], seq![right], seq![up]);
    lemma_sync_count_stepped(g, seq![across, turn], seq![across], seq![turn]);
    assert(both * 0 + only_x * 0 + only_y * 0 == 0);
    lemma_flattened_concat(moves, seq![seq![sync()]]);
    lemma_flattened_concat(turns, seq![seq![sync()]]);
    assert(moves.push(seq![sync()]) =~= moves + seq![seq![sync()]]);
    assert(turns.push(seq![sync()]) =~= turns + seq![seq![sync()]]);
    lemma_sync_count_step(Seq::<EventParams>::empty());
    assert(Seq::<EventParams>::empty().push(sync()) =~= seq![sync()]);
    lemma_sync_count_concat(flattened(moves), seq![sync()]);
    lemma_sync_count_concat(flattened(turns), seq![sync()]);
}

/// The events of one batch are that batch.
pub proof fn lemma_flattened_one(batch: Seq<EventParams>)
    ensures
        flattened(seq![batch]) == batch,
{
    assert(seq![batch].drop_last() =~= Seq::<Seq<EventParams>>::empty());
    assert(flattened(seq![batch].drop_last()) =~= Seq::<EventParams>::empty());
    assert(seq![batch].last() == batch);
    assert(flattened(seq![batch]) =~= batch);
}

} // verus!
