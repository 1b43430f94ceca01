use vstd::prelude::*;
use vstd::seq_lib::lemma_concat_associative;
use crate::controller::{Step, TurtleController};
use crate::model::{Direction, MoveDirection, Position, TurnDirection};

verus! {

/// Whether `b` is a quarter turn clockwise from `a`.
pub open spec fn clockwise_next(a: Direction, b: Direction) -> bool {
    a.turned_spec(TurnDirection::Right) == b
}

/// Turns from `current` to `target`: one right turn to the clockwise
/// neighbour, otherwise left turns until the target is faced.
pub open spec fn turn_steps(current: Direction, target: Direction) -> Seq<Step> {
    if current == target {
        seq![]
    } else if clockwise_next(current, target) {
        seq![Step::Turn(TurnDirection::Right)]
    } else if current.turned_spec(TurnDirection::Left) == target {
        seq![Step::Turn(TurnDirection::Left)]
    } else {
        seq![Step::Turn(TurnDirection::Left), Step::Turn(TurnDirection::Left)]
    }
}

/// The heading after a sequence of steps: only `Turn` steps change it.
pub open spec fn heading_after(h: Direction, steps: Seq<Step>) -> Direction
    decreases steps.len(),
{
    if steps.len() == 0 {
        h
    } else {
        let h2 = match steps[0] {
            Step::Turn(t) => h.turned_spec(t),
            _ => h,
        };
        heading_after(h2, steps.drop_first())
    }
}

/// Whether two headings point in opposite directions.
pub open spec fn opposite(a: Direction, b: Direction) -> bool {
    a.turned_spec(TurnDirection::Right).turned_spec(TurnDirection::Right) == b
}

/// Every turn plan is at most two turns long and ends facing the target;
/// opposite headings are reversed by two left turns.
pub proof fn lemma_turn_towards(current: Direction, target: Direction)
    ensures
        turn_steps(current, target).len() <= 2,
        heading_after(current, turn_steps(current, target)) == target,
        opposite(current, target) ==> turn_steps(current, target) == seq![
            Step::Turn(TurnDirection::Left),
            Step::Turn(TurnDirection::Left),
        ],
{
    let s = turn_steps(current, target);
    reveal_with_fuel(heading_after, 3);
    if s.len() == 2 {
        assert(s.drop_first().drop_first() =~= seq![]);
    } else if s.len() == 1 {
        assert(s.drop_first() =~= seq![]);
    }
}


pub open spec fn abs(v: int) -> int {
    if v < 0 { -v } else { v }
}

/// `n` mining-moves in direction `d`.
pub open spec fn moves(d: MoveDirection, n: int) -> Seq<Step> {
    Seq::new(if n > 0 { n as nat } else { 0nat }, |i: int| Step::MineMove(d))
}

/// The heading that resolves a non-zero x offset.
pub open spec fn x_heading(dx: int) -> Direction {
    if dx > 0 { Direction::East } else { Direction::West }
}

/// The heading that resolves a non-zero z offset.
pub open spec fn z_heading(dz: int) -> Direction {
    if dz > 0 { Direction::South } else { Direction::North }
}

/// The vertical motion that resolves a non-zero y offset.
pub open spec fn y_motion(dy: int) -> MoveDirection {
    if dy > 0 { MoveDirection::Up } else { MoveDirection::Down }
}

/// Number of axes with a non-zero offset.
pub open spec fn open_axes(dx: int, dy: int, dz: int) -> nat {
    (if dx != 0 { 1nat } else { 0nat }) + (if dy != 0 { 1nat } else { 0nat }) + (if dz != 0 { 1nat } else { 0nat })
}

/// The axis-greedy walk over the offset `(dx, dy, dz)` from heading `h`:
/// the axis with the largest remaining offset is resolved completely
/// (z before y before x on ties), then the rest.
#[verifier::opaque]
pub open spec fn greedy_steps(dx: int, dy: int, dz: int, h: Direction) -> Seq<Step>
    decreases open_axes(dx, dy, dz),
{
    if dx == 0 && dy == 0 && dz == 0 {
        seq![]
    } else if abs(dz) >= abs(dy) && abs(dz) >= abs(dx) {
        turn_steps(h, z_heading(dz)) + moves(MoveDirection::Forward, abs(dz))
            + greedy_steps(dx, dy, 0, z_heading(dz))
    } else if abs(dy) >= abs(dx) {
        moves(y_motion(dy), abs(dy)) + greedy_steps(dx, 0, dz, h)
    } else {
        turn_steps(h, x_heading(dx)) + moves(MoveDirection::Forward, abs(dx))
            + greedy_steps(0, dy, dz, x_heading(dx))
    }
}

/// The plan that takes an agent at `from`, facing `h`, to `target`.
pub open spec fn move_point_steps(from: Position, h: Direction, target: Position) -> Seq<Step> {
    greedy_steps(target.x - from.x, target.y - from.y, target.z - from.z, h)
}

/// A lattice point in unbounded integers.
pub type Point = (int, int, int);

pub open spec fn point_of(p: Position) -> Point {
    (p.x as int, p.y as int, p.z as int)
}

/// The point one step ahead when facing `h`.
pub open spec fn ahead(p: Point, h: Direction) -> Point {
    match h {
        Direction::East => (p.0 + 1, p.1, p.2),
        Direction::West => (p.0 - 1, p.1, p.2),
        Direction::South => (p.0, p.1, p.2 + 1),
        Direction::North => (p.0, p.1, p.2 - 1),
    }
}

/// Where one step leaves the agent when every mining-move succeeds.
pub open spec fn step_point(p: Point, h: Direction, s: Step) -> Point {
    match s {
        Step::MineMove(MoveDirection::Forward) => ahead(p, h),
        Step::MineMove(MoveDirection::Up) => (p.0, p.1 + 1, p.2),
        Step::MineMove(MoveDirection::Down) => (p.0, p.1 - 1, p.2),
        _ => p,
    }
}

/// Where a sequence of steps leaves the agent when every mining-move succeeds.
pub open spec fn point_after(p: Point, h: Direction, steps: Seq<Step>) -> Point
    decreases steps.len(),
{
    if steps.len() == 0 {
        p
    } else {
        let h2 = match steps[0] {
            Step::Turn(t) => h.turned_spec(t),
            _ => h,
        };
        point_after(step_point(p, h, steps[0]), h2, steps.drop_first())
    }
}

/// Number of mining-moves in a plan.
pub open spec fn mining_moves(steps: Seq<Step>) -> nat
    decreases steps.len(),
{
    if steps.len() == 0 {
        0
    } else {
        mining_moves(steps.drop_first()) + if steps[0] is MineMove { 1nat } else { 0nat }
    }
}

/// Number of turns in a plan.
pub open spec fn turns(steps: Seq<Step>) -> nat
    decreases steps.len(),
{
    if steps.len() == 0 {
        0
    } else {
        turns(steps.drop_first()) + if steps[0] is Turn { 1nat } else { 0nat }
    }
}

proof fn lemma_after_concat(p: Point, h: Direction, a: Seq<Step>, b: Seq<Step>)
    ensures
        point_after(p, h, a + b) == point_after(point_after(p, h, a), heading_after(h, a), b),
        heading_after(h, a + b) == heading_after(heading_after(h, a), b),
    decreases a.len(),
{
    if a.len() > 0 {
        let h2 = match a[0] {
            Step::Turn(t) => h.turned_spec(t),
            _ => h,
        };
        assert((a + b).drop_first() =~= a.drop_first() + b);
        lemma_after_concat(step_point(p, h, a[0]), h2, a.drop_first(), b);
    } else {
        assert(a + b =~= b);
    }
}

proof fn lemma_after_moves(p: Point, h: Direction, d: MoveDirection, n: int)
    requires
        n >= 0,
        d != MoveDirection::Backward,
    ensures
        heading_after(h, moves(d, n)) == h,
        point_after(p, h, moves(d, n)) == match d {
            MoveDirection::Forward => match h {
                Direction::East => (p.0 + n, p.1, p.2),
                Direction::West => (p.0 - n, p.1, p.2),
                Direction::South => (p.0, p.1, p.2 + n),
                Direction::North => (p.0, p.1, p.2 - n),
            },
            MoveDirection::Up => (p.0, p.1 + n, p.2),
            _ => (p.0, p.1 - n, p.2),
        },
    decreases n,
{
    if n > 0 {
        assert(moves(d, n).drop_first() =~= moves(d, n - 1));
        lemma_after_moves(step_point(p, h, Step::MineMove(d)), h, d, n - 1);
    } else {
        assert(moves(d, n) =~= seq![]);
    }
}

proof fn lemma_after_turns(p: Point, h: Direction, target: Direction)
    ensures
        point_after(p, h, turn_steps(h, target)) == p,
        heading_after(h, turn_steps(h, target)) == target,
{
    lemma_turn_towards(h, target);
    reveal_with_fuel(point_after, 3);
    let s = turn_steps(h, target);
    if s.len() == 2 {
        assert(s.drop_first().drop_first() =~= seq![]);
    } else if s.len() == 1 {
        assert(s.drop_first() =~= seq![]);
    }
}

proof fn lemma_greedy_reaches(p: Point, dx: int, dy: int, dz: int, h: Direction)
    ensures
        point_after(p, h, greedy_steps(dx, dy, dz, h)) == (p.0 + dx, p.1 + dy, p.2 + dz),
    decreases open_axes(dx, dy, dz),
{
    reveal(greedy_steps);
    if dx == 0 && dy == 0 && dz == 0 {
    } else if abs(dz) >= abs(dy) && abs(dz) >= abs(dx) {
        let d = z_heading(dz);
        let t = turn_steps(h, d);
        let m = moves(MoveDirection::Forward, abs(dz));
        let rest = greedy_steps(dx, dy, 0, d);
        lemma_after_concat(p, h, t + m, rest);
        lemma_after_concat(p, h, t, m);
        lemma_after_turns(p, h, d);
        lemma_after_moves(p, d, MoveDirection::Forward, abs(dz));
        lemma_greedy_reaches((p.0, p.1, p.2 + dz), dx, dy, 0, d);
    } else if abs(dy) >= abs(dx) {
        let m = moves(y_motion(dy), abs(dy));
        lemma_after_concat(p, h, m, greedy_steps(dx, 0, dz, h));
        lemma_after_moves(p, h, y_motion(dy), abs(dy));
        lemma_greedy_reaches((p.0, p.1 + dy, p.2), dx, 0, dz, h);
    } else {
        let d = x_heading(dx);
        let t = turn_steps(h, d);
        let m = moves(MoveDirection::Forward, abs(dx));
        let rest = greedy_steps(0, dy, dz, d);
        lemma_after_concat(p, h, t + m, rest);
        lemma_after_concat(p, h, t, m);
        lemma_after_turns(p, h, d);
        lemma_after_moves(p, d, MoveDirection::Forward, abs(dx));
        lemma_greedy_reaches((p.0 + dx, p.1, p.2), 0, dy, dz, d);
    }
}

/// A point plan, carried out with every mining-move succeeding, ends at the
/// target.
pub proof fn lemma_move_point_reaches(from: Position, h: Direction, target: Position)
    ensures
        point_after(point_of(from), h, move_point_steps(from, h, target)) == point_of(target),
{
    lemma_greedy_reaches(point_of(from), target.x - from.x, target.y - from.y, target.z - from.z, h);
}

/// Moving to the current position plans nothing.
pub proof fn lemma_move_point_in_place(from: Position, h: Direction)
    ensures
        move_point_steps(from, h, from) == Seq::<Step>::empty(),
{
    reveal(greedy_steps);
}

/// The heading that a one-block horizontal offset asks for.
pub open spec fn adjacent_heading(dx: int, dz: int) -> Direction {
    if dx != 0 { x_heading(dx) } else { z_heading(dz) }
}

/// A target one block away is reached by one reorientation and exactly one
/// mining-move. The reorientation is at most one turn, except that facing
/// away from a horizontal target costs two; a vertical target needs no turn.
pub proof fn lemma_move_point_adjacent(from: Position, h: Direction, target: Position)
    requires
        abs(target.x - from.x) + abs(target.y - from.y) + abs(target.z - from.z) == 1,
    ensures
        mining_moves(move_point_steps(from, h, target)) == 1,
        target.y != from.y ==> turns(move_point_steps(from, h, target)) == 0,
        target.y == from.y ==> turns(move_point_steps(from, h, target)) == turn_steps(
            h,
            adjacent_heading(target.x - from.x, target.z - from.z),
        ).len(),
        !opposite(h, adjacent_heading(target.x - from.x, target.z - from.z)) ==> turns(
            move_point_steps(from, h, target),
        ) <= 1,
        point_after(point_of(from), h, move_point_steps(from, h, target)) == point_of(target),
{
    let dx = target.x - from.x;
    let dy = target.y - from.y;
    let dz = target.z - from.z;
    let s = move_point_steps(from, h, target);
    reveal(greedy_steps);
    lemma_move_point_reaches(from, h, target);
    reveal_with_fuel(mining_moves, 4);
    reveal_with_fuel(turns, 4);
    if dy != 0 {
        assert(dx == 0 && dz == 0 && abs(dy) == 1);
        assert(greedy_steps(0, 0, 0, h) == Seq::<Step>::empty());
        assert(moves(y_motion(dy), 1) =~= seq![Step::MineMove(y_motion(dy))]);
        assert(s =~= seq![Step::MineMove(y_motion(dy))]);
        assert(s.drop_first() =~= seq![]);
    } else {
        let d = adjacent_heading(dx, dz);
        let t = turn_steps(h, d);
        lemma_turn_towards(h, d);
        if dz != 0 {
            assert(greedy_steps(dx, dy, 0, d) == Seq::<Step>::empty());
        } else {
            assert(greedy_steps(0, dy, dz, d) == Seq::<Step>::empty());
        }
        assert(moves(MoveDirection::Forward, 1) =~= seq![Step::MineMove(MoveDirection::Forward)]);
        assert(s =~= t + seq![Step::MineMove(MoveDirection::Forward)]);
        if t.len() == 0 {
            assert(s.drop_first() =~= seq![]);
        } else if t.len() == 1 {
            assert(s.drop_first().drop_first() =~= seq![]);
        } else {
            assert(s.drop_first().drop_first().drop_first() =~= seq![]);
        }
    }
}

/// The offset between two `i64` coordinates is below this in magnitude.
pub const OFFSET_BOUND: i128 = 0x1_0000_0000_0000_0000;

fn magnitude(v: i128) -> (r: i128)
    requires
        -OFFSET_BOUND < v < OFFSET_BOUND,
    ensures
        r == abs(v as int),
{
    if v < 0 { -v } else { v }
}


/// One round of the greedy walk: the first axis resolved and what is left.
proof fn lemma_greedy_unfold(dx: int, dy: int, dz: int, h: Direction)
    requires
        dx != 0 || dy != 0 || dz != 0,
    ensures
        abs(dz) >= abs(dy) && abs(dz) >= abs(dx) ==> greedy_steps(dx, dy, dz, h) == turn_steps(
            h,
            z_heading(dz),
        ) + moves(MoveDirection::Forward, abs(dz)) + greedy_steps(dx, dy, 0, z_heading(dz)),
        !(abs(dz) >= abs(dy) && abs(dz) >= abs(dx)) && abs(dy) >= abs(dx) ==> greedy_steps(
            dx,
            dy,
            dz,
            h,
        ) == moves(y_motion(dy), abs(dy)) + greedy_steps(dx, 0, dz, h),
        !(abs(dz) >= abs(dy) && abs(dz) >= abs(dx)) && !(abs(dy) >= abs(dx)) ==> greedy_steps(
            dx,
            dy,
            dz,
            h,
        ) == turn_steps(h, x_heading(dx)) + moves(MoveDirection::Forward, abs(dx)) + greedy_steps(
            0,
            dy,
            dz,
            x_heading(dx),
        ),
{
    reveal(greedy_steps);
}

impl TurtleController {
    /// The turns that bring an agent facing `current` to face `target`.
    pub fn turn_towards(current: Direction, target: Direction) -> (r: Vec<Step>)
        ensures
            r@ == turn_steps(current, target),
    {
        let mut r: Vec<Step> = Vec::new();
        if current == target {
            return r;
        }
        match (current, target) {
            (Direction::North, Direction::East)
            | (Direction::East, Direction::South)
            | (Direction::South, Direction::West)
            | (Direction::West, Direction::North) => {
                r.push(Step::Turn(TurnDirection::Right));
            },
            _ => {
                // Every other pair is turned to the left, twice when opposite.
                r.push(Step::Turn(TurnDirection::Left));
                if current.turned(TurnDirection::Left) != target {
                    r.push(Step::Turn(TurnDirection::Left));
                }
            },
        }
        r
    }

    /// `amount` mining-moves in direction `dir`; none when `amount` is not positive.
    fn moves_wide(dir: MoveDirection, amount: i128) -> (r: Vec<Step>)
        ensures
            r@ == moves(dir, amount as int),
    {
        let mut r: Vec<Step> = Vec::new();
        let mut i: i128 = 0;
        while i < amount
            invariant
                0 <= i,
                amount > 0 ==> i <= amount,
                amount <= 0 ==> i == 0,
                r@ == moves(dir, i as int),
            decreases amount - i,
        {
            r.push(Step::MineMove(dir));
            i = i + 1;
            assert(r@ =~= moves(dir, i as int));
        }
        proof {
            if amount <= 0 {
                assert(moves(dir, amount as int) =~= seq![]);
                assert(moves(dir, 0) =~= seq![]);
            } else {
                assert(i == amount);
            }
        }
        r
    }

    /// `amount` mining-moves in direction `dir`; none when `amount` is not positive.
    pub fn move_blocks(dir: MoveDirection, amount: i64) -> (r: Vec<Step>)
        ensures
            r@ == moves(dir, amount as int),
    {
        TurtleController::moves_wide(dir, amount as i128)
    }

    /// Resolves the axis with the largest offset, appending its steps to `r`.
    fn resolve_axis(r: &mut Vec<Step>, dx: i128, dy: i128, dz: i128, h: Direction) -> (n: (i128, i128, i128, Direction))
        requires
            dx != 0 || dy != 0 || dz != 0,
            abs(dx as int) < OFFSET_BOUND && abs(dy as int) < OFFSET_BOUND && abs(dz as int) < OFFSET_BOUND,
        ensures
            final(r)@ + greedy_steps(n.0 as int, n.1 as int, n.2 as int, n.3) == old(r)@ + greedy_steps(
                dx as int,
                dy as int,
                dz as int,
                h,
            ),
            open_axes(n.0 as int, n.1 as int, n.2 as int) < open_axes(dx as int, dy as int, dz as int),
            abs(n.0 as int) < OFFSET_BOUND && abs(n.1 as int) < OFFSET_BOUND && abs(n.2 as int) < OFFSET_BOUND,
    {
        let ghost before = r@;
        let ax = magnitude(dx);
        let ay = magnitude(dy);
        let az = magnitude(dz);
        if az >= ay && az >= ax {
            let d = if dz > 0 { Direction::South } else { Direction::North };
            let mut t = TurtleController::turn_towards(h, d);
            let ghost ts = t@;
            r.append(&mut t);
            let mut m = TurtleController::moves_wide(MoveDirection::Forward, az);
            let ghost ms = m@;
            r.append(&mut m);
            proof {
                lemma_greedy_unfold(dx as int, dy as int, dz as int, h);
                let rest = greedy_steps(dx as int, dy as int, 0, d);
                lemma_concat_associative(before + ts, ms, rest);
                lemma_concat_associative(before, ts, ms + rest);
                lemma_concat_associative(ts, ms, rest);
            }
            (dx, dy, 0, d)
        } else if ay >= ax {
            let mv = if dy > 0 { MoveDirection::Up } else { MoveDirection::Down };
            let mut m = TurtleController::moves_wide(mv, ay);
            let ghost ms = m@;
            r.append(&mut m);
            proof {
                lemma_greedy_unfold(dx as int, dy as int, dz as int, h);
                lemma_concat_associative(before, ms, greedy_steps(dx as int, 0, dz as int, h));
            }
            (dx, 0, dz, h)
        } else {
            let d = if dx > 0 { Direction::East } else { Direction::West };
            let mut t = TurtleController::turn_towards(h, d);
            let ghost ts = t@;
            r.append(&mut t);
            let mut m = TurtleController::moves_wide(MoveDirection::Forward, ax);
            let ghost ms = m@;
            r.append(&mut m);
            proof {
                lemma_greedy_unfold(dx as int, dy as int, dz as int, h);
                let rest = greedy_steps(0, dy as int, dz as int, d);
                lemma_concat_associative(before + ts, ms, rest);
                lemma_concat_associative(before, ts, ms + rest);
                lemma_concat_associative(ts, ms, rest);
            }
            (0, dy, dz, d)
        }
    }

    /// The axis-greedy plan from `from`, facing `heading`, to `target`. A
    /// target one block away is resolved directly; otherwise the axis with
    /// the largest remaining offset is resolved completely, turning first for
    /// x and z, until no offset is left.
    pub fn move_point(from: Position, heading: Direction, target: Position) -> (r: Vec<Step>)
        ensures
            r@ == move_point_steps(from, heading, target),
    {
        let mut dx: i128 = target.x as i128 - from.x as i128;
        let mut dy: i128 = target.y as i128 - from.y as i128;
        let mut dz: i128 = target.z as i128 - from.z as i128;
        let ghost whole = move_point_steps(from, heading, target);
        if magnitude(dx) + magnitude(dy) + magnitude(dz) == 1 {
            let mut r: Vec<Step> = Vec::new();
            if dx == 1 {
                r = TurtleController::turn_towards(heading, Direction::East);
            } else if dx == -1 {
                r = TurtleController::turn_towards(heading, Direction::West);
            } else if dz == 1 {
                r = TurtleController::turn_towards(heading, Direction::South);
            } else if dz == -1 {
                r = TurtleController::turn_towards(heading, Direction::North);
            }
            if magnitude(dx) == 1 || magnitude(dz) == 1 {
                r.push(Step::MineMove(MoveDirection::Forward));
            } else if dy == 1 {
                r.push(Step::MineMove(MoveDirection::Up));
            } else if dy == -1 {
                r.push(Step::MineMove(MoveDirection::Down));
            }
            proof {
                reveal_with_fuel(greedy_steps, 2);
                assert(moves(MoveDirection::Forward, 1) =~= seq![Step::MineMove(MoveDirection::Forward)]);
                assert(moves(MoveDirection::Up, 1) =~= seq![Step::MineMove(MoveDirection::Up)]);
                assert(moves(MoveDirection::Down, 1) =~= seq![Step::MineMove(MoveDirection::Down)]);
                assert(greedy_steps(0, 0, 0, heading) == Seq::<Step>::empty());
                assert(greedy_steps(0, 0, 0, Direction::East) == Seq::<Step>::empty());
                assert(greedy_steps(0, 0, 0, Direction::West) == Seq::<Step>::empty());
                assert(greedy_steps(0, 0, 0, Direction::South) == Seq::<Step>::empty());
                assert(greedy_steps(0, 0, 0, Direction::North) == Seq::<Step>::empty());
                assert(r@ =~= whole);
            }
            return r;
        }
        let mut r: Vec<Step> = Vec::new();
        let mut h = heading;
        while dx != 0 || dy != 0 || dz != 0
            invariant
                r@ + greedy_steps(dx as int, dy as int, dz as int, h) == whole,
                abs(dx as int) < OFFSET_BOUND && abs(dy as int) < OFFSET_BOUND && abs(dz as int) < OFFSET_BOUND,
            decreases open_axes(dx as int, dy as int, dz as int),
        {
            let (nx, ny, nz, nh) = TurtleController::resolve_axis(&mut r, dx, dy, dz, h);
            dx = nx;
            dy = ny;
            dz = nz;
            h = nh;
        }
        proof {
            reveal(greedy_steps);
        }
        assert(r@ =~= whole);
        r
    }
}

} // verus!
