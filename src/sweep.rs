use std::collections::VecDeque;
use vstd::prelude::*;
use vstd::seq_lib::lemma_concat_associative;
use crate::controller::TurtleController;
use crate::planner::abs;
use crate::model::{Direction, Position, QueuedAction, Turtle};

verus! {

/// The heading of the next sweep step, from heading `d` at cursor `(x, z)`:
/// East turns South at the end's z, South turns West at the end's x, West
/// turns South at the start's z, and South turns East at the start's x.
pub open spec fn sweep_turn(start: Position, end: Position, d: Direction, x: int, z: int) -> Direction {
    if d == Direction::East && z == end.z {
        Direction::South
    } else if d == Direction::South && x == end.x {
        Direction::West
    } else if d == Direction::West && z == start.z {
        Direction::South
    } else if d == Direction::South && x == start.x {
        Direction::East
    } else {
        d
    }
}

/// The cursor `(x, z)` moved one block by the sweep's convention.
pub open spec fn cursor_step(x: int, z: int, d: Direction) -> (int, int) {
    match d {
        Direction::North => (x - 1, z),
        Direction::South => (x + 1, z),
        Direction::East => (x, z + 1),
        Direction::West => (x, z - 1),
    }
}

/// Heading and cursor `(x, z)` after `n` sweep steps from `start` facing `d0`.
pub open spec fn sweep_state(start: Position, end: Position, d0: Direction, n: nat) -> (Direction, int, int)
    decreases n,
{
    if n == 0 {
        (d0, start.x as int, start.z as int)
    } else {
        let prev = sweep_state(start, end, d0, (n - 1) as nat);
        let d = sweep_turn(start, end, prev.0, prev.1, prev.2);
        let c = cursor_step(prev.1, prev.2, d);
        (d, c.0, c.1)
    }
}

/// Whether the cursor is past the end's x after `n` steps.
pub open spec fn sweep_out(start: Position, end: Position, d0: Direction, n: nat) -> bool {
    sweep_state(start, end, d0, n).1 > end.x
}

/// Whether every cursor up to step `n` has coordinates that fit an `i64`.
pub open spec fn sweep_fits(start: Position, end: Position, d0: Direction, n: nat) -> bool {
    forall|j: nat|
        j <= n ==> i64::MIN <= #[trigger] sweep_state(start, end, d0, j).1 <= i64::MAX
            && i64::MIN <= sweep_state(start, end, d0, j).2 <= i64::MAX
}

/// Whether the sweep leaves the layer for the first time at step `n`.
pub open spec fn sweep_ends_at(start: Position, end: Position, d0: Direction, n: nat) -> bool {
    n > 0 && sweep_out(start, end, d0, n) && forall|j: nat| 0 < j < n ==> !#[trigger] sweep_out(start, end, d0, j)
}

/// Whether the sweep leaves the layer, with every cursor on the way
/// representable.
pub open spec fn sweep_halts(start: Position, end: Position, d0: Direction) -> bool {
    exists|n: nat| n > 0 && #[trigger] sweep_out(start, end, d0, n) && sweep_fits(start, end, d0, n)
}

/// The step budget of a sweep check: `2 * |end.z - start.z| + |end.x - start.x| + 3`.
pub open spec fn sweep_budget(start: Position, end: Position) -> int {
    2 * abs(end.z - start.z) + abs(end.x - start.x) + 3
}

/// Whether the sweep leaves the layer within `m` steps, with every cursor on
/// the way representable.
pub open spec fn sweep_halts_within(start: Position, end: Position, d0: Direction, m: int) -> bool {
    exists|n: nat| 0 < n <= m && #[trigger] sweep_out(start, end, d0, n) && sweep_fits(start, end, d0, n)
}

/// Number of steps of a sweep that halts.
pub open spec fn sweep_len(start: Position, end: Position, d0: Direction) -> nat {
    choose|n: nat| sweep_ends_at(start, end, d0, n)
}

/// The instructions of a layer sweep: one move per step that stays in the
/// layer; the step that would leave it is not taken.
pub open spec fn sweep_plan(start: Position, end: Position, d0: Direction) -> Seq<QueuedAction> {
    Seq::new(
        (sweep_len(start, end, d0) - 1) as nat,
        |i: int| QueuedAction::MoveDirection(sweep_state(start, end, d0, (i + 1) as nat).0),
    )
}

proof fn lemma_sweep_end_unique(start: Position, end: Position, d0: Direction, n: nat)
    requires
        sweep_ends_at(start, end, d0, n),
    ensures
        sweep_len(start, end, d0) == n,
{
    let m = sweep_len(start, end, d0);
    assert(sweep_ends_at(start, end, d0, m));
    if m < n {
        assert(!sweep_out(start, end, d0, m));
    } else if n < m {
        assert(!sweep_out(start, end, d0, n));
    }
}

/// The point `p` moved one block towards `d`, by the sweep's convention.
pub open spec fn moved_spec(p: Position, d: Direction) -> Position {
    let c = cursor_step(p.x as int, p.z as int, d);
    Position { x: c.0 as i64, y: p.y, z: c.1 as i64 }
}

/// Every layer of the rectangle from layer `y` up to `b.y`: a move to the
/// layer's first corner, then the layer's sweep from heading `h`.
pub open spec fn rect_layers(a: Position, b: Position, h: Direction, y: int) -> Seq<QueuedAction>
    decreases b.y + 1 - y,
{
    if y > b.y {
        seq![]
    } else {
        seq![QueuedAction::MovePoint(Position { x: a.x, y: y as i64, z: a.z })]
            + sweep_plan(a, b, h) + rect_layers(a, b, h, y + 1)
    }
}

/// Moves `pos` one block towards `dir`: North and South along x, East and
/// West along z.
pub fn move_in_direction(pos: &mut Position, dir: &Direction)
    requires
        i64::MIN <= cursor_step(old(pos).x as int, old(pos).z as int, *dir).0 <= i64::MAX,
        i64::MIN <= cursor_step(old(pos).x as int, old(pos).z as int, *dir).1 <= i64::MAX,
    ensures
        *final(pos) == moved_spec(*old(pos), *dir),
{
    match dir {
        Direction::North => pos.x = pos.x - 1,
        Direction::South => pos.x = pos.x + 1,
        Direction::East => pos.z = pos.z + 1,
        Direction::West => pos.z = pos.z - 1,
    }
}


/// The sweep reads only the x and z of its corners.
proof fn lemma_sweep_state_xz(s1: Position, e1: Position, s2: Position, e2: Position, d0: Direction, n: nat)
    requires
        s1.x == s2.x && s1.z == s2.z && e1.x == e2.x && e1.z == e2.z,
    ensures
        sweep_state(s1, e1, d0, n) == sweep_state(s2, e2, d0, n),
    decreases n,
{
    if n > 0 {
        lemma_sweep_state_xz(s1, e1, s2, e2, d0, (n - 1) as nat);
    }
}

proof fn lemma_sweep_layer(a: Position, b: Position, s: Position, e: Position, d0: Direction)
    requires
        s.x == a.x && s.z == a.z && e.x == b.x && e.z == b.z,
        sweep_halts(a, b, d0),
    ensures
        sweep_halts(s, e, d0),
        forall|n: nat| sweep_state(s, e, d0, n) == #[trigger] sweep_state(a, b, d0, n),
        forall|n: nat| sweep_ends_at(s, e, d0, n) == #[trigger] sweep_ends_at(a, b, d0, n),
{
    assert forall|n: nat| sweep_state(s, e, d0, n) == #[trigger] sweep_state(a, b, d0, n) by {
        lemma_sweep_state_xz(s, e, a, b, d0, n);
    }
    assert forall|n: nat| #[trigger] sweep_out(s, e, d0, n) == sweep_out(a, b, d0, n) by {
        lemma_sweep_state_xz(s, e, a, b, d0, n);
    }
    let n = choose|n: nat| n > 0 && #[trigger] sweep_out(a, b, d0, n) && sweep_fits(a, b, d0, n);
    assert(sweep_out(s, e, d0, n));
    assert forall|j: nat| j <= n implies i64::MIN <= #[trigger] sweep_state(s, e, d0, j).1 <= i64::MAX
        && i64::MIN <= sweep_state(s, e, d0, j).2 <= i64::MAX by {
        lemma_sweep_state_xz(s, e, a, b, d0, j);
    }
    assert(sweep_fits(s, e, d0, n));
    assert forall|m: nat| sweep_ends_at(s, e, d0, m) == #[trigger] sweep_ends_at(a, b, d0, m) by {
        lemma_sweep_state_xz(s, e, a, b, d0, m);
        if sweep_ends_at(a, b, d0, m) {
            assert forall|j: nat| 0 < j < m implies !#[trigger] sweep_out(s, e, d0, j) by {
                lemma_sweep_state_xz(s, e, a, b, d0, j);
                assert(!sweep_out(a, b, d0, j));
            }
        }
        if sweep_ends_at(s, e, d0, m) {
            assert forall|j: nat| 0 < j < m implies !#[trigger] sweep_out(a, b, d0, j) by {
                lemma_sweep_state_xz(s, e, a, b, d0, j);
                assert(!sweep_out(s, e, d0, j));
            }
        }
    }
}

impl TurtleController {
    /// The snake sweep of one layer from `start` towards `end`, starting
    /// with heading `heading`: one `MoveDirection` per simulated step, ending
    /// before the first step that would take the cursor's x past `end.x`.
    pub fn mine_layer(start: Position, end: Position, heading: Direction) -> (r: VecDeque<QueuedAction>)
        requires
            sweep_halts(start, end, heading),
        ensures
            r@ == sweep_plan(start, end, heading),
            sweep_ends_at(start, end, heading, r@.len() + 1),
    {
        let ghost bound: nat = choose|n: nat| n > 0 && #[trigger] sweep_out(start, end, heading, n) && sweep_fits(start, end, heading, n);
        let mut actions: VecDeque<QueuedAction> = VecDeque::new();
        let mut pos = start;
        let mut dir = heading;
        let ghost mut i: nat = 0;
        loop
            invariant
                i < bound,
                i > 0 ==> !sweep_out(start, end, heading, i),
                sweep_out(start, end, heading, bound),
                sweep_fits(start, end, heading, bound),
                sweep_state(start, end, heading, i) == (dir, pos.x as int, pos.z as int),
                actions@.len() == i,
                forall|k: int| 0 <= k < i ==> actions@[k] == QueuedAction::MoveDirection(
                    #[trigger] sweep_state(start, end, heading, (k + 1) as nat).0,
                ),
                forall|j: nat| 0 < j < i ==> !#[trigger] sweep_out(start, end, heading, j),
            ensures
                sweep_ends_at(start, end, heading, i + 1),
                actions@.len() == i,
                forall|k: int| 0 <= k < i ==> actions@[k] == QueuedAction::MoveDirection(
                    #[trigger] sweep_state(start, end, heading, (k + 1) as nat).0,
                ),
            decreases bound - i,
        {
            let turned = if dir == Direction::East && pos.z == end.z {
                Direction::South
            } else if dir == Direction::South && pos.x == end.x {
                Direction::West
            } else if dir == Direction::West && pos.z == start.z {
                Direction::South
            } else if dir == Direction::South && pos.x == start.x {
                Direction::East
            } else {
                dir
            };
            let mut next = pos;
            proof {
                assert(sweep_state(start, end, heading, (i + 1) as nat).1 == cursor_step(pos.x as int, pos.z as int, turned).0);
            }
            move_in_direction(&mut next, &turned);
            if next.x > end.x {
                break;
            }
            actions.push_back(QueuedAction::MoveDirection(turned));
            pos = next;
            dir = turned;
            proof {
                i = i + 1;
            }
        }
        proof {
            lemma_sweep_end_unique(start, end, heading, i + 1);
            assert(actions@ =~= sweep_plan(start, end, heading));
        }
        actions
    }

    /// Replaces the instruction queue with the sweep of the box between
    /// corners `a` and `b`: for each layer from `a.y` to `b.y`, a move to the
    /// layer's first corner, then the layer's sweep. Every layer's sweep
    /// starts from the agent's present heading.
    pub fn mine_rect(&mut self, a: Position, b: Position)
        requires
            a.y <= b.y ==> sweep_halts(a, b, old(self).turtle.direction),
        ensures
            final(self).turtle.action_queue@ == rect_layers(a, b, old(self).turtle.direction, a.y as int),
            a.y > b.y ==> final(self).turtle.action_queue@.len() == 0,
            final(self).turtle == (Turtle { action_queue: final(self).turtle.action_queue, ..old(self).turtle }),
            final(self).plan == old(self).plan,
            final(self).current == old(self).current,
            final(self).mining_from == old(self).mining_from,
            final(self).origin == old(self).origin,
    {
        let h = self.turtle.direction;
        let mut actions: VecDeque<QueuedAction> = VecDeque::new();
        let mut y: i128 = a.y as i128;
        while y <= b.y as i128
            invariant
                a.y <= y,
                y <= b.y + 1 || y == a.y,
                actions@ + rect_layers(a, b, h, y as int) == rect_layers(a, b, h, a.y as int),
                a.y <= b.y ==> sweep_halts(a, b, h),
            decreases b.y + 1 - y,
        {
            let ghost before = actions@;
            let layer_start = Position { x: a.x, y: y as i64, z: a.z };
            let layer_end = Position { x: b.x, y: y as i64, z: b.z };
            actions.push_back(QueuedAction::MovePoint(layer_start));
            proof {
                lemma_sweep_layer(a, b, layer_start, layer_end, h);
            }
            let mut layer = TurtleController::mine_layer(layer_start, layer_end, h);
            let ghost ls = layer@;
            proof {
                assert(sweep_ends_at(a, b, h, ls.len() + 1));
                lemma_sweep_end_unique(a, b, h, ls.len() + 1);
                assert(ls =~= sweep_plan(a, b, h));
            }
            actions.append(&mut layer);
            proof {
                let head = seq![QueuedAction::MovePoint(layer_start)];
                let rest = rect_layers(a, b, h, y + 1);
                assert(rect_layers(a, b, h, y as int) == head + ls + rest);
                lemma_concat_associative(before + head, ls, rest);
                lemma_concat_associative(before, head, ls + rest);
                lemma_concat_associative(head, ls, rest);
            }
            y = y + 1;
        }
        self.turtle.action_queue = actions;
        assert(actions@ =~= rect_layers(a, b, h, a.y as int));
    }

    /// Whether the sweep of the layer from `start` towards `end`, starting
    /// with heading `heading`, leaves the layer within its step budget
    /// `2 * |end.z - start.z| + |end.x - start.x| + 3`, with every cursor
    /// on the way representable. A sweep that does so halts.
    pub fn sweep_leaves_layer(start: Position, end: Position, heading: Direction) -> (r: bool)
        ensures
            r == sweep_halts_within(start, end, heading, sweep_budget(start, end)),
            r ==> sweep_halts(start, end, heading),
    {
        let dz: i128 = end.z as i128 - start.z as i128;
        let dx: i128 = end.x as i128 - start.x as i128;
        let budget: i128 = 2 * (if dz < 0 { -dz } else { dz }) + (if dx < 0 { -dx } else { dx }) + 3;
        let mut x: i128 = start.x as i128;
        let mut z: i128 = start.z as i128;
        let mut d = heading;
        let mut k: i128 = 0;
        let ghost mut n: nat = 0;
        while k < budget
            invariant
                k == n,
                0 <= k <= budget,
                sweep_state(start, end, heading, n) == (d, x as int, z as int),
                budget == sweep_budget(start, end),
                sweep_fits(start, end, heading, n),
                forall|j: nat| 0 < j <= n ==> !#[trigger] sweep_out(start, end, heading, j),
                i64::MIN <= x <= i64::MAX,
                i64::MIN <= z <= i64::MAX,
            decreases budget - k,
        {
            if d == Direction::East && z == end.z as i128 {
                d = Direction::South;
            } else if d == Direction::South && x == end.x as i128 {
                d = Direction::West;
            } else if d == Direction::West && z == start.z as i128 {
                d = Direction::South;
            } else if d == Direction::South && x == start.x as i128 {
                d = Direction::East;
            }
            match d {
                Direction::North => x = x - 1,
                Direction::South => x = x + 1,
                Direction::East => z = z + 1,
                Direction::West => z = z - 1,
            }
            if x < i64::MIN as i128 || x > i64::MAX as i128 || z < i64::MIN as i128 || z > i64::MAX as i128 {
                proof {
                    let m = (n + 1) as nat;
                    assert(sweep_state(start, end, heading, m) == (d, x as int, z as int));
                    assert forall|w: nat| 0 < w <= budget && #[trigger] sweep_out(start, end, heading, w)
                        implies !sweep_fits(start, end, heading, w) by {
                        if w <= n {
                        } else {
                            assert(sweep_state(start, end, heading, m).1 == x);
                        }
                    }
                }
                return false;
            }
            k = k + 1;
            proof {
                n = n + 1;
                assert forall|j: nat| j <= n implies i64::MIN <= #[trigger] sweep_state(start, end, heading, j).1 <= i64::MAX
                    && i64::MIN <= sweep_state(start, end, heading, j).2 <= i64::MAX by {
                    if j < n {
                        assert(j <= (n - 1) as nat);
                    }
                }
            }
            if x > end.x as i128 {
                assert(sweep_out(start, end, heading, n));
                return true;
            }
        }
        assert forall|w: nat| 0 < w <= budget implies !#[trigger] sweep_out(start, end, heading, w) by {
            assert(w <= n);
        }
        false
    }
}

} // verus!
