use vstd::prelude::*;
use crate::controller::{
    pop_back_add, ring_push, sensed_block, Step, TurtleController, HISTORY_CAPACITY,
};
use crate::model::{
    Action, ActionType, Direction, Goal, MineDirection, MoveDirection, Position, QueuedAction, Slot,
    TurnDirection, Turtle, TurtleError,
};
use crate::planner::{move_point_steps, moves, turn_steps};

verus! {

/// The steps of a queued instruction for an agent at `pos` facing `h`.
pub open spec fn expand_spec(a: QueuedAction, pos: Position, h: Direction) -> Seq<Step> {
    match a {
        QueuedAction::Turn(t) => seq![Step::Turn(t)],
        QueuedAction::MoveAndMineLen(l) => moves(MoveDirection::Forward, l as int),
        QueuedAction::MoveDirection(d) => turn_steps(h, d).push(Step::MineMove(MoveDirection::Forward)),
        QueuedAction::MovePoint(p) => move_point_steps(pos, h, p),
        QueuedAction::TurnToward(d) => turn_steps(h, d),
        QueuedAction::MoveAndMine(d) => seq![Step::MineMove(d)],
        QueuedAction::Nothing => seq![],
    }
}

/// Whether an item name is one of the fuels.
pub open spec fn fuel_name(n: Seq<char>) -> bool {
    n == "minecraft:coal"@ || n == "minecraft:charcoal"@
}

/// The id of the first slot that holds fuel.
pub open spec fn fuel_slot(slots: Seq<Slot>) -> Option<i64>
    decreases slots.len(),
{
    if slots.len() == 0 {
        None
    } else if slots[0].type_field is Some && fuel_name(slots[0].type_field->0.name@) {
        Some(slots[0].id)
    } else {
        fuel_slot(slots.drop_first())
    }
}

/// Whether `steps` is the refuel round for an inventory: an info refresh,
/// then, when some slot holds fuel, selecting that slot and refuelling.
pub open spec fn is_refuel_plan(steps: Seq<Step>, slots: Seq<Slot>) -> bool {
    &&& steps.len() >= 1
    &&& steps[0] == Step::Send(ActionType::Info)
    &&& match fuel_slot(slots) {
        None => steps.len() == 1,
        Some(id) => {
            &&& steps.len() == 3
            &&& steps[1] matches Step::Send(ActionType::Slot { name, args }) && name@ == "Select"@ && args@
                == seq![id]
            &&& steps[2] == Step::Send(ActionType::Refuel)
        },
    }
}

pub open spec fn spin_steps() -> Seq<Step> {
    seq![Step::Send(ActionType::Mine(MineDirection::Forward)), Step::Send(ActionType::Turn(TurnDirection::Right))]
}

pub open spec fn probe_steps() -> Seq<Step> {
    seq![
        Step::MineMove(MoveDirection::Forward),
        Step::CheckNorth,
        Step::Send(ActionType::Move(MoveDirection::Backward)),
        Step::Send(ActionType::Turn(TurnDirection::Right)),
    ]
}

/// The heading calibration: mine and turn right on all four sides, remember
/// the position, then probe up to four sides for one that leads north,
/// stepping back and turning right after each miss.
pub open spec fn calibration_steps() -> Seq<Step> {
    spin_steps() + spin_steps() + spin_steps() + spin_steps() + seq![Step::MarkOrigin] + probe_steps()
        + probe_steps() + probe_steps() + probe_steps() + seq![Step::CalibrationFailed]
}

/// The controller's invariant: the history is within its capacity, and the
/// visited positions form a set.
pub open spec fn wf(c: TurtleController) -> bool {
    &&& c.turtle.executed_actions@.len() <= HISTORY_CAPACITY
    &&& c.turtle.visited@.no_duplicates()
}

/// Whether the two controller states differ at most in their plans.
pub open spec fn same_but_plan(c: TurtleController, d: TurtleController) -> bool {
    d.turtle == c.turtle && d.current == c.current && d.mining_from == c.mining_from && d.origin == c.origin
}

/// One transition on the step at the front of a non-empty plan, with its
/// command, if any, in `r`.
pub open spec fn advanced(c: TurtleController, d: TurtleController, r: Result<Option<Action>, TurtleError>) -> bool {
    let rest = c.plan@.drop_first();
    match c.plan@[0] {
        Step::Turn(t) => {
            &&& r == Ok::<Option<Action>, TurtleError>(Some(Action { action: ActionType::Turn(t) }))
            &&& d.turtle == (Turtle { direction: c.turtle.direction.turned_spec(t), ..c.turtle })
            &&& d.plan@ == rest && d.current == c.current && d.mining_from == c.mining_from && d.origin == c.origin
        },
        Step::MineMove(m) => {
            &&& d.turtle == c.turtle && d.current == c.current && d.origin == c.origin
            &&& if m == MoveDirection::Backward {
                r == Err::<Option<Action>, TurtleError>(TurtleError::ErrorBlock)
            } else if c.mining_from is None {
                &&& d.mining_from == Some(c.turtle.pos) && d.plan == c.plan
                &&& r == Ok::<Option<Action>, TurtleError>(Some(Action {
                    action: if sensed_block(c.turtle.blocks@, m.swap_spec()) {
                        ActionType::Mine(m.swap_spec())
                    } else {
                        ActionType::Move(m)
                    },
                }))
            } else if c.mining_from->0 == c.turtle.pos {
                &&& d.mining_from == c.mining_from && d.plan == c.plan
                &&& r == Ok::<Option<Action>, TurtleError>(Some(Action { action: ActionType::Move(m) }))
            } else {
                &&& d.mining_from is None && d.plan@ == rest
                &&& r == Ok::<Option<Action>, TurtleError>(None)
            }
        },
        Step::Send(a) => {
            &&& r == Ok::<Option<Action>, TurtleError>(Some(Action { action: a }))
            &&& same_but_plan(c, d) && d.plan@ == rest
        },
        Step::MarkOrigin => {
            &&& r == Ok::<Option<Action>, TurtleError>(None)
            &&& d.turtle == c.turtle && d.current == c.current && d.mining_from == c.mining_from
            &&& d.origin == c.turtle.pos && d.plan@ == rest
        },
        Step::CheckNorth => {
            &&& r == Ok::<Option<Action>, TurtleError>(None)
            &&& same_but_plan(c, d)
            &&& d.plan@ == if c.origin.z > c.turtle.pos.z { Seq::<Step>::empty() } else { rest }
        },
        Step::CalibrationFailed => {
            &&& r == Err::<Option<Action>, TurtleError>(TurtleError::ErrorBlock)
            &&& same_but_plan(c, d) && d.plan@ == Seq::<Step>::empty()
        },
        Step::Finish => {
            &&& r == Ok::<Option<Action>, TurtleError>(Some(Action { action: ActionType::Info }))
            &&& d.turtle == (Turtle { executed_actions: d.turtle.executed_actions, ..c.turtle })
            &&& d.turtle.executed_actions@ == match c.current {
                Some(a) => ring_push(c.turtle.executed_actions@, HISTORY_CAPACITY as nat, a),
                None => c.turtle.executed_actions@,
            }
            &&& d.current is None && d.mining_from == c.mining_from && d.origin == c.origin && d.plan@ == rest
        },
    }
}

fn push_spin(r: &mut Vec<Step>)
    ensures
        final(r)@ == old(r)@ + spin_steps(),
{
    r.push(Step::Send(ActionType::Mine(MineDirection::Forward)));
    r.push(Step::Send(ActionType::Turn(TurnDirection::Right)));
    assert(r@ =~= old(r)@ + spin_steps());
}

fn push_probe(r: &mut Vec<Step>)
    ensures
        final(r)@ == old(r)@ + probe_steps(),
{
    r.push(Step::MineMove(MoveDirection::Forward));
    r.push(Step::CheckNorth);
    r.push(Step::Send(ActionType::Move(MoveDirection::Backward)));
    r.push(Step::Send(ActionType::Turn(TurnDirection::Right)));
    assert(r@ =~= old(r)@ + probe_steps());
}

/// Whether an item name is one of the fuels.
fn is_fuel_name(n: &String) -> (r: bool)
    ensures
        r == fuel_name(n@),
{
    proof {
        reveal_strlit("minecraft:coal");
        reveal_strlit("minecraft:charcoal");
    }
    *n == "minecraft:coal".to_owned() || *n == "minecraft:charcoal".to_owned()
}

impl TurtleController {
    /// The steps of a queued instruction for an agent at `pos` facing `h`:
    /// a turn, a run of forward mining-moves, a reorientation then one
    /// mining-move, a point plan, a reorientation, one mining-move, or
    /// nothing.
    pub fn expand(a: QueuedAction, pos: Position, h: Direction) -> (r: Vec<Step>)
        ensures
            r@ == expand_spec(a, pos, h),
    {
        match a {
            QueuedAction::Turn(t) => {
                let mut r: Vec<Step> = Vec::new();
                r.push(Step::Turn(t));
                assert(r@ =~= seq![Step::Turn(t)]);
                r
            },
            QueuedAction::MoveAndMineLen(l) => TurtleController::move_blocks(MoveDirection::Forward, l),
            QueuedAction::MoveDirection(d) => {
                let mut r = TurtleController::turn_towards(h, d);
                r.push(Step::MineMove(MoveDirection::Forward));
                r
            },
            QueuedAction::MovePoint(p) => TurtleController::move_point(pos, h, p),
            QueuedAction::TurnToward(d) => TurtleController::turn_towards(h, d),
            QueuedAction::MoveAndMine(d) => {
                let mut r: Vec<Step> = Vec::new();
                r.push(Step::MineMove(d));
                assert(r@ =~= seq![Step::MineMove(d)]);
                r
            },
            QueuedAction::Nothing => Vec::new(),
        }
    }

    /// The refuel round for an inventory: an info refresh, then, when a slot
    /// holds coal or charcoal, selecting the first such slot and refuelling.
    pub fn refuel_plan(slots: &Vec<Slot>) -> (r: Vec<Step>)
        ensures
            is_refuel_plan(r@, slots@),
    {
        let mut r: Vec<Step> = Vec::new();
        r.push(Step::Send(ActionType::Info));
        let mut i: usize = 0;
        assert(slots@.subrange(0, slots@.len() as int) =~= slots@);
        while i < slots.len()
            invariant
                i <= slots@.len(),
                fuel_slot(slots@) == fuel_slot(slots@.subrange(i as int, slots@.len() as int)),
                r@ == seq![Step::Send(ActionType::Info)],
            decreases slots@.len() - i,
        {
            let ghost rest = slots@.subrange(i as int, slots@.len() as int);
            assert(rest.drop_first() =~= slots@.subrange(i + 1, slots@.len() as int));
            let found = match &slots[i].type_field {
                Some(t) => is_fuel_name(&t.name),
                None => false,
            };
            if found {
                let mut args: Vec<i64> = Vec::new();
                args.push(slots[i].id);
                assert(args@ =~= seq![slots[i as int].id]);
                proof {
                    reveal_strlit("Select");
                }
                r.push(Step::Send(ActionType::Slot { name: "Select".to_owned(), args }));
                r.push(Step::Send(ActionType::Refuel));
                return r;
            }
            i = i + 1;
        }
        r
    }

    /// Starts the heading calibration, replacing the plan.
    pub fn reset_north(&mut self)
        ensures
            final(self).plan@ == calibration_steps(),
            final(self).turtle == old(self).turtle,
            final(self).current == old(self).current,
            final(self).mining_from is None,
            final(self).origin == old(self).origin,
    {
        let mut r: Vec<Step> = Vec::new();
        push_spin(&mut r);
        push_spin(&mut r);
        push_spin(&mut r);
        push_spin(&mut r);
        r.push(Step::MarkOrigin);
        push_probe(&mut r);
        push_probe(&mut r);
        push_probe(&mut r);
        push_probe(&mut r);
        r.push(Step::CalibrationFailed);
        assert(r@ =~= calibration_steps());
        self.plan = r;
        self.mining_from = None;
    }

    /// Carries out the step at the front of the plan.
    pub fn advance(&mut self) -> (r: Result<Option<Action>, TurtleError>)
        requires
            old(self).plan@.len() > 0,
        ensures
            advanced(*old(self), *final(self), r),
            wf(*old(self)) ==> wf(*final(self)),
    {
        let kind = match &self.plan[0] {
            Step::MineMove(m) => Some(*m),
            _ => None,
        };
        if let Some(m) = kind {
            let r = self.move_and_mine_block(m);
            if let Ok(None) = r {
                let _ = self.plan.remove(0);
            }
            return r;
        }
        let step = self.plan.remove(0);
        match step {
            Step::Turn(t) => Ok(Some(self.turn(t))),
            // Mining-moves are carried out above.
            Step::MineMove(_) => Ok(None),
            Step::Send(a) => Ok(Some(Action { action: a })),
            Step::MarkOrigin => {
                self.origin = self.turtle.pos;
                Ok(None)
            },
            Step::CheckNorth => {
                if self.origin.z > self.turtle.pos.z {
                    self.plan = Vec::new();
                }
                Ok(None)
            },
            Step::CalibrationFailed => {
                self.plan = Vec::new();
                Err(TurtleError::ErrorBlock)
            },
            Step::Finish => {
                if let Some(a) = self.current {
                    pop_back_add(&mut self.turtle.executed_actions, HISTORY_CAPACITY, a);
                }
                self.current = None;
                Ok(Some(Action { action: ActionType::Info }))
            },
        }
    }

    /// One transition of the agent's control loop, with the command to send
    /// next, if any. Work in progress goes first, one step per call. With
    /// nothing in progress: `Idle` takes the next queued instruction and
    /// plans its steps, followed by recording it and an info refresh, or asks
    /// for an info refresh when the queue is empty; `Refuel` plans a refuel
    /// round from the inventory it knows; `Deposit` and `Mine` do nothing.
    pub fn next_command(&mut self) -> (r: Result<Option<Action>, TurtleError>)
        ensures
            wf(*old(self)) ==> wf(*final(self)),
            old(self).plan@.len() > 0 ==> advanced(*old(self), *final(self), r),
            old(self).plan@.len() == 0 ==> match old(self).turtle.curr_goal {
                Goal::Idle => if old(self).turtle.action_queue@.len() == 0 {
                    r == Ok::<Option<Action>, TurtleError>(Some(Action { action: ActionType::Info }))
                        && *final(self) == *old(self)
                } else {
                    let a = old(self).turtle.action_queue@[0];
                    &&& final(self).turtle == (Turtle { action_queue: final(self).turtle.action_queue, ..old(self).turtle })
                    &&& final(self).turtle.action_queue@ == old(self).turtle.action_queue@.drop_first()
                    &&& final(self).mining_from == old(self).mining_from
                    &&& final(self).origin == old(self).origin
                    &&& r == Ok::<Option<Action>, TurtleError>(None)
                    &&& final(self).plan@ == expand_spec(a, old(self).turtle.pos, old(self).turtle.direction).push(
                        Step::Finish,
                    )
                    &&& final(self).current == Some(a)
                },
                Goal::Refuel => {
                    &&& r == Ok::<Option<Action>, TurtleError>(None)
                    &&& same_but_plan(*old(self), *final(self))
                    &&& is_refuel_plan(final(self).plan@, old(self).turtle.slots@)
                },
                _ => r == Ok::<Option<Action>, TurtleError>(None) && *final(self) == *old(self),
            },
    {
        if self.plan.len() > 0 {
            return self.advance();
        }
        match self.turtle.curr_goal {
            Goal::Idle => {
                if self.turtle.action_queue.len() == 0 {
                    return Ok(Some(Action { action: ActionType::Info }));
                }
                match self.turtle.action_queue.pop_front() {
                    None => Ok(Some(Action { action: ActionType::Info })),
                    Some(a) => {
                        let mut steps = TurtleController::expand(a, self.turtle.pos, self.turtle.direction);
                        steps.push(Step::Finish);
                        self.plan = steps;
                        self.current = Some(a);
                        Ok(None)
                    },
                }
            },
            Goal::Refuel => {
                self.plan = TurtleController::refuel_plan(&self.turtle.slots);
                Ok(None)
            },
            _ => Ok(None),
        }
    }
}

} // verus!
