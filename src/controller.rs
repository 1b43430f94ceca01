use vstd::prelude::*;
use std::collections::VecDeque;
use crate::model::{
    Action, ActionType, Block, InfoResp, MineDirection, MoveDirection, Position, QueuedAction,
    TurnDirection, Turtle, TurtleError,
};

verus! {

/// One unit of work in an agent's plan. Each step issues at most one
/// primitive command at a time.
#[derive(Clone, Debug, PartialEq, Eq)]
pub enum Step {
    /// Turn the agent, tracking its new heading.
    Turn(TurnDirection),
    /// Mine the way when something is sensed there, then move until the
    /// reported position changes.
    MineMove(MoveDirection),
    /// Issue one command as it is.
    Send(ActionType),
    /// Remember the current position as the calibration origin.
    MarkOrigin,
    /// End the calibration when the last probe went north of the origin.
    CheckNorth,
    /// Every calibration probe failed.
    CalibrationFailed,
    /// The instruction is done: record it and refresh the state.
    Finish,
}

/// The per-agent control loop's state: the agent's model and the remaining
/// steps of the work in progress.
pub struct TurtleController {
    pub turtle: Turtle,
    /// Remaining steps, the next one first.
    pub plan: Vec<Step>,
    /// The instruction whose steps are in `plan`.
    pub current: Option<QueuedAction>,
    /// Where the mining-move in progress started.
    pub mining_from: Option<Position>,
    /// Reference position of the heading calibration.
    pub origin: Position,
}

/// Capacity of the executed-instruction history.
pub const HISTORY_CAPACITY: usize = 100;

/// The history after recording `item`: the oldest entry leaves when the
/// history is full.
pub open spec fn ring_push<T>(items: Seq<T>, capacity: nat, item: T) -> Seq<T> {
    if items.len() >= capacity {
        items.drop_first().push(item)
    } else {
        items.push(item)
    }
}

/// Appends `item` to a bounded history, evicting the oldest entry first
/// when the history already holds `capacity` entries.
pub fn pop_back_add<T>(items: &mut VecDeque<T>, capacity: usize, item: T)
    requires
        0 < capacity,
    ensures
        final(items)@ == ring_push(old(items)@, capacity as nat, item),
{
    if items.len() >= capacity {
        let _ = items.pop_front();
        items.push_back(item);
        return;
    }
    items.push_back(item);
}

/// A bounded history never grows past its capacity: recording into a full
/// history drops the oldest entry and keeps the others, in order, before the
/// new one.
pub proof fn lemma_history_bounded<T>(items: Seq<T>, capacity: nat, item: T)
    requires
        0 < capacity,
        items.len() <= capacity,
    ensures
        ring_push(items, capacity, item).len() <= capacity,
        ring_push(items, capacity, item).last() == item,
        items.len() == capacity ==> ring_push(items, capacity, item) == items.subrange(1, capacity as int).push(item),
        items.len() < capacity ==> ring_push(items, capacity, item) == items.push(item),
{
    if items.len() == capacity {
        assert(items.drop_first() =~= items.subrange(1, capacity as int));
    }
}

/// Whether the first reading towards `d` reports a block.
pub open spec fn sensed_block(blocks: Seq<Block>, d: MineDirection) -> bool
    decreases blocks.len(),
{
    if blocks.len() == 0 {
        false
    } else if blocks[0].direction == d {
        blocks[0].exists
    } else {
        sensed_block(blocks.drop_first(), d)
    }
}

/// The agent after a reply: fuel, readings, inventory and position come
/// from the reply, the rest stays.
pub open spec fn refreshed(t: Turtle, resp: InfoResp) -> Turtle {
    Turtle { fuel: resp.fuel, blocks: resp.blocks, slots: resp.slots, pos: resp.pos, ..t }
}

impl TurtleController {
    pub fn new(turtle: Turtle) -> (r: TurtleController)
        ensures
            r.turtle == turtle,
            r.plan@ == Seq::<Step>::empty(),
            r.current is None,
            r.mining_from is None,
            r.origin == turtle.pos,
    {
        let origin = turtle.pos;
        TurtleController { turtle, plan: Vec::new(), current: None, mining_from: None, origin }
    }

    /// Appends an operator instruction at the back of the agent's queue.
    pub fn enqueue(&mut self, action: QueuedAction)
        ensures
            final(self).turtle.action_queue@ == old(self).turtle.action_queue@.push(action),
            final(self).turtle == (Turtle { action_queue: final(self).turtle.action_queue, ..old(self).turtle }),
            final(self).plan == old(self).plan,
            final(self).current == old(self).current,
            final(self).mining_from == old(self).mining_from,
            final(self).origin == old(self).origin,
    {
        self.turtle.action_queue.push_back(action);
    }

    /// Copies fuel, readings, inventory and position from a reply.
    pub fn parse_resp(&mut self, resp: InfoResp)
        ensures
            final(self).turtle == refreshed(old(self).turtle, resp),
            final(self).plan == old(self).plan,
            final(self).current == old(self).current,
            final(self).mining_from == old(self).mining_from,
            final(self).origin == old(self).origin,
    {
        self.turtle.fuel = resp.fuel;
        self.turtle.blocks = resp.blocks;
        self.turtle.slots = resp.slots;
        self.turtle.pos = resp.pos;
    }

    /// Settles a command that was sent: `None` means the transport is closed
    /// or no reply came, which fails with `ErrorWebsockets`; a reply
    /// refreshes the agent.
    pub fn complete_send(&mut self, reply: Option<InfoResp>) -> (r: Result<(), TurtleError>)
        ensures
            reply is None ==> r == Err::<(), TurtleError>(TurtleError::ErrorWebsockets)
                && *final(self) == *old(self),
            reply is Some ==> r == Ok::<(), TurtleError>(())
                && final(self).turtle == refreshed(old(self).turtle, reply->0)
                && final(self).plan == old(self).plan
                && final(self).current == old(self).current
                && final(self).mining_from == old(self).mining_from
                && final(self).origin == old(self).origin,
    {
        match reply {
            None => Err(TurtleError::ErrorWebsockets),
            Some(resp) => {
                self.parse_resp(resp);
                Ok(())
            },
        }
    }

    /// Turns the agent: its tracked heading changes now, and the returned
    /// command is to be sent.
    pub fn turn(&mut self, dir: TurnDirection) -> (r: Action)
        ensures
            r.action == ActionType::Turn(dir),
            final(self).turtle == (Turtle { direction: old(self).turtle.direction.turned_spec(dir), ..old(self).turtle }),
            final(self).plan == old(self).plan,
            final(self).current == old(self).current,
            final(self).mining_from == old(self).mining_from,
            final(self).origin == old(self).origin,
    {
        self.turtle.direction = self.turtle.direction.turned(dir);
        Action { action: ActionType::Turn(dir) }
    }

    /// The command that moves the agent one block.
    pub fn move_turtle(dir: MoveDirection) -> (r: Action)
        ensures
            r.action == ActionType::Move(dir),
    {
        Action { action: ActionType::Move(dir) }
    }

    /// One decision of a mining-move towards `dir`. Backward fails with
    /// `ErrorBlock`. On the first call the start position is remembered and
    /// the way is mined when a block is sensed there, else a move is sent.
    /// Later calls send a move until the position differs from the start,
    /// and then report completion with `None`.
    pub fn move_and_mine_block(&mut self, dir: MoveDirection) -> (r: Result<Option<Action>, TurtleError>)
        ensures
            final(self).turtle == old(self).turtle,
            final(self).plan == old(self).plan,
            final(self).current == old(self).current,
            final(self).origin == old(self).origin,
            dir == MoveDirection::Backward ==> r == Err::<Option<Action>, TurtleError>(TurtleError::ErrorBlock)
                && final(self).mining_from == old(self).mining_from,
            dir != MoveDirection::Backward && old(self).mining_from is None ==> {
                &&& final(self).mining_from == Some(old(self).turtle.pos)
                &&& r is Ok && r->Ok_0 is Some
                &&& if sensed_block(old(self).turtle.blocks@, dir.swap_spec()) {
                    r->Ok_0->0.action == ActionType::Mine(dir.swap_spec())
                } else {
                    r->Ok_0->0.action == ActionType::Move(dir)
                }
            },
            dir != MoveDirection::Backward && old(self).mining_from is Some
                && old(self).mining_from->0 == old(self).turtle.pos ==> {
                &&& final(self).mining_from == old(self).mining_from
                &&& r is Ok && r->Ok_0 is Some
                &&& r->Ok_0->0.action == ActionType::Move(dir)
            },
            dir != MoveDirection::Backward && old(self).mining_from is Some
                && old(self).mining_from->0 != old(self).turtle.pos ==> {
                &&& final(self).mining_from is None
                &&& r == Ok::<Option<Action>, TurtleError>(None)
            },
    {
        if dir == MoveDirection::Backward {
            return Err(TurtleError::ErrorBlock);
        }
        match self.mining_from {
            None => {
                self.mining_from = Some(self.turtle.pos);
                let m = dir.swap();
                if block_sensed(&self.turtle.blocks, m) {
                    Ok(Some(Action { action: ActionType::Mine(m) }))
                } else {
                    Ok(Some(TurtleController::move_turtle(dir)))
                }
            },
            Some(start) => {
                if start != self.turtle.pos {
                    self.mining_from = None;
                    Ok(None)
                } else {
                    Ok(Some(TurtleController::move_turtle(dir)))
                }
            },
        }
    }
}

/// Whether the first reading towards `d` reports a block.
fn block_sensed(blocks: &Vec<Block>, d: MineDirection) -> (r: bool)
    ensures
        r == sensed_block(blocks@, d),
{
    let mut i: usize = 0;
    assert(blocks@.subrange(0, blocks@.len() as int) =~= blocks@);
    while i < blocks.len()
        invariant
            i <= blocks@.len(),
            sensed_block(blocks@, d) == sensed_block(blocks@.subrange(i as int, blocks@.len() as int), d),
        decreases blocks@.len() - i,
    {
        let ghost rest = blocks@.subrange(i as int, blocks@.len() as int);
        assert(rest.drop_first() =~= blocks@.subrange(i + 1, blocks@.len() as int));
        if blocks[i].direction == d {
            return blocks[i].exists;
        }
        i = i + 1;
    }
    false
}

} // verus!
