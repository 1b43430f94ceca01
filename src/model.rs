use std::collections::VecDeque;
use vstd::prelude::*;

verus! {

/// A point on the integer lattice the agents move on.
#[derive(Clone, Copy, Debug, PartialEq, Eq, Structural, Hash, Default)]
pub struct Position {
    pub x: i64,
    pub y: i64,
    pub z: i64,
}

/// A cardinal heading. Agents have no vertical orientation.
#[derive(Clone, Copy, Debug, PartialEq, Eq, Structural, Hash)]
pub enum Direction {
    North,
    South,
    East,
    West,
}

/// A sensed reading next to the agent.
#[derive(Clone, Debug, PartialEq)]
pub struct Block {
    pub direction: MineDirection,
    pub exists: bool,
    pub block: Option<String>,
}

#[derive(Clone, Copy, Debug, PartialEq, Eq, Structural)]
pub enum Material {
    Coal,
    Diamond,
}

/// The operating mode of an agent.
#[derive(Clone, Copy, Debug, PartialEq, Eq, Structural)]
pub enum Goal {
    Mine(Material),
    Refuel,
    Deposit,
    Idle,
}

/// A motion relative to the agent's heading.
#[derive(Clone, Copy, Debug, PartialEq, Eq, Structural)]
pub enum MoveDirection {
    Forward,
    Backward,
    Up,
    Down,
}

#[derive(Clone, Copy, Debug, PartialEq, Eq, Structural)]
pub enum TurnDirection {
    Left,
    Right,
}

/// An operator instruction addressed to one agent.
#[derive(Clone, Debug)]
pub struct TurtleCommand {
    pub action: QueuedAction,
    pub turtle_id: usize,
}

/// A high-level instruction waiting in an agent's queue.
#[derive(Clone, Copy, Debug, PartialEq, Eq, Structural)]
pub enum QueuedAction {
    MoveAndMine(MoveDirection),
    MoveDirection(Direction),
    MoveAndMineLen(i64),
    MovePoint(Position),
    Turn(TurnDirection),
    TurnToward(Direction),
    Nothing,
}

/// One inventory slot as the agent reports it.
#[derive(Clone, Debug, PartialEq, Default)]
pub struct Slot {
    pub id: i64,
    pub type_field: Option<Type>,
    pub space: i64,
}

/// The item held in a slot.
#[derive(Clone, Debug, PartialEq, Default)]
pub struct Type {
    pub name: String,
    pub count: i64,
}

/// A primitive command sent to an agent.
#[derive(Clone, Debug, PartialEq)]
pub struct Action {
    pub action: ActionType,
}

/// The directions in which an agent can sense and mine.
#[derive(Clone, Copy, Debug, PartialEq, Eq, Structural)]
pub enum MineDirection {
    Forward,
    Down,
    Up,
}

#[derive(Clone, Copy, Debug, PartialEq, Eq, Structural)]
pub enum ChestAction {
    Deposit,
}

#[derive(Clone, Debug, PartialEq, Eq)]
pub enum ActionType {
    Move(MoveDirection),
    Turn(TurnDirection),
    Mine(MineDirection),
    Refuel,
    Interact,
    Chest(ChestAction),
    Slot { name: String, args: Vec<i64> },
    Info,
}

/// Everything the coordinator knows about one agent.
#[derive(Clone, Debug)]
pub struct Turtle {
    pub id: usize,
    pub pos: Position,
    pub direction: Direction,
    pub blocks: Vec<Block>,
    pub curr_goal: Goal,
    pub slots: Vec<Slot>,
    pub fuel: i64,
    pub main_goal: Goal,
    pub action_list: Vec<Action>,
    pub visited: Vec<Position>,
    pub mine_area: Vec<Position>,
    /// Pending instructions, the next one first.
    pub action_queue: VecDeque<QueuedAction>,
    pub prev_pos: Position,
    pub prev_dir: Direction,
    /// Executed instructions, the oldest first.
    pub executed_actions: VecDeque<QueuedAction>,
}

#[derive(Clone, Debug, PartialEq, Eq)]
pub enum TurtleError {
    /// The agent ran out of fuel.
    ErrorNoFuel,
    /// A motion that cannot be carried out was requested.
    ErrorBlock,
    /// The connection to the agent is closed or broken.
    ErrorWebsockets,
    /// A reply could not be read as a response.
    ErrorParsing(String),
}

#[derive(Clone, Debug, PartialEq, Default)]
pub struct Chest {
    pub slots: Vec<Slot2>,
    pub size: i64,
}

#[derive(Clone, Debug, PartialEq, Default)]
pub struct Slot2 {
    pub name: String,
    pub count: i64,
    pub nbt: Option<String>,
}

/// The state snapshot an agent sends after every command.
#[derive(Clone, Debug, PartialEq)]
pub struct InfoResp {
    pub chest: Option<Chest>,
    pub fuel: i64,
    pub slots: Vec<Slot>,
    pub blocks: Vec<Block>,
    pub pos: Position,
}


impl Material {
    /// The height level at which the material is found.
    pub fn level(&self) -> (r: i64)
        ensures
            r == match *self {
                Material::Coal => 50i64,
                Material::Diamond => -53i64,
            },
    {
        match self {
            Material::Coal => 50,
            Material::Diamond => -53,
        }
    }
}

impl Direction {
    /// The heading after one quarter turn.
    pub open spec fn turned_spec(self, t: TurnDirection) -> Direction {
        match (self, t) {
            (Direction::North, TurnDirection::Right) => Direction::East,
            (Direction::East, TurnDirection::Right) => Direction::South,
            (Direction::South, TurnDirection::Right) => Direction::West,
            (Direction::West, TurnDirection::Right) => Direction::North,
            (Direction::North, TurnDirection::Left) => Direction::West,
            (Direction::West, TurnDirection::Left) => Direction::South,
            (Direction::South, TurnDirection::Left) => Direction::East,
            (Direction::East, TurnDirection::Left) => Direction::North,
        }
    }

    /// The heading after one quarter turn: clockwise for `Right`
    /// (North, East, South, West), counter-clockwise for `Left`.
    pub fn turned(self, t: TurnDirection) -> (r: Direction)
        ensures
            r == self.turned_spec(t),
    {
        match (self, t) {
            (Direction::North, TurnDirection::Right) => Direction::East,
            (Direction::East, TurnDirection::Right) => Direction::South,
            (Direction::South, TurnDirection::Right) => Direction::West,
            (Direction::West, TurnDirection::Right) => Direction::North,
            (Direction::North, TurnDirection::Left) => Direction::West,
            (Direction::West, TurnDirection::Left) => Direction::South,
            (Direction::South, TurnDirection::Left) => Direction::East,
            (Direction::East, TurnDirection::Left) => Direction::North,
        }
    }
}

impl MoveDirection {
    pub open spec fn swap_spec(self) -> MineDirection
        recommends
            self != MoveDirection::Backward,
    {
        match self {
            MoveDirection::Forward => MineDirection::Forward,
            MoveDirection::Up => MineDirection::Up,
            _ => MineDirection::Down,
        }
    }

    /// The sensing direction that matches a motion. Backward motion has none.
    pub fn swap(&self) -> (r: MineDirection)
        requires
            *self != MoveDirection::Backward,
        ensures
            r == self.swap_spec(),
    {
        match self {
            MoveDirection::Forward => MineDirection::Forward,
            MoveDirection::Up => MineDirection::Up,
            _ => MineDirection::Down,
        }
    }

    /// The opposite motion.
    pub fn reverse(&self) -> (r: MoveDirection)
        ensures
            r == match *self {
                MoveDirection::Forward => MoveDirection::Backward,
                MoveDirection::Up => MoveDirection::Down,
                MoveDirection::Down => MoveDirection::Up,
                MoveDirection::Backward => MoveDirection::Forward,
            },
    {
        match self {
            MoveDirection::Forward => MoveDirection::Backward,
            MoveDirection::Up => MoveDirection::Down,
            MoveDirection::Down => MoveDirection::Up,
            MoveDirection::Backward => MoveDirection::Forward,
        }
    }
}

/// The number of slots in a full inventory.
pub const INVENTORY_SLOTS: usize = 16;

/// Sum of the space of every slot.
pub open spec fn total_space(slots: Seq<Slot>) -> int
    decreases slots.len(),
{
    if slots.len() == 0 {
        0
    } else {
        total_space(slots.drop_last()) + slots.last().space
    }
}

/// The item count held in one slot (zero when it is empty).
pub open spec fn slot_count(s: Slot) -> int {
    match s.type_field {
        Some(t) => t.count as int,
        None => 0,
    }
}

/// Sum of the item counts of every slot.
pub open spec fn total_count(slots: Seq<Slot>) -> int
    decreases slots.len(),
{
    if slots.len() == 0 {
        0
    } else {
        total_count(slots.drop_last()) + slot_count(slots.last())
    }
}

/// Number of slots that hold an item.
pub open spec fn occupied(slots: Seq<Slot>) -> nat
    decreases slots.len(),
{
    if slots.len() == 0 {
        0
    } else {
        occupied(slots.drop_last()) + if slots.last().type_field is Some { 1nat } else { 0nat }
    }
}

/// Whether the quotient `space / count` is below one quarter. A zero count
/// gives an infinite quotient of the sign of `space` (none when `space` is
/// zero as well), which is below a quarter only when negative.
pub open spec fn ratio_below_quarter(space: int, count: int) -> bool {
    (count > 0 && 4 * space < count) || (count < 0 && 4 * space > count) || (count == 0 && space < 0)
}

pub open spec fn needs_deposit_spec(t: Turtle) -> bool {
    (ratio_below_quarter(total_space(t.slots@), total_count(t.slots@))
        || occupied(t.slots@) >= INVENTORY_SLOTS)
        && t.curr_goal != Goal::Refuel
        && t.curr_goal != Goal::Deposit
}

proof fn lemma_quarter_of_positive(m: int, c: int)
    requires
        c > 0,
    ensures
        (4 * m < c) == (m < (c + 3) / 4),
{
    let q = (c + 3) / 4;
    assert(4 * q <= c + 3 && c + 3 < 4 * q + 4) by (nonlinear_arith)
        requires q == (c + 3) / 4, c > 0;
    assert((4 * m < c) == (m < q)) by (nonlinear_arith)
        requires 4 * q <= c + 3, c + 3 < 4 * q + 4;
}

const SLOT_BOUND: i128 = 0x8000_0000_0000_0000;

const TOTAL_BOUND: i128 = 0x7fff_ffff_ffff_ffff_8000_0000_0000_0000;

impl Turtle {
    /// A newly connected agent: at the origin facing North, idle, with no
    /// fuel, readings, inventory, instructions or history.
    pub fn new(id: usize) -> (r: Turtle)
        ensures
            r.id == id,
            r.pos == (Position { x: 0, y: 0, z: 0 }),
            r.prev_pos == (Position { x: 0, y: 0, z: 0 }),
            r.direction == Direction::North,
            r.prev_dir == Direction::North,
            r.curr_goal == Goal::Idle,
            r.main_goal == Goal::Idle,
            r.fuel == 0,
            r.blocks@.len() == 0,
            r.slots@.len() == 0,
            r.action_list@.len() == 0,
            r.visited@.len() == 0,
            r.mine_area@.len() == 0,
            r.action_queue@.len() == 0,
            r.executed_actions@.len() == 0,
    {
        Turtle {
            id,
            pos: Position { x: 0, y: 0, z: 0 },
            direction: Direction::North,
            blocks: Vec::new(),
            curr_goal: Goal::Idle,
            slots: Vec::new(),
            fuel: 0,
            main_goal: Goal::Idle,
            action_list: Vec::new(),
            visited: Vec::new(),
            mine_area: Vec::new(),
            action_queue: VecDeque::new(),
            prev_pos: Position { x: 0, y: 0, z: 0 },
            prev_dir: Direction::North,
            executed_actions: VecDeque::with_capacity(100),
        }
    }

    /// Sums of the space and of the item counts over every slot, and
    /// the number of occupied slots.
    fn inventory_totals(&self) -> (r: (i128, i128, usize))
        ensures
            r.0 == total_space(self.slots@),
            r.1 == total_count(self.slots@),
            r.2 == occupied(self.slots@),
            -TOTAL_BOUND <= r.0 <= TOTAL_BOUND,
            -TOTAL_BOUND <= r.1 <= TOTAL_BOUND,
    {
        let mut space: i128 = 0;
        let mut count: i128 = 0;
        let mut filled: usize = 0;
        let mut i: usize = 0;
        while i < self.slots.len()
            invariant
                i <= self.slots@.len(),
                space == total_space(self.slots@.subrange(0, i as int)),
                count == total_count(self.slots@.subrange(0, i as int)),
                filled == occupied(self.slots@.subrange(0, i as int)),
                -(i as int) * SLOT_BOUND <= space <= (i as int) * SLOT_BOUND,
                -(i as int) * SLOT_BOUND <= count <= (i as int) * SLOT_BOUND,
                filled <= i,
            decreases self.slots@.len() - i,
        {
            let s = &self.slots[i];
            proof {
                assert(self.slots@.subrange(0, i + 1).drop_last() =~= self.slots@.subrange(0, i as int));
                assert(i < 0x1_0000_0000_0000_0000);
                assert((i as int) * SLOT_BOUND + SLOT_BOUND == (i + 1) * SLOT_BOUND) by (nonlinear_arith);
                assert((i + 1) * SLOT_BOUND <= 0x1_0000_0000_0000_0000 * SLOT_BOUND) by (nonlinear_arith)
                    requires i < 0x1_0000_0000_0000_0000;
            }
            space = space + s.space as i128;
            match &s.type_field {
                Some(t) => {
                    count = count + t.count as i128;
                    filled = filled + 1;
                },
                None => {},
            }
            i = i + 1;
        }
        proof {
            assert(self.slots@.subrange(0, self.slots@.len() as int) =~= self.slots@);
            assert((i as int) * SLOT_BOUND <= (usize::MAX as int) * SLOT_BOUND) by (nonlinear_arith)
                requires i <= usize::MAX;
        }
        (space, count, filled)
    }

    /// Whether the agent should go and empty its inventory: the free space is
    /// below a quarter of what it holds, or every slot is taken, and it is not
    /// already refuelling or depositing.
    pub fn needs_deposit(&self) -> (r: bool)
        ensures
            r == needs_deposit_spec(*self),
    {
        let (space, count, filled) = self.inventory_totals();
        let low = if count > 0 {
            proof { lemma_quarter_of_positive(space as int, count as int); }
            space < (count + 3) / 4
        } else if count < 0 {
            proof { lemma_quarter_of_positive(-space, -count); }
            -space < (-count + 3) / 4
        } else {
            space < 0
        };
        (low || filled >= INVENTORY_SLOTS) && self.curr_goal != Goal::Refuel
            && self.curr_goal != Goal::Deposit
    }
}

} // verus!
