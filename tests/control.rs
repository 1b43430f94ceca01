use std::collections::VecDeque;
use turtle_control::controller::{pop_back_add, Step, TurtleController, HISTORY_CAPACITY};
use turtle_control::model::{
    Action, ActionType, Block, Direction, Goal, InfoResp, MineDirection, MoveDirection, Position,
    QueuedAction, Slot, TurnDirection, Turtle, TurtleError, Type,
};

fn pos(x: i64, y: i64, z: i64) -> Position {
    Position { x, y, z }
}

fn reply_at(p: Position) -> InfoResp {
    InfoResp { chest: None, fuel: 40, slots: vec![], blocks: vec![], pos: p }
}

fn fuel_slot(id: i64, name: &str) -> Slot {
    Slot { id, type_field: Some(Type { name: name.to_string(), count: 5 }), space: 59 }
}

fn cmd(a: ActionType) -> Result<Option<Action>, TurtleError> {
    Ok(Some(Action { action: a }))
}

#[test]
fn history_evicts_oldest_when_full() {
    let mut h: VecDeque<u32> = VecDeque::new();
    for i in 0..100u32 {
        pop_back_add(&mut h, HISTORY_CAPACITY, i);
    }
    assert_eq!(h.len(), 100);
    pop_back_add(&mut h, HISTORY_CAPACITY, 100);
    assert_eq!(h.len(), 100);
    assert_eq!(h[0], 1);
    assert_eq!(h[99], 100);
    let expected: Vec<u32> = (1..=100).collect();
    assert_eq!(h.iter().copied().collect::<Vec<u32>>(), expected);
}

#[test]
fn history_grows_below_capacity() {
    let mut h: VecDeque<u32> = VecDeque::new();
    pop_back_add(&mut h, 3, 7);
    pop_back_add(&mut h, 3, 8);
    assert_eq!(h, VecDeque::from(vec![7, 8]));
    pop_back_add(&mut h, 3, 9);
    pop_back_add(&mut h, 3, 10);
    assert_eq!(h, VecDeque::from(vec![8, 9, 10]));
}

#[test]
fn closed_transport_fails_the_send() {
    let mut c = TurtleController::new(Turtle::new(4));
    let (tx, rx) = tokio::sync::mpsc::unbounded_channel::<String>();
    drop(rx);
    let delivered = tx.send("{\"action\":\"Info\"}".to_string()).is_ok();
    assert!(!delivered);
    let r = c.complete_send(None);
    assert_eq!(r, Err(TurtleError::ErrorWebsockets));
    assert_eq!(c.turtle.pos, pos(0, 0, 0));
}

#[test]
fn reply_refreshes_agent_state() {
    let mut c = TurtleController::new(Turtle::new(4));
    let resp = InfoResp {
        chest: None,
        fuel: 12,
        slots: vec![fuel_slot(2, "minecraft:coal")],
        blocks: vec![Block { direction: MineDirection::Up, exists: true, block: None }],
        pos: pos(3, 2, 1),
    };
    assert_eq!(c.complete_send(Some(resp)), Ok(()));
    assert_eq!(c.turtle.fuel, 12);
    assert_eq!(c.turtle.pos, pos(3, 2, 1));
    assert_eq!(c.turtle.slots.len(), 1);
    assert_eq!(c.turtle.blocks.len(), 1);
    assert_eq!(c.turtle.direction, Direction::North);
}

#[test]
fn idle_with_empty_queue_refreshes() {
    let mut c = TurtleController::new(Turtle::new(1));
    assert_eq!(c.next_command(), cmd(ActionType::Info));
    assert!(c.plan.is_empty());
}

#[test]
fn idle_runs_queued_turn_then_records_it() {
    let mut c = TurtleController::new(Turtle::new(1));
    c.turtle.action_queue.push_back(QueuedAction::Turn(TurnDirection::Right));
    assert_eq!(c.next_command(), Ok(None));
    assert!(c.turtle.action_queue.is_empty());
    assert_eq!(c.next_command(), cmd(ActionType::Turn(TurnDirection::Right)));
    assert_eq!(c.turtle.direction, Direction::East);
    assert_eq!(c.next_command(), cmd(ActionType::Info));
    assert_eq!(c.turtle.executed_actions, VecDeque::from(vec![QueuedAction::Turn(TurnDirection::Right)]));
    assert!(c.current.is_none());
}

#[test]
fn queue_is_first_in_first_out() {
    let mut c = TurtleController::new(Turtle::new(1));
    c.turtle.action_queue.push_back(QueuedAction::Nothing);
    c.turtle.action_queue.push_back(QueuedAction::TurnToward(Direction::West));
    assert_eq!(c.next_command(), Ok(None));
    assert_eq!(c.current, Some(QueuedAction::Nothing));
    assert_eq!(c.next_command(), cmd(ActionType::Info));
    assert_eq!(c.next_command(), Ok(None));
    assert_eq!(c.current, Some(QueuedAction::TurnToward(Direction::West)));
    assert_eq!(c.next_command(), cmd(ActionType::Turn(TurnDirection::Left)));
    assert_eq!(c.turtle.direction, Direction::West);
}

#[test]
fn mining_move_mines_then_moves_until_position_changes() {
    let mut t = Turtle::new(1);
    t.blocks = vec![
        Block { direction: MineDirection::Up, exists: false, block: None },
        Block { direction: MineDirection::Forward, exists: true, block: Some("minecraft:stone".to_string()) },
    ];
    let mut c = TurtleController::new(t);
    assert_eq!(
        c.move_and_mine_block(MoveDirection::Forward),
        Ok(Some(Action { action: ActionType::Mine(MineDirection::Forward) }))
    );
    assert_eq!(c.mining_from, Some(pos(0, 0, 0)));
    assert_eq!(
        c.move_and_mine_block(MoveDirection::Forward),
        Ok(Some(Action { action: ActionType::Move(MoveDirection::Forward) }))
    );
    assert_eq!(
        c.move_and_mine_block(MoveDirection::Forward),
        Ok(Some(Action { action: ActionType::Move(MoveDirection::Forward) }))
    );
    c.complete_send(Some(reply_at(pos(0, 0, -1)))).unwrap();
    assert_eq!(c.move_and_mine_block(MoveDirection::Forward), Ok(None));
    assert_eq!(c.mining_from, None);
}

#[test]
fn mining_move_without_block_moves_directly() {
    let mut t = Turtle::new(1);
    t.blocks = vec![Block { direction: MineDirection::Up, exists: false, block: None }];
    let mut c = TurtleController::new(t);
    assert_eq!(
        c.move_and_mine_block(MoveDirection::Up),
        Ok(Some(Action { action: ActionType::Move(MoveDirection::Up) }))
    );
}

#[test]
fn mining_move_backward_is_unsupported() {
    let mut c = TurtleController::new(Turtle::new(1));
    assert_eq!(c.move_and_mine_block(MoveDirection::Backward), Err(TurtleError::ErrorBlock));
    c.turtle.action_queue.push_back(QueuedAction::MoveAndMine(MoveDirection::Backward));
    assert_eq!(c.next_command(), Ok(None));
    assert_eq!(c.next_command(), Err(TurtleError::ErrorBlock));
}

#[test]
fn point_across_the_coordinate_range_is_planned() {
    let r = TurtleController::expand(
        QueuedAction::MovePoint(pos(i64::MAX, 0, 0)),
        pos(i64::MAX - 2, 0, 0),
        Direction::North,
    );
    assert_eq!(
        r,
        vec![Step::Turn(TurnDirection::Right), Step::MineMove(MoveDirection::Forward), Step::MineMove(MoveDirection::Forward)]
    );
    let far = TurtleController::move_point(pos(i64::MIN, 0, 0), Direction::East, pos(i64::MIN + 3, 0, 0));
    assert_eq!(far.len(), 3);
}

#[test]
fn expand_move_direction_turns_then_moves() {
    let r = TurtleController::expand(QueuedAction::MoveDirection(Direction::South), pos(0, 0, 0), Direction::North);
    assert_eq!(
        r,
        vec![Step::Turn(TurnDirection::Left), Step::Turn(TurnDirection::Left), Step::MineMove(MoveDirection::Forward)]
    );
    let n = TurtleController::expand(QueuedAction::MoveAndMineLen(2), pos(0, 0, 0), Direction::North);
    assert_eq!(n, vec![Step::MineMove(MoveDirection::Forward), Step::MineMove(MoveDirection::Forward)]);
    assert!(TurtleController::expand(QueuedAction::Nothing, pos(0, 0, 0), Direction::North).is_empty());
}

#[test]
fn refuel_selects_first_fuel_slot() {
    let slots = vec![
        Slot { id: 0, type_field: None, space: 64 },
        fuel_slot(1, "minecraft:dirt"),
        fuel_slot(2, "minecraft:charcoal"),
        fuel_slot(3, "minecraft:coal"),
    ];
    let plan = TurtleController::refuel_plan(&slots);
    assert_eq!(
        plan,
        vec![
            Step::Send(ActionType::Info),
            Step::Send(ActionType::Slot { name: "Select".to_string(), args: vec![2] }),
            Step::Send(ActionType::Refuel),
        ]
    );
}

#[test]
fn refuel_without_fuel_only_refreshes() {
    let plan = TurtleController::refuel_plan(&vec![fuel_slot(1, "minecraft:dirt")]);
    assert_eq!(plan, vec![Step::Send(ActionType::Info)]);
}

#[test]
fn refuel_goal_plans_a_round() {
    let mut t = Turtle::new(1);
    t.curr_goal = Goal::Refuel;
    t.slots = vec![fuel_slot(5, "minecraft:coal")];
    let mut c = TurtleController::new(t);
    assert_eq!(c.next_command(), Ok(None));
    assert_eq!(c.next_command(), cmd(ActionType::Info));
    assert_eq!(c.next_command(), cmd(ActionType::Slot { name: "Select".to_string(), args: vec![5] }));
    assert_eq!(c.next_command(), cmd(ActionType::Refuel));
    assert!(c.plan.is_empty());
}

#[test]
fn deposit_and_mine_goals_do_nothing() {
    for g in [Goal::Deposit, Goal::Mine(turtle_control::model::Material::Coal)] {
        let mut t = Turtle::new(1);
        t.curr_goal = g;
        t.action_queue.push_back(QueuedAction::Nothing);
        let mut c = TurtleController::new(t);
        assert_eq!(c.next_command(), Ok(None));
        assert_eq!(c.turtle.action_queue.len(), 1);
        assert!(c.plan.is_empty());
    }
}

#[test]
fn calibration_stops_when_probe_goes_north() {
    let mut c = TurtleController::new(Turtle::new(1));
    c.reset_north();
    assert_eq!(c.plan.len(), 26);
    for _ in 0..4 {
        assert_eq!(c.next_command(), cmd(ActionType::Mine(MineDirection::Forward)));
        assert_eq!(c.next_command(), cmd(ActionType::Turn(TurnDirection::Right)));
    }
    assert_eq!(c.next_command(), Ok(None));
    assert_eq!(c.origin, pos(0, 0, 0));
    assert_eq!(c.next_command(), cmd(ActionType::Move(MoveDirection::Forward)));
    c.complete_send(Some(reply_at(pos(0, 0, -1)))).unwrap();
    assert_eq!(c.next_command(), Ok(None));
    assert_eq!(c.next_command(), Ok(None));
    assert!(c.plan.is_empty());
    assert_eq!(c.next_command(), cmd(ActionType::Info));
}

#[test]
fn calibration_fails_after_four_misses() {
    let mut c = TurtleController::new(Turtle::new(1));
    c.reset_north();
    for _ in 0..9 {
        c.next_command().unwrap();
    }
    let sides = [pos(1, 0, 0), pos(0, 0, 1), pos(-1, 0, 0), pos(0, 0, 1)];
    for p in sides {
        assert_eq!(c.next_command(), cmd(ActionType::Move(MoveDirection::Forward)));
        c.complete_send(Some(reply_at(p))).unwrap();
        assert_eq!(c.next_command(), Ok(None));
        assert_eq!(c.next_command(), Ok(None));
        assert_eq!(c.next_command(), cmd(ActionType::Move(MoveDirection::Backward)));
        c.complete_send(Some(reply_at(pos(0, 0, 0)))).unwrap();
        assert_eq!(c.next_command(), cmd(ActionType::Turn(TurnDirection::Right)));
    }
    assert_eq!(c.next_command(), Err(TurtleError::ErrorBlock));
}

#[test]
fn history_stays_bounded_through_the_loop() {
    let mut c = TurtleController::new(Turtle::new(1));
    for _ in 0..(HISTORY_CAPACITY + 5) {
        c.turtle.action_queue.push_back(QueuedAction::Nothing);
    }
    for _ in 0..(2 * (HISTORY_CAPACITY + 5)) {
        c.next_command().unwrap();
        assert!(c.turtle.executed_actions.len() <= HISTORY_CAPACITY);
    }
    assert_eq!(c.turtle.executed_actions.len(), HISTORY_CAPACITY);
}

#[test]
fn enqueue_appends_at_the_back() {
    let mut c = TurtleController::new(Turtle::new(1));
    c.enqueue(QueuedAction::Nothing);
    c.enqueue(QueuedAction::Turn(TurnDirection::Left));
    assert_eq!(
        c.turtle.action_queue,
        VecDeque::from(vec![QueuedAction::Nothing, QueuedAction::Turn(TurnDirection::Left)])
    );
    assert!(c.plan.is_empty());
    assert_eq!(c.turtle.direction, Direction::North);
}
