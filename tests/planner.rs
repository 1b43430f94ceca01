use std::collections::VecDeque;
use turtle_control::controller::{Step, TurtleController};
use turtle_control::model::{Direction, MoveDirection, Position, QueuedAction, TurnDirection, Turtle};
use turtle_control::sweep::move_in_direction;

const ALL: [Direction; 4] = [Direction::North, Direction::East, Direction::South, Direction::West];

fn heading_after(mut h: Direction, steps: &[Step]) -> Direction {
    for s in steps {
        if let Step::Turn(t) = s {
            h = h.turned(*t);
        }
    }
    h
}

fn pos(x: i64, y: i64, z: i64) -> Position {
    Position { x, y, z }
}

#[test]
fn turn_towards_every_pair_reaches_target() {
    for current in ALL {
        for target in ALL {
            let steps = TurtleController::turn_towards(current, target);
            assert!(steps.len() <= 2);
            assert_eq!(heading_after(current, &steps), target);
            assert!(steps.iter().all(|s| matches!(s, Step::Turn(_))));
        }
    }
}

#[test]
fn turn_towards_reversal_is_two_left_turns() {
    let pairs = [
        (Direction::North, Direction::South),
        (Direction::South, Direction::North),
        (Direction::East, Direction::West),
        (Direction::West, Direction::East),
    ];
    for (current, target) in pairs {
        assert_eq!(
            TurtleController::turn_towards(current, target),
            vec![Step::Turn(TurnDirection::Left), Step::Turn(TurnDirection::Left)]
        );
    }
}

#[test]
fn turn_towards_clockwise_neighbour_is_one_right_turn() {
    assert_eq!(
        TurtleController::turn_towards(Direction::North, Direction::East),
        vec![Step::Turn(TurnDirection::Right)]
    );
    assert_eq!(
        TurtleController::turn_towards(Direction::East, Direction::North),
        vec![Step::Turn(TurnDirection::Left)]
    );
    assert!(TurtleController::turn_towards(Direction::West, Direction::West).is_empty());
}

#[test]
fn move_point_adjacent_east_from_north() {
    let steps = TurtleController::move_point(pos(0, 0, 0), Direction::North, pos(1, 0, 0));
    assert_eq!(steps, vec![Step::Turn(TurnDirection::Right), Step::MineMove(MoveDirection::Forward)]);
}

#[test]
fn move_point_adjacent_vertical_needs_no_turn() {
    let up = TurtleController::move_point(pos(3, 4, 5), Direction::West, pos(3, 5, 5));
    assert_eq!(up, vec![Step::MineMove(MoveDirection::Up)]);
    let down = TurtleController::move_point(pos(3, 4, 5), Direction::West, pos(3, 3, 5));
    assert_eq!(down, vec![Step::MineMove(MoveDirection::Down)]);
}

#[test]
fn move_point_adjacent_every_heading() {
    let targets = [pos(1, 0, 0), pos(-1, 0, 0), pos(0, 0, 1), pos(0, 0, -1)];
    for h in ALL {
        for t in targets {
            let steps = TurtleController::move_point(pos(0, 0, 0), h, t);
            let moves = steps.iter().filter(|s| matches!(s, Step::MineMove(_))).count();
            let turns = steps.iter().filter(|s| matches!(s, Step::Turn(_))).count();
            assert_eq!(moves, 1);
            assert!(turns <= 2);
            assert_eq!(*steps.last().unwrap(), Step::MineMove(MoveDirection::Forward));
        }
    }
    // Facing away from the target costs two turns.
    let back = TurtleController::move_point(pos(0, 0, 0), Direction::West, pos(1, 0, 0));
    assert_eq!(back.len(), 3);
}

#[test]
fn move_point_to_current_position_is_empty() {
    for h in ALL {
        assert!(TurtleController::move_point(pos(7, -2, 9), h, pos(7, -2, 9)).is_empty());
    }
}

#[test]
fn move_point_resolves_largest_axis_first() {
    let steps = TurtleController::move_point(pos(0, 0, 0), Direction::North, pos(2, -1, 3));
    let f = Step::MineMove(MoveDirection::Forward);
    assert_eq!(
        steps,
        vec![
            Step::Turn(TurnDirection::Left),
            Step::Turn(TurnDirection::Left),
            f.clone(),
            f.clone(),
            f.clone(),
            Step::Turn(TurnDirection::Left),
            f.clone(),
            f.clone(),
            Step::MineMove(MoveDirection::Down),
        ]
    );
}

#[test]
fn move_point_ties_prefer_z_then_y() {
    let steps = TurtleController::move_point(pos(0, 0, 0), Direction::South, pos(2, 2, 2));
    assert_eq!(steps[0], Step::MineMove(MoveDirection::Forward));
    assert_eq!(steps[2], Step::MineMove(MoveDirection::Up));
    assert_eq!(steps[4], Step::Turn(TurnDirection::Left));
}

#[test]
fn move_blocks_counts() {
    assert_eq!(TurtleController::move_blocks(MoveDirection::Up, 3).len(), 3);
    assert!(TurtleController::move_blocks(MoveDirection::Up, 0).is_empty());
    assert!(TurtleController::move_blocks(MoveDirection::Up, -4).is_empty());
}

#[test]
fn mine_layer_from_origin_eastward() {
    let plan = TurtleController::mine_layer(pos(0, 0, 0), pos(0, 0, 2), Direction::East);
    let expected: VecDeque<QueuedAction> = vec![
        QueuedAction::MoveDirection(Direction::East),
        QueuedAction::MoveDirection(Direction::East),
    ]
    .into();
    // Two eastward steps cross the layer; the turn south would leave it.
    assert_eq!(plan, expected);
}

#[test]
fn mine_layer_snake_over_two_rows() {
    let plan = TurtleController::mine_layer(pos(0, 0, 0), pos(1, 0, 2), Direction::East);
    let e = QueuedAction::MoveDirection(Direction::East);
    let s = QueuedAction::MoveDirection(Direction::South);
    let w = QueuedAction::MoveDirection(Direction::West);
    let expected: VecDeque<QueuedAction> = vec![e, e, s, w, w].into();
    assert_eq!(plan, expected);
}

#[test]
fn move_in_direction_axes() {
    let mut p = pos(0, 0, 0);
    move_in_direction(&mut p, &Direction::North);
    assert_eq!(p, pos(-1, 0, 0));
    move_in_direction(&mut p, &Direction::East);
    assert_eq!(p, pos(-1, 0, 1));
    move_in_direction(&mut p, &Direction::South);
    move_in_direction(&mut p, &Direction::West);
    assert_eq!(p, pos(0, 0, 0));
}

#[test]
fn mine_rect_replaces_queue_with_layers() {
    let mut t = Turtle::new(1);
    t.direction = Direction::East;
    t.action_queue.push_back(QueuedAction::Nothing);
    let mut c = TurtleController::new(t);
    c.mine_rect(pos(0, 0, 0), pos(0, 1, 2));
    let e = QueuedAction::MoveDirection(Direction::East);
    let expected: VecDeque<QueuedAction> = vec![
        QueuedAction::MovePoint(pos(0, 0, 0)),
        e,
        e,
        QueuedAction::MovePoint(pos(0, 1, 0)),
        e,
        e,
    ]
    .into();
    assert_eq!(c.turtle.action_queue, expected);
}

#[test]
fn mine_rect_empty_when_layers_inverted() {
    let mut t = Turtle::new(1);
    t.direction = Direction::East;
    let mut c = TurtleController::new(t);
    c.mine_rect(pos(0, 3, 0), pos(0, 1, 2));
    assert!(c.turtle.action_queue.is_empty());
}

#[test]
fn sweep_leaves_layer_accepts_halting_layers() {
    assert!(TurtleController::sweep_leaves_layer(pos(0, 0, 0), pos(0, 0, 2), Direction::East));
    assert!(TurtleController::sweep_leaves_layer(pos(0, 0, 0), pos(1, 0, 2), Direction::East));
    assert!(TurtleController::sweep_leaves_layer(pos(0, 0, 0), pos(3, 0, 2), Direction::South));
    assert!(TurtleController::sweep_leaves_layer(pos(5, 0, 0), pos(2, 0, 2), Direction::West));
}

#[test]
fn sweep_leaves_layer_rejects_endless_layers() {
    // Heading north never reaches the far row.
    assert!(!TurtleController::sweep_leaves_layer(pos(0, 0, 0), pos(2, 0, 2), Direction::North));
    // The end lies behind an eastward start.
    assert!(!TurtleController::sweep_leaves_layer(pos(0, 0, 0), pos(2, 0, -2), Direction::East));
    // A single column wider than one row turns back past its start.
    assert!(!TurtleController::sweep_leaves_layer(pos(0, 0, 0), pos(2, 0, 0), Direction::East));
}

#[test]
fn sweep_leaves_layer_agrees_with_sweep_length() {
    for ex in 0..3i64 {
        for ez in 1..3i64 {
            let start = pos(0, 0, 0);
            let end = pos(ex, 0, ez);
            assert!(TurtleController::sweep_leaves_layer(start, end, Direction::East));
            let plan = TurtleController::mine_layer(start, end, Direction::East);
            let expected = if ex == 0 { ez } else { 2 * ez + ex };
            assert_eq!(plan.len() as i64, expected);
        }
    }
}

#[test]
fn mine_rect_inverted_layers_with_any_heading() {
    for h in ALL {
        let mut t = Turtle::new(1);
        t.direction = h;
        t.action_queue.push_back(QueuedAction::Nothing);
        let mut c = TurtleController::new(t);
        c.mine_rect(pos(0, 2, 0), pos(0, 1, 0));
        assert!(c.turtle.action_queue.is_empty());
        assert_eq!(c.turtle.direction, h);
    }
}

#[test]
fn sweep_leaves_layer_at_the_coordinate_limit() {
    assert!(!TurtleController::sweep_leaves_layer(pos(i64::MAX, 0, 0), pos(i64::MAX, 0, 0), Direction::South));
    assert!(TurtleController::sweep_leaves_layer(pos(i64::MAX - 1, 0, 0), pos(i64::MAX - 1, 0, 0), Direction::West));
}
