//! Tests for the motion controller.

use gridpointer::config::{Config, DisplayConfig, GridConfig, InputConfig, MovementConfig};
use gridpointer::input::Direction;
use gridpointer::motion::{
    ease_out_cubic, MotionController, MotionEvent, MotionState, ScreenPos, UNIT, UNIT_CUBED,
};

fn test_config(cols: u32, rows: u32, dash_cells: u32, tween_ms: u64) -> Config {
    Config {
        grid: GridConfig { cols, rows },
        movement: MovementConfig { dash_cells, tween_ms },
        input: InputConfig {
            keyboard_device: None,
            gamepad_device: None,
        },
        display: DisplayConfig {
            target_monitor: "auto".to_string(),
        },
    }
}

#[test]
fn test_basic_movement() {
    let config = test_config(10, 10, 3, 100);
    let mut controller = MotionController::new();

    // Start at origin
    assert_eq!(controller.current_grid_pos, (0, 0));

    // Move right
    controller.handle_event(
        MotionEvent::Move {
            direction: Direction::Right,
        },
        Some(&config),
        0,
    );
    assert_eq!(controller.current_grid_pos, (1, 0));

    // Move down
    controller.handle_event(
        MotionEvent::Move {
            direction: Direction::Down,
        },
        Some(&config),
        0,
    );
    assert_eq!(controller.current_grid_pos, (1, 1));

    // Move left
    controller.handle_event(
        MotionEvent::Move {
            direction: Direction::Left,
        },
        Some(&config),
        0,
    );
    assert_eq!(controller.current_grid_pos, (0, 1));

    // Move up
    controller.handle_event(
        MotionEvent::Move {
            direction: Direction::Up,
        },
        Some(&config),
        0,
    );
    assert_eq!(controller.current_grid_pos, (0, 0));
}

#[test]
fn test_dash_movement() {
    let config = test_config(20, 20, 5, 100);
    let mut controller = MotionController::new();

    // Dash right 5 cells
    controller.handle_event(
        MotionEvent::Dash {
            direction: Direction::Right,
        },
        Some(&config),
        0,
    );
    assert_eq!(controller.current_grid_pos, (5, 0));

    // Dash down 5 cells
    controller.handle_event(
        MotionEvent::Dash {
            direction: Direction::Down,
        },
        Some(&config),
        0,
    );
    assert_eq!(controller.current_grid_pos, (5, 5));
}

#[test]
fn test_boundary_conditions() {
    let config = test_config(5, 5, 10, 100);
    let mut controller = MotionController::new();

    // Try to dash beyond boundary
    controller.handle_event(
        MotionEvent::Dash {
            direction: Direction::Right,
        },
        Some(&config),
        0,
    );
    assert_eq!(controller.current_grid_pos, (4, 0)); // Clamped to max

    // Try to move left beyond boundary
    controller.current_grid_pos = (0, 0);
    controller.handle_event(
        MotionEvent::Move {
            direction: Direction::Left,
        },
        Some(&config),
        0,
    );
    assert_eq!(controller.current_grid_pos, (0, 0)); // Should stay at 0
}

#[test]
fn test_motion_controller() {
    let config = test_config(10, 10, 3, 100);
    let mut controller = MotionController::new();

    // Test normal movement
    controller.handle_event(
        MotionEvent::Move {
            direction: Direction::Right,
        },
        Some(&config),
        0,
    );
    assert_eq!(controller.current_grid_pos, (1, 0));

    // Test dash movement
    controller.handle_event(
        MotionEvent::Dash {
            direction: Direction::Right,
        },
        Some(&config),
        0,
    );
    assert_eq!(controller.current_grid_pos, (4, 0));
}

#[test]
fn test_ease_out_cubic() {
    assert_eq!(ease_out_cubic(0), 0);
    assert_eq!(ease_out_cubic(UNIT), UNIT_CUBED);
    assert!(ease_out_cubic(UNIT / 2) > UNIT_CUBED / 2); // Should be faster than linear
    // 1 - (1 - 0.2)^3 == 0.488, exact in fixed point
    assert_eq!(ease_out_cubic(UNIT / 5), 488_000_000_000_000_000);
}

#[test]
fn test_easing_function() {
    // Test boundary conditions
    assert_eq!(ease_out_cubic(0), 0);
    assert_eq!(ease_out_cubic(UNIT), UNIT_CUBED);

    // Test that it's faster than linear at the end
    assert!(ease_out_cubic(UNIT / 2) > UNIT_CUBED / 2);

    // Test monotonicity
    assert!(ease_out_cubic(UNIT * 3 / 10) < ease_out_cubic(UNIT * 7 / 10));
}

#[test]
fn test_easing_concave_increments() {
    // Successive fixed-point increments of the curve shrink: concave down.
    let d1 = ease_out_cubic(300000) - ease_out_cubic(299999);
    let d2 = ease_out_cubic(300001) - ease_out_cubic(300000);
    assert!(d2 < d1);
    // And above the clamp boundary the curve is flat.
    assert_eq!(ease_out_cubic(UNIT + 1), UNIT_CUBED);
}

#[test]
fn test_dash_tween_scenario() {
    // Grid 10x10, dash of 3 cells over 100 ms, starting at the top-left
    // corner of the screen.
    let config = test_config(10, 10, 3, 100);
    let mut controller = MotionController::new_at((0, 0), ScreenPos { x: 0, y: 0 });

    controller.handle_event(
        MotionEvent::Dash {
            direction: Direction::Right,
        },
        Some(&config),
        0,
    );
    assert_eq!(controller.current_grid_pos, (3, 0));

    // Halfway through: eased(0.5) = 0.875, target x = 3/9: the emitted x is
    // 0.875 * 333333 units, rounded down.
    let mid = controller.update(50).expect("segment is in flight");
    assert_eq!(mid, ScreenPos { x: 291666, y: 0 });

    // At (and beyond) the duration the position snaps exactly to the target.
    let done = controller.update(100).expect("terminal position is emitted once");
    assert_eq!(done, ScreenPos { x: 333333, y: 0 });

    // Completion is idempotent: every later tick is silent.
    assert_eq!(controller.update(101), None);
    assert_eq!(controller.update(1000), None);
}

#[test]
fn test_polling_is_monotone() {
    // However irregular the polling times, emitted positions only move
    // toward the target and never overshoot it.
    let config = test_config(10, 10, 3, 100);
    let mut controller = MotionController::new_at((0, 0), ScreenPos { x: 0, y: 0 });

    controller.handle_event(
        MotionEvent::Dash {
            direction: Direction::Right,
        },
        Some(&config),
        0,
    );
    let target_x = 333333;
    let mut last_x = 0;
    for now in [3u64, 4, 11, 40, 41, 77, 99, 100] {
        let p = controller.update(now).expect("segment is in flight until its duration elapses");
        assert!(p.x >= last_x);
        assert!(p.x <= target_x);
        assert_eq!(p.y, 0);
        last_x = p.x;
    }
    assert_eq!(last_x, target_x);
}

#[test]
fn test_step_into_wall() {
    // A step against the boundary moves nothing and creates no segment.
    let config = test_config(10, 10, 3, 100);
    let mut controller = MotionController::new();

    controller.handle_event(
        MotionEvent::Move {
            direction: Direction::Left,
        },
        Some(&config),
        0,
    );
    assert_eq!(controller.current_grid_pos, (0, 0));
    assert!(matches!(controller.state, MotionState::Idle));
    assert_eq!(controller.update(10), None);
}

#[test]
fn test_retarget_mid_flight() {
    // A command issued while a segment is in flight starts the new segment
    // exactly at the last emitted position.
    let config = test_config(10, 10, 3, 100);
    let mut controller = MotionController::new_at((0, 0), ScreenPos { x: 0, y: 0 });

    controller.handle_event(
        MotionEvent::Dash {
            direction: Direction::Right,
        },
        Some(&config),
        0,
    );
    let p = controller.update(50).expect("segment is in flight");

    controller.handle_event(
        MotionEvent::Move {
            direction: Direction::Down,
        },
        Some(&config),
        50,
    );
    match controller.state {
        MotionState::Moving { from, .. } => assert_eq!(from, p),
        MotionState::Idle => panic!("a segment should be in flight"),
    }

    // At zero elapsed time the eased fraction is 0, so the first tick of the
    // new segment emits its origin: the redirect is continuous.
    assert_eq!(controller.update(50), Some(p));
}

#[test]
fn test_unavailable_config_drops_command() {
    let mut controller = MotionController::new();
    controller.handle_event(
        MotionEvent::Dash {
            direction: Direction::Right,
        },
        None,
        0,
    );
    assert_eq!(controller.current_grid_pos, (0, 0));
    assert!(matches!(controller.state, MotionState::Idle));
    assert_eq!(controller.update(5), None);
}

#[test]
fn test_degenerate_axis_maps_to_zero() {
    // On a one-column grid the x coordinate degenerates to 0.
    let config = test_config(1, 5, 2, 40);
    let mut controller = MotionController::new_at((0, 0), ScreenPos { x: 0, y: 0 });

    controller.handle_event(
        MotionEvent::Move {
            direction: Direction::Down,
        },
        Some(&config),
        0,
    );
    assert_eq!(controller.current_grid_pos, (0, 1));
    let done = controller.update(40).expect("terminal position is emitted");
    assert_eq!(done, ScreenPos { x: 0, y: UNIT / 4 });
}

#[test]
fn test_mid_flight_config_change_keeps_segment() {
    // A configuration change takes effect on the next command; the segment
    // in flight keeps the duration it was created with.
    let config = test_config(10, 10, 3, 100);
    let mut controller = MotionController::new_at((0, 0), ScreenPos { x: 0, y: 0 });

    controller.handle_event(
        MotionEvent::Move {
            direction: Direction::Right,
        },
        Some(&config),
        0,
    );
    match controller.state {
        MotionState::Moving { duration_ms, .. } => assert_eq!(duration_ms, 100),
        MotionState::Idle => panic!("a segment should be in flight"),
    }

    // The segment still completes at its own duration, not the new one.
    let _faster = test_config(10, 10, 3, 10);
    assert!(controller.update(50).is_some());
    assert!(matches!(controller.state, MotionState::Moving { .. }));
    let done = controller.update(100).expect("terminal position");
    assert_eq!(done, ScreenPos { x: UNIT / 9, y: 0 });
    assert_eq!(controller.update(110), None);
}
