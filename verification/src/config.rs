//! Configuration data as the motion core reads it.
//!
//! The values live in a file on disk and may be rewritten at any time; the
//! surrounding process watches and reloads them. The library only defines the
//! shape of a configuration snapshot and what makes one usable: the motion
//! controller takes such a snapshot, or its absence, on every command.

use vstd::prelude::*;
use vstd::string::StringExecFns;

verus! {

/// Dimensions of the logical grid: `cols × rows` cells, both at least 1 in a
/// well-formed configuration.
#[derive(Debug, Clone)]
pub struct GridConfig {
    pub cols: u32,
    pub rows: u32,
}

/// How movement animates: a dash covers `dash_cells` cells, and one step or
/// dash animates over `tween_ms` milliseconds.
#[derive(Debug, Clone)]
pub struct MovementConfig {
    pub dash_cells: u32,
    pub tween_ms: u64,
}

/// Which input devices to open; `None` asks for discovery.
#[derive(Debug, Clone)]
pub struct InputConfig {
    pub keyboard_device: Option<String>,
    pub gamepad_device: Option<String>,
}

/// Which monitor receives the pointer.
#[derive(Debug, Clone)]
pub struct DisplayConfig {
    pub target_monitor: String,
}

/// One configuration snapshot.
#[derive(Debug, Clone)]
pub struct Config {
    pub grid: GridConfig,
    pub movement: MovementConfig,
    pub input: InputConfig,
    pub display: DisplayConfig,
}

impl Config {
    /// A configuration the motion controller can work with: the grid has at
    /// least one column and one row.
    pub open spec fn wf(&self) -> bool {
        &&& self.grid.cols >= 1
        &&& self.grid.rows >= 1
    }
}

impl Default for Config {
    /// The configuration written on first run: a 20×12 grid, dashes of 5
    /// cells, 150 ms tweens, discovered input devices and automatic monitor
    /// choice.
    fn default() -> (c: Config)
        ensures
            c.grid.cols == 20,
            c.grid.rows == 12,
            c.movement.dash_cells == 5,
            c.movement.tween_ms == 150,
            c.input.keyboard_device is None,
            c.input.gamepad_device is None,
            c.display.target_monitor@ == "auto"@,
            c.wf(),
    {
        Config {
            grid: GridConfig { cols: 20, rows: 12 },
            movement: MovementConfig { dash_cells: 5, tween_ms: 150 },
            input: InputConfig { keyboard_device: None, gamepad_device: None },
            display: DisplayConfig { target_monitor: String::from_str("auto") },
        }
    }
}

} // verus!
