//! The debug panel: the battery read-out and the switches that turn whole
//! subsystems on and off.

use vstd::prelude::*;
use crate::components::{Battery, SystemToggles};
use crate::day_night_cycle::Color;
use crate::geometry::{round_div, rounded_quotient};

verus! {

/// A subsystem with a switch on the panel.
#[derive(Clone, Copy, Debug, PartialEq, Eq, Structural)]
pub enum SystemKind {
    PlayerMovement,
    CordSystems,
    CameraFollow,
    CameraZoom,
    PlayerRotation,
}

/// A switch on the panel, named after the subsystem it turns on and off.
#[derive(Clone, Debug)]
pub struct ToggleButton(pub String);

/// How a switch looks.
#[derive(Clone, Copy, Debug, PartialEq, Eq, Structural)]
pub struct ButtonAppearance {
    /// The state the switch shows: "ON" where true, "OFF" where false.
    pub enabled: bool,
    pub color: Color,
}

/// What the battery read-out shows.
#[derive(Clone, Copy, Debug, PartialEq, Eq, Structural)]
pub struct BatteryReadout {
    /// Charge in percent of the capacity, rounded to the nearest percent.
    pub percentage: u64,
    pub color: Color,
}

/// The subsystem that a switch's name stands for.
pub open spec fn system_named(name: Seq<char>) -> Option<SystemKind> {
    if name == "player_movement"@ {
        Some(SystemKind::PlayerMovement)
    } else if name == "cord_systems"@ {
        Some(SystemKind::CordSystems)
    } else if name == "camera_follow"@ {
        Some(SystemKind::CameraFollow)
    } else if name == "camera_zoom"@ {
        Some(SystemKind::CameraZoom)
    } else if name == "player_rotation"@ {
        Some(SystemKind::PlayerRotation)
    } else {
        None
    }
}

/// Colour of a switch: green where on, red where off.
pub open spec fn button_color(enabled: bool) -> Color {
    if enabled {
        Color { red: 200, green: 600, blue: 200 }
    } else {
        Color { red: 600, green: 200, blue: 200 }
    }
}

/// Colour of the battery read-out: green above 50 percent, yellow above
/// 20 percent, red from there down.
pub open spec fn battery_color(percentage: int) -> Color {
    if percentage > 50 {
        Color { red: 200, green: 1000, blue: 200 }
    } else if percentage > 20 {
        Color { red: 1000, green: 1000, blue: 200 }
    } else {
        Color { red: 1000, green: 200, blue: 200 }
    }
}

impl SystemToggles {
    /// Every subsystem switched on.
    pub fn new() -> (toggles: SystemToggles)
        ensures
            toggles.player_movement,
            toggles.cord_systems,
            toggles.camera_follow,
            toggles.camera_zoom,
            toggles.player_rotation,
    {
        SystemToggles {
            player_movement: true,
            cord_systems: true,
            camera_follow: true,
            camera_zoom: true,
            player_rotation: true,
        }
    }

    /// State of a subsystem's switch.
    pub open spec fn state(self, kind: SystemKind) -> bool {
        match kind {
            SystemKind::PlayerMovement => self.player_movement,
            SystemKind::CordSystems => self.cord_systems,
            SystemKind::CameraFollow => self.camera_follow,
            SystemKind::CameraZoom => self.camera_zoom,
            SystemKind::PlayerRotation => self.player_rotation,
        }
    }

    /// The switches with one of them set.
    pub open spec fn with(self, kind: SystemKind, state: bool) -> SystemToggles {
        match kind {
            SystemKind::PlayerMovement => SystemToggles { player_movement: state, ..self },
            SystemKind::CordSystems => SystemToggles { cord_systems: state, ..self },
            SystemKind::CameraFollow => SystemToggles { camera_follow: state, ..self },
            SystemKind::CameraZoom => SystemToggles { camera_zoom: state, ..self },
            SystemKind::PlayerRotation => SystemToggles { player_rotation: state, ..self },
        }
    }

    /// State of a subsystem's switch.
    pub fn get(&self, kind: SystemKind) -> (state: bool)
        ensures
            state == self.state(kind),
    {
        match kind {
            SystemKind::PlayerMovement => self.player_movement,
            SystemKind::CordSystems => self.cord_systems,
            SystemKind::CameraFollow => self.camera_follow,
            SystemKind::CameraZoom => self.camera_zoom,
            SystemKind::PlayerRotation => self.player_rotation,
        }
    }

    /// Sets a subsystem's switch.
    pub fn set(&mut self, kind: SystemKind, state: bool)
        ensures
            *final(self) == old(self).with(kind, state),
    {
        match kind {
            SystemKind::PlayerMovement => self.player_movement = state,
            SystemKind::CordSystems => self.cord_systems = state,
            SystemKind::CameraFollow => self.camera_follow = state,
            SystemKind::CameraZoom => self.camera_zoom = state,
            SystemKind::PlayerRotation => self.player_rotation = state,
        }
    }
}

/// The switches of the panel, from top to bottom.
pub open spec fn panel_order() -> Seq<SystemKind> {
    seq![
        SystemKind::PlayerMovement,
        SystemKind::CordSystems,
        SystemKind::CameraFollow,
        SystemKind::CameraZoom,
        SystemKind::PlayerRotation,
    ]
}

/// Name of a subsystem's switch.
pub fn system_name(kind: SystemKind) -> (name: &'static str)
    ensures
        system_named(name@) == Some(kind),
{
    proof {
        reveal_strlit("player_movement");
        reveal_strlit("cord_systems");
        reveal_strlit("camera_follow");
        reveal_strlit("camera_zoom");
        reveal_strlit("player_rotation");
        assert("player_movement"@.len() == 15);
        assert("cord_systems"@.len() == 12);
        assert("camera_follow"@.len() == 13);
        assert("camera_zoom"@.len() == 11);
        assert("player_rotation"@[0] == 'p' && "camera_follow"@[0] == 'c');
        assert("player_rotation"@.len() == 15 && "player_rotation"@[7] == 'r'
            && "player_movement"@[7] == 'm');
    }
    match kind {
        SystemKind::PlayerMovement => "player_movement",
        SystemKind::CordSystems => "cord_systems",
        SystemKind::CameraFollow => "camera_follow",
        SystemKind::CameraZoom => "camera_zoom",
        SystemKind::PlayerRotation => "player_rotation",
    }
}

/// Caption of a subsystem's switch.
pub fn system_label(kind: SystemKind) -> (label: &'static str)
    ensures
        label@ == match kind {
            SystemKind::PlayerMovement => "Player Movement"@,
            SystemKind::CordSystems => "Cord Systems"@,
            SystemKind::CameraFollow => "Camera Follow"@,
            SystemKind::CameraZoom => "Camera Zoom"@,
            SystemKind::PlayerRotation => "Player Rotation"@,
        },
{
    match kind {
        SystemKind::PlayerMovement => "Player Movement",
        SystemKind::CordSystems => "Cord Systems",
        SystemKind::CameraFollow => "Camera Follow",
        SystemKind::CameraZoom => "Camera Zoom",
        SystemKind::PlayerRotation => "Player Rotation",
    }
}

/// Caption of a switch in the given state.
pub fn button_text(enabled: bool) -> (text: &'static str)
    ensures
        text@ == if enabled {
            "ON"@
        } else {
            "OFF"@
        },
{
    if enabled {
        "ON"
    } else {
        "OFF"
    }
}

/// The switches the panel is built from, from top to bottom, each switched
/// on.
pub fn setup_ui() -> (buttons: Vec<SystemKind>)
    ensures
        buttons@ == panel_order(),
{
    let mut buttons: Vec<SystemKind> = Vec::new();
    buttons.push(SystemKind::PlayerMovement);
    buttons.push(SystemKind::CordSystems);
    buttons.push(SystemKind::CameraFollow);
    buttons.push(SystemKind::CameraZoom);
    buttons.push(SystemKind::PlayerRotation);
    assert(buttons@ =~= panel_order());
    buttons
}

/// Whether `name` reads `literal`.
fn reads(name: &String, literal: &str) -> (same: bool)
    ensures
        same == (name@ == literal@),
{
    let owned: String = literal.to_owned();
    *name == owned
}

/// The subsystem that a switch's name stands for.
pub fn system_by_name(name: &String) -> (kind: Option<SystemKind>)
    ensures
        kind == system_named(name@),
{
    if reads(name, "player_movement") {
        Some(SystemKind::PlayerMovement)
    } else if reads(name, "cord_systems") {
        Some(SystemKind::CordSystems)
    } else if reads(name, "camera_follow") {
        Some(SystemKind::CameraFollow)
    } else if reads(name, "camera_zoom") {
        Some(SystemKind::CameraZoom)
    } else if reads(name, "player_rotation") {
        Some(SystemKind::PlayerRotation)
    } else {
        None
    }
}

/// How a switch in the given state looks.
pub fn button_appearance(enabled: bool) -> (appearance: ButtonAppearance)
    ensures
        appearance == (ButtonAppearance { enabled, color: button_color(enabled) }),
{
    let color: Color = if enabled {
        Color { red: 200, green: 600, blue: 200 }
    } else {
        Color { red: 600, green: 200, blue: 200 }
    };
    ButtonAppearance { enabled, color }
}

/// Handles a press on a switch.
///
/// The switch of the subsystem that the button names changes over, and the
/// button shows the new state. A button that names no subsystem changes
/// nothing and shows "OFF".
pub fn update_ui(toggles: &mut SystemToggles, button: &ToggleButton) -> (appearance:
    ButtonAppearance)
    ensures
        system_named(button.0@) matches Some(kind) ==> *final(toggles) == old(toggles).with(
            kind,
            !old(toggles).state(kind),
        ) && appearance.enabled == !old(toggles).state(kind),
        system_named(button.0@) is None ==> *final(toggles) == *old(toggles)
            && !appearance.enabled,
        appearance.color == button_color(appearance.enabled),
{
    let new_state: bool = match system_by_name(&button.0) {
        Some(kind) => {
            let state: bool = !toggles.get(kind);
            toggles.set(kind, state);
            state
        },
        None => false,
    };
    button_appearance(new_state)
}

/// What the battery read-out shows for a battery.
pub fn update_battery_display(battery: &Battery) -> (readout: BatteryReadout)
    requires
        battery.max_charge > 0,
    ensures
        readout.percentage == round_div(battery.current_charge * 100, battery.max_charge as int),
        readout.color == battery_color(readout.percentage as int),
{
    let percentage: u64 = rounded_quotient(
        battery.current_charge as i128 * 100,
        battery.max_charge as i128,
    ) as u64;
    let color: Color = if percentage > 50 {
        Color { red: 200, green: 1000, blue: 200 }
    } else if percentage > 20 {
        Color { red: 1000, green: 1000, blue: 200 }
    } else {
        Color { red: 1000, green: 200, blue: 200 }
    };
    BatteryReadout { percentage, color }
}

/// Pressing a switch twice leaves every switch as it was.
pub proof fn theorem_double_toggle_restores(toggles: SystemToggles, kind: SystemKind)
    ensures
        toggles.with(kind, !toggles.state(kind)).with(kind, toggles.state(kind)) == toggles,
        toggles.with(kind, !toggles.state(kind)).state(kind) == !toggles.state(kind),
{
}

} // verus!
