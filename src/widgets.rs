//! Plain values that the shell's widgets are laid out and styled by.
use vstd::prelude::*;

verus! {

/// The direction in which a widget lays out its children.
#[derive(Debug, Clone, PartialEq, Eq, Structural)]
pub enum Orientation {
    Vertical,
    Horizontal,
}

/// The settings of the battery widget.
#[derive(Debug, Clone, PartialEq, Eq)]
pub struct Battery {
    pub orientation: Orientation,
}

impl Default for Battery {
    fn default() -> (r: Battery)
        ensures
            r == (Battery { orientation: Orientation::Vertical }),
    {
        Battery { orientation: Orientation::Vertical }
    }
}

/// A screen edge that a layer-shell window is anchored to.
#[derive(Debug, Clone, Copy, PartialEq, Eq, Structural)]
pub enum Anchor {
    Top,
    Bottom,
    Left,
    Right,
}

/// The layer of the compositor that a layer-shell window lives in.
#[derive(Debug, Clone, Copy, PartialEq, Eq, Structural)]
pub enum Layer {
    Overlay,
    Top,
    Bottom,
    Background,
}

/// How full the battery is, as the battery widget shows it.
#[derive(Debug, Clone, Copy, PartialEq, Eq, Structural)]
pub enum BatteryLevel {
    Full,
    High,
    Medium,
    Low,
    Critical,
}

/// The CSS class that styles a battery level.
pub open spec fn battery_class(level: BatteryLevel) -> Seq<char> {
    match level {
        BatteryLevel::Full => "full"@,
        BatteryLevel::High => "high"@,
        BatteryLevel::Medium => "medium"@,
        BatteryLevel::Low => "low"@,
        BatteryLevel::Critical => "critical"@,
    }
}

impl BatteryLevel {
    /// The CSS class that styles this level.
    pub fn as_class_name(&self) -> (r: &'static str)
        ensures
            r@ == battery_class(*self),
    {
        match self {
            BatteryLevel::Full => "full",
            BatteryLevel::High => "high",
            BatteryLevel::Medium => "medium",
            BatteryLevel::Low => "low",
            BatteryLevel::Critical => "critical",
        }
    }
}

} // verus!
