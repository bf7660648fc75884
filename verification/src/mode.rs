//! Signalling conditions and their register field values.
//!
//! A line triggers on a level (low or high) or on an edge (any, falling or
//! rising). The hardware encodes a condition in three per-line register
//! bits: the detection-mode bit (set selects edge detection), the any-edge
//! bit (set makes any transition count) and the polarity bit (set selects
//! the high level, or the rising edge).

use vstd::prelude::*;

verus! {

/// Signal level used as signalling condition.
#[derive(Clone, Copy, Debug, PartialEq, Eq, Structural)]
pub enum Level {
    Low,
    High,
}

/// Signal edge used as signalling condition.
#[derive(Clone, Copy, Debug, PartialEq, Eq, Structural)]
pub enum Edge {
    Any,
    Falling,
    Rising,
}

/// Signalling condition on which a wake-up line is triggered.
#[derive(Clone, Copy, Debug, PartialEq, Eq, Structural)]
pub enum Mode {
    Level(Level),
    Edge(Edge),
}

impl From<Level> for Mode {
    fn from(value: Level) -> (r: Mode) {
        Mode::Level(value)
    }
}

impl vstd::std_specs::convert::FromSpecImpl<Level> for Mode {
    open spec fn obeys_from_spec() -> bool {
        true
    }

    open spec fn from_spec(value: Level) -> Mode {
        Mode::Level(value)
    }
}

impl From<Edge> for Mode {
    fn from(value: Edge) -> (r: Mode) {
        Mode::Edge(value)
    }
}

impl vstd::std_specs::convert::FromSpecImpl<Edge> for Mode {
    open spec fn obeys_from_spec() -> bool {
        true
    }

    open spec fn from_spec(value: Edge) -> Mode {
        Mode::Edge(value)
    }
}

/// Register field values that configure one line's condition. A `None`
/// leaves the corresponding register untouched.
#[derive(Clone, Copy, Debug, PartialEq, Eq)]
pub struct ModeFields {
    /// Detection-mode bit: set selects edge detection, clear level detection.
    pub edge_mode: bool,
    /// Any-edge bit: set makes both transitions trigger.
    pub any_edge: Option<bool>,
    /// Polarity bit: set selects the high level, or the rising edge.
    pub polarity: Option<bool>,
}

/// The field values that a condition configures.
pub open spec fn fields_of(mode: Mode) -> ModeFields {
    match mode {
        Mode::Level(level) => ModeFields {
            edge_mode: false,
            any_edge: None,
            polarity: Some(level is High),
        },
        Mode::Edge(edge) => ModeFields {
            edge_mode: true,
            any_edge: Some(edge is Any),
            polarity: match edge {
                Edge::Any => None,
                Edge::Falling => Some(false),
                Edge::Rising => Some(true),
            },
        },
    }
}

/// Translate a condition into its register field values.
pub fn mode_fields(mode: Mode) -> (f: ModeFields)
    ensures
        f == fields_of(mode),
{
    match mode {
        Mode::Level(level) => ModeFields {
            edge_mode: false,
            any_edge: None,
            polarity: Some(match level {
                Level::Low => false,
                Level::High => true,
            }),
        },
        Mode::Edge(edge) => ModeFields {
            edge_mode: true,
            any_edge: Some(match edge {
                Edge::Any => true,
                Edge::Falling => false,
                Edge::Rising => false,
            }),
            polarity: match edge {
                Edge::Any => None,
                Edge::Falling => Some(false),
                Edge::Rising => Some(true),
            },
        },
    }
}

/// Whether a signal transition from `was_high` to `now_high` meets the
/// condition encoded by the three field bits of a line whose detection is
/// enabled.
pub open spec fn condition_met(
    edge_mode: bool,
    any_edge: bool,
    polarity: bool,
    was_high: bool,
    now_high: bool,
) -> bool {
    if !edge_mode {
        now_high == polarity
    } else if any_edge {
        was_high != now_high
    } else if polarity {
        !was_high && now_high
    } else {
        was_high && !now_high
    }
}

/// Evaluate [`condition_met`] on concrete bits.
pub fn condition_met_exec(
    edge_mode: bool,
    any_edge: bool,
    polarity: bool,
    was_high: bool,
    now_high: bool,
) -> (r: bool)
    ensures
        r == condition_met(edge_mode, any_edge, polarity, was_high, now_high),
{
    if !edge_mode {
        now_high == polarity
    } else if any_edge {
        was_high != now_high
    } else if polarity {
        !was_high && now_high
    } else {
        was_high && !now_high
    }
}

} // verus!
