//! What a caller may ask of an evaluation: limits, clock and pondering.
//!
//! All times are whole milliseconds.

use vstd::prelude::*;

use crate::color::PieceColor;
use crate::moves::Move;

verus! {

/// Five minutes, the fallback thinking time.
pub const DEFAULT_TIME_MILLIS: u64 = 300000;

/// Hard limits of one evaluation; a missing field does not limit.
#[derive(Debug, Clone, Copy, PartialEq, Eq)]
pub struct ActualLimit {
    /// The greatest number of nodes to explore.
    pub nodes: Option<u64>,
    /// The greatest search depth.
    pub depth: Option<u8>,
    /// The wall-clock budget, in milliseconds.
    pub time: Option<u64>,
}

impl Default for ActualLimit {
    /// No limit at all.
    fn default() -> (r: Self)
        ensures
            r.nodes is None,
            r.depth is None,
            r.time is None,
    {
        ActualLimit { nodes: None, depth: None, time: None }
    }
}

/// How long the search may run.
#[derive(Debug, Clone)]
pub enum SearchLimit {
    /// A depth of 30 within the clock's recommended time.
    Auto,
    /// Until it is stopped.
    Infinite,
    /// Explicit limits.
    Limited(ActualLimit),
}

/// The state of the game clock.
#[derive(Debug, Clone)]
pub enum Clock {
    /// No clock; think for the default time.
    Unlimited,
    /// A fixed budget for every move, in milliseconds.
    TimePerMove(u64),
    /// A standard two-sided clock with increments, in milliseconds.
    Standard {
        white_time_remaining: u64,
        black_time_remaining: u64,
        white_increment: u64,
        black_increment: u64,
        /// Moves until the next time control, and its added time.
        moves_until_next_time_control: Option<(u32, u64)>,
    },
}

impl Clock {
    /// The recommended thinking time: the fixed budget where there is one;
    /// under a standard clock, the remaining time spread over the moves to
    /// the next control (50 when unknown) plus the increment, scaled back by
    /// a fifth for headroom.
    pub open spec fn spec_recommended_time(self, this_color: PieceColor) -> u64 {
        match self {
            Clock::Unlimited => DEFAULT_TIME_MILLIS,
            Clock::TimePerMove(time) => time,
            Clock::Standard {
                white_time_remaining,
                black_time_remaining,
                white_increment,
                black_increment,
                moves_until_next_time_control,
            } => {
                let my_time: u64 = if this_color is Dark {
                    black_time_remaining
                } else {
                    white_time_remaining
                };
                let my_increment: u64 = if this_color is Dark {
                    black_increment
                } else {
                    white_increment
                };
                let moves_to_go: u32 = match moves_until_next_time_control {
                    Some(m) => m.0,
                    None => 50u32,
                };
                let base: u64 = if moves_to_go == 0 {
                    my_time
                } else {
                    (my_time as int / moves_to_go as int) as u64
                };
                (((base + my_increment) * 4) / 5) as u64
            },
        }
    }

    /// Computes the recommended thinking time for one move.
    pub fn recommended_time(&self, this_color: PieceColor) -> (r: u64)
        ensures
            r == self.spec_recommended_time(this_color),
    {
        match self {
            Self::Unlimited => DEFAULT_TIME_MILLIS,
            Self::TimePerMove(time) => *time,
            Self::Standard {
                white_time_remaining,
                black_time_remaining,
                white_increment,
                black_increment,
                moves_until_next_time_control,
            } => {
                let my_time: u64 = match this_color {
                    PieceColor::Dark => *black_time_remaining,
                    PieceColor::Light => *white_time_remaining,
                };
                let my_increment: u64 = match this_color {
                    PieceColor::Dark => *black_increment,
                    PieceColor::Light => *white_increment,
                };
                let moves_to_go: u32 = match moves_until_next_time_control {
                    Some(m) => m.0,
                    None => 50,
                };
                let base: u64 = if moves_to_go == 0 {
                    my_time
                } else {
                    my_time / (moves_to_go as u64)
                };
                let scaled: u128 = ((base as u128) + (my_increment as u128)) * 4 / 5;
                scaled as u64
            },
        }
    }
}

impl Default for Clock {
    /// Five minutes for every move.
    fn default() -> (r: Self)
        ensures
            r == Clock::TimePerMove(DEFAULT_TIME_MILLIS),
    {
        Self::TimePerMove(DEFAULT_TIME_MILLIS)
    }
}

/// Everything a caller chooses about one evaluation.
#[derive(Debug, Clone)]
pub struct EvaluationSettings {
    /// When present, the root searches only these moves.
    pub restrict_moves: Option<Vec<Move>>,
    /// Whether to keep thinking on the opponent's time.
    pub ponder: bool,
    /// The state of the game clock.
    pub clock: Clock,
    /// How long the search may run.
    pub search_until: SearchLimit,
}

impl EvaluationSettings {
    /// The limits a search setting amounts to: `Auto` maps to depth 30
    /// within the clock's recommended time, `Infinite` to no limit, and
    /// explicit limits pass through with zero fields treated as absent.
    pub open spec fn spec_get_limits(self, this_color: PieceColor) -> ActualLimit {
        match self.search_until {
            SearchLimit::Infinite => ActualLimit { nodes: None, depth: None, time: None },
            SearchLimit::Limited(limit) => ActualLimit {
                nodes: if limit.nodes matches Some(n) && n > 0 {
                    limit.nodes
                } else {
                    None
                },
                depth: if limit.depth matches Some(d) && d > 0 {
                    limit.depth
                } else {
                    None
                },
                time: if limit.time matches Some(t) && t > 0 {
                    limit.time
                } else {
                    None
                },
            },
            SearchLimit::Auto => ActualLimit {
                nodes: None,
                depth: Some(30u8),
                time: Some(self.clock.spec_recommended_time(this_color)),
            },
        }
    }

    /// Turns the settings into hard limits for the searcher.
    pub fn get_limits(&self, this_color: PieceColor) -> (r: ActualLimit)
        ensures
            r == self.spec_get_limits(this_color),
    {
        match &self.search_until {
            SearchLimit::Infinite => ActualLimit { nodes: None, depth: None, time: None },
            SearchLimit::Limited(limit) => {
                let nodes = match limit.nodes {
                    Some(n) => if n > 0 {
                        Some(n)
                    } else {
                        None
                    },
                    None => None,
                };
                let depth = match limit.depth {
                    Some(d) => if d > 0 {
                        Some(d)
                    } else {
                        None
                    },
                    None => None,
                };
                let time = match limit.time {
                    Some(t) => if t > 0 {
                        Some(t)
                    } else {
                        None
                    },
                    None => None,
                };
                ActualLimit { nodes, depth, time }
            },
            SearchLimit::Auto => ActualLimit {
                nodes: None,
                depth: Some(30),
                time: Some(self.clock.recommended_time(this_color)),
            },
        }
    }
}

impl Default for SearchLimit {
    /// Let the clock decide.
    fn default() -> (r: Self)
        ensures
            r is Auto,
    {
        SearchLimit::Auto
    }
}

impl Default for EvaluationSettings {
    /// No restriction, no pondering, the default clock, automatic limits.
    fn default() -> (r: Self)
        ensures
            r.restrict_moves is None,
            !r.ponder,
            r.clock == Clock::TimePerMove(DEFAULT_TIME_MILLIS),
            r.search_until is Auto,
    {
        EvaluationSettings {
            restrict_moves: None,
            ponder: false,
            clock: Clock::default(),
            search_until: SearchLimit::default(),
        }
    }
}

} // verus!
