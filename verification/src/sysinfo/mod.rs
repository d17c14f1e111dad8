//! The system-information module: its format strings, how placeholders are
//! padded, and which refresh touches which placeholder.
use vstd::prelude::*;

pub mod parser;
pub mod render;
pub mod token;

use token::{Part, TokenType};

verus! {

/// Per-source refresh intervals, in seconds.
#[derive(Debug, Clone, Copy, PartialEq, Eq, Structural)]
pub struct Intervals {
    pub memory: u64,
    pub cpu: u64,
    pub temps: u64,
    pub disks: u64,
    pub networks: u64,
    pub system: u64,
}

/// The refresh interval: one for every source, or one per source.
#[derive(Debug, Clone, Copy, PartialEq, Eq, Structural)]
pub enum Interval {
    All(u64),
    Individual(Intervals),
}

/// The interval used where the configuration gives none.
pub fn default_interval() -> (r: u64)
    ensures
        r == 5,
{
    5
}

impl Interval {
    /// Every source refreshed every five seconds.
    pub fn default() -> (r: Interval)
        ensures
            r == Interval::All(5),
    {
        Interval::All(default_interval())
    }

    /// Seconds between memory refreshes.
    pub fn memory(self) -> (r: u64)
        ensures
            r == (match self { Interval::All(n) => n, Interval::Individual(i) => i.memory }),
    {
        match self {
            Interval::All(n) => n,
            Interval::Individual(intervals) => intervals.memory,
        }
    }

    /// Seconds between CPU refreshes.
    pub fn cpu(self) -> (r: u64)
        ensures
            r == (match self { Interval::All(n) => n, Interval::Individual(i) => i.cpu }),
    {
        match self {
            Interval::All(n) => n,
            Interval::Individual(intervals) => intervals.cpu,
        }
    }

    /// Seconds between temperature refreshes.
    pub fn temps(self) -> (r: u64)
        ensures
            r == (match self { Interval::All(n) => n, Interval::Individual(i) => i.temps }),
    {
        match self {
            Interval::All(n) => n,
            Interval::Individual(intervals) => intervals.temps,
        }
    }

    /// Seconds between disk refreshes.
    pub fn disks(self) -> (r: u64)
        ensures
            r == (match self { Interval::All(n) => n, Interval::Individual(i) => i.disks }),
    {
        match self {
            Interval::All(n) => n,
            Interval::Individual(intervals) => intervals.disks,
        }
    }

    /// Seconds between network refreshes.
    pub fn networks(self) -> (r: u64)
        ensures
            r == (match self { Interval::All(n) => n, Interval::Individual(i) => i.networks }),
    {
        match self {
            Interval::All(n) => n,
            Interval::Individual(intervals) => intervals.networks,
        }
    }

    /// Seconds between refreshes of system-wide values (load, uptime).
    pub fn system(self) -> (r: u64)
        ensures
            r == (match self { Interval::All(n) => n, Interval::Individual(i) => i.system }),
    {
        match self {
            Interval::All(n) => n,
            Interval::Individual(intervals) => intervals.system,
        }
    }
}

/// What a periodic refresh reloads.
#[derive(Debug, Clone, Copy, PartialEq, Eq, Structural)]
pub enum RefreshType {
    Memory,
    Cpu,
    Temps,
    Disks,
    Network,
    System,
}

/// The refresh that changes a token's value.
pub open spec fn refresh_source(t: TokenType) -> RefreshType {
    match t {
        TokenType::CpuFrequency | TokenType::CpuPercent => RefreshType::Cpu,
        TokenType::MemoryFree | TokenType::MemoryAvailable | TokenType::MemoryTotal
        | TokenType::MemoryUsed | TokenType::MemoryPercent | TokenType::SwapFree
        | TokenType::SwapTotal | TokenType::SwapUsed | TokenType::SwapPercent => RefreshType::Memory,
        TokenType::TempC | TokenType::TempF => RefreshType::Temps,
        TokenType::DiskFree | TokenType::DiskTotal | TokenType::DiskUsed | TokenType::DiskPercent
        | TokenType::DiskRead | TokenType::DiskWrite => RefreshType::Disks,
        TokenType::NetDown | TokenType::NetUp => RefreshType::Network,
        TokenType::LoadAverage1 | TokenType::LoadAverage5 | TokenType::LoadAverage15
        | TokenType::Uptime => RefreshType::System,
    }
}

impl TokenType {
    /// Whether `refresh_type` changes this token's value.
    pub fn is_affected_by(self, refresh_type: RefreshType) -> (r: bool)
        ensures
            r == (refresh_source(self) == refresh_type),
    {
        match self {
            TokenType::CpuFrequency | TokenType::CpuPercent => refresh_type == RefreshType::Cpu,
            TokenType::MemoryFree | TokenType::MemoryAvailable | TokenType::MemoryTotal
            | TokenType::MemoryUsed | TokenType::MemoryPercent | TokenType::SwapFree
            | TokenType::SwapTotal | TokenType::SwapUsed | TokenType::SwapPercent => {
                refresh_type == RefreshType::Memory
            },
            TokenType::TempC | TokenType::TempF => refresh_type == RefreshType::Temps,
            TokenType::DiskFree | TokenType::DiskTotal | TokenType::DiskUsed
            | TokenType::DiskPercent | TokenType::DiskRead | TokenType::DiskWrite => {
                refresh_type == RefreshType::Disks
            },
            TokenType::NetDown | TokenType::NetUp => refresh_type == RefreshType::Network,
            TokenType::LoadAverage1 | TokenType::LoadAverage5 | TokenType::LoadAverage15 => {
                refresh_type == RefreshType::System
            },
            TokenType::Uptime => refresh_type == RefreshType::System,
        }
    }
}

/// Some placeholder of `parts` shows a value that `refresh` changes.
pub open spec fn spec_parts_affected(parts: Seq<Part>, refresh: RefreshType) -> bool {
    exists|i: int| 0 <= i < parts.len() && (match #[trigger] parts[i] {
        Part::Token(t) => refresh_source(t.token) == refresh,
        Part::Static(_) => false,
    })
}

/// Whether a refresh of `refresh` changes what the format `parts` renders
/// to, so that the label must be rendered again.
pub fn parts_affected_by(parts: &Vec<Part>, refresh: RefreshType) -> (r: bool)
    ensures
        r == spec_parts_affected(parts@, refresh),
{
    let mut i: usize = 0;
    while i < parts.len()
        invariant
            i <= parts.len(),
            forall|k: int| 0 <= k < i ==> !(match #[trigger] parts@[k] {
                Part::Token(t) => refresh_source(t.token) == refresh,
                Part::Static(_) => false,
            }),
        decreases parts.len() - i,
    {
        match &parts[i] {
            Part::Token(t) => {
                if t.token.is_affected_by(refresh) {
                    return true;
                }
            },
            Part::Static(_) => {},
        }
        i = i + 1;
    }
    false
}

} // verus!
