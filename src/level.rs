use vstd::prelude::*;

verus! {

/// Severity of a message, ordered `Debug < Info < Success < Warning < Error`.
#[derive(Debug, Clone, Copy, PartialEq, Eq, Structural, Ord)]
pub enum Level {
    /// Development-related messages that will be ignored (or removed) in a
    /// production deployment.
    Debug,
    /// Informational messages for the user.
    Info,
    /// An action was successful.
    Success,
    /// A failure did not occur but may be imminent.
    Warning,
    /// An action was not successful or some other failure occurred.
    Error,
}

impl Level {
    /// Position of the level in the order, from 0 (`Debug`) to 4 (`Error`).
    pub open spec fn rank(self) -> nat {
        match self {
            Level::Debug => 0,
            Level::Info => 1,
            Level::Success => 2,
            Level::Warning => 3,
            Level::Error => 4,
        }
    }

    /// Name of the level as shown to users.
    pub open spec fn name(self) -> Seq<char> {
        match self {
            Level::Debug => "Debug"@,
            Level::Info => "Info"@,
            Level::Success => "Success"@,
            Level::Warning => "Warning"@,
            Level::Error => "Error"@,
        }
    }

    /// Position of the level in the order.
    pub fn as_u8(&self) -> (r: u8)
        ensures
            r as nat == self.rank(),
    {
        match self {
            Level::Debug => 0,
            Level::Info => 1,
            Level::Success => 2,
            Level::Warning => 3,
            Level::Error => 4,
        }
    }

    /// The level with the given position, if there is one.
    pub fn from_u8(n: u8) -> (r: Option<Level>)
        ensures
            r matches Some(l) ==> l.rank() == n as nat,
            r is None <==> n > 4,
    {
        match n {
            0 => Some(Level::Debug),
            1 => Some(Level::Info),
            2 => Some(Level::Success),
            3 => Some(Level::Warning),
            4 => Some(Level::Error),
            _ => None,
        }
    }

    /// Name of the level as shown to users (`"Debug"`, `"Info"`, ...).
    pub fn as_str(&self) -> (r: &'static str)
        ensures
            r@ == self.name(),
    {
        match self {
            Level::Debug => "Debug",
            Level::Info => "Info",
            Level::Success => "Success",
            Level::Warning => "Warning",
            Level::Error => "Error",
        }
    }
}

impl PartialOrd for Level {
    fn partial_cmp(&self, other: &Level) -> (r: Option<core::cmp::Ordering>) {
        let a: u8 = self.as_u8();
        let b: u8 = other.as_u8();
        if a < b {
            Some(core::cmp::Ordering::Less)
        } else if a == b {
            Some(core::cmp::Ordering::Equal)
        } else {
            Some(core::cmp::Ordering::Greater)
        }
    }
}

impl vstd::std_specs::cmp::PartialOrdSpecImpl for Level {
    open spec fn obeys_partial_cmp_spec() -> bool {
        true
    }

    open spec fn partial_cmp_spec(&self, other: &Level) -> Option<core::cmp::Ordering> {
        if self.rank() < other.rank() {
            Some(core::cmp::Ordering::Less)
        } else if self.rank() == other.rank() {
            Some(core::cmp::Ordering::Equal)
        } else {
            Some(core::cmp::Ordering::Greater)
        }
    }
}

} // verus!
