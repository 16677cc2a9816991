//! Charge state of the internal battery.

use vstd::prelude::*;

verus! {

/// What the power supply reports about the battery.
#[derive(Debug, Copy, Clone, PartialEq, Eq, Structural)]
pub enum Status {
    Discharging,
    Charging,
    Charged,
    Unknown,
}

/// What `str::trim_end` leaves of a text: the text without the white space
/// at its end, as Unicode defines white space.
pub uninterp spec fn trimmed_end(text: Seq<char>) -> Seq<char>;

/// `str::trim_end` is a function of the text alone; its result has the name
/// `trimmed_end`.
pub assume_specification[ str::trim_end ](text: &str) -> (trimmed: &str)
    ensures
        trimmed@ == trimmed_end(text@),
;

impl Status {
    /// A battery is wired when an external source feeds it.
    pub open spec fn wired(self) -> bool {
        self == Status::Charging || self == Status::Charged
    }

    /// Whether the device is connected to an external power source.
    pub fn is_wired(self) -> (wired: bool)
        ensures
            wired == self.wired(),
    {
        matches!(self, Status::Charging | Status::Charged)
    }

    /// The status that the power supply names, if the name is one of the
    /// four it uses. A battery that is full or not charging is charged.
    pub open spec fn named(name: Seq<char>) -> Option<Status> {
        if name == "Discharging"@ {
            Some(Status::Discharging)
        } else if name == "Charging"@ {
            Some(Status::Charging)
        } else if name == "Not charging"@ || name == "Full"@ {
            Some(Status::Charged)
        } else {
            None
        }
    }

    /// The status of a name of the power supply.
    pub fn from_name(name: &str) -> (status: Option<Status>)
        ensures
            status == Status::named(name@),
    {
        let name = name.to_owned();
        if name == "Discharging".to_owned() {
            Some(Status::Discharging)
        } else if name == "Charging".to_owned() {
            Some(Status::Charging)
        } else if name == "Not charging".to_owned() || name == "Full".to_owned() {
            Some(Status::Charged)
        } else {
            None
        }
    }

    /// The status that the power supply's status file holds: the name in
    /// it, with the line end after it dropped.
    pub fn from_report(report: &str) -> (status: Option<Status>)
        ensures
            status == Status::named(trimmed_end(report@)),
    {
        Status::from_name(report.trim_end())
    }
}

} // verus!
