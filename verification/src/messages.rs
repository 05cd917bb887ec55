//! The messages of the remote interface: plain values as they travel, with
//! every number a 32-bit integer.

use vstd::prelude::*;

verus! {

/// Temperatures, one per zone, in thousandths of a degree.
#[derive(Debug)]
pub struct TempStatus {
    pub temps: Vec<i32>,
}

impl View for TempStatus {
    type V = Seq<i32>;

    open spec fn view(&self) -> Seq<i32> {
        self.temps@
    }
}

impl Clone for TempStatus {
    fn clone(&self) -> (r: Self)
        ensures
            r@ == self@,
    {
        TempStatus { temps: self.temps.clone() }
    }
}

/// States of relays, one per relay: `true` is on.
#[derive(Debug)]
pub struct RelayStatus {
    pub stati: Vec<bool>,
}

impl View for RelayStatus {
    type V = Seq<bool>;

    open spec fn view(&self) -> Seq<bool> {
        self.stati@
    }
}

impl Clone for RelayStatus {
    fn clone(&self) -> (r: Self)
        ensures
            r@ == self@,
    {
        RelayStatus { stati: self.stati.clone() }
    }
}

/// One step of a recipe.
#[derive(Debug)]
pub struct RcpStep {
    /// Position of the step in its recipe.
    pub index: i32,
    /// Duration in seconds.
    pub duration: i32,
    pub temps: Vec<i32>,
    pub relays: Vec<bool>,
    pub autostart: bool,
}

/// A step message as a mathematical value.
pub struct RcpStepModel {
    pub index: i32,
    pub duration: i32,
    pub temps: Seq<i32>,
    pub relays: Seq<bool>,
    pub autostart: bool,
}

impl View for RcpStep {
    type V = RcpStepModel;

    open spec fn view(&self) -> RcpStepModel {
        RcpStepModel {
            index: self.index,
            duration: self.duration,
            temps: self.temps@,
            relays: self.relays@,
            autostart: self.autostart,
        }
    }
}

impl Clone for RcpStep {
    fn clone(&self) -> (r: Self)
        ensures
            r@ == self@,
    {
        RcpStep {
            index: self.index,
            duration: self.duration,
            temps: self.temps.clone(),
            relays: self.relays.clone(),
            autostart: self.autostart,
        }
    }
}

/// The step messages of a vector as mathematical values.
pub open spec fn messages_view(steps: Seq<RcpStep>) -> Seq<RcpStepModel> {
    Seq::new(steps.len(), |i: int| steps[i]@)
}

/// A recipe and the progress of the process that runs it.
#[derive(Debug)]
pub struct Rcp {
    pub steps: Vec<RcpStep>,
    /// The status, as the number of an `RcpStatus`.
    pub status: i32,
    pub step_started_timestamp: i32,
    pub step_index: i32,
}

/// A recipe message as a mathematical value.
pub struct RcpModel {
    pub steps: Seq<RcpStepModel>,
    pub status: i32,
    pub step_started_timestamp: i32,
    pub step_index: i32,
}

impl View for Rcp {
    type V = RcpModel;

    open spec fn view(&self) -> RcpModel {
        RcpModel {
            steps: messages_view(self.steps@),
            status: self.status,
            step_started_timestamp: self.step_started_timestamp,
            step_index: self.step_index,
        }
    }
}

impl Clone for Rcp {
    fn clone(&self) -> (r: Self)
        ensures
            r@ == self@,
    {
        let mut steps: Vec<RcpStep> = Vec::new();
        let mut i: usize = 0;
        while i < self.steps.len()
            invariant
                i <= self.steps.len(),
                steps.len() == i,
                forall|j: int| 0 <= j < i ==> steps@[j]@ == self.steps@[j]@,
            decreases self.steps.len() - i,
        {
            steps.push(self.steps[i].clone());
            i += 1;
        }
        let r = Rcp {
            steps,
            status: self.status,
            step_started_timestamp: self.step_started_timestamp,
            step_index: self.step_index,
        };
        assert(r@.steps =~= self@.steps);
        r
    }
}

/// The message without content.
#[derive(Clone, Copy, Debug, PartialEq, Eq, Structural)]
pub struct Empty {}

/// Where the process stands.
#[derive(Clone, Copy, Debug, PartialEq, Eq, Hash, PartialOrd, Ord, Structural)]
pub enum RcpStatus {
    Uninitialized,
    Initial,
    Started,
    Paused,
    Finished,
}

/// Whether two strings hold the same text.
fn same_text(a: &str, b: &str) -> (r: bool)
    ensures
        r == (a@ == b@),
{
    a.to_owned() == b.to_owned()
}

impl RcpStatus {
    /// The name of a status.
    pub open spec fn name(self) -> Seq<char> {
        match self {
            RcpStatus::Uninitialized => "Uninitialized"@,
            RcpStatus::Initial => "Initial"@,
            RcpStatus::Started => "Started"@,
            RcpStatus::Paused => "Paused"@,
            RcpStatus::Finished => "Finished"@,
        }
    }

    /// The number of a status.
    pub open spec fn number(self) -> i32 {
        match self {
            RcpStatus::Uninitialized => 0,
            RcpStatus::Initial => 1,
            RcpStatus::Started => 2,
            RcpStatus::Paused => 3,
            RcpStatus::Finished => 4,
        }
    }

    /// The status with a name, if it is the name of one.
    pub open spec fn named(text: Seq<char>) -> Option<RcpStatus> {
        if text == "Uninitialized"@ {
            Some(RcpStatus::Uninitialized)
        } else if text == "Initial"@ {
            Some(RcpStatus::Initial)
        } else if text == "Started"@ {
            Some(RcpStatus::Started)
        } else if text == "Paused"@ {
            Some(RcpStatus::Paused)
        } else if text == "Finished"@ {
            Some(RcpStatus::Finished)
        } else {
            None
        }
    }

    /// The status with a number, if there is one.
    pub open spec fn numbered(value: int) -> Option<RcpStatus> {
        if value == 0 {
            Some(RcpStatus::Uninitialized)
        } else if value == 1 {
            Some(RcpStatus::Initial)
        } else if value == 2 {
            Some(RcpStatus::Started)
        } else if value == 3 {
            Some(RcpStatus::Paused)
        } else if value == 4 {
            Some(RcpStatus::Finished)
        } else {
            None
        }
    }

    /// Every status comes back from its name and from its number, and no
    /// two statuses share either.
    pub proof fn lemma_round_trip(a: RcpStatus, b: RcpStatus)
        ensures
            RcpStatus::named(a.name()) == Some(a),
            RcpStatus::numbered(a.number() as int) == Some(a),
            a.name() == b.name() ==> a == b,
            a.number() == b.number() ==> a == b,
    {
        reveal_strlit("Uninitialized");
        reveal_strlit("Initial");
        reveal_strlit("Started");
        reveal_strlit("Paused");
        reveal_strlit("Finished");
        // the names differ in their first letter
        assert(a != b ==> a.name()[0] != b.name()[0]);
    }

    /// String value of the status, as the interface definition names it.
    pub fn as_str_name(&self) -> (r: &'static str)
        ensures
            r@ == self.name(),
    {
        match self {
            RcpStatus::Uninitialized => "Uninitialized",
            RcpStatus::Initial => "Initial",
            RcpStatus::Started => "Started",
            RcpStatus::Paused => "Paused",
            RcpStatus::Finished => "Finished",
        }
    }

    /// The status that a name stands for, if it is the name of one.
    pub fn from_str_name(value: &str) -> (r: Option<Self>)
        ensures
            r == RcpStatus::named(value@),
    {
        if same_text(value, "Uninitialized") {
            Some(RcpStatus::Uninitialized)
        } else if same_text(value, "Initial") {
            Some(RcpStatus::Initial)
        } else if same_text(value, "Started") {
            Some(RcpStatus::Started)
        } else if same_text(value, "Paused") {
            Some(RcpStatus::Paused)
        } else if same_text(value, "Finished") {
            Some(RcpStatus::Finished)
        } else {
            None
        }
    }

    /// The number under which the status travels.
    pub fn to_i32(&self) -> (r: i32)
        ensures
            r == self.number(),
    {
        match self {
            RcpStatus::Uninitialized => 0,
            RcpStatus::Initial => 1,
            RcpStatus::Started => 2,
            RcpStatus::Paused => 3,
            RcpStatus::Finished => 4,
        }
    }

    /// The status with a number, if there is one.
    pub fn from_i32(value: i32) -> (r: Option<Self>)
        ensures
            r == RcpStatus::numbered(value as int),
    {
        match value {
            0 => Some(RcpStatus::Uninitialized),
            1 => Some(RcpStatus::Initial),
            2 => Some(RcpStatus::Started),
            3 => Some(RcpStatus::Paused),
            4 => Some(RcpStatus::Finished),
            _ => None,
        }
    }
}

} // verus!
