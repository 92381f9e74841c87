use vstd::prelude::*;

verus! {

/// The closed three-value status enumeration of a task. The store never holds
/// any status string other than the canonical spelling of one of these.
#[derive(Clone, Copy, Debug, PartialEq, Eq, Structural)]
pub enum TaskStatus {
    Pending,
    Running,
    Finished,
}

impl TaskStatus {
    /// The canonical external string of this status.
    pub open spec fn spec_str(self) -> Seq<char> {
        match self {
            TaskStatus::Pending => "Pending"@,
            TaskStatus::Running => "Running"@,
            TaskStatus::Finished => "Finished"@,
        }
    }

    /// Which status, if any, a string denotes: exactly the three canonical
    /// spellings are accepted, anything else is rejected.
    pub open spec fn spec_parse(s: Seq<char>) -> Option<TaskStatus> {
        if s == "Pending"@ {
            Some(TaskStatus::Pending)
        } else if s == "Running"@ {
            Some(TaskStatus::Running)
        } else if s == "Finished"@ {
            Some(TaskStatus::Finished)
        } else {
            None
        }
    }

    pub fn as_str(self) -> (r: &'static str)
        ensures
            r@ == self.spec_str(),
    {
        match self {
            TaskStatus::Pending => "Pending",
            TaskStatus::Running => "Running",
            TaskStatus::Finished => "Finished",
        }
    }

    pub fn parse(s: &str) -> (r: Option<TaskStatus>)
        ensures
            r == Self::spec_parse(s@),
    {
        let owned = String::from_str(s);
        if owned == String::from_str("Pending") {
            Some(TaskStatus::Pending)
        } else if owned == String::from_str("Running") {
            Some(TaskStatus::Running)
        } else if owned == String::from_str("Finished") {
            Some(TaskStatus::Finished)
        } else {
            None
        }
    }
}

/// A string is a valid status exactly when it parses.
pub open spec fn is_valid_status(s: Seq<char>) -> bool {
    TaskStatus::spec_parse(s) is Some
}

/// The three canonical literals are pairwise distinct, every status string
/// parses back to the status it spells, and no other string is valid.
pub proof fn lemma_status_round_trip(st: TaskStatus)
    ensures
        TaskStatus::spec_parse(st.spec_str()) == Some(st),
        is_valid_status(st.spec_str()),
{
    reveal_strlit("Pending");
    reveal_strlit("Running");
    reveal_strlit("Finished");
    assert("Pending"@.len() == 7 && "Running"@.len() == 7 && "Finished"@.len() == 8);
    assert("Pending"@[0] == 'P' && "Running"@[0] == 'R');
    assert("Running"@ != "Pending"@);
    assert("Finished"@ != "Pending"@ && "Finished"@ != "Running"@);
}

} // verus!
