use vstd::prelude::*;

verus! {

/// Task status vocabulary as the Sindri backend reports it on the wire
/// ("Queued", "In Progress", "Ready", "Failed").
#[derive(Clone, Copy, PartialEq, Eq, Structural, Debug)]
pub enum SindriTaskStatus {
    Queued,
    Proving,
    Success,
    Failed,
}

/// Vendor-neutral task status vocabulary of the proving-service contract.
#[derive(Clone, Copy, PartialEq, Eq, Structural, Debug)]
pub enum TaskStatus {
    Queued,
    Proving,
    Success,
    Failed,
}

/// The total, one-to-one, order-preserving mapping from the backend status
/// vocabulary onto the vendor-neutral one.
pub open spec fn spec_status_map(s: SindriTaskStatus) -> TaskStatus {
    match s {
        SindriTaskStatus::Queued => TaskStatus::Queued,
        SindriTaskStatus::Proving => TaskStatus::Proving,
        SindriTaskStatus::Success => TaskStatus::Success,
        SindriTaskStatus::Failed => TaskStatus::Failed,
    }
}

impl SindriTaskStatus {
    /// Map a backend status onto the vendor-neutral vocabulary. The match is
    /// exhaustive with no fallback arm, so a new backend status value is a
    /// compile-time-visible change.
    pub fn to_task_status(self) -> (r: TaskStatus)
        ensures
            r == spec_status_map(self),
    {
        match self {
            SindriTaskStatus::Queued => TaskStatus::Queued,
            SindriTaskStatus::Proving => TaskStatus::Proving,
            SindriTaskStatus::Success => TaskStatus::Success,
            SindriTaskStatus::Failed => TaskStatus::Failed,
        }
    }
}

/// Law: the status mapping is one-to-one; distinct backend statuses never
/// collapse onto the same vendor-neutral status.
pub proof fn lemma_status_map_injective(a: SindriTaskStatus, b: SindriTaskStatus)
    ensures
        spec_status_map(a) == spec_status_map(b) ==> a == b,
{
}

/// The backend status named by the given text, if any.
pub open spec fn spec_parse_status(s: Seq<char>) -> Option<SindriTaskStatus> {
    if s == "Queued"@ {
        Some(SindriTaskStatus::Queued)
    } else if s == "In Progress"@ {
        Some(SindriTaskStatus::Proving)
    } else if s == "Ready"@ {
        Some(SindriTaskStatus::Success)
    } else if s == "Failed"@ {
        Some(SindriTaskStatus::Failed)
    } else {
        None
    }
}

/// Recognise a backend status value from its wire text.
pub fn parse_sindri_status(s: &String) -> (r: Option<SindriTaskStatus>)
    ensures
        r == spec_parse_status(s@),
{
    let queued: String = "Queued".to_owned();
    let proving: String = "In Progress".to_owned();
    let success: String = "Ready".to_owned();
    let failed: String = "Failed".to_owned();
    if *s == queued {
        Some(SindriTaskStatus::Queued)
    } else if *s == proving {
        Some(SindriTaskStatus::Proving)
    } else if *s == success {
        Some(SindriTaskStatus::Success)
    } else if *s == failed {
        Some(SindriTaskStatus::Failed)
    } else {
        None
    }
}

} // verus!
