//! The status of the model.

use vstd::prelude::*;

verus! {

/// How far the model is on its way to being ready.
#[derive(Clone, Copy, Debug, Eq, PartialEq, Structural)]
pub enum RuntimeStatus {
    Idle,
    Downloading,
    Loading,
    Ready,
    Failed,
}

impl RuntimeStatus {
    /// The name that clients see.
    pub open spec fn name(self) -> Seq<char> {
        match self {
            RuntimeStatus::Idle => "idle"@,
            RuntimeStatus::Downloading => "downloading"@,
            RuntimeStatus::Loading => "loading"@,
            RuntimeStatus::Ready => "ready"@,
            RuntimeStatus::Failed => "failed"@,
        }
    }

    /// The number that the status is stored as.
    pub open spec fn code(self) -> u8 {
        match self {
            RuntimeStatus::Idle => 0,
            RuntimeStatus::Downloading => 1,
            RuntimeStatus::Loading => 2,
            RuntimeStatus::Ready => 3,
            RuntimeStatus::Failed => 4,
        }
    }

    /// The status that is stored as `code`; any other number stands for `Idle`.
    pub open spec fn coded(code: u8) -> RuntimeStatus {
        if exists|s: RuntimeStatus| #[trigger] s.code() == code {
            choose|s: RuntimeStatus| #[trigger] s.code() == code
        } else {
            RuntimeStatus::Idle
        }
    }

    pub fn as_str(self) -> (r: &'static str)
        ensures
            r@ == self.name(),
    {
        match self {
            RuntimeStatus::Idle => "idle",
            RuntimeStatus::Downloading => "downloading",
            RuntimeStatus::Loading => "loading",
            RuntimeStatus::Ready => "ready",
            RuntimeStatus::Failed => "failed",
        }
    }

    pub fn as_u8(self) -> (r: u8)
        ensures
            r == self.code(),
    {
        match self {
            RuntimeStatus::Idle => 0,
            RuntimeStatus::Downloading => 1,
            RuntimeStatus::Loading => 2,
            RuntimeStatus::Ready => 3,
            RuntimeStatus::Failed => 4,
        }
    }

    pub fn from_u8(value: u8) -> (r: RuntimeStatus)
        ensures
            r == RuntimeStatus::coded(value),
    {
        proof {
            coded_inverts_code(RuntimeStatus::Idle);
            coded_inverts_code(RuntimeStatus::Downloading);
            coded_inverts_code(RuntimeStatus::Loading);
            coded_inverts_code(RuntimeStatus::Ready);
            coded_inverts_code(RuntimeStatus::Failed);
        }
        if value == 1 {
            RuntimeStatus::Downloading
        } else if value == 2 {
            RuntimeStatus::Loading
        } else if value == 3 {
            RuntimeStatus::Ready
        } else if value == 4 {
            RuntimeStatus::Failed
        } else {
            RuntimeStatus::Idle
        }
    }
}

/// The five statuses, by the names that clients see and the numbers that they
/// are stored as. Every number from 5 on is read as idle.
pub proof fn statuses_have_their_names_and_numbers(code: u8)
    ensures
        RuntimeStatus::Idle.name() == "idle"@,
        RuntimeStatus::Downloading.name() == "downloading"@,
        RuntimeStatus::Loading.name() == "loading"@,
        RuntimeStatus::Ready.name() == "ready"@,
        RuntimeStatus::Failed.name() == "failed"@,
        RuntimeStatus::coded(code) == (if code == 1 {
            RuntimeStatus::Downloading
        } else if code == 2 {
            RuntimeStatus::Loading
        } else if code == 3 {
            RuntimeStatus::Ready
        } else if code == 4 {
            RuntimeStatus::Failed
        } else {
            RuntimeStatus::Idle
        }),
{
    coded_inverts_code(RuntimeStatus::Idle);
    coded_inverts_code(RuntimeStatus::Downloading);
    coded_inverts_code(RuntimeStatus::Loading);
    coded_inverts_code(RuntimeStatus::Ready);
    coded_inverts_code(RuntimeStatus::Failed);
}

/// A status is read back as it was stored.
pub proof fn coded_inverts_code(s: RuntimeStatus)
    ensures
        RuntimeStatus::coded(s.code()) == s,
{
    let k = choose|k: RuntimeStatus| #[trigger] k.code() == s.code();
    assert(k.code() == s.code());
}

} // verus!
