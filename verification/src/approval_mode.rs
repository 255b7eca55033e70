//! The `--approval-mode` command-line option and the approval policy it selects.

use vstd::prelude::*;

verus! {

/// When the user is asked to approve a command before it runs.
#[derive(Clone, Copy, Debug, PartialEq, Eq, Hash, Structural)]
pub enum AskForApproval {
    /// Run trusted commands without asking; ask for any other.
    UnlessTrusted,
    /// Run every command; ask only when one fails.
    OnFailure,
    /// The model decides when to ask.
    OnRequest,
    /// Never ask.
    Never,
}

/// Standard type to use with the `--approval-mode` command-line option.
#[derive(Clone, Copy, Debug, PartialEq, Eq, Structural)]
pub enum ApprovalModeCliArg {
    /// Run "trusted" commands (such as `ls`, `cat`, `sed`) without asking;
    /// a command outside that set is escalated to a request for approval.
    Untrusted,
    /// Run every command without asking; ask only when a command fails, to
    /// run it again outside the sandbox.
    OnFailure,
    /// The model decides when to ask the user for approval.
    OnRequest,
    /// Never ask the user; a failure goes straight back to the model.
    Never,
}

/// The approval policy that an option value selects.
pub open spec fn policy_of(value: ApprovalModeCliArg) -> AskForApproval {
    match value {
        ApprovalModeCliArg::Untrusted => AskForApproval::UnlessTrusted,
        ApprovalModeCliArg::OnFailure => AskForApproval::OnFailure,
        ApprovalModeCliArg::OnRequest => AskForApproval::OnRequest,
        ApprovalModeCliArg::Never => AskForApproval::Never,
    }
}

impl From<ApprovalModeCliArg> for AskForApproval {
    fn from(value: ApprovalModeCliArg) -> (r: AskForApproval) {
        match value {
            ApprovalModeCliArg::Untrusted => AskForApproval::UnlessTrusted,
            ApprovalModeCliArg::OnFailure => AskForApproval::OnFailure,
            ApprovalModeCliArg::OnRequest => AskForApproval::OnRequest,
            ApprovalModeCliArg::Never => AskForApproval::Never,
        }
    }
}

impl vstd::std_specs::convert::FromSpecImpl<ApprovalModeCliArg> for AskForApproval {
    open spec fn obeys_from_spec() -> bool {
        true
    }

    open spec fn from_spec(v: ApprovalModeCliArg) -> AskForApproval {
        policy_of(v)
    }
}

/// Every approval policy is selected by exactly one option value.
pub proof fn lemma_policy_of_bijective(a: ApprovalModeCliArg, b: ApprovalModeCliArg, p: AskForApproval)
    ensures
        policy_of(a) == policy_of(b) ==> a == b,
        exists|v: ApprovalModeCliArg| policy_of(v) == p,
{
    match p {
        AskForApproval::UnlessTrusted => assert(policy_of(ApprovalModeCliArg::Untrusted) == p),
        AskForApproval::OnFailure => assert(policy_of(ApprovalModeCliArg::OnFailure) == p),
        AskForApproval::OnRequest => assert(policy_of(ApprovalModeCliArg::OnRequest) == p),
        AskForApproval::Never => assert(policy_of(ApprovalModeCliArg::Never) == p),
    }
}

} // verus!
