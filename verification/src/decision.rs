//! What a context policy decides.

use vstd::prelude::*;

verus! {

/// What becomes of the context before the next request.
#[derive(Clone, Copy, Debug, PartialEq, Eq, Structural)]
pub enum ContextPolicyAction {
    Keep,
    Compact,
}

/// The name of an action, in records and in responses.
pub open spec fn action_text(action: ContextPolicyAction) -> Seq<char> {
    match action {
        ContextPolicyAction::Keep => "KEEP"@,
        ContextPolicyAction::Compact => "COMPACT"@,
    }
}

impl ContextPolicyAction {
    /// The name of the action, in records and in responses.
    pub fn name(self) -> (name: &'static str)
        ensures
            name@ == action_text(self),
    {
        match self {
            ContextPolicyAction::Keep => "KEEP",
            ContextPolicyAction::Compact => "COMPACT",
        }
    }
}

/// The decision of one epoch. A policy that cannot plan may decide on no action.
#[derive(Clone, Copy, Debug, PartialEq, Eq, Structural)]
pub struct ContextPolicyDecision {
    pub epoch: u64,
    pub action: Option<ContextPolicyAction>,
}

/// The names of the actions, which differ.
pub proof fn law_actions_have_their_names()
    ensures
        action_text(ContextPolicyAction::Keep) == "KEEP"@,
        action_text(ContextPolicyAction::Compact) == "COMPACT"@,
        "KEEP"@ != "COMPACT"@,
{
    reveal_strlit("KEEP");
    reveal_strlit("COMPACT");
    assert("KEEP"@.len() == 4 && "COMPACT"@.len() == 7);
}

} // verus!
