use vstd::prelude::*;

verus! {

/// Why a node could not be resolved or a field could not be written.
#[derive(Clone, Copy, Debug, PartialEq, Eq, Structural)]
pub enum SetError {
    /// No node of the requested kind exists, or the anchor or link chain leads nowhere.
    NotFound,
    /// More than one node of the requested kind exists and no anchor was given.
    Ambiguous,
    /// The node found is not of the kind the write needs.
    KindMismatch,
    /// The field to write was never populated in the workflow.
    FieldUnset,
    /// Neither of the two alternatives of a delegating setter succeeded.
    BothFailed,
}

impl SetError {
    pub open spec fn spec_message(self) -> Seq<char> {
        match self {
            SetError::NotFound => "node not found"@,
            SetError::Ambiguous => "more than one candidate node"@,
            SetError::KindMismatch => "node is of another kind"@,
            SetError::FieldUnset => "field is not set"@,
            SetError::BothFailed => "value could not be set on either node kind"@,
        }
    }

    /// A short human-readable description of the failure.
    pub fn message(&self) -> (r: String)
        ensures
            r@ == self.spec_message(),
    {
        match self {
            SetError::NotFound => String::from_str("node not found"),
            SetError::Ambiguous => String::from_str("more than one candidate node"),
            SetError::KindMismatch => String::from_str("node is of another kind"),
            SetError::FieldUnset => String::from_str("field is not set"),
            SetError::BothFailed => String::from_str("value could not be set on either node kind"),
        }
    }
}

} // verus!
