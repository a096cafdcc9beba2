//! The transaction status and its state machine.
use vstd::prelude::*;
use crate::text::same_text;

verus! {

/// Where a transaction stands in its lifecycle.
#[derive(Clone, Copy, Debug, PartialEq, Eq, Structural, Hash)]
pub enum TransactionStatus {
    Pending,
    Completed,
    Failed,
    Refunded,
}

/// The transitions that the purchase pipeline makes: a pending record
/// settles exactly once, as completed or as failed.
pub open spec fn pipeline_transition(from: TransactionStatus, to: TransactionStatus) -> bool {
    from is Pending && (to is Completed || to is Failed)
}

/// The transition of the separate refund flow.
pub open spec fn refund_transition(from: TransactionStatus, to: TransactionStatus) -> bool {
    from is Completed && to is Refunded
}

/// The whole transition table.
pub open spec fn can_transition(from: TransactionStatus, to: TransactionStatus) -> bool {
    pipeline_transition(from, to) || refund_transition(from, to)
}

impl TransactionStatus {
    /// No transition of the pipeline leaves a terminal status.
    pub open spec fn terminal(self) -> bool {
        forall|to: TransactionStatus| !#[trigger] pipeline_transition(self, to)
    }

    pub fn is_terminal(&self) -> (r: bool)
        ensures
            r == self.terminal(),
            r == !(*self is Pending),
    {
        match self {
            TransactionStatus::Pending => {
                assert(pipeline_transition(*self, TransactionStatus::Completed));
                false
            },
            _ => true,
        }
    }

    pub fn can_refund(&self) -> (r: bool)
        ensures
            r == refund_transition(*self, TransactionStatus::Refunded),
            r == (*self is Completed),
    {
        match self {
            TransactionStatus::Completed => true,
            _ => false,
        }
    }

    /// The lowercase name under which a status is stored.
    pub open spec fn name(self) -> Seq<char> {
        match self {
            TransactionStatus::Pending => "pending"@,
            TransactionStatus::Completed => "completed"@,
            TransactionStatus::Failed => "failed"@,
            TransactionStatus::Refunded => "refunded"@,
        }
    }

    pub fn as_str(&self) -> (r: &'static str)
        ensures
            r@ == self.name(),
    {
        match self {
            TransactionStatus::Pending => "pending",
            TransactionStatus::Completed => "completed",
            TransactionStatus::Failed => "failed",
            TransactionStatus::Refunded => "refunded",
        }
    }

    /// Reads a stored status name back.
    pub fn from_name(s: &str) -> (r: Option<TransactionStatus>)
        ensures
            r matches Some(st) ==> st.name() == s@,
            r is None ==> forall|st: TransactionStatus| #[trigger] st.name() != s@,
    {
        if same_text(s, "pending") {
            Some(TransactionStatus::Pending)
        } else if same_text(s, "completed") {
            Some(TransactionStatus::Completed)
        } else if same_text(s, "failed") {
            Some(TransactionStatus::Failed)
        } else if same_text(s, "refunded") {
            Some(TransactionStatus::Refunded)
        } else {
            assert forall|st: TransactionStatus| #[trigger] st.name() != s@ by {
                match st {
                    TransactionStatus::Pending => {},
                    TransactionStatus::Completed => {},
                    TransactionStatus::Failed => {},
                    TransactionStatus::Refunded => {},
                }
            }
            None
        }
    }
}

} // verus!
