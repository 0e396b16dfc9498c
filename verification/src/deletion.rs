//! Deleting text around the cursor with repeated key strokes.
use vstd::prelude::*;

verus! {

/// Key strokes that delete text: `before` strokes of one key, then `after`
/// strokes of another.
#[derive(Debug)]
pub struct DeletionPlan<K> {
    /// Key that deletes what stands before the cursor
    pub backspace: K,
    /// How often to stroke it
    pub before: u32,
    /// Key that deletes what stands after the cursor
    pub delete: K,
    /// How often to stroke it
    pub after: u32,
}

impl<K: Copy> DeletionPlan<K> {
    /// The keys to stroke, in order.
    pub open spec fn keys(self) -> Seq<K> {
        Seq::new(self.before as nat, |i: int| self.backspace) + Seq::new(
            self.after as nat,
            |i: int| self.delete,
        )
    }

    /// The key of the stroke at `index`, or `None` behind the last one.
    pub fn key_at(&self, index: u64) -> (r: Option<K>)
        ensures
            r == (if index < self.keys().len() {
                Some(self.keys()[index as int])
            } else {
                None
            }),
            r == (if index < self.before {
                Some(self.backspace)
            } else if index < self.before + self.after {
                Some(self.delete)
            } else {
                None
            }),
    {
        if index < self.before as u64 {
            Some(self.backspace)
        } else if index - (self.before as u64) < self.after as u64 {
            Some(self.delete)
        } else {
            None
        }
    }
}

/// A deletion has as many strokes as there is text to delete: the first `before`
/// are of the backspace key, and the `after` behind them of the delete key.
pub proof fn every_stroke_is_owed<K: Copy>(plan: DeletionPlan<K>)
    ensures
        plan.keys().len() == plan.before + plan.after,
        forall|i: int| 0 <= i < plan.before ==> #[trigger] plan.keys()[i] == plan.backspace,
        forall|i: int|
            plan.before <= i < plan.before + plan.after ==> #[trigger] plan.keys()[i]
                == plan.delete,
{
}

} // verus!
