//! Compute passes: an ordered list of dispatches.

use crate::command_encoder::{CommandEncoder, Pass};
use crate::dispatch::{Dispatch, DispatchView};
use vstd::prelude::*;

verus! {

/// Records a compute pass: while open it accumulates dispatches; finishing
/// it appends one compute pass record to the owning encoder.
pub struct ComputePass {
    pub(crate) label: Option<String>,
    pub(crate) dispatches: Vec<Dispatch>,
}

impl ComputePass {
    /// The label this pass was opened with.
    pub closed spec fn spec_label(&self) -> Option<Seq<char>> {
        match self.label {
            Some(l) => Some(l@),
            None => None,
        }
    }

    /// The dispatches pushed so far, in push order.
    pub closed spec fn spec_dispatches(&self) -> Seq<DispatchView> {
        self.dispatches@.map_values(|d: Dispatch| d@)
    }

    /// A new pass with no dispatches.
    pub(crate) fn new(label: Option<&str>) -> (r: Self)
        ensures
            r.spec_dispatches() == Seq::<DispatchView>::empty(),
            r.spec_label() == (match label {
                Some(l) => Some(l@),
                None => None::<Seq<char>>,
            }),
    {
        let label_owned: Option<String> = match label {
            Some(l) => Some(l.to_owned()),
            None => None,
        };
        let r = ComputePass { label: label_owned, dispatches: Vec::new() };
        proof {
            assert(r.spec_dispatches() =~= Seq::<DispatchView>::empty());
        }
        r
    }

    /// Record a compute operation.  Dispatches execute in push order.
    pub fn dispatch(&mut self, dispatch: Dispatch)
        ensures
            final(self).spec_dispatches() == old(self).spec_dispatches().push(dispatch@),
            final(self).spec_label() == old(self).spec_label(),
    {
        let ghost pre = self.dispatches@;
        let ghost dv = dispatch@;
        self.dispatches.push(dispatch);
        proof {
            assert(self.spec_dispatches() =~= pre.map_values(|d: Dispatch| d@).push(dv));
        }
    }

    /// Finish the pass, appending its record — the label and the
    /// accumulated dispatches, in push order — to the owning encoder.
    pub fn finish(self, encoder: &mut CommandEncoder)
        ensures
            final(encoder).spec_passes() == old(encoder).spec_passes().push(
                crate::command_encoder::PassView::Compute(
                    self.spec_label(),
                    self.spec_dispatches(),
                ),
            ),
            final(encoder).spec_label() == old(encoder).spec_label(),
    {
        let ComputePass { label, dispatches } = self;
        encoder.push_pass(Pass::Compute(label, dispatches));
    }
}

} // verus!
