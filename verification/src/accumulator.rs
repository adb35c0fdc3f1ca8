use vstd::prelude::*;

verus! {

/// Collects the gradients of one training cycle, with a count of how many
/// arrived.
pub struct Accumulator<G> {
    pub grs: Vec<G>,
    pub total_collected: u32,
}

impl<G> Accumulator<G> {
    /// The count agrees with the gradients held.
    pub open spec fn wf(&self) -> bool {
        self.grs@.len() == self.total_collected
    }

    /// An empty accumulator.
    pub fn new() -> (r: Accumulator<G>)
        ensures
            r.grs@ == Seq::<G>::empty(),
            r.total_collected == 0,
            r.wf(),
    {
        Accumulator { grs: Vec::new(), total_collected: 0 }
    }

    /// Keeps one more gradient and counts it.
    pub fn add_gradient(&mut self, grad: G)
        requires
            old(self).total_collected < u32::MAX,
        ensures
            final(self).grs@ == old(self).grs@.push(grad),
            final(self).total_collected == old(self).total_collected + 1,
            old(self).wf() ==> final(self).wf(),
    {
        self.grs.push(grad);
        self.total_collected = self.total_collected + 1;
    }

    /// Whether exactly as many gradients arrived as there are workers.
    pub fn is_ready(&self, num_workers: u32) -> (b: bool)
        ensures
            b == (self.total_collected == num_workers),
    {
        self.total_collected == num_workers
    }

    /// Drops every gradient and the count with them.
    pub fn reset(&mut self)
        ensures
            final(self).grs@ == Seq::<G>::empty(),
            final(self).total_collected == 0,
            final(self).wf(),
    {
        self.grs.clear();
        self.total_collected = 0;
    }
}

} // verus!
