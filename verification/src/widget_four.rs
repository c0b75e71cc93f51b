//! The sample-chart panel: display-only, self-driving. It keeps a sliding
//! window of bounded samples; each render step drops the oldest sample and
//! appends a fresh random one, so two consecutive renders show different
//! data. The random draw comes from the outside generator behind trusted
//! wrappers; everything around it is verified for every possible sample.

use vstd::prelude::*;

use rand::Rng;

verus! {

/// How many samples the sliding window holds.
pub const SAMPLE_WINDOW: usize = 30;

/// Samples are drawn below this bound.
pub const SAMPLE_BOUND: u64 = 100;

#[verifier::external_type_specification]
#[verifier::external_body]
pub struct ExThreadRng(rand::rngs::ThreadRng);

/// Relies on rand::thread_rng: a handle to the thread-local random
/// generator. Nothing is promised of it.
#[verifier::external_body]
fn rng_handle() -> rand::rngs::ThreadRng {
    rand::thread_rng()
}

/// Relies on rand::Rng::gen_range on a half-open u64 range: it returns a
/// sample inside the range and panics only when the range is empty, which
/// the precondition rules out. Nothing is promised about which value comes
/// back beyond its bounds.
#[verifier::external_body]
fn gen_range_u64(rng: &mut rand::rngs::ThreadRng, low: u64, high: u64) -> (r: u64)
    requires
        low < high,
    ensures
        low <= r < high,
{
    rng.gen_range(low..high)
}

/// The sample-chart panel.
pub struct WidgetFour {
    data: Vec<u64>,
}

impl WidgetFour {
    /// The displayed samples, oldest first.
    pub closed spec fn data_spec(&self) -> Seq<u64> {
        self.data@
    }

    /// Well-formed: the window always holds exactly its capacity.
    pub open spec fn wf(&self) -> bool {
        self.data_spec().len() == SAMPLE_WINDOW
    }

    /// A fresh chart: a window full of zero samples.
    pub fn new() -> (r: WidgetFour)
        ensures
            r.wf(),
            forall|i: int| 0 <= i < r.data_spec().len() ==> r.data_spec()[i] == 0,
    {
        WidgetFour { data: vec![0u64; SAMPLE_WINDOW] }
    }

    /// The displayed samples, for the render step.
    pub fn data(&self) -> (r: &Vec<u64>)
        ensures
            r@ == self.data_spec(),
    {
        &self.data
    }

    /// Slides the window: the oldest sample leaves at the front and the new
    /// one enters at the back.
    pub fn push_sample(&mut self, sample: u64)
        requires
            old(self).wf(),
        ensures
            final(self).wf(),
            final(self).data_spec() == old(self).data_spec().drop_first().push(sample),
    {
        self.data.remove(0);
        self.data.push(sample);
        proof {
            assert(self.data@ =~= old(self).data_spec().drop_first().push(sample));
        }
    }

    /// One render step: draws a random sample below the bound and slides it
    /// into the window. Whatever the generator returns, the window keeps its
    /// length, the older samples shift left one place, and the newest entry
    /// stays under the bound.
    pub fn render_step(&mut self)
        requires
            old(self).wf(),
        ensures
            final(self).wf(),
            final(self).data_spec() == old(self).data_spec().drop_first().push(
                final(self).data_spec().last(),
            ),
            final(self).data_spec().last() < SAMPLE_BOUND,
    {
        let mut rng = rng_handle();
        let sample = gen_range_u64(&mut rng, 0, SAMPLE_BOUND);
        self.push_sample(sample);
    }
}

} // verus!
