//! A pull-based producer of pseudorandom byte streams. A producer is created
//! with a target length and fills caller-supplied buffers chunk by chunk until
//! the target is exhausted, so peak memory stays at one chunk regardless of
//! the total requested size.

use rand::rngs::SmallRng;
use rand::Rng;
use rand::SeedableRng;
use vstd::prelude::*;

verus! {

#[verifier::external_type_specification]
#[verifier::external_body]
pub struct ExSmallRng(SmallRng);

/// Relies on rand's `SmallRng::from_rng`, seeded from `thread_rng`: a freshly
/// and independently seeded small generator. Seeding from the thread-local
/// generator does not fail. Nothing is promised of the generator's state.
#[verifier::external_body]
fn fresh_rng() -> SmallRng {
    SmallRng::from_rng(rand::thread_rng()).unwrap()
}

/// Relies on rand's `Rng::fill` on a byte slice: it overwrites exactly the
/// bytes of the slice it is given (here the first `k` of the buffer) and
/// cannot fail. Nothing is promised of the bytes written, which depend on the
/// generator's state.
#[verifier::external_body]
fn rng_fill_prefix(rng: &mut SmallRng, buf: &mut Vec<u8>, k: usize)
    requires
        k <= old(buf)@.len(),
    ensures
        final(buf)@.len() == old(buf)@.len(),
        forall|i: int| k <= i < old(buf)@.len() ==> final(buf)@[i] == old(buf)@[i],
{
    rng.fill(&mut buf[..k]);
}

/// A stateful generator that emits exactly its target length in pseudorandom
/// bytes, across however many buffer-fill calls the transport makes.
pub struct RandomByteProducer {
    remaining: usize,
    rng: SmallRng,
}

impl RandomByteProducer {
    /// Bytes still owed to the stream. It only ever decreases, by exactly the
    /// count each `fill` call reports.
    pub closed spec fn budget(&self) -> usize {
        self.remaining
    }

    /// A producer that will emit exactly `size` pseudorandom bytes, with its
    /// own independently seeded generator.
    pub fn new(size: usize) -> (p: RandomByteProducer)
        ensures
            p.budget() == size,
    {
        RandomByteProducer { remaining: size, rng: fresh_rng() }
    }

    /// Emit the next chunk into `buf`, whose length is the capacity offered
    /// for this call. Exactly `min(budget, capacity)` bytes are written, at
    /// the front of `buf`; the rest of `buf` is left untouched. The budget
    /// drops by the count reported, so a zero report signals end-of-stream:
    /// in particular the first call on a zero-sized producer writes nothing.
    pub fn fill(&mut self, buf: &mut Vec<u8>) -> (written: usize)
        ensures
            written <= old(buf)@.len(),
            written == (if old(self).budget() as nat <= old(buf)@.len() {
                old(self).budget() as nat
            } else {
                old(buf)@.len()
            }),
            final(self).budget() == old(self).budget() - written,
            final(buf)@.len() == old(buf)@.len(),
            forall|i: int| written <= i < old(buf)@.len() ==> final(buf)@[i] == old(buf)@[i],
            old(self).budget() == 0 ==> written == 0 && final(buf)@ == old(buf)@,
    {
        let k: usize = if self.remaining <= buf.len() {
            self.remaining
        } else {
            buf.len()
        };
        rng_fill_prefix(&mut self.rng, buf, k);
        self.remaining = self.remaining - k;
        proof {
            if k == 0 {
                assert(buf@ =~= old(buf)@);
            }
        }
        k
    }
}

/// The total of a sequence of per-call byte counts.
pub open spec fn report_sum(writes: Seq<nat>) -> nat
    decreases writes.len(),
{
    if writes.len() == 0 {
        0
    } else {
        writes[0] + report_sum(writes.drop_first())
    }
}

/// Across successive `fill` calls, the reported byte counts sum to exactly
/// the starting budget, whatever capacity each call offered: `budgets` is the
/// trace of the producer's budget, starting at the requested size, each call
/// dropping it by the count it reports (as `fill` ensures), and the stream is
/// driven until the budget is exhausted.
pub proof fn lemma_fill_reports_sum_to_size(budgets: Seq<nat>, writes: Seq<nat>)
    requires
        budgets.len() == writes.len() + 1,
        budgets.last() == 0,
        forall|i: int|
            0 <= i < writes.len() ==> writes[i] <= budgets[i] && budgets[i + 1] == budgets[i]
                - writes[i],
    ensures
        report_sum(writes) == budgets[0],
    decreases writes.len(),
{
    if writes.len() == 0 {
        assert(budgets[0] == budgets.last());
    } else {
        let budgets2 = budgets.drop_first();
        let writes2 = writes.drop_first();
        assert(budgets2.last() == budgets.last());
        assert forall|i: int| 0 <= i < writes2.len() implies writes2[i] <= budgets2[i]
            && budgets2[i + 1] == budgets2[i] - writes2[i] by {
            assert(writes2[i] == writes[i + 1]);
            assert(budgets2[i] == budgets[i + 1]);
            assert(budgets2[i + 1] == budgets[i + 2]);
        }
        lemma_fill_reports_sum_to_size(budgets2, writes2);
    }
}

} // verus!
