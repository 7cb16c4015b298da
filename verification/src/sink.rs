//! A bounded streaming consumer: it drains an inbound byte stream into a
//! discard sink while counting bytes, stops once a configured cap is reached,
//! and reports one of three terminal outcomes together with the byte count.

use vstd::prelude::*;

verus! {

/// Default upper bound on bytes accepted per upload: 1 GiB.
pub const DEFAULT_BYTE_CAP: usize = 1073741824;

/// The terminal outcome of draining one inbound stream.
///
/// `Complete(n)` means the source ended on its own after `n` bytes, with
/// `n` at or below the cap. `Truncated(cap)` means the cap was reached while
/// the source still had data; the count reported is the cap itself, since no
/// byte past it is counted. `Failed(detail)` means the underlying read failed
/// before either terminal condition, with the error detail preserved.
#[derive(Debug, PartialEq, Eq)]
pub enum ConsumeOutcome {
    Complete(usize),
    Truncated(usize),
    Failed(String),
}

/// A discard sink with a byte budget. It counts bytes pulled from an inbound
/// source, never counting past the configured cap; the bytes themselves are
/// not retained.
pub struct BoundedSink {
    cap: usize,
    count: usize,
    truncated: bool,
}

impl BoundedSink {
    /// The configured cap.
    pub closed spec fn cap(&self) -> usize {
        self.cap
    }

    /// Bytes counted so far; never exceeds the cap.
    pub closed spec fn count(&self) -> usize {
        self.count
    }

    /// Whether the cap was reached while the source still had data.
    pub closed spec fn truncated(&self) -> bool {
        self.truncated
    }

    /// Internal consistency: the count never passes the cap, and a truncated
    /// sink has counted exactly the cap.
    pub open spec fn wf(&self) -> bool {
        self.count() <= self.cap() && (self.truncated() ==> self.count() == self.cap())
    }

    /// A fresh sink that will accept at most `cap` bytes.
    pub fn new(cap: usize) -> (sink: BoundedSink)
        ensures
            sink.wf(),
            sink.cap() == cap,
            sink.count() == 0,
            !sink.truncated(),
    {
        BoundedSink { cap, count: 0, truncated: false }
    }

    /// Record one pulled chunk of `len` bytes. If the chunk would push the
    /// count past the cap, the count stops exactly at the cap and the sink is
    /// marked truncated; the caller must pull nothing further. Returns whether
    /// the caller may keep pulling.
    pub fn accept(&mut self, len: usize) -> (more: bool)
        requires
            old(self).wf(),
            !old(self).truncated(),
        ensures
            final(self).wf(),
            final(self).cap() == old(self).cap(),
            old(self).count() + len > old(self).cap() ==> final(self).truncated()
                && final(self).count() == final(self).cap(),
            old(self).count() + len <= old(self).cap() ==> !final(self).truncated()
                && final(self).count() == old(self).count() + len,
            more == !final(self).truncated(),
    {
        if len > self.cap - self.count {
            self.count = self.cap;
            self.truncated = true;
            false
        } else {
            self.count = self.count + len;
            true
        }
    }

    /// The outcome once the source has ended (or pulling stopped at the cap):
    /// `Truncated(cap)` if the cap cut the stream off, else `Complete(count)`.
    pub fn finish(&self) -> (outcome: ConsumeOutcome)
        requires
            self.wf(),
        ensures
            self.truncated() ==> outcome == ConsumeOutcome::Truncated(self.cap()),
            !self.truncated() ==> outcome == ConsumeOutcome::Complete(self.count()),
    {
        if self.truncated {
            ConsumeOutcome::Truncated(self.cap)
        } else {
            ConsumeOutcome::Complete(self.count)
        }
    }

    /// Drain one inbound stream, given as the chunks it delivers in order and
    /// the terminal event that follows them: end-of-stream if
    /// `terminal_error` is `None`, a read failure with that detail otherwise.
    /// Pulling stops at the cap, so a stream whose chunks pass the cap never
    /// has its later chunks or its terminal event observed.
    pub fn consume(chunks: &Vec<Vec<u8>>, terminal_error: Option<String>, cap: usize) -> (outcome:
        ConsumeOutcome)
        ensures
            outcome == spec_consume(chunks@, terminal_error, cap),
    {
        let mut sink = BoundedSink::new(cap);
        let n: usize = chunks.len();
        let mut i: usize = 0;
        let mut more: bool = true;
        while i < n && more
            invariant
                i <= n,
                n == chunks@.len(),
                sink.wf(),
                sink.cap() == cap,
                more == !sink.truncated(),
                !sink.truncated() ==> sink.count() == total_len(chunks@.take(i as int)),
                sink.truncated() ==> total_len(chunks@.take(i as int)) > cap,
            decreases n - i,
        {
            let clen: usize = chunks[i].len();
            proof {
                lemma_total_len_take_succ(chunks@, i as int);
            }
            more = sink.accept(clen);
            i = i + 1;
        }
        if !more {
            proof {
                lemma_total_len_take_le(chunks@, i as int);
            }
            sink.finish()
        } else {
            proof {
                assert(chunks@.take(n as int) =~= chunks@);
            }
            match terminal_error {
                Option::Some(detail) => ConsumeOutcome::Failed(detail),
                Option::None => sink.finish(),
            }
        }
    }
}

/// The total byte length of a stream's chunks.
pub open spec fn total_len(chunks: Seq<Vec<u8>>) -> nat
    decreases chunks.len(),
{
    if chunks.len() == 0 {
        0
    } else {
        total_len(chunks.drop_last()) + chunks.last()@.len()
    }
}

/// The outcome owed for a stream of the given chunks, terminal event and cap:
/// a stream whose chunks pass the cap is truncated at the cap; otherwise a
/// read failure is reported with its detail, and a clean end of stream is
/// completion with the exact byte count.
pub open spec fn spec_consume(
    chunks: Seq<Vec<u8>>,
    terminal_error: Option<String>,
    cap: usize,
) -> ConsumeOutcome {
    if total_len(chunks) > cap {
        ConsumeOutcome::Truncated(cap)
    } else if terminal_error is Some {
        ConsumeOutcome::Failed(terminal_error->Some_0)
    } else {
        ConsumeOutcome::Complete(total_len(chunks) as usize)
    }
}

/// Taking one more chunk adds exactly that chunk's length to the total.
pub proof fn lemma_total_len_take_succ(chunks: Seq<Vec<u8>>, i: int)
    requires
        0 <= i < chunks.len(),
    ensures
        total_len(chunks.take(i + 1)) == total_len(chunks.take(i)) + chunks[i]@.len(),
{
    assert(chunks.take(i + 1).drop_last() =~= chunks.take(i));
    assert(chunks.take(i + 1).last() == chunks[i]);
}

/// Nothing past the cap is ever observed: once some prefix of the delivered
/// chunks passes the cap, the outcome is settled as `Truncated(cap)`, so two
/// streams that agree on such a prefix get the same outcome however their
/// later chunks or terminal events differ.
pub proof fn lemma_outcome_settled_at_the_cap(
    chunks1: Seq<Vec<u8>>,
    chunks2: Seq<Vec<u8>>,
    terminal_error1: Option<String>,
    terminal_error2: Option<String>,
    cap: usize,
    i: int,
)
    requires
        0 <= i <= chunks1.len(),
        i <= chunks2.len(),
        chunks1.take(i) == chunks2.take(i),
        total_len(chunks1.take(i)) > cap,
    ensures
        spec_consume(chunks1, terminal_error1, cap) == ConsumeOutcome::Truncated(cap),
        spec_consume(chunks2, terminal_error2, cap) == ConsumeOutcome::Truncated(cap),
{
    lemma_total_len_take_le(chunks1, i);
    lemma_total_len_take_le(chunks2, i);
}

/// A prefix of a stream never holds more bytes than the whole stream.
pub proof fn lemma_total_len_take_le(chunks: Seq<Vec<u8>>, i: int)
    requires
        0 <= i <= chunks.len(),
    ensures
        total_len(chunks.take(i)) <= total_len(chunks),
    decreases chunks.len() - i,
{
    if i == chunks.len() {
        assert(chunks.take(i) =~= chunks);
    } else {
        lemma_total_len_take_succ(chunks, i);
        lemma_total_len_take_le(chunks, i + 1);
    }
}

} // verus!
