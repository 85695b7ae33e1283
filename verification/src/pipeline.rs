//! Load-pipeline state: the generation token that identifies one
//! scan-and-load cycle, the remaining batch queue, and the per-message
//! decisions of the decode workers and the single preview consumer.
//! The worker pool, the channel and the scheduler live with the caller;
//! every decision they take is a function here.

use vstd::prelude::*;
use crate::scanner::{views_of, MediaEntry};

verus! {

/// Most messages the consumer renders in one scheduling tick.
pub const TICK_LIMIT: usize = 10;

/// One message from a decode worker to the preview consumer: which load
/// cycle produced it, the file it previews, and the decoded-texture handle.
pub struct PreviewMessage {
    pub generation: u64,
    pub path: String,
    pub handle: u64,
}

impl View for PreviewMessage {
    type V = (u64, Seq<char>, u64);

    open spec fn view(&self) -> (u64, Seq<char>, u64) {
        (self.generation, self.path@, self.handle)
    }
}

/// What a decode worker does with one queue entry.
#[derive(PartialEq, Eq, Structural, Debug)]
pub enum WorkerStep {
    /// The generation was superseded: stop without decoding.
    Abort,
    /// The entry is animated and the active backend cannot play it.
    Skip,
    /// Decode through the cache and send the preview message.
    Decode,
}

/// The pipeline state owned by the folder view.
pub struct ImageLoader {
    pub current_folder: Option<String>,
    pub generation: u64,
    pub queue: Vec<MediaEntry>,
}

impl ImageLoader {
    /// A message belongs to the live load cycle.
    pub open spec fn live(&self, generation: u64) -> bool {
        generation == self.generation
    }

    pub fn new() -> (r: ImageLoader)
        ensures
            r.current_folder is None,
            r.generation == 0,
            r.queue@.len() == 0,
    {
        ImageLoader { current_folder: None, generation: 0, queue: Vec::new() }
    }

    /// Begins a new load cycle for `folder` with the scanned `queue`:
    /// the previous cycle's token is invalidated, and the returned token
    /// is the only live one.
    pub fn start_load(&mut self, folder: String, queue: Vec<MediaEntry>) -> (generation: u64)
        requires
            old(self).generation < u64::MAX,
        ensures
            final(self).generation == old(self).generation + 1,
            generation == final(self).generation,
            !final(self).live(old(self).generation),
            final(self).current_folder == Some(folder),
            final(self).queue == queue,
    {
        self.generation = self.generation + 1;
        self.current_folder = Some(folder);
        self.queue = queue;
        self.generation
    }

    /// Invalidates the live cycle (the consumer vanished, or the view is
    /// shutting down) without starting a new one.
    pub fn cancel(&mut self)
        requires
            old(self).generation < u64::MAX,
        ensures
            final(self).generation == old(self).generation + 1,
            !final(self).live(old(self).generation),
            final(self).current_folder == old(self).current_folder,
            final(self).queue == old(self).queue,
    {
        self.generation = self.generation + 1;
    }

    /// The token `generation` still names the live cycle.
    pub fn is_live(&self, generation: u64) -> (r: bool)
        ensures
            r == self.live(generation),
    {
        generation == self.generation
    }

    /// Takes the next up-to-`n` entries of the remaining queue, for the
    /// on-demand variant that decodes a batch at a time.
    pub fn next_batch(&mut self, n: usize) -> (r: Vec<MediaEntry>)
        ensures
            final(self).generation == old(self).generation,
            final(self).current_folder == old(self).current_folder,
            r@.len() == vstd::math::min(n as int, old(self).queue@.len() as int),
            r@ == old(self).queue@.take(r@.len() as int),
            final(self).queue@ == old(self).queue@.skip(r@.len() as int),
    {
        let take: usize = if n < self.queue.len() {
            n
        } else {
            self.queue.len()
        };
        let mut out: Vec<MediaEntry> = Vec::new();
        let mut i: usize = 0;
        while i < take
            invariant
                take <= old(self).queue@.len(),
                i <= take,
                self.generation == old(self).generation,
                self.current_folder == old(self).current_folder,
                out@ == old(self).queue@.take(i as int),
                self.queue@ == old(self).queue@.skip(i as int),
            decreases take - i,
        {
            let e: MediaEntry = self.queue.remove(0);
            out.push(e);
            proof {
                assert(out@ =~= old(self).queue@.take(i + 1));
                assert(self.queue@ =~= old(self).queue@.skip(i + 1));
            }
            i = i + 1;
        }
        out
    }
}

/// What a worker does for one entry: abort once superseded, skip animated
/// entries the backend cannot show, decode everything else.
pub fn worker_step(cancelled: bool, entry: &MediaEntry, backend_animated: bool) -> (r: WorkerStep)
    ensures
        cancelled ==> r == WorkerStep::Abort,
        !cancelled && entry.animated && !backend_animated ==> r == WorkerStep::Skip,
        !cancelled && (!entry.animated || backend_animated) ==> r == WorkerStep::Decode,
{
    if cancelled {
        WorkerStep::Abort
    } else if entry.animated && !backend_animated {
        WorkerStep::Skip
    } else {
        WorkerStep::Decode
    }
}

/// The consumer renders a message only when it carries the live token.
pub fn should_render(current_generation: u64, message_generation: u64) -> (r: bool)
    ensures
        r == (message_generation == current_generation),
{
    message_generation == current_generation
}

/// The messages of a batch that carry the live token, in batch order.
pub open spec fn renders_spec(batch: Seq<(u64, Seq<char>, u64)>, generation: u64) -> Seq<
    (u64, Seq<char>, u64),
>
    decreases batch.len(),
{
    if batch.len() == 0 {
        Seq::empty()
    } else {
        let prefix = renders_spec(batch.drop_last(), generation);
        if batch.last().0 == generation {
            prefix.push(batch.last())
        } else {
            prefix
        }
    }
}

/// Filters one tick's worth of messages down to those the consumer may
/// render.
pub fn select_renders(current_generation: u64, batch: Vec<PreviewMessage>) -> (r: Vec<
    PreviewMessage,
>)
    ensures
        views_of(r@) == renders_spec(views_of(batch@), current_generation),
        forall|k: int| 0 <= k < r@.len() ==> (#[trigger] r@[k]).generation == current_generation,
{
    let n: usize = batch.len();
    let mut out: Vec<PreviewMessage> = Vec::new();
    let mut i: usize = 0;
    proof {
        assert(views_of(out@) =~= renders_spec(views_of(batch@).take(0), current_generation));
    }
    let mut rest: Vec<PreviewMessage> = batch;
    let ghost all = views_of(rest@);
    let mut taken: usize = 0;
    while taken < n
        invariant
            n == all.len(),
            taken <= n,
            rest@.len() == n - taken,
            views_of(rest@) == all.skip(taken as int),
            views_of(out@) == renders_spec(all.take(taken as int), current_generation),
            forall|k: int|
                0 <= k < out@.len() ==> (#[trigger] out@[k]).generation == current_generation,
        decreases n - taken,
    {
        let ghost prev = rest@;
        let m: PreviewMessage = rest.remove(0);
        proof {
            assert(rest@ =~= prev.drop_first());
            assert forall|j: int| 0 <= j < rest@.len() implies views_of(rest@)[j] == all.skip(
                taken + 1,
            )[j] by {
                assert(views_of(rest@)[j] == rest@[j]@);
                assert(rest@[j] == prev[j + 1]);
                assert(views_of(prev)[j + 1] == all.skip(taken as int)[j + 1]);
            }
            assert(views_of(rest@) =~= all.skip(taken + 1));
            assert(m@ == views_of(prev)[0]);
            assert(m@ == all[taken as int]);
            assert(all.take(taken + 1).drop_last() =~= all.take(taken as int));
            assert(all.take(taken + 1).last() == all[taken as int]);
        }
        if should_render(current_generation, m.generation) {
            out.push(m);
            proof {
                assert(views_of(out@) =~= views_of(out@.drop_last()).push(all[taken as int]));
            }
        }
        taken = taken + 1;
        proof {
            assert(views_of(out@) =~= renders_spec(all.take(taken as int), current_generation));
        }
    }
    proof {
        assert(all.take(n as int) =~= all);
    }
    out
}

/// Cancellation: every message of a superseded load cycle is dropped.
/// Starting a load hands out a token different from every earlier one
/// (`start_load` bumps the counter), so once load B has started, a batch
/// produced entirely by load A renders nothing.
pub proof fn lemma_cancellation(
    batch: Seq<(u64, Seq<char>, u64)>,
    stale: u64,
    live_generation: u64,
)
    requires
        stale != live_generation,
        forall|k: int| 0 <= k < batch.len() ==> (#[trigger] batch[k]).0 == stale,
    ensures
        renders_spec(batch, live_generation) == Seq::<(u64, Seq<char>, u64)>::empty(),
    decreases batch.len(),
{
    if batch.len() > 0 {
        lemma_cancellation(batch.drop_last(), stale, live_generation);
    }
}

} // verus!
