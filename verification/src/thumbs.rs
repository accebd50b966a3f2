//! Thumbnails of images: where each is cached, whether the cached one is
//! fresh, and the bounded queue of thumbnails waiting to be made.
use vstd::prelude::*;

use crate::pathset::no_repeats;
use crate::paths::path_joined;
use crate::text::{concat, decimal, decimal_text, push_char};
use vstd::string::StringSliceAdditionalSpecFns;

verus! {

/// The size of the thumbnails made and how long they stay fresh.
#[derive(Debug, Clone, Copy, PartialEq, Eq, Structural)]
pub struct ThumbConfig {
    pub thumbnail_size: u32,
    pub cache_lifetime_hrs: u64,
}

/// Whether a thumbnail is there to show.
#[derive(Debug)]
pub enum ThumbStatus {
    Ready(String),
    Generating,
    Unavailable,
}

/// How many thumbnails were queued, started, made, failed, and dropped from
/// a full queue.
#[derive(Debug, Clone, Copy, PartialEq, Eq, Structural)]
pub struct ThumbStats {
    pub queued: u64,
    pub started: u64,
    pub completed: u64,
    pub failed: u64,
    pub dropped: u64,
}

/// A thumbnail to make: from the image at `source` into `output`, known by
/// its cache key.
#[derive(Debug)]
pub struct ThumbJob {
    pub source: String,
    pub output: String,
    pub key: String,
    pub thumbnail_size: u32,
}

/// The most thumbnails that wait at once.
pub const MAX_QUEUE_LEN: usize = 64;

/// The queue of thumbnails to make, those being made, and the counts.
#[derive(Debug)]
pub struct ThumbQueue {
    pub jobs: Vec<ThumbJob>,
    pub in_progress: Vec<String>,
    pub stats: ThumbStats,
}

/// The keys of the waiting jobs.
pub open spec fn job_keys(jobs: Seq<ThumbJob>) -> Seq<String> {
    Seq::new(jobs.len(), |i: int| jobs[i].key)
}

/// What the SHA-256 digest of some bytes is.
pub uninterp spec fn sha256_of(data: Seq<u8>) -> Seq<u8>;

/// `sha2::Sha256::digest`: the digest of the bytes, named by `sha256_of`;
/// SHA-256 digests are 32 bytes long.
#[verifier::external_body]
fn sha256(data: &[u8]) -> (r: Vec<u8>)
    ensures
        r@ == sha256_of(data@),
        r@.len() == 32,
{
    <sha2::Sha256 as sha2::Digest>::digest(data).to_vec()
}

/// The lower-case hexadecimal digit of a value below 16.
pub open spec fn hex_char(d: int) -> char {
    if d < 10 { crate::text::digit_char(d as nat) } else if d == 10 { 'a' } else if d == 11 { 'b' } else if d == 12 { 'c' } else if d == 13 { 'd' } else if d == 14 { 'e' } else { 'f' }
}

/// Bytes in lower-case hexadecimal, two digits each (what `{:x}` writes for
/// a digest).
pub open spec fn hex_of(bytes: Seq<u8>) -> Seq<char>
    decreases bytes.len(),
{
    if bytes.len() == 0 {
        Seq::empty()
    } else {
        hex_of(bytes.drop_last()) + seq![hex_char(bytes.last() as int / 16), hex_char(bytes.last() as int % 16)]
    }
}

fn hex_digit(d: u8) -> (r: char)
    requires
        d < 16,
    ensures
        r == hex_char(d as int),
{
    if d < 10 {
        let s = decimal_text(d as u64);
        let cs = crate::text::chars_of(s.as_str());
        cs[0]
    } else if d == 10 { 'a' } else if d == 11 { 'b' } else if d == 12 { 'c' } else if d == 13 { 'd' } else if d == 14 { 'e' } else { 'f' }
}

fn hex_text(bytes: &Vec<u8>) -> (r: String)
    ensures
        r@ == hex_of(bytes@),
{
    let mut out = String::new();
    let mut i: usize = 0;
    while i < bytes.len()
        invariant
            i <= bytes@.len(),
            out@ == hex_of(bytes@.take(i as int)),
        decreases bytes@.len() - i,
    {
        let b = bytes[i];
        push_char(&mut out, hex_digit(b / 16));
        push_char(&mut out, hex_digit(b % 16));
        i += 1;
        assert(bytes@.take(i as int).drop_last() =~= bytes@.take(i - 1));
    }
    assert(bytes@.take(bytes@.len() as int) =~= bytes@);
    out
}

/// The cache key of an image: the SHA-256 of its path in hexadecimal, `_`,
/// and the time of its last change in seconds.
pub open spec fn cache_key_of(path: Seq<u8>, modified_epoch: u64) -> Seq<char> {
    hex_of(sha256_of(path)) + seq!['_'] + decimal(modified_epoch as nat)
}

pub fn cache_key(path: &str, modified_epoch: u64) -> (r: String)
    ensures
        r@ == cache_key_of(path.spec_bytes(), modified_epoch),
{
    let digest = sha256(path.as_bytes());
    let mut key = hex_text(&digest);
    push_char(&mut key, '_');
    let m = decimal_text(modified_epoch);
    concat(key.as_str(), m.as_str())
}

/// The job that makes the thumbnail of the image at `source` (an absolute
/// path), changed last at `modified_epoch`: cached in `thumbs_dir` as its
/// key with `.png`.
pub fn thumb_job(source: &str, modified_epoch: u64, thumbs_dir: &str, thumbnail_size: u32) -> (r: ThumbJob)
    ensures
        r.source@ == source@,
        r.key@ == cache_key_of(source.spec_bytes(), modified_epoch),
        r.output@ == path_joined(thumbs_dir@, cache_key_of(source.spec_bytes(), modified_epoch) + ".png"@),
        r.thumbnail_size == thumbnail_size,
{
    let key = cache_key(source, modified_epoch);
    let file = concat(key.as_str(), ".png");
    let output = crate::paths::join(thumbs_dir, file.as_str());
    ThumbJob { source: source.to_owned(), output, key, thumbnail_size }
}

/// A cached thumbnail of age `age` (seconds and nanoseconds) is fresh when
/// it is no older than the lifetime; one whose age is unknown is not.
pub open spec fn fresh(age: Option<(u64, u32)>, lifetime_hrs: u64) -> bool {
    let max = if lifetime_hrs as int * 3600 > u64::MAX { u64::MAX as int } else { lifetime_hrs as int * 3600 };
    match age {
        Some((s, n)) => s < max || (s == max && n == 0),
        None => false,
    }
}

pub fn is_fresh(age: Option<(u64, u32)>, lifetime_hrs: u64) -> (r: bool)
    ensures
        r == fresh(age, lifetime_hrs),
{
    let max: u64 = if lifetime_hrs > u64::MAX / 3600 { u64::MAX } else { lifetime_hrs * 3600 };
    match age {
        Some((s, n)) => s < max || (s == max && n == 0),
        None => false,
    }
}

/// The cache cleanup removes a file of the thumbnail directory where it is
/// a PNG (its extension exactly `png`) that is no longer fresh (`age` as in
/// `fresh`).
pub fn cleanup_removes(path: &str, age: Option<(u64, u32)>, lifetime_hrs: u64) -> (r: bool)
    ensures
        r == (crate::paths::path_extension(path@) == Some("png"@) && !fresh(age, lifetime_hrs)),
{
    let png = match crate::paths::extension(path) {
        Some(e) => crate::text::str_eq(e.as_str(), "png"),
        None => false,
    };
    png && !is_fresh(age, lifetime_hrs)
}

impl ThumbQueue {
    /// The invariant: at most 64 jobs wait, no key waits twice or both waits
    /// and is being made, and the counts add up: every queued job was
    /// started, dropped or is waiting, and every started one completed,
    /// failed or is being made.
    pub open spec fn wf(self) -> bool {
        &&& self.jobs@.len() <= MAX_QUEUE_LEN
        &&& no_repeats(job_keys(self.jobs@))
        &&& no_repeats(self.in_progress@)
        &&& forall|i: int, j: int| 0 <= i < self.jobs@.len() && 0 <= j < self.in_progress@.len() ==> (#[trigger] self.jobs@[i]).key@ != (#[trigger] self.in_progress@[j])@
        &&& self.stats.queued == self.stats.started + self.stats.dropped + self.jobs@.len()
        &&& self.stats.started == self.stats.completed + self.stats.failed + self.in_progress@.len()
    }

    pub fn new() -> (r: ThumbQueue)
        ensures
            r.wf(),
            r.jobs@.len() == 0,
            r.in_progress@.len() == 0,
            r.stats == (ThumbStats { queued: 0, started: 0, completed: 0, failed: 0, dropped: 0 }),
    {
        ThumbQueue {
            jobs: Vec::new(),
            in_progress: Vec::new(),
            stats: ThumbStats { queued: 0, started: 0, completed: 0, failed: 0, dropped: 0 },
        }
    }

    /// Queues a job unless its key is waiting or being made already. A full
    /// queue drops its oldest job first. Returns whether it was queued.
    pub fn enqueue(&mut self, job: ThumbJob) -> (queued: bool)
        requires
            old(self).wf(),
            old(self).stats.queued < u64::MAX,
        ensures
            final(self).wf(),
            queued == !is_known(*old(self), job.key@),
            enqueue_outcome(*old(self), *final(self), job),
    {
        let mut i: usize = 0;
        while i < self.jobs.len()
            invariant
                i <= self.jobs@.len(),
                *self == *old(self),
                old(self).wf(),
                forall|k: int| 0 <= k < i ==> (#[trigger] self.jobs@[k]).key@ != job.key@,
            decreases self.jobs@.len() - i,
        {
            if crate::text::str_eq(self.jobs[i].key.as_str(), job.key.as_str()) {
                proof {
                    assert(job_keys(self.jobs@)[i as int]@ == job.key@);
                }
                return false;
            }
            i += 1;
        }
        if crate::pathset::has_text(&self.in_progress, job.key.as_str()) {
            return false;
        }
        proof {
            assert forall|k: int| 0 <= k < job_keys(self.jobs@).len() implies (#[trigger] job_keys(self.jobs@)[k])@ != job.key@ by {
                assert(self.jobs@[k].key@ != job.key@);
            }
        }
        let ghost before = self.jobs@;
        if self.jobs.len() >= MAX_QUEUE_LEN {
            self.jobs.remove(0);
            self.stats.dropped = self.stats.dropped + 1;
            assert(self.jobs@ =~= before.drop_first());
        }
        let ghost mid = self.jobs@;
        self.jobs.push(job);
        self.stats.queued = self.stats.queued + 1;
        proof {
            assert(job_keys(self.jobs@) =~= job_keys(mid).push(self.jobs@.last().key));
            assert forall|k: int, l: int| 0 <= k < l < job_keys(self.jobs@).len() implies (#[trigger] job_keys(self.jobs@)[k])@ != (#[trigger] job_keys(self.jobs@)[l])@ by {
                if l < mid.len() {
                    if before.len() >= MAX_QUEUE_LEN {
                        assert(mid[k] == before[k + 1] && mid[l] == before[l + 1]);
                        assert(job_keys(before)[k + 1]@ != job_keys(before)[l + 1]@);
                    } else {
                        assert(job_keys(before)[k]@ != job_keys(before)[l]@);
                    }
                } else {
                    if before.len() >= MAX_QUEUE_LEN {
                        assert(mid[k] == before[k + 1]);
                        assert(before[k + 1].key@ != job.key@);
                    } else {
                        assert(before[k].key@ != job.key@);
                    }
                }
            }
            assert forall|i: int, j: int| 0 <= i < self.jobs@.len() && 0 <= j < self.in_progress@.len() implies (#[trigger] self.jobs@[i]).key@ != (#[trigger] self.in_progress@[j])@ by {
                if i < mid.len() {
                    if before.len() >= MAX_QUEUE_LEN {
                        assert(mid[i] == before[i + 1]);
                    }
                } else {
                    assert(self.in_progress@[j]@ != job.key@);
                }
            }
        }
        true
    }

    /// A worker takes the oldest waiting job: its key is being made now and
    /// one more is started.
    pub fn take_next(&mut self) -> (r: Option<ThumbJob>)
        requires
            old(self).wf(),
            old(self).stats.started < u64::MAX,
        ensures
            final(self).wf(),
            take_outcome(*old(self), *final(self), r),
    {
        if self.jobs.len() == 0 {
            return None;
        }
        let ghost before = self.jobs@;
        let job = self.jobs.remove(0);
        assert(self.jobs@ =~= before.drop_first());
        self.in_progress.push(job.key.clone());
        self.stats.started = self.stats.started + 1;
        proof {
            assert forall|k: int, l: int| 0 <= k < l < job_keys(self.jobs@).len() implies (#[trigger] job_keys(self.jobs@)[k])@ != (#[trigger] job_keys(self.jobs@)[l])@ by {
                assert(job_keys(before)[k + 1]@ != job_keys(before)[l + 1]@);
            }
            assert forall|k: int, l: int| 0 <= k < l < self.in_progress@.len() implies (#[trigger] self.in_progress@[k])@ != (#[trigger] self.in_progress@[l])@ by {
                if l == self.in_progress@.len() - 1 {
                    assert(before[0].key@ != old(self).in_progress@[k]@);
                }
            }
            assert forall|i: int, j: int| 0 <= i < self.jobs@.len() && 0 <= j < self.in_progress@.len() implies (#[trigger] self.jobs@[i]).key@ != (#[trigger] self.in_progress@[j])@ by {
                assert(self.jobs@[i] == before[i + 1]);
                if j == self.in_progress@.len() - 1 {
                    assert(job_keys(before)[0]@ != job_keys(before)[i + 1]@);
                }
            }
        }
        Some(job)
    }

    /// A worker is done with `key`: it is no longer being made, and one more
    /// completed (`ok`) or failed.
    pub fn finish(&mut self, key: &str, ok: bool)
        requires
            old(self).wf(),
            crate::entries::holds_text(old(self).in_progress@, key@),
        ensures
            final(self).wf(),
            finish_outcome(*old(self), *final(self), key@, ok),
    {
        let ghost before = self.in_progress@;
        crate::pathset::remove_text(&mut self.in_progress, key);
        proof {
            let k = choose|k: int| 0 <= k < before.len() && #[trigger] before[k]@ == key@;
            lemma_remove_one_len(before, self.in_progress@, key@, k);
            assert forall|i: int, j: int| 0 <= i < self.jobs@.len() && 0 <= j < self.in_progress@.len() implies (#[trigger] self.jobs@[i]).key@ != (#[trigger] self.in_progress@[j])@ by {
                assert(crate::entries::holds_text(self.in_progress@, self.in_progress@[j]@));
                assert(crate::entries::holds_text(before, self.in_progress@[j]@));
                let m = choose|m: int| 0 <= m < before.len() && #[trigger] before[m]@ == self.in_progress@[j]@;
            }
        }
        if ok {
            self.stats.completed = self.stats.completed + 1;
        } else {
            self.stats.failed = self.stats.failed + 1;
        }
    }
}

/// Taking one present text out of a list without repeats leaves one fewer.
proof fn lemma_remove_one_len(before: Seq<String>, after: Seq<String>, key: Seq<char>, k: int)
    requires
        no_repeats(before),
        no_repeats(after),
        0 <= k < before.len(),
        before[k]@ == key,
        forall|q: Seq<char>| #[trigger] crate::entries::holds_text(after, q) == (crate::entries::holds_text(before, q) && q != key),
    ensures
        after.len() + 1 == before.len(),
{
    let vb = Seq::new(before.len(), |i: int| before[i]@);
    let va = Seq::new(after.len(), |i: int| after[i]@);
    assert(vb.no_duplicates()) by {
        assert forall|i: int, j: int| 0 <= i < vb.len() && 0 <= j < vb.len() && i != j implies vb[i] != vb[j] by {
            if i < j { assert(before[i]@ != before[j]@); } else { assert(before[j]@ != before[i]@); }
        }
    }
    assert(va.no_duplicates()) by {
        assert forall|i: int, j: int| 0 <= i < va.len() && 0 <= j < va.len() && i != j implies va[i] != va[j] by {
            if i < j { assert(after[i]@ != after[j]@); } else { assert(after[j]@ != after[i]@); }
        }
    }
    assert(va.to_set() =~= vb.to_set().remove(key)) by {
        assert forall|q: Seq<char>| va.to_set().contains(q) <==> vb.to_set().remove(key).contains(q) by {
            if va.to_set().contains(q) {
                let i = choose|i: int| 0 <= i < va.len() && va[i] == q;
                assert(crate::entries::holds_text(after, q));
                assert(crate::entries::holds_text(before, q));
                let m = choose|m: int| 0 <= m < before.len() && #[trigger] before[m]@ == q;
                assert(vb[m] == q);
            }
            if vb.to_set().remove(key).contains(q) {
                let i = choose|i: int| 0 <= i < vb.len() && vb[i] == q;
                assert(crate::entries::holds_text(before, q));
                assert(crate::entries::holds_text(after, q));
                let m = choose|m: int| 0 <= m < after.len() && #[trigger] after[m]@ == q;
                assert(va[m] == q);
            }
        }
    }
    vb.unique_seq_to_set();
    va.unique_seq_to_set();
    assert(vb.to_set().contains(key)) by {
        assert(vb[k] == key);
    }
}

/// Whether a job with key `key` waits or is being made.
pub open spec fn is_known(q: ThumbQueue, key: Seq<char>) -> bool {
    crate::entries::holds_text(job_keys(q.jobs@), key) || crate::entries::holds_text(q.in_progress@, key)
}

/// What queueing `job` does: nothing where its key is known; else the job
/// goes last, the oldest waiting job is dropped (and counted) only where
/// the queue is full, the other jobs stay, and one more is queued.
pub open spec fn enqueue_outcome(pre: ThumbQueue, post: ThumbQueue, job: ThumbJob) -> bool {
    if is_known(pre, job.key@) {
        post == pre
    } else {
        let full = pre.jobs@.len() >= MAX_QUEUE_LEN;
        &&& post.jobs@ == (if full { pre.jobs@.drop_first() } else { pre.jobs@ }).push(job)
        &&& post.in_progress == pre.in_progress
        &&& post.stats == (ThumbStats {
            queued: (pre.stats.queued + 1) as u64,
            dropped: if full { (pre.stats.dropped + 1) as u64 } else { pre.stats.dropped },
            ..pre.stats
        })
    }
}

/// What a worker's taking the next job does: nothing on an empty queue;
/// else the oldest job is handed out, its key is being made, and one more
/// is started.
pub open spec fn take_outcome(pre: ThumbQueue, post: ThumbQueue, r: Option<ThumbJob>) -> bool {
    if pre.jobs@.len() == 0 {
        r is None && post == pre
    } else {
        &&& r == Some(pre.jobs@[0])
        &&& post.jobs@ == pre.jobs@.drop_first()
        &&& post.in_progress@ == pre.in_progress@.push(pre.jobs@[0].key)
        &&& post.stats == (ThumbStats { started: (pre.stats.started + 1) as u64, ..pre.stats })
    }
}

/// What finishing `key` does: it is no longer being made, and one more
/// completed (`ok`) or failed.
pub open spec fn finish_outcome(pre: ThumbQueue, post: ThumbQueue, key: Seq<char>, ok: bool) -> bool {
    &&& post.jobs == pre.jobs
    &&& forall|q: Seq<char>| #[trigger] crate::entries::holds_text(post.in_progress@, q) == (crate::entries::holds_text(pre.in_progress@, q) && q != key)
    &&& post.stats == if ok {
        ThumbStats { completed: (pre.stats.completed + 1) as u64, ..pre.stats }
    } else {
        ThumbStats { failed: (pre.stats.failed + 1) as u64, ..pre.stats }
    }
}

/// One operation on a well-formed queue, called as its `requires` allow:
/// queueing a job, taking the next one, or finishing one being made.
pub open spec fn queue_step(pre: ThumbQueue, post: ThumbQueue) -> bool {
    &&& pre.wf()
    &&& {
        ||| pre.stats.queued < u64::MAX && exists|job: ThumbJob| #[trigger] enqueue_outcome(pre, post, job)
        ||| pre.stats.started < u64::MAX && exists|r: Option<ThumbJob>| #[trigger] take_outcome(pre, post, r)
        ||| exists|key: Seq<char>, ok: bool| crate::entries::holds_text(pre.in_progress@, key) && #[trigger] finish_outcome(pre, post, key, ok)
    }
}

/// No count is lower in `b` than in `a`.
pub open spec fn stats_le(a: ThumbStats, b: ThumbStats) -> bool {
    &&& a.queued <= b.queued
    &&& a.started <= b.started
    &&& a.completed <= b.completed
    &&& a.failed <= b.failed
    &&& a.dropped <= b.dropped
}

proof fn lemma_step_stats(pre: ThumbQueue, post: ThumbQueue)
    requires
        queue_step(pre, post),
    ensures
        stats_le(pre.stats, post.stats),
{
    if pre.stats.queued < u64::MAX && exists|job: ThumbJob| #[trigger] enqueue_outcome(pre, post, job) {
        let job = choose|job: ThumbJob| #[trigger] enqueue_outcome(pre, post, job);
        if !is_known(pre, job.key@) {
            // the dropped count is at most the queued one, which is below the limit
            assert(pre.stats.dropped < u64::MAX);
        }
    } else if pre.stats.started < u64::MAX && exists|r: Option<ThumbJob>| #[trigger] take_outcome(pre, post, r) {
        let r = choose|r: Option<ThumbJob>| #[trigger] take_outcome(pre, post, r);
    } else {
        let (key, ok) = choose|key: Seq<char>, ok: bool| crate::entries::holds_text(pre.in_progress@, key) && #[trigger] finish_outcome(pre, post, key, ok);
        assert(pre.in_progress@.len() > 0);
    }
}

/// The thumbnail counts never fall: over any run of queue operations, each
/// count at the end is at least what it was at the start.
pub proof fn lemma_counters_never_fall(states: Seq<ThumbQueue>)
    requires
        states.len() > 0,
        forall|i: int| 0 <= i < states.len() - 1 ==> #[trigger] queue_step(states[i], states[i + 1]),
    ensures
        stats_le(states[0].stats, states.last().stats),
    decreases states.len(),
{
    if states.len() > 1 {
        let front = states.drop_last();
        assert forall|i: int| 0 <= i < front.len() - 1 implies #[trigger] queue_step(front[i], front[i + 1]) by {
            assert(queue_step(states[i], states[i + 1]));
        }
        lemma_counters_never_fall(front);
        let i = states.len() - 2;
        assert(queue_step(states[i], states[i + 1]));
        lemma_step_stats(states[i], states[i + 1]);
        assert(front.last() == states[i]);
    }
}

/// A snapshot of the counts.
pub fn stats_snapshot(queue: &ThumbQueue) -> (r: ThumbStats)
    ensures
        r == queue.stats,
{
    queue.stats
}

/// Whether the thumbnail of an image is there: unavailable where the image
/// could not be placed (its absolute path, time or the cache directory
/// unknown: no job); ready at its cached path where that is fresh (`age` is
/// the cached file's age, `None` where there is none); else its job is
/// queued (unless it waits or is being made already) and it is being made.
pub fn thumbnail_status(job: Option<ThumbJob>, age: Option<(u64, u32)>, cfg: ThumbConfig, queue: &mut ThumbQueue) -> (r: ThumbStatus)
    requires
        old(queue).wf(),
        old(queue).stats.queued < u64::MAX,
    ensures
        final(queue).wf(),
        match job {
            None => r is Unavailable && *final(queue) == *old(queue),
            Some(j) => if fresh(age, cfg.cache_lifetime_hrs) {
                r == ThumbStatus::Ready(j.output) && *final(queue) == *old(queue)
            } else {
                &&& r is Generating
                &&& enqueue_outcome(*old(queue), *final(queue), j)
            },
        },
{
    let j = match job {
        None => return ThumbStatus::Unavailable,
        Some(j) => j,
    };
    if is_fresh(age, cfg.cache_lifetime_hrs) {
        return ThumbStatus::Ready(j.output);
    }
    let _ = queue.enqueue(j);
    ThumbStatus::Generating
}

} // verus!
