use vstd::prelude::*;
use crate::partition::{part_start, part_end, partition_range, lemma_partition_complete, owner_of, in_part};

verus! {

/// The Keccak-256 digest of `seed` followed by the little-endian bytes of `nonce`.
pub uninterp spec fn keccak_digest(seed: Seq<u8>, nonce: u64) -> Seq<u8>;

/// Relies on solana_sdk::keccak::hashv: hashes the seed and the nonce's
/// little-endian bytes as one message into a 32-byte digest.
#[verifier::external_body]
fn hash_nonce(seed: &Vec<u8>, nonce: u64) -> (r: Vec<u8>)
    ensures
        r@ == keccak_digest(seed@, nonce),
        r@.len() == 32,
{
    solana_sdk::keccak::hashv(&[seed.as_slice(), &nonce.to_le_bytes()]).to_bytes().to_vec()
}

/// Leading zero bits of one byte.
pub open spec fn byte_zero_bits(b: u8) -> nat {
    if b >= 128 {
        0
    } else if b >= 64 {
        1
    } else if b >= 32 {
        2
    } else if b >= 16 {
        3
    } else if b >= 8 {
        4
    } else if b >= 4 {
        5
    } else if b >= 2 {
        6
    } else if b >= 1 {
        7
    } else {
        8
    }
}

/// Difficulty score of a digest: the number of leading zero bits.
pub open spec fn leading_zero_bits(d: Seq<u8>) -> nat
    decreases d.len(),
{
    if d.len() == 0 {
        0
    } else if d[0] == 0 {
        8 + leading_zero_bits(d.drop_first())
    } else {
        byte_zero_bits(d[0])
    }
}

/// Difficulty that `nonce` achieves against `seed`.
pub open spec fn nonce_difficulty(seed: Seq<u8>, nonce: u64) -> nat {
    leading_zero_bits(keccak_digest(seed, nonce))
}

fn byte_zeros(b: u8) -> (r: u32)
    ensures
        r == byte_zero_bits(b),
{
    if b >= 128 {
        0
    } else if b >= 64 {
        1
    } else if b >= 32 {
        2
    } else if b >= 16 {
        3
    } else if b >= 8 {
        4
    } else if b >= 4 {
        5
    } else if b >= 2 {
        6
    } else if b >= 1 {
        7
    } else {
        8
    }
}

/// Difficulty score of `digest`: its number of leading zero bits.
pub fn difficulty(digest: &Vec<u8>) -> (r: u32)
    requires
        digest@.len() <= 0x1000_0000,
    ensures
        r == leading_zero_bits(digest@),
{
    let n = digest.len();
    let mut i: usize = 0;
    let mut count: u32 = 0;
    assert(digest@.subrange(0, n as int) =~= digest@);
    while i < n && digest[i] == 0
        invariant
            n == digest@.len() <= 0x1000_0000,
            i <= n,
            count == 8 * i,
            leading_zero_bits(digest@) == count + leading_zero_bits(digest@.subrange(i as int, n as int)),
        decreases n - i,
    {
        let ghost rest = digest@.subrange(i as int, n as int);
        assert(rest.drop_first() =~= digest@.subrange(i + 1, n as int));
        i = i + 1;
        count = count + 8;
    }
    let ghost rest = digest@.subrange(i as int, n as int);
    if i < n {
        assert(rest[0] == digest@[i as int]);
        count + byte_zeros(digest[i])
    } else {
        assert(rest.len() == 0);
        count
    }
}

/// A nonce together with the digest it produced and the difficulty it achieved.
pub struct Candidate {
    pub nonce: u64,
    pub difficulty: u32,
    pub digest: Vec<u8>,
}

impl Candidate {
    /// The digest and the difficulty are those of `nonce` against `seed`.
    pub open spec fn valid(&self, seed: Seq<u8>) -> bool {
        &&& self.digest@ == keccak_digest(seed, self.nonce)
        &&& self.difficulty == leading_zero_bits(self.digest@)
    }

    /// `self` scores at least as high as every nonce in `[lo, hi)`, and among
    /// those of equal score it has the lowest nonce.
    pub open spec fn beats_range(&self, seed: Seq<u8>, lo: nat, hi: nat) -> bool {
        forall|x: u64|
            lo <= x < hi ==> {
                &&& #[trigger] nonce_difficulty(seed, x) <= self.difficulty
                &&& nonce_difficulty(seed, x) == self.difficulty ==> self.nonce <= x
            }
    }

    /// `self` is to be preferred over `other`: higher score, or equal score
    /// and a nonce no greater.
    pub open spec fn preferred_to(&self, other: &Candidate) -> bool {
        self.difficulty > other.difficulty || (self.difficulty == other.difficulty
            && self.nonce <= other.nonce)
    }
}

/// Evaluates `nonce` against `seed`.
pub fn evaluate(seed: &Vec<u8>, nonce: u64) -> (r: Candidate)
    ensures
        r.nonce == nonce,
        r.valid(seed@),
        r.difficulty == nonce_difficulty(seed@, nonce),
{
    let digest = hash_nonce(seed, nonce);
    let d = difficulty(&digest);
    Candidate { nonce, difficulty: d, digest }
}

/// One worker's progress through its partition `[start, end)`.
pub struct WorkerState {
    pub start: u64,
    pub next: u64,
    pub end: u64,
    pub target: u32,
    pub best: Option<Candidate>,
}

impl WorkerState {
    /// Nonces `[start, next)` have been evaluated, and `best` is the best of them.
    pub open spec fn wf(&self, seed: Seq<u8>) -> bool {
        &&& self.start <= self.next <= self.end
        &&& (self.best is None <==> self.next == self.start)
        &&& match self.best {
            Some(c) => {
                &&& c.valid(seed)
                &&& self.start <= c.nonce < self.next
                &&& c.beats_range(seed, self.start as nat, self.next as nat)
            },
            None => true,
        }
    }

    /// The best candidate so far reaches the target.
    pub open spec fn reached(&self) -> bool {
        match self.best {
            Some(c) => c.difficulty >= self.target,
            None => false,
        }
    }

    /// A worker that has evaluated nothing of `[start, end)` yet.
    pub fn new(start: u64, end: u64, target: u32) -> (r: WorkerState)
        requires
            start <= end,
        ensures
            r.start == start,
            r.next == start,
            r.end == end,
            r.target == target,
            r.best is None,
    {
        WorkerState { start, next: start, end, target, best: None }
    }

    /// Whether the best candidate so far reaches the target.
    pub fn target_reached(&self) -> (r: bool)
        ensures
            r == self.reached(),
    {
        match &self.best {
            Some(c) => c.difficulty >= self.target,
            None => false,
        }
    }

    /// Evaluates the next batch of at most `batch` nonces (fewer where the
    /// partition ends first) and returns whether the target has been reached.
    /// A worker that checks for cancellation between batches therefore does at
    /// most `batch` evaluations after cancellation is signalled.
    pub fn scan_batch(&mut self, seed: &Vec<u8>, batch: u64) -> (found: bool)
        requires
            old(self).wf(seed@),
        ensures
            final(self).wf(seed@),
            final(self).start == old(self).start,
            final(self).end == old(self).end,
            final(self).target == old(self).target,
            final(self).next == if old(self).end - old(self).next <= batch {
                old(self).end as int
            } else {
                old(self).next + batch
            },
            final(self).next - old(self).next <= batch,
            found == final(self).reached(),
    {
        let stop = if self.end - self.next <= batch {
            self.end
        } else {
            self.next + batch
        };
        while self.next < stop
            invariant
                self.wf(seed@),
                self.start == old(self).start,
                self.end == old(self).end,
                self.target == old(self).target,
                old(self).next <= self.next <= stop <= self.end,
            decreases stop - self.next,
        {
            let x = self.next;
            let c = evaluate(seed, x);
            let take = match &self.best {
                Some(b) => c.difficulty > b.difficulty,
                None => true,
            };
            if take {
                self.best = Some(c);
            }
            self.next = x + 1;
            assert(match self.best {
                Some(b) => b.beats_range(seed@, self.start as nat, self.next as nat),
                None => false,
            }) by {
                let b = self.best.unwrap();
                assert forall|y: u64| self.start <= y < self.next implies {
                    &&& #[trigger] nonce_difficulty(seed@, y) <= b.difficulty
                    &&& nonce_difficulty(seed@, y) == b.difficulty ==> b.nonce <= y
                } by {}
            }
        }
        self.target_reached()
    }

    /// Number of nonces evaluated so far.
    pub fn evaluated(&self) -> (r: u64)
        requires
            self.start <= self.next,
        ensures
            r == self.next - self.start,
    {
        self.next - self.start
    }

    /// Whether the worker should scan another batch, given the shared signals.
    pub fn keep_scanning(&self, cancelled: bool, past_deadline: bool, sibling_found: bool) -> (r: bool)
        ensures
            r == (!cancelled && !past_deadline && !sibling_found && self.next < self.end
                && !self.reached()),
    {
        !cancelled && !past_deadline && !sibling_found && self.next < self.end && !self.target_reached()
    }
}

/// Hashes per second over a run of `elapsed_secs` seconds, a run shorter than
/// a second counting as one.
pub fn hash_rate(hashes: u64, elapsed_secs: u64) -> (r: u64)
    ensures
        r == hashes / (if elapsed_secs == 0 { 1 } else { elapsed_secs }),
{
    if elapsed_secs == 0 {
        hashes
    } else {
        hashes / elapsed_secs
    }
}

/// What a search returns: the best candidate found, and whether it meets the target.
pub struct SearchOutcome {
    pub best: Option<Candidate>,
    pub met: bool,
}

/// Searches `[0, total)`, split into `thread_count` partitions that are each
/// scanned in batches of `batch` nonces, and stops at the first partition whose
/// best candidate reaches `target`. Best effort: where no nonce reaches the
/// target the highest-scoring one comes back (lowest nonce on ties), and
/// `met` says which of the two happened.
pub fn search(seed: &Vec<u8>, total: u64, thread_count: u64, target: u32, batch: u64) -> (r: SearchOutcome)
    requires
        thread_count > 0,
        batch > 0,
    ensures
        r.best is None <==> total == 0,
        r.best is None ==> !r.met,
        match r.best {
            Some(c) => {
                &&& c.valid(seed@)
                &&& c.nonce < total
                &&& r.met == (c.difficulty >= target)
                &&& r.met ==> c.beats_range(seed@, 0, c.nonce as nat + 1)
            },
            None => true,
        },
        !r.met ==> forall|x: u64| x < total ==> #[trigger] nonce_difficulty(seed@, x) < target,
        !r.met ==> match r.best {
            Some(c) => c.beats_range(seed@, 0, total as nat),
            None => true,
        },
{
    let n = thread_count;
    let mut overall: Option<Candidate> = None;
    let mut lo: u64 = 0;
    let mut i: u64 = 0;
    proof {
        lemma_partition_complete(total as nat, n as nat);
    }
    while i < n
        invariant
            0 < n == thread_count,
            batch > 0,
            i <= n,
            lo <= total,
            i == 0 ==> lo == 0,
            i > 0 ==> lo == part_end(total as nat, n as nat, (i - 1) as nat),
            (overall is None <==> lo == 0),
            match overall {
                Some(c) => {
                    &&& c.valid(seed@)
                    &&& c.nonce < lo
                    &&& c.difficulty < target
                    &&& c.beats_range(seed@, 0, lo as nat)
                },
                None => true,
            },
            forall|x: u64| x < lo ==> #[trigger] nonce_difficulty(seed@, x) < target,
        decreases n - i,
    {
        let (s, e) = partition_range(total, n, i);
        assert(s == lo) by {
            if i > 0 {
                assert(((i - 1) as nat) + 1 == i as nat);
            }
        }
        let mut w = WorkerState::new(s, e, target);
        while w.next < w.end && !w.target_reached()
            invariant
                w.wf(seed@),
                w.start == s,
                w.end == e,
                w.target == target,
                batch > 0,
            decreases w.end - w.next,
        {
            w.scan_batch(seed, batch);
        }
        if w.target_reached() {
            proof {
                let c = w.best.unwrap();
                assert(c.beats_range(seed@, 0, c.nonce as nat + 1)) by {
                    assert forall|x: u64| 0 <= x < c.nonce as nat + 1 implies {
                        &&& #[trigger] nonce_difficulty(seed@, x) <= c.difficulty
                        &&& nonce_difficulty(seed@, x) == c.difficulty ==> c.nonce <= x
                    } by {
                        if x < s {
                            assert(nonce_difficulty(seed@, x) < target);
                        }
                    }
                }
            }
            let wb = w.best;
            return SearchOutcome { best: wb, met: true };
        }
        let wb = w.best;
        match wb {
            None => {},
            Some(c) => {
                let take = match &overall {
                    Some(b) => c.difficulty > b.difficulty,
                    None => true,
                };
                proof {
                    assert forall|x: u64| x < e implies #[trigger] nonce_difficulty(seed@, x) < target by {
                        if x >= s {
                            assert(nonce_difficulty(seed@, x) <= c.difficulty);
                        }
                    }
                }
                if take {
                    proof {
                        assert(c.beats_range(seed@, 0, e as nat)) by {
                            assert forall|x: u64| 0 <= x < e implies {
                                &&& #[trigger] nonce_difficulty(seed@, x) <= c.difficulty
                                &&& nonce_difficulty(seed@, x) == c.difficulty ==> c.nonce <= x
                            } by {
                                if x < s {
                                    let b = overall.unwrap();
                                    assert(nonce_difficulty(seed@, x) <= b.difficulty);
                                }
                            }
                        }
                    }
                    overall = Some(c);
                } else {
                    proof {
                        let b = overall.unwrap();
                        assert(b.beats_range(seed@, 0, e as nat)) by {
                            assert forall|x: u64| 0 <= x < e implies {
                                &&& #[trigger] nonce_difficulty(seed@, x) <= b.difficulty
                                &&& nonce_difficulty(seed@, x) == b.difficulty ==> b.nonce <= x
                            } by {
                                if x >= s {
                                    assert(nonce_difficulty(seed@, x) <= c.difficulty);
                                }
                            }
                        }
                    }
                }
            },
        }
        lo = e;
        i = i + 1;
    }
    assert(lo == total);
    SearchOutcome { best: overall, met: false }
}

/// Picks the worker whose best candidate scores highest, the lowest nonce
/// among equal scores; `None` where no worker has a candidate.
pub fn select_best(workers: &Vec<WorkerState>) -> (r: Option<usize>)
    ensures
        r is None <==> forall|j: int| 0 <= j < workers@.len() ==> (#[trigger] workers@[j]).best is None,
        match r {
            Some(k) => {
                &&& k < workers@.len()
                &&& workers@[k as int].best is Some
                &&& forall|j: int|
                    0 <= j < workers@.len() && (#[trigger] workers@[j]).best is Some
                        ==> workers@[k as int].best.unwrap().preferred_to(&workers@[j].best.unwrap())
            },
            None => true,
        },
{
    let mut r: Option<usize> = None;
    let mut j: usize = 0;
    while j < workers.len()
        invariant
            j <= workers@.len(),
            r is None <==> forall|i: int| 0 <= i < j ==> (#[trigger] workers@[i]).best is None,
            match r {
                Some(k) => {
                    &&& k < j
                    &&& workers@[k as int].best is Some
                    &&& forall|i: int|
                        0 <= i < j && (#[trigger] workers@[i]).best is Some
                            ==> workers@[k as int].best.unwrap().preferred_to(&workers@[i].best.unwrap())
                },
                None => true,
            },
        decreases workers@.len() - j,
    {
        match &workers[j].best {
            None => {},
            Some(c) => {
                let take = match r {
                    None => true,
                    Some(k) => match &workers[k].best {
                        Some(b) => c.difficulty > b.difficulty || (c.difficulty == b.difficulty
                            && c.nonce < b.nonce),
                        None => true,
                    },
                };
                if take {
                    r = Some(j);
                }
            },
        }
        j = j + 1;
    }
    r
}

/// Workers that each scanned the whole of their partition of `[0, total)`
/// together saw every nonce: the candidate that wins the selection scores at
/// least as high as any nonce of the space, and has the lowest nonce among
/// those of its score.
pub proof fn lemma_selected_is_global_best(seed: Seq<u8>, workers: Seq<WorkerState>, total: u64, k: int)
    requires
        workers.len() > 0,
        forall|i: int|
            0 <= i < workers.len() ==> {
                &&& (#[trigger] workers[i]).wf(seed)
                &&& workers[i].start == part_start(total as nat, workers.len(), i as nat)
                &&& workers[i].end == part_end(total as nat, workers.len(), i as nat)
                &&& workers[i].next == workers[i].end
            },
        0 <= k < workers.len(),
        workers[k].best is Some,
        forall|j: int|
            0 <= j < workers.len() && (#[trigger] workers[j]).best is Some
                ==> workers[k].best.unwrap().preferred_to(&workers[j].best.unwrap()),
    ensures
        workers[k].best.unwrap().beats_range(seed, 0, total as nat),
{
    let n = workers.len();
    let c = workers[k].best.unwrap();
    lemma_partition_complete(total as nat, n);
    assert forall|x: u64| 0 <= x < total implies {
        &&& #[trigger] nonce_difficulty(seed, x) <= c.difficulty
        &&& nonce_difficulty(seed, x) == c.difficulty ==> c.nonce <= x
    } by {
        let i = owner_of(total as nat, n, x as nat) as int;
        assert(in_part(total as nat, n, i as nat, x as nat));
        let w = workers[i];
        assert(w.wf(seed));
        let b = w.best.unwrap();
        assert(nonce_difficulty(seed, x) <= b.difficulty);
        assert(c.preferred_to(&b));
    }
}

} // verus!
