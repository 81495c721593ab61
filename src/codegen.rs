use vstd::prelude::*;

use crate::index::{index_of, lemma_index_of_absent, lemma_index_of_bounds, lemma_index_of_first};

verus! {

/// The identity of a kernel: its defining crate, that crate's per-build
/// disambiguator, and the kernel's index inside the crate.
#[derive(Clone, Debug)]
pub struct KernelId {
    pub crate_name: String,
    pub disambiguator_hi: u64,
    pub disambiguator_lo: u64,
    pub index: u64,
}

/// The key of a compiled kernel: the kernel and the stable hash of the
/// target description it is compiled for.
#[derive(Clone, Debug)]
pub struct CacheKey {
    pub kernel: KernelId,
    pub target_hash: u64,
}

pub type KeyView = (Seq<char>, u64, u64, u64, u64);

impl View for CacheKey {
    type V = KeyView;

    open spec fn view(&self) -> KeyView {
        (
            self.kernel.crate_name@,
            self.kernel.disambiguator_hi,
            self.kernel.disambiguator_lo,
            self.kernel.index,
            self.target_hash,
        )
    }
}

/// Where the compilation of one key stands.
#[derive(Debug)]
pub enum SlotState<O> {
    /// A compilation is running; `waiters` callers wait for it.
    Compiling { waiters: usize },
    /// The compilation finished with this outcome.
    Done(O),
}

/// What a caller that requested a key must do next.
#[derive(Clone, Copy, Debug, PartialEq, Eq, Structural)]
pub enum RequestAction {
    /// Run the compilation pipeline for the key, then report its outcome.
    Compile,
    /// Wait for the running compilation of the key.
    Wait,
    /// Read the outcome that is already there.
    Ready,
    /// The worker's context is dead: fail with that condition.
    ContextDead,
}

/// The state of a compilation cache: whether the worker's context is dead,
/// and the state of each key that was ever requested.
pub struct CacheView<O> {
    pub dead: bool,
    pub slots: Map<KeyView, SlotState<O>>,
}

/// A waiter count one higher, kept at the largest count.
pub open spec fn bumped(w: usize) -> usize {
    if w < usize::MAX {
        (w + 1) as usize
    } else {
        w
    }
}

/// A request for `k`: refused on a dead context; a new key starts a
/// compilation with one waiter; a running one gains a waiter; a finished one
/// is ready.
pub open spec fn request_step<O>(c: CacheView<O>, k: KeyView) -> (CacheView<O>, RequestAction) {
    if c.dead {
        (c, RequestAction::ContextDead)
    } else if !c.slots.contains_key(k) {
        (
            CacheView { dead: c.dead, slots: c.slots.insert(k, SlotState::Compiling { waiters: 1 }) },
            RequestAction::Compile,
        )
    } else {
        match c.slots[k] {
            SlotState::Compiling { waiters } => (
                CacheView {
                    dead: c.dead,
                    slots: c.slots.insert(k, SlotState::Compiling { waiters: bumped(waiters) }),
                },
                RequestAction::Wait,
            ),
            SlotState::Done(_) => (c, RequestAction::Ready),
        }
    }
}

/// The end of the compilation of `k` with outcome `o`: a running compilation
/// becomes done and its waiter count is returned; anything else is left as it
/// is.
pub open spec fn complete_step<O>(c: CacheView<O>, k: KeyView, o: O) -> (CacheView<O>, Option<
    usize,
>) {
    if c.slots.contains_key(k) && c.slots[k] is Compiling {
        (
            CacheView { dead: c.dead, slots: c.slots.insert(k, SlotState::Done(o)) },
            Some(c.slots[k]->waiters),
        )
    } else {
        (c, None)
    }
}

/// The cache and the actions of `n` requests for `k` in a row.
pub open spec fn run_requests<O>(c: CacheView<O>, k: KeyView, n: nat) -> (
    CacheView<O>,
    Seq<RequestAction>,
)
    decreases n,
{
    if n == 0 {
        (c, Seq::empty())
    } else {
        let (c1, acts) = run_requests(c, k, (n - 1) as nat);
        let (c2, a) = request_step(c1, k);
        (c2, acts.push(a))
    }
}

pub open spec fn keys_view(ks: Seq<CacheKey>) -> Seq<KeyView> {
    ks.map_values(|c: CacheKey| c@)
}

/// The compilation cache of one worker: at most one compilation per key is
/// ever started, and every request for a key sees the one outcome it had.
pub struct KernelCache<O> {
    keys: Vec<CacheKey>,
    states: Vec<SlotState<O>>,
    dead: bool,
}

impl<O> View for KernelCache<O> {
    type V = CacheView<O>;

    closed spec fn view(&self) -> CacheView<O> {
        CacheView {
            dead: self.dead,
            slots: Map::new(
                |k: KeyView| index_of(keys_view(self.keys@), k) >= 0,
                |k: KeyView| self.states@[index_of(keys_view(self.keys@), k)],
            ),
        }
    }
}

fn same_key(a: &CacheKey, b: &CacheKey) -> (r: bool)
    ensures
        r == (a@ == b@),
{
    a.kernel.crate_name == b.kernel.crate_name && a.kernel.disambiguator_hi
        == b.kernel.disambiguator_hi && a.kernel.disambiguator_lo == b.kernel.disambiguator_lo
        && a.kernel.index == b.kernel.index && a.target_hash == b.target_hash
}

impl CacheKey {
    /// A field-for-field copy.
    pub fn duplicate(&self) -> (r: CacheKey)
        ensures
            r@ == self@,
    {
        CacheKey {
            kernel: KernelId {
                crate_name: self.kernel.crate_name.clone(),
                disambiguator_hi: self.kernel.disambiguator_hi,
                disambiguator_lo: self.kernel.disambiguator_lo,
                index: self.kernel.index,
            },
            target_hash: self.target_hash,
        }
    }
}

proof fn lemma_update_state<O>(keys: Seq<KeyView>, states: Seq<SlotState<O>>, key: KeyView, i: int, s: SlotState<O>)
    requires
        keys.len() == states.len(),
        i == index_of(keys, key),
        0 <= i < keys.len(),
    ensures
        forall|k: KeyView| k != key && #[trigger] index_of(keys, k) >= 0 ==> states.update(i, s)[index_of(keys, k)] == states[index_of(keys, k)],
{
    assert forall|k: KeyView| k != key && #[trigger] index_of(keys, k) >= 0 implies states.update(i, s)[index_of(keys, k)] == states[index_of(keys, k)] by {
        lemma_index_of_bounds(keys, k);
        lemma_index_of_bounds(keys, key);
    }
}

impl<O> KernelCache<O> {
    /// The cache is well formed: one state for each key.
    pub closed spec fn wf(&self) -> bool {
        self.keys@.len() == self.states@.len()
    }

    /// An empty cache of a live worker.
    pub fn new() -> (r: KernelCache<O>)
        ensures
            r.wf(),
            !r@.dead,
            r@.slots == Map::<KeyView, SlotState<O>>::empty(),
    {
        let r = KernelCache { keys: Vec::new(), states: Vec::new(), dead: false };
        assert(r@.slots =~= Map::<KeyView, SlotState<O>>::empty());
        r
    }

    fn position(&self, key: &CacheKey) -> (r: Option<usize>)
        requires
            self.wf(),
        ensures
            r matches Some(i) ==> i == index_of(keys_view(self.keys@), key@) && i < self.keys@.len(),
            r is None ==> index_of(keys_view(self.keys@), key@) == -1,
    {
        let mut i: usize = 0;
        while i < self.keys.len()
            invariant
                0 <= i <= self.keys@.len(),
                forall|j: int| 0 <= j < i ==> keys_view(self.keys@)[j] != key@,
            decreases self.keys@.len() - i,
        {
            if same_key(&self.keys[i], key) {
                proof {
                    lemma_index_of_first(keys_view(self.keys@), key@, i as int);
                }
                return Some(i);
            }
            i = i + 1;
        }
        proof {
            lemma_index_of_absent(keys_view(self.keys@), key@);
        }
        None
    }

    /// Whether the worker's context is dead.
    pub fn is_dead(&self) -> (r: bool)
        ensures
            r == self@.dead,
    {
        self.dead
    }

    /// Marks the worker's context dead: every later request is refused.
    pub fn mark_dead(&mut self)
        requires
            old(self).wf(),
        ensures
            final(self).wf(),
            final(self)@.dead,
            final(self)@.slots == old(self)@.slots,
    {
        self.dead = true;
    }

    /// Records a request for `key` and says what the caller must do.
    pub fn request(&mut self, key: &CacheKey) -> (r: RequestAction)
        requires
            old(self).wf(),
        ensures
            final(self).wf(),
            (final(self)@, r) == request_step(old(self)@, key@),
    {
        if self.dead {
            return RequestAction::ContextDead;
        }
        match self.position(key) {
            None => {
                let ghost old_keys = keys_view(self.keys@);
                self.keys.push(key.duplicate());
                self.states.push(SlotState::Compiling { waiters: 1 });
                proof {
                    let new_keys = keys_view(self.keys@);
                    assert(new_keys.drop_last() =~= old_keys);
                    assert(new_keys.last() == key@);
                    assert(index_of(new_keys, key@) == old_keys.len());
                    assert forall|k: KeyView| k != key@ implies index_of(new_keys, k) == index_of(
                        old_keys,
                        k,
                    ) && (index_of(old_keys, k) >= 0 ==> self.states@[index_of(new_keys, k)]
                        == old(self).states@[index_of(old_keys, k)]) by {
                        lemma_index_of_bounds(old_keys, k);
                    }
                    assert(self@.slots =~= old(self)@.slots.insert(
                        key@,
                        SlotState::Compiling { waiters: 1 },
                    ));
                }
                RequestAction::Compile
            },
            Some(i) => {
                proof {
                    lemma_index_of_bounds(keys_view(self.keys@), key@);
                }
                match &self.states[i] {
                    SlotState::Compiling { waiters } => {
                        let w = *waiters;
                        let next = if w < usize::MAX {
                            w + 1
                        } else {
                            w
                        };
                        self.states.set(i, SlotState::Compiling { waiters: next });
                        proof {
                            lemma_update_state(keys_view(self.keys@), old(self).states@, key@, i as int, SlotState::Compiling { waiters: next });
                            assert(self@.slots =~= old(self)@.slots.insert(
                                key@,
                                SlotState::Compiling { waiters: bumped(w) },
                            ));
                        }
                        RequestAction::Wait
                    },
                    SlotState::Done(_) => RequestAction::Ready,
                }
            },
        }
    }

    /// Records the outcome of the compilation of `key`. Gives the number of
    /// callers that wait for it, or `None` where no compilation of `key` was
    /// running (the outcome is then dropped).
    pub fn complete(&mut self, key: &CacheKey, outcome: O) -> (r: Option<usize>)
        requires
            old(self).wf(),
        ensures
            final(self).wf(),
            (final(self)@, r) == complete_step(old(self)@, key@, outcome),
    {
        match self.position(key) {
            None => None,
            Some(i) => {
                proof {
                    lemma_index_of_bounds(keys_view(self.keys@), key@);
                }
                match &self.states[i] {
                    SlotState::Compiling { waiters } => {
                        let w = *waiters;
                        self.states.set(i, SlotState::Done(outcome));
                        proof {
                            lemma_update_state(keys_view(self.keys@), old(self).states@, key@, i as int, SlotState::Done(outcome));
                            assert(self@.slots =~= old(self)@.slots.insert(
                                key@,
                                SlotState::Done(outcome),
                            ));
                        }
                        Some(w)
                    },
                    SlotState::Done(_) => None,
                }
            },
        }
    }

    /// The outcome of the finished compilation of `key`, if there is one.
    pub fn outcome(&self, key: &CacheKey) -> (r: Option<&O>)
        requires
            self.wf(),
        ensures
            r matches Some(o) ==> self@.slots.contains_key(key@) && self@.slots[key@]
                == SlotState::Done(*o),
            r is None ==> !self@.slots.contains_key(key@) || self@.slots[key@] is Compiling,
    {
        match self.position(key) {
            None => None,
            Some(i) => {
                proof {
                    lemma_index_of_bounds(keys_view(self.keys@), key@);
                }
                match &self.states[i] {
                    SlotState::Done(o) => Some(o),
                    SlotState::Compiling { .. } => None,
                }
            },
        }
    }
}

proof fn lemma_requests_in_flight<O>(c: CacheView<O>, k: KeyView, m: nat)
    requires
        !c.dead,
        !c.slots.contains_key(k),
        1 <= m <= usize::MAX,
    ensures
        ({
            let (cm, acts) = run_requests(c, k, m);
            &&& !cm.dead
            &&& cm.slots.contains_key(k)
            &&& cm.slots[k] == SlotState::<O>::Compiling { waiters: m as usize }
            &&& acts.len() == m
            &&& acts[0] == RequestAction::Compile
            &&& forall|i: int| 1 <= i < m ==> acts[i] == RequestAction::Wait
        }),
    decreases m,
{
    if m == 1 {
        assert(run_requests(c, k, 0) == (c, Seq::<RequestAction>::empty()));
        let (c1, a) = request_step(c, k);
        assert(Seq::<RequestAction>::empty().push(a)[0] == a);
    } else {
        lemma_requests_in_flight(c, k, (m - 1) as nat);
        let (c1, acts1) = run_requests(c, k, (m - 1) as nat);
        let (c2, a) = request_step(c1, k);
        assert(a == RequestAction::Wait);
        assert(bumped((m - 1) as usize) == m as usize);
        assert(c2.slots[k] == SlotState::<O>::Compiling { waiters: m as usize });
        assert(acts1.push(a)[0] == acts1[0]);
        assert forall|i: int| 1 <= i < m implies acts1.push(a)[i] == RequestAction::Wait by {
            if i < m - 1 {
                assert(acts1.push(a)[i] == acts1[i]);
            }
        }
    }
}

/// Requests for one key made by `n` callers before its compilation completes
/// start exactly one compilation: the first caller compiles and every other
/// one waits. When the compilation completes with outcome `o`, all `n`
/// callers are woken, the key holds `o`, and every later request reads it.
pub proof fn lemma_requests_coalesce<O>(c: CacheView<O>, k: KeyView, n: nat, o: O)
    requires
        !c.dead,
        !c.slots.contains_key(k),
        1 <= n <= usize::MAX,
    ensures
        ({
            let (c1, acts) = run_requests(c, k, n);
            let (c2, woken) = complete_step(c1, k, o);
            &&& acts.len() == n
            &&& acts[0] == RequestAction::Compile
            &&& forall|i: int| 1 <= i < n ==> acts[i] == RequestAction::Wait
            &&& woken == Some(n as usize)
            &&& c2.slots[k] == SlotState::Done(o)
            &&& request_step(c2, k) == (c2, RequestAction::Ready)
        }),
{
    lemma_requests_in_flight(c, k, n);
}

} // verus!
