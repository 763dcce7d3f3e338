//! Fixed-capacity buffers of the self-improvement loop's objective: a batch
//! of execution traces and a buffer of log-probability pairs. Each holds
//! exactly `MAX_TRACE_SYMBOLS` slots from construction on, so pushing and
//! clearing never allocate; a length says how many slots are valid. The
//! entries are generic; the loop stores its numeric records in them.

use vstd::prelude::*;

verus! {

/// Capacity of a trace batch and of a log-probability buffer.
pub const MAX_TRACE_SYMBOLS: usize = 256;

/// What a bounded buffer holds after pushing `e` onto contents `s`: `e`
/// is appended when there is room, otherwise nothing changes.
pub open spec fn bounded_push<T>(s: Seq<T>, e: T) -> Seq<T> {
    if s.len() < MAX_TRACE_SYMBOLS {
        s.push(e)
    } else {
        s
    }
}

/// What an empty bounded buffer holds after pushing `es` in order.
pub open spec fn bounded_push_all<T>(es: Seq<T>) -> Seq<T>
    decreases es.len(),
{
    if es.len() == 0 {
        Seq::empty()
    } else {
        bounded_push(bounded_push_all(es.drop_last()), es.last())
    }
}

/// The smaller of `a` and `b`.
pub open spec fn min_nat(a: nat, b: nat) -> nat {
    if a < b {
        a
    } else {
        b
    }
}

/// Pushing `e_1, ..., e_k` onto an empty buffer keeps exactly the first
/// `min(k, MAX_TRACE_SYMBOLS)` of them, in push order; later pushes are
/// refused and change nothing.
pub proof fn lemma_pushes_keep_the_first_entries<T>(es: Seq<T>)
    ensures
        bounded_push_all(es) == es.take(min_nat(es.len(), MAX_TRACE_SYMBOLS as nat) as int),
        bounded_push_all(es).len() == min_nat(es.len(), MAX_TRACE_SYMBOLS as nat),
    decreases es.len(),
{
    if es.len() > 0 {
        let prev = es.drop_last();
        lemma_pushes_keep_the_first_entries(prev);
        let m = min_nat(prev.len(), MAX_TRACE_SYMBOLS as nat) as int;
        if prev.len() < MAX_TRACE_SYMBOLS {
            assert(es.take(m + 1) =~= prev.take(m).push(es.last()));
        } else {
            assert(es.take(m) =~= prev.take(m));
        }
    }
}

/// A batch of at most `MAX_TRACE_SYMBOLS` execution traces, in arrival
/// order, stored in `MAX_TRACE_SYMBOLS` preallocated slots.
pub struct TraceBuffer<T: Copy> {
    entries: Vec<T>,
    len: usize,
}

impl<T: Copy> View for TraceBuffer<T> {
    type V = Seq<T>;

    /// The valid entries.
    closed spec fn view(&self) -> Seq<T> {
        self.entries@.take(self.len as int)
    }
}

impl<T: Copy> TraceBuffer<T> {
    /// Exactly `MAX_TRACE_SYMBOLS` slots, at most all of them valid.
    #[verifier::type_invariant]
    spec fn well_formed(&self) -> bool {
        &&& self.entries@.len() == MAX_TRACE_SYMBOLS
        &&& self.len <= MAX_TRACE_SYMBOLS
    }

    /// Every slot, valid or not.
    pub closed spec fn slots(&self) -> Seq<T> {
        self.entries@
    }

    /// An empty batch whose slots all hold `fill`.
    pub fn new(fill: T) -> (r: TraceBuffer<T>)
        ensures
            r@ == Seq::<T>::empty(),
            r.slots() == Seq::new(MAX_TRACE_SYMBOLS as nat, |i: int| fill),
    {
        let entries = filled_slots(fill);
        TraceBuffer { entries, len: 0 }
    }

    /// Appends `entry`; returns `false` and leaves the batch unchanged when
    /// it is full.
    pub fn push(&mut self, entry: T) -> (r: bool)
        ensures
            r == (old(self)@.len() < MAX_TRACE_SYMBOLS),
            final(self)@ == bounded_push(old(self)@, entry),
            r ==> final(self).slots() == old(self).slots().update(old(self)@.len() as int, entry),
            !r ==> final(self).slots() == old(self).slots(),
        no_unwind
    {
        proof {
            use_type_invariant(&*self);
        }
        if self.len >= MAX_TRACE_SYMBOLS {
            return false;
        }
        let ghost before = self.entries@;
        self.entries[self.len] = entry;
        assert(self.entries@.take(self.len + 1) =~= before.take(self.len as int).push(entry));
        self.len = self.len + 1;
        true
    }

    /// Number of valid entries.
    pub fn len(&self) -> (r: usize)
        ensures
            r == self@.len(),
            r <= MAX_TRACE_SYMBOLS,
    {
        proof {
            use_type_invariant(self);
        }
        self.len
    }

    /// Whether the batch is empty.
    pub fn is_empty(&self) -> (r: bool)
        ensures
            r == (self@.len() == 0),
    {
        proof {
            use_type_invariant(self);
        }
        self.len == 0
    }

    /// The entry at position `i`.
    pub fn get(&self, i: usize) -> (r: &T)
        requires
            i < self@.len(),
        ensures
            *r == self@[i as int],
    {
        proof {
            use_type_invariant(self);
        }
        &self.entries[i]
    }

    /// The valid entries, in order (what iterating the batch yields).
    pub fn as_slice(&self) -> (r: &[T])
        ensures
            r@ == self@,
    {
        proof {
            use_type_invariant(self);
        }
        let r = vstd::slice::slice_subrange(self.entries.as_slice(), 0, self.len);
        assert(r@ =~= self@);
        r
    }
}

/// `MAX_TRACE_SYMBOLS` copies of `fill`.
fn filled_slots<T: Copy>(fill: T) -> (r: Vec<T>)
    ensures
        r@ == Seq::new(MAX_TRACE_SYMBOLS as nat, |i: int| fill),
{
    let mut v: Vec<T> = Vec::new();
    let mut i: usize = 0;
    while i < MAX_TRACE_SYMBOLS
        invariant
            i <= MAX_TRACE_SYMBOLS,
            v@ == Seq::new(i as nat, |j: int| fill),
        decreases MAX_TRACE_SYMBOLS - i,
    {
        v.push(fill);
        i = i + 1;
        assert(v@ =~= Seq::new(i as nat, |j: int| fill));
    }
    v
}

/// At most `MAX_TRACE_SYMBOLS` pairs of log-probabilities of a response:
/// under the learned policy and under the reference policy. The two
/// columns are `MAX_TRACE_SYMBOLS` preallocated slots each; `len` of them
/// are valid.
pub struct LogProbBuffer<P: Copy> {
    response_log_probs: Vec<P>,
    sft_log_probs: Vec<P>,
    len: usize,
}

impl<P: Copy> View for LogProbBuffer<P> {
    type V = Seq<(P, P)>;

    /// The valid pairs.
    closed spec fn view(&self) -> Seq<(P, P)> {
        Seq::new(
            self.len as nat,
            |i: int| (self.response_log_probs@[i], self.sft_log_probs@[i]),
        )
    }
}

impl<P: Copy> LogProbBuffer<P> {
    /// Exactly `MAX_TRACE_SYMBOLS` slots per column, at most all of them
    /// valid.
    #[verifier::type_invariant]
    spec fn well_formed(&self) -> bool {
        &&& self.response_log_probs@.len() == MAX_TRACE_SYMBOLS
        &&& self.sft_log_probs@.len() == MAX_TRACE_SYMBOLS
        &&& self.len <= MAX_TRACE_SYMBOLS
    }

    /// Every slot of the learned-policy column, valid or not.
    pub closed spec fn response_slots(&self) -> Seq<P> {
        self.response_log_probs@
    }

    /// Every slot of the reference-policy column, valid or not.
    pub closed spec fn sft_slots(&self) -> Seq<P> {
        self.sft_log_probs@
    }

    /// An empty buffer whose slots all hold `zero`.
    pub fn new(zero: P) -> (r: LogProbBuffer<P>)
        ensures
            r@ == Seq::<(P, P)>::empty(),
            r.response_slots() == Seq::new(MAX_TRACE_SYMBOLS as nat, |i: int| zero),
            r.sft_slots() == Seq::new(MAX_TRACE_SYMBOLS as nat, |i: int| zero),
    {
        let response_log_probs = filled_slots(zero);
        let sft_log_probs = filled_slots(zero);
        let r = LogProbBuffer { response_log_probs, sft_log_probs, len: 0 };
        assert(r@ =~= Seq::<(P, P)>::empty());
        r
    }

    /// Appends one `(response_log_prob, sft_log_prob)` pair; returns
    /// `false` and leaves the buffer unchanged when it is full.
    pub fn push(&mut self, response_log_prob: P, sft_log_prob: P) -> (r: bool)
        ensures
            r == (old(self)@.len() < MAX_TRACE_SYMBOLS),
            final(self)@ == bounded_push(old(self)@, (response_log_prob, sft_log_prob)),
            r ==> final(self).response_slots() == old(self).response_slots().update(
                old(self)@.len() as int,
                response_log_prob,
            ) && final(self).sft_slots() == old(self).sft_slots().update(
                old(self)@.len() as int,
                sft_log_prob,
            ),
            !r ==> final(self).response_slots() == old(self).response_slots()
                && final(self).sft_slots() == old(self).sft_slots(),
        no_unwind
    {
        proof {
            use_type_invariant(&*self);
        }
        if self.len >= MAX_TRACE_SYMBOLS {
            return false;
        }
        let ghost before = self@;
        self.response_log_probs[self.len] = response_log_prob;
        self.sft_log_probs[self.len] = sft_log_prob;
        self.len = self.len + 1;
        assert(self@ =~= before.push((response_log_prob, sft_log_prob)));
        true
    }

    /// Number of valid pairs.
    pub fn len(&self) -> (r: usize)
        ensures
            r == self@.len(),
            r <= MAX_TRACE_SYMBOLS,
    {
        proof {
            use_type_invariant(self);
        }
        self.len
    }

    /// Every slot of the learned-policy column; the first `len()` are the
    /// valid ones.
    pub fn response_log_probs(&self) -> (r: &[P])
        ensures
            r@ == self.response_slots(),
    {
        proof {
            use_type_invariant(self);
        }
        self.response_log_probs.as_slice()
    }

    /// Every slot of the reference-policy column; the first `len()` are the
    /// valid ones.
    pub fn sft_log_probs(&self) -> (r: &[P])
        ensures
            r@ == self.sft_slots(),
    {
        self.sft_log_probs.as_slice()
    }

    /// Empties the buffer without releasing or overwriting its slots.
    pub fn clear(&mut self)
        ensures
            final(self)@ == Seq::<(P, P)>::empty(),
            final(self).response_slots() == old(self).response_slots(),
            final(self).sft_slots() == old(self).sft_slots(),
        no_unwind
    {
        proof {
            use_type_invariant(&*self);
        }
        self.len = 0;
        assert(self@ =~= Seq::<(P, P)>::empty());
    }
}

impl<T: Copy + Default> Default for TraceBuffer<T> {
    /// An empty batch whose slots hold `T::default()`.
    fn default() -> (r: TraceBuffer<T>)
        ensures
            r@ == Seq::<T>::empty(),
    {
        TraceBuffer::new(T::default())
    }
}

impl<P: Copy + Default> Default for LogProbBuffer<P> {
    /// An empty buffer whose slots hold `P::default()`.
    fn default() -> (r: LogProbBuffer<P>)
        ensures
            r@ == Seq::<(P, P)>::empty(),
    {
        LogProbBuffer::new(P::default())
    }
}

} // verus!
