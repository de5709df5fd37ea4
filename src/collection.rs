//! Operations, the handler they are delivered to, and the per-collection log
//! that buffers them and decides when to deliver them.

use vstd::prelude::*;

use std::sync::atomic::{AtomicUsize, Ordering};
use std::marker::PhantomData;
use std::sync::Arc;

use vstd::arithmetic::div_mod::{lemma_mod_multiples_vanish, lemma_small_mod};

use crate::clock::now;
use crate::policy::{Policy, PolicyView};

verus! {

/// Helper trait for constraining generic types in other structs and traits.
/// `OperationType` unites the collection-specific enums of operations.
pub trait OperationType {}

/// Describes one single operation with collection: time when it happened and operation type.
pub struct Operation<T: OperationType> {
    instant: std::time::Instant,
    operation_type: T,
}

impl<T: OperationType> Operation<T> {
    /// The operation type.
    pub closed spec fn kind(&self) -> T {
        self.operation_type
    }

    /// The time when the operation happened.
    pub closed spec fn instant(&self) -> std::time::Instant {
        self.instant
    }

    /// Constructs `Operation` with current time and given operation type.
    pub fn new(operation_type: T) -> (r: Self)
        ensures
            r.kind() == operation_type,
    {
        Operation { instant: now(), operation_type }
    }

    /// Get time when operation happened.
    pub fn get_instant(&self) -> (r: &std::time::Instant)
        ensures
            *r == self.instant(),
    {
        &self.instant
    }

    /// Get operation type.
    pub fn get_type(&self) -> (r: &T)
        ensures
            *r == self.kind(),
    {
        &self.operation_type
    }
}

/// Just type alias for more convenient types declaring in other places.
pub type Operations<T> = Vec<Operation<T>>;

/// Provides function that handle all operations with collection.
///
/// One handler may serve many collections at once; whatever it needs to be
/// safe there is its own affair. It is expected to return normally: a failure
/// inside it is its own to deal with.
pub trait ZondHandler<T: OperationType> {
    /// `id` is used to distinguish between different collection instances' operations.
    ///
    /// `operations` is just operations, in the order in which they happened.
    fn handle(&self, id: usize, operations: Operations<T>);
}

/// Relies on `Arc::clone`: one more pointer to the same value.
#[verifier::external_body]
fn share<V>(a: &Arc<V>) -> (r: Arc<V>)
    ensures
        r == *a,
{
    Arc::clone(a)
}

/// A counter that numbers collections. Clones share it, so every collection
/// numbered by one of them gets an identifier of its own.
pub struct IdGenerator {
    next: Arc<AtomicUsize>,
}

impl IdGenerator {
    /// A counter that starts at zero.
    pub fn new() -> Self {
        IdGenerator { next: Arc::new(AtomicUsize::new(0)) }
    }
}

impl Clone for IdGenerator {
    /// Another handle on the same counter.
    fn clone(&self) -> Self {
        IdGenerator { next: share(&self.next) }
    }
}

/// Struct that controls how and when to handle operations: the shared handler,
/// the policy that each collection gets a fresh copy of, and the counter that
/// numbers the collections built from this value and its clones.
#[verifier::reject_recursive_types(T)]
pub struct Zond<T: OperationType, H: ZondHandler<T>> {
    zond_handler: Arc<H>,
    policy: Policy,
    id_generator: IdGenerator,
    operation_type: PhantomData<T>,
}

impl<T: OperationType, H: ZondHandler<T>> Zond<T, H> {
    /// The policy that a collection built from this value starts with.
    pub closed spec fn policy(&self) -> PolicyView {
        self.policy@
    }

    /// The handler that receives the batches.
    pub closed spec fn handler(&self) -> H {
        *self.zond_handler
    }

    /// Constructs a new `Zond<T>`, with a counter of collections of its own.
    pub fn new(zond_handler: H, policy: Policy) -> (r: Self)
        requires
            policy@.wf(),
            policy@.fresh(),
        ensures
            r.policy() == policy@,
            r.handler() == zond_handler,
    {
        Self::with_id_generator(zond_handler, policy, IdGenerator::new())
    }

    /// Constructs a new `Zond<T>` that numbers its collections with
    /// `id_generator`, which other values may share.
    pub fn with_id_generator(zond_handler: H, policy: Policy, id_generator: IdGenerator) -> (r: Self)
        requires
            policy@.wf(),
            policy@.fresh(),
        ensures
            r.policy() == policy@,
            r.handler() == zond_handler,
    {
        Zond { zond_handler: Arc::new(zond_handler), policy, id_generator, operation_type: PhantomData }
    }
}

impl<T: OperationType, H: ZondHandler<T>> Clone for Zond<T, H> {
    /// Shares the handler and the counter of collections; the policy starts afresh.
    fn clone(&self) -> (r: Self)
        ensures
            self.policy().fresh_copy(r.policy()),
            r.handler() == self.handler(),
    {
        Zond {
            zond_handler: share(&self.zond_handler),
            policy: self.policy.clone(),
            id_generator: self.id_generator.clone(),
            operation_type: PhantomData,
        }
    }
}

/// The log of one collection: its identifier, the operations collected since
/// the last hand-over, and the `Zond` that says where and when they go.
///
/// Besides, it keeps in ghost state every operation ever recorded and every
/// batch ever handed to the handler.
#[verifier::reject_recursive_types(T)]
pub struct ZondCollection<T: OperationType, H: ZondHandler<T>> {
    id: usize,
    operations: Operations<T>,
    zond: Zond<T, H>,
    recorded: Ghost<Seq<Operation<T>>>,
    delivered: Ghost<Seq<Seq<Operation<T>>>>,
}

impl<T: OperationType, H: ZondHandler<T>> ZondCollection<T, H> {
    /// The identifier handed to the handler with every batch.
    pub closed spec fn id(&self) -> usize {
        self.id
    }

    /// The operations collected since the last hand-over.
    pub closed spec fn pending(&self) -> Seq<Operation<T>> {
        self.operations@
    }

    /// Every operation recorded so far, in order.
    pub closed spec fn recorded(&self) -> Seq<Operation<T>> {
        self.recorded@
    }

    /// Every batch handed to the handler so far, in order.
    pub closed spec fn delivered(&self) -> Seq<Seq<Operation<T>>> {
        self.delivered@
    }

    /// The state of the policy.
    pub closed spec fn policy(&self) -> PolicyView {
        self.zond.policy@
    }

    /// The handler that receives the batches.
    pub closed spec fn handler(&self) -> H {
        self.zond.handler()
    }

    pub closed spec fn wf(&self) -> bool {
        &&& self.policy().wf()
        &&& self.delivered().flatten() + self.pending() == self.recorded()
        &&& match self.policy() {
            PolicyView::DropOnly => self.delivered().len() == 0,
            PolicyView::CountThreshold { max, count } => {
                &&& self.pending().len() == count
                &&& forall|i: int| 0 <= i < self.delivered().len() ==> #[trigger] self.delivered()[i].len() == max
            },
            PolicyView::Debounced { .. } => true,
        }
    }

    /// The kind of the operation recorded last.
    pub open spec fn last_kind(&self) -> T {
        self.recorded().last().kind()
    }

    /// `post` is `self` after one more operation was recorded and the policy
    /// was asked about it: the batch, that operation included, was handed over
    /// exactly where the policy said so.
    pub open spec fn records_one(self, post: Self) -> bool {
        let ev = post.recorded().last();
        let flush = post.delivered().len() != self.delivered().len();
        &&& post.id() == self.id()
        &&& post.handler() == self.handler()
        &&& post.recorded() == self.recorded().push(ev)
        &&& self.policy().step(post.policy(), flush)
        &&& if flush {
            &&& post.delivered() == self.delivered().push(self.pending().push(ev))
            &&& post.pending() == Seq::<Operation<T>>::empty()
        } else {
            &&& post.delivered() == self.delivered()
            &&& post.pending() == self.pending().push(ev)
        }
    }

    /// `batches` is every batch that `self` hands over when it records one
    /// more operation, of type `kind`, and is then torn down: the last batch
    /// holds whatever was still waiting.
    pub open spec fn ends_with(self, kind: T, batches: Seq<Seq<Operation<T>>>) -> bool {
        exists|post: Self| #[trigger] self.records(post, kind) && batches == post.delivered().push(post.pending())
    }

    /// As `records_one`, for an operation of type `kind`.
    pub open spec fn records(self, post: Self, kind: T) -> bool {
        &&& self.records_one(post)
        &&& post.last_kind() == kind
    }

    /// `self` is a log that started empty under `policy` and has recorded one
    /// operation since.
    pub open spec fn begins_any(self, policy: PolicyView) -> bool {
        let ev = self.recorded().last();
        let flush = self.delivered().len() != 0;
        &&& self.recorded() == seq![ev]
        &&& policy.step(self.policy(), flush)
        &&& if flush {
            &&& self.delivered() == seq![seq![ev]]
            &&& self.pending() == Seq::<Operation<T>>::empty()
        } else {
            &&& self.delivered() == Seq::<Seq<Operation<T>>>::empty()
            &&& self.pending() == seq![ev]
        }
    }

    /// As `begins_any`, with an operation of type `kind`.
    pub open spec fn begins(self, policy: PolicyView, kind: T) -> bool {
        &&& self.begins_any(policy)
        &&& self.last_kind() == kind
    }

    /// A log with a fresh identifier from the counter of `zond`, and nothing
    /// collected yet.
    pub fn new(zond: Zond<T, H>) -> (r: Self)
        requires
            zond.policy().wf(),
            zond.policy().fresh(),
        ensures
            r.wf(),
            r.policy() == zond.policy(),
            r.handler() == zond.handler(),
            r.pending() == Seq::<Operation<T>>::empty(),
            r.recorded() == Seq::<Operation<T>>::empty(),
            r.delivered() == Seq::<Seq<Operation<T>>>::empty(),
    {
        let id = zond.id_generator.next.fetch_add(1, Ordering::Relaxed);
        let r = ZondCollection {
            id,
            operations: Vec::new(),
            zond,
            recorded: Ghost(Seq::empty()),
            delivered: Ghost(Seq::empty()),
        };
        assert(r.delivered().flatten() == Seq::<Operation<T>>::empty());
        assert(r.delivered().flatten() + r.pending() =~= r.recorded());
        r
    }

    // Hands the collected operations to the handler.
    fn handle(&mut self)
        ensures
            final(self).id() == old(self).id(),
            final(self).policy() == old(self).policy(),
            final(self).handler() == old(self).handler(),
            final(self).recorded() == old(self).recorded(),
            final(self).delivered() == old(self).delivered().push(old(self).pending()),
            final(self).pending() == Seq::<Operation<T>>::empty(),
    {
        let mut operations: Operations<T> = Vec::new();
        std::mem::swap(&mut operations, &mut self.operations);
        let ghost batch = operations@;
        self.delivered = Ghost(self.delivered@.push(batch));
        self.zond.zond_handler.handle(self.id, operations);
    }

    /// Records an operation of type `operation` with the current time, then
    /// hands the collected operations over if the policy says so.
    pub fn push_operation(&mut self, operation: T)
        ensures
            old(self).wf() ==> final(self).wf(),
            old(self).wf() ==> old(self).records(*final(self), operation),
    {
        let operation = Operation::new(operation);
        let ghost ev = operation;
        let ghost pre = *self;
        self.operations.push(operation);
        self.recorded = Ghost(self.recorded@.push(ev));
        let flush = self.zond.policy.after_operation();
        proof {
            pre.delivered().lemma_flatten_push(pre.pending().push(ev));
            if pre.wf() {
                assert(pre.delivered().flatten() + pre.pending().push(ev) =~= pre.recorded().push(ev));
            }
        }
        if flush {
            self.handle();
            proof {
                if pre.wf() {
                    assert(self.delivered().flatten() + self.pending() =~= self.recorded());
                }
            }
        }
    }

    /// Records a last operation of type `operation`, then tears the log
    /// down. Returns every batch handed over in the log's life.
    pub fn end_with(self, operation: T) -> (batches: Ghost<Seq<Seq<Operation<T>>>>)
        ensures
            self.wf() ==> self.ends_with(operation, batches@),
    {
        let mut log = self;
        log.push_operation(operation);
        let ghost post = log;
        log.teardown();
        proof {
            if self.wf() {
                assert(self.records(post, operation));
            }
        }
        Ghost(log.delivered())
    }

    /// Hands whatever was collected to the handler, whatever the policy: the
    /// last hand-over, when the collection goes away.
    pub fn teardown(&mut self)
        ensures
            final(self).id() == old(self).id(),
            final(self).policy() == old(self).policy(),
            final(self).handler() == old(self).handler(),
            final(self).recorded() == old(self).recorded(),
            final(self).delivered() == old(self).delivered().push(old(self).pending()),
            final(self).pending() == Seq::<Operation<T>>::empty(),
    {
        self.handle();
    }
}

/// Ordering: the batches handed over so far, followed by the one that
/// teardown hands over, concatenate to exactly the recorded operations, in the
/// order in which they were recorded.
pub proof fn lemma_batches_concatenate_to_recorded<T: OperationType, H: ZondHandler<T>>(c: ZondCollection<T, H>)
    requires
        c.wf(),
    ensures
        c.delivered().push(c.pending()).flatten() == c.recorded(),
{
    c.delivered().lemma_flatten_push(c.pending());
}

/// Count threshold: with a threshold of `max`, every batch handed over before
/// teardown holds exactly `max` operations, fewer than `max` wait, and so
/// `max` times the number of batches, plus those waiting, is the number of
/// operations recorded.
pub proof fn lemma_count_threshold_batches<T: OperationType, H: ZondHandler<T>>(c: ZondCollection<T, H>)
    requires
        c.wf(),
        c.policy() is CountThreshold,
    ensures
        forall|i: int| 0 <= i < c.delivered().len() ==> #[trigger] c.delivered()[i].len() == c.policy()->CountThreshold_max,
        c.pending().len() < c.policy()->CountThreshold_max,
        c.recorded().len() == c.delivered().len() * c.policy()->CountThreshold_max + c.pending().len(),
{
    let max = c.policy()->CountThreshold_max;
    lemma_flatten_len_uniform(c.delivered(), max);
    assert(c.recorded().len() == (c.delivered().flatten() + c.pending()).len());
}

proof fn lemma_flatten_len_uniform<A>(s: Seq<Seq<A>>, n: nat)
    requires
        forall|i: int| 0 <= i < s.len() ==> #[trigger] s[i].len() == n,
    ensures
        s.flatten().len() == s.len() * n,
    decreases s.len(),
{
    if s.len() > 0 {
        let rest = s.drop_last();
        assert forall|i: int| 0 <= i < rest.len() implies #[trigger] rest[i].len() == n by {
            assert(rest[i] == s[i]);
        }
        lemma_flatten_len_uniform(rest, n);
        rest.lemma_flatten_push(s.last());
        assert(rest.push(s.last()) == s);
        assert(s.len() * n == rest.len() * n + n) by (nonlinear_arith)
            requires s.len() == rest.len() + 1;
    }
}

/// Count threshold: with a threshold of `max`, recording an operation hands a
/// batch over exactly when the number of operations recorded becomes a
/// multiple of `max`: after every `max`-th operation, and after no other.
pub proof fn lemma_count_threshold_flushes_every_max<T: OperationType, H: ZondHandler<T>>(
    c: ZondCollection<T, H>,
    post: ZondCollection<T, H>,
)
    requires
        c.wf(),
        post.wf(),
        c.policy() is CountThreshold,
        c.records_one(post),
    ensures
        (post.delivered().len() > c.delivered().len()) <==> post.recorded().len() % c.policy()->CountThreshold_max == 0,
{
    let max = c.policy()->CountThreshold_max;
    assert(post.policy() is CountThreshold && post.policy()->CountThreshold_max == max);
    lemma_count_threshold_batches(post);
    let d = post.delivered().len();
    let p = post.pending().len();
    assert(post.recorded().len() == d * max + p);
    assert(d * max == max * d) by (nonlinear_arith);
    lemma_mod_multiples_vanish(d as int, p as int, max as int);
    assert(post.recorded().len() % max == p % max);
    if post.delivered().len() > c.delivered().len() {
        assert(p == 0);
        lemma_small_mod(p, max);
    } else {
        assert(p == c.pending().len() + 1);
        assert(0 < p < max);
        lemma_small_mod(p, max);
    }
}

/// Drop only: before teardown no batch is handed over, whatever was recorded;
/// every recorded operation waits for the one batch that teardown hands over.
pub proof fn lemma_drop_only_waits_for_teardown<T: OperationType, H: ZondHandler<T>>(c: ZondCollection<T, H>)
    requires
        c.wf(),
        c.policy() is DropOnly,
    ensures
        c.delivered().len() == 0,
        c.pending() == c.recorded(),
{
    assert(c.delivered().flatten() =~= Seq::<Operation<T>>::empty());
    assert(c.pending() =~= c.delivered().flatten() + c.pending());
}

} // verus!
