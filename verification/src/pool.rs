//! The instance pool: a bounded free list of warm instances.
//!
//! The free list is kept most recently released first. Instances are lent
//! from its head, returned to its head, and evicted from its tail.

use crate::actor::{Actor, Guest, Instance};
use crate::error::InstantiateError;
use crate::runtime::Runtime;
use vstd::prelude::*;

verus! {

/// The most instances that a pool keeps: a positive number.
#[derive(Clone, Copy, Debug, PartialEq, Eq, PartialOrd, Ord, Hash)]
pub struct Limit {
    slots: usize,
}

impl View for Limit {
    type V = nat;

    closed spec fn view(&self) -> nat {
        self.slots as nat
    }
}

impl Limit {
    #[verifier::type_invariant]
    spec fn positive(self) -> bool {
        self.slots > 0
    }

    /// The limit of `slots` instances; there is none of zero instances.
    pub fn new(slots: usize) -> (limit: Option<Limit>)
        ensures
            match limit {
                Some(limit) => slots > 0 && limit@ == slots,
                None => slots == 0,
            },
    {
        if slots > 0 {
            Some(Limit { slots })
        } else {
            None
        }
    }

    /// The number of instances that the limit allows.
    pub fn get(&self) -> (slots: usize)
        ensures
            slots == self@,
            slots > 0,
    {
        proof {
            use_type_invariant(self);
        }
        self.slots
    }
}

/// Whether a free list of `len` instances is within `limit`.
pub open spec fn within(limit: Option<Limit>, len: nat) -> bool {
    limit matches Some(limit) ==> len <= limit@
}

/// Whether a free list of `len` instances under `limit` has room for one
/// more.
pub open spec fn has_room(limit: Option<Limit>, len: nat) -> bool {
    limit matches Some(limit) ==> len < limit@
}

/// Whether a free list of `len` instances is as long as `limit` allows.
pub open spec fn at_limit(limit: Option<Limit>, len: nat) -> bool {
    limit matches Some(limit) && len == limit@
}

/// What is left of `free`, most recently released first, once `limit` is
/// enforced on it: the instances at the head, as many as the limit allows.
pub open spec fn kept<T>(free: Seq<T>, limit: Option<Limit>) -> Seq<T> {
    match limit {
        Some(limit) => if free.len() > limit@ {
            free.take(limit@ as int)
        } else {
            free
        },
        None => free,
    }
}

/// The free list `free` after `instance` came back under `limit`: the
/// instance is at the head where the limit left room for it, and is left
/// out where it did not.
pub open spec fn returned<T>(free: Seq<T>, limit: Option<Limit>, instance: T) -> Seq<T> {
    if has_room(limit, free.len()) {
        seq![instance] + free
    } else {
        free
    }
}

/// A free list that enforces a limit is within the limit, and holds the
/// instances that were at its head before, in their order.
pub proof fn law_limit_enforced<T>(free: Seq<T>, limit: Option<Limit>)
    ensures
        within(limit, kept(free, limit).len()),
        kept(free, limit).len() <= free.len(),
        kept(free, limit) == free.take(kept(free, limit).len() as int),
        within(limit, free.len()) ==> kept(free, limit) == free,
{
}

/// Returning an instance makes the free list longer by one, or leaves it as
/// it is; it is left as it is only where it is as long as the limit allows.
pub proof fn law_return<T>(free: Seq<T>, limit: Option<Limit>, instance: T)
    requires
        within(limit, free.len()),
    ensures
        returned(free, limit, instance).len() == free.len() + 1 || (returned(
            free,
            limit,
            instance,
        ) == free && at_limit(limit, free.len())),
        within(limit, returned(free, limit, instance).len()),
{
}

/// Without a limit every instance that returns is kept, however long the
/// free list is.
pub proof fn law_unbounded_return<T>(free: Seq<T>, instance: T)
    ensures
        returned(free, None, instance) == seq![instance] + free,
        returned(free, None, instance).len() == free.len() + 1,
{
}

/// The stack `stack`, read from its top.
pub open spec fn from_top<T>(stack: Seq<T>) -> Seq<T> {
    Seq::new(stack.len(), |i: int| stack[stack.len() - 1 - i])
}

/// The backing structure of a pool: the free list of ready instances and
/// the limit on its length.
///
/// The free list is never longer than the limit, if there is one.
pub struct PooledInstances<G> {
    instances: Vec<Instance<G>>,
    limit: Option<Limit>,
}

impl<G> PooledInstances<G> {
    #[verifier::type_invariant]
    spec fn bounded(self) -> bool {
        within(self.limit, self.instances@.len())
    }

    /// The free list, most recently released first.
    pub closed spec fn free_list(&self) -> Seq<Instance<G>> {
        from_top(self.instances@)
    }

    /// The limit on the length of the free list.
    pub closed spec fn limit(&self) -> Option<Limit> {
        self.limit
    }

    /// An empty free list under `limit`.
    pub fn new(limit: Option<Limit>) -> (pooled: Self)
        ensures
            pooled.free_list() == Seq::<Instance<G>>::empty(),
            pooled.limit() == limit,
    {
        PooledInstances { instances: Vec::new(), limit }
    }

    /// The number of instances in the free list, which is within the limit.
    pub fn len(&self) -> (len: usize)
        ensures
            len == self.free_list().len(),
            within(self.limit(), len as nat),
    {
        proof {
            use_type_invariant(self);
        }
        self.instances.len()
    }

    /// The limit on the length of the free list.
    pub fn get_limit(&self) -> (limit: Option<Limit>)
        ensures
            limit == self.limit(),
    {
        self.limit
    }

    /// Puts `limit` in the place of the limit and returns the old one.
    ///
    /// The new limit holds at once: where the free list is longer, the
    /// instances behind the first `limit` ones, which were released longest
    /// ago, are dropped.
    pub fn set_limit(&mut self, limit: Option<Limit>) -> (previous: Option<Limit>)
        ensures
            previous == old(self).limit(),
            final(self).limit() == limit,
            final(self).free_list() == kept(old(self).free_list(), limit),
            within(limit, final(self).free_list().len()),
    {
        let mut instances = self.take_all();
        let previous = self.limit;
        match limit {
            Some(limit) => {
                let len: usize = instances.len();
                let slots: usize = limit.get();
                if len > slots {
                    let hot = instances.split_off(len - slots);
                    assert(from_top(hot@) == from_top(old(self).instances@).take(slots as int));
                    instances = hot;
                }
            },
            None => {},
        }
        self.limit = limit;
        core::mem::swap(&mut self.instances, &mut instances);
        previous
    }

    /// Returns `instance` to the head of the free list, if the limit leaves
    /// room for it; else hands it back.
    pub fn push(&mut self, instance: Instance<G>) -> (rejected: Option<Instance<G>>)
        ensures
            final(self).limit() == old(self).limit(),
            final(self).free_list() == returned(old(self).free_list(), old(self).limit(), instance),
            rejected == if has_room(old(self).limit(), old(self).free_list().len()) {
                None
            } else {
                Some(instance)
            },
            within(final(self).limit(), final(self).free_list().len()),
    {
        let mut instances = self.take_all();
        let room = match self.limit {
            Some(limit) => instances.len() < limit.get(),
            None => true,
        };
        let rejected = if room {
            instances.push(instance);
            assert(from_top(instances@) == seq![instance] + from_top(old(self).instances@));
            None
        } else {
            Some(instance)
        };
        core::mem::swap(&mut self.instances, &mut instances);
        rejected
    }

    /// Takes the instance at the head of the free list, the one released
    /// last, if there is any.
    pub fn pop(&mut self) -> (warm: Option<Instance<G>>)
        ensures
            final(self).limit() == old(self).limit(),
            old(self).free_list().len() > 0 ==> warm == Some(old(self).free_list()[0])
                && final(self).free_list() == old(self).free_list().skip(1),
            old(self).free_list().len() == 0 ==> warm is None && final(self).free_list()
                == old(self).free_list(),
            within(final(self).limit(), final(self).free_list().len()),
    {
        let mut instances = self.take_all();
        let warm = instances.pop();
        assert(old(self).instances@.len() > 0 ==> from_top(instances@) == from_top(
            old(self).instances@,
        ).skip(1));
        core::mem::swap(&mut self.instances, &mut instances);
        warm
    }

    /// Moves the instances out and leaves the free list empty.
    fn take_all(&mut self) -> (instances: Vec<Instance<G>>)
        ensures
            instances@ == old(self).instances@,
            final(self).instances@ == Seq::<Instance<G>>::empty(),
            final(self).limit == old(self).limit,
            within(old(self).limit, instances@.len()),
    {
        proof {
            use_type_invariant(&*self);
        }
        let mut instances: Vec<Instance<G>> = Vec::new();
        core::mem::swap(&mut self.instances, &mut instances);
        instances
    }
}

/// An instance on loan from an [`InstancePool`], with the runtime that it
/// is reset under when it returns.
pub struct PooledInstance<G> {
    instance: Instance<G>,
    runtime: Runtime,
}

impl<G> PooledInstance<G> {
    /// The instance on loan.
    pub closed spec fn instance(&self) -> Instance<G> {
        self.instance
    }

    /// The runtime that the instance is reset under.
    pub closed spec fn runtime(&self) -> Runtime {
        self.runtime
    }

    /// The loan of `instance` under `runtime`.
    pub closed spec fn lending(instance: Instance<G>, runtime: Runtime) -> Self {
        PooledInstance { instance, runtime }
    }

    /// The instance on loan.
    pub fn get(&self) -> (instance: &Instance<G>)
        ensures
            *instance == self.instance(),
    {
        &self.instance
    }

    /// The instance on loan, to work on.
    pub fn get_mut(&mut self) -> (instance: &mut Instance<G>)
        ensures
            *instance == old(self).instance(),
            final(self).instance() == *final(instance),
            final(self).runtime() == old(self).runtime(),
    {
        &mut self.instance
    }
}

impl<G> From<PooledInstance<G>> for Instance<G> {
    /// Converts the [`PooledInstance`] into the inner [`Instance`], which
    /// then does not return to the pool that it came from.
    fn from(pooled: PooledInstance<G>) -> (instance: Self) {
        pooled.instance
    }
}

impl<G> vstd::std_specs::convert::FromSpecImpl<PooledInstance<G>> for Instance<G> {
    open spec fn obeys_from_spec() -> bool {
        true
    }

    open spec fn from_spec(pooled: PooledInstance<G>) -> Instance<G> {
        pooled.instance()
    }
}

impl<G> core::ops::Deref for PooledInstance<G> {
    type Target = Instance<G>;

    /// The instance on loan.
    fn deref(&self) -> (instance: &Instance<G>)
        ensures
            *instance == self.instance(),
    {
        &self.instance
    }
}

/// What a pool answers when it is asked for an instance.
pub enum Checkout<G> {
    /// A warm instance, taken from the free list
    Warm(PooledInstance<G>),
    /// The free list is empty: the engine is to set a guest up, which
    /// [`InstancePool::adopt`] then turns into an instance on loan
    Cold(Runtime),
}

/// Actor instance pool, which lends warm instances and asks for new ones on
/// demand.
pub struct InstancePool<G> {
    actor: Actor,
    instances: PooledInstances<G>,
}

impl<G> InstancePool<G> {
    /// The actor that the pool lends instances of.
    pub closed spec fn actor(&self) -> Actor {
        self.actor
    }

    /// The free list, most recently released first.
    pub closed spec fn free_list(&self) -> Seq<Instance<G>> {
        self.instances.free_list()
    }

    /// The limit on the length of the free list.
    pub closed spec fn limit(&self) -> Option<Limit> {
        self.instances.limit()
    }

    /// Construct a new [`InstancePool`]: its free list is empty and may
    /// grow to `limit` instances, without bound where there is none.
    pub fn new(actor: Actor, limit: Option<Limit>) -> (pool: Self)
        ensures
            pool.actor() == actor,
            pool.free_list() == Seq::<Instance<G>>::empty(),
            pool.limit() == limit,
    {
        InstancePool { actor, instances: PooledInstances::new(limit) }
    }

    /// The actor that the pool lends instances of.
    pub fn get_actor(&self) -> (actor: &Actor)
        ensures
            *actor == self.actor(),
    {
        &self.actor
    }

    /// The number of instances in the free list, which is within the limit.
    pub fn len(&self) -> (len: usize)
        ensures
            len == self.free_list().len(),
            within(self.limit(), len as nat),
    {
        self.instances.len()
    }

    /// Return the maximum size of the pool.
    pub fn get_limit(&self) -> (limit: Option<Limit>)
        ensures
            limit == self.limit(),
    {
        self.instances.get_limit()
    }

    /// Resize the pool to hold at most `limit` actor instances returning
    /// the old value.
    ///
    /// The new limit holds at once: where the free list is longer, the
    /// instances that were released longest ago are dropped.
    pub fn set_limit(&mut self, limit: Option<Limit>) -> (previous: Option<Limit>)
        ensures
            previous == old(self).limit(),
            final(self).limit() == limit,
            final(self).free_list() == kept(old(self).free_list(), limit),
            within(limit, final(self).free_list().len()),
            final(self).actor() == old(self).actor(),
    {
        self.instances.set_limit(limit)
    }

    /// The limit of a pool after it was asked to hold `limit` instances or
    /// more: `limit` takes the place of a smaller limit. A pool without a
    /// limit holds that many already and stays without one.
    pub open spec fn increased(current: Option<Limit>, limit: Limit) -> Option<Limit> {
        match current {
            Some(current) => if current@ < limit@ {
                Some(limit)
            } else {
                Some(current)
            },
            None => None,
        }
    }

    /// The limit of a pool after it was asked to hold `limit` instances or
    /// less: `limit` takes the place of a larger limit and of none.
    pub open spec fn decreased(current: Option<Limit>, limit: Limit) -> Option<Limit> {
        match current {
            Some(current) => if current@ > limit@ {
                Some(limit)
            } else {
                Some(current)
            },
            None => Some(limit),
        }
    }

    /// Asking a pool to hold more never lowers what it may hold and keeps
    /// every instance in its free list; a smaller limit gives way to the
    /// larger one.
    pub proof fn law_increase_keeps(free: Seq<Instance<G>>, current: Option<Limit>, limit: Limit)
        requires
            within(current, free.len()),
        ensures
            kept(free, Self::increased(current, limit)) == free,
            current is None ==> Self::increased(current, limit) is None,
            current matches Some(held) ==> Self::increased(current, limit) == Some(
                if held@ < limit@ {
                    limit
                } else {
                    held
                },
            ),
            forall|len: nat| within(current, len) ==> within(Self::increased(current, limit), len),
    {
    }

    /// Asking a pool to hold less never raises what it may hold, and evicts
    /// nothing where its limit is no larger than the one asked for.
    pub proof fn law_decrease_lowers(free: Seq<Instance<G>>, current: Option<Limit>, limit: Limit)
        requires
            within(current, free.len()),
        ensures
            forall|len: nat|
                within(Self::decreased(current, limit), len) ==> within(current, len) && len
                    <= limit@,
            current matches Some(held) ==> (held@ <= limit@ ==> Self::decreased(current, limit)
                == current && kept(free, Self::decreased(current, limit)) == free),
    {
    }

    /// Asking a pool without a limit to hold less gives it the limit, and
    /// its free list is cut down to it.
    pub proof fn law_decrease_bounds(free: Seq<Instance<G>>, limit: Limit)
        ensures
            Self::decreased(None, limit) == Some(limit),
            kept(free, Self::decreased(None, limit)).len() <= limit@,
            kept(free, Self::decreased(None, limit)) == if free.len() > limit@ {
                free.take(limit@ as int)
            } else {
                free
            },
    {
    }

    /// Resize the pool to be able to hold `limit` actor instances or more,
    /// returning the old value.
    ///
    /// The limit only goes up: a smaller limit gives way to `limit`, and a
    /// pool without a limit stays without one. No instance is evicted.
    pub fn increase_limit(&mut self, limit: Limit) -> (previous: Option<Limit>)
        ensures
            previous == old(self).limit(),
            final(self).limit() == Self::increased(old(self).limit(), limit),
            old(self).limit() is None ==> final(self).limit() is None,
            final(self).free_list() == old(self).free_list(),
            within(final(self).limit(), final(self).free_list().len()),
            final(self).actor() == old(self).actor(),
    {
        proof {
            use_type_invariant(&self.instances);
        }
        match self.instances.get_limit() {
            Some(current) => {
                if current.get() < limit.get() {
                    self.instances.set_limit(Some(limit))
                } else {
                    Some(current)
                }
            },
            None => None,
        }
    }

    /// Resize the pool to be able to hold `limit` actor instances or less,
    /// returning the old value.
    ///
    /// The limit only goes down: a larger limit, or none, gives way to
    /// `limit`, and the instances that were released longest ago are
    /// dropped where the free list is longer. Where the limit stays, the
    /// free list stays as well.
    pub fn decrease_limit(&mut self, limit: Limit) -> (previous: Option<Limit>)
        ensures
            previous == old(self).limit(),
            final(self).limit() == Self::decreased(old(self).limit(), limit),
            final(self).free_list() == kept(old(self).free_list(), final(self).limit()),
            old(self).limit() matches Some(held) ==> (held@ <= limit@ ==> final(self).free_list()
                == old(self).free_list()),
            within(final(self).limit(), final(self).free_list().len()),
            final(self).actor() == old(self).actor(),
    {
        proof {
            use_type_invariant(&self.instances);
        }
        match self.instances.get_limit() {
            Some(current) => {
                if current.get() > limit.get() {
                    self.instances.set_limit(Some(limit))
                } else {
                    Some(current)
                }
            },
            None => self.instances.set_limit(Some(limit)),
        }
    }

    /// Lends the instance that was released last, if the free list holds
    /// any; else asks for a guest to be set up.
    ///
    /// The engine is asked for nothing while the free list holds an
    /// instance.
    pub fn instantiate(&mut self, runtime: Runtime) -> (checkout: Checkout<G>)
        ensures
            final(self).limit() == old(self).limit(),
            final(self).actor() == old(self).actor(),
            old(self).free_list().len() > 0 ==> checkout == Checkout::Warm(
                PooledInstance::lending(old(self).free_list()[0], runtime),
            ) && final(self).free_list() == old(self).free_list().skip(1),
            old(self).free_list().len() == 0 ==> checkout == Checkout::<G>::Cold(runtime)
                && final(self).free_list() == old(self).free_list(),
            checkout matches Checkout::Warm(warm) ==> warm.instance() == old(self).free_list()[0]
                && warm.runtime() == runtime,
    {
        match self.instances.pop() {
            Some(instance) => Checkout::Warm(PooledInstance { instance, runtime }),
            None => Checkout::Cold(runtime),
        }
    }

    /// The instance on loan that `guest` makes, where the engine could set
    /// a guest up for the actor of the pool.
    pub open spec fn spec_adopt(&self, runtime: Runtime, guest: Result<Guest<G>, String>) -> Result<
        PooledInstance<G>,
        InstantiateError,
    > {
        match self.actor().spec_instantiate(guest) {
            Ok(instance) => Ok(PooledInstance::lending(instance, runtime)),
            Err(e) => Err(e),
        }
    }

    /// Instantiate the actor and return a [PooledInstance] on success:
    /// wraps the guest that the engine set up after the pool had no warm
    /// instance to lend.
    pub fn adopt(&self, runtime: Runtime, guest: Result<Guest<G>, String>) -> (r: Result<
        PooledInstance<G>,
        InstantiateError,
    >)
        ensures
            r == self.spec_adopt(runtime, guest),
            r is Ok <==> guest is Ok,
            r matches Ok(pooled) ==> self.actor().spec_instantiate(guest) == Ok::<
                Instance<G>,
                InstantiateError,
            >(pooled.instance()) && pooled.runtime() == runtime,
    {
        match self.actor.instantiate(guest) {
            Ok(instance) => Ok(PooledInstance { instance, runtime }),
            Err(e) => Err(e),
        }
    }

    /// Takes an instance on loan back: it is reset, the guest starting over
    /// from `state`, and returns to the head of the free list. Where the
    /// limit leaves no room for it, it is dropped and the free list stays
    /// as it is.
    pub fn release(&mut self, pooled: PooledInstance<G>, state: G)
        ensures
            final(self).limit() == old(self).limit(),
            final(self).actor() == old(self).actor(),
            final(self).free_list() == returned(
                old(self).free_list(),
                old(self).limit(),
                pooled.instance().spec_reset(pooled.runtime(), state),
            ),
            final(self).free_list().len() == old(self).free_list().len() + 1 || (final(self)
                .free_list() == old(self).free_list() && at_limit(
                old(self).limit(),
                old(self).free_list().len(),
            )),
            within(final(self).limit(), final(self).free_list().len()),
            has_room(old(self).limit(), old(self).free_list().len()) ==> {
                let head = final(self).free_list()[0];
                &&& head.state() == state
                &&& head.handler() == pooled.runtime().handler()
                &&& head.same_kind(&pooled.instance())
            },
    {
        proof {
            use_type_invariant(&self.instances);
            pooled.instance().lemma_reset(pooled.runtime(), state);
        }
        let mut instance = pooled.instance;
        instance.reset(&pooled.runtime, state);
        let _ = self.instances.push(instance);
    }
}

impl<G> core::ops::Deref for InstancePool<G> {
    type Target = Actor;

    /// The actor that the pool lends instances of.
    fn deref(&self) -> (actor: &Actor)
        ensures
            *actor == self.actor(),
    {
        &self.actor
    }
}

impl<G> vstd::std_specs::convert::FromSpecImpl<Actor> for InstancePool<G> {
    /// The conversion is stated by the contract of `from` itself.
    open spec fn obeys_from_spec() -> bool {
        false
    }

    open spec fn from_spec(actor: Actor) -> InstancePool<G> {
        arbitrary()
    }
}

impl<G> From<Actor> for InstancePool<G> {
    /// The pool of `actor` without a limit.
    fn from(actor: Actor) -> (pool: Self)
        ensures
            pool.actor() == actor,
            pool.free_list() == Seq::<Instance<G>>::empty(),
            pool.limit() is None,
    {
        Self::new(actor, None)
    }
}

} // verus!
