use std::sync::atomic::{AtomicUsize, Ordering};
use std::sync::Arc;

use wasmcloud_runtime::{
    Actor, Bus, BusReply, CallError, Capability, Checkout, Config, Exports, Guest, HandlerBuilder,
    Instance, InstancePool, InstantiateError, Limit, PooledInstance, PooledInstances, Runtime,
};

const MODULE: [u8; 8] = [0x00, 0x61, 0x73, 0x6d, 0x01, 0x00, 0x00, 0x00];

const COMPONENT: [u8; 8] = [0x00, 0x61, 0x73, 0x6d, 0x0d, 0x00, 0x01, 0x00];

const NO_EXPORTS: Exports = Exports { guest: false, logging: false, incoming_http: false };

/// The state of a guest in these tests: a name, and a counter that tells
/// how many guests were destroyed.
struct State {
    name: u32,
    destroyed: Arc<AtomicUsize>,
}

impl Drop for State {
    fn drop(&mut self) {
        self.destroyed.fetch_add(1, Ordering::SeqCst);
    }
}

/// Stands for the engine: sets guests up and counts them.
struct Engine {
    instantiated: usize,
    destroyed: Arc<AtomicUsize>,
}

impl Engine {
    fn new() -> Self {
        Engine { instantiated: 0, destroyed: Arc::new(AtomicUsize::new(0)) }
    }

    fn state(&self, name: u32) -> State {
        State { name, destroyed: self.destroyed.clone() }
    }

    fn instantiate(&mut self, name: u32) -> Result<Guest<State>, String> {
        self.instantiated += 1;
        Ok(Guest { state: self.state(name), exports: NO_EXPORTS })
    }

    fn destroyed(&self) -> usize {
        self.destroyed.load(Ordering::SeqCst)
    }

    /// Asks the pool for an instance as a caller with an engine does.
    fn checkout(&mut self, pool: &mut InstancePool<State>, name: u32) -> PooledInstance<State> {
        match pool.instantiate(Runtime::default()) {
            Checkout::Warm(warm) => warm,
            Checkout::Cold(runtime) => {
                let guest = self.instantiate(name);
                pool.adopt(runtime, guest).unwrap()
            }
        }
    }

    /// Returns an instance to the pool as dropping it does; the guest keeps
    /// its name.
    fn release(&self, pool: &mut InstancePool<State>, pooled: PooledInstance<State>) {
        let name = pooled.get().guest().name;
        pool.release(pooled, self.state(name));
    }
}

struct Echo;

impl Bus for Echo {
    fn call(&self, _: String, request: Vec<u8>) -> Result<BusReply, CallError> {
        Ok(BusReply { response: request, result: Ok(()) })
    }
}

fn actor() -> Actor {
    Actor::new(&Runtime::default(), &MODULE).unwrap()
}

fn limit(slots: usize) -> Option<Limit> {
    Some(Limit::new(slots).unwrap())
}

fn instance(name: u32) -> Instance<u32> {
    actor().instantiate(Ok(Guest { state: name, exports: NO_EXPORTS })).unwrap()
}

fn names(pooled: &mut PooledInstances<u32>) -> Vec<u32> {
    let mut names = Vec::new();
    while let Some(instance) = pooled.pop() {
        names.push(*instance.guest());
    }
    names
}

fn filled(limit: Option<Limit>, count: u32) -> PooledInstances<u32> {
    let mut pooled = PooledInstances::new(limit);
    for name in 1..=count {
        assert!(pooled.push(instance(name)).is_none());
    }
    pooled
}

#[test]
fn limit_is_positive() {
    assert!(Limit::new(0).is_none());
    assert_eq!(Limit::new(1).unwrap().get(), 1);
    assert_eq!(Limit::new(usize::MAX).unwrap().get(), usize::MAX);
    assert!(Limit::new(2).unwrap() < Limit::new(3).unwrap());
    assert_eq!(Limit::new(4), Limit::new(4));
}

#[test]
fn new_free_list_is_empty() {
    let mut pooled: PooledInstances<u32> = PooledInstances::new(limit(3));
    assert_eq!(pooled.len(), 0);
    assert_eq!(pooled.get_limit(), limit(3));
    assert!(pooled.pop().is_none());
    assert_eq!(pooled.len(), 0);
    let pooled: PooledInstances<u32> = PooledInstances::new(None);
    assert_eq!(pooled.get_limit(), None);
}

#[test]
fn free_list_is_last_in_first_out() {
    let mut pooled = filled(None, 3);
    assert_eq!(pooled.len(), 3);
    assert_eq!(*pooled.pop().unwrap().guest(), 3);
    assert!(pooled.push(instance(4)).is_none());
    assert_eq!(names(&mut pooled), vec![4, 2, 1]);
    assert_eq!(pooled.len(), 0);
}

#[test]
fn push_beyond_the_limit_hands_the_instance_back() {
    let mut pooled = filled(limit(2), 2);
    let rejected = pooled.push(instance(3)).unwrap();
    assert_eq!(*rejected.guest(), 3);
    assert_eq!(pooled.len(), 2);
    assert_eq!(names(&mut pooled), vec![2, 1]);
    assert!(pooled.push(instance(5)).is_none());
    assert!(pooled.push(instance(6)).is_none());
    assert!(pooled.push(instance(7)).is_some());
}

#[test]
fn capacity_none_accepts_unbounded_returns() {
    let mut pooled = filled(None, 500);
    assert_eq!(pooled.len(), 500);
    assert_eq!(*pooled.pop().unwrap().guest(), 500);
}

#[test]
fn set_limit_returns_the_old_limit() {
    let mut pooled = filled(None, 2);
    assert_eq!(pooled.set_limit(limit(5)), None);
    assert_eq!(pooled.set_limit(limit(7)), limit(5));
    assert_eq!(pooled.set_limit(None), limit(7));
    assert_eq!(pooled.set_limit(None), None);
    assert_eq!(pooled.get_limit(), None);
    assert_eq!(names(&mut pooled), vec![2, 1]);
}

#[test]
fn set_limit_evicts_the_instances_released_longest_ago() {
    let mut pooled = filled(None, 5);
    assert_eq!(pooled.set_limit(limit(2)), None);
    assert_eq!(pooled.len(), 2);
    assert_eq!(pooled.get_limit(), limit(2));
    assert!(pooled.push(instance(6)).is_some());
    assert_eq!(names(&mut pooled), vec![5, 4]);
}

#[test]
fn set_limit_at_or_above_the_length_keeps_everything() {
    let mut pooled = filled(limit(3), 3);
    pooled.set_limit(limit(3));
    assert_eq!(pooled.len(), 3);
    pooled.set_limit(limit(10));
    assert_eq!(pooled.len(), 3);
    pooled.set_limit(None);
    assert_eq!(names(&mut pooled), vec![3, 2, 1]);
}

#[test]
fn free_list_stays_within_its_limit() {
    let mut pooled: PooledInstances<u32> = PooledInstances::new(limit(3));
    for step in 0..40u32 {
        match step % 7 {
            0 | 1 | 2 | 4 => {
                pooled.push(instance(step));
            }
            3 => {
                pooled.pop();
            }
            5 => {
                pooled.set_limit(limit(1 + (step as usize) % 4));
            }
            _ => {
                pooled.set_limit(limit(2));
            }
        }
        let bound = pooled.get_limit().unwrap().get();
        assert!(pooled.len() <= bound);
    }
}

#[test]
fn new_pool_is_empty() {
    let pool: InstancePool<u32> = InstancePool::new(actor(), limit(2));
    assert_eq!(pool.len(), 0);
    assert_eq!(pool.get_limit(), limit(2));
    assert!(matches!(pool.get_actor(), Actor::Module(_)));
    let pool: InstancePool<u32> = InstancePool::from(actor());
    assert_eq!(pool.len(), 0);
    assert_eq!(pool.get_limit(), None);
    let component = Actor::new(&Runtime::default(), &COMPONENT).unwrap();
    let pool: InstancePool<u32> = InstancePool::new(component, None);
    assert!(matches!(pool.get_actor(), Actor::Component(_)));
}

#[test]
fn empty_pool_asks_for_a_guest() {
    let mut pool: InstancePool<u32> = InstancePool::new(actor(), limit(2));
    let rt = Runtime::new(Config { require_signature: true }, HandlerBuilder::new());
    match pool.instantiate(rt) {
        Checkout::Cold(runtime) => assert!(runtime.actor_config().require_signature),
        Checkout::Warm(_) => panic!("an empty pool lent an instance"),
    }
    assert_eq!(pool.len(), 0);
}

#[test]
fn adopt_wraps_the_guest_of_the_engine() {
    let pool: InstancePool<u32> = InstancePool::new(actor(), None);
    let pooled = pool.adopt(Runtime::default(), Ok(Guest { state: 3, exports: NO_EXPORTS }));
    let pooled = pooled.ok().unwrap();
    assert_eq!(*pooled.get().guest(), 3);
    assert!(matches!(pooled.get(), Instance::Module(_)));
    assert_eq!(
        pool.adopt(Runtime::default(), Err("no memory".to_string())).err(),
        Some(InstantiateError::InstantiationFailed { detail: "no memory".to_string() })
    );
    assert_eq!(pool.len(), 0);
}

#[test]
fn pooled_instance_gives_its_instance() {
    let pool: InstancePool<u32> = InstancePool::new(actor(), None);
    let guest = Ok(Guest { state: 3, exports: NO_EXPORTS });
    let mut pooled = pool.adopt(Runtime::default(), guest).ok().unwrap();
    pooled.get_mut().bus(Arc::new(Echo));
    *pooled.get_mut().guest_mut() = 4;
    assert!(pooled.get().handlers().supports(Capability::Bus));
    let instance = Instance::from(pooled);
    assert_eq!(*instance.guest(), 4);
    assert!(instance.handlers().supports(Capability::Bus));
    assert_eq!(pool.len(), 0);
}

#[test]
fn pool_and_loan_are_read_through() {
    let pool: InstancePool<u32> = InstancePool::new(actor(), None);
    assert!(pool.claims().is_none());
    assert_eq!(pool.bytes(), &MODULE.to_vec());
    let guest = Ok(Guest { state: 3, exports: NO_EXPORTS });
    let pooled = pool.adopt(Runtime::default(), guest).ok().unwrap();
    assert_eq!(*pooled.guest(), 3);
    assert!(!pooled.handlers().supports(Capability::Logging));
}

#[test]
fn pool_reuse() {
    let mut engine = Engine::new();
    let mut pool = InstancePool::new(actor(), limit(2));
    let a = engine.checkout(&mut pool, 1);
    let b = engine.checkout(&mut pool, 2);
    assert_eq!(engine.instantiated, 2);
    engine.release(&mut pool, a);
    engine.release(&mut pool, b);
    assert_eq!(pool.len(), 2);
    let c = engine.checkout(&mut pool, 3);
    let d = engine.checkout(&mut pool, 4);
    assert_eq!(engine.instantiated, 2);
    assert_eq!(c.get().guest().name, 2);
    assert_eq!(d.get().guest().name, 1);
    assert_eq!(pool.len(), 0);
    let e = engine.checkout(&mut pool, 5);
    assert_eq!(engine.instantiated, 3);
    assert_eq!(e.get().guest().name, 5);
}

#[test]
fn warm_checkout_asks_the_engine_for_nothing() {
    let mut engine = Engine::new();
    let mut pool = InstancePool::new(actor(), None);
    let a = engine.checkout(&mut pool, 1);
    engine.release(&mut pool, a);
    assert!(matches!(pool.instantiate(Runtime::default()), Checkout::Warm(_)));
    assert!(matches!(pool.instantiate(Runtime::default()), Checkout::Cold(_)));
    assert_eq!(engine.instantiated, 1);
}

#[test]
fn pool_overflow_on_return() {
    let mut engine = Engine::new();
    let mut pool = InstancePool::new(actor(), limit(1));
    let a = engine.checkout(&mut pool, 1);
    let b = engine.checkout(&mut pool, 2);
    engine.release(&mut pool, b);
    assert_eq!(pool.len(), 1);
    // the state that a guest held before its reset is gone with the reset
    assert_eq!(engine.destroyed(), 1);
    engine.release(&mut pool, a);
    assert_eq!(pool.len(), 1);
    // A is destroyed: the state it held, and the one it was reset to
    assert_eq!(engine.destroyed(), 3);
    let warm = engine.checkout(&mut pool, 3);
    assert_eq!(warm.get().guest().name, 2);
    assert_eq!(engine.instantiated, 2);
}

#[test]
fn capacity_decrease_truncates() {
    let mut engine = Engine::new();
    let mut pool = InstancePool::new(actor(), None);
    let a = engine.checkout(&mut pool, 1);
    let b = engine.checkout(&mut pool, 2);
    let c = engine.checkout(&mut pool, 3);
    engine.release(&mut pool, a);
    engine.release(&mut pool, b);
    engine.release(&mut pool, c);
    assert_eq!(pool.len(), 3);
    let before = engine.destroyed();
    assert_eq!(pool.set_limit(limit(1)), None);
    assert_eq!(engine.destroyed() - before, 2);
    assert_eq!(pool.len(), 1);
    let warm = engine.checkout(&mut pool, 4);
    assert_eq!(engine.instantiated, 3);
    assert_eq!(warm.get().guest().name, 3);
    assert_eq!(pool.len(), 0);
}

#[test]
fn release_resets_the_instance() {
    let mut engine = Engine::new();
    let mut pool = InstancePool::new(actor(), None);
    let mut a = engine.checkout(&mut pool, 1);
    a.get_mut().bus(Arc::new(Echo));
    assert!(a.get().handlers().supports(Capability::Bus));
    pool.release(a, engine.state(10));
    let warm = engine.checkout(&mut pool, 2);
    assert_eq!(warm.get().guest().name, 10);
    assert!(!warm.get().handlers().supports(Capability::Bus));
}

#[test]
fn release_resets_under_the_runtime_of_the_loan() {
    let engine = Engine::new();
    let mut pool = InstancePool::new(actor(), None);
    let rt = Runtime::new(Config::default(), HandlerBuilder::new().bus(Arc::new(Echo)));
    let guest = Ok(Guest { state: engine.state(1), exports: NO_EXPORTS });
    let a = pool.adopt(rt, guest).ok().unwrap();
    assert!(!a.get().handlers().supports(Capability::Bus));
    pool.release(a, engine.state(1));
    match pool.instantiate(Runtime::default()) {
        Checkout::Warm(warm) => assert!(warm.get().handlers().supports(Capability::Bus)),
        Checkout::Cold(_) => panic!("the pool lost the instance"),
    }
}

#[test]
fn release_grows_the_free_list_by_one_or_leaves_it_at_the_limit() {
    let mut engine = Engine::new();
    let mut pool = InstancePool::new(actor(), limit(3));
    let loans: Vec<_> = (1..=5).map(|name| engine.checkout(&mut pool, name)).collect();
    for pooled in loans {
        let before = pool.len();
        engine.release(&mut pool, pooled);
        let after = pool.len();
        assert!(after == before + 1 || (after == before && before == 3));
        assert!(after <= 3);
    }
    assert_eq!(pool.len(), 3);
}

#[test]
fn pool_limits_are_read_and_set() {
    let mut pool: InstancePool<u32> = InstancePool::new(actor(), limit(4));
    assert_eq!(pool.get_limit(), limit(4));
    assert_eq!(pool.set_limit(limit(2)), limit(4));
    assert_eq!(pool.get_limit(), limit(2));
    assert_eq!(pool.set_limit(None), limit(2));
    assert_eq!(pool.get_limit(), None);
}

#[test]
fn increase_limit_only_raises() {
    let mut pool: InstancePool<u32> = InstancePool::new(actor(), limit(4));
    let to = |slots| Limit::new(slots).unwrap();
    assert_eq!(pool.increase_limit(to(6)), limit(4));
    assert_eq!(pool.get_limit(), limit(6));
    assert_eq!(pool.increase_limit(to(5)), limit(6));
    assert_eq!(pool.get_limit(), limit(6));
    assert_eq!(pool.increase_limit(to(6)), limit(6));
    assert_eq!(pool.get_limit(), limit(6));
}

#[test]
fn increase_limit_leaves_a_pool_without_limit_as_it_is() {
    let mut engine = Engine::new();
    let mut pool = InstancePool::new(actor(), None);
    let loans: Vec<_> = (1..=3).map(|name| engine.checkout(&mut pool, name)).collect();
    for pooled in loans {
        engine.release(&mut pool, pooled);
    }
    let before = engine.destroyed();
    assert_eq!(pool.increase_limit(Limit::new(2).unwrap()), None);
    assert_eq!(pool.get_limit(), None);
    assert_eq!(pool.len(), 3);
    assert_eq!(engine.destroyed(), before);
    assert_eq!(engine.checkout(&mut pool, 9).get().guest().name, 3);
    assert_eq!(engine.checkout(&mut pool, 9).get().guest().name, 2);
    assert_eq!(engine.checkout(&mut pool, 9).get().guest().name, 1);
    assert_eq!(engine.instantiated, 3);
}

#[test]
fn increase_limit_never_evicts() {
    let mut engine = Engine::new();
    let mut pool = InstancePool::new(actor(), limit(3));
    let loans: Vec<_> = (1..=3).map(|name| engine.checkout(&mut pool, name)).collect();
    for pooled in loans {
        engine.release(&mut pool, pooled);
    }
    let before = engine.destroyed();
    for slots in [1, 2, 3, 4, 2, 9] {
        pool.increase_limit(Limit::new(slots).unwrap());
        assert_eq!(pool.len(), 3);
    }
    assert_eq!(pool.get_limit(), limit(9));
    assert_eq!(engine.destroyed(), before);
}

#[test]
fn decrease_limit_that_lowers_nothing_evicts_nothing() {
    let mut engine = Engine::new();
    let mut pool = InstancePool::new(actor(), limit(3));
    let loans: Vec<_> = (1..=3).map(|name| engine.checkout(&mut pool, name)).collect();
    for pooled in loans {
        engine.release(&mut pool, pooled);
    }
    let before = engine.destroyed();
    assert_eq!(pool.decrease_limit(Limit::new(3).unwrap()), limit(3));
    assert_eq!(pool.decrease_limit(Limit::new(7).unwrap()), limit(3));
    assert_eq!(pool.get_limit(), limit(3));
    assert_eq!(pool.len(), 3);
    assert_eq!(engine.destroyed(), before);
    assert_eq!(engine.checkout(&mut pool, 9).get().guest().name, 3);
}

#[test]
fn increase_limit_from_a_smaller_cap_preserves_all_entries() {
    let mut engine = Engine::new();
    let mut pool = InstancePool::new(actor(), limit(2));
    let a = engine.checkout(&mut pool, 1);
    let b = engine.checkout(&mut pool, 2);
    engine.release(&mut pool, a);
    engine.release(&mut pool, b);
    let before = engine.destroyed();
    assert_eq!(pool.increase_limit(Limit::new(5).unwrap()), limit(2));
    assert_eq!(pool.len(), 2);
    assert_eq!(engine.destroyed(), before);
    assert_eq!(engine.checkout(&mut pool, 9).get().guest().name, 2);
    assert_eq!(engine.checkout(&mut pool, 9).get().guest().name, 1);
}

#[test]
fn decrease_limit_only_lowers() {
    let mut pool: InstancePool<u32> = InstancePool::new(actor(), limit(4));
    let to = |slots| Limit::new(slots).unwrap();
    assert_eq!(pool.decrease_limit(to(6)), limit(4));
    assert_eq!(pool.get_limit(), limit(4));
    assert_eq!(pool.decrease_limit(to(4)), limit(4));
    assert_eq!(pool.get_limit(), limit(4));
    assert_eq!(pool.decrease_limit(to(1)), limit(4));
    assert_eq!(pool.get_limit(), limit(1));
}

#[test]
fn decrease_limit_from_none_sets_a_cap_and_truncates() {
    let mut engine = Engine::new();
    let mut pool = InstancePool::new(actor(), None);
    let loans: Vec<_> = (1..=4).map(|name| engine.checkout(&mut pool, name)).collect();
    for pooled in loans {
        engine.release(&mut pool, pooled);
    }
    let before = engine.destroyed();
    assert_eq!(pool.decrease_limit(Limit::new(3).unwrap()), None);
    assert_eq!(pool.get_limit(), limit(3));
    assert_eq!(pool.len(), 3);
    assert_eq!(engine.destroyed() - before, 1);
    assert_eq!(engine.checkout(&mut pool, 9).get().guest().name, 4);
}

#[test]
fn decrease_limit_evicts_down_to_the_new_limit() {
    let mut engine = Engine::new();
    let mut pool = InstancePool::new(actor(), limit(3));
    let loans: Vec<_> = (1..=3).map(|name| engine.checkout(&mut pool, name)).collect();
    for pooled in loans {
        engine.release(&mut pool, pooled);
    }
    assert_eq!(pool.decrease_limit(Limit::new(2).unwrap()), limit(3));
    assert_eq!(pool.len(), 2);
    assert_eq!(engine.checkout(&mut pool, 9).get().guest().name, 3);
    assert_eq!(engine.checkout(&mut pool, 9).get().guest().name, 2);
    assert_eq!(engine.instantiated, 3);
    assert_eq!(engine.checkout(&mut pool, 9).get().guest().name, 9);
}
