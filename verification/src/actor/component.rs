//! The component backend: artifacts in the component encoding and their instances.

use crate::actor::{load_claims, loaded_claims, Exports, Guest};
use crate::capability::{
    share, Bus, Capability, Handler, HandlerBuilder, IncomingHttp, KeyValueReadWrite, Logging,
    Messaging,
};
use crate::claims::{
    clone_claims, embedded_token, validation_of, ActorClaims, TokenValidation,
};
use crate::error::{CallError, InstantiateError, Interface, LoadError};
use crate::runtime::Runtime;
use std::sync::Arc;
use vstd::prelude::*;
use vstd::slice::*;
use vstd::string::*;

verus! {

/// What a failed call into a component is reported with.
pub const CALL_FAILED: &'static str = "failed to call component";

/// A pre-loaded actor in the component encoding: the bytes of the artifact, the
/// claims that were accepted with it, and the handlers that its instances
/// start with. Its copies share the bytes.
pub struct ComponentActor {
    wasm: Arc<Vec<u8>>,
    claims: Option<ActorClaims>,
    handler: HandlerBuilder,
}

/// An instance of a [`ComponentActor`]: the state that the engine keeps for the guest,
/// the handlers installed on it, and the interfaces that the guest exports.
pub struct ComponentInstance<G> {
    state: G,
    handler: Handler,
    exports: Exports,
}

impl ComponentActor {
    /// The bytes of the artifact.
    pub closed spec fn wasm(&self) -> Seq<u8> {
        (*self.wasm)@
    }

    /// The claims that were accepted with the artifact.
    pub closed spec fn spec_claims(&self) -> Option<ActorClaims> {
        self.claims
    }

    /// The handlers that a fresh instance holds.
    pub closed spec fn handler(&self) -> HandlerBuilder {
        self.handler
    }

    /// Whether `r` is what loading the artifact `wasm` under `rt` comes to,
    /// where validating its token, if it carries one, gave `validation`:
    /// an actor of these bytes with the claims that are accepted and the
    /// handlers of the runtime; or the failure to come by the claims.
    pub open spec fn loads(
        r: Result<Self, LoadError>,
        rt: Runtime,
        wasm: Seq<u8>,
        validation: Result<TokenValidation, wascap::Error>,
    ) -> bool {
        &&& validation_of(embedded_token(wasm), validation)
        &&& match loaded_claims(wasm, validation, rt.config()) {
            Ok(claims) => r matches Ok(actor) && actor.wasm() == wasm && actor.spec_claims()
                == claims && actor.handler() == rt.handler(),
            Err(e) => r matches Err(failure) && failure == e,
        }
    }

    /// Extracts and validates the claims of the artifact `wasm` and keeps
    /// its bytes for the engine.
    ///
    /// Fails exactly where the claims cannot be had, are refused, or are
    /// absent though the runtime requires a signature.
    pub fn new(rt: &Runtime, wasm: &[u8]) -> (r: Result<Self, LoadError>)
        ensures
            exists|validation: Result<TokenValidation, wascap::Error>| #[trigger]
                Self::loads(r, *rt, wasm@, validation),
    {
        let found = load_claims(rt, wasm);
        let ghost validation = choose|validation: Result<TokenValidation, wascap::Error>|
            validation_of(embedded_token(wasm@), validation) && found == loaded_claims(
                wasm@,
                validation,
                rt.config(),
            );
        proof {
            if found is Err {
                assert(Self::loads(Err(found->Err_0), *rt, wasm@, validation));
            }
        }
        match found {
            Ok(claims) => {
                let actor = ComponentActor {
                    wasm: Arc::new(slice_to_vec(wasm)),
                    claims,
                    handler: rt.default_handler().clone(),
                };
                assert(Self::loads(Ok(actor), *rt, wasm@, validation));
                Ok(actor)
            },
            Err(e) => Err(e),
        }
    }

    /// [ActorClaims] associated with this [ComponentActor].
    pub fn claims(&self) -> (claims: Option<&ActorClaims>)
        ensures
            match claims {
                Some(claims) => self.spec_claims() == Some(*claims),
                None => self.spec_claims() is None,
            },
    {
        self.claims.as_ref()
    }

    /// The bytes of the artifact, for the engine to compile.
    pub fn bytes(&self) -> (bytes: &Vec<u8>)
        ensures
            bytes@ == self.wasm(),
    {
        &*self.wasm
    }

    /// The instance that `guest` makes, where the engine could set a guest
    /// up for this artifact.
    pub open spec fn spec_instantiate<G>(&self, guest: Result<Guest<G>, String>) -> Result<
        ComponentInstance<G>,
        InstantiateError,
    > {
        match guest {
            Ok(guest) => Ok(ComponentInstance::fresh(guest, self.handler())),
            Err(detail) => Err(InstantiateError::InstantiationFailed { detail }),
        }
    }

    /// Instantiate the component: wraps the guest that the engine set up with
    /// the handlers that a fresh instance holds.
    pub fn instantiate<G>(&self, guest: Result<Guest<G>, String>) -> (r: Result<
        ComponentInstance<G>,
        InstantiateError,
    >)
        ensures
            r == self.spec_instantiate(guest),
    {
        match guest {
            Ok(guest) => Ok(ComponentInstance::new(guest, self.handler.clone())),
            Err(detail) => Err(InstantiateError::InstantiationFailed { detail }),
        }
    }

    /// Like [Self::instantiate], but moves the [ComponentActor].
    pub fn into_instance<G>(self, guest: Result<Guest<G>, String>) -> (r: Result<
        ComponentInstance<G>,
        InstantiateError,
    >)
        ensures
            r == self.spec_instantiate(guest),
    {
        match guest {
            Ok(guest) => Ok(ComponentInstance::new(guest, self.handler)),
            Err(detail) => Err(InstantiateError::InstantiationFailed { detail }),
        }
    }

    /// Like [Self::instantiate], but moves the [ComponentActor] and returns the
    /// associated claims.
    pub fn into_instance_claims<G>(self, guest: Result<Guest<G>, String>) -> (r: Result<
        (ComponentInstance<G>, Option<ActorClaims>),
        InstantiateError,
    >)
        ensures
            match self.spec_instantiate(guest) {
                Ok(instance) => r matches Ok(pair) && pair == (instance, self.spec_claims()),
                Err(e) => r matches Err(failure) && failure == e,
            },
    {
        match guest {
            Ok(guest) => Ok((ComponentInstance::new(guest, self.handler), self.claims)),
            Err(detail) => Err(InstantiateError::InstantiationFailed { detail }),
        }
    }
}

impl Clone for ComponentActor {
    fn clone(&self) -> (copy: Self)
        ensures
            copy.wasm() == self.wasm(),
            copy.handler() == self.handler(),
            copy.spec_claims() == self.spec_claims(),
    {
        let claims = match &self.claims {
            Some(claims) => Some(clone_claims(claims)),
            None => None,
        };
        ComponentActor { wasm: share(&self.wasm), claims, handler: self.handler.clone() }
    }
}

impl<G> ComponentInstance<G> {
    /// The state that the engine keeps for the guest.
    pub closed spec fn state(&self) -> G {
        self.state
    }

    /// The handlers installed on the instance.
    pub closed spec fn handler(&self) -> HandlerBuilder {
        self.handler@
    }

    /// The interfaces that the guest exports.
    pub closed spec fn exports(&self) -> Exports {
        self.exports
    }

    /// The instance that holds `guest` and the handlers of `handler`.
    pub closed spec fn fresh(guest: Guest<G>, handler: HandlerBuilder) -> Self {
        ComponentInstance {
            state: guest.state,
            handler: Handler::holding(handler),
            exports: guest.exports,
        }
    }

    /// What a fresh instance holds.
    pub proof fn lemma_fresh(guest: Guest<G>, handler: HandlerBuilder)
        ensures
            Self::fresh(guest, handler).state() == guest.state,
            Self::fresh(guest, handler).handler() == handler,
            Self::fresh(guest, handler).exports() == guest.exports,
    {
        Handler::lemma_holding(handler);
    }

    /// Whether `self` and `other` are the same guest, with the same exports: they may differ in
    /// their handlers only.
    pub open spec fn same_guest(&self, other: &Self) -> bool {
        self.state() == other.state() && self.exports() == other.exports()
    }

    /// Wraps a guest that the engine set up, with the handlers of `handler`.
    pub(crate) fn new(guest: Guest<G>, handler: HandlerBuilder) -> (instance: Self)
        ensures
            instance == Self::fresh(guest, handler),
    {
        let handler: Handler = Handler::from(handler);
        ComponentInstance { state: guest.state, handler, exports: guest.exports }
    }

    /// The instance after a reset under `rt`, the guest starting over from
    /// `state`.
    pub closed spec fn spec_reset(self, rt: Runtime, state: G) -> Self {
        ComponentInstance { state, handler: Handler::holding(rt.handler()), exports: self.exports }
    }

    /// What a reset instance holds.
    pub proof fn lemma_reset(self, rt: Runtime, state: G)
        ensures
            self.spec_reset(rt, state).state() == state,
            self.spec_reset(rt, state).handler() == rt.handler(),
            self.spec_reset(rt, state).exports() == self.exports(),
    {
        Handler::lemma_holding(rt.handler());
    }

    /// A reset instance is the fresh instance of the same guest state and exports
    /// under the handlers of the runtime.
    pub proof fn lemma_reset_as_fresh(self, rt: Runtime, state: G, exports: Exports)
        requires
            self.exports() == exports,
        ensures
            self.spec_reset(rt, state) == Self::fresh(Guest { state, exports }, rt.handler()),
    {
    }

    /// Reset [`ComponentInstance`] state to defaults: the guest starts over
    /// from `state`, and the handlers are those of the runtime again.
    pub fn reset(&mut self, rt: &Runtime, state: G)
        ensures
            *final(self) == old(self).spec_reset(*rt, state),
            final(self).state() == state,
            final(self).handler() == rt.handler(),
            final(self).exports() == old(self).exports(),
    {
        proof {
            Handler::lemma_holding(rt.handler());
        }
        self.state = state;
        self.handler = Handler::from(rt.default_handler().clone());
    }

    /// The state that the engine keeps for the guest.
    pub fn guest(&self) -> (state: &G)
        ensures
            *state == self.state(),
    {
        &self.state
    }

    /// The state that the engine keeps for the guest, for the engine to
    /// work on.
    pub fn guest_mut(&mut self) -> (state: &mut G)
        ensures
            *state == old(self).state(),
            final(self).state() == *final(state),
            final(self).handler() == old(self).handler(),
            final(self).exports() == old(self).exports(),
    {
        &mut self.state
    }

    /// The handlers installed on the instance.
    pub fn handlers(&self) -> (handler: &Handler)
        ensures
            handler@ == self.handler(),
    {
        &self.handler
    }

    /// Set [`Bus`] handler for this [ComponentInstance].
    pub fn bus(&mut self, bus: Arc<dyn Bus>) -> (this: &mut Self)
        ensures
            this.handler().bus == Some(bus),
            this.handler().same_but(old(self).handler(), Capability::Bus),
            this.same_guest(old(self)),
            *final(self) == *final(this),
    {
        let slot = Some(bus);
        self.put_bus(slot);
        self
    }

    /// Puts `slot` in the place of the [`Bus`] slot.
    pub(crate) fn put_bus(&mut self, slot: Option<Arc<dyn Bus>>)
        ensures
            final(self).handler().bus == slot,
            final(self).handler().same_but(old(self).handler(), Capability::Bus),
            final(self).same_guest(old(self)),
    {
        self.handler.put_bus(slot);
    }

    /// Set [`IncomingHttp`] handler for this [ComponentInstance].
    pub fn incoming_http(&mut self, incoming_http: Arc<dyn IncomingHttp>) -> (this: &mut Self)
        ensures
            this.handler().incoming_http == Some(incoming_http),
            this.handler().same_but(old(self).handler(), Capability::IncomingHttp),
            this.same_guest(old(self)),
            *final(self) == *final(this),
    {
        let slot = Some(incoming_http);
        self.put_incoming_http(slot);
        self
    }

    /// Puts `slot` in the place of the [`IncomingHttp`] slot.
    pub(crate) fn put_incoming_http(&mut self, slot: Option<Arc<dyn IncomingHttp>>)
        ensures
            final(self).handler().incoming_http == slot,
            final(self).handler().same_but(old(self).handler(), Capability::IncomingHttp),
            final(self).same_guest(old(self)),
    {
        self.handler.put_incoming_http(slot);
    }

    /// Set [`KeyValueReadWrite`] handler for this [ComponentInstance].
    pub fn keyvalue_readwrite(&mut self, keyvalue_readwrite: Arc<dyn KeyValueReadWrite>) -> (this:
        &mut Self)
        ensures
            this.handler().keyvalue_readwrite == Some(keyvalue_readwrite),
            this.handler().same_but(old(self).handler(), Capability::KeyValueReadWrite),
            this.same_guest(old(self)),
            *final(self) == *final(this),
    {
        let slot = Some(keyvalue_readwrite);
        self.put_keyvalue_readwrite(slot);
        self
    }

    /// Puts `slot` in the place of the [`KeyValueReadWrite`] slot.
    pub(crate) fn put_keyvalue_readwrite(&mut self, slot: Option<Arc<dyn KeyValueReadWrite>>)
        ensures
            final(self).handler().keyvalue_readwrite == slot,
            final(self).handler().same_but(old(self).handler(), Capability::KeyValueReadWrite),
            final(self).same_guest(old(self)),
    {
        self.handler.put_keyvalue_readwrite(slot);
    }

    /// Set [`Logging`] handler for this [ComponentInstance].
    pub fn logging(&mut self, logging: Arc<dyn Logging>) -> (this: &mut Self)
        ensures
            this.handler().logging == Some(logging),
            this.handler().same_but(old(self).handler(), Capability::Logging),
            this.same_guest(old(self)),
            *final(self) == *final(this),
    {
        let slot = Some(logging);
        self.put_logging(slot);
        self
    }

    /// Puts `slot` in the place of the [`Logging`] slot.
    pub(crate) fn put_logging(&mut self, slot: Option<Arc<dyn Logging>>)
        ensures
            final(self).handler().logging == slot,
            final(self).handler().same_but(old(self).handler(), Capability::Logging),
            final(self).same_guest(old(self)),
    {
        self.handler.put_logging(slot);
    }

    /// Set [`Messaging`] handler for this [ComponentInstance].
    pub fn messaging(&mut self, messaging: Arc<dyn Messaging>) -> (this: &mut Self)
        ensures
            this.handler().messaging == Some(messaging),
            this.handler().same_but(old(self).handler(), Capability::Messaging),
            this.same_guest(old(self)),
            *final(self) == *final(this),
    {
        let slot = Some(messaging);
        self.put_messaging(slot);
        self
    }

    /// Puts `slot` in the place of the [`Messaging`] slot.
    pub(crate) fn put_messaging(&mut self, slot: Option<Arc<dyn Messaging>>)
        ensures
            final(self).handler().messaging == slot,
            final(self).handler().same_but(old(self).handler(), Capability::Messaging),
            final(self).same_guest(old(self)),
    {
        self.handler.put_messaging(slot);
    }

    /// What a call into the guest comes to, given what the engine made of
    /// it: the guest's own result where the engine carried the call out, and
    /// a trap where it could not.
    pub open spec fn call_result(outcome: Result<Result<(), String>, String>, r: Result<
        Result<(), String>,
        CallError,
    >) -> bool {
        match outcome {
            Ok(result) => r == Ok::<Result<(), String>, CallError>(result),
            Err(cause) => r matches Err(CallError::GuestTrap { detail }) && detail@
                == CALL_FAILED@ + ": "@ + cause@,
        }
    }

    /// Concludes an operation that the engine ran on the guest: the
    /// outermost error tells that the guest could not be called, the
    /// innermost is the error of the guest itself.
    pub fn call(&mut self, outcome: Result<Result<(), String>, String>) -> (r: Result<
        Result<(), String>,
        CallError,
    >)
        ensures
            Self::call_result(outcome, r),
            *final(self) == *old(self),
    {
        Self::conclude(outcome)
    }

    /// What the engine made of a call, as the caller gets it.
    pub(crate) fn conclude(outcome: Result<Result<(), String>, String>) -> (r: Result<
        Result<(), String>,
        CallError,
    >)
        ensures
            Self::call_result(outcome, r),
    {
        match outcome {
            Ok(result) => Ok(result),
            Err(cause) => Err(
                CallError::GuestTrap {
                    detail: String::from_str(CALL_FAILED).concat(": ").concat(cause.as_str()),
                },
            ),
        }
    }
}

impl<G> ComponentInstance<G> {
    /// The view of the instance through `interface`: there is one exactly
    /// where the guest exports the interface.
    pub open spec fn spec_bind(self, interface: Interface) -> Result<
        ComponentInterfaceInstance<G>,
        InstantiateError,
    > {
        if self.exports().has(interface) {
            Ok(ComponentInterfaceInstance::binding(self, interface))
        } else {
            Err(InstantiateError::ExportMissing { interface })
        }
    }

    /// Binds `interface` of the guest.
    pub fn bind(self, interface: Interface) -> (r: Result<
        ComponentInterfaceInstance<G>,
        InstantiateError,
    >)
        ensures
            r == self.spec_bind(interface),
    {
        if self.exports.provides(interface) {
            Ok(ComponentInterfaceInstance { instance: self, interface })
        } else {
            Err(InstantiateError::ExportMissing { interface })
        }
    }

    /// The view of the instance through the operation dispatch: there is
    /// one exactly where the guest exports it.
    pub open spec fn spec_into_guest(self) -> Result<ComponentGuestInstance<G>, InstantiateError> {
        if self.exports().guest {
            Ok(ComponentGuestInstance::viewing(self))
        } else {
            Err(InstantiateError::ExportMissing { interface: Interface::Guest })
        }
    }

    /// Returns a [`ComponentGuestInstance`] if the guest exports the operation
    /// dispatch.
    pub fn into_guest(self) -> (r: Result<ComponentGuestInstance<G>, InstantiateError>)
        ensures
            r == self.spec_into_guest(),
    {
        if self.exports.guest {
            Ok(ComponentGuestInstance { instance: self })
        } else {
            Err(InstantiateError::ExportMissing { interface: Interface::Guest })
        }
    }

    /// Returns the view through `wasi:http/incoming-handler` if the guest
    /// exports it.
    pub fn into_incoming_http(self) -> (r: Result<ComponentInterfaceInstance<G>, InstantiateError>)
        ensures
            r == self.spec_bind(Interface::IncomingHttp),
    {
        self.bind(Interface::IncomingHttp)
    }

    /// Returns the view through `wasi:logging/logging` if the guest exports
    /// it.
    pub fn into_logging(self) -> (r: Result<ComponentInterfaceInstance<G>, InstantiateError>)
        ensures
            r == self.spec_bind(Interface::Logging),
    {
        self.bind(Interface::Logging)
    }
}

/// A component instance seen through the operation dispatch that it exports.
pub struct ComponentGuestInstance<G> {
    instance: ComponentInstance<G>,
}

impl<G> ComponentGuestInstance<G> {
    /// The instance behind the view.
    pub closed spec fn instance(&self) -> ComponentInstance<G> {
        self.instance
    }

    /// The view of `instance`.
    pub closed spec fn viewing(instance: ComponentInstance<G>) -> Self {
        ComponentGuestInstance { instance }
    }

    /// The view of an instance is a view of that instance.
    pub proof fn lemma_viewing(instance: ComponentInstance<G>)
        ensures
            Self::viewing(instance).instance() == instance,
    {
    }

    /// The instance behind the view.
    pub fn get(&self) -> (instance: &ComponentInstance<G>)
        ensures
            *instance == self.instance(),
    {
        &self.instance
    }

    /// Gives the instance behind the view back.
    pub fn into_inner(self) -> (instance: ComponentInstance<G>)
        ensures
            instance == self.instance(),
    {
        self.instance
    }

    /// Concludes an operation that the engine ran on the guest.
    pub fn call(&self, outcome: Result<Result<(), String>, String>) -> (r: Result<
        Result<(), String>,
        CallError,
    >)
        ensures
            ComponentInstance::<G>::call_result(outcome, r),
    {
        ComponentInstance::<G>::conclude(outcome)
    }
}

/// A component instance seen through one interface that it exports.
pub struct ComponentInterfaceInstance<G> {
    instance: ComponentInstance<G>,
    interface: Interface,
}

impl<G> ComponentInterfaceInstance<G> {
    /// The instance behind the view.
    pub closed spec fn instance(&self) -> ComponentInstance<G> {
        self.instance
    }

    /// The interface that the view stands for.
    pub closed spec fn interface(&self) -> Interface {
        self.interface
    }

    /// The view of `instance` through `interface`.
    pub closed spec fn binding(instance: ComponentInstance<G>, interface: Interface) -> Self {
        ComponentInterfaceInstance { instance, interface }
    }

    /// The view of an instance through an interface is a view of that
    /// instance through that interface.
    pub proof fn lemma_binding(instance: ComponentInstance<G>, interface: Interface)
        ensures
            Self::binding(instance, interface).instance() == instance,
            Self::binding(instance, interface).interface() == interface,
    {
    }

    /// The instance behind the view.
    pub fn get(&self) -> (instance: &ComponentInstance<G>)
        ensures
            *instance == self.instance(),
    {
        &self.instance
    }

    /// The interface that the view stands for.
    pub fn bound(&self) -> (interface: Interface)
        ensures
            interface == self.interface(),
    {
        self.interface
    }

    /// Gives the instance behind the view back.
    pub fn into_inner(self) -> (instance: ComponentInstance<G>)
        ensures
            instance == self.instance(),
    {
        self.instance
    }
}

} // verus!
