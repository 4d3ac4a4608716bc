//! Actors: artifacts prepared for execution, and the instances made of them.

pub mod component;
pub mod module;

pub use component::{
    ComponentActor, ComponentGuestInstance, ComponentInstance, ComponentInterfaceInstance,
};
pub use module::{ModuleActor, ModuleGuestInstance, ModuleInstance};

use crate::capability::{
    Bus, Capability, Handler, HandlerBuilder, IncomingHttp, KeyValueReadWrite, Logging, Messaging,
};
use crate::claims::{
    claims, claims_outcome, embedded_token, token_signature, validation_of, ActorClaims,
    EmbeddedToken, TokenValidation,
};
use crate::error::{CallError, InstantiateError, Interface, LoadError, TokenFault};
use crate::runtime::Runtime;
use std::sync::Arc;
use vstd::prelude::*;

verus! {

/// Actor instance configuration
#[derive(Clone, Copy, Debug)]
pub struct Config {
    /// Whether actors are required to be signed to be executed
    pub require_signature: bool,
}

impl Default for Config {
    fn default() -> (config: Self)
        ensures
            config == (Config { require_signature: false }),
    {
        Config { require_signature: false }
    }
}

/// The two encodings of a WebAssembly binary.
#[derive(Clone, Copy, Debug, PartialEq, Eq)]
pub enum Encoding {
    /// A core module
    Module,
    /// A component of the component model
    Component,
}

/// What a parser finds first in a binary.
#[derive(Clone, Copy, Debug, PartialEq, Eq)]
pub enum FirstPayload {
    /// Nothing at all
    Missing,
    /// Bytes that are no binary header
    Malformed,
    /// The header, which states the encoding
    Version(Encoding),
    /// Anything else
    Other,
}

/// Whether `wasm` begins with the magic number of WebAssembly binaries and,
/// behind it, the four bytes `version`.
pub open spec fn has_header(wasm: Seq<u8>, version: Seq<u8>) -> bool {
    wasm.len() >= 8 && wasm.subrange(0, 4) == seq![0u8, 0x61u8, 0x73u8, 0x6du8] && wasm.subrange(
        4,
        8,
    ) == version
}

/// Whether `wasm` begins as a core module does.
pub open spec fn is_module_encoded(wasm: Seq<u8>) -> bool {
    has_header(wasm, seq![0x01u8, 0x00u8, 0x00u8, 0x00u8])
}

/// Whether `wasm` begins as a component does.
pub open spec fn is_component_encoded(wasm: Seq<u8>) -> bool {
    has_header(wasm, seq![0x0du8, 0x00u8, 0x01u8, 0x00u8])
}

/// The first payload of the bytes `wasm`: the header of a module or of a
/// component, and malformed in every other case.
pub open spec fn spec_first_payload(wasm: Seq<u8>) -> FirstPayload {
    if is_module_encoded(wasm) {
        FirstPayload::Version(Encoding::Module)
    } else if is_component_encoded(wasm) {
        FirstPayload::Version(Encoding::Component)
    } else {
        FirstPayload::Malformed
    }
}

/// `wasmparser::Parser::parse_all`, up to the first payload, on a parser
/// made by `wasmparser::Parser::new` for offset 0. A new parser reads the
/// eight bytes of the header first: the magic number, then version and layer,
/// which are 1 and 0 for a module and 13 and 1 for a component. It fails on
/// anything else, and on fewer than eight bytes.
#[verifier::external_body]
fn first_payload(wasm: &[u8]) -> (r: FirstPayload)
    ensures
        r == spec_first_payload(wasm@),
{
    match wasmparser::Parser::new(0).parse_all(wasm).next() {
        None => FirstPayload::Missing,
        Some(Err(_)) => FirstPayload::Malformed,
        Some(Ok(wasmparser::Payload::Version { encoding: wasmparser::Encoding::Module, .. })) => {
            FirstPayload::Version(Encoding::Module)
        },
        Some(
            Ok(wasmparser::Payload::Version { encoding: wasmparser::Encoding::Component, .. }),
        ) => FirstPayload::Version(Encoding::Component),
        Some(Ok(_)) => FirstPayload::Other,
    }
}

/// The encoding that an artifact is loaded as: a component where its first
/// payload says so, and a module in every other case, malformed bytes
/// among them.
pub open spec fn spec_encoding(wasm: Seq<u8>) -> Encoding {
    if is_component_encoded(wasm) {
        Encoding::Component
    } else {
        Encoding::Module
    }
}

/// The encoding that the artifact `wasm` is loaded as.
pub fn encoding(wasm: &[u8]) -> (r: Encoding)
    ensures
        r == spec_encoding(wasm@),
{
    match first_payload(wasm) {
        FirstPayload::Version(Encoding::Component) => Encoding::Component,
        _ => Encoding::Module,
    }
}

/// The claims that an artifact is loaded with under `config`, given what
/// extracting and validating its claims gave: an artifact without claims is
/// refused where signatures are required.
pub open spec fn required_claims(found: Result<Option<ActorClaims>, LoadError>, config: Config)
    -> Result<Option<ActorClaims>, LoadError> {
    match found {
        Ok(None) => if config.require_signature {
            Err(LoadError::SignatureRequiredButAbsent)
        } else {
            Ok(None)
        },
        found => found,
    }
}

/// Holds the claims found in an artifact against `config`.
pub fn require_claims(found: Result<Option<ActorClaims>, LoadError>, config: &Config) -> (r: Result<
    Option<ActorClaims>,
    LoadError,
>)
    ensures
        r == required_claims(found, *config),
{
    match found {
        Ok(None) => {
            if config.require_signature {
                Err(LoadError::SignatureRequiredButAbsent)
            } else {
                Ok(None)
            }
        },
        found => found,
    }
}

/// The claims that the artifact `wasm` is loaded with under `config`, where
/// validating its token, if it carries one, gave `validation`.
pub open spec fn loaded_claims(
    wasm: Seq<u8>,
    validation: Result<TokenValidation, wascap::Error>,
    config: Config,
) -> Result<Option<ActorClaims>, LoadError> {
    required_claims(claims_outcome(embedded_token(wasm), validation), config)
}

/// An artifact is loaded with claims only where it carries a token with
/// these claims and the validation of that token passed.
pub proof fn law_claims_validated(
    wasm: Seq<u8>,
    validation: Result<TokenValidation, wascap::Error>,
    config: Config,
    claims: ActorClaims,
)
    requires
        validation_of(embedded_token(wasm), validation),
        loaded_claims(wasm, validation, config) == Ok::<Option<ActorClaims>, LoadError>(
            Some(claims),
        ),
    ensures
        validation matches Ok(validation) && validation.passes(),
        embedded_token(wasm) matches Ok(Some(token)) && token.claims == claims
            && token_signature(token.jwt@) == Some(true),
{
}

/// An artifact without claims is loaded exactly where no signature is
/// required.
pub proof fn law_signature_required(
    wasm: Seq<u8>,
    validation: Result<TokenValidation, wascap::Error>,
    config: Config,
)
    requires
        embedded_token(wasm) == Ok::<Option<EmbeddedToken>, ()>(None),
    ensures
        loaded_claims(wasm, validation, config) == if config.require_signature {
            Err::<Option<ActorClaims>, LoadError>(LoadError::SignatureRequiredButAbsent)
        } else {
            Ok::<Option<ActorClaims>, LoadError>(None)
        },
{
}

/// Extracts and validates the claims of the artifact `wasm` and holds them
/// against the configuration of `rt`.
pub fn load_claims(rt: &Runtime, wasm: &[u8]) -> (r: Result<Option<ActorClaims>, LoadError>)
    ensures
        exists|validation: Result<TokenValidation, wascap::Error>|
            validation_of(embedded_token(wasm@), validation) && r == #[trigger] loaded_claims(
                wasm@,
                validation,
                rt.config(),
            ),
{
    let found = claims(wasm);
    let ghost validation = choose|validation: Result<TokenValidation, wascap::Error>|
        validation_of(embedded_token(wasm@), validation) && found == claims_outcome(
            embedded_token(wasm@),
            validation,
        );
    let r = require_claims(found, rt.actor_config());
    assert(r == loaded_claims(wasm@, validation, rt.config()));
    r
}

/// The interfaces that a guest exports, as the engine found them.
#[derive(Clone, Copy, Debug, PartialEq, Eq)]
pub struct Exports {
    /// The operation dispatch of `wasmcloud:bus/guest`
    pub guest: bool,
    /// `wasi:logging/logging`
    pub logging: bool,
    /// `wasi:http/incoming-handler`
    pub incoming_http: bool,
}

impl Exports {
    /// Whether `interface` is among the exports.
    pub open spec fn has(self, interface: Interface) -> bool {
        match interface {
            Interface::Guest => self.guest,
            Interface::Logging => self.logging,
            Interface::IncomingHttp => self.incoming_http,
        }
    }

    /// Whether `interface` is among the exports.
    pub fn provides(&self, interface: Interface) -> (r: bool)
        ensures
            r == self.has(interface),
    {
        match interface {
            Interface::Guest => self.guest,
            Interface::Logging => self.logging,
            Interface::IncomingHttp => self.incoming_http,
        }
    }
}

/// A guest as the engine hands it over once it is set up: the state that
/// the engine keeps for it, and the interfaces that it exports.
pub struct Guest<G> {
    pub state: G,
    pub exports: Exports,
}


/// `std::io::Error`: why a read failed; only that it did is looked at.
#[verifier::external_type_specification]
#[verifier::external_body]
pub struct ExIoError(std::io::Error);

/// `std::io::Read::read_to_end`: reads the source to its end and adds what
/// it read to the end of `buf`. What it reads depends on the source. What
/// `buf` held stays in front, whether the read fails or not; the number
/// that comes back on success is that of the bytes added.
#[verifier::external_body]
fn read_to_end<R: std::io::Read>(source: &mut R, buf: &mut Vec<u8>) -> (r: Result<
    usize,
    std::io::Error,
>)
    ensures
        final(buf)@.len() >= old(buf)@.len(),
        final(buf)@.subrange(0, old(buf)@.len() as int) == old(buf)@,
        r matches Ok(n) ==> final(buf)@.len() == old(buf)@.len() + n,
{
    source.read_to_end(buf)
}

/// A pre-loaded actor, which is either a module or a component
pub enum Actor {
    /// WebAssembly module containing an actor
    Module(ModuleActor),
    /// WebAssembly component containing an actor
    Component(ComponentActor),
}

/// A pre-loaded, configured actor instance, which is either a module or a
/// component
pub enum Instance<G> {
    /// WebAssembly module containing an actor
    Module(ModuleInstance<G>),
    /// WebAssembly component containing an actor
    Component(ComponentInstance<G>),
}

/// A pre-loaded, configured guest instance, which is either a module or a
/// component
pub enum GuestInstance<G> {
    /// WebAssembly module containing an actor
    Module(ModuleGuestInstance<G>),
    /// WebAssembly component containing an actor
    Component(ComponentGuestInstance<G>),
}

/// A pre-loaded, configured instance seen as a logging implementation, which
/// is either a module or a component
pub enum LoggingInstance<G> {
    /// WebAssembly module containing an actor
    Module(ModuleGuestInstance<G>),
    /// WebAssembly component containing an actor
    Component(ComponentInterfaceInstance<G>),
}

/// A pre-loaded, configured instance seen as a handler of incoming HTTP
/// requests, which is either a module or a component
pub enum IncomingHttpInstance<G> {
    /// WebAssembly module containing an actor
    Module(ModuleGuestInstance<G>),
    /// WebAssembly component containing an actor
    Component(ComponentInterfaceInstance<G>),
}

impl Actor {
    /// The bytes of the artifact.
    pub open spec fn wasm(&self) -> Seq<u8> {
        match self {
            Actor::Module(module) => module.wasm(),
            Actor::Component(component) => component.wasm(),
        }
    }

    /// The claims that were accepted with the artifact.
    pub open spec fn spec_claims(&self) -> Option<ActorClaims> {
        match self {
            Actor::Module(module) => module.spec_claims(),
            Actor::Component(component) => component.spec_claims(),
        }
    }

    /// The handlers that a fresh instance holds.
    pub open spec fn handler(&self) -> HandlerBuilder {
        match self {
            Actor::Module(module) => module.handler(),
            Actor::Component(component) => component.handler(),
        }
    }

    /// The encoding that the actor was loaded as.
    pub open spec fn encoding(&self) -> Encoding {
        match self {
            Actor::Module(_) => Encoding::Module,
            Actor::Component(_) => Encoding::Component,
        }
    }

    /// Whether `r` is what loading the artifact `wasm` under `rt` comes to,
    /// where validating its token, if it carries one, gave `validation`:
    /// an actor of these bytes, in the encoding of their header, with the
    /// claims that are accepted and the handlers of the runtime; or the
    /// failure to come by the claims.
    pub open spec fn loads(
        r: Result<Actor, LoadError>,
        rt: Runtime,
        wasm: Seq<u8>,
        validation: Result<TokenValidation, wascap::Error>,
    ) -> bool {
        &&& validation_of(embedded_token(wasm), validation)
        &&& match loaded_claims(wasm, validation, rt.config()) {
            Ok(claims) => r matches Ok(actor) && actor.wasm() == wasm && actor.spec_claims()
                == claims && actor.handler() == rt.handler() && actor.encoding() == spec_encoding(
                wasm,
            ),
            Err(e) => r matches Err(failure) && failure == e,
        }
    }

    /// A loaded actor has claims only where validating the token of its
    /// artifact passed at the time of loading; its claims are those of that
    /// token, and its backend is the one that the header of the artifact
    /// asks for.
    pub proof fn law_loaded(
        actor: Actor,
        rt: Runtime,
        wasm: Seq<u8>,
        validation: Result<TokenValidation, wascap::Error>,
    )
        requires
            Self::loads(Ok(actor), rt, wasm, validation),
        ensures
            actor.spec_claims() matches Some(claims) ==> {
                &&& validation matches Ok(validation) && validation.passes()
                &&& embedded_token(wasm) matches Ok(Some(token)) && token.claims == claims
                    && token_signature(token.jwt@) == Some(true)
            },
            actor.spec_claims() is None ==> !rt.config().require_signature && embedded_token(wasm)
                == Ok::<Option<EmbeddedToken>, ()>(None),
            actor is Component <==> is_component_encoded(wasm),
    {
    }

    /// Loads an actor from the artifact `wasm`.
    ///
    /// An artifact whose first payload announces the component encoding
    /// goes to the component backend, every other one to the module
    /// backend. Either backend extracts and validates the claims of the
    /// artifact; loading fails exactly where they cannot be had, are
    /// refused, or are absent though the runtime requires a signature.
    pub fn new(rt: &Runtime, wasm: &[u8]) -> (r: Result<Self, LoadError>)
        ensures
            exists|validation: Result<TokenValidation, wascap::Error>| #[trigger]
                Self::loads(r, *rt, wasm@, validation),
            r matches Ok(actor) ==> (actor is Component <==> is_component_encoded(wasm@)),
            embedded_token(wasm@) is Err ==> r matches Err(LoadError::ClaimsExtractFailed),
            embedded_token(wasm@) == Ok::<Option<EmbeddedToken>, ()>(None) ==> if rt.config()
                .require_signature {
                r matches Err(LoadError::SignatureRequiredButAbsent)
            } else {
                r matches Ok(actor) && actor.spec_claims() is None && actor.wasm() == wasm@
            },
            r matches Ok(actor) ==> (actor.spec_claims() matches Some(claims) ==> (embedded_token(
                wasm@,
            ) matches Ok(Some(token)) && token.claims == claims && token_signature(token.jwt@)
                == Some(true))),
            embedded_token(wasm@) matches Ok(Some(token)) ==> match token_signature(token.jwt@) {
                None => r matches Err(LoadError::TokenInvalid(TokenFault::Malformed)),
                Some(false) => r matches Err(LoadError::TokenInvalid(fault)) && !(fault
                    is Malformed),
                Some(true) => r is Err ==> (r matches Err(LoadError::TokenInvalid(fault))
                    && (fault is Expired || fault is NotYetValid)),
            },
    {
        match encoding(wasm) {
            Encoding::Component => {
                let loaded = ComponentActor::new(rt, wasm);
                let ghost validation = choose|validation: Result<TokenValidation, wascap::Error>|
                    ComponentActor::loads(loaded, *rt, wasm@, validation);
                let r = match loaded {
                    Ok(component) => Ok(Actor::Component(component)),
                    Err(e) => Err(e),
                };
                assert(Self::loads(r, *rt, wasm@, validation));
                r
            },
            Encoding::Module => {
                let loaded = ModuleActor::new(rt, wasm);
                let ghost validation = choose|validation: Result<TokenValidation, wascap::Error>|
                    ModuleActor::loads(loaded, *rt, wasm@, validation);
                let r = match loaded {
                    Ok(module) => Ok(Actor::Module(module)),
                    Err(e) => Err(e),
                };
                assert(Self::loads(r, *rt, wasm@, validation));
                r
            },
        }
    }

    /// Concludes loading once the engine has tried to compile the
    /// artifact: the actor stands where the engine compiled it, and loading
    /// fails with [`LoadError::CompileFailed`] where it could not.
    pub fn compiled(self, outcome: Result<(), String>) -> (r: Result<Self, LoadError>)
        ensures
            r == match outcome {
                Ok(()) => Ok::<Self, LoadError>(self),
                Err(_) => Err::<Self, LoadError>(LoadError::CompileFailed),
            },
    {
        match outcome {
            Ok(()) => Ok(self),
            Err(_) => Err(LoadError::CompileFailed),
        }
    }

    /// Loads an actor from what reading an artifact gave: a failed read
    /// gives [`LoadError::MalformedArtifact`], and bytes are loaded as
    /// [Actor::new] loads them.
    pub fn from_read(rt: &Runtime, read: Result<Vec<u8>, std::io::Error>) -> (r: Result<
        Self,
        LoadError,
    >)
        ensures
            match read {
                Ok(wasm) => exists|validation: Result<TokenValidation, wascap::Error>| #[trigger]
                    Self::loads(r, *rt, wasm@, validation),
                Err(_) => r matches Err(LoadError::MalformedArtifact),
            },
    {
        match read {
            Ok(wasm) => Self::new(rt, wasm.as_slice()),
            Err(_) => Err(LoadError::MalformedArtifact),
        }
    }

    /// Reads the WebAssembly binary synchronously and calls [Actor::new].
    ///
    /// Fails with [`LoadError::MalformedArtifact`] where reading `wasm`
    /// fails, and as [Actor::new] does on the bytes that were read.
    pub fn read_sync<R: std::io::Read>(rt: &Runtime, wasm: R) -> (r: Result<Self, LoadError>)
        ensures
            r matches Err(LoadError::MalformedArtifact) || (exists|
                read: Seq<u8>,
                validation: Result<TokenValidation, wascap::Error>,
            | #[trigger] Self::loads(r, *rt, read, validation)),
            r matches Ok(actor) ==> actor.handler() == rt.handler() && (actor is Component
                <==> is_component_encoded(actor.wasm())) && (rt.config().require_signature
                ==> actor.spec_claims() is Some),
    {
        let mut wasm = wasm;
        let mut buf: Vec<u8> = Vec::new();
        match read_to_end(&mut wasm, &mut buf) {
            Ok(_) => Self::from_read(rt, Ok(buf)),
            Err(e) => Self::from_read(rt, Err(e)),
        }
    }

    /// [ActorClaims] associated with this [Actor].
    pub fn claims(&self) -> (claims: Option<&ActorClaims>)
        ensures
            match claims {
                Some(claims) => self.spec_claims() == Some(*claims),
                None => self.spec_claims() is None,
            },
    {
        match self {
            Actor::Module(module) => module.claims(),
            Actor::Component(component) => component.claims(),
        }
    }

    /// The bytes of the artifact, for the engine to compile.
    pub fn bytes(&self) -> (bytes: &Vec<u8>)
        ensures
            bytes@ == self.wasm(),
    {
        match self {
            Actor::Module(module) => module.bytes(),
            Actor::Component(component) => component.bytes(),
        }
    }

    /// The instance that `guest` makes, where the engine could set a guest
    /// up for this actor.
    pub open spec fn spec_instantiate<G>(&self, guest: Result<Guest<G>, String>) -> Result<
        Instance<G>,
        InstantiateError,
    > {
        match self {
            Actor::Module(module) => match module.spec_instantiate(guest) {
                Ok(instance) => Ok(Instance::Module(instance)),
                Err(e) => Err(e),
            },
            Actor::Component(component) => match component.spec_instantiate(guest) {
                Ok(instance) => Ok(Instance::Component(instance)),
                Err(e) => Err(e),
            },
        }
    }

    /// Like [Self::instantiate], but moves the [Actor].
    pub fn into_instance<G>(self, guest: Result<Guest<G>, String>) -> (r: Result<
        Instance<G>,
        InstantiateError,
    >)
        ensures
            r == self.spec_instantiate(guest),
    {
        match self {
            Actor::Module(module) => match module.into_instance(guest) {
                Ok(instance) => Ok(Instance::Module(instance)),
                Err(e) => Err(e),
            },
            Actor::Component(component) => match component.into_instance(guest) {
                Ok(instance) => Ok(Instance::Component(instance)),
                Err(e) => Err(e),
            },
        }
    }

    /// Like [Self::instantiate], but moves the [Actor] and returns the
    /// associated claims.
    pub fn into_instance_claims<G>(self, guest: Result<Guest<G>, String>) -> (r: Result<
        (Instance<G>, Option<ActorClaims>),
        InstantiateError,
    >)
        ensures
            match self.spec_instantiate(guest) {
                Ok(instance) => r == Ok::<(Instance<G>, Option<ActorClaims>), InstantiateError>(
                    (instance, self.spec_claims()),
                ),
                Err(e) => r == Err::<(Instance<G>, Option<ActorClaims>), InstantiateError>(e),
            },
    {
        match self {
            Actor::Module(module) => match module.into_instance_claims(guest) {
                Ok((instance, claims)) => Ok((Instance::Module(instance), claims)),
                Err(e) => Err(e),
            },
            Actor::Component(component) => match component.into_instance_claims(guest) {
                Ok((instance, claims)) => Ok((Instance::Component(instance), claims)),
                Err(e) => Err(e),
            },
        }
    }

    /// What the instance of [`Actor::spec_instantiate`] holds: the guest that
    /// the engine set up and the handlers of the actor, behind the backend
    /// of the actor.
    pub proof fn lemma_instantiate<G>(&self, guest: Guest<G>)
        ensures
            self.spec_instantiate(Ok(guest)) matches Ok(instance) && instance.state() == guest.state
                && instance.handler() == self.handler() && instance.of_backend(self)
                && instance.exports_or(guest.exports) == guest.exports,
    {
        ModuleInstance::lemma_fresh(guest, self.handler());
        ComponentInstance::lemma_fresh(guest, self.handler());
    }

    /// Instantiate the actor: wraps the guest that the engine set up with
    /// the handlers that a fresh instance holds.
    ///
    /// Fails exactly where the engine could not set the guest up.
    pub fn instantiate<G>(&self, guest: Result<Guest<G>, String>) -> (r: Result<
        Instance<G>,
        InstantiateError,
    >)
        ensures
            r == self.spec_instantiate(guest),
            r is Ok <==> guest is Ok,
            r matches Ok(instance) ==> instance.state() == guest->Ok_0.state && instance.handler()
                == self.handler() && instance.of_backend(self),
    {
        proof {
            if guest is Ok {
                self.lemma_instantiate(guest->Ok_0);
            }
        }
        match self {
            Actor::Module(module) => match module.instantiate(guest) {
                Ok(instance) => Ok(Instance::Module(instance)),
                Err(e) => Err(e),
            },
            Actor::Component(component) => match component.instantiate(guest) {
                Ok(instance) => Ok(Instance::Component(instance)),
                Err(e) => Err(e),
            },
        }
    }

    /// Instantiates and returns a [`GuestInstance`] if exported by the
    /// [`Instance`].
    pub fn as_guest<G>(&self, guest: Result<Guest<G>, String>) -> (r: Result<
        GuestInstance<G>,
        InstantiateError,
    >)
        ensures
            r == match self.spec_instantiate(guest) {
                Ok(instance) => instance.spec_into_guest(),
                Err(e) => Err(e),
            },
            r is Ok <==> (guest matches Ok(guest) && (self is Module || guest.exports.has(
                Interface::Guest,
            ))),
            r matches Err(e) ==> e == match guest {
                Ok(_) => InstantiateError::ExportMissing { interface: Interface::Guest },
                Err(detail) => InstantiateError::InstantiationFailed { detail },
            },
            r matches Ok(view) ==> view.instance().state() == guest->Ok_0.state
                && view.instance().handler() == self.handler(),
    {
        proof {
            if guest is Ok {
                self.lemma_instantiate(guest->Ok_0);
            }
        }
        match self.instantiate(guest) {
            Ok(instance) => instance.into_guest(),
            Err(e) => Err(e),
        }
    }

    /// Instantiates and returns a [`IncomingHttpInstance`] if exported by
    /// the [`Instance`].
    pub fn as_incoming_http<G>(&self, guest: Result<Guest<G>, String>) -> (r: Result<
        IncomingHttpInstance<G>,
        InstantiateError,
    >)
        ensures
            r == match self.spec_instantiate(guest) {
                Ok(instance) => instance.spec_into_incoming_http(),
                Err(e) => Err(e),
            },
            r is Ok <==> (guest matches Ok(guest) && (self is Module || guest.exports.has(
                Interface::IncomingHttp,
            ))),
            r matches Err(e) ==> e == match guest {
                Ok(_) => InstantiateError::ExportMissing { interface: Interface::IncomingHttp },
                Err(detail) => InstantiateError::InstantiationFailed { detail },
            },
            r matches Ok(view) ==> view.instance().state() == guest->Ok_0.state
                && view.instance().handler() == self.handler(),
    {
        proof {
            if guest is Ok {
                self.lemma_instantiate(guest->Ok_0);
            }
        }
        match self.instantiate(guest) {
            Ok(instance) => instance.into_incoming_http(),
            Err(e) => Err(e),
        }
    }

    /// Instantiates and returns a [`LoggingInstance`] if exported by the
    /// [`Instance`].
    pub fn as_logging<G>(&self, guest: Result<Guest<G>, String>) -> (r: Result<
        LoggingInstance<G>,
        InstantiateError,
    >)
        ensures
            r == match self.spec_instantiate(guest) {
                Ok(instance) => instance.spec_into_logging(),
                Err(e) => Err(e),
            },
            r is Ok <==> (guest matches Ok(guest) && (self is Module || guest.exports.has(
                Interface::Logging,
            ))),
            r matches Err(e) ==> e == match guest {
                Ok(_) => InstantiateError::ExportMissing { interface: Interface::Logging },
                Err(detail) => InstantiateError::InstantiationFailed { detail },
            },
            r matches Ok(view) ==> view.instance().state() == guest->Ok_0.state
                && view.instance().handler() == self.handler(),
    {
        proof {
            if guest is Ok {
                self.lemma_instantiate(guest->Ok_0);
            }
        }
        match self.instantiate(guest) {
            Ok(instance) => instance.into_logging(),
            Err(e) => Err(e),
        }
    }
}

impl Clone for Actor {
    fn clone(&self) -> (copy: Self)
        ensures
            copy.wasm() == self.wasm(),
            copy.handler() == self.handler(),
            copy.spec_claims() == self.spec_claims(),
            copy.encoding() == self.encoding(),
    {
        match self {
            Actor::Module(module) => Actor::Module(module.clone()),
            Actor::Component(component) => Actor::Component(component.clone()),
        }
    }
}

impl<G> GuestInstance<G> {
    /// What a call into the guest comes to, given what the engine made of
    /// it.
    pub open spec fn call_result(
        &self,
        outcome: Result<Result<(), String>, String>,
        r: Result<Result<(), String>, CallError>,
    ) -> bool {
        match self {
            GuestInstance::Module(_) => ModuleInstance::<G>::call_result(outcome, r),
            GuestInstance::Component(_) => ComponentInstance::<G>::call_result(outcome, r),
        }
    }

    /// Concludes an operation that the engine ran on the guest: the
    /// outermost error tells that the guest could not be called, the
    /// innermost is the error of the guest itself.
    pub fn call(&self, outcome: Result<Result<(), String>, String>) -> (r: Result<
        Result<(), String>,
        CallError,
    >)
        ensures
            self.call_result(outcome, r),
    {
        match self {
            GuestInstance::Module(module) => module.call(outcome),
            GuestInstance::Component(component) => component.call(outcome),
        }
    }

    /// The instance behind the view.
    pub open spec fn instance(&self) -> Instance<G> {
        match self {
            GuestInstance::Module(module) => Instance::Module(module.instance()),
            GuestInstance::Component(component) => Instance::Component(component.instance()),
        }
    }

    /// The state that the engine keeps for the guest.
    pub fn guest(&self) -> (state: &G)
        ensures
            *state == self.instance().state(),
    {
        match self {
            GuestInstance::Module(module) => module.get().guest(),
            GuestInstance::Component(component) => component.get().guest(),
        }
    }

    /// The handlers installed on the instance behind the view.
    pub fn handlers(&self) -> (handler: &Handler)
        ensures
            handler@ == self.instance().handler(),
    {
        match self {
            GuestInstance::Module(module) => module.get().handlers(),
            GuestInstance::Component(component) => component.get().handlers(),
        }
    }

    /// Gives the instance behind the view back.
    pub fn into_inner(self) -> (instance: Instance<G>)
        ensures
            instance == self.instance(),
    {
        match self {
            GuestInstance::Module(module) => Instance::Module(module.into_inner()),
            GuestInstance::Component(component) => Instance::Component(component.into_inner()),
        }
    }
}

impl<G> LoggingInstance<G> {
    /// The instance behind the view.
    pub open spec fn instance(&self) -> Instance<G> {
        match self {
            LoggingInstance::Module(module) => Instance::Module(module.instance()),
            LoggingInstance::Component(component) => Instance::Component(component.instance()),
        }
    }

    /// The state that the engine keeps for the guest.
    pub fn guest(&self) -> (state: &G)
        ensures
            *state == self.instance().state(),
    {
        match self {
            LoggingInstance::Module(module) => module.get().guest(),
            LoggingInstance::Component(component) => component.get().guest(),
        }
    }

    /// The handlers installed on the instance behind the view.
    pub fn handlers(&self) -> (handler: &Handler)
        ensures
            handler@ == self.instance().handler(),
    {
        match self {
            LoggingInstance::Module(module) => module.get().handlers(),
            LoggingInstance::Component(component) => component.get().handlers(),
        }
    }

    /// Gives the instance behind the view back.
    pub fn into_inner(self) -> (instance: Instance<G>)
        ensures
            instance == self.instance(),
    {
        match self {
            LoggingInstance::Module(module) => Instance::Module(module.into_inner()),
            LoggingInstance::Component(component) => Instance::Component(component.into_inner()),
        }
    }
}

impl<G> IncomingHttpInstance<G> {
    /// The instance behind the view.
    pub open spec fn instance(&self) -> Instance<G> {
        match self {
            IncomingHttpInstance::Module(module) => Instance::Module(module.instance()),
            IncomingHttpInstance::Component(component) => Instance::Component(
                component.instance(),
            ),
        }
    }

    /// The state that the engine keeps for the guest.
    pub fn guest(&self) -> (state: &G)
        ensures
            *state == self.instance().state(),
    {
        match self {
            IncomingHttpInstance::Module(module) => module.get().guest(),
            IncomingHttpInstance::Component(component) => component.get().guest(),
        }
    }

    /// The handlers installed on the instance behind the view.
    pub fn handlers(&self) -> (handler: &Handler)
        ensures
            handler@ == self.instance().handler(),
    {
        match self {
            IncomingHttpInstance::Module(module) => module.get().handlers(),
            IncomingHttpInstance::Component(component) => component.get().handlers(),
        }
    }

    /// Gives the instance behind the view back.
    pub fn into_inner(self) -> (instance: Instance<G>)
        ensures
            instance == self.instance(),
    {
        match self {
            IncomingHttpInstance::Module(module) => Instance::Module(module.into_inner()),
            IncomingHttpInstance::Component(component) => Instance::Component(
                component.into_inner(),
            ),
        }
    }
}

impl<G> Instance<G> {
    /// The state that the engine keeps for the guest.
    pub open spec fn state(&self) -> G {
        match self {
            Instance::Module(module) => module.state(),
            Instance::Component(component) => component.state(),
        }
    }

    /// The handlers installed on the instance.
    pub open spec fn handler(&self) -> HandlerBuilder {
        match self {
            Instance::Module(module) => module.handler(),
            Instance::Component(component) => component.handler(),
        }
    }

    /// Whether `self` and `other` are the same guest behind the same
    /// backend: they may differ in their handlers only.
    pub open spec fn same_guest(&self, other: &Self) -> bool {
        match (self, other) {
            (Instance::Module(a), Instance::Module(b)) => a.same_guest(b),
            (Instance::Component(a), Instance::Component(b)) => a.same_guest(b),
            _ => false,
        }
    }

    /// Whether `self` and `other` are instances of the same backend and,
    /// for components, guests with the same exports.
    pub open spec fn same_kind(&self, other: &Self) -> bool {
        match (self, other) {
            (Instance::Module(_), Instance::Module(_)) => true,
            (Instance::Component(a), Instance::Component(b)) => a.exports() == b.exports(),
            _ => false,
        }
    }

    /// The instance after a reset under `rt`, the guest starting over from
    /// `state`.
    pub open spec fn spec_reset(self, rt: Runtime, state: G) -> Self {
        match self {
            Instance::Module(module) => Instance::Module(module.spec_reset(rt, state)),
            Instance::Component(component) => Instance::Component(component.spec_reset(rt, state)),
        }
    }

    /// Whether the instance is of the backend of `actor`.
    pub open spec fn of_backend(&self, actor: &Actor) -> bool {
        self is Module <==> actor is Module
    }

    /// The interfaces that the guest was found to export; a module guest is
    /// not asked for any.
    pub open spec fn exports_or(&self, exports: Exports) -> Exports {
        match self {
            Instance::Module(_) => exports,
            Instance::Component(component) => component.exports(),
        }
    }

    /// Resetting an instance of `actor` under the runtime that `actor` was
    /// loaded with gives the instance that instantiating `actor` gives for
    /// the same guest state: a reset instance cannot be told from a fresh
    /// one.
    pub proof fn law_reset_as_fresh(self, actor: Actor, rt: Runtime, state: G, exports: Exports)
        requires
            self.of_backend(&actor),
            actor.handler() == rt.handler(),
            self.exports_or(exports) == exports,
        ensures
            actor.spec_instantiate(Ok(Guest { state, exports })) == Ok::<
                Instance<G>,
                InstantiateError,
            >(self.spec_reset(rt, state)),
    {
        match self {
            Instance::Module(module) => module.lemma_reset_as_fresh(rt, state, exports),
            Instance::Component(component) => component.lemma_reset_as_fresh(rt, state, exports),
        }
    }

    /// What a reset instance holds: the state that it starts over from and
    /// the handlers of the runtime, behind the backend that it had.
    pub proof fn lemma_reset(self, rt: Runtime, state: G)
        ensures
            self.spec_reset(rt, state).state() == state,
            self.spec_reset(rt, state).handler() == rt.handler(),
            self.spec_reset(rt, state).same_kind(&self),
    {
        match self {
            Instance::Module(module) => module.lemma_reset(rt, state),
            Instance::Component(component) => component.lemma_reset(rt, state),
        }
    }

    /// Reset [`Instance`] state to defaults: the guest starts over from
    /// `state`, and the handlers are those of the runtime again.
    pub fn reset(&mut self, rt: &Runtime, state: G)
        ensures
            *final(self) == old(self).spec_reset(*rt, state),
            final(self).state() == state,
            final(self).handler() == rt.handler(),
            final(self).same_kind(old(self)),
    {
        match self {
            Instance::Module(module) => module.reset(rt, state),
            Instance::Component(component) => component.reset(rt, state),
        }
    }

    /// The state that the engine keeps for the guest.
    pub fn guest(&self) -> (state: &G)
        ensures
            *state == self.state(),
    {
        match self {
            Instance::Module(module) => module.guest(),
            Instance::Component(component) => component.guest(),
        }
    }

    /// The state that the engine keeps for the guest, for the engine to
    /// work on.
    pub fn guest_mut(&mut self) -> (state: &mut G)
        ensures
            *state == old(self).state(),
            final(self).state() == *final(state),
            final(self).handler() == old(self).handler(),
            final(self).same_kind(old(self)),
    {
        match self {
            Instance::Module(module) => module.guest_mut(),
            Instance::Component(component) => component.guest_mut(),
        }
    }

    /// The handlers installed on the instance.
    pub fn handlers(&self) -> (handler: &Handler)
        ensures
            handler@ == self.handler(),
    {
        match self {
            Instance::Module(module) => module.handlers(),
            Instance::Component(component) => component.handlers(),
        }
    }

    /// Set [`Bus`] handler for this [Instance].
    pub fn bus(&mut self, bus: Arc<dyn Bus>) -> (this: &mut Self)
        ensures
            this.handler().bus == Some(bus),
            this.handler().same_but(old(self).handler(), Capability::Bus),
            this.same_guest(old(self)),
            *final(self) == *final(this),
    {
        let slot = Some(bus);
        match self {
            Instance::Module(module) => {
                module.put_bus(slot);
            },
            Instance::Component(component) => {
                component.put_bus(slot);
            },
        }
        self
    }

    /// Set [`IncomingHttp`] handler for this [Instance].
    pub fn incoming_http(&mut self, incoming_http: Arc<dyn IncomingHttp>) -> (this: &mut Self)
        ensures
            this.handler().incoming_http == Some(incoming_http),
            this.handler().same_but(old(self).handler(), Capability::IncomingHttp),
            this.same_guest(old(self)),
            *final(self) == *final(this),
    {
        let slot = Some(incoming_http);
        match self {
            Instance::Module(module) => {
                module.put_incoming_http(slot);
            },
            Instance::Component(component) => {
                component.put_incoming_http(slot);
            },
        }
        self
    }

    /// Set [`KeyValueReadWrite`] handler for this [Instance].
    pub fn keyvalue_readwrite(&mut self, keyvalue_readwrite: Arc<dyn KeyValueReadWrite>) -> (this:
        &mut Self)
        ensures
            this.handler().keyvalue_readwrite == Some(keyvalue_readwrite),
            this.handler().same_but(old(self).handler(), Capability::KeyValueReadWrite),
            this.same_guest(old(self)),
            *final(self) == *final(this),
    {
        let slot = Some(keyvalue_readwrite);
        match self {
            Instance::Module(module) => {
                module.put_keyvalue_readwrite(slot);
            },
            Instance::Component(component) => {
                component.put_keyvalue_readwrite(slot);
            },
        }
        self
    }

    /// Set [`Logging`] handler for this [Instance].
    pub fn logging(&mut self, logging: Arc<dyn Logging>) -> (this: &mut Self)
        ensures
            this.handler().logging == Some(logging),
            this.handler().same_but(old(self).handler(), Capability::Logging),
            this.same_guest(old(self)),
            *final(self) == *final(this),
    {
        let slot = Some(logging);
        match self {
            Instance::Module(module) => {
                module.put_logging(slot);
            },
            Instance::Component(component) => {
                component.put_logging(slot);
            },
        }
        self
    }

    /// Set [`Messaging`] handler for this [Instance].
    pub fn messaging(&mut self, messaging: Arc<dyn Messaging>) -> (this: &mut Self)
        ensures
            this.handler().messaging == Some(messaging),
            this.handler().same_but(old(self).handler(), Capability::Messaging),
            this.same_guest(old(self)),
            *final(self) == *final(this),
    {
        let slot = Some(messaging);
        match self {
            Instance::Module(module) => {
                module.put_messaging(slot);
            },
            Instance::Component(component) => {
                component.put_messaging(slot);
            },
        }
        self
    }

    /// What a call into the guest comes to, given what the engine made of
    /// it: the guest's own result where the engine carried the call out, and
    /// a trap, reported for the backend of the instance, where it could not.
    pub open spec fn call_result(
        &self,
        outcome: Result<Result<(), String>, String>,
        r: Result<Result<(), String>, CallError>,
    ) -> bool {
        match self {
            Instance::Module(_) => ModuleInstance::<G>::call_result(outcome, r),
            Instance::Component(_) => ComponentInstance::<G>::call_result(outcome, r),
        }
    }

    /// Concludes an operation that the engine ran on the guest: the
    /// outermost error tells that the guest could not be called, the
    /// innermost is the error of the guest itself.
    pub fn call(&mut self, outcome: Result<Result<(), String>, String>) -> (r: Result<
        Result<(), String>,
        CallError,
    >)
        ensures
            old(self).call_result(outcome, r),
            *final(self) == *old(self),
    {
        match self {
            Instance::Module(module) => module.call(outcome),
            Instance::Component(component) => component.call(outcome),
        }
    }

    /// The view of the instance through the operation dispatch. A module
    /// always has it; a component has it exactly where it exports the
    /// dispatch.
    pub open spec fn spec_into_guest(self) -> Result<GuestInstance<G>, InstantiateError> {
        match self {
            Instance::Module(module) => Ok(
                GuestInstance::Module(ModuleGuestInstance::viewing(module)),
            ),
            Instance::Component(component) => match component.spec_into_guest() {
                Ok(view) => Ok(GuestInstance::Component(view)),
                Err(e) => Err(e),
            },
        }
    }

    /// The view of the instance as a handler of incoming HTTP requests. A
    /// module always has it; a component has it exactly where it exports
    /// `wasi:http/incoming-handler`.
    pub open spec fn spec_into_incoming_http(self) -> Result<
        IncomingHttpInstance<G>,
        InstantiateError,
    > {
        match self {
            Instance::Module(module) => Ok(
                IncomingHttpInstance::Module(ModuleGuestInstance::viewing(module)),
            ),
            Instance::Component(component) => match component.spec_bind(Interface::IncomingHttp) {
                Ok(view) => Ok(IncomingHttpInstance::Component(view)),
                Err(e) => Err(e),
            },
        }
    }

    /// The view of the instance as a logging implementation. A module
    /// always has it; a component has it exactly where it exports
    /// `wasi:logging/logging`.
    pub open spec fn spec_into_logging(self) -> Result<LoggingInstance<G>, InstantiateError> {
        match self {
            Instance::Module(module) => Ok(
                LoggingInstance::Module(ModuleGuestInstance::viewing(module)),
            ),
            Instance::Component(component) => match component.spec_bind(Interface::Logging) {
                Ok(view) => Ok(LoggingInstance::Component(view)),
                Err(e) => Err(e),
            },
        }
    }

    /// Returns a [`GuestInstance`] if exported by the [`Instance`].
    ///
    /// Fails exactly for a component that does not export the operation
    /// dispatch.
    pub fn into_guest(self) -> (r: Result<GuestInstance<G>, InstantiateError>)
        ensures
            r == self.spec_into_guest(),
            self is Module ==> r is Ok,
            self matches Instance::Component(component) ==> (r is Ok
                <==> component.exports().guest),
            r matches Ok(view) ==> view.instance() == self,
    {
        proof {
            if self is Module {
                ModuleGuestInstance::lemma_viewing(self->Module_0);
            } else {
                ComponentGuestInstance::lemma_viewing(self->Component_0);
            }
        }
        match self {
            Instance::Module(module) => Ok(
                GuestInstance::Module(ModuleGuestInstance::from(module)),
            ),
            Instance::Component(component) => match component.into_guest() {
                Ok(view) => Ok(GuestInstance::Component(view)),
                Err(e) => Err(e),
            },
        }
    }

    /// Returns a [`IncomingHttpInstance`] if exported by the [`Instance`].
    ///
    /// Fails exactly for a component that does not export
    /// `wasi:http/incoming-handler`.
    pub fn into_incoming_http(self) -> (r: Result<IncomingHttpInstance<G>, InstantiateError>)
        ensures
            r == self.spec_into_incoming_http(),
            self is Module ==> r is Ok,
            self matches Instance::Component(component) ==> (r is Ok <==> component.exports().has(
                Interface::IncomingHttp,
            )),
            r matches Ok(view) ==> view.instance() == self,
    {
        proof {
            if self is Module {
                ModuleGuestInstance::lemma_viewing(self->Module_0);
            } else {
                ComponentInterfaceInstance::lemma_binding(
                    self->Component_0,
                    Interface::IncomingHttp,
                );
            }
        }
        match self {
            Instance::Module(module) => Ok(
                IncomingHttpInstance::Module(ModuleGuestInstance::from(module)),
            ),
            Instance::Component(component) => match component.into_incoming_http() {
                Ok(view) => Ok(IncomingHttpInstance::Component(view)),
                Err(e) => Err(e),
            },
        }
    }

    /// Returns a [`LoggingInstance`] if exported by the [`Instance`].
    ///
    /// Fails exactly for a component that does not export
    /// `wasi:logging/logging`.
    pub fn into_logging(self) -> (r: Result<LoggingInstance<G>, InstantiateError>)
        ensures
            r == self.spec_into_logging(),
            self is Module ==> r is Ok,
            self matches Instance::Component(component) ==> (r is Ok <==> component.exports().has(
                Interface::Logging,
            )),
            r matches Ok(view) ==> view.instance() == self,
    {
        proof {
            if self is Module {
                ModuleGuestInstance::lemma_viewing(self->Module_0);
            } else {
                ComponentInterfaceInstance::lemma_binding(self->Component_0, Interface::Logging);
            }
        }
        match self {
            Instance::Module(module) => Ok(
                LoggingInstance::Module(ModuleGuestInstance::from(module)),
            ),
            Instance::Component(component) => match component.into_logging() {
                Ok(view) => Ok(LoggingInstance::Component(view)),
                Err(e) => Err(e),
            },
        }
    }
}

} // verus!
