//! Capability contracts and the handler set that fans calls out to them.

use crate::error::CallError;
use std::sync::Arc;
use std::time::Duration;
use vstd::prelude::*;
use vstd::string::*;

verus! {

/// Severity of a log record.
#[derive(Clone, Copy, Debug, PartialEq, Eq)]
pub enum Level {
    Trace,
    Debug,
    Info,
    Warn,
    Error,
}

/// A message as the broker delivers it.
#[derive(Clone, Debug, PartialEq, Eq)]
pub struct BrokerMessage {
    pub subject: String,
    pub body: Option<Vec<u8>>,
    pub reply_to: Option<String>,
}

/// What a bus call hands back once the exchange is over: the bytes of the
/// response and the result that the callee reported.
#[derive(Debug, PartialEq, Eq)]
pub struct BusReply {
    pub response: Vec<u8>,
    pub result: Result<(), String>,
}

/// `http::Request`: a request is handed to the handler as it came, unread.
#[verifier::external_type_specification]
#[verifier::external_body]
#[verifier::reject_recursive_types(T)]
pub struct ExRequest<T>(http::Request<T>);

/// `http::Response`: a response is handed back as the handler gave it,
/// unread.
#[verifier::external_type_specification]
#[verifier::external_body]
#[verifier::reject_recursive_types(T)]
pub struct ExResponse<T>(http::Response<T>);

/// `wasi:blobstore/consumer`: no operation is defined yet.
pub trait Blobstore: Send + Sync {
}

/// `wasmcloud:bus/host`
pub trait Bus: Send + Sync {
    /// Whether `r` is an outcome of [`Bus::call`] for these arguments. An
    /// implementation that states nothing of its outcomes leaves this as
    /// it is.
    open spec fn call_gives(
        &self,
        operation: String,
        request: Vec<u8>,
        r: Result<BusReply, CallError>,
    ) -> bool {
        true
    }

    /// Handle `wasmcloud:bus/host.call`: carry `request` to the callee of
    /// `operation` and hand back its reply.
    fn call(&self, operation: String, request: Vec<u8>) -> (r: Result<BusReply, CallError>)
        ensures
            self.call_gives(operation, request, r),
    ;

    /// Handle `wasmcloud:bus/host.call` with no response: what [`oneshot`]
    /// makes of the reply to [`Bus::call`].
    fn call_oneshot(&self, operation: String, request: Vec<u8>) -> (r: Result<
        Result<(), String>,
        CallError,
    >)
        ensures
            exists|reply: Result<BusReply, CallError>| #[trigger]
                self.call_gives(operation, request, reply) && oneshot_gives(reply, r),
    {
        oneshot(self.call(operation, request))
    }

    /// Handle `wasmcloud:bus/host.call`, the response going to the end of
    /// `response`: what [`oneshot_with_response`] makes of the reply to
    /// [`Bus::call`].
    fn call_oneshot_with_response(
        &self,
        operation: String,
        request: Vec<u8>,
        response: &mut Vec<u8>,
    ) -> (r: Result<Result<usize, String>, CallError>)
        ensures
            exists|reply: Result<BusReply, CallError>| #[trigger]
                self.call_gives(operation, request, reply) && oneshot_with_response_gives(
                    reply,
                    old(response)@,
                    final(response)@,
                    r,
                ),
    {
        oneshot_with_response(self.call(operation, request), response)
    }
}

/// The context of the error that a one-shot call gives when the call
/// itself failed.
pub const PROCESS_CALL: &'static str = "failed to process call";

/// The detail of the error that a one-shot call gives when the callee sent
/// response bytes.
pub const UNEXPECTED_OUTPUT: &'static str = "unexpected output received";

/// Names of the capability operations, as the errors for a missing handler
/// report them.
pub const INCOMING_HTTP_HANDLE: &'static str = "wasi:http/incoming-handler.handle";

pub const KEYVALUE_GET: &'static str = "wasi:keyvalue/readwrite.get";

pub const KEYVALUE_SET: &'static str = "wasi:keyvalue/readwrite.set";

pub const KEYVALUE_DELETE: &'static str = "wasi:keyvalue/readwrite.delete";

pub const KEYVALUE_EXISTS: &'static str = "wasi:keyvalue/readwrite.exists";

pub const MESSAGING_REQUEST: &'static str = "wasmcloud:messaging/consumer.request";

pub const MESSAGING_REQUEST_MULTI: &'static str = "wasmcloud:messaging/consumer.request_multi";

pub const MESSAGING_PUBLISH: &'static str = "wasmcloud:messaging/consumer.publish";

/// Whether `r` is the outcome of a bus call that expects no response,
/// given the reply to the call.
///
/// A failed call fails with its own failure, in the context of the call. A
/// reply that carries response bytes is refused. Otherwise the outcome is
/// the result that the callee reported.
pub open spec fn oneshot_gives(
    reply: Result<BusReply, CallError>,
    r: Result<Result<(), String>, CallError>,
) -> bool {
    match reply {
        Err(e) => r matches Err(failure) && failure.is_in_context(PROCESS_CALL@, e),
        Ok(reply) => if reply.response@.len() == 0 {
            r == Ok::<Result<(), String>, CallError>(reply.result)
        } else {
            r matches Err(CallError::HostIoFailed { detail }) && detail@ == UNEXPECTED_OUTPUT@
        },
    }
}

/// The outcome of a bus call that expects no response, given the reply to
/// the call.
pub fn oneshot(reply: Result<BusReply, CallError>) -> (r: Result<Result<(), String>, CallError>)
    ensures
        oneshot_gives(reply, r),
{
    match reply {
        Err(e) => Err(e.in_context(PROCESS_CALL)),
        Ok(reply) => {
            if reply.response.len() == 0 {
                Ok(reply.result)
            } else {
                Err(CallError::HostIoFailed { detail: String::from_str(UNEXPECTED_OUTPUT) })
            }
        },
    }
}

/// What the callee of a one-shot call with response reported, the number of
/// response bytes standing for its success.
pub open spec fn counted(result: Result<(), String>, n: usize) -> Result<usize, String> {
    match result {
        Ok(()) => Ok(n),
        Err(message) => Err(message),
    }
}

/// Whether `r` is the outcome of a bus call whose response is collected,
/// given the reply to the call, and `after` is what became of the bytes
/// `before` that the response is added to.
///
/// A failed call fails with its own failure, in the context of the call,
/// and adds nothing. Otherwise the response bytes are added to the end, and
/// the outcome is the result that the callee reported, with the number of
/// those bytes where it reported success.
pub open spec fn oneshot_with_response_gives(
    reply: Result<BusReply, CallError>,
    before: Seq<u8>,
    after: Seq<u8>,
    r: Result<Result<usize, String>, CallError>,
) -> bool {
    match reply {
        Err(e) => r matches Err(failure) && failure.is_in_context(PROCESS_CALL@, e) && after
            == before,
        Ok(reply) => {
            &&& after == before + reply.response@
            &&& r == Ok::<Result<usize, String>, CallError>(
                counted(reply.result, reply.response.len()),
            )
        },
    }
}

/// The outcome of a bus call whose response is collected, given the reply to
/// the call; the response goes to the end of `response`.
pub fn oneshot_with_response(reply: Result<BusReply, CallError>, response: &mut Vec<u8>) -> (r:
    Result<Result<usize, String>, CallError>)
    ensures
        oneshot_with_response_gives(reply, old(response)@, final(response)@, r),
{
    match reply {
        Err(e) => Err(e.in_context(PROCESS_CALL)),
        Ok(reply) => {
            let mut bytes = reply.response;
            let n: usize = bytes.len();
            response.append(&mut bytes);
            match reply.result {
                Ok(()) => Ok(Ok(n)),
                Err(message) => Ok(Err(message)),
            }
        },
    }
}

/// `wasi:http/incoming-handler`
pub trait IncomingHttp: Send + Sync {
    /// Whether `r` is an outcome of [`IncomingHttp::handle`] for this
    /// request.
    open spec fn handle_gives(
        &self,
        request: http::Request<Vec<u8>>,
        r: Result<http::Response<Vec<u8>>, CallError>,
    ) -> bool {
        true
    }

    /// Handle `wasi:http/incoming-handler.handle`
    fn handle(&self, request: http::Request<Vec<u8>>) -> (r: Result<
        http::Response<Vec<u8>>,
        CallError,
    >)
        ensures
            self.handle_gives(request, r),
    ;
}

/// `wasi:logging/logging`
pub trait Logging: Send + Sync {
    /// Whether `r` is an outcome of [`Logging::log`] for these arguments.
    open spec fn log_gives(
        &self,
        level: Level,
        context: String,
        message: String,
        r: Result<(), CallError>,
    ) -> bool {
        true
    }

    /// Handle `wasi:logging/logging.log`
    fn log(&self, level: Level, context: String, message: String) -> (r: Result<(), CallError>)
        ensures
            self.log_gives(level, context, message, r),
    ;
}

/// `wasi:keyvalue/readwrite`
pub trait KeyValueReadWrite: Send + Sync {
    /// Whether `r` is an outcome of [`KeyValueReadWrite::get`] for these
    /// arguments.
    open spec fn get_gives(&self, bucket: &str, key: String, r: Result<(Vec<u8>, u64), CallError>)
        -> bool {
        true
    }

    /// Whether `r` is an outcome of [`KeyValueReadWrite::set`] for these
    /// arguments.
    open spec fn set_gives(
        &self,
        bucket: &str,
        key: String,
        value: Vec<u8>,
        r: Result<(), CallError>,
    ) -> bool {
        true
    }

    /// Whether `r` is an outcome of [`KeyValueReadWrite::delete`] for these
    /// arguments.
    open spec fn delete_gives(&self, bucket: &str, key: String, r: Result<(), CallError>) -> bool {
        true
    }

    /// Whether `r` is an outcome of [`KeyValueReadWrite::contains`] for
    /// these arguments.
    open spec fn contains_gives(&self, bucket: &str, key: String, r: Result<bool, CallError>)
        -> bool {
        true
    }

    /// Handle `wasi:keyvalue/readwrite.get`
    fn get(&self, bucket: &str, key: String) -> (r: Result<(Vec<u8>, u64), CallError>)
        ensures
            self.get_gives(bucket, key, r),
    ;

    /// Handle `wasi:keyvalue/readwrite.set`
    fn set(&self, bucket: &str, key: String, value: Vec<u8>) -> (r: Result<(), CallError>)
        ensures
            self.set_gives(bucket, key, value, r),
    ;

    /// Handle `wasi:keyvalue/readwrite.delete`
    fn delete(&self, bucket: &str, key: String) -> (r: Result<(), CallError>)
        ensures
            self.delete_gives(bucket, key, r),
    ;

    /// Handle `wasi:keyvalue/readwrite.exists`
    fn contains(&self, bucket: &str, key: String) -> (r: Result<bool, CallError>)
        ensures
            self.contains_gives(bucket, key, r),
    ;
}

/// `wasmcloud:messaging/consumer`
pub trait Messaging: Send + Sync {
    /// Whether `r` is an outcome of [`Messaging::request`] for these
    /// arguments.
    open spec fn request_gives(
        &self,
        subject: String,
        body: Option<Vec<u8>>,
        timeout: Duration,
        r: Result<BrokerMessage, CallError>,
    ) -> bool {
        true
    }

    /// Whether `r` is an outcome of [`Messaging::request_multi`] for these
    /// arguments.
    open spec fn request_multi_gives(
        &self,
        subject: String,
        body: Option<Vec<u8>>,
        timeout: Duration,
        max_results: u32,
        r: Result<Vec<BrokerMessage>, CallError>,
    ) -> bool {
        true
    }

    /// Whether `r` is an outcome of [`Messaging::publish`] for this
    /// message.
    open spec fn publish_gives(&self, msg: BrokerMessage, r: Result<(), CallError>) -> bool {
        true
    }

    /// Handle `wasmcloud:messaging/consumer.request`
    fn request(&self, subject: String, body: Option<Vec<u8>>, timeout: Duration) -> (r: Result<
        BrokerMessage,
        CallError,
    >)
        ensures
            self.request_gives(subject, body, timeout, r),
    ;

    /// Handle `wasmcloud:messaging/consumer.request_multi`
    fn request_multi(
        &self,
        subject: String,
        body: Option<Vec<u8>>,
        timeout: Duration,
        max_results: u32,
    ) -> (r: Result<Vec<BrokerMessage>, CallError>)
        ensures
            self.request_multi_gives(subject, body, timeout, max_results, r),
    ;

    /// Handle `wasmcloud:messaging/consumer.publish`
    fn publish(&self, msg: BrokerMessage) -> (r: Result<(), CallError>)
        ensures
            self.publish_gives(msg, r),
    ;
}

/// The capabilities that a handler set has a slot for.
#[derive(Clone, Copy, Debug, PartialEq, Eq)]
pub enum Capability {
    Blobstore,
    Bus,
    IncomingHttp,
    KeyValueReadWrite,
    Logging,
    Messaging,
}

/// `std::sync::Arc::clone`: the new pointer shares the allocation of
/// `pointer`, so it stands for the same value.
#[verifier::external_body]
pub(crate) fn share<T: ?Sized>(pointer: &Arc<T>) -> (shared: Arc<T>)
    ensures
        shared == *pointer,
{
    Arc::clone(pointer)
}

/// A second reference to the handler in `slot`, if there is one.
fn share_slot<T: ?Sized>(slot: &Option<Arc<T>>) -> (shared: Option<Arc<T>>)
    ensures
        shared == *slot,
{
    match slot {
        Some(handler) => Some(share(handler)),
        None => None,
    }
}

/// How a slot is described: by whether it holds a handler.
pub open spec fn slot_text(installed: bool) -> Seq<char> {
    if installed {
        "set"@
    } else {
        "unset"@
    }
}

/// How a slot is described: by whether it holds a handler.
fn slot_name(installed: bool) -> (text: &'static str)
    ensures
        text@ == slot_text(installed),
{
    if installed {
        "set"
    } else {
        "unset"
    }
}

/// What replacing the handler of a slot by `handler` does: the slot holds
/// `handler` afterwards, and what it held before comes back.
pub open spec fn slot_replaced<T>(
    handler: T,
    before: Option<T>,
    after: Option<T>,
    previous: Option<T>,
) -> bool {
    after == Some(handler) && previous == before
}

/// Replacing the handler of a slot twice in a row gives back, the second
/// time, the handler that the first replacement installed.
pub proof fn law_replace_twice<T>(
    first: T,
    second: T,
    initial: Option<T>,
    between: Option<T>,
    last: Option<T>,
    first_previous: Option<T>,
    second_previous: Option<T>,
)
    requires
        slot_replaced(first, initial, between, first_previous),
        slot_replaced(second, between, last, second_previous),
    ensures
        first_previous == initial,
        second_previous == Some(first),
        last == Some(second),
{
}

/// The six handler slots, open to the caller: the plain form of a handler set,
/// used to configure one.
pub struct HandlerBuilder {
    /// [`Blobstore`] handler
    pub blobstore: Option<Arc<dyn Blobstore>>,
    /// [`Bus`] handler
    pub bus: Option<Arc<dyn Bus>>,
    /// [`IncomingHttp`] handler
    pub incoming_http: Option<Arc<dyn IncomingHttp>>,
    /// [`KeyValueReadWrite`] handler
    pub keyvalue_readwrite: Option<Arc<dyn KeyValueReadWrite>>,
    /// [`Logging`] handler
    pub logging: Option<Arc<dyn Logging>>,
    /// [`Messaging`] handler
    pub messaging: Option<Arc<dyn Messaging>>,
}

impl HandlerBuilder {
    /// The builder with every slot empty.
    pub open spec fn empty() -> HandlerBuilder {
        HandlerBuilder {
            blobstore: None,
            bus: None,
            incoming_http: None,
            keyvalue_readwrite: None,
            logging: None,
            messaging: None,
        }
    }

    /// Whether `self` and `other` hold the same handler in every slot, the
    /// slot of `except` left aside.
    pub open spec fn same_but(self, other: HandlerBuilder, except: Capability) -> bool {
        &&& (except is Blobstore || self.blobstore == other.blobstore)
        &&& (except is Bus || self.bus == other.bus)
        &&& (except is IncomingHttp || self.incoming_http == other.incoming_http)
        &&& (except is KeyValueReadWrite || self.keyvalue_readwrite == other.keyvalue_readwrite)
        &&& (except is Logging || self.logging == other.logging)
        &&& (except is Messaging || self.messaging == other.messaging)
    }

    /// The description of the slots under the type name `name`: each slot
    /// by its name, and whether it holds a handler.
    pub open spec fn spec_describe(self, name: Seq<char>) -> Seq<char> {
        name + " { blobstore: "@ + slot_text(self.blobstore is Some) + ", bus: "@ + slot_text(
            self.bus is Some,
        ) + ", incoming_http: "@ + slot_text(self.incoming_http is Some)
            + ", keyvalue_readwrite: "@ + slot_text(self.keyvalue_readwrite is Some)
            + ", logging: "@ + slot_text(self.logging is Some) + ", messaging: "@ + slot_text(
            self.messaging is Some,
        ) + " }"@
    }

    /// Describes the builder for a reader: each slot by its name, and
    /// whether it holds a handler.
    pub fn describe(&self) -> (text: String)
        ensures
            text@ == self.spec_describe("HandlerBuilder"@),
    {
        let text = String::from_str("HandlerBuilder");
        let text = text.concat(" { blobstore: ").concat(slot_name(self.blobstore.is_some()));
        let text = text.concat(", bus: ").concat(slot_name(self.bus.is_some()));
        let text = text.concat(", incoming_http: ").concat(slot_name(self.incoming_http.is_some()));
        let text = text.concat(", keyvalue_readwrite: ").concat(
            slot_name(self.keyvalue_readwrite.is_some()),
        );
        let text = text.concat(", logging: ").concat(slot_name(self.logging.is_some()));
        let text = text.concat(", messaging: ").concat(slot_name(self.messaging.is_some()));
        text.concat(" }")
    }

    /// A builder with every slot empty.
    pub fn new() -> (builder: Self)
        ensures
            builder == Self::empty(),
    {
        HandlerBuilder {
            blobstore: None,
            bus: None,
            incoming_http: None,
            keyvalue_readwrite: None,
            logging: None,
            messaging: None,
        }
    }

    /// Set [`Blobstore`] handler
    pub fn blobstore(self, blobstore: Arc<dyn Blobstore>) -> (builder: Self)
        ensures
            builder.blobstore == Some(blobstore),
            builder.same_but(self, Capability::Blobstore),
    {
        let slot = Some(blobstore);
        HandlerBuilder { blobstore: slot, ..self }
    }

    /// Set [`Bus`] handler
    pub fn bus(self, bus: Arc<dyn Bus>) -> (builder: Self)
        ensures
            builder.bus == Some(bus),
            builder.same_but(self, Capability::Bus),
    {
        let slot = Some(bus);
        HandlerBuilder { bus: slot, ..self }
    }

    /// Set [`IncomingHttp`] handler
    pub fn incoming_http(self, incoming_http: Arc<dyn IncomingHttp>) -> (builder: Self)
        ensures
            builder.incoming_http == Some(incoming_http),
            builder.same_but(self, Capability::IncomingHttp),
    {
        let slot = Some(incoming_http);
        HandlerBuilder { incoming_http: slot, ..self }
    }

    /// Set [`KeyValueReadWrite`] handler
    pub fn keyvalue_readwrite(self, keyvalue_readwrite: Arc<dyn KeyValueReadWrite>) -> (builder:
        Self)
        ensures
            builder.keyvalue_readwrite == Some(keyvalue_readwrite),
            builder.same_but(self, Capability::KeyValueReadWrite),
    {
        let slot = Some(keyvalue_readwrite);
        HandlerBuilder { keyvalue_readwrite: slot, ..self }
    }

    /// Set [`Logging`] handler
    pub fn logging(self, logging: Arc<dyn Logging>) -> (builder: Self)
        ensures
            builder.logging == Some(logging),
            builder.same_but(self, Capability::Logging),
    {
        let slot = Some(logging);
        HandlerBuilder { logging: slot, ..self }
    }

    /// Set [`Messaging`] handler
    pub fn messaging(self, messaging: Arc<dyn Messaging>) -> (builder: Self)
        ensures
            builder.messaging == Some(messaging),
            builder.same_but(self, Capability::Messaging),
    {
        let slot = Some(messaging);
        HandlerBuilder { messaging: slot, ..self }
    }
}

impl Clone for HandlerBuilder {
    fn clone(&self) -> (copy: Self)
        ensures
            copy == *self,
    {
        HandlerBuilder {
            blobstore: share_slot(&self.blobstore),
            bus: share_slot(&self.bus),
            incoming_http: share_slot(&self.incoming_http),
            keyvalue_readwrite: share_slot(&self.keyvalue_readwrite),
            logging: share_slot(&self.logging),
            messaging: share_slot(&self.messaging),
        }
    }
}

impl Default for HandlerBuilder {
    fn default() -> (builder: Self)
        ensures
            builder == Self::empty(),
    {
        HandlerBuilder::new()
    }
}

/// The handler set of one instance: one slot for each capability, each of
/// them empty or holding a shared handler.
///
/// Its view is the plain record of the six slots.
pub struct Handler {
    blobstore: Option<Arc<dyn Blobstore>>,
    bus: Option<Arc<dyn Bus>>,
    keyvalue_readwrite: Option<Arc<dyn KeyValueReadWrite>>,
    logging: Option<Arc<dyn Logging>>,
    incoming_http: Option<Arc<dyn IncomingHttp>>,
    messaging: Option<Arc<dyn Messaging>>,
}

impl View for Handler {
    type V = HandlerBuilder;

    closed spec fn view(&self) -> HandlerBuilder {
        HandlerBuilder {
            blobstore: self.blobstore,
            bus: self.bus,
            incoming_http: self.incoming_http,
            keyvalue_readwrite: self.keyvalue_readwrite,
            logging: self.logging,
            messaging: self.messaging,
        }
    }
}

impl Handler {
    /// Replace [`Blobstore`] handler returning the old one, if such was set
    pub fn replace_blobstore(&mut self, blobstore: Arc<dyn Blobstore>) -> (previous: Option<
        Arc<dyn Blobstore>,
    >)
        ensures
            slot_replaced(blobstore, old(self)@.blobstore, final(self)@.blobstore, previous),
            final(self)@.same_but(old(self)@, Capability::Blobstore),
    {
        let slot = Some(blobstore);
        self.put_blobstore(slot)
    }

    /// Puts `slot` in the place of the [`Blobstore`] slot and returns what the
    /// slot held.
    pub(crate) fn put_blobstore(&mut self, slot: Option<Arc<dyn Blobstore>>) -> (previous:
        Option<Arc<dyn Blobstore>>)
        ensures
            previous == old(self)@.blobstore,
            final(self)@.blobstore == slot,
            final(self)@.same_but(old(self)@, Capability::Blobstore),
    {
        let mut slot = slot;
        std::mem::swap(&mut self.blobstore, &mut slot);
        slot
    }

    /// Replace [`Bus`] handler returning the old one, if such was set
    pub fn replace_bus(&mut self, bus: Arc<dyn Bus>) -> (previous: Option<
        Arc<dyn Bus>,
    >)
        ensures
            slot_replaced(bus, old(self)@.bus, final(self)@.bus, previous),
            final(self)@.same_but(old(self)@, Capability::Bus),
    {
        let slot = Some(bus);
        self.put_bus(slot)
    }

    /// Puts `slot` in the place of the [`Bus`] slot and returns what the
    /// slot held.
    pub(crate) fn put_bus(&mut self, slot: Option<Arc<dyn Bus>>) -> (previous:
        Option<Arc<dyn Bus>>)
        ensures
            previous == old(self)@.bus,
            final(self)@.bus == slot,
            final(self)@.same_but(old(self)@, Capability::Bus),
    {
        let mut slot = slot;
        std::mem::swap(&mut self.bus, &mut slot);
        slot
    }

    /// Replace [`IncomingHttp`] handler returning the old one, if such was set
    pub fn replace_incoming_http(&mut self, incoming_http: Arc<dyn IncomingHttp>) -> (previous:
        Option<Arc<dyn IncomingHttp>>)
        ensures
            slot_replaced(
                incoming_http,
                old(self)@.incoming_http,
                final(self)@.incoming_http,
                previous,
            ),
            final(self)@.same_but(old(self)@, Capability::IncomingHttp),
    {
        let slot = Some(incoming_http);
        self.put_incoming_http(slot)
    }

    /// Puts `slot` in the place of the [`IncomingHttp`] slot and returns what the
    /// slot held.
    pub(crate) fn put_incoming_http(&mut self, slot: Option<Arc<dyn IncomingHttp>>) -> (previous:
        Option<Arc<dyn IncomingHttp>>)
        ensures
            previous == old(self)@.incoming_http,
            final(self)@.incoming_http == slot,
            final(self)@.same_but(old(self)@, Capability::IncomingHttp),
    {
        let mut slot = slot;
        std::mem::swap(&mut self.incoming_http, &mut slot);
        slot
    }

    /// Replace [`KeyValueReadWrite`] handler returning the old one, if such was set
    pub fn replace_keyvalue_readwrite(
        &mut self,
        keyvalue_readwrite: Arc<dyn KeyValueReadWrite>,
    ) -> (previous: Option<Arc<dyn KeyValueReadWrite>>)
        ensures
            slot_replaced(
                keyvalue_readwrite,
                old(self)@.keyvalue_readwrite,
                final(self)@.keyvalue_readwrite,
                previous,
            ),
            final(self)@.same_but(old(self)@, Capability::KeyValueReadWrite),
    {
        let slot = Some(keyvalue_readwrite);
        self.put_keyvalue_readwrite(slot)
    }

    /// Puts `slot` in the place of the [`KeyValueReadWrite`] slot and returns what the
    /// slot held.
    pub(crate) fn put_keyvalue_readwrite(
        &mut self,
        slot: Option<Arc<dyn KeyValueReadWrite>>,
    ) -> (previous: Option<Arc<dyn KeyValueReadWrite>>)
        ensures
            previous == old(self)@.keyvalue_readwrite,
            final(self)@.keyvalue_readwrite == slot,
            final(self)@.same_but(old(self)@, Capability::KeyValueReadWrite),
    {
        let mut slot = slot;
        std::mem::swap(&mut self.keyvalue_readwrite, &mut slot);
        slot
    }

    /// Replace [`Logging`] handler returning the old one, if such was set
    pub fn replace_logging(&mut self, logging: Arc<dyn Logging>) -> (previous: Option<
        Arc<dyn Logging>,
    >)
        ensures
            slot_replaced(logging, old(self)@.logging, final(self)@.logging, previous),
            final(self)@.same_but(old(self)@, Capability::Logging),
    {
        let slot = Some(logging);
        self.put_logging(slot)
    }

    /// Puts `slot` in the place of the [`Logging`] slot and returns what the
    /// slot held.
    pub(crate) fn put_logging(&mut self, slot: Option<Arc<dyn Logging>>) -> (previous:
        Option<Arc<dyn Logging>>)
        ensures
            previous == old(self)@.logging,
            final(self)@.logging == slot,
            final(self)@.same_but(old(self)@, Capability::Logging),
    {
        let mut slot = slot;
        std::mem::swap(&mut self.logging, &mut slot);
        slot
    }

    /// Replace [`Messaging`] handler returning the old one, if such was set
    pub fn replace_messaging(&mut self, messaging: Arc<dyn Messaging>) -> (previous: Option<
        Arc<dyn Messaging>,
    >)
        ensures
            slot_replaced(messaging, old(self)@.messaging, final(self)@.messaging, previous),
            final(self)@.same_but(old(self)@, Capability::Messaging),
    {
        let slot = Some(messaging);
        self.put_messaging(slot)
    }

    /// Puts `slot` in the place of the [`Messaging`] slot and returns what the
    /// slot held.
    pub(crate) fn put_messaging(&mut self, slot: Option<Arc<dyn Messaging>>) -> (previous:
        Option<Arc<dyn Messaging>>)
        ensures
            previous == old(self)@.messaging,
            final(self)@.messaging == slot,
            final(self)@.same_but(old(self)@, Capability::Messaging),
    {
        let mut slot = slot;
        std::mem::swap(&mut self.messaging, &mut slot);
        slot
    }

    /// The handler set whose slots are those of `builder`.
    pub closed spec fn holding(builder: HandlerBuilder) -> Handler {
        Handler {
            blobstore: builder.blobstore,
            bus: builder.bus,
            keyvalue_readwrite: builder.keyvalue_readwrite,
            logging: builder.logging,
            incoming_http: builder.incoming_http,
            messaging: builder.messaging,
        }
    }

    /// The handler set of [`Handler::holding`] has the view it was made of.
    pub proof fn lemma_holding(builder: HandlerBuilder)
        ensures
            Self::holding(builder)@ == builder,
    {
    }

    /// Describes the handler set for a reader: each slot by its name, and
    /// whether it holds a handler.
    pub fn describe(&self) -> (text: String)
        ensures
            text@ == self@.spec_describe("Handler"@),
    {
        let text = String::from_str("Handler");
        let text = text.concat(" { blobstore: ").concat(slot_name(self.blobstore.is_some()));
        let text = text.concat(", bus: ").concat(slot_name(self.bus.is_some()));
        let text = text.concat(", incoming_http: ").concat(slot_name(self.incoming_http.is_some()));
        let text = text.concat(", keyvalue_readwrite: ").concat(
            slot_name(self.keyvalue_readwrite.is_some()),
        );
        let text = text.concat(", logging: ").concat(slot_name(self.logging.is_some()));
        let text = text.concat(", messaging: ").concat(slot_name(self.messaging.is_some()));
        text.concat(" }")
    }

    /// Whether a handler is installed for `capability`.
    pub fn supports(&self, capability: Capability) -> (installed: bool)
        ensures
            installed == match capability {
                Capability::Blobstore => self@.blobstore is Some,
                Capability::Bus => self@.bus is Some,
                Capability::IncomingHttp => self@.incoming_http is Some,
                Capability::KeyValueReadWrite => self@.keyvalue_readwrite is Some,
                Capability::Logging => self@.logging is Some,
                Capability::Messaging => self@.messaging is Some,
            },
    {
        match capability {
            Capability::Blobstore => self.blobstore.is_some(),
            Capability::Bus => self.bus.is_some(),
            Capability::IncomingHttp => self.incoming_http.is_some(),
            Capability::KeyValueReadWrite => self.keyvalue_readwrite.is_some(),
            Capability::Logging => self.logging.is_some(),
            Capability::Messaging => self.messaging.is_some(),
        }
    }
}

impl Clone for Handler {
    fn clone(&self) -> (copy: Self)
        ensures
            copy@ == self@,
    {
        Handler {
            blobstore: share_slot(&self.blobstore),
            bus: share_slot(&self.bus),
            incoming_http: share_slot(&self.incoming_http),
            keyvalue_readwrite: share_slot(&self.keyvalue_readwrite),
            logging: share_slot(&self.logging),
            messaging: share_slot(&self.messaging),
        }
    }
}

impl Default for Handler {
    fn default() -> (handler: Self)
        ensures
            handler@ == HandlerBuilder::empty(),
    {
        Handler {
            blobstore: None,
            bus: None,
            keyvalue_readwrite: None,
            logging: None,
            incoming_http: None,
            messaging: None,
        }
    }
}

impl From<Handler> for HandlerBuilder {
    fn from(handler: Handler) -> (builder: Self) {
        HandlerBuilder {
            blobstore: handler.blobstore,
            bus: handler.bus,
            incoming_http: handler.incoming_http,
            keyvalue_readwrite: handler.keyvalue_readwrite,
            logging: handler.logging,
            messaging: handler.messaging,
        }
    }
}

impl vstd::std_specs::convert::FromSpecImpl<Handler> for HandlerBuilder {
    open spec fn obeys_from_spec() -> bool {
        true
    }

    open spec fn from_spec(handler: Handler) -> HandlerBuilder {
        handler@
    }
}

impl From<HandlerBuilder> for Handler {
    fn from(builder: HandlerBuilder) -> (handler: Self) {
        Handler {
            blobstore: builder.blobstore,
            bus: builder.bus,
            keyvalue_readwrite: builder.keyvalue_readwrite,
            logging: builder.logging,
            incoming_http: builder.incoming_http,
            messaging: builder.messaging,
        }
    }
}

impl vstd::std_specs::convert::FromSpecImpl<HandlerBuilder> for Handler {
    open spec fn obeys_from_spec() -> bool {
        true
    }

    open spec fn from_spec(builder: HandlerBuilder) -> Handler {
        Handler::holding(builder)
    }
}

/// Whether `r` reports that no handler is installed for the operation
/// `op`.
pub open spec fn unsupported<T>(r: Result<T, CallError>, capability: Capability, op: Seq<char>)
    -> bool {
    r matches Err(e) && e.is_unsupported(capability, op)
}

impl Logging for Handler {
    /// The outcomes of [`Logging::log`] on a handler set: those of the
    /// installed handler; with none installed the record is dropped and the
    /// call succeeds.
    open spec fn log_gives(
        &self,
        level: Level,
        context: String,
        message: String,
        r: Result<(), CallError>,
    ) -> bool {
        match self@.logging {
            Some(logging) => logging.log_gives(level, context, message, r),
            None => r is Ok,
        }
    }

    fn log(&self, level: Level, context: String, message: String) -> (r: Result<(), CallError>) {
        match &self.logging {
            Some(logging) => logging.log(level, context, message),
            None => Ok(()),
        }
    }
}

impl Bus for Handler {
    /// The outcomes of [`Bus::call`] on a handler set: those of the
    /// installed handler; with none installed the call fails, and the error
    /// names the operation.
    open spec fn call_gives(
        &self,
        operation: String,
        request: Vec<u8>,
        r: Result<BusReply, CallError>,
    ) -> bool {
        match self@.bus {
            Some(bus) => bus.call_gives(operation, request, r),
            None => unsupported(r, Capability::Bus, operation@),
        }
    }

    fn call(&self, operation: String, request: Vec<u8>) -> (r: Result<BusReply, CallError>) {
        match &self.bus {
            Some(bus) => bus.call(operation, request),
            None => Err(CallError::unsupported(Capability::Bus, operation.as_str())),
        }
    }
}

impl KeyValueReadWrite for Handler {
    /// The outcomes of [`KeyValueReadWrite::get`] on a handler set: those
    /// of the installed handler; with none installed the call fails, and
    /// the error names the operation.
    open spec fn get_gives(&self, bucket: &str, key: String, r: Result<(Vec<u8>, u64), CallError>)
        -> bool {
        match self@.keyvalue_readwrite {
            Some(keyvalue) => keyvalue.get_gives(bucket, key, r),
            None => unsupported(r, Capability::KeyValueReadWrite, KEYVALUE_GET@),
        }
    }

    /// The outcomes of [`KeyValueReadWrite::set`] on a handler set.
    open spec fn set_gives(
        &self,
        bucket: &str,
        key: String,
        value: Vec<u8>,
        r: Result<(), CallError>,
    ) -> bool {
        match self@.keyvalue_readwrite {
            Some(keyvalue) => keyvalue.set_gives(bucket, key, value, r),
            None => unsupported(r, Capability::KeyValueReadWrite, KEYVALUE_SET@),
        }
    }

    /// The outcomes of [`KeyValueReadWrite::delete`] on a handler set.
    open spec fn delete_gives(&self, bucket: &str, key: String, r: Result<(), CallError>) -> bool {
        match self@.keyvalue_readwrite {
            Some(keyvalue) => keyvalue.delete_gives(bucket, key, r),
            None => unsupported(r, Capability::KeyValueReadWrite, KEYVALUE_DELETE@),
        }
    }

    /// The outcomes of [`KeyValueReadWrite::contains`] on a handler set.
    open spec fn contains_gives(&self, bucket: &str, key: String, r: Result<bool, CallError>)
        -> bool {
        match self@.keyvalue_readwrite {
            Some(keyvalue) => keyvalue.contains_gives(bucket, key, r),
            None => unsupported(r, Capability::KeyValueReadWrite, KEYVALUE_EXISTS@),
        }
    }

    fn get(&self, bucket: &str, key: String) -> (r: Result<(Vec<u8>, u64), CallError>) {
        match &self.keyvalue_readwrite {
            Some(keyvalue) => keyvalue.get(bucket, key),
            None => Err(CallError::unsupported(Capability::KeyValueReadWrite, KEYVALUE_GET)),
        }
    }

    fn set(&self, bucket: &str, key: String, value: Vec<u8>) -> (r: Result<(), CallError>) {
        match &self.keyvalue_readwrite {
            Some(keyvalue) => keyvalue.set(bucket, key, value),
            None => Err(CallError::unsupported(Capability::KeyValueReadWrite, KEYVALUE_SET)),
        }
    }

    fn delete(&self, bucket: &str, key: String) -> (r: Result<(), CallError>) {
        match &self.keyvalue_readwrite {
            Some(keyvalue) => keyvalue.delete(bucket, key),
            None => Err(CallError::unsupported(Capability::KeyValueReadWrite, KEYVALUE_DELETE)),
        }
    }

    fn contains(&self, bucket: &str, key: String) -> (r: Result<bool, CallError>) {
        match &self.keyvalue_readwrite {
            Some(keyvalue) => keyvalue.contains(bucket, key),
            None => Err(CallError::unsupported(Capability::KeyValueReadWrite, KEYVALUE_EXISTS)),
        }
    }
}

impl IncomingHttp for Handler {
    /// The outcomes of [`IncomingHttp::handle`] on a handler set: those of
    /// the installed handler; with none installed the call fails, and the
    /// error names the operation.
    open spec fn handle_gives(
        &self,
        request: http::Request<Vec<u8>>,
        r: Result<http::Response<Vec<u8>>, CallError>,
    ) -> bool {
        match self@.incoming_http {
            Some(incoming_http) => incoming_http.handle_gives(request, r),
            None => unsupported(r, Capability::IncomingHttp, INCOMING_HTTP_HANDLE@),
        }
    }

    fn handle(&self, request: http::Request<Vec<u8>>) -> (r: Result<
        http::Response<Vec<u8>>,
        CallError,
    >) {
        match &self.incoming_http {
            Some(incoming_http) => incoming_http.handle(request),
            None => Err(CallError::unsupported(Capability::IncomingHttp, INCOMING_HTTP_HANDLE)),
        }
    }
}

impl Messaging for Handler {
    /// The outcomes of [`Messaging::request`] on a handler set: those of
    /// the installed handler; with none installed the call fails, and the
    /// error names the operation.
    open spec fn request_gives(
        &self,
        subject: String,
        body: Option<Vec<u8>>,
        timeout: Duration,
        r: Result<BrokerMessage, CallError>,
    ) -> bool {
        match self@.messaging {
            Some(messaging) => messaging.request_gives(subject, body, timeout, r),
            None => unsupported(r, Capability::Messaging, MESSAGING_REQUEST@),
        }
    }

    /// The outcomes of [`Messaging::request_multi`] on a handler set.
    open spec fn request_multi_gives(
        &self,
        subject: String,
        body: Option<Vec<u8>>,
        timeout: Duration,
        max_results: u32,
        r: Result<Vec<BrokerMessage>, CallError>,
    ) -> bool {
        match self@.messaging {
            Some(messaging) => messaging.request_multi_gives(
                subject,
                body,
                timeout,
                max_results,
                r,
            ),
            None => unsupported(r, Capability::Messaging, MESSAGING_REQUEST_MULTI@),
        }
    }

    /// The outcomes of [`Messaging::publish`] on a handler set.
    open spec fn publish_gives(&self, msg: BrokerMessage, r: Result<(), CallError>) -> bool {
        match self@.messaging {
            Some(messaging) => messaging.publish_gives(msg, r),
            None => unsupported(r, Capability::Messaging, MESSAGING_PUBLISH@),
        }
    }

    fn request(&self, subject: String, body: Option<Vec<u8>>, timeout: Duration) -> (r: Result<
        BrokerMessage,
        CallError,
    >) {
        match &self.messaging {
            Some(messaging) => messaging.request(subject, body, timeout),
            None => Err(CallError::unsupported(Capability::Messaging, MESSAGING_REQUEST)),
        }
    }

    fn request_multi(
        &self,
        subject: String,
        body: Option<Vec<u8>>,
        timeout: Duration,
        max_results: u32,
    ) -> (r: Result<Vec<BrokerMessage>, CallError>) {
        match &self.messaging {
            Some(messaging) => messaging.request_multi(subject, body, timeout, max_results),
            None => Err(CallError::unsupported(Capability::Messaging, MESSAGING_REQUEST_MULTI)),
        }
    }

    fn publish(&self, msg: BrokerMessage) -> (r: Result<(), CallError>) {
        match &self.messaging {
            Some(messaging) => messaging.publish(msg),
            None => Err(CallError::unsupported(Capability::Messaging, MESSAGING_PUBLISH)),
        }
    }
}

} // verus!
