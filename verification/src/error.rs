//! Error kinds of the runtime, by phase.

use crate::capability::Capability;
use vstd::prelude::*;
use vstd::string::*;

verus! {

/// Why the token that an artifact carries is refused.
#[derive(Clone, Debug, PartialEq, Eq)]
pub enum TokenFault {
    /// The token could not be put to validation at all.
    Malformed,
    /// The token's lifetime is over; `at` tells when it ended.
    Expired { at: String },
    /// The token's lifetime has not begun; `until` tells when it begins.
    NotYetValid { until: String },
    /// The signature does not belong to the token's issuer.
    BadSignature,
}

/// Failure to load an actor from an artifact.
#[derive(Clone, Debug, PartialEq, Eq)]
pub enum LoadError {
    /// No artifact was had: its bytes could not be read.
    MalformedArtifact,
    /// The artifact's embedded claims could not be extracted.
    ClaimsExtractFailed,
    /// The artifact carries a token, and the token is refused.
    TokenInvalid(TokenFault),
    /// Signed artifacts are asked for, and this one carries no claims.
    SignatureRequiredButAbsent,
    /// The engine could not compile the artifact.
    CompileFailed,
}

/// The export surfaces that a typed view of an instance can stand for.
#[derive(Clone, Copy, Debug, PartialEq, Eq)]
pub enum Interface {
    /// The operation dispatch of `wasmcloud:bus/guest`
    Guest,
    /// `wasi:logging/logging`
    Logging,
    /// `wasi:http/incoming-handler`
    IncomingHttp,
}

/// Failure to obtain an instance, or a typed view of one.
#[derive(Clone, Debug, PartialEq, Eq)]
pub enum InstantiateError {
    /// The engine could not set the guest up.
    InstantiationFailed { detail: String },
    /// The component does not export the interface that the view stands for.
    ExportMissing { interface: Interface },
}

/// Failure of a call into a capability handler or into a guest.
///
/// This is the outer error of every call-style operation: it tells that the
/// host could not carry the call out. An error that the guest itself reports
/// travels inside a successful outer result.
///
/// A failure may come wrapped in the context in which it came up; its kind
/// is then that of the failure at the root.
#[derive(Debug, PartialEq, Eq)]
pub enum CallError {
    /// No handler of `capability` is installed for the operation that was
    /// asked for.
    HandlerUnsupported { capability: Capability, capability_op: String },
    /// Moving bytes between host and handler failed.
    HostIoFailed { detail: String },
    /// The guest trapped or could not be entered.
    GuestTrap { detail: String },
    /// The failure `cause`, which came up while `context` was being done.
    Context { context: String, cause: Box<CallError> },
}

impl TokenFault {
    /// The text of the fault.
    pub open spec fn spec_message(self) -> Seq<char> {
        match self {
            TokenFault::Malformed => "failed to validate module token"@,
            TokenFault::Expired { at } => "token expired at `"@ + at@ + "`"@,
            TokenFault::NotYetValid { until } => "token cannot be used before `"@ + until@ + "`"@,
            TokenFault::BadSignature => "signature is not valid"@,
        }
    }

    /// The text of the fault.
    pub fn message(&self) -> (text: String)
        ensures
            text@ == self.spec_message(),
    {
        match self {
            TokenFault::Malformed => String::from_str("failed to validate module token"),
            TokenFault::Expired { at } => {
                String::from_str("token expired at `").concat(at.as_str()).concat("`")
            },
            TokenFault::NotYetValid { until } => {
                String::from_str("token cannot be used before `").concat(until.as_str()).concat(
                    "`",
                )
            },
            TokenFault::BadSignature => String::from_str("signature is not valid"),
        }
    }
}

impl LoadError {
    /// The text of the error.
    pub open spec fn spec_message(self) -> Seq<char> {
        match self {
            LoadError::MalformedArtifact => "failed to read Wasm"@,
            LoadError::ClaimsExtractFailed => "failed to extract module claims"@,
            LoadError::TokenInvalid(fault) => fault.spec_message(),
            LoadError::SignatureRequiredButAbsent => "signature is required"@,
            LoadError::CompileFailed => "failed to compile"@,
        }
    }

    /// The text of the error.
    pub fn message(&self) -> (text: String)
        ensures
            text@ == self.spec_message(),
    {
        match self {
            LoadError::MalformedArtifact => String::from_str("failed to read Wasm"),
            LoadError::ClaimsExtractFailed => String::from_str("failed to extract module claims"),
            LoadError::TokenInvalid(fault) => fault.message(),
            LoadError::SignatureRequiredButAbsent => String::from_str("signature is required"),
            LoadError::CompileFailed => String::from_str("failed to compile"),
        }
    }
}

impl Interface {
    /// The name of the interface.
    pub open spec fn spec_name(self) -> Seq<char> {
        match self {
            Interface::Guest => "wasmcloud:bus/guest"@,
            Interface::Logging => "wasi:logging/logging"@,
            Interface::IncomingHttp => "wasi:http/incoming-handler"@,
        }
    }

    /// The name of the interface.
    pub fn name(&self) -> (text: &'static str)
        ensures
            text@ == self.spec_name(),
    {
        match self {
            Interface::Guest => "wasmcloud:bus/guest",
            Interface::Logging => "wasi:logging/logging",
            Interface::IncomingHttp => "wasi:http/incoming-handler",
        }
    }
}

impl InstantiateError {
    /// The text of the error.
    pub open spec fn spec_message(self) -> Seq<char> {
        match self {
            InstantiateError::InstantiationFailed { detail } => "failed to instantiate actor: "@
                + detail@,
            InstantiateError::ExportMissing { interface } => "guest does not export `"@
                + interface.spec_name() + "`"@,
        }
    }

    /// The text of the error.
    pub fn message(&self) -> (text: String)
        ensures
            text@ == self.spec_message(),
    {
        match self {
            InstantiateError::InstantiationFailed { detail } => {
                String::from_str("failed to instantiate actor: ").concat(detail.as_str())
            },
            InstantiateError::ExportMissing { interface } => {
                String::from_str("guest does not export `").concat(interface.name()).concat("`")
            },
        }
    }
}

impl Clone for CallError {
    fn clone(&self) -> (copy: Self)
        ensures
            copy == *self,
    {
        self.duplicate()
    }
}

impl CallError {
    /// A copy of this error, contexts and all.
    fn duplicate(&self) -> (copy: Self)
        ensures
            copy == *self,
        decreases self,
    {
        match self {
            CallError::HandlerUnsupported { capability, capability_op } => {
                CallError::HandlerUnsupported {
                    capability: *capability,
                    capability_op: capability_op.clone(),
                }
            },
            CallError::HostIoFailed { detail } => {
                CallError::HostIoFailed { detail: detail.clone() }
            },
            CallError::GuestTrap { detail } => CallError::GuestTrap { detail: detail.clone() },
            CallError::Context { context, cause } => CallError::Context {
                context: context.clone(),
                cause: Box::new(cause.duplicate()),
            },
        }
    }

    /// Whether this error reports that no handler of `capability` is
    /// installed for the operation `op`.
    pub open spec fn is_unsupported(self, capability: Capability, op: Seq<char>) -> bool {
        self matches CallError::HandlerUnsupported { capability: missing, capability_op }
            && missing == capability && capability_op@ == op
    }

    /// The error that reports that no handler of `capability` is installed
    /// for the operation `op`.
    pub fn unsupported(capability: Capability, op: &str) -> (e: CallError)
        ensures
            e.is_unsupported(capability, op@),
    {
        CallError::HandlerUnsupported { capability, capability_op: String::from_str(op) }
    }

    /// Whether this error is `cause` in the context `context`.
    pub open spec fn is_in_context(self, context: Seq<char>, cause: CallError) -> bool {
        self matches CallError::Context { context: given, cause: wrapped } && given@ == context
            && *wrapped == cause
    }

    /// This error in the context `context`.
    pub fn in_context(self, context: &str) -> (e: CallError)
        ensures
            e.is_in_context(context@, self),
    {
        CallError::Context { context: String::from_str(context), cause: Box::new(self) }
    }

    /// The failure at the root of this error: the error itself, taken out
    /// of every context that it is wrapped in.
    pub open spec fn spec_root(self) -> CallError
        decreases self,
    {
        match self {
            CallError::Context { context, cause } => cause.spec_root(),
            root => root,
        }
    }

    /// The failure at the root of this error.
    pub fn root(&self) -> (root: &CallError)
        ensures
            *root == self.spec_root(),
            !(*root is Context),
        decreases self,
    {
        match self {
            CallError::Context { context, cause } => cause.root(),
            root => root,
        }
    }

    /// The words in front of the operation that has no handler: the bus
    /// answers for the host.
    pub open spec fn spec_unsupported_prefix(capability: Capability) -> Seq<char> {
        if capability is Bus {
            "host cannot handle `"@
        } else {
            "cannot handle `"@
        }
    }

    /// The text of the error: that of the failure at the root, behind the
    /// contexts that it is wrapped in, outermost first.
    pub open spec fn spec_message(self) -> Seq<char>
        decreases self,
    {
        match self {
            CallError::HandlerUnsupported { capability, capability_op } => {
                Self::spec_unsupported_prefix(capability) + capability_op@ + "`"@
            },
            CallError::HostIoFailed { detail } => detail@,
            CallError::GuestTrap { detail } => detail@,
            CallError::Context { context, cause } => context@ + ": "@ + cause.spec_message(),
        }
    }

    /// The text of the error.
    pub fn message(&self) -> (text: String)
        ensures
            text@ == self.spec_message(),
        decreases self,
    {
        match self {
            CallError::HandlerUnsupported { capability, capability_op } => {
                let prefix = match capability {
                    Capability::Bus => "host cannot handle `",
                    _ => "cannot handle `",
                };
                String::from_str(prefix).concat(capability_op.as_str()).concat("`")
            },
            CallError::HostIoFailed { detail } => detail.clone(),
            CallError::GuestTrap { detail } => detail.clone(),
            CallError::Context { context, cause } => {
                let rest = cause.message();
                context.clone().concat(": ").concat(rest.as_str())
            },
        }
    }
}

} // verus!
