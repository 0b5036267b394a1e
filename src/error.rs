use vstd::prelude::*;
use vstd::string::*;

verus! {

/// The class of a failure, following the bridge's error taxonomy.
#[derive(Debug, Clone, Copy, PartialEq, Eq, Structural)]
pub enum ErrorClass {
    /// Construction-time configuration parse or schema failure.
    Config,
    /// Invalid state transition, marshalling failure or transport failure.
    Protocol,
    /// A host object or a cross-boundary call that could not be used.
    Boundary,
}

/// A structured failure: its class and a human-readable message.
#[derive(Debug, Clone)]
pub struct BridgeError {
    pub class: ErrorClass,
    pub message: String,
}

pub open spec fn protocol_prefix() -> Seq<char> {
    "Protocol error: "@
}

pub open spec fn runtime_prefix() -> Seq<char> {
    "Runtime error: "@
}

pub open spec fn config_prefix() -> Seq<char> {
    "Config error: "@
}

pub open spec fn boundary_prefix() -> Seq<char> {
    "Boundary error: "@
}

pub open spec fn system_consumed_message() -> Seq<char> {
    "System already consumed"@
}

pub open spec fn node_started_message() -> Seq<char> {
    "Node already started"@
}

pub open spec fn context_mismatch_prefix() -> Seq<char> {
    "Context type mismatch: expected RuntimeContext, got "@
}

pub open spec fn missing_entry_prefix() -> Seq<char> {
    "Workload object has no callable entry point: "@
}

/// `s` occurs in `t` as a contiguous piece.
pub open spec fn contains(t: Seq<char>, s: Seq<char>) -> bool {
    exists|i: int| 0 <= i && i + s.len() <= t.len() && #[trigger] t.subrange(i, i + s.len()) == s
}

/// A message made of a fixed prefix and a detail keeps the detail as a piece.
pub proof fn lemma_suffix_contained(prefix: Seq<char>, detail: Seq<char>)
    ensures
        contains(prefix + detail, detail),
{
    let t = prefix + detail;
    assert(t.subrange(prefix.len() as int, prefix.len() + detail.len() as int) =~= detail);
}

fn prefixed(prefix: &str, detail: &str) -> (r: String)
    ensures
        r@ == prefix@ + detail@,
{
    let mut m = String::from_str(prefix);
    m.append(detail);
    m
}

impl BridgeError {
    /// Wraps a protocol or transport failure, keeping its text after a prefix.
    pub fn protocol(detail: &str) -> (r: BridgeError)
        ensures
            r.class == ErrorClass::Protocol,
            r.message@ == protocol_prefix() + detail@,
            contains(r.message@, detail@),
    {
        proof {
            lemma_suffix_contained(protocol_prefix(), detail@);
        }
        BridgeError { class: ErrorClass::Protocol, message: prefixed("Protocol error: ", detail) }
    }

    /// Wraps a failure of the native runtime, keeping its text after a prefix.
    pub fn runtime(detail: &str) -> (r: BridgeError)
        ensures
            r.class == ErrorClass::Protocol,
            r.message@ == runtime_prefix() + detail@,
            contains(r.message@, detail@),
    {
        proof {
            lemma_suffix_contained(runtime_prefix(), detail@);
        }
        BridgeError { class: ErrorClass::Protocol, message: prefixed("Runtime error: ", detail) }
    }

    /// Wraps a configuration failure, keeping its text after a prefix.
    pub fn config(detail: &str) -> (r: BridgeError)
        ensures
            r.class == ErrorClass::Config,
            r.message@ == config_prefix() + detail@,
            contains(r.message@, detail@),
    {
        proof {
            lemma_suffix_contained(config_prefix(), detail@);
        }
        BridgeError { class: ErrorClass::Config, message: prefixed("Config error: ", detail) }
    }

    /// Wraps a failure to hand a call across the boundary, keeping its text after a prefix.
    pub fn boundary(detail: &str) -> (r: BridgeError)
        ensures
            r.class == ErrorClass::Boundary,
            r.message@ == boundary_prefix() + detail@,
            contains(r.message@, detail@),
    {
        proof {
            lemma_suffix_contained(boundary_prefix(), detail@);
        }
        BridgeError { class: ErrorClass::Boundary, message: prefixed("Boundary error: ", detail) }
    }

    /// The failure of a second `attach` on one system.
    pub fn system_consumed() -> (r: BridgeError)
        ensures
            r.class == ErrorClass::Protocol,
            r.message@ == system_consumed_message(),
    {
        BridgeError { class: ErrorClass::Protocol, message: String::from_str("System already consumed") }
    }

    /// The failure of a second `start` on one node.
    pub fn node_started() -> (r: BridgeError)
        ensures
            r.class == ErrorClass::Protocol,
            r.message@ == node_started_message(),
    {
        BridgeError { class: ErrorClass::Protocol, message: String::from_str("Node already started") }
    }

    /// The failure to derive a context surface from another context implementation.
    pub fn context_mismatch(found: &str) -> (r: BridgeError)
        ensures
            r.class == ErrorClass::Protocol,
            r.message@ == context_mismatch_prefix() + found@,
    {
        BridgeError {
            class: ErrorClass::Protocol,
            message: prefixed("Context type mismatch: expected RuntimeContext, got ", found),
        }
    }

    /// The failure of a host object that lacks the named entry point.
    pub fn missing_entry_point(name: &str) -> (r: BridgeError)
        ensures
            r.class == ErrorClass::Boundary,
            r.message@ == missing_entry_prefix() + name@,
    {
        BridgeError {
            class: ErrorClass::Boundary,
            message: prefixed("Workload object has no callable entry point: ", name),
        }
    }

    /// The message of this failure.
    pub fn message(&self) -> (r: String)
        ensures
            r@ == self.message@,
    {
        self.message.clone()
    }
}

} // verus!
