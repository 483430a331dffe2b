//! Namespace identifiers and per-namespace runtime configuration.

use vstd::prelude::*;

verus! {

/// Name of the reserved bootstrap namespace, the only namespace served by
/// the synchronous (internal) form of a metadata-store handle.
pub open spec fn internal_namespace() -> Seq<char> {
    "_libsql_server_internal"@
}

/// An immutable identifier scoping every other entity in the system.
/// Uniqueness of the name is the multiplexing key for every per-namespace
/// map the control plane keeps.
pub struct NamespaceName {
    name: String,
}

impl View for NamespaceName {
    type V = Seq<char>;

    closed spec fn view(&self) -> Seq<char> {
        self.name@
    }
}

impl NamespaceName {
    pub fn new(name: String) -> (r: Self)
        ensures
            r@ == name@,
    {
        NamespaceName { name }
    }

    /// The reserved name of the bootstrap namespace.
    pub fn internal() -> (r: Self)
        ensures
            r@ == internal_namespace(),
    {
        NamespaceName { name: "_libsql_server_internal".to_owned() }
    }

    pub fn as_str(&self) -> (r: &str)
        ensures
            r@ == self@,
    {
        self.name.as_str()
    }

    /// An explicit copy; clones of a name denote the same namespace.
    pub fn dup(&self) -> (r: Self)
        ensures
            r@ == self@,
    {
        NamespaceName { name: self.name.clone() }
    }
}

impl PartialEq for NamespaceName {
    fn eq(&self, other: &Self) -> (r: bool) {
        self.name == other.name
    }
}

impl vstd::std_specs::cmp::PartialEqSpecImpl for NamespaceName {
    open spec fn obeys_eq_spec() -> bool {
        true
    }

    open spec fn eq_spec(&self, other: &Self) -> bool {
        self@ == other@
    }
}

/// Immutable, versioned-by-replacement value object describing a
/// namespace's runtime policy. A change never mutates a config in place:
/// it publishes a new instance, and readers hold the config as of the last
/// observed change.
#[derive(Clone, Copy, Debug, PartialEq, Eq)]
pub struct DatabaseConfig {
    /// Maximum database size in pages; `None` means unlimited.
    pub quota: Option<u64>,
    /// Refuse read statements on this namespace when set.
    pub block_reads: bool,
    /// Refuse write statements on this namespace when set.
    pub block_writes: bool,
}

impl DatabaseConfig {
    /// The policy a namespace starts with before any change is stored.
    pub open spec fn initial() -> Self {
        DatabaseConfig { quota: None, block_reads: false, block_writes: false }
    }
}

impl Default for DatabaseConfig {
    fn default() -> (r: Self)
        ensures
            r == DatabaseConfig::initial(),
    {
        DatabaseConfig { quota: None, block_reads: false, block_writes: false }
    }
}

} // verus!
