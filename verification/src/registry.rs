use vstd::prelude::*;
use vstd::string::StringExecFns;
use crate::engine::Engine;
use crate::errors::BridgeError;

verus! {

broadcast use vstd::std_specs::hash::group_hash_axioms;

/// Binds an engine handle to a host-object identity: insert-once at
/// initialization, look-up at every call, remove-once at destruction. The
/// identity is a stable numeric key derived from the host object.
pub struct Registry {
    handles: std::collections::HashMap<u64, Engine>,
}

impl View for Registry {
    type V = Map<u64, Engine>;

    closed spec fn view(&self) -> Map<u64, Engine> {
        self.handles@
    }
}

impl Registry {
    /// A registry with no handle installed.
    pub fn new() -> (r: Registry)
        ensures
            r@ == Map::<u64, Engine>::empty(),
    {
        Registry { handles: std::collections::HashMap::new() }
    }

    /// Whether a handle is installed for the identity.
    pub fn contains(&self, key: u64) -> (b: bool)
        ensures
            b == self@.contains_key(key),
    {
        self.handles.contains_key(&key)
    }

    /// Installs an engine for an identity. Fails, and installs nothing, if
    /// a handle already exists for it: a handle is inserted exactly once.
    pub fn install(&mut self, key: u64, engine: Engine) -> (r: Result<(), BridgeError>)
        ensures
            old(self)@.contains_key(key) ==> (r matches Err(e) && e matches BridgeError::AlreadyInitialized(m)
                && m@ == "A handle is already initialized for this object"@),
            old(self)@.contains_key(key) ==> final(self)@ == old(self)@,
            !old(self)@.contains_key(key) ==> r is Ok,
            !old(self)@.contains_key(key) ==> final(self)@ == old(self)@.insert(key, engine),
    {
        if self.handles.contains_key(&key) {
            Err(
                BridgeError::AlreadyInitialized(
                    String::from_str("A handle is already initialized for this object"),
                ),
            )
        } else {
            let _ = self.handles.insert(key, engine);
            Ok(())
        }
    }

    /// Borrows the engine installed for an identity, for the span of one
    /// call. Fails if none is installed: use before initialization or
    /// after destruction is an explicit lookup failure, never a stale
    /// engine.
    pub fn acquire(&self, key: u64) -> (r: Result<&Engine, BridgeError>)
        ensures
            self@.contains_key(key) ==> (r matches Ok(e) && *e == self@[key]),
            !self@.contains_key(key) ==> (r matches Err(e) && e matches BridgeError::NotFound(m)
                && m@ == "Unable to find handle"@),
    {
        match self.handles.get(&key) {
            Some(engine) => Ok(engine),
            None => Err(BridgeError::NotFound(String::from_str("Unable to find handle"))),
        }
    }

    /// Removes the handle for an identity and transfers the engine out, so
    /// the caller releases its resources; a handle is removed exactly
    /// once. Fails if none is installed.
    pub fn remove(&mut self, key: u64) -> (r: Result<Engine, BridgeError>)
        ensures
            old(self)@.contains_key(key) ==> (r matches Ok(e) && e == old(self)@[key]),
            old(self)@.contains_key(key) ==> final(self)@ == old(self)@.remove(key),
            !old(self)@.contains_key(key) ==> (r matches Err(e) && e matches BridgeError::NotFound(m)
                && m@ == "Unable to find handle"@),
            !old(self)@.contains_key(key) ==> final(self)@ == old(self)@,
    {
        match self.handles.remove(&key) {
            Some(engine) => Ok(engine),
            None => Err(BridgeError::NotFound(String::from_str("Unable to find handle"))),
        }
    }
}

} // verus!
