//! The one-time caller-side metadata cache of the host bridge. The host
//! constructs its result objects from a class reference and a constructor
//! id it resolves once at startup; instead of hidden process-wide statics,
//! the core keeps them as explicit state handed down to whoever needs
//! them, as opaque 64-bit handles.

use vstd::prelude::*;

verus! {

/// The metadata the bridge resolves once: the result class and its
/// constructor, both opaque handles owned by the host.
pub struct HostMetadataCache {
    class_ref: Option<u64>,
    constructor: Option<u64>,
}

impl HostMetadataCache {
    /// The cached class handle, if the cache has been filled.
    pub closed spec fn class(self) -> Option<u64> {
        self.class_ref
    }

    /// The cached constructor handle, if the cache has been filled.
    pub closed spec fn constructor(self) -> Option<u64> {
        self.constructor
    }

    /// An empty cache: nothing resolved yet.
    pub fn new() -> (r: HostMetadataCache)
        ensures
            r.class() is None,
            r.constructor() is None,
    {
        HostMetadataCache { class_ref: None, constructor: None }
    }

    /// Fills the cache with the handles the host resolved; meant to run
    /// exactly once, at startup.
    pub fn cache_methods(&mut self, class_ref: u64, constructor: u64)
        ensures
            final(self).class() == Some(class_ref),
            final(self).constructor() == Some(constructor),
    {
        self.class_ref = Some(class_ref);
        self.constructor = Some(constructor);
    }
}

/// The cached class handle: `Some` exactly once the cache has been filled.
pub fn get_class(cache: &HostMetadataCache) -> (r: Option<u64>)
    ensures
        r == cache.class(),
{
    cache.class_ref
}

/// The cached constructor handle: `Some` exactly once the cache has been
/// filled.
pub fn get_constructor(cache: &HostMetadataCache) -> (r: Option<u64>)
    ensures
        r == cache.constructor(),
{
    cache.constructor
}

} // verus!
