//! A cache of loaded sprite images: every path is loaded at most once.

use vstd::prelude::*;
use crate::asset_loaders::AssetLoadError;
use crate::string_map::StringMap;

verus! {

/// Identity of an image that the host engine holds.
pub type ImageHandle = u64;

/// The handles of the images that were loaded, by their paths.
#[derive(Debug)]
pub struct AssetCache {
    cache: StringMap<ImageHandle>,
}

impl View for AssetCache {
    type V = Map<Seq<char>, ImageHandle>;

    closed spec fn view(&self) -> Map<Seq<char>, ImageHandle> {
        self.cache@
    }
}

impl AssetCache {
    /// The cache without images.
    pub fn new() -> (cache: AssetCache)
        ensures
            cache@ == Map::<Seq<char>, ImageHandle>::empty(),
    {
        AssetCache { cache: StringMap::new() }
    }

    /// The handle of the image at `path`, if it was loaded.
    pub fn get(&self, path: &str) -> (handle: Option<ImageHandle>)
        ensures
            handle == if self@.contains_key(path@) {
                Some(self@[path@])
            } else {
                None
            },
    {
        match self.cache.get(path) {
            Some(handle) => Some(*handle),
            None => None,
        }
    }

    /// Keeps `handle` for `path`, unless a handle is kept for `path`
    /// already; returns the handle that is kept.
    pub fn store(&mut self, path: &str, handle: ImageHandle) -> (kept: ImageHandle)
        ensures
            final(self)@ == if old(self)@.contains_key(path@) {
                old(self)@
            } else {
                old(self)@.insert(path@, handle)
            },
            kept == final(self)@[path@],
    {
        match self.cache.get(path) {
            Some(earlier) => *earlier,
            None => {
                self.cache.insert(path.to_owned(), handle);
                handle
            },
        }
    }

    /// The handle of the image at `path`.
    ///
    /// An image that was loaded before is not loaded again: its handle is
    /// the one that the first load gave, `load` is not called and the cache
    /// stays as it is. Otherwise `load` is called once, on `path`; the handle
    /// that it gives is kept for `path`, and a failure is handed on and
    /// nothing is kept.
    pub fn load_image<F: FnOnce(&str) -> Result<ImageHandle, AssetLoadError>>(&mut self, path: &str, load: F) -> (loaded:
        Result<ImageHandle, AssetLoadError>)
        requires
            load.requires((path,)),
        ensures
            old(self)@.contains_key(path@) ==> loaded == Ok::<ImageHandle, AssetLoadError>(old(self)@[path@])
                && final(self)@ == old(self)@,
            !old(self)@.contains_key(path@) ==> load.ensures((path,), loaded) && final(self)@ == match loaded {
                Ok(handle) => old(self)@.insert(path@, handle),
                Err(_) => old(self)@,
            },
    {
        match self.cache.get(path) {
            Some(handle) => Ok(*handle),
            None => {
                match load(path) {
                    Ok(handle) => {
                        self.cache.insert(path.to_owned(), handle);
                        Ok(handle)
                    },
                    Err(e) => Err(e),
                }
            },
        }
    }
}

/// A path that was loaded stays loaded with the same handle: once a handle
/// is kept for a path, the path is in the cache with that handle, and
/// keeping the same handle again changes nothing. So the same path asked for
/// twice gives the same handle, and the second time nothing is loaded.
pub proof fn lemma_cache_is_idempotent(cache: Map<Seq<char>, ImageHandle>, path: Seq<char>, handle: ImageHandle)
    ensures
        cache.insert(path, handle).contains_key(path),
        cache.insert(path, handle)[path] == handle,
        cache.insert(path, handle).insert(path, handle) == cache.insert(path, handle),
{
    assert(cache.insert(path, handle).insert(path, handle) =~= cache.insert(path, handle));
}

} // verus!
