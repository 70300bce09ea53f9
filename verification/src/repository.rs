use vstd::prelude::*;

verus! {

/// Why a store into the catalog repository is refused.
#[derive(Clone, Copy, Debug, PartialEq, Eq, Structural)]
pub enum PersistenceError {
    CatalogReadOnly,
}

/// The decision core of the catalog repository. The surrounding runtime
/// fetches the remote catalog and performs the cache input and output;
/// this type decides what each outcome means: a fetched catalog is
/// cached and served, a failed fetch falls back to whatever the cache
/// holds, and the catalog is never written back.
pub struct CatalogWebRepository<T> {
    cached: Option<T>,
}

impl<T> CatalogWebRepository<T> {
    /// What the cache holds.
    pub closed spec fn cache(&self) -> Option<T> {
        self.cached
    }

    /// A repository over an empty cache, or over what earlier runs left
    /// in it.
    pub fn new(cached: Option<T>) -> (r: Self)
        ensures
            r.cache() == cached,
    {
        CatalogWebRepository { cached }
    }

    /// Storing a catalog is refused: the catalog is read-only here, and
    /// nothing changes.
    pub fn store(&mut self, value: T) -> (r: Result<(), PersistenceError>)
        ensures
            r == Result::<(), PersistenceError>::Err(PersistenceError::CatalogReadOnly),
            final(self).cache() == old(self).cache(),
    {
        let _unused = value;
        Err(PersistenceError::CatalogReadOnly)
    }

    /// Settle a load from the fetch outcome: a fetched catalog replaces
    /// the cache, a failed fetch leaves the cache as it was; what the
    /// cache then holds is what the load serves.
    pub fn resolve_load(&mut self, fetched: Option<T>)
        ensures
            match fetched {
                Some(v) => final(self).cache() == Some(v),
                None => final(self).cache() == old(self).cache(),
            },
    {
        match fetched {
            Some(v) => {
                self.cached = Some(v);
            },
            None => (),
        }
    }

    /// What a load serves: the cache's content.
    pub fn current(&self) -> (r: &Option<T>)
        ensures
            *r == self.cache(),
    {
        &self.cached
    }
}

} // verus!
