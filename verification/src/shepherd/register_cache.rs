//! Caching of register reads from the HV plate's ADBMS2950B.
//!
//! A failed read leaves the cache untouched, so staleness shows up as the last successful
//! read not advancing, rather than as corrupt data.

use vstd::prelude::*;

use crate::clock::now_ticks;

verus! {

/// Errors that may occur when trying to update the cache. Each carries the driver error.
#[derive(Clone, Copy, PartialEq, Eq, Structural, Debug)]
pub enum UpdateError<E> {
    /// A register read failed, including on a PEC mismatch.
    ReadFailed(E),
    /// The SNAP command failed.
    SnapError(E),
    /// The UNSNAP command failed.
    UnsnapError(E),
    /// Triggering or polling a conversion failed.
    ConversionError(E),
}

/// One cached register group: the last reading, and the instant it was read.
#[derive(Clone, Copy, PartialEq, Eq, Structural, Debug)]
pub struct RegisterCacheData<R> {
    data: Option<R>,
    last_successful_read: Option<u64>,
}

impl<R> RegisterCacheData<R> {
    /// The reading; `None` if no read has succeeded yet.
    pub closed spec fn reading(self) -> Option<R> {
        self.data
    }

    /// When the reading was taken; `None` if no read has succeeded yet.
    pub closed spec fn read_at(self) -> Option<u64> {
        self.last_successful_read
    }

    /// Last instant this register was successfully read.
    pub fn last_successful_read(&self) -> (t: Option<u64>)
        ensures
            t == self.read_at(),
    {
        self.last_successful_read
    }

    /// The register reading; `None` if no read has succeeded yet.
    pub fn data(&self) -> (d: &Option<R>)
        ensures
            *d == self.reading(),
    {
        &self.data
    }
}

/// The cache of one register group.
pub struct RegisterCache<R> {
    inner: RegisterCacheData<R>,
}

impl<R> RegisterCache<R> {
    /// What the cache holds.
    pub closed spec fn contents(self) -> RegisterCacheData<R> {
        self.inner
    }

    /// A cache with nothing read yet.
    pub fn new() -> (c: RegisterCache<R>)
        ensures
            c.contents().reading() is None,
            c.contents().read_at() is None,
    {
        RegisterCache { inner: RegisterCacheData { data: None, last_successful_read: None } }
    }

    /// Copies out the cached data.
    pub fn data(&self) -> (d: RegisterCacheData<R>)
        where R: Copy
        ensures
            d == self.contents(),
    {
        self.inner
    }

    /// Stores the outcome of a register read made at `now`.
    ///
    /// A successful read replaces the reading and its time; a failed one leaves the cache
    /// untouched and is reported as `ReadFailed`.
    pub fn update_at<E>(&mut self, read: Result<R, E>, now: u64) -> (r: Result<(), UpdateError<E>>)
        ensures
            match read {
                Ok(v) => r is Ok && final(self).contents().reading() == Some(v)
                    && final(self).contents().read_at() == Some(now),
                Err(e) => r == Err::<(), UpdateError<E>>(UpdateError::ReadFailed(e))
                    && final(self).contents() == old(self).contents(),
            },
    {
        match read {
            Ok(data) => {
                self.inner = RegisterCacheData { data: Some(data), last_successful_read: Some(now) };
                Ok(())
            },
            Err(err) => Err(UpdateError::ReadFailed(err)),
        }
    }

    /// Stores the outcome of a register read that just completed, stamping a successful read
    /// with the current time.
    pub fn update<E>(&mut self, read: Result<R, E>) -> (r: Result<(), UpdateError<E>>)
        ensures
            match read {
                Ok(v) => r is Ok && final(self).contents().reading() == Some(v)
                    && final(self).contents().read_at() is Some,
                Err(e) => r == Err::<(), UpdateError<E>>(UpdateError::ReadFailed(e))
                    && final(self).contents() == old(self).contents(),
            },
    {
        match read {
            Ok(data) => {
                let now = now_ticks();
                self.update_at(Ok::<R, E>(data), now)
            },
            Err(err) => Err(UpdateError::ReadFailed(err)),
        }
    }
}

} // verus!
