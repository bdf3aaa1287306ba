//! A holder that resolves the record at most once.

use vstd::prelude::*;
use crate::config::{get_config, resolved, result_of, Config, ConfigView};
use crate::sources::{Sources, SourcesView};
use crate::values::{ConfigError, ConfigErrorView};

verus! {

/// What one resolution came to.
pub type Resolution = Result<ConfigView, ConfigErrorView>;

/// Holds the outcome of the first resolution, record or failure, and hands
/// it out unchanged from then on.
pub struct ConfigCache {
    slot: Option<Result<Config, ConfigError>>,
}

/// What a holder hands out after a request with these sources: what it
/// held before, where it held anything, else what the sources resolve to.
pub open spec fn settled(held: Option<Resolution>, src: SourcesView) -> Resolution {
    match held {
        Some(r) => r,
        None => resolved(src),
    }
}

impl View for ConfigCache {
    type V = Option<Resolution>;

    closed spec fn view(&self) -> Option<Resolution> {
        match self.slot {
            Some(r) => Some(result_of(r)),
            None => None,
        }
    }
}

impl ConfigCache {
    /// A holder that has resolved nothing yet.
    pub fn new() -> (r: ConfigCache)
        ensures
            r@ is None,
    {
        ConfigCache { slot: None }
    }

    /// What the holder holds, if the record was requested before.
    pub fn get(&self) -> (r: Option<&Result<Config, ConfigError>>)
        ensures
            match r {
                Some(held) => self@ == Some(result_of(*held)),
                None => self@ is None,
            },
    {
        self.slot.as_ref()
    }

    /// Resolves the record from the sources unless an earlier request did,
    /// and keeps the outcome, record or failure. A holder that holds an
    /// outcome is left as it is, whatever the sources are.
    pub fn resolve_once(&mut self, sources: &Sources)
        ensures
            final(self)@ == Some(settled(old(self)@, sources@)),
    {
        if self.slot.is_none() {
            self.slot = Some(get_config(sources));
        }
    }

    /// Requests the record: resolves it on the first request, and hands out
    /// the outcome of that first resolution on every request.
    pub fn get_or_resolve(&mut self, sources: &Sources) -> (r: &Result<Config, ConfigError>)
        ensures
            result_of(*r) == settled(old(self)@, sources@),
            final(self)@ == Some(settled(old(self)@, sources@)),
    {
        self.resolve_once(sources);
        match self.slot.as_ref() {
            Some(held) => held,
            None => vstd::pervasive::unreached(),
        }
    }
}

} // verus!
