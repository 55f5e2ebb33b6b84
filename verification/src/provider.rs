//! The provider capability contract: the polymorphic interface every
//! back-end implements, dispatched at the registry lookup step, and the
//! agreement law that resolution under `update == false` owes.

use vstd::prelude::*;

use crate::cache::{BlobCache, ProviderCache};
use crate::error::ProviderError;
use crate::mod_info::{ModInfo, ModInfoView, ModResolution, ModResponse, ModSpecification};
use crate::progress::FetchProgress;

verus! {

/// Two resolution outcomes agree: both succeed with the same resolved
/// response, or both fail with the same kind and the same contextual
/// identifiers.
pub open spec fn resolutions_agree(
    r1: Result<ModResponse, ProviderError>,
    r2: Result<ModResponse, ProviderError>,
) -> bool {
    match (r1, r2) {
        (Ok(a), Ok(b)) => a@ == b@,
        (Err(a), Err(b)) => {
            &&& a.kind_spec() == b.kind_spec()
            &&& a.url_spec() == b.url_spec()
            &&& a.spec_opt_mod_id() == b.spec_opt_mod_id()
        },
        _ => false,
    }
}

/// The operations every back-end (file / HTTP / hosted API) implements.
/// Each implementation fixes, through its spec functions, exactly what its
/// operations return; the `resolve_no_update_agreement` obligation makes
/// cached resolution a function of the specification and the cache alone.
pub trait ModProvider {
    /// The provider instance is usable (constructed by its factory).
    spec fn wf(&self) -> bool;

    /// What this provider's `resolve_mod` guarantees of its outcome.
    spec fn resolve_post(
        &self,
        spec: ModSpecification,
        update: bool,
        cache: ProviderCache,
        r: Result<ModResponse, ProviderError>,
    ) -> bool;

    /// What this provider's `fetch_mod` guarantees of its outcome. The
    /// guarantee never depends on the progress sink: an absent or dropped
    /// receiver cannot change what a fetch returns.
    spec fn fetch_post(
        &self,
        resolution: ModResolution,
        update: bool,
        r: Result<String, ProviderError>,
    ) -> bool;

    /// How `update_cache` rewrites the cache.
    spec fn update_post(
        &self,
        old_cache: ProviderCache,
        new_cache: ProviderCache,
        r: Result<(), ProviderError>,
    ) -> bool;

    /// What `check` guarantees of its outcome.
    spec fn check_post(&self, r: Result<(), ProviderError>) -> bool;

    /// The metadata recorded for `spec` in `cache`, if any.
    spec fn info_spec(&self, spec: ModSpecification, cache: ProviderCache) -> Option<ModInfoView>;

    /// Whether `spec` denotes an exact version (true) or a floating
    /// "latest" pointer (false).
    spec fn pinned_spec(&self, spec: ModSpecification, cache: ProviderCache) -> bool;

    /// The human-readable version label recorded for `spec` in `cache`.
    spec fn version_spec(&self, spec: ModSpecification, cache: ProviderCache) -> Option<Seq<char>>;

    /// Resolves a specification to a concrete resolution plus metadata.
    /// With `update == false` a cached resolution may be returned without
    /// network access; with `update == true` the authoritative source is
    /// consulted and the cache entry refreshed first.
    fn resolve_mod(
        &self,
        spec: &ModSpecification,
        update: bool,
        cache: &ProviderCache,
    ) -> (r: Result<ModResponse, ProviderError>)
        requires
            self.wf(),
            cache.wf(),
        ensures
            self.resolve_post(*spec, update, *cache, r),
    ;

    /// Downloads or copies the artifact `resolution` points to and returns
    /// the local path holding it, consulting `blob_cache` to skip the
    /// transfer when the content is already present. Progress events go to
    /// `sink` best-effort: a full channel or a dropped receiver is never a
    /// fetch failure.
    fn fetch_mod(
        &self,
        resolution: &ModResolution,
        update: bool,
        cache: &ProviderCache,
        blob_cache: &BlobCache,
        sink: Option<tokio::sync::mpsc::Sender<FetchProgress>>,
    ) -> (r: Result<String, ProviderError>)
        requires
            self.wf(),
            cache.wf(),
        ensures
            self.fetch_post(*resolution, update, r),
    ;

    /// Refreshes every entry this provider manages in `cache`,
    /// independent of any single specification.
    fn update_cache(&self, cache: &mut ProviderCache) -> (r: Result<(), ProviderError>)
        requires
            self.wf(),
            old(cache).wf(),
        ensures
            final(cache).wf(),
            self.update_post(*old(cache), *final(cache), r),
    ;

    /// A lightweight self-test that a provider is usable; mutates nothing.
    fn check(&self) -> (r: Result<(), ProviderError>)
        requires
            self.wf(),
        ensures
            self.check_post(r),
    ;

    /// Synchronous, cache-only metadata lookup; performs no I/O. Absent
    /// when nothing is cached for `spec`.
    fn get_mod_info(&self, spec: &ModSpecification, cache: &ProviderCache) -> (r: Option<ModInfo>)
        requires
            self.wf(),
            cache.wf(),
        ensures
            match r {
                Some(info) => self.info_spec(*spec, *cache) == Some(info@),
                None => self.info_spec(*spec, *cache) is None,
            },
    ;

    /// Whether `spec` denotes an exact version; cache-only, no I/O.
    fn is_pinned(&self, spec: &ModSpecification, cache: &ProviderCache) -> (r: bool)
        requires
            self.wf(),
            cache.wf(),
        ensures
            r == self.pinned_spec(*spec, *cache),
    ;

    /// The human-readable version label for `spec`; cache-only, no I/O.
    fn get_version_name(&self, spec: &ModSpecification, cache: &ProviderCache) -> (r: Option<
        String,
    >)
        requires
            self.wf(),
            cache.wf(),
        ensures
            match r {
                Some(v) => self.version_spec(*spec, *cache) == Some(v@),
                None => self.version_spec(*spec, *cache) is None,
            },
    ;

    /// Resolution is idempotent while the cache is unchanged: any two
    /// outcomes `resolve_mod` allows for the same specification and cache
    /// with `update == false` agree.
    proof fn resolve_no_update_agreement(
        &self,
        spec: ModSpecification,
        cache: ProviderCache,
        r1: Result<ModResponse, ProviderError>,
        r2: Result<ModResponse, ProviderError>,
    )
        requires
            self.wf(),
            cache.wf(),
            self.resolve_post(spec, false, cache, r1),
            self.resolve_post(spec, false, cache, r2),
        ensures
            resolutions_agree(r1, r2),
    ;
}

} // verus!
