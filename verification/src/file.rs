//! The local filesystem back-end: specifications are `file://` URLs, a
//! resolution points at the named path, and every such address is
//! inherently pinned.

use vstd::prelude::*;
use vstd::string::StrSliceExecFns;

use crate::cache::{BlobCache, ProviderCache};
use crate::error::{ProviderError, ProviderErrorKind};
use crate::mod_info::{ModInfo, ModInfoView, ModResolution, ModResponse, ModSpecification};
use crate::progress::{FetchProgress, ProgressReporter};
use crate::provider::ModProvider;
use crate::registry::{ProviderFactory, ProviderKind};
use crate::text::{is_prefix_of, str_starts_with};

verus! {

/// `url` is an address the file provider handles.
pub open spec fn is_file_url(url: Seq<char>) -> bool {
    is_prefix_of("file://"@, url)
}

/// The local path a file URL names: everything after the scheme.
pub open spec fn file_path_of(url: Seq<char>) -> Seq<char> {
    url.subrange("file://"@.len() as int, url.len() as int)
}

/// The back-end for mods held as local files.
pub struct FileProvider {}

impl FileProvider {
    /// Constructs the file provider. It needs no configuration, so every
    /// parameter mapping is accepted.
    pub fn new(_parameters: &Vec<(String, String)>) -> (r: Result<FileProvider, ProviderError>)
        ensures
            r matches Ok(p) && p.wf(),
    {
        Ok(FileProvider {})
    }

    /// Strips the scheme off a file URL and returns the named local path.
    fn local_path(url: &str) -> (r: String)
        requires
            is_file_url(url@),
        ensures
            r@ == file_path_of(url@),
    {
        let plen = "file://".unicode_len();
        let n = url.unicode_len();
        url.substring_char(plen, n).to_owned()
    }
}

impl ModProvider for FileProvider {
    open spec fn wf(&self) -> bool {
        true
    }

    open spec fn resolve_post(
        &self,
        spec: ModSpecification,
        update: bool,
        cache: ProviderCache,
        r: Result<ModResponse, ProviderError>,
    ) -> bool {
        if is_file_url(spec@) {
            match r {
                Ok(resp) => {
                    &&& resp@.resolution.url == spec@
                    &&& resp@.resolution.pinned == true
                    &&& resp@.info.name == file_path_of(spec@)
                    &&& resp@.info.version is None
                    &&& resp@.info.mod_id is None
                },
                Err(_) => false,
            }
        } else {
            match r {
                Ok(_) => false,
                Err(e) => {
                    &&& e.kind_spec() == ProviderErrorKind::InvalidUrl
                    &&& e.url_spec() == Some(spec@)
                    &&& e.spec_opt_mod_id() is None
                },
            }
        }
    }

    open spec fn fetch_post(
        &self,
        resolution: ModResolution,
        update: bool,
        r: Result<String, ProviderError>,
    ) -> bool {
        if is_file_url(resolution@.url) {
            match r {
                Ok(path) => path@ == file_path_of(resolution@.url),
                Err(_) => false,
            }
        } else {
            match r {
                Ok(_) => false,
                Err(e) => {
                    &&& e.kind_spec() == ProviderErrorKind::InvalidUrl
                    &&& e.url_spec() == Some(resolution@.url)
                    &&& e.spec_opt_mod_id() is None
                },
            }
        }
    }

    open spec fn update_post(
        &self,
        old_cache: ProviderCache,
        new_cache: ProviderCache,
        r: Result<(), ProviderError>,
    ) -> bool {
        new_cache == old_cache && r is Ok
    }

    open spec fn check_post(&self, r: Result<(), ProviderError>) -> bool {
        r is Ok
    }

    open spec fn info_spec(&self, spec: ModSpecification, cache: ProviderCache) -> Option<
        ModInfoView,
    > {
        match cache.lookup(spec@) {
            Some(e) => Some(e.info),
            None => None,
        }
    }

    open spec fn pinned_spec(&self, spec: ModSpecification, cache: ProviderCache) -> bool {
        true
    }

    open spec fn version_spec(&self, spec: ModSpecification, cache: ProviderCache) -> Option<
        Seq<char>,
    > {
        match cache.lookup(spec@) {
            Some(e) => e.info.version,
            None => None,
        }
    }

    fn resolve_mod(
        &self,
        spec: &ModSpecification,
        update: bool,
        cache: &ProviderCache,
    ) -> (r: Result<ModResponse, ProviderError>) {
        let url: &str = spec.url.as_str();
        if str_starts_with(url, "file://") {
            let path = Self::local_path(url);
            Ok(
                ModResponse {
                    resolution: ModResolution { url: spec.url.clone(), pinned: true },
                    info: ModInfo { name: path, version: None, mod_id: None },
                },
            )
        } else {
            Err(ProviderError::InvalidUrl { url: spec.url.clone() })
        }
    }

    fn fetch_mod(
        &self,
        resolution: &ModResolution,
        update: bool,
        cache: &ProviderCache,
        blob_cache: &BlobCache,
        sink: Option<tokio::sync::mpsc::Sender<FetchProgress>>,
    ) -> (r: Result<String, ProviderError>) {
        let url: &str = resolution.url.as_str();
        if str_starts_with(url, "file://") {
            let path = Self::local_path(url);
            let reporter = ProgressReporter::new(sink, resolution.clone(), 0);
            let _history = reporter.complete();
            Ok(path)
        } else {
            Err(ProviderError::InvalidUrl { url: resolution.url.clone() })
        }
    }

    fn update_cache(&self, cache: &mut ProviderCache) -> (r: Result<(), ProviderError>) {
        Ok(())
    }

    fn check(&self) -> (r: Result<(), ProviderError>) {
        Ok(())
    }

    fn get_mod_info(&self, spec: &ModSpecification, cache: &ProviderCache) -> (r: Option<ModInfo>) {
        match cache.get(spec.url.as_str()) {
            Some(e) => Some(e.info.clone()),
            None => None,
        }
    }

    fn is_pinned(&self, spec: &ModSpecification, cache: &ProviderCache) -> (r: bool) {
        true
    }

    fn get_version_name(&self, spec: &ModSpecification, cache: &ProviderCache) -> (r: Option<
        String,
    >) {
        match cache.get(spec.url.as_str()) {
            Some(e) => match &e.info.version {
                Some(v) => Some(v.clone()),
                None => None,
            },
            None => None,
        }
    }

    proof fn resolve_no_update_agreement(
        &self,
        spec: ModSpecification,
        cache: ProviderCache,
        r1: Result<ModResponse, ProviderError>,
        r2: Result<ModResponse, ProviderError>,
    ) {
        if is_file_url(spec@) {
            match (r1, r2) {
                (Ok(a), Ok(b)) => {
                    assert(a@ =~~= b@);
                },
                _ => {},
            }
        }
    }
}

/// The registry entry for the file back-end: it provides for `file://`
/// addresses and declares no configuration parameters.
pub fn file_provider_factory() -> (r: ProviderFactory)
    ensures
        r.id@ == "file"@,
        r.kind == ProviderKind::File,
        r.prefixes@.len() == 1,
        r.prefixes@[0]@ == "file://"@,
        r.parameters@.len() == 0,
{
    let mut prefixes: Vec<String> = Vec::new();
    prefixes.push("file://".to_owned());
    ProviderFactory {
        id: "file".to_owned(),
        kind: ProviderKind::File,
        prefixes,
        parameters: Vec::new(),
    }
}

} // verus!
