use mod_providers::cache::{BlobCache, CacheEntry, ProviderCache};
use mod_providers::error::{DrgModioError, ProviderError, ProviderErrorKind};
use mod_providers::file::{file_provider_factory, FileProvider};
use mod_providers::hosted::{
    get_parameter, hosted_provider_factory, record_refreshed_entries, resolve_hosted_entry,
    select_mod_by_name, validate_hosted_parameters,
};
use mod_providers::mod_info::{ModInfo, ModResolution, ModSpecification};
use mod_providers::provider::ModProvider;
use mod_providers::registry::{ProviderFactory, ProviderKind, Registry};

fn file_provider() -> FileProvider {
    FileProvider::new(&Vec::new()).ok().expect("file provider construction accepts any parameters")
}

fn sample_info(name: &str, version: Option<&str>, mod_id: Option<u32>) -> ModInfo {
    ModInfo {
        name: String::from(name),
        version: version.map(String::from),
        mod_id,
    }
}

#[test]
fn file_spec_resolves_to_pinned_path() {
    let provider = file_provider();
    let cache = ProviderCache::new();
    let spec = ModSpecification::new(String::from("file:///tmp/mod.pak"));
    let resp = match provider.resolve_mod(&spec, false, &cache) {
        Ok(resp) => resp,
        Err(_) => panic!("a file:// spec must resolve"),
    };
    assert_eq!(resp.resolution.url, String::from("file:///tmp/mod.pak"));
    assert!(resp.resolution.pinned);
    assert_eq!(resp.info.name, String::from("/tmp/mod.pak"));
    assert!(provider.is_pinned(&spec, &cache));
}

#[test]
fn resolve_is_idempotent_without_update() {
    let provider = file_provider();
    let cache = ProviderCache::new();
    let spec = ModSpecification::new(String::from("file:///a/b.pak"));
    let r1 = provider.resolve_mod(&spec, false, &cache);
    let r2 = provider.resolve_mod(&spec, false, &cache);
    match (r1, r2) {
        (Ok(a), Ok(b)) => assert_eq!(a, b),
        _ => panic!("both resolutions must succeed"),
    }
}

#[test]
fn non_file_spec_is_invalid_url() {
    let provider = file_provider();
    let cache = ProviderCache::new();
    let spec = ModSpecification::new(String::from("https://example.test/mod.pak"));
    match provider.resolve_mod(&spec, false, &cache) {
        Ok(_) => panic!("a non-file spec must be rejected"),
        Err(e) => {
            assert_eq!(e.kind(), ProviderErrorKind::InvalidUrl);
            assert_eq!(e.opt_mod_id(), None);
        }
    }
}

#[test]
fn fetch_returns_local_path() {
    let provider = file_provider();
    let cache = ProviderCache::new();
    let blob_cache = BlobCache::new();
    let resolution = ModResolution::new(String::from("file:///tmp/mod.pak"), true);
    match provider.fetch_mod(&resolution, false, &cache, &blob_cache, None) {
        Ok(path) => assert_eq!(path, String::from("/tmp/mod.pak")),
        Err(_) => panic!("a file:// resolution must fetch"),
    }
}

#[test]
fn registry_selects_matching_factory_and_reports_not_found() {
    let mut registry = Registry::new();
    assert!(registry.register(file_provider_factory()));
    // A second registration under the same id is refused: ids stay unique.
    assert!(!registry.register(file_provider_factory()));

    match registry.lookup("file:///tmp/mod.pak") {
        Ok(f) => assert_eq!(f.id, String::from("file")),
        Err(_) => panic!("the file factory must match a file:// address"),
    }
    match registry.lookup("mailto:someone@example.test") {
        Ok(_) => panic!("no factory matches a mailto address"),
        Err(e) => {
            assert_eq!(e.kind(), ProviderErrorKind::ProviderNotFound);
            assert_eq!(e.opt_mod_id(), None);
        }
    }
}

#[test]
fn registry_scan_order_settles_overlapping_factories() {
    let mut registry = Registry::new();
    assert!(registry.register(file_provider_factory()));
    let mut prefixes = Vec::new();
    prefixes.push(String::from("file://"));
    prefixes.push(String::from("https://"));
    assert!(registry.register(ProviderFactory {
        id: String::from("wide"),
        kind: ProviderKind::Http,
        prefixes,
        parameters: Vec::new(),
    }));
    // Both factories match; the scan returns the first registered.
    match registry.lookup("file:///tmp/mod.pak") {
        Ok(f) => assert_eq!(f.id, String::from("file")),
        Err(_) => panic!("two factories match, one must be selected"),
    }
    // Only the second factory matches an https address.
    match registry.lookup("https://example.test/m.pak") {
        Ok(f) => assert_eq!(f.id, String::from("wide")),
        Err(_) => panic!("the wide factory must match an https address"),
    }
}

#[test]
fn cache_upsert_and_get_keep_entries_individually_correct() {
    let mut cache = ProviderCache::new();
    cache.upsert(CacheEntry {
        spec_url: String::from("file:///a.pak"),
        info: sample_info("a", Some("1.0"), None),
        pinned: true,
        modfile_url: None,
    });
    cache.upsert(CacheEntry {
        spec_url: String::from("https://mods.test/b"),
        info: sample_info("b", Some("2.0"), Some(7)),
        pinned: false,
        modfile_url: Some(String::from("https://mods.test/b/file/9")),
    });
    // Replacing one entry leaves the other untouched.
    cache.upsert(CacheEntry {
        spec_url: String::from("file:///a.pak"),
        info: sample_info("a", Some("1.1"), None),
        pinned: true,
        modfile_url: None,
    });

    let a = cache.get("file:///a.pak").expect("entry a must be present");
    assert_eq!(a.info.version, Some(String::from("1.1")));
    let b = cache.get("https://mods.test/b").expect("entry b must be present");
    assert_eq!(b.info.name, String::from("b"));
    assert_eq!(b.info.mod_id, Some(7));
    assert!(cache.get("file:///missing.pak").is_none());
}

#[test]
fn blob_cache_answers_by_content_address() {
    let mut blobs = BlobCache::new();
    assert!(blobs.get_blob("9f2c").is_none());
    blobs.put_blob(String::from("9f2c"), String::from("/blobs/9f2c.pak"));
    blobs.put_blob(String::from("77aa"), String::from("/blobs/77aa.pak"));
    assert_eq!(blobs.get_blob("9f2c"), Some(&String::from("/blobs/9f2c.pak")));
    assert_eq!(blobs.get_blob("77aa"), Some(&String::from("/blobs/77aa.pak")));
    assert!(blobs.get_blob("0000").is_none());
}

#[test]
fn cache_only_accessors_answer_from_the_cache_alone() {
    let provider = file_provider();
    let mut cache = ProviderCache::new();
    let spec = ModSpecification::new(String::from("file:///a.pak"));
    assert!(provider.get_mod_info(&spec, &cache).is_none());
    assert!(provider.get_version_name(&spec, &cache).is_none());

    cache.upsert(CacheEntry {
        spec_url: String::from("file:///a.pak"),
        info: sample_info("a", Some("1.0"), None),
        pinned: true,
        modfile_url: None,
    });
    let info = provider.get_mod_info(&spec, &cache).expect("cached info must be returned");
    assert_eq!(info.name, String::from("a"));
    assert_eq!(
        provider.get_version_name(&spec, &cache),
        Some(String::from("1.0"))
    );
}

#[test]
fn update_cache_and_check_succeed_for_the_file_provider() {
    let provider = file_provider();
    let mut cache = ProviderCache::new();
    assert!(provider.update_cache(&mut cache).is_ok());
    assert!(provider.check().is_ok());
}

#[test]
fn hosted_entry_without_modfile_is_no_associated_modfile() {
    let spec = ModSpecification::new(String::from("https://mods.test/nofile"));
    let entry = CacheEntry {
        spec_url: String::from("https://mods.test/nofile"),
        info: sample_info("nofile", None, Some(3)),
        pinned: false,
        modfile_url: None,
    };
    match resolve_hosted_entry(&entry, &spec) {
        Ok(_) => panic!("an entry without a modfile must not resolve"),
        Err(e) => {
            assert_eq!(e.kind(), ProviderErrorKind::NoAssociatedModfile);
            assert_ne!(e.kind(), ProviderErrorKind::IoErrorWithModCtxt);
        }
    }
}

#[test]
fn hosted_entry_with_modfile_resolves_to_it() {
    let spec = ModSpecification::new(String::from("https://mods.test/b"));
    let entry = CacheEntry {
        spec_url: String::from("https://mods.test/b"),
        info: sample_info("b", Some("2.0"), Some(7)),
        pinned: false,
        modfile_url: Some(String::from("https://mods.test/b/file/9")),
    };
    match resolve_hosted_entry(&entry, &spec) {
        Ok(resp) => {
            assert_eq!(resp.resolution.url, String::from("https://mods.test/b/file/9"));
            assert!(!resp.resolution.pinned);
            assert_eq!(resp.info.mod_id, Some(7));
        }
        Err(_) => panic!("an entry with a modfile must resolve"),
    }
}

#[test]
fn name_lookup_settles_zero_one_and_many() {
    let name = String::from("some-mod");
    match select_mod_by_name(&name, &vec![51]) {
        Ok(id) => assert_eq!(id, 51),
        Err(_) => panic!("exactly one match must resolve"),
    }
    match select_mod_by_name(&name, &Vec::new()) {
        Ok(_) => panic!("zero matches must fail"),
        Err(e) => assert_eq!(e.kind(), ProviderErrorKind::NoModsForNameId),
    }
    match select_mod_by_name(&name, &vec![51, 52]) {
        Ok(_) => panic!("several matches must fail"),
        Err(e) => assert_eq!(e.kind(), ProviderErrorKind::AmbiguousModNameId),
    }
}

#[test]
fn bulk_refresh_rewrites_its_entries_and_no_others() {
    let mut cache = ProviderCache::new();
    cache.upsert(CacheEntry {
        spec_url: String::from("https://mods.test/a"),
        info: sample_info("a", Some("1.0"), Some(1)),
        pinned: false,
        modfile_url: None,
    });
    cache.upsert(CacheEntry {
        spec_url: String::from("file:///untouched.pak"),
        info: sample_info("untouched", None, None),
        pinned: true,
        modfile_url: None,
    });

    let refreshed = vec![
        CacheEntry {
            spec_url: String::from("https://mods.test/a"),
            info: sample_info("a", Some("1.1"), Some(1)),
            pinned: false,
            modfile_url: Some(String::from("https://mods.test/a/file/3")),
        },
        CacheEntry {
            spec_url: String::from("https://mods.test/new"),
            info: sample_info("new", Some("0.1"), Some(9)),
            pinned: false,
            modfile_url: None,
        },
    ];
    record_refreshed_entries(&mut cache, &refreshed);

    let a = cache.get("https://mods.test/a").expect("refreshed entry must be present");
    assert_eq!(a.info.version, Some(String::from("1.1")));
    assert_eq!(a.modfile_url, Some(String::from("https://mods.test/a/file/3")));
    let fresh = cache.get("https://mods.test/new").expect("new entry must be present");
    assert_eq!(fresh.info.mod_id, Some(9));
    let untouched = cache.get("file:///untouched.pak").expect("other entries stay");
    assert_eq!(untouched.info.name, String::from("untouched"));
}

#[test]
fn hosted_construction_validates_its_parameters() {
    let params = vec![
        (String::from("unrelated"), String::from("x")),
        (String::from("oauth"), String::from("token-1")),
        (String::from("oauth"), String::from("token-2")),
    ];
    assert_eq!(
        get_parameter(&params, "oauth"),
        Some(&String::from("token-1")),
        "the first occurrence of a key wins"
    );
    match validate_hosted_parameters(&params) {
        Ok(token) => assert_eq!(token, String::from("token-1")),
        Err(_) => panic!("a mapping holding oauth must be accepted"),
    }

    let missing = vec![(String::from("unrelated"), String::from("x"))];
    assert!(get_parameter(&missing, "oauth").is_none());
    match validate_hosted_parameters(&missing) {
        Ok(_) => panic!("a mapping without oauth must be rejected"),
        Err(e) => match e {
            ProviderError::InitProviderFailed { id, parameters } => {
                assert_eq!(id, String::from("modio"));
                assert_eq!(parameters, missing);
                assert_eq!(
                    ProviderError::InitProviderFailed { id, parameters }.kind(),
                    ProviderErrorKind::InitProviderFailed
                );
            }
            _ => panic!("construction failure must name the factory and parameters"),
        },
    }
}

#[test]
fn registry_routes_hosted_and_file_addresses_apart() {
    let mut registry = Registry::new();
    assert!(registry.register(file_provider_factory()));
    assert!(registry.register(hosted_provider_factory()));
    match registry.lookup("https://mod.io/g/drg/m/sandbox-utilities") {
        Ok(f) => {
            assert_eq!(f.id, String::from("modio"));
            assert_eq!(f.parameters.len(), 1);
            assert_eq!(f.parameters[0].id, String::from("oauth"));
        }
        Err(_) => panic!("the hosted factory must match a mod.io address"),
    }
    match registry.lookup("file:///tmp/mod.pak") {
        Ok(f) => assert_eq!(f.id, String::from("file")),
        Err(_) => panic!("the file factory must match a file:// address"),
    }
}

#[test]
fn mod_id_extraction_is_uniform_across_kinds() {
    let hosted = ProviderError::DrgModioError(DrgModioError::Api {
        mod_id: 42,
        message: String::from("rate limited"),
    });
    assert_eq!(hosted.opt_mod_id(), Some(42));

    let io = ProviderError::IoErrorWithModCtxt {
        source: std::io::Error::new(std::io::ErrorKind::Other, "disk full"),
        mod_id: 42,
    };
    assert_eq!(io.opt_mod_id(), Some(42));

    let not_found = ProviderError::ProviderNotFound {
        url: String::from("mailto:x"),
    };
    assert_eq!(not_found.opt_mod_id(), None);

    let general = ProviderError::DrgModioError(DrgModioError::General {
        message: String::from("outage"),
    });
    assert_eq!(general.opt_mod_id(), None);
}

#[test]
fn error_kinds_are_distinguishable() {
    let errors = vec![
        ProviderError::InitProviderFailed {
            id: String::from("modio"),
            parameters: vec![(String::from("oauth"), String::from("missing"))],
        },
        ProviderError::CacheError(mod_providers::cache::CacheError::VersionMismatch {
            found: 1,
            expected: 2,
        }),
        ProviderError::BlobCacheError(mod_providers::cache::BlobCacheError::Io {
            path: String::from("/blobs"),
        }),
        ProviderError::NoProvider {
            url: String::from("gopher://x"),
            factory_id: String::from("file"),
        },
        ProviderError::InvalidUrl { url: String::from("not a url") },
        ProviderError::UnexpectedContentType {
            found_content_type: String::from("text/html"),
            url: String::from("https://mods.test/b"),
        },
        ProviderError::BufferIoError {
            source: std::io::Error::new(std::io::ErrorKind::Other, "short write"),
            url: String::from("https://mods.test/b"),
        },
        ProviderError::PreviewLink { url: String::from("https://mods.test/preview") },
        ProviderError::NoAssociatedModfile { url: String::from("https://mods.test/nofile") },
        ProviderError::AmbiguousModNameId { name_id: String::from("m") },
        ProviderError::NoModsForNameId { name_id: String::from("m") },
    ];
    let kinds: Vec<ProviderErrorKind> = errors.iter().map(|e| e.kind()).collect();
    for (i, a) in kinds.iter().enumerate() {
        for (j, b) in kinds.iter().enumerate() {
            if i == j {
                assert_eq!(a, b);
            } else {
                assert_ne!(a, b);
            }
        }
    }
    // None of these kinds carries mod context.
    for e in &errors {
        assert_eq!(e.opt_mod_id(), None);
    }
}
