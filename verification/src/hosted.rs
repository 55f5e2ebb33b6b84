//! Decision logic of the mod.io-style hosted back-end that needs no
//! network access: serving a resolution from a cached entry and settling a
//! name-based lookup. The network half runs outside and hands its results
//! in as plain values.

use vstd::prelude::*;

use crate::cache::{CacheEntry, ProviderCache};
use crate::error::{ProviderError, ProviderErrorKind};
use crate::mod_info::{ModResolution, ModResponse, ModSpecification};
use crate::registry::{ProviderFactory, ProviderKind, ProviderParameter};
use crate::text::str_eq;

verus! {

/// A key is recorded in the configuration mapping.
pub open spec fn has_parameter(parameters: Seq<(String, String)>, key: Seq<char>) -> bool {
    exists|i: int| 0 <= i < parameters.len() && #[trigger] parameters[i].0@ == key
}

/// The value under the first occurrence of `key` in a configuration
/// mapping.
pub fn get_parameter<'a>(parameters: &'a Vec<(String, String)>, key: &str) -> (r: Option<
    &'a String,
>)
    ensures
        match r {
            Some(v) => exists|i: int|
                0 <= i < parameters@.len() && #[trigger] parameters@[i].0@ == key@
                    && parameters@[i].1 == *v
                    && (forall|j: int| 0 <= j < i ==> parameters@[j].0@ != key@),
            None => !has_parameter(parameters@, key@),
        },
{
    let n = parameters.len();
    let mut i: usize = 0;
    while i < n
        invariant
            n == parameters@.len(),
            i <= n,
            forall|j: int| 0 <= j < i ==> parameters@[j].0@ != key@,
        decreases n - i,
    {
        if str_eq(parameters[i].0.as_str(), key) {
            return Some(&parameters[i].1);
        }
        i += 1;
    }
    None
}

/// Validates the hosted back-end's configuration: construction needs the
/// `oauth` parameter and yields its token, or fails with
/// `InitProviderFailed` naming the factory and the offending parameters.
pub fn validate_hosted_parameters(parameters: &Vec<(String, String)>) -> (r: Result<
    String,
    ProviderError,
>)
    ensures
        r is Ok <==> has_parameter(parameters@, "oauth"@),
        r matches Ok(token) ==> exists|i: int|
            0 <= i < parameters@.len() && #[trigger] parameters@[i].0@ == "oauth"@
                && parameters@[i].1@ == token@,
        r matches Err(e) ==> ({
            &&& e.kind_spec() == ProviderErrorKind::InitProviderFailed
            &&& e.factory_spec() == Some("modio"@)
        }),
{
    match get_parameter(parameters, "oauth") {
        Some(token) => Ok(token.clone()),
        None => Err(
            ProviderError::InitProviderFailed {
                id: "modio".to_owned(),
                parameters: clone_parameters(parameters),
            },
        ),
    }
}

/// A field-for-field copy of a configuration mapping, for echoing it in
/// an initialization error.
fn clone_parameters(parameters: &Vec<(String, String)>) -> (r: Vec<(String, String)>)
    ensures
        r@ == parameters@,
{
    let n = parameters.len();
    let mut out: Vec<(String, String)> = Vec::new();
    let mut i: usize = 0;
    while i < n
        invariant
            n == parameters@.len(),
            i <= n,
            out@ == parameters@.subrange(0, i as int),
        decreases n - i,
    {
        out.push((parameters[i].0.clone(), parameters[i].1.clone()));
        proof {
            assert(out@ =~= parameters@.subrange(0, i + 1));
        }
        i += 1;
    }
    proof {
        assert(parameters@.subrange(0, n as int) =~= parameters@);
    }
    out
}

/// The batch holds at most one entry per address.
pub open spec fn distinct_addresses(entries: Seq<CacheEntry>) -> bool {
    forall|i: int, j: int|
        0 <= i < j < entries.len() ==> entries[i]@.spec_url != entries[j]@.spec_url
}

/// Records a batch of freshly refreshed entries, as a bulk cache update
/// hands them in after consulting the authoritative source: afterwards
/// every refreshed address holds its refreshed entry and every other
/// address is untouched.
pub fn record_refreshed_entries(cache: &mut ProviderCache, entries: &Vec<CacheEntry>)
    requires
        old(cache).wf(),
        distinct_addresses(entries@),
    ensures
        final(cache).wf(),
        forall|k: int|
            0 <= k < entries@.len()
                ==> final(cache).lookup(#[trigger] entries@[k]@.spec_url) == Some(entries@[k]@),
        forall|u: Seq<char>|
            (forall|k: int| 0 <= k < entries@.len() ==> #[trigger] entries@[k]@.spec_url != u)
                ==> final(cache).lookup(u) == old(cache).lookup(u),
{
    let n = entries.len();
    let mut i: usize = 0;
    while i < n
        invariant
            old(cache).wf(),
            cache.wf(),
            distinct_addresses(entries@),
            n == entries@.len(),
            i <= n,
            forall|k: int|
                0 <= k < i ==> cache.lookup(#[trigger] entries@[k]@.spec_url) == Some(
                    entries@[k]@,
                ),
            forall|u: Seq<char>|
                (forall|k: int| 0 <= k < i ==> #[trigger] entries@[k]@.spec_url != u)
                    ==> cache.lookup(u) == old(cache).lookup(u),
        decreases n - i,
    {
        let entry = entries[i].clone();
        let ghost before = *cache;
        cache.upsert(entry);
        proof {
            assert forall|k: int|
                0 <= k < i + 1 implies cache.lookup(#[trigger] entries@[k]@.spec_url) == Some(
                entries@[k]@,
            ) by {
                if k < i {
                    assert(entries@[k]@.spec_url != entries@[i as int]@.spec_url);
                }
            }
            assert forall|u: Seq<char>|
                (forall|k: int| 0 <= k < i + 1 ==> #[trigger] entries@[k]@.spec_url != u)
                    implies cache.lookup(u) == old(cache).lookup(u) by {
                assert(entries@[i as int]@.spec_url != u);
                assert(before.lookup(u) == old(cache).lookup(u));
            }
        }
        i += 1;
    }
}

/// The registry entry for the hosted back-end: it provides for mod.io
/// addresses and declares the one parameter its constructor validates.
pub fn hosted_provider_factory() -> (r: ProviderFactory)
    ensures
        r.id@ == "modio"@,
        r.kind == ProviderKind::Hosted,
        r.prefixes@.len() == 1,
        r.prefixes@[0]@ == "https://mod.io/"@,
        r.parameters@.len() == 1,
        r.parameters@[0].id@ == "oauth"@,
{
    let mut prefixes: Vec<String> = Vec::new();
    prefixes.push("https://mod.io/".to_owned());
    let mut parameters: Vec<ProviderParameter> = Vec::new();
    parameters.push(
        ProviderParameter {
            id: "oauth".to_owned(),
            name: "OAuth token".to_owned(),
            description: "The access token the hosted API authenticates with".to_owned(),
            link: Some("https://mod.io/me/access".to_owned()),
        },
    );
    ProviderFactory { id: "modio".to_owned(), kind: ProviderKind::Hosted, prefixes, parameters }
}

/// Serves a resolution for `spec` from its cached hosted entry: the
/// artifact the entry's modfile names, or `NoAssociatedModfile` when the
/// mod has no downloadable artifact.
pub fn resolve_hosted_entry(entry: &CacheEntry, spec: &ModSpecification) -> (r: Result<
    ModResponse,
    ProviderError,
>)
    ensures
        match entry@.modfile_url {
            Some(u) => (r matches Ok(resp) && resp@.resolution.url == u
                && resp@.resolution.pinned == entry@.pinned && resp@.info == entry@.info),
            None => (r matches Err(e) && e.kind_spec() == ProviderErrorKind::NoAssociatedModfile
                && e.url_spec() == Some(spec@) && e.spec_opt_mod_id() is None),
        },
{
    match &entry.modfile_url {
        Some(u) => Ok(
            ModResponse {
                resolution: ModResolution { url: u.clone(), pinned: entry.pinned },
                info: entry.info.clone(),
            },
        ),
        None => Err(ProviderError::NoAssociatedModfile { url: spec.url.clone() }),
    }
}

/// Settles a name-based lookup given the mod ids the hosted API returned
/// for `name_id`: exactly one match resolves to it, none is
/// `NoModsForNameId`, several is `AmbiguousModNameId`.
pub fn select_mod_by_name(name_id: &String, mod_ids: &Vec<u32>) -> (r: Result<u32, ProviderError>)
    ensures
        mod_ids@.len() == 1 ==> (r matches Ok(id) && id == mod_ids@[0]),
        mod_ids@.len() == 0 ==> (r matches Err(e) && e.kind_spec()
            == ProviderErrorKind::NoModsForNameId && e.name_id_spec() == Some(name_id@)),
        mod_ids@.len() > 1 ==> (r matches Err(e) && e.kind_spec()
            == ProviderErrorKind::AmbiguousModNameId && e.name_id_spec() == Some(name_id@)),
{
    if mod_ids.len() == 1 {
        Ok(mod_ids[0])
    } else if mod_ids.len() == 0 {
        Err(ProviderError::NoModsForNameId { name_id: name_id.clone() })
    } else {
        Err(ProviderError::AmbiguousModNameId { name_id: name_id.clone() })
    }
}

} // verus!
