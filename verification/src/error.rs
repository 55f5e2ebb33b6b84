//! The closed error taxonomy: one kind per distinguishable failure cause,
//! each carrying the URL and/or mod id that a caller needs for diagnosis,
//! and a uniform accessor that extracts the associated mod id.

use vstd::prelude::*;

use crate::cache::{BlobCacheError, CacheError};

verus! {

/// Carried opaquely inside [`ProviderError::ModioErrorWithModCtxt`];
/// relies on `modio::Error` being an ordinary owned error value.
#[verifier::external_type_specification]
#[verifier::external_body]
pub struct ExModioError(modio::Error);

/// Carried opaquely inside the transport-failure kinds; relies on
/// `reqwest::Error` being an ordinary owned error value.
#[verifier::external_type_specification]
#[verifier::external_body]
pub struct ExReqwestError(reqwest::Error);

/// Carried opaquely inside [`ProviderError::InvalidMime`]; relies on
/// `reqwest::header::ToStrError` being an ordinary owned error value.
#[verifier::external_type_specification]
#[verifier::external_body]
pub struct ExToStrError(reqwest::header::ToStrError);

/// Carried opaquely inside the local-I/O kinds; relies on
/// `std::io::Error` being an ordinary owned error value.
#[verifier::external_type_specification]
#[verifier::external_body]
pub struct ExIoError(std::io::Error);

/// A hosted-API failure surfaced by the mod.io-style back-end, keeping the
/// mod id it concerns where one is known.
#[derive(Debug)]
pub enum DrgModioError {
    /// The remote API rejected or failed a request about a specific mod.
    Api { mod_id: u32, message: String },
    /// A hosted-API failure not tied to any one mod.
    General { message: String },
}

impl DrgModioError {
    /// The mod id this failure concerns, if any.
    pub open spec fn spec_opt_mod_id(&self) -> Option<u32> {
        match self {
            DrgModioError::Api { mod_id, .. } => Some(*mod_id),
            DrgModioError::General { .. } => None,
        }
    }

    pub fn opt_mod_id(&self) -> (r: Option<u32>)
        ensures
            r == self.spec_opt_mod_id(),
    {
        match self {
            DrgModioError::Api { mod_id, .. } => Some(*mod_id),
            DrgModioError::General { .. } => None,
        }
    }
}

/// The kind of a [`ProviderError`], with the contextual fields stripped.
#[derive(Debug, Clone, Copy, PartialEq, Eq, Structural)]
pub enum ProviderErrorKind {
    InitProviderFailed,
    CacheError,
    DrgModioError,
    ModioErrorWithModCtxt,
    IoErrorWithModCtxt,
    BlobCacheError,
    ProviderNotFound,
    NoProvider,
    InvalidUrl,
    RequestFailed,
    ResponseError,
    InvalidMime,
    UnexpectedContentType,
    FetchError,
    BufferIoError,
    PreviewLink,
    NoAssociatedModfile,
    AmbiguousModNameId,
    NoModsForNameId,
}

/// Every failure a provider operation can surface. No error is silently
/// swallowed inside the contract operations: each failure becomes exactly
/// one of these kinds, with its contextual fields populated.
#[derive(Debug)]
pub enum ProviderError {
    /// A factory's constructor rejected its parameters.
    InitProviderFailed { id: String, parameters: Vec<(String, String)> },
    /// The underlying metadata store failed.
    CacheError(CacheError),
    /// A hosted-API failure surfaced by the mod.io-style back-end.
    DrgModioError(DrgModioError),
    /// The hosted API client failed while working on a specific mod.
    ModioErrorWithModCtxt { source: modio::Error, mod_id: u32 },
    /// A local read or write failed while working on a specific mod.
    IoErrorWithModCtxt { source: std::io::Error, mod_id: u32 },
    /// The underlying blob store failed.
    BlobCacheError(BlobCacheError),
    /// No registered factory matches the address.
    ProviderNotFound { url: String },
    /// A factory was selected but could not provide for the address.
    NoProvider { url: String, factory_id: String },
    /// The address failed provider-specific parsing.
    InvalidUrl { url: String },
    /// The transport request could not be sent.
    RequestFailed { source: reqwest::Error, url: String },
    /// The transport response was an error.
    ResponseError { source: reqwest::Error, url: String },
    /// The response's MIME header holds non-ASCII characters.
    InvalidMime { source: reqwest::header::ToStrError, url: String },
    /// The response's content type violated the expected contract.
    UnexpectedContentType { found_content_type: String, url: String },
    /// The artifact transfer itself failed.
    FetchError { source: reqwest::Error, url: String },
    /// Writing the artifact to the local buffer failed.
    BufferIoError { source: std::io::Error, url: String },
    /// The address is a preview link, not a direct link.
    PreviewLink { url: String },
    /// The resolution has no downloadable artifact.
    NoAssociatedModfile { url: String },
    /// A name-based lookup matched more than one mod.
    AmbiguousModNameId { name_id: String },
    /// A name-based lookup matched no mod.
    NoModsForNameId { name_id: String },
}

impl ProviderError {
    /// The kind of this error.
    pub open spec fn kind_spec(&self) -> ProviderErrorKind {
        match self {
            ProviderError::InitProviderFailed { .. } => ProviderErrorKind::InitProviderFailed,
            ProviderError::CacheError(..) => ProviderErrorKind::CacheError,
            ProviderError::DrgModioError(..) => ProviderErrorKind::DrgModioError,
            ProviderError::ModioErrorWithModCtxt { .. } => ProviderErrorKind::ModioErrorWithModCtxt,
            ProviderError::IoErrorWithModCtxt { .. } => ProviderErrorKind::IoErrorWithModCtxt,
            ProviderError::BlobCacheError(..) => ProviderErrorKind::BlobCacheError,
            ProviderError::ProviderNotFound { .. } => ProviderErrorKind::ProviderNotFound,
            ProviderError::NoProvider { .. } => ProviderErrorKind::NoProvider,
            ProviderError::InvalidUrl { .. } => ProviderErrorKind::InvalidUrl,
            ProviderError::RequestFailed { .. } => ProviderErrorKind::RequestFailed,
            ProviderError::ResponseError { .. } => ProviderErrorKind::ResponseError,
            ProviderError::InvalidMime { .. } => ProviderErrorKind::InvalidMime,
            ProviderError::UnexpectedContentType { .. } => ProviderErrorKind::UnexpectedContentType,
            ProviderError::FetchError { .. } => ProviderErrorKind::FetchError,
            ProviderError::BufferIoError { .. } => ProviderErrorKind::BufferIoError,
            ProviderError::PreviewLink { .. } => ProviderErrorKind::PreviewLink,
            ProviderError::NoAssociatedModfile { .. } => ProviderErrorKind::NoAssociatedModfile,
            ProviderError::AmbiguousModNameId { .. } => ProviderErrorKind::AmbiguousModNameId,
            ProviderError::NoModsForNameId { .. } => ProviderErrorKind::NoModsForNameId,
        }
    }

    pub fn kind(&self) -> (r: ProviderErrorKind)
        ensures
            r == self.kind_spec(),
    {
        match self {
            ProviderError::InitProviderFailed { .. } => ProviderErrorKind::InitProviderFailed,
            ProviderError::CacheError(..) => ProviderErrorKind::CacheError,
            ProviderError::DrgModioError(..) => ProviderErrorKind::DrgModioError,
            ProviderError::ModioErrorWithModCtxt { .. } => ProviderErrorKind::ModioErrorWithModCtxt,
            ProviderError::IoErrorWithModCtxt { .. } => ProviderErrorKind::IoErrorWithModCtxt,
            ProviderError::BlobCacheError(..) => ProviderErrorKind::BlobCacheError,
            ProviderError::ProviderNotFound { .. } => ProviderErrorKind::ProviderNotFound,
            ProviderError::NoProvider { .. } => ProviderErrorKind::NoProvider,
            ProviderError::InvalidUrl { .. } => ProviderErrorKind::InvalidUrl,
            ProviderError::RequestFailed { .. } => ProviderErrorKind::RequestFailed,
            ProviderError::ResponseError { .. } => ProviderErrorKind::ResponseError,
            ProviderError::InvalidMime { .. } => ProviderErrorKind::InvalidMime,
            ProviderError::UnexpectedContentType { .. } => ProviderErrorKind::UnexpectedContentType,
            ProviderError::FetchError { .. } => ProviderErrorKind::FetchError,
            ProviderError::BufferIoError { .. } => ProviderErrorKind::BufferIoError,
            ProviderError::PreviewLink { .. } => ProviderErrorKind::PreviewLink,
            ProviderError::NoAssociatedModfile { .. } => ProviderErrorKind::NoAssociatedModfile,
            ProviderError::AmbiguousModNameId { .. } => ProviderErrorKind::AmbiguousModNameId,
            ProviderError::NoModsForNameId { .. } => ProviderErrorKind::NoModsForNameId,
        }
    }

    /// The URL this error carries, where its kind declares one.
    pub open spec fn url_spec(&self) -> Option<Seq<char>> {
        match self {
            ProviderError::ProviderNotFound { url } => Some(url@),
            ProviderError::NoProvider { url, .. } => Some(url@),
            ProviderError::InvalidUrl { url } => Some(url@),
            ProviderError::RequestFailed { url, .. } => Some(url@),
            ProviderError::ResponseError { url, .. } => Some(url@),
            ProviderError::InvalidMime { url, .. } => Some(url@),
            ProviderError::UnexpectedContentType { url, .. } => Some(url@),
            ProviderError::FetchError { url, .. } => Some(url@),
            ProviderError::BufferIoError { url, .. } => Some(url@),
            ProviderError::PreviewLink { url } => Some(url@),
            ProviderError::NoAssociatedModfile { url } => Some(url@),
            _ => None,
        }
    }

    /// The factory identifier this error names, where its kind declares
    /// one.
    pub open spec fn factory_spec(&self) -> Option<Seq<char>> {
        match self {
            ProviderError::InitProviderFailed { id, .. } => Some(id@),
            ProviderError::NoProvider { factory_id, .. } => Some(factory_id@),
            _ => None,
        }
    }

    /// The name this error's name-based lookup used, where its kind
    /// declares one.
    pub open spec fn name_id_spec(&self) -> Option<Seq<char>> {
        match self {
            ProviderError::AmbiguousModNameId { name_id } => Some(name_id@),
            ProviderError::NoModsForNameId { name_id } => Some(name_id@),
            _ => None,
        }
    }

    /// The mod id associated with this error, if any: populated for the
    /// hosted-API and local-I/O kinds that carry mod context, uniformly
    /// absent for every other kind.
    pub open spec fn spec_opt_mod_id(&self) -> Option<u32> {
        match self {
            ProviderError::DrgModioError(source) => source.spec_opt_mod_id(),
            ProviderError::ModioErrorWithModCtxt { mod_id, .. } => Some(*mod_id),
            ProviderError::IoErrorWithModCtxt { mod_id, .. } => Some(*mod_id),
            _ => None,
        }
    }

    /// Extracts the associated mod id uniformly across kinds, so a caller
    /// can correlate failures with specific mods in a batch operation
    /// without matching on every kind individually.
    pub fn opt_mod_id(&self) -> (r: Option<u32>)
        ensures
            r == self.spec_opt_mod_id(),
    {
        match self {
            ProviderError::DrgModioError(source) => source.opt_mod_id(),
            ProviderError::ModioErrorWithModCtxt { mod_id, .. } => Some(*mod_id),
            ProviderError::IoErrorWithModCtxt { mod_id, .. } => Some(*mod_id),
            _ => None,
        }
    }
}

} // verus!
