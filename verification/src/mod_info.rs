//! The provider-agnostic data model: specifications, resolutions and mod
//! metadata, together with the mathematical views that contracts speak of.

use vstd::prelude::*;

verus! {

/// An opaque, provider-agnostic identifier for a mod (for example a
/// URL-like string). Immutable once constructed; equality is structural.
#[derive(Debug, PartialEq, Eq)]
pub struct ModSpecification {
    pub url: String,
}

impl View for ModSpecification {
    type V = Seq<char>;

    open spec fn view(&self) -> Seq<char> {
        self.url@
    }
}

impl Clone for ModSpecification {
    fn clone(&self) -> (r: Self)
        ensures
            r == *self,
    {
        ModSpecification { url: self.url.clone() }
    }
}

impl ModSpecification {
    pub fn new(url: String) -> (r: ModSpecification)
        ensures
            r@ == url@,
    {
        ModSpecification { url }
    }
}

/// The mathematical value of a [`ModResolution`].
#[verifier::ext_equal]
pub struct ModResolutionView {
    pub url: Seq<char>,
    pub pinned: bool,
}

/// The result of resolving a specification: a concrete pointer to a
/// fetchable artifact, and whether it denotes a pinned exact version
/// (`pinned == true`) or a floating "latest" pointer.
#[derive(Debug, PartialEq, Eq)]
pub struct ModResolution {
    pub url: String,
    pub pinned: bool,
}

impl View for ModResolution {
    type V = ModResolutionView;

    open spec fn view(&self) -> ModResolutionView {
        ModResolutionView { url: self.url@, pinned: self.pinned }
    }
}

impl Clone for ModResolution {
    fn clone(&self) -> (r: Self)
        ensures
            r == *self,
    {
        ModResolution { url: self.url.clone(), pinned: self.pinned }
    }
}

impl ModResolution {
    pub fn new(url: String, pinned: bool) -> (r: ModResolution)
        ensures
            r@.url == url@,
            r@.pinned == pinned,
    {
        ModResolution { url, pinned }
    }
}

/// The mathematical value of a [`ModInfo`].
#[verifier::ext_equal]
pub struct ModInfoView {
    pub name: Seq<char>,
    pub version: Option<Seq<char>>,
    pub mod_id: Option<u32>,
}

/// Descriptive metadata about a mod/version, retrievable synchronously
/// from a provider cache without any I/O.
#[derive(Debug, PartialEq, Eq)]
pub struct ModInfo {
    pub name: String,
    pub version: Option<String>,
    pub mod_id: Option<u32>,
}

impl View for ModInfo {
    type V = ModInfoView;

    open spec fn view(&self) -> ModInfoView {
        ModInfoView {
            name: self.name@,
            version: match self.version {
                Some(v) => Some(v@),
                None => None,
            },
            mod_id: self.mod_id,
        }
    }
}

impl Clone for ModInfo {
    fn clone(&self) -> (r: Self)
        ensures
            r == *self,
    {
        ModInfo {
            name: self.name.clone(),
            version: match &self.version {
                Some(v) => Some(v.clone()),
                None => None,
            },
            mod_id: self.mod_id,
        }
    }
}

/// The mathematical value of a [`ModResponse`].
#[verifier::ext_equal]
pub struct ModResponseView {
    pub resolution: ModResolutionView,
    pub info: ModInfoView,
}

/// What a successful resolution returns to the caller: the concrete
/// resolution together with the metadata that was resolved for it.
#[derive(Debug, PartialEq, Eq)]
pub struct ModResponse {
    pub resolution: ModResolution,
    pub info: ModInfo,
}

impl View for ModResponse {
    type V = ModResponseView;

    open spec fn view(&self) -> ModResponseView {
        ModResponseView { resolution: self.resolution@, info: self.info@ }
    }
}

impl Clone for ModResponse {
    fn clone(&self) -> (r: Self)
        ensures
            r == *self,
    {
        ModResponse { resolution: self.resolution.clone(), info: self.info.clone() }
    }
}

} // verus!
