//! The provider factory registry: an append-only collection of
//! self-describing factories, populated once at startup and scanned to
//! find which back-end can provide for a given address.

use vstd::prelude::*;

use crate::error::{ProviderError, ProviderErrorKind};
use crate::text::{is_prefix_of, str_eq, str_starts_with};

verus! {

/// One named configuration parameter a factory accepts: pure metadata.
#[derive(Debug, PartialEq, Eq)]
pub struct ProviderParameter {
    pub id: String,
    pub name: String,
    pub description: String,
    pub link: Option<String>,
}

impl Clone for ProviderParameter {
    fn clone(&self) -> (r: Self)
        ensures
            r == *self,
    {
        ProviderParameter {
            id: self.id.clone(),
            name: self.name.clone(),
            description: self.description.clone(),
            link: match &self.link {
                Some(l) => Some(l.clone()),
                None => None,
            },
        }
    }
}

/// Which back-end a factory constructs.
#[derive(Debug, Clone, Copy, PartialEq, Eq, Structural)]
pub enum ProviderKind {
    /// Local filesystem artifacts addressed by `file://` URLs.
    File,
    /// Artifacts served by a generic HTTP endpoint.
    Http,
    /// Mods served by a mod.io-style hosted API.
    Hosted,
}

/// A registry entry: an identifier, the back-end it constructs, the
/// address prefixes it can provide for, and its configuration parameters.
#[derive(Debug, PartialEq, Eq)]
pub struct ProviderFactory {
    pub id: String,
    pub kind: ProviderKind,
    pub prefixes: Vec<String>,
    pub parameters: Vec<ProviderParameter>,
}

impl ProviderFactory {
    /// Whether this factory can provide for the address `url`.
    pub open spec fn can_provide_spec(self, url: Seq<char>) -> bool {
        exists|i: int| 0 <= i < self.prefixes@.len() && is_prefix_of(#[trigger] self.prefixes@[i]@, url)
    }

    pub fn can_provide(&self, url: &str) -> (r: bool)
        ensures
            r == self.can_provide_spec(url@),
    {
        let n = self.prefixes.len();
        let mut i: usize = 0;
        while i < n
            invariant
                n == self.prefixes@.len(),
                i <= n,
                forall|j: int| 0 <= j < i ==> !is_prefix_of(#[trigger] self.prefixes@[j]@, url@),
            decreases n - i,
        {
            if str_starts_with(url, self.prefixes[i].as_str()) {
                return true;
            }
            i += 1;
        }
        false
    }
}

/// The process-wide collection of provider factories: populated by an
/// explicit registration step at startup, read-only afterwards, and
/// scanned by address to select a back-end.
pub struct Registry {
    pub factories: Vec<ProviderFactory>,
}

impl Registry {
    /// Factory identifiers are unique across the registry.
    pub open spec fn wf(self) -> bool {
        forall|i: int, j: int|
            0 <= i < self.factories@.len() && 0 <= j < self.factories@.len() && i != j
                ==> self.factories@[i].id@ != self.factories@[j].id@
    }

    /// Some registered factory has the identifier `id`.
    pub open spec fn has_id(self, id: Seq<char>) -> bool {
        exists|i: int| 0 <= i < self.factories@.len() && #[trigger] self.factories@[i].id@ == id
    }

    /// The factory at `i` matches the address `url`.
    pub open spec fn matches_at(self, url: Seq<char>, i: int) -> bool {
        0 <= i < self.factories@.len() && self.factories@[i].can_provide_spec(url)
    }

    /// Some registered factory matches the address `url`.
    pub open spec fn has_match(self, url: Seq<char>) -> bool {
        exists|i: int| #[trigger] self.matches_at(url, i)
    }

    pub fn new() -> (r: Registry)
        ensures
            r.wf(),
            r.factories@.len() == 0,
    {
        Registry { factories: Vec::new() }
    }

    /// Registers `factory` unless its identifier is taken: the registry
    /// is append-only and identifiers stay unique. Returns whether the
    /// factory was added.
    pub fn register(&mut self, factory: ProviderFactory) -> (r: bool)
        requires
            old(self).wf(),
        ensures
            final(self).wf(),
            r == !old(self).has_id(factory.id@),
            r ==> final(self).factories@ == old(self).factories@.push(factory),
            !r ==> *final(self) == *old(self),
    {
        let n = self.factories.len();
        let mut i: usize = 0;
        while i < n
            invariant
                *self == *old(self),
                old(self).wf(),
                n == self.factories@.len(),
                i <= n,
                forall|j: int| 0 <= j < i ==> #[trigger] self.factories@[j].id@ != factory.id@,
            decreases n - i,
        {
            if str_eq(self.factories[i].id.as_str(), factory.id.as_str()) {
                return false;
            }
            i += 1;
        }
        let ghost old_self = *self;
        self.factories.push(factory);
        proof {
            assert forall|p: int, q: int|
                0 <= p < self.factories@.len() && 0 <= q < self.factories@.len() && p != q
                    implies self.factories@[p].id@ != self.factories@[q].id@ by {
                if p < old_self.factories@.len() && q < old_self.factories@.len() {
                    assert(old_self.wf());
                }
            }
        }
        true
    }

    /// Scans the registry for the first factory whose predicate matches
    /// `url`. Zero matches is the not-found condition; when several
    /// factories match, resolving the ambiguity is the caller's policy
    /// and the scan order decides here.
    pub fn lookup(&self, url: &str) -> (r: Result<&ProviderFactory, ProviderError>)
        ensures
            match r {
                Ok(f) => exists|i: int|
                    #[trigger] self.matches_at(url@, i) && *f == self.factories@[i]
                        && (forall|j: int| 0 <= j < i ==> !self.matches_at(url@, j)),
                Err(e) => {
                    &&& !self.has_match(url@)
                    &&& e.kind_spec() == ProviderErrorKind::ProviderNotFound
                    &&& e.url_spec() == Some(url@)
                    &&& e.spec_opt_mod_id() is None
                },
            },
    {
        let n = self.factories.len();
        let mut i: usize = 0;
        while i < n
            invariant
                n == self.factories@.len(),
                i <= n,
                forall|j: int| 0 <= j < i ==> !self.matches_at(url@, j),
            decreases n - i,
        {
            if self.factories[i].can_provide(url) {
                proof {
                    assert(self.matches_at(url@, i as int));
                }
                return Ok(&self.factories[i]);
            }
            i += 1;
        }
        proof {
            assert forall|j: int| !#[trigger] self.matches_at(url@, j) by {}
        }
        Err(ProviderError::ProviderNotFound { url: url.to_owned() })
    }
}

} // verus!
