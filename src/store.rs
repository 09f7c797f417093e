//! The credential store: one record for the active cookie jar and a catalogue
//! of signature bundles, each addressed by a plain key.

use vstd::prelude::*;
use crate::credentials::{ApiSignature, Credential, CredentialView, SignatureView};
use crate::text::owned;

verus! {

/// The view of an optional credential.
pub open spec fn credential_view(c: Option<Credential>) -> Option<CredentialView> {
    match c {
        Some(c) => Some(c@),
        None => None,
    }
}

/// The view of an optional signature bundle.
pub open spec fn signature_view(s: Option<ApiSignature>) -> Option<SignatureView> {
    match s {
        Some(s) => Some(s@),
        None => None,
    }
}

/// What the store holds: at most one credential, and at most one bundle per
/// endpoint key.
pub struct StoreView {
    pub credential: Option<CredentialView>,
    pub signatures: Map<Seq<char>, SignatureView>,
}

/// The bundle stored under `key`, if any.
pub open spec fn lookup(signatures: Map<Seq<char>, SignatureView>, key: Seq<char>) -> Option<SignatureView> {
    if signatures.contains_key(key) {
        Some(signatures[key])
    } else {
        None
    }
}

pub struct CredentialStore {
    credential: Option<Credential>,
    entries: Vec<(String, ApiSignature)>,
    catalogue: Ghost<Map<Seq<char>, SignatureView>>,
}

impl View for CredentialStore {
    type V = StoreView;

    closed spec fn view(&self) -> StoreView {
        StoreView { credential: credential_view(self.credential), signatures: self.catalogue@ }
    }
}

impl CredentialStore {
    /// Keys are unique among the entries, and the catalogue is exactly what
    /// the entries hold.
    pub closed spec fn wf(&self) -> bool {
        &&& match self.credential {
            Some(c) => c.wf(),
            None => true,
        }
        &&& forall|i: int, j: int|
            0 <= i < j < self.entries@.len() ==> #[trigger] self.entries@[i].0@
                != #[trigger] self.entries@[j].0@
        &&& forall|i: int|
            0 <= i < self.entries@.len() ==> self.catalogue@.contains_key(
                #[trigger] self.entries@[i].0@,
            ) && self.catalogue@[self.entries@[i].0@] == self.entries@[i].1@
        &&& forall|k: Seq<char>|
            #[trigger] self.catalogue@.contains_key(k) ==> exists|i: int|
                0 <= i < self.entries@.len() && #[trigger] self.entries@[i].0@ == k
    }

    /// An empty store: no credential, no bundle.
    pub fn new() -> (r: CredentialStore)
        ensures
            r.wf(),
            r@.credential is None,
            r@.signatures == Map::<Seq<char>, SignatureView>::empty(),
    {
        CredentialStore { credential: None, entries: Vec::new(), catalogue: Ghost(Map::empty()) }
    }

    /// Replaces the credential as a whole; the catalogue is kept.
    pub fn put_credential(&mut self, credential: Credential)
        requires
            old(self).wf(),
            credential.wf(),
        ensures
            final(self).wf(),
            final(self)@.credential == Some(credential@),
            final(self)@.signatures == old(self)@.signatures,
    {
        self.credential = Some(credential);
        proof {
            assert forall|k: Seq<char>| #[trigger] self.catalogue@.contains_key(k) implies exists|j: int|
                0 <= j < self.entries@.len() && #[trigger] self.entries@[j].0@ == k by {
                let j = choose|j: int| 0 <= j < old(self).entries@.len() && #[trigger] old(self).entries@[j].0@ == k;
                assert(self.entries@[j].0@ == k);
            }
        }
    }

    /// A copy of the credential, if one is stored.
    pub fn get_credential(&self) -> (r: Option<Credential>)
        requires
            self.wf(),
        ensures
            credential_view(r) == self@.credential,
            r matches Some(c) ==> c.wf(),
    {
        match &self.credential {
            Some(c) => Some(c.duplicate()),
            None => None,
        }
    }

    /// The position of `key` among the entries, if it is there.
    fn position(&self, key: &String) -> (r: Option<usize>)
        requires
            self.wf(),
        ensures
            match r {
                Some(i) => i < self.entries@.len() && self.entries@[i as int].0@ == key@,
                None => !self@.signatures.contains_key(key@),
            },
    {
        let mut i: usize = 0;
        while i < self.entries.len()
            invariant
                i <= self.entries@.len(),
                forall|j: int| 0 <= j < i ==> self.entries@[j].0@ != key@,
            decreases self.entries@.len() - i,
        {
            if self.entries[i].0 == *key {
                return Some(i);
            }
            i = i + 1;
        }
        None
    }

    /// Stores `bundle` under `key`, replacing any bundle stored there before;
    /// the other keys and the credential are kept.
    pub fn put_signature(&mut self, key: &str, bundle: ApiSignature)
        requires
            old(self).wf(),
        ensures
            final(self).wf(),
            final(self)@.signatures == old(self)@.signatures.insert(key@, bundle@),
            final(self)@.credential == old(self)@.credential,
    {
        let k = owned(key);
        let ghost v = bundle@;
        match self.position(&k) {
            Some(i) => {
                self.entries.set(i, (k, bundle));
                self.catalogue = Ghost(self.catalogue@.insert(key@, v));
                proof {
                    assert forall|k2: Seq<char>| #[trigger] self.catalogue@.contains_key(k2) implies exists|j: int|
                        0 <= j < self.entries@.len() && #[trigger] self.entries@[j].0@ == k2 by {
                        if k2 != key@ {
                            let j = choose|j: int| 0 <= j < old(self).entries@.len() && #[trigger] old(self).entries@[j].0@ == k2;
                            assert(self.entries@[j].0@ == k2);
                        } else {
                            assert(self.entries@[i as int].0@ == k2);
                        }
                    }
                }
            },
            None => {
                self.entries.push((k, bundle));
                self.catalogue = Ghost(self.catalogue@.insert(key@, v));
                proof {
                    let n = self.entries@.len() - 1;
                    assert forall|k2: Seq<char>| #[trigger] self.catalogue@.contains_key(k2) implies exists|j: int|
                        0 <= j < self.entries@.len() && #[trigger] self.entries@[j].0@ == k2 by {
                        if k2 != key@ {
                            let j = choose|j: int| 0 <= j < old(self).entries@.len() && #[trigger] old(self).entries@[j].0@ == k2;
                            assert(self.entries@[j].0@ == k2);
                        } else {
                            assert(self.entries@[n].0@ == k2);
                        }
                    }
                }
            },
        }
    }

    /// A copy of the bundle stored under `key`, if any.
    pub fn get_signature(&self, key: &str) -> (r: Option<ApiSignature>)
        requires
            self.wf(),
        ensures
            signature_view(r) == lookup(self@.signatures, key@),
    {
        let k = owned(key);
        match self.position(&k) {
            Some(i) => Some(self.entries[i].1.duplicate()),
            None => None,
        }
    }
    /// A copy of the whole store.
    pub fn duplicate(&self) -> (r: CredentialStore)
        requires
            self.wf(),
        ensures
            r.wf(),
            r@ == self@,
    {
        let mut entries: Vec<(String, ApiSignature)> = Vec::new();
        let mut i: usize = 0;
        while i < self.entries.len()
            invariant
                self.wf(),
                i <= self.entries@.len(),
                entries@.len() == i,
                forall|j: int| 0 <= j < i ==> (#[trigger] entries@[j]).0@ == self.entries@[j].0@
                    && entries@[j].1@ == self.entries@[j].1@,
            decreases self.entries@.len() - i,
        {
            let e = &self.entries[i];
            entries.push((e.0.clone(), e.1.duplicate()));
            i = i + 1;
        }
        let r = CredentialStore {
            credential: match &self.credential {
                Some(c) => Some(c.duplicate()),
                None => None,
            },
            entries,
            catalogue: Ghost(self.catalogue@),
        };
        proof {
            assert forall|i: int, j: int| 0 <= i < j < r.entries@.len() implies #[trigger] r.entries@[i].0@
                != #[trigger] r.entries@[j].0@ by {
                assert(self.entries@[i].0@ != self.entries@[j].0@);
            }
            assert forall|k: Seq<char>| #[trigger] r.catalogue@.contains_key(k) implies exists|j: int|
                0 <= j < r.entries@.len() && #[trigger] r.entries@[j].0@ == k by {
                let j = choose|j: int| 0 <= j < self.entries@.len() && #[trigger] self.entries@[j].0@ == k;
                assert(r.entries@[j].0@ == k);
            }
        }
        r
    }

    /// The keys under which a bundle is stored, each once.
    pub fn keys(&self) -> (r: Vec<String>)
        requires
            self.wf(),
        ensures
            forall|i: int| 0 <= i < r@.len() ==> self@.signatures.contains_key(#[trigger] r@[i]@),
            forall|k: Seq<char>| #[trigger] self@.signatures.contains_key(k) ==> exists|i: int|
                0 <= i < r@.len() && #[trigger] r@[i]@ == k,
            forall|i: int, j: int| 0 <= i < j < r@.len() ==> #[trigger] r@[i]@ != #[trigger] r@[j]@,
    {
        let mut keys: Vec<String> = Vec::new();
        let mut i: usize = 0;
        while i < self.entries.len()
            invariant
                self.wf(),
                i <= self.entries@.len(),
                keys@.len() == i,
                forall|j: int| 0 <= j < i ==> (#[trigger] keys@[j])@ == self.entries@[j].0@,
            decreases self.entries@.len() - i,
        {
            keys.push(self.entries[i].0.clone());
            i = i + 1;
        }
        proof {
            assert forall|k: Seq<char>| #[trigger] self@.signatures.contains_key(k) implies exists|j: int|
                0 <= j < keys@.len() && #[trigger] keys@[j]@ == k by {
                let j = choose|j: int| 0 <= j < self.entries@.len() && #[trigger] self.entries@[j].0@ == k;
                assert(keys@[j]@ == k);
            }
            assert forall|i: int, j: int| 0 <= i < j < keys@.len() implies #[trigger] keys@[i]@ != #[trigger] keys@[j]@ by {
                assert(self.entries@[i].0@ != self.entries@[j].0@);
            }
            assert forall|i: int| 0 <= i < keys@.len() implies self@.signatures.contains_key(#[trigger] keys@[i]@) by {
                assert(self.catalogue@.contains_key(self.entries@[i].0@));
            }
        }
        keys
    }
}

} // verus!
