//! The auth service: the one place every outbound call consults for the
//! active cookie jar and the endpoint signatures. Writes replace a value as a
//! whole, so a reader holds either the value before a write or the one after.

use vstd::prelude::*;
use vstd::string::{StrSliceExecFns, StringExecFns};
use crate::credentials::{jar_view, ApiSignature, Cookie, Credential, CredentialView, SignatureView};
use crate::text::owned;
use crate::store::{credential_view, lookup, signature_view, CredentialStore};

verus! {

/// What the service holds: the store's contents and how many credentials
/// have been written to it.
pub struct AuthView {
    pub credential: Option<CredentialView>,
    pub signatures: Map<Seq<char>, SignatureView>,
    pub credential_writes: u64,
}

pub struct AuthService {
    store: CredentialStore,
    credential_writes: u64,
}

impl View for AuthService {
    type V = AuthView;

    closed spec fn view(&self) -> AuthView {
        AuthView {
            credential: self.store@.credential,
            signatures: self.store@.signatures,
            credential_writes: self.credential_writes,
        }
    }
}

/// The count of credential writes after one more, stopping at the largest `u64`.
pub open spec fn next_write_count(n: u64) -> u64 {
    if n < u64::MAX {
        (n + 1) as u64
    } else {
        n
    }
}

/// The service after `c` became the active credential.
pub open spec fn with_credential(a: AuthView, c: CredentialView) -> AuthView {
    AuthView {
        credential: Some(c),
        signatures: a.signatures,
        credential_writes: next_write_count(a.credential_writes),
    }
}

/// The service after `b` was stored as the capture for `key`.
pub open spec fn with_signature(a: AuthView, key: Seq<char>, b: SignatureView) -> AuthView {
    AuthView {
        credential: a.credential,
        signatures: a.signatures.insert(key, b),
        credential_writes: a.credential_writes,
    }
}

/// What the session endpoint shows: whether someone is logged in, and the
/// jar with each value masked.
pub struct SessionInfo {
    pub logged_in: bool,
    pub captured_at: Option<u64>,
    pub cookies: Vec<Cookie>,
}

pub const MASK: &'static str = "****";

/// How many characters a mask keeps at each end of a long value.
pub const MASK_KEEP: usize = 4;

/// A value shown without its secret: up to eight characters become the
/// mask alone; a longer one keeps its first four and last four characters
/// around the mask.
pub open spec fn masked(v: Seq<char>) -> Seq<char> {
    if v.len() <= 2 * MASK_KEEP {
        MASK@
    } else {
        v.take(MASK_KEEP as int) + MASK@ + v.skip(v.len() - MASK_KEEP)
    }
}

/// A jar with every value masked, the names kept.
pub open spec fn masked_jar(jar: Seq<(Seq<char>, Seq<char>)>) -> Seq<(Seq<char>, Seq<char>)> {
    jar.map_values(|c: (Seq<char>, Seq<char>)| (c.0, masked(c.1)))
}

/// Masks one cookie value.
pub fn mask_value(v: &str) -> (r: String)
    ensures
        r@ == masked(v@),
{
    let n = v.unicode_len();
    if n <= 2 * MASK_KEEP {
        owned(MASK)
    } else {
        let mut r = owned(v.substring_char(0, MASK_KEEP));
        r.append(MASK);
        r.append(v.substring_char(n - MASK_KEEP, n));
        r
    }
}

/// A capture stored for a key is what a lookup of that key gives back right
/// after, field for field.
pub proof fn lemma_signature_round_trip(a: AuthView, key: Seq<char>, b: SignatureView)
    ensures
        lookup(with_signature(a, key, b).signatures, key) == Some(b),
{
}

impl AuthService {
    pub closed spec fn wf(&self) -> bool {
        self.store.wf()
    }

    /// A service over an empty store: not logged in, nothing captured.
    pub fn new() -> (r: AuthService)
        ensures
            r.wf(),
            r@.credential is None,
            r@.signatures == Map::<Seq<char>, SignatureView>::empty(),
            r@.credential_writes == 0,
    {
        AuthService { store: CredentialStore::new(), credential_writes: 0 }
    }

    /// The active credential, or `None` when nobody has logged in.
    pub fn try_get_credentials(&self) -> (r: Option<Credential>)
        requires
            self.wf(),
        ensures
            credential_view(r) == self@.credential,
            r matches Some(c) ==> c.wf(),
    {
        self.store.get_credential()
    }

    /// The bundle captured for `key`, or `None` when none ever was.
    pub fn get_endpoint_signature(&self, key: &str) -> (r: Option<ApiSignature>)
        requires
            self.wf(),
        ensures
            signature_view(r) == lookup(self@.signatures, key@),
    {
        self.store.get_signature(key)
    }

    /// Makes `credential` the active one, superseding the previous one whole.
    pub fn store_credentials(&mut self, credential: Credential)
        requires
            old(self).wf(),
            credential.wf(),
        ensures
            final(self).wf(),
            final(self)@ == with_credential(old(self)@, credential@),
    {
        self.store.put_credential(credential);
        if self.credential_writes < u64::MAX {
            self.credential_writes = self.credential_writes + 1;
        }
    }

    /// Stores `bundle` as the capture for `key`, replacing an earlier one.
    pub fn store_signature(&mut self, key: &str, bundle: ApiSignature)
        requires
            old(self).wf(),
        ensures
            final(self).wf(),
            final(self)@ == with_signature(old(self)@, key@, bundle@),
    {
        self.store.put_signature(key, bundle);
    }

    /// Whether someone is logged in, and the active jar with its values masked.
    pub fn session_info(&self) -> (r: SessionInfo)
        requires
            self.wf(),
        ensures
            r.logged_in == self@.credential is Some,
            match self@.credential {
                Some(c) => r.captured_at == Some(c.captured_at) && jar_view(r.cookies@) == masked_jar(c.cookies),
                None => r.captured_at is None && r.cookies@.len() == 0,
            },
    {
        match self.store.get_credential() {
            None => SessionInfo { logged_in: false, captured_at: None, cookies: Vec::new() },
            Some(c) => {
                let mut out: Vec<Cookie> = Vec::new();
                let mut i: usize = 0;
                while i < c.cookies.len()
                    invariant
                        i <= c.cookies@.len(),
                        jar_view(out@) == masked_jar(jar_view(c.cookies@.subrange(0, i as int))),
                    decreases c.cookies@.len() - i,
                {
                    let ghost before = out@;
                    let k = &c.cookies[i];
                    let m = Cookie { name: k.name.clone(), value: mask_value(k.value.as_str()) };
                    out.push(m);
                    proof {
                        assert(c.cookies@.subrange(0, i + 1) =~= c.cookies@.subrange(0, i as int).push(c.cookies@[i as int]));
                        assert(jar_view(out@) =~= jar_view(before).push(m@));
                        assert(masked_jar(jar_view(c.cookies@.subrange(0, i + 1))) =~= masked_jar(
                            jar_view(c.cookies@.subrange(0, i as int)),
                        ).push((k.name@, masked(k.value@))));
                    }
                    i = i + 1;
                }
                assert(c.cookies@.subrange(0, i as int) =~= c.cookies@);
                SessionInfo { logged_in: true, captured_at: Some(c.captured_at), cookies: out }
            },
        }
    }

    /// A copy of the service, for a writer to change while readers keep
    /// the one it was copied from.
    pub fn duplicate(&self) -> (r: AuthService)
        requires
            self.wf(),
        ensures
            r.wf(),
            r@ == self@,
    {
        AuthService { store: self.store.duplicate(), credential_writes: self.credential_writes }
    }

    /// The endpoint keys that have a capture, each once.
    pub fn signature_keys(&self) -> (r: Vec<String>)
        requires
            self.wf(),
        ensures
            forall|i: int| 0 <= i < r@.len() ==> self@.signatures.contains_key(#[trigger] r@[i]@),
            forall|k: Seq<char>| #[trigger] self@.signatures.contains_key(k) ==> exists|i: int|
                0 <= i < r@.len() && #[trigger] r@[i]@ == k,
            forall|i: int, j: int| 0 <= i < j < r@.len() ==> #[trigger] r@[i]@ != #[trigger] r@[j]@,
    {
        self.store.keys()
    }

    /// How many credentials have been written through this service.
    pub fn credential_writes(&self) -> (r: u64)
        ensures
            r == self@.credential_writes,
    {
        self.credential_writes
    }
}

} // verus!
