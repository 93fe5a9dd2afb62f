//! Whitelist store and authentication pipeline.
//!
//! A device identity is authorized when its one-way digest is one of the
//! digests the store was built from at startup; the same digest anonymizes
//! the identity before anything derived from it leaves the gateway.

use vstd::prelude::*;
use vstd::string::*;

verus! {

/// The 64-bit one-way hash of a string. Named but never defined here: callers
/// rely only on the result being a function of the characters alone.
pub uninterp spec fn hash64_of(s: Seq<char>) -> u64;

/// Relies on `std::collections::hash_map::DefaultHasher`: hashers created by
/// `DefaultHasher::new` are documented to be identical to one another, so the
/// finished hash depends on the hashed characters alone.
#[verifier::external_body]
fn hash64(s: &str) -> (r: u64)
    ensures
        r == hash64_of(s@),
{
    let mut hasher = std::collections::hash_map::DefaultHasher::new();
    std::hash::Hash::hash(s, &mut hasher);
    std::hash::Hasher::finish(&hasher)
}

/// The character of a single decimal digit.
pub open spec fn digit_char(d: nat) -> char {
    if d == 0 {
        '0'
    } else if d == 1 {
        '1'
    } else if d == 2 {
        '2'
    } else if d == 3 {
        '3'
    } else if d == 4 {
        '4'
    } else if d == 5 {
        '5'
    } else if d == 6 {
        '6'
    } else if d == 7 {
        '7'
    } else if d == 8 {
        '8'
    } else {
        '9'
    }
}

/// The decimal rendering of `n`, most significant digit first.
pub open spec fn dec_digits(n: nat) -> Seq<char>
    decreases n,
{
    if n < 10 {
        seq![digit_char(n)]
    } else {
        dec_digits(n / 10).push(digit_char(n % 10))
    }
}

fn digit_str(d: u64) -> (s: &'static str)
    requires
        d < 10,
    ensures
        s@ == seq![digit_char(d as nat)],
{
    proof {
        reveal_strlit("0");
        reveal_strlit("1");
        reveal_strlit("2");
        reveal_strlit("3");
        reveal_strlit("4");
        reveal_strlit("5");
        reveal_strlit("6");
        reveal_strlit("7");
        reveal_strlit("8");
        reveal_strlit("9");
    }
    if d == 0 {
        proof {
            assert("0"@ =~= seq![digit_char(d as nat)]);
        }
        "0"
    } else if d == 1 {
        proof {
            assert("1"@ =~= seq![digit_char(d as nat)]);
        }
        "1"
    } else if d == 2 {
        proof {
            assert("2"@ =~= seq![digit_char(d as nat)]);
        }
        "2"
    } else if d == 3 {
        proof {
            assert("3"@ =~= seq![digit_char(d as nat)]);
        }
        "3"
    } else if d == 4 {
        proof {
            assert("4"@ =~= seq![digit_char(d as nat)]);
        }
        "4"
    } else if d == 5 {
        proof {
            assert("5"@ =~= seq![digit_char(d as nat)]);
        }
        "5"
    } else if d == 6 {
        proof {
            assert("6"@ =~= seq![digit_char(d as nat)]);
        }
        "6"
    } else if d == 7 {
        proof {
            assert("7"@ =~= seq![digit_char(d as nat)]);
        }
        "7"
    } else if d == 8 {
        proof {
            assert("8"@ =~= seq![digit_char(d as nat)]);
        }
        "8"
    } else {
        proof {
            assert("9"@ =~= seq![digit_char(d as nat)]);
        }
        "9"
    }
}

/// Renders `n` in decimal.
pub fn u64_to_dec(n: u64) -> (s: String)
    ensures
        s@ == dec_digits(n as nat),
    decreases n,
{
    let last = digit_str(n % 10);
    if n < 10 {
        String::from_str(last)
    } else {
        proof {
            assert(n / 10 < n) by (nonlinear_arith)
                requires
                    n >= 10,
            ;
        }
        let prefix = u64_to_dec(n / 10);
        let s = prefix.concat(last);
        proof {
            assert(dec_digits((n / 10) as nat) + seq![digit_char((n % 10) as nat)] =~= dec_digits(
                (n / 10) as nat,
            ).push(digit_char((n % 10) as nat)));
        }
        s
    }
}

/// The anonymizing digest of a raw identity: the decimal rendering of its
/// one-way hash and, in the corner case where that rendering would spell the
/// identity itself, one extra marker character, so that a digest never echoes
/// the identity it stands for.
pub open spec fn digest_seq(s: Seq<char>) -> Seq<char> {
    let d = dec_digits(hash64_of(s) as nat);
    if d == s {
        d.push('#')
    } else {
        d
    }
}

/// A digest never equals the identity it was computed from.
pub proof fn lemma_digest_ne(s: Seq<char>)
    ensures
        digest_seq(s) != s,
{
    let d = dec_digits(hash64_of(s) as nat);
    if d == s {
        assert(d.push('#').len() == s.len() + 1);
    }
}

/// Digests a raw device identity with the gateway's one-way hash; the result
/// both tests whitelist membership and anonymizes the identity downstream.
pub fn calculate_hash(device: String) -> (r: String)
    ensures
        r@ == digest_seq(device@),
{
    let h = hash64(device.as_str());
    let d = u64_to_dec(h);
    if d == device {
        proof {
            reveal_strlit("#");
            assert(d@ + "#"@ =~= d@.push('#'));
        }
        d.concat("#")
    } else {
        d
    }
}

/// The set of authorized identities, held in hashed form only.
pub struct Keystore {
    pub api_keys_author: Vec<String>,
}

/// The whitelist store: built once at startup from the configured raw device
/// identities, immutable thereafter.
pub struct KeyManager {
    pub keystore: Keystore,
}

impl KeyManager {
    /// The digests the store holds, in insertion order.
    pub open spec fn digests(&self) -> Seq<Seq<char>> {
        self.keystore.api_keys_author@.map(|i: int, s: String| s@)
    }

    /// The store holds exactly the digests of `ids`, in order.
    pub open spec fn built_from(&self, ids: Seq<String>) -> bool {
        &&& self.digests().len() == ids.len()
        &&& forall|i: int| 0 <= i < ids.len() ==> self.digests()[i] == digest_seq(ids[i]@)
    }

    /// Some held digest equals `d`.
    pub open spec fn has_digest(&self, d: Seq<char>) -> bool {
        exists|i: int| 0 <= i < self.digests().len() && self.digests()[i] == d
    }

    /// The identity's digest matches a whitelisted identity's digest.
    pub open spec fn spec_authorized(&self, device: Seq<char>) -> bool {
        self.has_digest(digest_seq(device))
    }

    /// Builds the store by digesting every configured identity.
    pub fn new(whitelisted_device_ids: Vec<String>) -> (km: KeyManager)
        ensures
            km.built_from(whitelisted_device_ids@),
    {
        let mut digests: Vec<String> = Vec::new();
        let n = whitelisted_device_ids.len();
        let mut i: usize = 0;
        while i < n
            invariant
                i <= n,
                n == whitelisted_device_ids@.len(),
                digests@.len() == i,
                forall|j: int|
                    0 <= j < i ==> digests@[j]@ == digest_seq(whitelisted_device_ids@[j]@),
            decreases n - i,
        {
            let d = calculate_hash(whitelisted_device_ids[i].clone());
            digests.push(d);
            i += 1;
        }
        KeyManager { keystore: Keystore { api_keys_author: digests } }
    }

    /// Whether the store holds the digest `d`.
    fn contains_digest(&self, d: &String) -> (b: bool)
        ensures
            b == self.has_digest(d@),
    {
        let n = self.keystore.api_keys_author.len();
        let mut i: usize = 0;
        while i < n
            invariant
                i <= n,
                n == self.keystore.api_keys_author@.len(),
                forall|j: int| 0 <= j < i ==> self.digests()[j] != d@,
            decreases n - i,
        {
            let entry = &self.keystore.api_keys_author[i];
            if entry.eq(d) {
                proof {
                    assert(self.digests()[i as int] == d@);
                }
                return true;
            }
            i += 1;
        }
        false
    }

    /// Membership test: digests the raw identity with the same function the
    /// store was built with, then looks the digest up.
    pub fn contains(&self, raw_identity: &String) -> (b: bool)
        ensures
            b == self.spec_authorized(raw_identity@),
    {
        let d = calculate_hash(raw_identity.clone());
        self.contains_digest(&d)
    }

    /// The anonymizing digest for a raw identity; the same function the store
    /// was built with, so membership testing and anonymization agree.
    pub fn digest(&self, raw_identity: String) -> (r: String)
        ensures
            r@ == digest_seq(raw_identity@),
    {
        calculate_hash(raw_identity)
    }
}

/// The decision of the authentication pipeline.
#[derive(Clone, Debug, PartialEq)]
pub enum AuthOutcome {
    /// The identity is whitelisted; carries the digest to forward downstream,
    /// so that callers never re-derive it.
    Authorized(String),
    /// An identity was supplied but is not whitelisted.
    Unauthorized,
    /// No identity was supplied at all.
    Missing,
}

/// Decides authorized / unauthorized / missing for a raw identity, and hands
/// the anonymized identity to forward on success.
pub fn authenticate(identity: Option<&String>, keystore: &KeyManager) -> (r: AuthOutcome)
    ensures
        identity is None ==> r is Missing,
        identity matches Some(id) ==> {
            &&& keystore.spec_authorized(id@) ==> (r matches AuthOutcome::Authorized(d) && d@
                == digest_seq(id@))
            &&& !keystore.spec_authorized(id@) ==> r is Unauthorized
        },
{
    match identity {
        None => AuthOutcome::Missing,
        Some(id) => {
            let d = calculate_hash(id.clone());
            if keystore.contains_digest(&d) {
                AuthOutcome::Authorized(d)
            } else {
                AuthOutcome::Unauthorized
            }
        },
    }
}

/// Digesting is deterministic — the digest of an identity is one fixed value,
/// however often it is recomputed — and that value never equals the raw
/// identity itself.
pub proof fn lemma_digest_deterministic(s: Seq<char>)
    ensures
        digest_seq(s) == digest_seq(s),
        digest_seq(s) != s,
{
    lemma_digest_ne(s);
}

/// An identity whose digest matches no whitelisted identity's digest is never
/// authorized, whatever else the request carries. (An identity that is in the
/// whitelist always fails the premise, since its digest matches its own.)
pub proof fn lemma_unlisted_is_unauthorized(km: KeyManager, ids: Seq<String>, device: Seq<char>)
    requires
        km.built_from(ids),
        forall|i: int| 0 <= i < ids.len() ==> digest_seq(device) != digest_seq(ids[i]@),
    ensures
        !km.spec_authorized(device),
{
}

/// Privacy of forwarded identities: the digest handed out for an authorized
/// identity is never one of the raw whitelisted identities, provided no
/// whitelisted identity is the digest of another whitelisted identity.
pub proof fn lemma_forwarded_is_never_raw(
    km: KeyManager,
    ids: Seq<String>,
    device: Seq<char>,
    j: int,
)
    requires
        km.built_from(ids),
        km.spec_authorized(device),
        forall|i: int, k: int|
            0 <= i < ids.len() && 0 <= k < ids.len() && i != k ==> digest_seq(ids[i]@) != ids[k]@,
        0 <= j < ids.len(),
    ensures
        digest_seq(device) != ids[j]@,
{
    let i = choose|i: int| 0 <= i < km.digests().len() && km.digests()[i] == digest_seq(device);
    assert(digest_seq(device) == digest_seq(ids[i]@));
    if i == j {
        lemma_digest_ne(ids[j]@);
    }
}

} // verus!
