//! The authorization code store: a short-lived, single-use, in-memory
//! registry of pending authorization grants, keyed by opaque code.
//!
//! The store is modelled as a map from code strings to the data recorded at
//! issuance.  A code is consumed (removed) by exactly one successful
//! exchange; it is also removed when an exchange finds it expired, and by the
//! periodic cleanup sweep.  Callers serialize concurrent access (a lock
//! around the store); every operation here is sequential.

use vstd::prelude::*;
use crate::error::OAuthError;
use crate::jwt::{mint, jwt_encoding, jwt_payload, ClaimsData};
use crate::pkce::{pkce_matches, verify_pkce};
use crate::text::str_eq;

verus! {

/// A pending authorization grant, recorded when the authorization endpoint
/// issues a code and consulted when the token endpoint exchanges it.
#[derive(Clone, Debug)]
pub struct AuthorizationCode {
    /// The opaque, unguessable code handed to the client.
    pub code: String,
    /// The client identifier the code is bound to.
    pub client_id: String,
    /// The redirect URI the code is bound to.
    pub redirect_uri: String,
    /// The scopes granted to the client.
    pub scope: String,
    /// The PKCE challenge recorded at authorization time.
    pub code_challenge: String,
    /// The PKCE challenge method (`S256` or `plain`).
    pub code_challenge_method: String,
    /// The authenticated user the grant was approved for.
    pub user_id: String,
    /// Issuance time as a Unix timestamp in seconds.
    pub created_at: i64,
    /// Expiry deadline: issuance time plus [`crate::AUTH_CODE_TTL_SECONDS`].
    pub expires_at: i64,
}

/// Mathematical model of [`AuthorizationCode`].
pub struct CodeData {
    pub code: Seq<char>,
    pub client_id: Seq<char>,
    pub redirect_uri: Seq<char>,
    pub scope: Seq<char>,
    pub code_challenge: Seq<char>,
    pub code_challenge_method: Seq<char>,
    pub user_id: Seq<char>,
    pub created_at: int,
    pub expires_at: int,
}

impl View for AuthorizationCode {
    type V = CodeData;

    open spec fn view(&self) -> CodeData {
        CodeData {
            code: self.code@,
            client_id: self.client_id@,
            redirect_uri: self.redirect_uri@,
            scope: self.scope@,
            code_challenge: self.code_challenge@,
            code_challenge_method: self.code_challenge_method@,
            user_id: self.user_id@,
            created_at: self.created_at as int,
            expires_at: self.expires_at as int,
        }
    }
}

/// No two entries carry the same code.
spec fn seq_inv(s: Seq<AuthorizationCode>) -> bool {
    forall|i: int, j: int| 0 <= i < j < s.len() ==> s[i].code@ != s[j].code@
}

/// The map a sequence of entries stands for, keyed by code.
spec fn map_of(s: Seq<AuthorizationCode>) -> Map<Seq<char>, CodeData> {
    Map::new(
        |c: Seq<char>| exists|i: int| 0 <= i < s.len() && s[i].code@ == c,
        |c: Seq<char>| s[choose|i: int| 0 <= i < s.len() && s[i].code@ == c]@,
    )
}

proof fn lemma_map_of_found(s: Seq<AuthorizationCode>, i: int)
    requires
        seq_inv(s),
        0 <= i < s.len(),
    ensures
        map_of(s).dom().contains(s[i].code@),
        map_of(s)[s[i].code@] == s[i]@,
{
    let c = s[i].code@;
    assert(0 <= i < s.len() && s[i].code@ == c);
    let j = choose|k: int| 0 <= k < s.len() && s[k].code@ == c;
    assert(0 <= j < s.len() && s[j].code@ == c);
    if i < j {
        assert(s[i].code@ != s[j].code@);
    }
    if j < i {
        assert(s[j].code@ != s[i].code@);
    }
}

proof fn lemma_map_of_absent(s: Seq<AuthorizationCode>, c: Seq<char>)
    requires
        forall|i: int| 0 <= i < s.len() ==> s[i].code@ != c,
    ensures
        !map_of(s).dom().contains(c),
{
}

proof fn lemma_map_of_push(s: Seq<AuthorizationCode>, e: AuthorizationCode)
    requires
        seq_inv(s),
        forall|i: int| 0 <= i < s.len() ==> s[i].code@ != e.code@,
    ensures
        seq_inv(s.push(e)),
        map_of(s.push(e)) == map_of(s).insert(e.code@, e@),
{
    let s2 = s.push(e);
    let m1 = map_of(s2);
    let m2 = map_of(s).insert(e.code@, e@);
    assert forall|i: int, j: int| 0 <= i < j < s2.len() implies s2[i].code@ != s2[j].code@ by {
        if j < s.len() {
            assert(s[i].code@ != s[j].code@);
        } else {
            assert(s[i].code@ != e.code@);
        }
    }
    assert forall|c: Seq<char>| #[trigger] m1.dom().contains(c) implies m2.dom().contains(c) by {
        let i = choose|i: int| 0 <= i < s2.len() && s2[i].code@ == c;
        if i < s.len() {
            assert(0 <= i < s.len() && s[i].code@ == c);
        } else {
            assert(c == e.code@);
        }
    }
    assert forall|c: Seq<char>| #[trigger] m2.dom().contains(c) implies m1.dom().contains(c) by {
        if c == e.code@ {
            assert(0 <= s.len() < s2.len() && s2[s.len() as int].code@ == c);
        } else {
            let i = choose|i: int| 0 <= i < s.len() && s[i].code@ == c;
            assert(0 <= i < s2.len() && s2[i].code@ == c);
        }
    }
    assert forall|c: Seq<char>| #[trigger] m1.dom().contains(c) implies m1[c] == m2[c] by {
        if c == e.code@ {
            lemma_map_of_found(s2, s.len() as int);
        } else {
            let i = choose|i: int| 0 <= i < s2.len() && s2[i].code@ == c;
            assert(i < s.len());
            lemma_map_of_found(s2, i);
            lemma_map_of_found(s, i);
        }
    }
    assert(m1 =~= m2);
}

proof fn lemma_map_of_remove(s: Seq<AuthorizationCode>, i: int)
    requires
        seq_inv(s),
        0 <= i < s.len(),
    ensures
        seq_inv(s.remove(i)),
        map_of(s.remove(i)) == map_of(s).remove(s[i].code@),
{
    let c = s[i].code@;
    let s2 = s.remove(i);
    let m1 = map_of(s2);
    let m2 = map_of(s).remove(c);
    assert forall|p: int, q: int| 0 <= p < q < s2.len() implies s2[p].code@ != s2[q].code@ by {
        let p0: int = if p < i { p } else { p + 1 };
        let q0: int = if q < i { q } else { q + 1 };
        assert(s2[p] == s[p0]);
        assert(s2[q] == s[q0]);
        assert(s[p0].code@ != s[q0].code@);
    }
    assert forall|k: Seq<char>| #[trigger] m1.dom().contains(k) implies m2.dom().contains(k) by {
        let p = choose|p: int| 0 <= p < s2.len() && s2[p].code@ == k;
        let p0: int = if p < i { p } else { p + 1 };
        assert(s2[p] == s[p0]);
        assert(0 <= p0 < s.len() && s[p0].code@ == k);
        lemma_map_of_found(s, p0);
        lemma_map_of_found(s, i);
        if p0 < i {
            assert(s[p0].code@ != s[i].code@);
        }
        if i < p0 {
            assert(s[i].code@ != s[p0].code@);
        }
    }
    assert forall|k: Seq<char>| #[trigger] m2.dom().contains(k) implies m1.dom().contains(k) by {
        let p0 = choose|p: int| 0 <= p < s.len() && s[p].code@ == k;
        assert(k != c);
        if p0 < i {
            assert(s2[p0] == s[p0]);
            assert(0 <= p0 < s2.len() && s2[p0].code@ == k);
        } else {
            assert(p0 != i);
            assert(s2[p0 - 1] == s[p0]);
            assert(0 <= p0 - 1 < s2.len() && s2[p0 - 1].code@ == k);
        }
    }
    assert forall|k: Seq<char>| #[trigger] m1.dom().contains(k) implies m1[k] == m2[k] by {
        let p = choose|p: int| 0 <= p < s2.len() && s2[p].code@ == k;
        let p0: int = if p < i { p } else { p + 1 };
        assert(s2[p] == s[p0]);
        lemma_map_of_found(s2, p);
        lemma_map_of_found(s, p0);
        if p0 < i {
            assert(s[p0].code@ != s[i].code@);
        }
        if i < p0 {
            assert(s[i].code@ != s[p0].code@);
        }
    }
    assert(m1 =~= m2);
}

/// The entries of `m` that are still live at `now`: those whose expiry
/// deadline lies strictly in the future.
pub open spec fn live_codes(m: Map<Seq<char>, CodeData>, now: int) -> Map<Seq<char>, CodeData> {
    Map::new(|c: Seq<char>| m.dom().contains(c) && m[c].expires_at > now, |c: Seq<char>| m[c])
}

proof fn lemma_live_remove_dead(m: Map<Seq<char>, CodeData>, c: Seq<char>, now: int)
    requires
        m.dom().contains(c),
        m[c].expires_at <= now,
    ensures
        live_codes(m.remove(c), now) == live_codes(m, now),
{
    assert(live_codes(m.remove(c), now) =~= live_codes(m, now));
}

proof fn lemma_live_of_all_live(m: Map<Seq<char>, CodeData>, now: int)
    requires
        forall|c: Seq<char>| #[trigger] m.dom().contains(c) ==> m[c].expires_at > now,
    ensures
        live_codes(m, now) == m,
{
    assert(live_codes(m, now) =~= m);
}

/// Index of the entry carrying `code`, if any.
fn find_code_index(codes: &Vec<AuthorizationCode>, code: &str) -> (r: Option<usize>)
    ensures
        match r {
            Some(i) => 0 <= i < codes@.len() && codes@[i as int].code@ == code@,
            None => forall|i: int| 0 <= i < codes@.len() ==> codes@[i].code@ != code@,
        },
{
    let mut i: usize = 0;
    while i < codes.len()
        invariant
            0 <= i <= codes@.len(),
            forall|k: int| 0 <= k < i ==> codes@[k].code@ != code@,
        decreases codes@.len() - i,
    {
        if str_eq(codes[i].code.as_str(), code) {
            return Some(i);
        }
        i = i + 1;
    }
    None
}

/// The outcome an exchange of `code` against store contents `m` is obliged
/// to produce: the recorded grant when the code is known, unexpired at
/// `now`, bound to the presented client and redirect URI, and matched by the
/// PKCE verifier; otherwise the specific error, checked in this order.
pub open spec fn exchange_outcome(
    m: Map<Seq<char>, CodeData>,
    code: Seq<char>,
    client_id: Seq<char>,
    code_verifier: Seq<char>,
    redirect_uri: Seq<char>,
    now: int,
) -> Result<CodeData, OAuthError> {
    if !m.dom().contains(code) {
        Err(OAuthError::InvalidGrant)
    } else {
        let entry = m[code];
        if now > entry.expires_at {
            Err(OAuthError::Expired)
        } else if entry.client_id != client_id {
            Err(OAuthError::ClientMismatch)
        } else if entry.redirect_uri != redirect_uri {
            Err(OAuthError::RedirectMismatch)
        } else if !pkce_matches(code_verifier, entry.code_challenge, entry.code_challenge_method) {
            Err(OAuthError::InvalidVerifier)
        } else {
            Ok(entry)
        }
    }
}

/// The store contents after an exchange: the code is consumed on success,
/// purged when found expired, and kept on every other failure.
pub open spec fn store_after_exchange(
    m: Map<Seq<char>, CodeData>,
    code: Seq<char>,
    client_id: Seq<char>,
    code_verifier: Seq<char>,
    redirect_uri: Seq<char>,
    now: int,
) -> Map<Seq<char>, CodeData> {
    match exchange_outcome(m, code, client_id, code_verifier, redirect_uri, now) {
        Ok(_) => m.remove(code),
        Err(e) => if e == OAuthError::Expired {
            m.remove(code)
        } else {
            m
        },
    }
}

/// The registry of pending authorization grants.  Its model is a map from
/// code to the data recorded at issuance.
pub struct OAuthState {
    codes: Vec<AuthorizationCode>,
}

impl View for OAuthState {
    type V = Map<Seq<char>, CodeData>;

    closed spec fn view(&self) -> Map<Seq<char>, CodeData> {
        map_of(self.codes@)
    }
}

impl OAuthState {
    #[verifier::type_invariant]
    spec fn inv(self) -> bool {
        seq_inv(self.codes@)
    }

    /// An empty store.
    pub fn new() -> (r: OAuthState)
        ensures
            r@ == Map::<Seq<char>, CodeData>::empty(),
    {
        let r = OAuthState { codes: Vec::new() };
        proof {
            assert(r@ =~= Map::<Seq<char>, CodeData>::empty());
        }
        r
    }

    /// Issue a fresh authorization code bound to the given client, redirect
    /// URI, scopes, PKCE challenge and authenticated user, expiring
    /// [`crate::AUTH_CODE_TTL_SECONDS`] seconds after `now`.
    pub fn create_authorization_code(
        &mut self,
        client_id: String,
        redirect_uri: String,
        scope: String,
        code_challenge: String,
        code_challenge_method: String,
        user_id: String,
        now: i64,
    ) -> (code: String)
        requires
            now + crate::AUTH_CODE_TTL_SECONDS <= i64::MAX,
        ensures
            code@.len() == 36,
            final(self)@ == old(self)@.insert(
                code@,
                CodeData {
                    code: code@,
                    client_id: client_id@,
                    redirect_uri: redirect_uri@,
                    scope: scope@,
                    code_challenge: code_challenge@,
                    code_challenge_method: code_challenge_method@,
                    user_id: user_id@,
                    created_at: now as int,
                    expires_at: now + crate::AUTH_CODE_TTL_SECONDS,
                },
            ),
    {
        proof {
            use_type_invariant(&*self);
        }
        let code = crate::fresh_uuid();
        let entry = AuthorizationCode {
            code: code.clone(),
            client_id,
            redirect_uri,
            scope,
            code_challenge,
            code_challenge_method,
            user_id,
            created_at: now,
            expires_at: now + crate::AUTH_CODE_TTL_SECONDS,
        };
        let mut codes: Vec<AuthorizationCode> = Vec::new();
        core::mem::swap(&mut codes, &mut self.codes);
        let ghost s0 = codes@;
        match find_code_index(&codes, code.as_str()) {
            Some(i) => {
                let _ = codes.remove(i);
                proof {
                    lemma_map_of_remove(s0, i as int);
                    assert forall|k: int| 0 <= k < codes@.len() implies codes@[k].code@
                        != entry.code@ by {
                        let k0: int = if k < i { k } else { k + 1 };
                        assert(codes@[k] == s0[k0]);
                        if k0 < i {
                            assert(s0[k0].code@ != s0[i as int].code@);
                        }
                        if (i as int) < k0 {
                            assert(s0[i as int].code@ != s0[k0].code@);
                        }
                    }
                    lemma_map_of_push(codes@, entry);
                    assert(map_of(codes@.push(entry)) =~= map_of(s0).insert(entry.code@, entry@));
                }
            },
            None => {
                proof {
                    lemma_map_of_push(codes@, entry);
                }
            },
        }
        codes.push(entry);
        self.codes = codes;
        code
    }

    /// Exchange an authorization code for a signed access token.
    ///
    /// Succeeds exactly when the code is known, unexpired at `now`, bound to
    /// `client_id` and `redirect_uri`, and matched by `code_verifier`; the
    /// code is then consumed, so a second exchange of it fails.  A code found
    /// expired is purged; every other failure leaves the store unchanged.
    pub fn exchange_code(
        &mut self,
        code: &str,
        client_id: &str,
        code_verifier: &str,
        redirect_uri: &str,
        now: i64,
        jwt_secret: &str,
        issuer: &str,
    ) -> (r: Result<(String, i64), OAuthError>)
        requires
            now + crate::ACCESS_TOKEN_TTL_SECONDS <= i64::MAX,
        ensures
            final(self)@ == store_after_exchange(
                old(self)@,
                code@,
                client_id@,
                code_verifier@,
                redirect_uri@,
                now as int,
            ),
            match r {
                Ok(token) => exchange_outcome(
                    old(self)@,
                    code@,
                    client_id@,
                    code_verifier@,
                    redirect_uri@,
                    now as int,
                ) matches Ok(entry) && token.0@ == jwt_encoding(
                    entry.user_id,
                    issuer@,
                    crate::spec_token_audience(),
                    now + crate::ACCESS_TOKEN_TTL_SECONDS,
                    now as int,
                    entry.scope,
                    jwt_secret@,
                ) && jwt_payload(token.0@, jwt_secret@) == Some(
                    ClaimsData {
                        sub: entry.user_id,
                        iss: issuer@,
                        aud: crate::spec_token_audience(),
                        exp: now + crate::ACCESS_TOKEN_TTL_SECONDS,
                        iat: now as int,
                        scope: entry.scope,
                    },
                ) && token.1 == crate::ACCESS_TOKEN_TTL_SECONDS,
                Err(e) => exchange_outcome(
                    old(self)@,
                    code@,
                    client_id@,
                    code_verifier@,
                    redirect_uri@,
                    now as int,
                ) == Err::<CodeData, OAuthError>(e),
            },
    {
        proof {
            use_type_invariant(&*self);
        }
        let mut codes: Vec<AuthorizationCode> = Vec::new();
        core::mem::swap(&mut codes, &mut self.codes);
        let r = exchange_on(&mut codes, code, client_id, code_verifier, redirect_uri, now, jwt_secret, issuer);
        self.codes = codes;
        r
    }

    /// Remove every entry whose expiry deadline has been reached at `now`.
    /// This bounds memory; expired entries are already rejected by
    /// [`OAuthState::exchange_code`].
    pub fn cleanup_expired(&mut self, now: i64)
        ensures
            final(self)@ == live_codes(old(self)@, now as int),
    {
        proof {
            use_type_invariant(&*self);
        }
        let mut codes: Vec<AuthorizationCode> = Vec::new();
        core::mem::swap(&mut codes, &mut self.codes);
        let ghost m0 = map_of(codes@);
        let mut i: usize = codes.len();
        while i > 0
            invariant
                0 <= i <= codes@.len(),
                seq_inv(codes@),
                live_codes(m0, now as int) == live_codes(map_of(codes@), now as int),
                forall|j: int| i <= j < codes@.len() ==> codes@[j].expires_at > now,
            decreases i,
        {
            i = i - 1;
            if codes[i].expires_at <= now {
                let ghost s_before = codes@;
                let removed = codes.remove(i);
                proof {
                    lemma_map_of_remove(s_before, i as int);
                    lemma_map_of_found(s_before, i as int);
                    lemma_live_remove_dead(map_of(s_before), removed.code@, now as int);
                    assert forall|j: int| i <= j < codes@.len() implies codes@[j].expires_at
                        > now by {
                        assert(codes@[j] == s_before[j + 1]);
                    }
                }
            }
        }
        proof {
            assert forall|c: Seq<char>| #[trigger]
                map_of(codes@).dom().contains(c) implies map_of(codes@)[c].expires_at > now by {
                let k = choose|k: int| 0 <= k < codes@.len() && codes@[k].code@ == c;
                lemma_map_of_found(codes@, k);
            }
            lemma_live_of_all_live(map_of(codes@), now as int);
        }
        self.codes = codes;
    }
}

/// The body of [`OAuthState::exchange_code`], working on the bare entries.
fn exchange_on(
    codes: &mut Vec<AuthorizationCode>,
    code: &str,
    client_id: &str,
    code_verifier: &str,
    redirect_uri: &str,
    now: i64,
    jwt_secret: &str,
    issuer: &str,
) -> (r: Result<(String, i64), OAuthError>)
    requires
        seq_inv(old(codes)@),
        now + crate::ACCESS_TOKEN_TTL_SECONDS <= i64::MAX,
    ensures
        seq_inv(final(codes)@),
        map_of(final(codes)@) == store_after_exchange(
            map_of(old(codes)@),
            code@,
            client_id@,
            code_verifier@,
            redirect_uri@,
            now as int,
        ),
        match r {
            Ok(token) => exchange_outcome(
                map_of(old(codes)@),
                code@,
                client_id@,
                code_verifier@,
                redirect_uri@,
                now as int,
            ) matches Ok(entry) && token.0@ == jwt_encoding(
                entry.user_id,
                issuer@,
                crate::spec_token_audience(),
                now + crate::ACCESS_TOKEN_TTL_SECONDS,
                now as int,
                entry.scope,
                jwt_secret@,
            ) && jwt_payload(token.0@, jwt_secret@) == Some(
                ClaimsData {
                    sub: entry.user_id,
                    iss: issuer@,
                    aud: crate::spec_token_audience(),
                    exp: now + crate::ACCESS_TOKEN_TTL_SECONDS,
                    iat: now as int,
                    scope: entry.scope,
                },
            ) && token.1 == crate::ACCESS_TOKEN_TTL_SECONDS,
            Err(e) => exchange_outcome(
                map_of(old(codes)@),
                code@,
                client_id@,
                code_verifier@,
                redirect_uri@,
                now as int,
            ) == Err::<CodeData, OAuthError>(e),
        },
{
    let ghost s0 = codes@;
    match find_code_index(codes, code) {
        None => {
            proof {
                lemma_map_of_absent(s0, code@);
            }
            Err(OAuthError::InvalidGrant)
        },
        Some(i) => {
            proof {
                lemma_map_of_found(s0, i as int);
            }
            if now > codes[i].expires_at {
                let _ = codes.remove(i);
                proof {
                    lemma_map_of_remove(s0, i as int);
                }
                Err(OAuthError::Expired)
            } else if !str_eq(codes[i].client_id.as_str(), client_id) {
                Err(OAuthError::ClientMismatch)
            } else if !str_eq(codes[i].redirect_uri.as_str(), redirect_uri) {
                Err(OAuthError::RedirectMismatch)
            } else if !verify_pkce(
                code_verifier,
                codes[i].code_challenge.as_str(),
                codes[i].code_challenge_method.as_str(),
            ) {
                Err(OAuthError::InvalidVerifier)
            } else {
                let entry = codes.remove(i);
                proof {
                    lemma_map_of_remove(s0, i as int);
                }
                let (token, expires_in) = mint(
                    entry.user_id.as_str(),
                    issuer,
                    crate::token_audience(),
                    entry.scope.as_str(),
                    now,
                    jwt_secret,
                );
                Ok((token, expires_in))
            }
        },
    }
}

/// Law (success owed): exchange of a recorded, unexpired code succeeds
/// whenever the presented client identifier and redirect URI equal the
/// recorded ones and the verifier matches the recorded challenge — and
/// consumes the code.
pub proof fn lemma_recorded_code_exchanges(
    m: Map<Seq<char>, CodeData>,
    code: Seq<char>,
    client_id: Seq<char>,
    code_verifier: Seq<char>,
    redirect_uri: Seq<char>,
    now: int,
)
    requires
        m.dom().contains(code),
        now <= m[code].expires_at,
        m[code].client_id == client_id,
        m[code].redirect_uri == redirect_uri,
        pkce_matches(code_verifier, m[code].code_challenge, m[code].code_challenge_method),
    ensures
        exchange_outcome(m, code, client_id, code_verifier, redirect_uri, now) == Ok::<
            CodeData,
            OAuthError,
        >(m[code]),
        store_after_exchange(m, code, client_id, code_verifier, redirect_uri, now) == m.remove(
            code,
        ),
{
}

/// Law (single use): once an exchange of a code succeeds, every further
/// exchange of the same code, with any parameters whatsoever, fails with
/// `invalid_grant`.
pub proof fn lemma_code_single_use(
    m: Map<Seq<char>, CodeData>,
    code: Seq<char>,
    client_id: Seq<char>,
    code_verifier: Seq<char>,
    redirect_uri: Seq<char>,
    now: int,
    client_id2: Seq<char>,
    code_verifier2: Seq<char>,
    redirect_uri2: Seq<char>,
    now2: int,
)
    requires
        exchange_outcome(m, code, client_id, code_verifier, redirect_uri, now) is Ok,
    ensures
        exchange_outcome(
            store_after_exchange(m, code, client_id, code_verifier, redirect_uri, now),
            code,
            client_id2,
            code_verifier2,
            redirect_uri2,
            now2,
        ) == Err::<CodeData, OAuthError>(OAuthError::InvalidGrant),
{
}

/// Law (expiry): a code past its deadline always fails exchange, even if
/// never previously used, and is purged from the store.
pub proof fn lemma_expired_code_fails(
    m: Map<Seq<char>, CodeData>,
    code: Seq<char>,
    client_id: Seq<char>,
    code_verifier: Seq<char>,
    redirect_uri: Seq<char>,
    now: int,
)
    requires
        m.dom().contains(code),
        now > m[code].expires_at,
    ensures
        exchange_outcome(m, code, client_id, code_verifier, redirect_uri, now) == Err::<
            CodeData,
            OAuthError,
        >(OAuthError::Expired),
        store_after_exchange(m, code, client_id, code_verifier, redirect_uri, now) == m.remove(
            code,
        ),
{
}

/// Law (binding): exchange of a known, unexpired code fails when the client
/// identifier differs from the one recorded at issuance, or when it matches
/// but the redirect URI differs — whatever the verifier, so in particular
/// even with the correct one — and the code stays in the store.
pub proof fn lemma_exchange_binding(
    m: Map<Seq<char>, CodeData>,
    code: Seq<char>,
    client_id: Seq<char>,
    code_verifier: Seq<char>,
    redirect_uri: Seq<char>,
    now: int,
)
    requires
        m.dom().contains(code),
        now <= m[code].expires_at,
    ensures
        client_id != m[code].client_id ==> exchange_outcome(
            m,
            code,
            client_id,
            code_verifier,
            redirect_uri,
            now,
        ) == Err::<CodeData, OAuthError>(OAuthError::ClientMismatch),
        client_id == m[code].client_id && redirect_uri != m[code].redirect_uri
            ==> exchange_outcome(m, code, client_id, code_verifier, redirect_uri, now) == Err::<
            CodeData,
            OAuthError,
        >(OAuthError::RedirectMismatch),
        client_id != m[code].client_id || redirect_uri != m[code].redirect_uri
            ==> store_after_exchange(m, code, client_id, code_verifier, redirect_uri, now) == m,
{
}

} // verus!
