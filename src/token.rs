//! OAuth2 token cache with single-flight refresh.
//!
//! The cache decides, for each caller that needs a token, whether to use the cached one,
//! to perform the refresh itself, or to wait for the refresh already under way. Only the
//! first caller that finds the token stale is told to refresh; the rest wait and then find
//! the refreshed token.
use vstd::prelude::*;
use crate::error::ClientError;
use crate::params::{EntryView, Params};

verus! {

/// A token is refreshed when it has less than this many seconds left.
pub const REFRESH_MARGIN_SECS: u64 = 60;

/// What a caller asking for a token must do.
#[derive(Debug)]
pub enum TokenDecision {
    /// The cached token is valid: use it.
    Use(String),
    /// Perform the refresh exchange and report its outcome with `complete_refresh`.
    Refresh,
    /// Another caller is refreshing: wait for it, then ask again.
    Wait,
}

/// What the token endpoint granted.
pub struct TokenGrant {
    pub access_token: String,
    /// Lifetime of the access token in seconds.
    pub expires_in: u64,
    /// A new refresh token, when the service rotates it.
    pub refresh_token: Option<String>,
}

/// Credentials and the cached access token.
pub struct TokenCache {
    client_id: String,
    client_secret: String,
    refresh_token: String,
    access: Option<String>,
    expires_at: u64,
    refreshing: bool,
}

/// Expiry instant of a token granted at `now` for `expires_in` seconds, capped at the
/// largest representable instant.
pub open spec fn expiry_spec(now: nat, expires_in: nat) -> nat {
    if now + expires_in > u64::MAX {
        u64::MAX as nat
    } else {
        now + expires_in
    }
}

impl TokenCache {
    /// The cached access token.
    pub closed spec fn token(&self) -> Option<Seq<char>> {
        match self.access {
            Some(t) => Some(t@),
            None => None,
        }
    }

    /// The instant (seconds) at which the cached token expires.
    pub closed spec fn expiry(&self) -> nat {
        self.expires_at as nat
    }

    /// Whether a refresh is under way.
    pub closed spec fn is_refreshing(&self) -> bool {
        self.refreshing
    }

    /// The refresh token.
    pub closed spec fn refresh_secret(&self) -> Seq<char> {
        self.refresh_token@
    }

    /// The client id.
    pub closed spec fn client(&self) -> Seq<char> {
        self.client_id@
    }

    /// The client secret.
    pub closed spec fn secret(&self) -> Seq<char> {
        self.client_secret@
    }

    /// A token is present and more than the margin away from expiry.
    pub open spec fn fresh_at(&self, now: nat) -> bool {
        self.token() is Some && now + REFRESH_MARGIN_SECS < self.expiry()
    }

    /// Whether a request at `now` is told to refresh.
    pub open spec fn starts_refresh(&self, now: nat) -> bool {
        !self.fresh_at(now) && !self.is_refreshing()
    }

    /// The cache with a refresh marked as under way.
    pub closed spec fn with_refreshing(&self) -> TokenCache {
        TokenCache { refreshing: true, ..*self }
    }

    /// The cache after one request at `now`.
    pub open spec fn after_request(&self, now: nat) -> TokenCache {
        if self.starts_refresh(now) {
            self.with_refreshing()
        } else {
            *self
        }
    }

    /// Marking a refresh changes nothing else.
    pub proof fn lemma_with_refreshing(&self)
        ensures
            self.with_refreshing().is_refreshing(),
            self.with_refreshing().token() == self.token(),
            self.with_refreshing().expiry() == self.expiry(),
            self.with_refreshing().refresh_secret() == self.refresh_secret(),
            self.with_refreshing().client() == self.client(),
            self.with_refreshing().secret() == self.secret(),
    {
    }

    /// A cache with no access token yet.
    pub fn new(client_id: &str, client_secret: &str, refresh_token: &str) -> (r: TokenCache)
        ensures
            r.token() is None,
            !r.is_refreshing(),
            r.client() == client_id@,
            r.secret() == client_secret@,
            r.refresh_secret() == refresh_token@,
    {
        TokenCache {
            client_id: String::from_str(client_id),
            client_secret: String::from_str(client_secret),
            refresh_token: String::from_str(refresh_token),
            access: None,
            expires_at: 0,
            refreshing: false,
        }
    }

    /// The current refresh token, for the caller to persist.
    pub fn refresh_token(&self) -> (r: &str)
        ensures
            r@ == self.refresh_secret(),
    {
        self.refresh_token.as_str()
    }

    /// Decides what a caller needing a token at `now` (seconds) does: use the cached token
    /// when it is fresh, wait when a refresh is under way, else refresh, marking the refresh
    /// as under way so that later callers wait.
    pub fn request(&mut self, now: u64) -> (r: TokenDecision)
        ensures
            *final(self) == old(self).after_request(now as nat),
            final(self).is_refreshing() == (old(self).is_refreshing() || !old(self).fresh_at(
                now as nat,
            )),
            final(self).token() == old(self).token(),
            final(self).expiry() == old(self).expiry(),
            final(self).refresh_secret() == old(self).refresh_secret(),
            final(self).client() == old(self).client(),
            final(self).secret() == old(self).secret(),
            old(self).fresh_at(now as nat) ==> r is Use && r->Use_0@ == old(self).token()->Some_0,
            !old(self).fresh_at(now as nat) && old(self).is_refreshing() ==> r is Wait,
            old(self).starts_refresh(now as nat) ==> r is Refresh,
    {
        let fresh = match &self.access {
            Some(_) => now < self.expires_at && self.expires_at - now > REFRESH_MARGIN_SECS,
            None => false,
        };
        if fresh {
            match &self.access {
                Some(t) => TokenDecision::Use(t.clone()),
                None => TokenDecision::Wait,
            }
        } else if self.refreshing {
            TokenDecision::Wait
        } else {
            self.refreshing = true;
            proof {
                old(self).lemma_with_refreshing();
            }
            TokenDecision::Refresh
        }
    }

    /// Records the outcome of the refresh exchange made at `now`: a grant replaces the access
    /// token, its expiry and (when rotated) the refresh token, and is handed to the refreshing
    /// caller; a failure drops the cached token and is an authentication error. Either way the
    /// refresh is no longer under way, so waiting callers ask again.
    pub fn complete_refresh(&mut self, outcome: Result<TokenGrant, String>, now: u64) -> (r: Result<
        String,
        ClientError,
    >)
        ensures
            !final(self).is_refreshing(),
            final(self).client() == old(self).client(),
            final(self).secret() == old(self).secret(),
            match outcome {
                Ok(g) => {
                    &&& r is Ok
                    &&& r->Ok_0@ == g.access_token@
                    &&& final(self).token() == Some(g.access_token@)
                    &&& final(self).expiry() == expiry_spec(now as nat, g.expires_in as nat)
                    &&& final(self).refresh_secret() == match g.refresh_token {
                        Some(t) => t@,
                        None => old(self).refresh_secret(),
                    }
                },
                Err(m) => {
                    &&& r is Err
                    &&& r->Err_0 is Auth
                    &&& r->Err_0->Auth_0@ == m@
                    &&& final(self).token() is None
                    &&& final(self).refresh_secret() == old(self).refresh_secret()
                },
            },
    {
        self.refreshing = false;
        match outcome {
            Ok(g) => {
                let expires_at = if g.expires_in > u64::MAX - now {
                    u64::MAX
                } else {
                    now + g.expires_in
                };
                match g.refresh_token {
                    Some(t) => {
                        self.refresh_token = t;
                    },
                    None => {},
                }
                let t = g.access_token;
                self.access = Some(t.clone());
                self.expires_at = expires_at;
                Ok(t)
            },
            Err(m) => {
                self.access = None;
                Err(ClientError::Auth(m))
            },
        }
    }

    /// The service refused `rejected`: when it is still the cached token, it is dropped so that
    /// the next request refreshes; a token already replaced by a newer one is left alone, so
    /// callers refused with the same token cause a single refresh.
    pub fn invalidate(&mut self, rejected: &str)
        ensures
            old(self).token() == Some(rejected@) ==> final(self).token() is None,
            old(self).token() != Some(rejected@) ==> final(self).token() == old(self).token(),
            final(self).expiry() == old(self).expiry(),
            final(self).is_refreshing() == old(self).is_refreshing(),
            final(self).refresh_secret() == old(self).refresh_secret(),
            final(self).client() == old(self).client(),
            final(self).secret() == old(self).secret(),
    {
        let same = match &self.access {
            Some(t) => t.eq(&String::from_str(rejected)),
            None => false,
        };
        if same {
            self.access = None;
        }
    }

    /// Form fields of the refresh-token exchange.
    pub fn refresh_form(&self) -> (r: Params)
        ensures
            r@ == seq![
                ("grant_type"@, "refresh_token"@),
                ("refresh_token"@, self.refresh_secret()),
                ("client_id"@, self.client()),
                ("client_secret"@, self.secret()),
            ],
    {
        let mut p = Params::new();
        p.add_str("grant_type", "refresh_token");
        p.add_str("refresh_token", self.refresh_token.as_str());
        p.add_str("client_id", self.client_id.as_str());
        p.add_str("client_secret", self.client_secret.as_str());
        assert(p@ =~= seq![
            ("grant_type"@, "refresh_token"@),
            ("refresh_token"@, self.refresh_secret()),
            ("client_id"@, self.client()),
            ("client_secret"@, self.secret()),
        ]);
        p
    }
}

/// Form fields of the authorization-code exchange.
pub fn authorization_code_form(client_id: &str, client_secret: &str, code: &str) -> (r: Params)
    ensures
        r@ == seq![
            ("grant_type"@, "authorization_code"@),
            ("code"@, code@),
            ("client_id"@, client_id@),
            ("client_secret"@, client_secret@),
        ],
{
    let mut p = Params::new();
    p.add_str("grant_type", "authorization_code");
    p.add_str("code", code);
    p.add_str("client_id", client_id);
    p.add_str("client_secret", client_secret);
    assert(p@ =~= seq![
        ("grant_type"@, "authorization_code"@),
        ("code"@, code@),
        ("client_id"@, client_id@),
        ("client_secret"@, client_secret@),
    ]);
    p
}

/// How many of `n` successive requests at `now` are told to refresh.
pub open spec fn refreshes_among(c: TokenCache, now: nat, n: nat) -> nat
    decreases n,
{
    if n == 0 {
        0
    } else {
        (if c.starts_refresh(now) { 1nat } else { 0nat }) + refreshes_among(
            c.after_request(now),
            now,
            (n - 1) as nat,
        )
    }
}

/// The tokens handed out to `n` successive requests at `now`: `None` for a caller that must
/// refresh or wait.
pub open spec fn tokens_served(c: TokenCache, now: nat, n: nat) -> Seq<Option<Seq<char>>>
    decreases n,
{
    if n == 0 {
        Seq::empty()
    } else {
        seq![if c.fresh_at(now) { c.token() } else { None }] + tokens_served(
            c.after_request(now),
            now,
            (n - 1) as nat,
        )
    }
}

/// While a refresh is under way, no further caller refreshes.
pub proof fn lemma_no_second_refresh(c: TokenCache, now: nat, n: nat)
    requires
        !c.fresh_at(now),
        c.is_refreshing(),
    ensures
        refreshes_among(c, now, n) == 0,
    decreases n,
{
    if n > 0 {
        lemma_no_second_refresh(c, now, (n - 1) as nat);
    }
}

/// Single flight: of any number of callers that find the token stale, exactly one is told to
/// refresh; the others wait.
pub proof fn lemma_single_flight(c: TokenCache, now: nat, n: nat)
    requires
        !c.fresh_at(now),
        n >= 1,
    ensures
        refreshes_among(c, now, n) == (if c.is_refreshing() { 0nat } else { 1nat }),
{
    if c.is_refreshing() {
        lemma_no_second_refresh(c, now, n);
    } else {
        c.lemma_with_refreshing();
        let d = c.after_request(now);
        assert(!d.fresh_at(now));
        lemma_no_second_refresh(d, now, (n - 1) as nat);
    }
}

/// A grant recorded at `now` whose lifetime exceeds the margin leaves the cache fresh at `now`,
/// so the callers that waited for it are served its token.
pub proof fn lemma_grant_is_fresh(c: TokenCache, now: nat, access: Seq<char>, expires_in: nat)
    requires
        c.token() == Some(access),
        c.expiry() == expiry_spec(now, expires_in),
        expires_in > REFRESH_MARGIN_SECS,
        now + expires_in <= u64::MAX,
    ensures
        c.fresh_at(now),
        tokens_served(c, now, 1) == seq![Some(access)],
{
    lemma_all_served_same(c, now, 1);
    assert(Seq::new(1, |i: int| c.token()) =~= seq![Some(access)]);
}

/// Once a refresh has stored a fresh token, every caller is served that same token and none
/// refreshes.
pub proof fn lemma_all_served_same(c: TokenCache, now: nat, n: nat)
    requires
        c.fresh_at(now),
    ensures
        tokens_served(c, now, n) == Seq::new(n, |i: int| c.token()),
        refreshes_among(c, now, n) == 0,
    decreases n,
{
    if n > 0 {
        lemma_all_served_same(c, now, (n - 1) as nat);
        assert(tokens_served(c, now, n) =~= Seq::new(n, |i: int| c.token()));
    }
}

} // verus!
