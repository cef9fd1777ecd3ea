//! The access token of the signed-in user and when it must be refreshed.

use vstd::prelude::*;
use vstd::string::*;

verus! {

/// How many seconds before its expiry a token is refreshed.
pub const REFRESH_BEFORE_EXPIRY_SECONDS: i64 = 60;

/// What base64 (URL-safe alphabet, no padding) decoding gives for `input`:
/// the bytes, or `None` where the input is not such an encoding.
pub uninterp spec fn base64_url_decoded(input: Seq<char>) -> Option<Seq<u8>>;

/// Decodes `input` with the URL-safe base64 engine without padding of the
/// `base64` crate (`URL_SAFE_NO_PAD.decode`). Its result is what
/// `base64_url_decoded` names; a decoding error gives `None`.
#[verifier::external_body]
fn decode_base64_url(input: &str) -> (bytes: Option<Vec<u8>>)
    ensures
        match bytes {
            Some(b) => base64_url_decoded(input@) == Some(b@),
            None => base64_url_decoded(input@) is None,
        },
{
    base64::Engine::decode(&base64::engine::general_purpose::URL_SAFE_NO_PAD, input).ok()
}

/// The position of the first `c` in `s` at or after `from`, if any.
pub open spec fn first_index_of(s: Seq<char>, c: char, from: int) -> Option<int>
    decreases s.len() - from,
{
    if from < 0 || from >= s.len() {
        None
    } else if s[from] == c {
        Some(from)
    } else {
        first_index_of(s, c, from + 1)
    }
}

/// The second `.`-separated segment of a token (its payload), if the token
/// has one.
pub open spec fn jwt_payload_segment(token: Seq<char>) -> Option<Seq<char>> {
    match first_index_of(token, '.', 0) {
        None => None,
        Some(i) => match first_index_of(token, '.', i + 1) {
            Some(j) => Some(token.subrange(i + 1, j)),
            None => Some(token.subrange(i + 1, token.len() as int)),
        },
    }
}

proof fn lemma_first_index_of(s: Seq<char>, c: char, from: int)
    requires
        0 <= from <= s.len(),
    ensures
        match first_index_of(s, c, from) {
            Some(i) => from <= i < s.len() && s[i] == c && forall|k: int| from <= k < i ==> s[k] != c,
            None => forall|k: int| from <= k < s.len() ==> s[k] != c,
        },
    decreases s.len() - from,
{
    if from < s.len() && s[from] != c {
        lemma_first_index_of(s, c, from + 1);
    }
}

fn find_char(s: &str, c: char, from: usize) -> (r: Option<usize>)
    requires
        from <= s@.len(),
    ensures
        match r {
            Some(i) => first_index_of(s@, c, from as int) == Some(i as int),
            None => first_index_of(s@, c, from as int) is None,
        },
{
    let n = s.unicode_len();
    let mut i = from;
    proof {
        lemma_first_index_of(s@, c, from as int);
    }
    while i < n
        invariant
            from <= i <= n,
            n == s@.len(),
            first_index_of(s@, c, from as int) == first_index_of(s@, c, i as int),
        decreases n - i,
    {
        if s.get_char(i) == c {
            return Some(i);
        }
        i = i + 1;
    }
    None
}

/// The payload segment of a token, as text.
pub fn jwt_payload(token: &str) -> (payload: Option<String>)
    ensures
        match payload {
            Some(p) => jwt_payload_segment(token@) == Some(p@),
            None => jwt_payload_segment(token@) is None,
        },
{
    let n = token.unicode_len();
    match find_char(token, '.', 0) {
        None => None,
        Some(i) => {
            proof {
                lemma_first_index_of(token@, '.', 0);
            }
            match find_char(token, '.', i + 1) {
                Some(j) => {
                    proof {
                        lemma_first_index_of(token@, '.', i + 1);
                    }
                    Some(String::from_str(token.substring_char(i + 1, j)))
                },
                None => Some(String::from_str(token.substring_char(i + 1, n))),
            }
        },
    }
}

/// The bytes of a token's claims: its payload segment, base64-decoded.
/// `None` where the token has no payload or the payload does not decode.
pub fn jwt_claims_bytes(token: &str) -> (bytes: Option<Vec<u8>>)
    ensures
        match bytes {
            Some(b) => exists|p: Seq<char>|
                jwt_payload_segment(token@) == Some(p) && base64_url_decoded(p) == Some(b@),
            None => match jwt_payload_segment(token@) {
                Some(p) => base64_url_decoded(p) is None,
                None => true,
            },
        },
{
    match jwt_payload(token) {
        None => None,
        Some(p) => decode_base64_url(p.as_str()),
    }
}

/// The access token of the user and what is known of its expiry.
pub struct AuthState {
    jwt: String,
    exp: Option<i64>,
    refreshing: bool,
}

/// The abstract state: token, expiry (seconds since the epoch) and whether a
/// refresh is under way.
pub struct AuthView {
    pub jwt: Seq<char>,
    pub exp: Option<i64>,
    pub refreshing: bool,
}

impl View for AuthState {
    type V = AuthView;

    closed spec fn view(&self) -> AuthView {
        AuthView { jwt: self.jwt@, exp: self.exp, refreshing: self.refreshing }
    }
}

/// Whether a token that expires at `exp` must be refreshed at time `now`:
/// always when its expiry is unknown, else from one minute before it.
pub open spec fn needs_refresh(exp: Option<i64>, now: i64) -> bool {
    match exp {
        None => true,
        Some(e) => e <= now + REFRESH_BEFORE_EXPIRY_SECONDS,
    }
}

/// The state after signing out: no token, no expiry, no refresh under way.
pub open spec fn signed_out() -> AuthView {
    AuthView { jwt: Seq::<char>::empty(), exp: None, refreshing: false }
}

/// What getting the access token asks for next.
pub enum TokenRequest {
    /// The current token is still good.
    Current(String),
    /// The token must be refreshed by the backend first.
    Refresh,
}

impl AuthState {
    /// No token yet; a refresh is pending until the first one arrives.
    pub fn new() -> (state: Self)
        ensures
            state@.jwt == Seq::<char>::empty(),
            state@.exp is None,
            state@.refreshing,
    {
        AuthState { jwt: String::new(), exp: None, refreshing: true }
    }

    /// Stores a new token; `exp` is the expiry that its claims give
    /// (`None` where they give none).
    pub fn set_access_token(&mut self, token: String, exp: Option<i64>)
        ensures
            final(self)@.jwt == token@,
            final(self)@.exp == exp,
            !final(self)@.refreshing,
    {
        self.exp = exp;
        self.jwt = token;
        self.refreshing = false;
    }

    /// Forgets the token.
    pub fn sign_out(&mut self)
        ensures
            final(self)@ == signed_out(),
    {
        self.exp = None;
        self.jwt = String::new();
        self.refreshing = false;
    }

    /// Whether a token is held.
    pub fn is_authenticated(&self) -> (b: bool)
        ensures
            b == (self@.jwt.len() > 0),
    {
        self.jwt.as_str().unicode_len() > 0
    }

    /// Whether a refresh is under way.
    pub fn is_refreshing(&self) -> (b: bool)
        ensures
            b == self@.refreshing,
    {
        self.refreshing
    }

    /// The token held (empty when signed out).
    pub fn token(&self) -> (t: String)
        ensures
            t@ == self@.jwt,
    {
        self.jwt.clone()
    }

    /// Whether the token must be refreshed at time `now` (seconds).
    pub fn should_refresh(&self, now: i64) -> (b: bool)
        requires
            now <= i64::MAX - REFRESH_BEFORE_EXPIRY_SECONDS,
        ensures
            b == needs_refresh(self@.exp, now),
    {
        match self.exp {
            None => true,
            Some(exp) => exp <= now + REFRESH_BEFORE_EXPIRY_SECONDS,
        }
    }

    /// First step of getting the access token at time `now`: the current
    /// token while it is good, else a refresh, which is then under way.
    pub fn begin_get_access_token(&mut self, now: i64) -> (request: TokenRequest)
        requires
            now <= i64::MAX - REFRESH_BEFORE_EXPIRY_SECONDS,
        ensures
            needs_refresh(old(self)@.exp, now) ==> request is Refresh && final(self)@ == (AuthView {
                refreshing: true,
                ..old(self)@
            }),
            !needs_refresh(old(self)@.exp, now) ==> final(self)@ == old(self)@ && (match request {
                TokenRequest::Current(t) => t@ == old(self)@.jwt,
                TokenRequest::Refresh => false,
            }),
    {
        if !self.should_refresh(now) {
            return TokenRequest::Current(self.jwt.clone());
        }
        self.refreshing = true;
        TokenRequest::Refresh
    }

    /// Last step of getting the access token: the backend's answer to the
    /// refresh. A new token (with the expiry its claims give) is stored and
    /// returned; an error signs the user out and is returned.
    pub fn finish_refresh<E>(&mut self, answer: Result<(String, Option<i64>), E>) -> (r: Result<
        String,
        E,
    >)
        ensures
            match answer {
                Ok((token, exp)) => {
                    &&& final(self)@ == (AuthView { jwt: token@, exp: exp, refreshing: false })
                    &&& r matches Ok(t) && t@ == token@
                },
                Err(e) => {
                    &&& final(self)@ == (AuthView {
                        jwt: Seq::<char>::empty(),
                        exp: None,
                        refreshing: false,
                    })
                    &&& r == Err::<String, E>(e)
                },
            },
    {
        match answer {
            Ok((token, exp)) => {
                let returned = token.clone();
                self.set_access_token(token, exp);
                Ok(returned)
            },
            Err(e) => {
                self.sign_out();
                Err(e)
            },
        }
    }
}

/// A user who signs out is no longer authenticated, and the next request
/// for a token asks for a refresh.
pub proof fn law_sign_out_forgets_token(now: i64)
    ensures
        !(signed_out().jwt.len() > 0),
        needs_refresh(signed_out().exp, now),
{
}

/// A token stored with an expiry more than a minute ahead is used as it is.
pub proof fn law_fresh_token_is_kept(exp: i64, now: i64)
    requires
        now <= i64::MAX - REFRESH_BEFORE_EXPIRY_SECONDS,
        exp > now + REFRESH_BEFORE_EXPIRY_SECONDS,
    ensures
        !needs_refresh(Some(exp), now),
{
}

} // verus!
