//! OAuth 2.0: the token set and the address at which a user authorises the
//! application.

use crate::clock::utc_now;
use crate::clock::Instant;
use crate::error::XeroError;
use crate::text::joined;
use vstd::prelude::*;
use vstd::string::*;

verus! {

/// `url::ParseError`, taken as it is: only its message is ever asked for.
#[verifier::external_type_specification]
#[verifier::external_body]
pub struct ExUrlParseError(url::ParseError);

/// The URL that `url` makes of an address and the pairs appended to its
/// query, where it takes the address for a URL.
pub uninterp spec fn url_with_query(address: Seq<char>, pairs: Seq<(Seq<char>, Seq<char>)>) -> Option<
    Seq<char>,
>;

/// `Url::parse_with_params`, and the URL it gives as a `String`: the address
/// with each pair appended to its query, the names and values form-encoded.
/// Fails where the address is no absolute URL. What comes back depends on
/// the address and the pairs alone.
#[verifier::external_body]
pub(crate) fn url_with_params(address: &str, pairs: &Vec<(String, String)>) -> (url: Result<
    String,
    url::ParseError,
>)
    ensures
        match url {
            Ok(u) => url_with_query(address@, pairs.deep_view()) == Some(u@),
            Err(_) => url_with_query(address@, pairs.deep_view()) is None,
        },
{
    match url::Url::parse_with_params(address, pairs) {
        Ok(url) => Ok(url.into()),
        Err(error) => Err(error),
    }
}

/// The `Display` of a `url::ParseError`: its message.
#[verifier::external_body]
pub(crate) fn url_error_message(error: &url::ParseError) -> String {
    error.to_string()
}

/// Seconds before its end at which a token counts as expired.
pub const EXPIRY_MARGIN_SECS: u64 = 60;

/// Where a user is sent to authorise the application.
pub open spec fn authorize_address() -> Seq<char> {
    "https://login.xero.com/identity/connect/authorize"@
}

/// What the token endpoint hands out.
#[derive(Clone, Debug)]
pub struct TokenSet {
    pub access_token: String,
    pub refresh_token: Option<String>,
    pub id_token: Option<String>,
    /// Seconds for which the access token is good, counted from
    /// `obtained_at`.
    pub expires_in: u64,
    pub token_type: String,
    pub obtained_at: Instant,
}

impl Default for TokenSet {
    fn default() -> (token_set: TokenSet)
        ensures
            token_set.access_token@ == Seq::<char>::empty(),
            token_set.refresh_token is None,
            token_set.id_token is None,
            token_set.expires_in == 0,
            token_set.token_type@ == Seq::<char>::empty(),
            token_set.obtained_at == (Instant { secs: 0, nanos: 0 }),
    {
        TokenSet {
            access_token: String::new(),
            refresh_token: None,
            id_token: None,
            expires_in: 0,
            token_type: String::new(),
            obtained_at: Instant { secs: 0, nanos: 0 },
        }
    }
}

impl TokenSet {
    /// The access token has run out at `now`, or will do so within the
    /// next 60 seconds.
    pub open spec fn expired_at(&self, now: Instant) -> bool {
        self.obtained_at.total_nanos() + self.expires_in * 1_000_000_000 < now.total_nanos()
            + EXPIRY_MARGIN_SECS * 1_000_000_000
    }

    /// Whether the access token has run out at `now`, or will do so within
    /// the next 60 seconds.
    pub fn is_expired_at(&self, now: &Instant) -> (expired: bool)
        ensures
            expired == self.expired_at(*now),
    {
        let end: i128 = (self.obtained_at.secs as i128 + self.expires_in as i128) * 1_000_000_000
            + self.obtained_at.nanos as i128;
        let limit: i128 = (now.secs as i128 + EXPIRY_MARGIN_SECS as i128) * 1_000_000_000
            + now.nanos as i128;
        end < limit
    }

    /// Whether the access token has run out, or will do so within the next
    /// 60 seconds, by the system's clock.
    pub fn is_expired(&self) -> (expired: bool)
        ensures
            exists|now: Instant| expired == #[trigger] self.expired_at(now),
    {
        let now = utc_now();
        self.is_expired_at(&now)
    }
}

/// The credentials of the application, as registered with Xero.
#[derive(Debug)]
pub struct TokenManager {
    client_id: String,
    client_secret: String,
    redirect_uri: String,
}

impl TokenManager {
    pub closed spec fn spec_client_id(&self) -> Seq<char> {
        self.client_id@
    }

    pub closed spec fn spec_client_secret(&self) -> Seq<char> {
        self.client_secret@
    }

    pub closed spec fn spec_redirect_uri(&self) -> Seq<char> {
        self.redirect_uri@
    }

    /// The pairs of the authorisation URL's query, in their order.
    pub open spec fn authorization_query(&self, scopes: Seq<Seq<char>>, state: Seq<char>) -> Seq<
        (Seq<char>, Seq<char>),
    > {
        seq![
            ("response_type"@, "code"@),
            ("client_id"@, self.spec_client_id()),
            ("redirect_uri"@, self.spec_redirect_uri()),
            ("scope"@, joined(scopes, " "@)),
            ("state"@, state),
        ]
    }

    pub fn new(client_id: String, client_secret: String, redirect_uri: String) -> (manager:
        TokenManager)
        ensures
            manager.spec_client_id() == client_id@,
            manager.spec_client_secret() == client_secret@,
            manager.spec_redirect_uri() == redirect_uri@,
    {
        TokenManager { client_id, client_secret, redirect_uri }
    }

    pub fn client_id(&self) -> (id: &str)
        ensures
            id@ == self.spec_client_id(),
    {
        self.client_id.as_str()
    }

    pub fn client_secret(&self) -> (secret: &str)
        ensures
            secret@ == self.spec_client_secret(),
    {
        self.client_secret.as_str()
    }

    pub fn redirect_uri(&self) -> (uri: &str)
        ensures
            uri@ == self.spec_redirect_uri(),
    {
        self.redirect_uri.as_str()
    }

    /// The URL to which the user is sent to authorise the application for
    /// the given scopes. The scopes go into one parameter, with a space
    /// between each two. Fails with `XeroError::Auth` exactly where `url`
    /// makes no URL of the authorisation address.
    pub fn get_authorization_url(&self, scopes: &[&str], state: &str) -> (url: Result<
        String,
        XeroError,
    >)
        ensures
            match url {
                Ok(u) => url_with_query(
                    authorize_address(),
                    self.authorization_query(scope_texts(scopes@), state@),
                ) == Some(u@),
                Err(e) => url_with_query(
                    authorize_address(),
                    self.authorization_query(scope_texts(scopes@), state@),
                ) is None && e is Auth,
            },
    {
        let scope = join_scopes(scopes);
        let mut pairs: Vec<(String, String)> = Vec::new();
        pairs.push((String::from_str("response_type"), String::from_str("code")));
        pairs.push((String::from_str("client_id"), self.client_id.clone()));
        pairs.push((String::from_str("redirect_uri"), self.redirect_uri.clone()));
        pairs.push((String::from_str("scope"), scope));
        pairs.push((String::from_str("state"), String::from_str(state)));
        proof {
            assert(pairs.deep_view() =~= self.authorization_query(scope_texts(scopes@), state@));
        }
        match url_with_params("https://login.xero.com/identity/connect/authorize", &pairs) {
            Ok(url) => Ok(url),
            Err(error) => Err(XeroError::Auth(url_error_message(&error))),
        }
    }
}

/// The scopes as texts.
pub open spec fn scope_texts(scopes: Seq<&str>) -> Seq<Seq<char>> {
    Seq::new(scopes.len(), |i: int| scopes[i]@)
}

/// The scopes in one text, with a space between each two.
pub fn join_scopes(scopes: &[&str]) -> (scope: String)
    ensures
        scope@ == joined(scope_texts(scopes@), " "@),
{
    let mut scope = String::new();
    let mut i: usize = 0;
    while i < scopes.len()
        invariant
            i <= scopes.len(),
            scope@ == joined(scope_texts(scopes@).take(i as int), " "@),
        decreases scopes.len() - i,
    {
        let ghost done = scope_texts(scopes@).take(i as int);
        let ghost next = scope_texts(scopes@).take(i as int + 1);
        proof {
            assert(next.drop_last() =~= done);
            assert(next.last() == scopes@[i as int]@);
        }
        if i > 0 {
            scope.append(" ");
        } else {
            proof {
                assert(Seq::<char>::empty() + scopes@[i as int]@ =~= scopes@[i as int]@);
            }
        }
        scope.append(scopes[i]);
        i += 1;
    }
    proof {
        assert(scope_texts(scopes@).take(scopes.len() as int) =~= scope_texts(scopes@));
    }
    scope
}

} // verus!
