//! The authorization flow: one authentication attempt as a small state
//! machine.
//!
//! The machine decides everything — the authorization URL, the listen
//! address, whether a captured redirect is trusted, what the token
//! endpoint's reply means — while the unverified rim only performs the
//! steps it is handed: open the browser, capture the one redirect,
//! send the exchange request.  A redirect whose `state` differs from
//! the generated token aborts the flow before any exchange step is
//! ever produced.

use vstd::prelude::*;

use crate::errors::AuthError;
use crate::query::{extract_redirect, query_param};
use crate::text::{find_pair, find_pair_char, lemma_find_pair, str_eq};
use crate::token_store::AccessToken;

verus! {

/// Whether `c` is a lowercase hexadecimal digit.
pub open spec fn is_lower_hex_digit(c: char) -> bool {
    ('0' <= c && c <= '9') || ('a' <= c && c <= 'f')
}

/// The lowercase hexadecimal digit of a value below sixteen.
pub open spec fn spec_hex_digit(n: int) -> char {
    if n == 0 {
        '0'
    } else if n == 1 {
        '1'
    } else if n == 2 {
        '2'
    } else if n == 3 {
        '3'
    } else if n == 4 {
        '4'
    } else if n == 5 {
        '5'
    } else if n == 6 {
        '6'
    } else if n == 7 {
        '7'
    } else if n == 8 {
        '8'
    } else if n == 9 {
        '9'
    } else if n == 10 {
        'a'
    } else if n == 11 {
        'b'
    } else if n == 12 {
        'c'
    } else if n == 13 {
        'd'
    } else if n == 14 {
        'e'
    } else {
        'f'
    }
}

/// Every digit [`spec_hex_digit`] yields is a lowercase hex digit.
proof fn lemma_hex_digit_is_hex(n: int)
    ensures
        is_lower_hex_digit(spec_hex_digit(n)),
{
}

/// The hexadecimal text of a byte sequence: the high then the low
/// nibble of each byte, in byte order.
pub open spec fn spec_hex_of(bytes: Seq<u8>) -> Seq<char>
    decreases bytes.len(),
{
    if bytes.len() == 0 {
        Seq::empty()
    } else {
        spec_hex_of(bytes.drop_last()) + seq![
            spec_hex_digit((bytes.last() >> 4) as int),
            spec_hex_digit((bytes.last() & 15) as int),
        ]
    }
}

/// Hex text is twice as long as its bytes, every character a
/// lowercase hex digit.
pub proof fn lemma_spec_hex_of_wf(bytes: Seq<u8>)
    ensures
        spec_hex_of(bytes).len() == 2 * bytes.len(),
        forall|i: int|
            0 <= i < spec_hex_of(bytes).len() ==> is_lower_hex_digit(
                #[trigger] spec_hex_of(bytes)[i],
            ),
    decreases bytes.len(),
{
    if bytes.len() > 0 {
        lemma_spec_hex_of_wf(bytes.drop_last());
        lemma_hex_digit_is_hex((bytes.last() >> 4) as int);
        lemma_hex_digit_is_hex((bytes.last() & 15) as int);
    }
}

/// Relies on rand::random to draw one byte from the thread-local
/// generator; nothing is promised of the value.
#[verifier::external_body]
fn random_byte() -> u8 {
    rand::random::<u8>()
}

/// One lowercase hexadecimal digit as text.
fn nibble_str(n: u8) -> (r: &'static str)
    requires
        n < 16,
    ensures
        r@.len() == 1,
        r@[0] == spec_hex_digit(n as int),
{
    proof {
        reveal_strlit("0");
        reveal_strlit("1");
        reveal_strlit("2");
        reveal_strlit("3");
        reveal_strlit("4");
        reveal_strlit("5");
        reveal_strlit("6");
        reveal_strlit("7");
        reveal_strlit("8");
        reveal_strlit("9");
        reveal_strlit("a");
        reveal_strlit("b");
        reveal_strlit("c");
        reveal_strlit("d");
        reveal_strlit("e");
        reveal_strlit("f");
    }
    match n {
        0 => "0",
        1 => "1",
        2 => "2",
        3 => "3",
        4 => "4",
        5 => "5",
        6 => "6",
        7 => "7",
        8 => "8",
        9 => "9",
        10 => "a",
        11 => "b",
        12 => "c",
        13 => "d",
        14 => "e",
        _ => "f",
    }
}

/// Writes `bytes` as lowercase hexadecimal, two digits per byte, in
/// byte order: exactly [`spec_hex_of`].
pub fn hex_encode_bytes(bytes: &Vec<u8>) -> (s: String)
    ensures
        s@ == spec_hex_of(bytes@),
{
    let mut s: String = String::new();
    let n: usize = bytes.len();
    let mut k: usize = 0;
    while k < n
        invariant
            k <= n,
            n == bytes@.len(),
            s@ == spec_hex_of(bytes@.take(k as int)),
        decreases n - k,
    {
        let b: u8 = bytes[k];
        let hi: u8 = b >> 4;
        let lo: u8 = b & 15;
        proof {
            assert(b >> 4 < 16 && b & 15 < 16) by (bit_vector);
        }
        s.append(nibble_str(hi));
        s.append(nibble_str(lo));
        proof {
            assert(bytes@.take(k as int + 1).drop_last() =~= bytes@.take(k as int));
            assert(bytes@.take(k as int + 1).last() == bytes@[k as int]);
            assert(s@ =~= spec_hex_of(bytes@.take(k as int + 1)));
        }
        k = k + 1;
    }
    proof {
        assert(bytes@.take(n as int) =~= bytes@);
    }
    s
}

/// Draws a fresh anti-forgery state token: 32 random bytes, returned
/// as their hex encoding — 64 lowercase hexadecimal characters.
pub fn generate_state_token() -> (s: String)
    ensures
        s@.len() == 64,
        forall|i: int| 0 <= i < s@.len() ==> is_lower_hex_digit(#[trigger] s@[i]),
{
    let mut bytes: Vec<u8> = Vec::new();
    let mut k: usize = 0;
    while k < 32
        invariant
            k <= 32,
            bytes@.len() == k,
        decreases 32 - k,
    {
        bytes.push(random_byte());
        k = k + 1;
    }
    let s: String = hex_encode_bytes(&bytes);
    proof {
        lemma_spec_hex_of_wf(bytes@);
    }
    s
}

/// The authorization URL: the service's authorize endpoint carrying
/// the scope, client id, state token, redirect URI and response type.
pub open spec fn spec_auth_url(
    client_id: Seq<char>,
    state: Seq<char>,
    redirect_uri: Seq<char>,
) -> Seq<char> {
    "https://ticktick.com/oauth/authorize?scope=tasks:write tasks:read&client_id="@ + client_id
        + "&state="@ + state + "&redirect_uri="@ + redirect_uri + "&response_type=code"@
}

/// Builds the authorization URL of [`spec_auth_url`].
pub fn build_auth_url(client_id: &str, state: &str, redirect_uri: &str) -> (url: String)
    ensures
        url@ == spec_auth_url(client_id@, state@, redirect_uri@),
{
    let mut url: String = String::new();
    url.append("https://ticktick.com/oauth/authorize?scope=tasks:write tasks:read&client_id=");
    url.append(client_id);
    url.append("&state=");
    url.append(state);
    url.append("&redirect_uri=");
    url.append(redirect_uri);
    url.append("&response_type=code");
    proof {
        assert(url@ =~= spec_auth_url(client_id@, state@, redirect_uri@));
    }
    url
}

/// `s` with every trailing `/` removed.
pub open spec fn trim_trailing_slash(s: Seq<char>) -> Seq<char>
    decreases s.len(),
{
    if s.len() > 0 && s.last() == '/' {
        trim_trailing_slash(s.drop_last())
    } else {
        s
    }
}

/// The listen address hidden in a redirect URI: what stands between
/// the URI's first `//` and the next `//` or the end, with trailing
/// slashes removed; nothing when the URI has no `//` at all.
pub open spec fn spec_bind_address(uri: Seq<char>) -> Option<Seq<char>> {
    if find_pair(uri, '/') < 0 {
        None
    } else {
        let rest = uri.skip(find_pair(uri, '/') + 2);
        let part = if find_pair(rest, '/') < 0 {
            rest
        } else {
            rest.take(find_pair(rest, '/'))
        };
        Some(trim_trailing_slash(part))
    }
}

/// Derives the local address to bind the redirect listener on, failing
/// exactly when the redirect URI is not of the expected
/// `scheme://host:port/...` shape.
pub fn derive_bind_address(redirect_uri: &str) -> (r: Result<String, AuthError>)
    ensures
        r is Ok <==> spec_bind_address(redirect_uri@) is Some,
        r matches Ok(a) ==> spec_bind_address(redirect_uri@) == Some(a@),
        r matches Err(e) ==> e is MalformedRedirectUri,
{
    let n: usize = redirect_uri.unicode_len();
    match find_pair_char(redirect_uri, '/') {
        None => Err(AuthError::MalformedRedirectUri),
        Some(f) => {
            proof {
                lemma_find_pair(redirect_uri@, '/');
            }
            let rest: &str = redirect_uri.substring_char(f + 2, n);
            proof {
                assert(rest@ =~= redirect_uri@.skip(find_pair(redirect_uri@, '/') + 2));
            }
            let rest_len: usize = rest.unicode_len();
            let part: &str = match find_pair_char(rest, '/') {
                None => {
                    proof {
                        assert(rest@.subrange(0, rest@.len() as int) =~= rest@);
                    }
                    rest.substring_char(0, rest_len)
                },
                Some(g) => {
                    proof {
                        lemma_find_pair(rest@, '/');
                    }
                    rest.substring_char(0, g)
                },
            };
            let mut end: usize = part.unicode_len();
            proof {
                assert(part@.take(end as int) =~= part@);
            }
            while end > 0 && part.get_char(end - 1) == '/'
                invariant
                    end <= part@.len(),
                    trim_trailing_slash(part@) == trim_trailing_slash(part@.take(end as int)),
                decreases end,
            {
                proof {
                    assert(part@.take(end as int).drop_last() =~= part@.take(end as int - 1));
                }
                end = end - 1;
            }
            let addr: String = part.substring_char(0, end).to_owned();
            proof {
                assert(addr@ =~= part@.take(end as int));
            }
            Ok(addr)
        },
    }
}

/// What the token endpoint's reply decodes to: the `access_token`
/// string and `expires_in` seconds, when the body is a JSON object
/// carrying both; a function of the bytes alone.
pub uninterp spec fn token_response_fields(body: Seq<u8>) -> Option<(Seq<char>, i64)>;

/// Relies on serde_json::from_slice and Value::get / Value::as_str /
/// Value::as_i64: parsing the reply and reading its `access_token`
/// and `expires_in` fields depends on the bytes alone.
#[verifier::external_body]
fn parse_token_response(body: &[u8]) -> (r: Option<(String, i64)>)
    ensures
        r is Some <==> token_response_fields(body@) is Some,
        r matches Some(f) ==> token_response_fields(body@) == Some((f.0@, f.1)),
{
    let value: serde_json::Value = match serde_json::from_slice(body) {
        Ok(v) => v,
        Err(_) => return None,
    };
    let token = value.get("access_token")?.as_str()?.to_string();
    let expires_in = value.get("expires_in")?.as_i64()?;
    Some((token, expires_in))
}

/// Turns the decoded reply fields into a token record expiring
/// `expires_in` seconds after `now`; a reply missing a field, or one
/// whose expiry cannot be represented, is malformed.
pub fn token_from_fields(fields: Option<(String, i64)>, now: i64) -> (r: Result<
    AccessToken,
    AuthError,
>)
    ensures
        fields is None ==> (r matches Err(e) && e is MalformedTokenResponse),
        fields matches Some(f) ==> {
            if i64::MIN <= now + f.1 <= i64::MAX {
                r matches Ok(t) && t.access_token@ == f.0@ && t.expires_on == now + f.1
            } else {
                r matches Err(e) && e is MalformedTokenResponse
            }
        },
{
    match fields {
        None => Err(AuthError::MalformedTokenResponse),
        Some((access_token, expires_in)) => match now.checked_add(expires_in) {
            None => Err(AuthError::MalformedTokenResponse),
            Some(expires_on) => Ok(AccessToken { access_token, expires_on }),
        },
    }
}

/// Where one authentication attempt stands.
#[derive(Clone, Copy, PartialEq, Eq, Structural, Debug)]
pub enum AuthPhase {
    /// The browser was sent off; the one redirect is awaited.
    AwaitingRedirect,
    /// The redirect was trusted; the exchange reply is awaited.
    AwaitingExchange,
    /// A token was obtained.
    Complete,
    /// The attempt ended without a token.
    Aborted,
}

/// One authentication attempt: the configured credentials, the state
/// token generated for it, and where it stands.
#[derive(Debug)]
pub struct AuthFlow {
    /// The application's client id.
    pub client_id: String,
    /// The application's client secret.
    pub client_secret: String,
    /// The registered redirect URI.
    pub redirect_uri: String,
    /// The anti-forgery state token of this attempt.
    pub state_token: String,
    /// Where the attempt stands.
    pub phase: AuthPhase,
}

/// What the rim is asked to do next.
#[derive(Debug)]
pub enum AuthStep {
    /// Open `url` in the browser and capture one redirect on
    /// `listen_address`.
    OpenBrowser {
        /// The authorization URL to open.
        url: String,
        /// The local address to capture the redirect on.
        listen_address: String,
    },
    /// Exchange the authorization code at the token endpoint.
    ExchangeCode {
        /// The application's client id.
        client_id: String,
        /// The application's client secret.
        client_secret: String,
        /// The captured authorization code.
        code: String,
        /// The registered redirect URI.
        redirect_uri: String,
    },
    /// The attempt succeeded with this token.
    Finished {
        /// The freshly obtained token record.
        token: AccessToken,
    },
    /// The attempt failed.
    Aborted {
        /// Why it failed.
        error: AuthError,
    },
}

/// What the rim reports back.
#[derive(Debug)]
pub enum AuthEvent {
    /// The browser could not be opened.
    BrowserFailed,
    /// The redirect listener could not be bound.
    ListenerFailed,
    /// No redirect arrived before the deadline.
    RedirectTimedOut,
    /// The one redirect arrived, requesting this URL.
    RedirectCaptured {
        /// The URL line of the captured request.
        url: String,
    },
    /// The token endpoint answered.
    ExchangeResponded {
        /// The reply's HTTP status.
        status: u16,
        /// The reply's body.
        body: Vec<u8>,
        /// The current second, for computing the expiry.
        now: i64,
    },
}

impl AuthFlow {
    /// Starts an attempt: derives the listen address from the redirect
    /// URI and hands back the browser/listen step, or fails when the
    /// URI is malformed.
    pub fn begin(
        client_id: String,
        client_secret: String,
        redirect_uri: String,
        state_token: String,
    ) -> (r: Result<(AuthFlow, AuthStep), AuthError>)
        ensures
            r is Ok <==> spec_bind_address(redirect_uri@) is Some,
            r matches Ok(p) ==> {
                &&& p.0.phase is AwaitingRedirect
                &&& p.0.client_id@ == client_id@
                &&& p.0.client_secret@ == client_secret@
                &&& p.0.redirect_uri@ == redirect_uri@
                &&& p.0.state_token@ == state_token@
                &&& p.1 matches AuthStep::OpenBrowser { url, listen_address }
                    && url@ == spec_auth_url(client_id@, state_token@, redirect_uri@)
                    && spec_bind_address(redirect_uri@) == Some(listen_address@)
            },
            r matches Err(e) ==> e is MalformedRedirectUri,
    {
        let url: String = build_auth_url(
            client_id.as_str(),
            state_token.as_str(),
            redirect_uri.as_str(),
        );
        match derive_bind_address(redirect_uri.as_str()) {
            Err(e) => Err(e),
            Ok(listen_address) => {
                let flow = AuthFlow {
                    client_id,
                    client_secret,
                    redirect_uri,
                    state_token,
                    phase: AuthPhase::AwaitingRedirect,
                };
                Ok((flow, AuthStep::OpenBrowser { url, listen_address }))
            },
        }
    }

    /// Feeds the machine what happened and receives the next step.
    ///
    /// The contract carries the anti-forgery law: an `ExchangeCode`
    /// step exists only for a captured redirect whose `state` equals
    /// this attempt's state token, so a forged redirect can never
    /// reach the token endpoint — it aborts with `StateMismatch`
    /// instead.
    pub fn on_event(&mut self, event: AuthEvent) -> (step: AuthStep)
        requires
            old(self).phase is AwaitingRedirect || old(self).phase is AwaitingExchange,
            old(self).phase is AwaitingRedirect <==> !(event is ExchangeResponded),
        ensures
            final(self).client_id == old(self).client_id,
            final(self).client_secret == old(self).client_secret,
            final(self).redirect_uri == old(self).redirect_uri,
            final(self).state_token == old(self).state_token,
            !(step is OpenBrowser),
            step is Finished <==> final(self).phase is Complete,
            step is Aborted <==> final(self).phase is Aborted,
            step is ExchangeCode <==> final(self).phase is AwaitingExchange,
            step matches AuthStep::ExchangeCode { client_id, client_secret, code, redirect_uri }
                ==> {
                &&& event matches AuthEvent::RedirectCaptured { url }
                &&& query_param(url@, "code"@) == Some(code@)
                &&& query_param(url@, "state"@) == Some(old(self).state_token@)
                &&& client_id@ == old(self).client_id@
                &&& client_secret@ == old(self).client_secret@
                &&& redirect_uri@ == old(self).redirect_uri@
            },
            event is BrowserFailed ==> (step matches AuthStep::Aborted { error }
                && error is BrowserOpenFailed),
            event is ListenerFailed ==> (step matches AuthStep::Aborted { error }
                && error is ListenerBindFailed),
            event is RedirectTimedOut ==> (step matches AuthStep::Aborted { error }
                && error is RedirectTimeout),
            event matches AuthEvent::RedirectCaptured { url } ==> match (
                query_param(url@, "code"@),
                query_param(url@, "state"@),
            ) {
                (Option::None, _) => step matches AuthStep::Aborted { error }
                    && error is MissingCode,
                (Option::Some(_), Option::None) => step matches AuthStep::Aborted { error }
                    && error is MissingState,
                (Option::Some(c), Option::Some(st)) => if st == old(self).state_token@ {
                    step matches AuthStep::ExchangeCode { code, .. } && code@ == c
                } else {
                    step matches AuthStep::Aborted { error } && error is StateMismatch
                },
            },
            event matches AuthEvent::ExchangeResponded { status, body, now } ==> {
                if !(200 <= status < 300) {
                    step matches AuthStep::Aborted { error } && (
                    error matches AuthError::TokenExchangeFailed { status: s, body: b } && s
                        == status && b@ == body@)
                } else {
                    match token_response_fields(body@) {
                        Option::None => step matches AuthStep::Aborted { error }
                            && error is MalformedTokenResponse,
                        Option::Some(f) => if i64::MIN <= now + f.1 <= i64::MAX {
                            step matches AuthStep::Finished { token } && token.access_token@
                                == f.0 && token.expires_on == now + f.1
                        } else {
                            step matches AuthStep::Aborted { error }
                                && error is MalformedTokenResponse
                        },
                    }
                }
            },
    {
        match event {
            AuthEvent::BrowserFailed => {
                self.phase = AuthPhase::Aborted;
                AuthStep::Aborted { error: AuthError::BrowserOpenFailed }
            },
            AuthEvent::ListenerFailed => {
                self.phase = AuthPhase::Aborted;
                AuthStep::Aborted { error: AuthError::ListenerBindFailed }
            },
            AuthEvent::RedirectTimedOut => {
                self.phase = AuthPhase::Aborted;
                AuthStep::Aborted { error: AuthError::RedirectTimeout }
            },
            AuthEvent::RedirectCaptured { url } => {
                match extract_redirect(url.as_str()) {
                    Err(e) => {
                        self.phase = AuthPhase::Aborted;
                        AuthStep::Aborted { error: e }
                    },
                    Ok(redirect) => {
                        if str_eq(redirect.state.as_str(), self.state_token.as_str()) {
                            self.phase = AuthPhase::AwaitingExchange;
                            AuthStep::ExchangeCode {
                                client_id: self.client_id.clone(),
                                client_secret: self.client_secret.clone(),
                                code: redirect.code,
                                redirect_uri: self.redirect_uri.clone(),
                            }
                        } else {
                            self.phase = AuthPhase::Aborted;
                            AuthStep::Aborted { error: AuthError::StateMismatch }
                        }
                    },
                }
            },
            AuthEvent::ExchangeResponded { status, body, now } => {
                if !(200 <= status && status < 300) {
                    self.phase = AuthPhase::Aborted;
                    AuthStep::Aborted { error: AuthError::TokenExchangeFailed { status, body } }
                } else {
                    let fields: Option<(String, i64)> = parse_token_response(body.as_slice());
                    match token_from_fields(fields, now) {
                        Ok(token) => {
                            self.phase = AuthPhase::Complete;
                            AuthStep::Finished { token }
                        },
                        Err(e) => {
                            self.phase = AuthPhase::Aborted;
                            AuthStep::Aborted { error: e }
                        },
                    }
                }
            },
        }
    }
}

} // verus!
