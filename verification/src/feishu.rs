//! Feishu sign-in: settings, user sessions, token choice and reply reading.
use vstd::prelude::*;

use url::Url;

use crate::config::{DocumentProviderConfig, DocumentProviderKind};
use crate::error::{error_from, error_with_detail, DeliError, DeliErrorKind};
use crate::remote::{api_url_or, first_of_kind, find_kind, or_text};
use crate::panels::pairs_view;
use crate::text::{
    chars_of, concat, copy_opt_string, i64_text, int_text, is_white, is_white_char, join,
    join_chars, lines, lines_chars, nat_digits, owned, slice_chars, string_of, trim_end_char_seq,
    u64_text,
};

verus! {

/// The settings of the Feishu sign-in flow.
#[derive(Debug, Clone)]
pub struct FeishuAuthConfig {
    pub endpoint: String,
    pub app_id_env: String,
    pub app_secret_env: String,
    pub token_env: String,
    pub authorize_url: String,
    pub token_url: String,
    pub refresh_url: String,
    pub redirect_port: u16,
}

/// A signed-in Feishu user: tokens, their expiry times (Unix seconds) and who
/// the user is.
#[derive(Debug, Clone, PartialEq, Eq)]
pub struct FeishuUserSession {
    pub access_token: String,
    pub refresh_token: String,
    pub expires_at: i64,
    pub refresh_expires_at: Option<i64>,
    pub name: Option<String>,
    pub user_id: Option<String>,
    pub open_id: Option<String>,
}

/// The token data of a Feishu sign-in reply.
#[derive(Debug, Clone)]
pub struct UserTokenData {
    pub access_token: Option<String>,
    pub refresh_token: Option<String>,
    pub expires_in: Option<i64>,
    pub refresh_expires_in: Option<i64>,
    pub name: Option<String>,
    pub user_id: Option<String>,
    pub open_id: Option<String>,
}

/// A Feishu sign-in reply with a status code around the token data.
#[derive(Debug, Clone)]
pub struct UserTokenEnvelope {
    pub code: Option<i64>,
    pub msg: Option<String>,
    pub data: Option<UserTokenData>,
}

/// A Feishu app access token reply.
#[derive(Debug, Clone)]
pub struct AppAccessTokenResponse {
    pub app_access_token: Option<String>,
    pub tenant_access_token: Option<String>,
    pub code: Option<i64>,
    pub msg: Option<String>,
}

/// The sign-in settings drawn from a Feishu provider configuration: its
/// values, with the default variable names and the endpoint's sign-in APIs
/// where it has none.
pub open spec fn auth_config_from(base: DocumentProviderConfig, res: FeishuAuthConfig) -> bool {
    let endpoint = or_text(base.endpoint, "https://open.feishu.cn"@);
    &&& res.endpoint@ == endpoint
    &&& res.app_id_env@ == or_text(base.app_id_env, "FEISHU_APP_ID"@)
    &&& res.app_secret_env@ == or_text(base.app_secret_env, "FEISHU_APP_SECRET"@)
    &&& res.token_env@ == or_text(base.token_env, "FEISHU_ACCESS_TOKEN"@)
    &&& res.authorize_url@ == api_url_or(base.authorize_url, endpoint, "/open-apis/authen/v1/index"@)
    &&& res.token_url@ == api_url_or(base.token_url, endpoint, "/open-apis/authen/v1/access_token"@)
    &&& res.refresh_url@ == api_url_or(
        base.refresh_url,
        endpoint,
        "/open-apis/authen/v1/refresh_access_token"@,
    )
    &&& res.redirect_port == base.redirect_port
}

/// An optional string, else a literal.
fn text_or(o: &Option<String>, fallback: &str) -> (res: String)
    ensures
        res@ == or_text(*o, fallback@),
{
    match o {
        Some(s) => s.clone(),
        None => owned(fallback),
    }
}

/// The given URL, else the endpoint URL with the path.
fn api_url(given: &Option<String>, endpoint: &str, path: &str) -> (res: String)
    ensures
        res@ == api_url_or(*given, endpoint@, path@),
{
    match given {
        Some(u) => u.clone(),
        None => crate::remote::endpoint_url(endpoint, path),
    }
}

/// The sign-in settings of the first Feishu provider; without one, of the
/// defaults: the base from `DELI_FEISHU_API_BASE_URL` (passed in) or
/// `https://open.feishu.cn`, the default variable names and port 32323.
pub fn resolve_feishu_auth_config(configs: &Vec<DocumentProviderConfig>, env_base_url: Option<String>) -> (res:
    FeishuAuthConfig)
    ensures
        match first_of_kind(configs@, DocumentProviderKind::Feishu) {
            Some(i) => auth_config_from(configs@[i], res),
            None => {
                let endpoint = or_text(env_base_url, "https://open.feishu.cn"@);
                &&& res.endpoint@ == endpoint
                &&& res.app_id_env@ == "FEISHU_APP_ID"@
                &&& res.app_secret_env@ == "FEISHU_APP_SECRET"@
                &&& res.token_env@ == "FEISHU_ACCESS_TOKEN"@
                &&& res.authorize_url@ == trim_end_char_seq(endpoint, '/')
                    + "/open-apis/authen/v1/index"@
                &&& res.token_url@ == trim_end_char_seq(endpoint, '/')
                    + "/open-apis/authen/v1/access_token"@
                &&& res.refresh_url@ == trim_end_char_seq(endpoint, '/')
                    + "/open-apis/authen/v1/refresh_access_token"@
                &&& res.redirect_port == 32323
            },
        },
{
    match find_kind(configs, DocumentProviderKind::Feishu) {
        Some(i) => {
            let base = &configs[i];
            let endpoint = text_or(&base.endpoint, "https://open.feishu.cn");
            FeishuAuthConfig {
                app_id_env: text_or(&base.app_id_env, "FEISHU_APP_ID"),
                app_secret_env: text_or(&base.app_secret_env, "FEISHU_APP_SECRET"),
                token_env: text_or(&base.token_env, "FEISHU_ACCESS_TOKEN"),
                authorize_url: api_url(
                    &base.authorize_url,
                    endpoint.as_str(),
                    "/open-apis/authen/v1/index",
                ),
                token_url: api_url(
                    &base.token_url,
                    endpoint.as_str(),
                    "/open-apis/authen/v1/access_token",
                ),
                refresh_url: api_url(
                    &base.refresh_url,
                    endpoint.as_str(),
                    "/open-apis/authen/v1/refresh_access_token",
                ),
                redirect_port: base.redirect_port,
                endpoint,
            }
        },
        None => {
            let endpoint = text_or(&env_base_url, "https://open.feishu.cn");
            FeishuAuthConfig {
                app_id_env: owned("FEISHU_APP_ID"),
                app_secret_env: owned("FEISHU_APP_SECRET"),
                token_env: owned("FEISHU_ACCESS_TOKEN"),
                authorize_url: crate::remote::endpoint_url(
                    endpoint.as_str(),
                    "/open-apis/authen/v1/index",
                ),
                token_url: crate::remote::endpoint_url(
                    endpoint.as_str(),
                    "/open-apis/authen/v1/access_token",
                ),
                refresh_url: crate::remote::endpoint_url(
                    endpoint.as_str(),
                    "/open-apis/authen/v1/refresh_access_token",
                ),
                redirect_port: 32323,
                endpoint,
            }
        },
    }
}

/// Whether `now + t` fits in 64 bits.
pub open spec fn adds_in_range(now: i64, t: i64) -> bool {
    i64::MIN <= now + t <= i64::MAX
}

/// Whether turning token data read at `now` into a session stays in range:
/// when it has an access token, `now` plus the lifetime (7200 seconds when
/// absent) and plus the refresh lifetime (when present) fit in 64 bits.
pub open spec fn session_times_in_range(data: UserTokenData, now: i64) -> bool {
    data.access_token is Some ==> {
        &&& adds_in_range(
            now,
            match data.expires_in {
                Some(t) => t,
                None => 7200,
            },
        )
        &&& data.refresh_expires_in matches Some(t) ==> adds_in_range(now, t)
    }
}

/// The session that token data read at `now` gives: its tokens (an empty
/// refresh token when it has none), expiring `expires_in` seconds (7200 when
/// absent) after `now`, and the user it names.
pub open spec fn is_session_from(s: FeishuUserSession, data: UserTokenData, now: i64) -> bool {
    &&& data.access_token == Some(s.access_token)
    &&& s.refresh_token@ == or_text(data.refresh_token, ""@)
    &&& s.expires_at == now + match data.expires_in {
        Some(t) => t,
        None => 7200,
    }
    &&& s.refresh_expires_at == match data.refresh_expires_in {
        Some(t) => Some((now + t) as i64),
        None => None,
    }
    &&& s.name == data.name
    &&& s.user_id == data.user_id
    &&& s.open_id == data.open_id
}

/// The session that token data read at `now` gives; data without an access
/// token gives "missing Feishu user access token in auth response".
pub fn session_from_user_token_data(data: UserTokenData, now: i64) -> (res: Result<
    FeishuUserSession,
    DeliError,
>)
    requires
        session_times_in_range(data, now),
    ensures
        data.access_token is None ==> (res matches Err(e) && e.kind == DeliErrorKind::Provider
            && e.message@ == "missing Feishu user access token in auth response"@ && e.retry_hint
            is None),
        data.access_token is Some ==> (res matches Ok(s) && is_session_from(s, data, now)),
{
    let access_token = match data.access_token {
        Some(t) => t,
        None => return Err(
            error_from(DeliErrorKind::Provider, "missing Feishu user access token in auth response"),
        ),
    };
    let expires_in = match data.expires_in {
        Some(t) => t,
        None => 7200,
    };
    let refresh_token = match data.refresh_token {
        Some(t) => t,
        None => owned(""),
    };
    let refresh_expires_at = match data.refresh_expires_in {
        Some(t) => Some(now + t),
        None => None,
    };
    Ok(FeishuUserSession {
        access_token,
        refresh_token,
        expires_at: now + expires_in,
        refresh_expires_at,
        name: data.name,
        user_id: data.user_id,
        open_id: data.open_id,
    })
}

/// The session that a sign-in reply read at `now` gives: a non-zero code
/// fails with its message ("Feishu auth request failed" without one), a reply
/// without data with "missing Feishu auth data"; else the data's session.
pub fn session_from_envelope(envelope: UserTokenEnvelope, now: i64) -> (res: Result<
    FeishuUserSession,
    DeliError,
>)
    requires
        envelope.data matches Some(d) ==> session_times_in_range(d, now),
    ensures
        (envelope.code matches Some(c) && c != 0) ==> (res matches Err(e) && e.kind
            == DeliErrorKind::Provider && e.message@ == or_text(
            envelope.msg,
            "Feishu auth request failed"@,
        ) && e.retry_hint is None),
        !(envelope.code matches Some(c) && c != 0) ==> match envelope.data {
            None => res matches Err(e) && e.kind == DeliErrorKind::Provider && e.message@
                == "missing Feishu auth data"@ && e.retry_hint is None,
            Some(d) => match d.access_token {
                None => res matches Err(e) && e.kind == DeliErrorKind::Provider && e.message@
                    == "missing Feishu user access token in auth response"@,
                Some(_) => res matches Ok(s) && is_session_from(s, d, now),
            },
        },
{
    let code = match envelope.code {
        Some(c) => c,
        None => 0,
    };
    if code != 0 {
        let msg = text_or(&envelope.msg, "Feishu auth request failed");
        return Err(DeliError::new(DeliErrorKind::Provider, msg));
    }
    match envelope.data {
        Some(d) => session_from_user_token_data(d, now),
        None => Err(error_from(DeliErrorKind::Provider, "missing Feishu auth data")),
    }
}

/// How words are gathered from text: the finished words and the word under
/// way.
pub open spec fn words_run(s: Seq<char>) -> (Seq<Seq<char>>, Seq<char>)
    decreases s.len(),
{
    if s.len() == 0 {
        (Seq::empty(), Seq::empty())
    } else {
        let (ws, cur) = words_run(s.drop_last());
        if is_white(s.last()) {
            if cur.len() > 0 {
                (ws.push(cur), Seq::empty())
            } else {
                (ws, Seq::empty())
            }
        } else {
            (ws, cur.push(s.last()))
        }
    }
}

/// The maximal runs of non-whitespace characters of a text
/// (`str::split_whitespace`).
pub open spec fn words(s: Seq<char>) -> Seq<Seq<char>> {
    let (ws, cur) = words_run(s);
    if cur.len() > 0 {
        ws.push(cur)
    } else {
        ws
    }
}

/// A reply body for an error message: its words joined with single spaces,
/// cut to 240 characters.
pub open spec fn snippet(body: Seq<char>) -> Seq<char> {
    let compact = join(words(body), " "@);
    if compact.len() <= 240 {
        compact
    } else {
        compact.take(240)
    }
}

/// A reply body for an error message (see `snippet`).
pub fn body_snippet(body: &str) -> (res: String)
    ensures
        res@ == snippet(body@),
{
    let chars = chars_of(body);
    let ws = words_exec(&chars);
    let space = chars_of(" ");
    let compact = join_chars(&ws, &space);
    if compact.len() <= 240 {
        string_of(&compact)
    } else {
        let cut = slice_chars(&compact, 0, 240);
        assert(cut@ =~= compact@.take(240));
        string_of(&cut)
    }
}

/// The error for a reply whose HTTP status is not a success: "failed to
/// <action>: http <status> body: <snippet of the body>"; none for a success.
pub fn http_status_error(action: &str, success: bool, status: &str, body: &str) -> (res: Option<
    DeliError,
>)
    ensures
        success ==> res is None,
        !success ==> (res matches Some(e) && e.kind == DeliErrorKind::Provider && e.message@
            == "failed to "@ + action@ + ": http "@ + status@ + " body: "@ + snippet(body@)
            && e.retry_hint is None),
{
    if success {
        return None;
    }
    let mut msg = owned("failed to ");
    msg.append(action);
    msg.append(": http ");
    msg.append(status);
    msg.append(" body: ");
    let cut = body_snippet(body);
    msg.append(cut.as_str());
    Some(DeliError::new(DeliErrorKind::Provider, msg))
}

/// The app access token a reply gives: a non-zero code fails with "Feishu
/// app access token request failed: <msg or unknown error>"; else the app
/// token, else the tenant token, else an error naming the body.
pub fn app_access_token_from(parsed: AppAccessTokenResponse, body: &str) -> (res: Result<
    String,
    DeliError,
>)
    ensures
        (parsed.code matches Some(c) && c != 0) ==> (res matches Err(e) && e.kind
            == DeliErrorKind::Provider && e.message@ == "Feishu app access token request failed: "@
            + or_text(parsed.msg, "unknown error"@)),
        !(parsed.code matches Some(c) && c != 0) ==> match parsed.app_access_token {
            Some(t) => res == Ok::<String, DeliError>(t),
            None => match parsed.tenant_access_token {
                Some(t) => res == Ok::<String, DeliError>(t),
                None => res matches Err(e) && e.kind == DeliErrorKind::Provider && e.message@
                    == "Feishu app access token response missing token field; body: "@ + snippet(
                    body@,
                ),
            },
        },
{
    let code = match parsed.code {
        Some(c) => c,
        None => 0,
    };
    if code != 0 {
        let msg = text_or(&parsed.msg, "unknown error");
        return Err(
            error_with_detail(
                DeliErrorKind::Provider,
                "Feishu app access token request failed: ",
                msg.as_str(),
            ),
        );
    }
    match parsed.app_access_token {
        Some(t) => Ok(t),
        None => match parsed.tenant_access_token {
            Some(t) => Ok(t),
            None => {
                let snip = body_snippet(body);
                Err(
                    error_with_detail(
                        DeliErrorKind::Provider,
                        "Feishu app access token response missing token field; body: ",
                        snip.as_str(),
                    ),
                )
            },
        },
    }
}

/// Where the access token for Feishu requests comes from.
#[derive(Debug, Clone, PartialEq, Eq)]
pub enum FeishuTokenPlan {
    /// The stored session's access token, still valid.
    UseSession(String),
    /// Refresh the stored session with this refresh token, store and use the
    /// new one.
    Refresh(String),
    /// Read the fallback token variable.
    UseEnvironment,
}

/// The token plan for a stored session at `now`: its access token while it
/// is valid for more than a minute, else a refresh when it has a refresh
/// token, else (as without a session) the fallback variable.
pub open spec fn token_plan(session: Option<FeishuUserSession>, now: i64) -> FeishuTokenPlan {
    match session {
        Some(s) => if s.expires_at > now + 60 {
            FeishuTokenPlan::UseSession(s.access_token)
        } else if s.refresh_token@.len() > 0 {
            FeishuTokenPlan::Refresh(s.refresh_token)
        } else {
            FeishuTokenPlan::UseEnvironment
        },
        None => FeishuTokenPlan::UseEnvironment,
    }
}

/// Chooses where the access token comes from (see `token_plan`).
pub fn feishu_token_plan(session: Option<&FeishuUserSession>, now: i64) -> (res: FeishuTokenPlan)
    requires
        now <= i64::MAX - 60,
    ensures
        res == token_plan(
            match session {
                Some(s) => Some(*s),
                None => None,
            },
            now,
        ),
{
    match session {
        Some(s) => if s.expires_at > now + 60 {
            FeishuTokenPlan::UseSession(s.access_token.clone())
        } else if !s.refresh_token.as_str().is_empty() {
            FeishuTokenPlan::Refresh(s.refresh_token.clone())
        } else {
            FeishuTokenPlan::UseEnvironment
        },
        None => FeishuTokenPlan::UseEnvironment,
    }
}

/// The error when neither a session nor the fallback variable gives a token.
pub fn missing_token_error(token_env: &str) -> (res: DeliError)
    ensures
        res.kind == DeliErrorKind::Configuration,
        res.message@ == "no Feishu user session or fallback env token found in "@ + token_env@,
        res.retry_hint matches Some(h) && h@
            == "Run `connect feishu` in deli or set a fallback access token env var."@,
{
    error_with_detail(
        DeliErrorKind::Configuration,
        "no Feishu user session or fallback env token found in ",
        token_env,
    ).with_retry_hint(owned("Run `connect feishu` in deli or set a fallback access token env var."))
}

/// How a connected user is named: the session's name, else its user id,
/// else "connected Feishu user".
pub fn session_label(session: &FeishuUserSession) -> (res: String)
    ensures
        res@ == match session.name {
            Some(n) => n@,
            None => or_text(session.user_id, "connected Feishu user"@),
        },
{
    match &session.name {
        Some(n) => n.clone(),
        None => text_or(&session.user_id, "connected Feishu user"),
    }
}

/// The local callback URL of the sign-in flow on a port.
pub fn redirect_uri(port: u16) -> (res: String)
    ensures
        res@ == "http://127.0.0.1:"@ + nat_digits(port as nat) + "/callback"@,
{
    let p = u64_text(port as u64);
    let mut s = owned("http://127.0.0.1:");
    s.append(p.as_str());
    s.append("/callback");
    s
}

/// The state value of a sign-in started at `now`: `deli-<now>`.
pub fn auth_state(now: i64) -> (res: String)
    ensures
        res@ == "deli-"@ + int_text(now as int),
{
    let n = i64_text(now);
    concat("deli-", n.as_str())
}

/// The URL text that `url::Url` gives for a base URL with the query pairs
/// appended, or the base's parse error text.
pub uninterp spec fn url_with_pairs_of(base: Seq<char>, pairs: Seq<(Seq<char>, Seq<char>)>) -> Result<
    Seq<char>,
    Seq<char>,
>;

/// Parses the base with `url::Url::parse` and appends the pairs
/// (form-encoded) with `query_pairs_mut().extend_pairs`, returning the URL
/// text or the parse error's text. The contract only names the result.
#[verifier::external_body]
pub(crate) fn url_with_query_pairs(base: &str, pairs: &Vec<(String, String)>) -> (res: Result<String, String>)
    ensures
        match res {
            Ok(u) => url_with_pairs_of(base@, pairs_view(pairs@)) == Ok::<Seq<char>, Seq<char>>(u@),
            Err(e) => url_with_pairs_of(base@, pairs_view(pairs@)) == Err::<Seq<char>, Seq<char>>(
                e@,
            ),
        },
{
    let mut url = match Url::parse(base) {
        Ok(url) => url,
        Err(error) => return Err(error.to_string()),
    };
    url.query_pairs_mut().extend_pairs(pairs.iter());
    Ok(url.to_string())
}

/// The query pairs of the sign-in: app id, callback and state.
pub open spec fn authorize_pairs(app_id: Seq<char>, redirect_uri: Seq<char>, state: Seq<char>) -> Seq<
    (Seq<char>, Seq<char>),
> {
    seq![("app_id"@, app_id), ("redirect_uri"@, redirect_uri), ("state"@, state)]
}

/// The browser URL that starts the sign-in: the authorize URL with the app
/// id, callback and state; a base that does not parse gives a configuration
/// error with the parse error's text.
pub fn build_authorize_url(authorize_url: &str, app_id: &str, redirect_uri: &str, state: &str) -> (res:
    Result<String, DeliError>)
    ensures
        match url_with_pairs_of(authorize_url@, authorize_pairs(app_id@, redirect_uri@, state@)) {
            Ok(u) => res matches Ok(r) && r@ == u,
            Err(e) => res matches Err(err) && err.kind == DeliErrorKind::Configuration
                && err.message@ == e && err.retry_hint is None,
        },
{
    let mut pairs: Vec<(String, String)> = Vec::new();
    pairs.push((owned("app_id"), owned(app_id)));
    pairs.push((owned("redirect_uri"), owned(redirect_uri)));
    pairs.push((owned("state"), owned(state)));
    assert(pairs_view(pairs@) =~= authorize_pairs(app_id@, redirect_uri@, state@));
    match url_with_query_pairs(authorize_url, &pairs) {
        Ok(u) => Ok(u),
        Err(e) => Err(DeliError::new(DeliErrorKind::Configuration, e)),
    }
}

/// The query pairs of a URL as `url::Url` reads them (decoded), or its parse
/// error text.
pub uninterp spec fn query_pairs_of(url: Seq<char>) -> Result<Seq<(Seq<char>, Seq<char>)>, Seq<char>>;

/// Parses the URL with `url::Url::parse` and returns its `query_pairs`
/// (decoded, in order), or the parse error's text. The contract only names
/// the result.
#[verifier::external_body]
fn url_query_pairs(url: &str) -> (res: Result<Vec<(String, String)>, String>)
    ensures
        match res {
            Ok(p) => query_pairs_of(url@) == Ok::<Seq<(Seq<char>, Seq<char>)>, Seq<char>>(
                pairs_view(p@),
            ),
            Err(e) => query_pairs_of(url@) == Err::<Seq<(Seq<char>, Seq<char>)>, Seq<char>>(e@),
        },
{
    match Url::parse(url) {
        Ok(parsed) => Ok(parsed.query_pairs().map(|(k, v)| (k.into_owned(), v.into_owned())).collect()),
        Err(error) => Err(error.to_string()),
    }
}

/// The path of the sign-in callback request: the second word of its first
/// line, else `/callback`.
pub open spec fn callback_path(request: Seq<char>) -> Seq<char> {
    let first: Seq<char> = if lines(request).len() > 0 {
        lines(request)[0]
    } else {
        Seq::empty()
    };
    if words(first).len() > 1 {
        words(first)[1]
    } else {
        "/callback"@
    }
}

/// The value of the first pair with the key, if any.
pub open spec fn first_value(pairs: Seq<(Seq<char>, Seq<char>)>, key: Seq<char>) -> Option<Seq<char>>
    decreases pairs.len(),
{
    if pairs.len() == 0 {
        None
    } else if pairs[0].0 == key {
        Some(pairs[0].1)
    } else {
        first_value(pairs.drop_first(), key)
    }
}

/// What the sign-in callback server answers a request, and what it got from
/// it: the authorization code, or why not.
#[derive(Debug)]
pub struct CallbackAnswer {
    /// The HTTP reply to send back, when one is sent.
    pub reply: Option<String>,
    pub result: Result<String, DeliError>,
}

/// The reply when the callback's state is the expected one.
pub open spec fn callback_ok_reply() -> Seq<char> {
    "HTTP/1.1 200 OK\r\nContent-Type: text/plain\r\nConnection: close\r\n\r\nFeishu authorization completed. You can return to deli."@
}

/// The reply when the callback's state is not the expected one.
pub open spec fn callback_bad_reply() -> Seq<char> {
    "HTTP/1.1 400 Bad Request\r\nContent-Type: text/plain\r\nConnection: close\r\n\r\nInvalid authorization state."@
}

/// An error of the runtime kind with the given message.
pub open spec fn is_runtime_error(e: DeliError, message: Seq<char>) -> bool {
    e.kind == DeliErrorKind::Runtime && e.message@ == message && e.retry_hint is None
}

/// How the callback server answers a request: the request path's query must
/// parse and hold a `code`; then the reply accepts it when its `state` (empty
/// when missing) is the expected one, and refuses it otherwise.
pub open spec fn is_callback_answer(a: CallbackAnswer, request: Seq<char>, expected: Seq<char>) -> bool {
    match query_pairs_of("http://127.0.0.1"@ + callback_path(request)) {
        Err(e) => a.reply is None && (a.result matches Err(err) && is_runtime_error(err, e)),
        Ok(pairs) => match first_value(pairs, "code"@) {
            None => a.reply is None && (a.result matches Err(err) && is_runtime_error(
                err,
                "missing auth code"@,
            )),
            Some(code) => {
                let state = match first_value(pairs, "state"@) {
                    Some(s) => s,
                    None => Seq::empty(),
                };
                if state == expected {
                    &&& a.reply matches Some(r) && r@ == callback_ok_reply()
                    &&& a.result matches Ok(c) && c@ == code
                } else {
                    &&& a.reply matches Some(r) && r@ == callback_bad_reply()
                    &&& a.result matches Err(err) && is_runtime_error(
                        err,
                        "authorization state mismatch"@,
                    )
                }
            },
        },
    }
}

/// The words of the characters, split at whitespace.
fn words_exec(chars: &Vec<char>) -> (res: Vec<Vec<char>>)
    ensures
        res@.map_values(|w: Vec<char>| w@) == words(chars@),
{
    let mut ws: Vec<Vec<char>> = Vec::new();
    let mut cur: Vec<char> = Vec::new();
    let mut i: usize = 0;
    while i < chars.len()
        invariant
            i <= chars.len(),
            words_run(chars@.take(i as int)) == (ws@.map_values(|w: Vec<char>| w@), cur@),
        decreases chars.len() - i,
    {
        let c = chars[i];
        assert(chars@.take(i + 1).drop_last() =~= chars@.take(i as int));
        assert(chars@.take(i + 1).last() == c);
        let ghost before = ws@.map_values(|w: Vec<char>| w@);
        if is_white_char(c) {
            if cur.len() > 0 {
                let w = slice_chars(&cur, 0, cur.len());
                assert(w@ =~= cur@);
                ws.push(w);
                assert(ws@.map_values(|w: Vec<char>| w@) =~= before.push(cur@));
                cur = Vec::new();
            } else {
                cur = Vec::new();
            }
        } else {
            cur.push(c);
        }
        i += 1;
    }
    assert(chars@.take(chars.len() as int) =~= chars@);
    if cur.len() > 0 {
        let ghost before = ws@.map_values(|w: Vec<char>| w@);
        let w = slice_chars(&cur, 0, cur.len());
        assert(w@ =~= cur@);
        ws.push(w);
        assert(ws@.map_values(|w: Vec<char>| w@) =~= before.push(cur@));
    }
    ws
}

/// The value of the first pair with the key (see `first_value`).
fn find_value(pairs: &Vec<(String, String)>, key: &str) -> (res: Option<String>)
    ensures
        match first_value(pairs_view(pairs@), key@) {
            Some(v) => res matches Some(r) && r@ == v,
            None => res is None,
        },
{
    let mut i: usize = 0;
    let target = owned(key);
    assert(pairs_view(pairs@).skip(0) =~= pairs_view(pairs@));
    while i < pairs.len()
        invariant
            i <= pairs.len(),
            target@ == key@,
            first_value(pairs_view(pairs@), key@) == first_value(pairs_view(pairs@).skip(i as int), key@),
        decreases pairs.len() - i,
    {
        assert(pairs_view(pairs@).skip(i as int)[0] == (pairs@[i as int].0@, pairs@[i as int].1@));
        assert(pairs_view(pairs@).skip(i as int).drop_first() =~= pairs_view(pairs@).skip(i + 1));
        if pairs[i].0 == target {
            return Some(pairs[i].1.clone());
        }
        i += 1;
    }
    None
}

/// Answers the sign-in callback request (see `is_callback_answer`).
pub fn read_callback(request: &str, expected_state: &str) -> (res: CallbackAnswer)
    ensures
        is_callback_answer(res, request@, expected_state@),
{
    let all = lines_chars(&chars_of(request));
    let first: Vec<char> = if all.len() > 0 {
        slice_chars(&all[0], 0, all[0].len())
    } else {
        Vec::new()
    };
    proof {
        assert(all@.map_values(|p: Vec<char>| p@).len() == all@.len());
        if all@.len() > 0 {
            assert(all@.map_values(|p: Vec<char>| p@)[0] == all@[0]@);
            assert(first@ =~= all@[0]@);
        }
    }
    let ws = words_exec(&first);
    let path = if ws.len() > 1 {
        proof {
            assert(ws@.map_values(|w: Vec<char>| w@)[1] == ws@[1]@);
        }
        string_of(&ws[1])
    } else {
        owned("/callback")
    };
    let url = concat("http://127.0.0.1", path.as_str());
    let pairs = match url_query_pairs(url.as_str()) {
        Ok(p) => p,
        Err(e) => {
            return CallbackAnswer {
                reply: None,
                result: Err(DeliError::new(DeliErrorKind::Runtime, e)),
            };
        },
    };
    let code = match find_value(&pairs, "code") {
        Some(c) => c,
        None => {
            return CallbackAnswer {
                reply: None,
                result: Err(error_from(DeliErrorKind::Runtime, "missing auth code")),
            };
        },
    };
    let state = match find_value(&pairs, "state") {
        Some(s) => s,
        None => String::new(),
    };
    if state == owned(expected_state) {
        CallbackAnswer {
            reply: Some(
                owned(
                    "HTTP/1.1 200 OK\r\nContent-Type: text/plain\r\nConnection: close\r\n\r\nFeishu authorization completed. You can return to deli.",
                ),
            ),
            result: Ok(code),
        }
    } else {
        CallbackAnswer {
            reply: Some(
                owned(
                    "HTTP/1.1 400 Bad Request\r\nContent-Type: text/plain\r\nConnection: close\r\n\r\nInvalid authorization state.",
                ),
            ),
            result: Err(error_from(DeliErrorKind::Runtime, "authorization state mismatch")),
        }
    }
}

} // verus!
