//! Remote documents on Notion and Feishu/Lark: recognizing their URLs,
//! configuring their providers, building API paths and reading replies.
use vstd::prelude::*;

use url::Url;

use crate::config::{
    default_notion_version, default_redirect_port, document_kind, document_kind_of,
    same_document_config, DocumentProviderConfig, DocumentProviderKind,
};
use crate::document::{
    opt_view, document_title, normalized_blocks, nodes_view, DocumentFormat, DocumentResource,
};
use crate::error::{error_from, error_with_detail, DeliError, DeliErrorKind};
use crate::text::{
    append_str, ascii_lower, ascii_lower_chars, chars_of, concat, concat3, contains,
    contains_chars, copy_opt_string, copy_strings, owned, slice_chars, split, split_chars,
    string_of, trim, trim_char, trim_chars, trim_end_char_seq, trim_end_slashes, trim_matches_char,
};

verus! {

/// A document URL recognized as Notion page or a Feishu/Lark document.
#[derive(Debug, Clone, PartialEq, Eq)]
pub enum RemoteDocumentRef {
    Notion { page_id: String, url: String },
    Feishu { document_id: String, url: String },
}

/// Where a URL points, as characters.
pub enum RemoteTarget {
    Notion(Seq<char>),
    Feishu(Seq<char>),
}

/// The host (if any) and the path that `url::Url::parse` gives for a URL, or
/// the text of its parse error.
pub uninterp spec fn url_parts_of(url: Seq<char>) -> Result<(Option<Seq<char>>, Seq<char>), Seq<char>>;

/// Whether every character is ASCII.
pub open spec fn all_ascii(s: Seq<char>) -> bool {
    forall|k: int| 0 <= k < s.len() ==> (s[k] as u32) < 128
}

/// Parses a URL with `url::Url::parse` and returns `host_str()` and `path()`,
/// or the parse error's text. The contract names the result and states, as
/// `Url::path`'s documentation does, that the path is percent-encoded ASCII.
#[verifier::external_body]
fn url_host_and_path(url: &str) -> (res: Result<(Option<String>, String), String>)
    ensures
        match res {
            Ok((host, path)) => url_parts_of(url@) == Ok::<(Option<Seq<char>>, Seq<char>), Seq<char>>(
                (
                    match host {
                        Some(h) => Some(h@),
                        None => None,
                    },
                    path@,
                ),
            ) && all_ascii(path@),
            Err(e) => url_parts_of(url@) == Err::<(Option<Seq<char>>, Seq<char>), Seq<char>>(e@),
        },
{
    match Url::parse(url) {
        Ok(parsed) => Ok((parsed.host_str().map(|h| h.to_string()), parsed.path().to_string())),
        Err(error) => Err(error.to_string()),
    }
}

/// The last piece of `s` split at `c`.
pub open spec fn last_piece(s: Seq<char>, c: char) -> Seq<char> {
    split(s, c).last()
}

/// The page id candidate of a Notion path: the part after the last `-` of
/// the last segment, trimmed.
pub open spec fn notion_candidate(path: Seq<char>) -> Seq<char> {
    trim(last_piece(last_piece(trim_char(path, '/'), '/'), '-'))
}

/// The position of the first segment equal to `name`.
pub open spec fn segment_position(segments: Seq<Seq<char>>, name: Seq<char>) -> Option<int>
    decreases segments.len(),
{
    if segments.len() == 0 {
        None
    } else if segments[0] == name {
        Some(0)
    } else {
        match segment_position(segments.drop_first(), name) {
            Some(i) => Some(i + 1),
            None => None,
        }
    }
}

/// The segment after the first segment equal to `name`, if both exist.
pub open spec fn segment_after(segments: Seq<Seq<char>>, name: Seq<char>) -> Option<Seq<char>> {
    match segment_position(segments, name) {
        Some(i) => if i + 1 < segments.len() {
            Some(segments[i + 1])
        } else {
            None
        },
        None => None,
    }
}

/// Whether a lowered host belongs to Notion.
pub open spec fn is_notion_host(host: Seq<char>) -> bool {
    contains(host, "notion.so"@) || contains(host, "notion.site"@)
}

/// Whether a lowered host belongs to Feishu or Lark.
pub open spec fn is_feishu_host(host: Seq<char>) -> bool {
    contains(host, "feishu.cn"@) || contains(host, "larksuite.com"@) || contains(
        host,
        "larkoffice.com"@,
    )
}

/// What a URL's host and path point to: on a Notion host, the page id
/// candidate when it has at least 32 characters; on a Feishu/Lark host, the
/// segment after `docx`, else the one after `wiki`.
pub open spec fn remote_target(host: Option<Seq<char>>, path: Seq<char>) -> Option<RemoteTarget> {
    let h = ascii_lower(
        match host {
            Some(h) => h,
            None => Seq::empty(),
        },
    );
    let segments = split(trim_char(path, '/'), '/');
    if is_notion_host(h) && notion_candidate(path).len() >= 32 {
        Some(RemoteTarget::Notion(notion_candidate(path)))
    } else if is_feishu_host(h) && segment_after(segments, "docx"@) is Some {
        Some(RemoteTarget::Feishu(segment_after(segments, "docx"@)->0))
    } else if is_feishu_host(h) && segment_after(segments, "wiki"@) is Some {
        Some(RemoteTarget::Feishu(segment_after(segments, "wiki"@)->0))
    } else {
        None
    }
}

/// The reference a URL becomes, given its target.
pub open spec fn reference_matches(res: RemoteDocumentRef, target: RemoteTarget, url: Seq<char>) -> bool {
    match (res, target) {
        (RemoteDocumentRef::Notion { page_id, url: u }, RemoteTarget::Notion(id)) => page_id@ == id
            && u@ == url,
        (RemoteDocumentRef::Feishu { document_id, url: u }, RemoteTarget::Feishu(id)) => document_id@
            == id && u@ == url,
        _ => false,
    }
}

/// The error for a URL that points to no known document.
pub open spec fn is_unsupported_url_error(e: DeliError) -> bool {
    &&& e.kind == DeliErrorKind::Configuration
    &&& e.message@ == "unsupported remote document URL"@
    &&& e.retry_hint matches Some(h) && h@ == "Paste a full Notion or Feishu/Lark document URL."@
}

/// The last element of a non-empty list of pieces.
fn last_of(parts: &Vec<Vec<char>>) -> (res: Vec<char>)
    requires
        parts.len() > 0,
    ensures
        res@ == parts@.last()@,
{
    let p = &parts[parts.len() - 1];
    slice_chars(p, 0, p.len())
}

/// The segment after the first segment equal to `name`, if both exist.
fn segment_after_exec(segments: &Vec<Vec<char>>, name: &Vec<char>) -> (res: Option<Vec<char>>)
    ensures
        match res {
            Some(s) => segment_after(segments@.map_values(|p: Vec<char>| p@), name@) == Some(s@),
            None => segment_after(segments@.map_values(|p: Vec<char>| p@), name@) is None,
        },
{
    let ghost sv = segments@.map_values(|p: Vec<char>| p@);
    let mut i: usize = 0;
    assert(sv.skip(0) =~= sv);
    while i < segments.len()
        invariant
            i <= segments.len(),
            sv == segments@.map_values(|p: Vec<char>| p@),
            ({
                let r = segment_position(sv.skip(i as int), name@);
                match segment_position(sv, name@) {
                    Some(k) => r is Some && k == r->0 + i,
                    None => r is None,
                }
            }),
        decreases segments.len() - i,
    {
        let ghost rest = sv.skip(i as int);
        assert(rest[0] == segments@[i as int]@);
        let same = segments[i].len() == name.len() && crate::text::starts_with_chars(
            &segments[i],
            name,
        );
        assert(same == (segments@[i as int]@ == name@)) by {
            if segments@[i as int]@.len() == name@.len() {
                assert(segments@[i as int]@.take(name@.len() as int) =~= segments@[i as int]@);
            }
        }
        if same {
            if i + 1 < segments.len() {
                let s = &segments[i + 1];
                return Some(slice_chars(s, 0, s.len()));
            }
            return None;
        }
        assert(rest.drop_first() =~= sv.skip(i + 1));
        i += 1;
    }
    None
}

/// The error for a URL that points to no known document.
fn unsupported_url_error() -> (res: DeliError)
    ensures
        is_unsupported_url_error(res),
{
    error_from(DeliErrorKind::Configuration, "unsupported remote document URL").with_retry_hint(
        owned("Paste a full Notion or Feishu/Lark document URL."),
    )
}

/// The reference for a URL given the host and path its parse gave: Notion or
/// Feishu as `remote_target` says, else the unsupported URL error.
pub fn remote_reference_from_parts(url: &str, host: Option<String>, path: &str) -> (res: Result<
    RemoteDocumentRef,
    DeliError,
>)
    ensures
        match remote_target(opt_view(host), path@) {
            Some(t) => res matches Ok(r) && reference_matches(r, t, url@),
            None => res matches Err(e) && is_unsupported_url_error(e),
        },
{
    let host_chars = match &host {
        Some(h) => chars_of(h.as_str()),
        None => Vec::new(),
    };
    let lowered = ascii_lower_chars(&host_chars);
    let path_chars = chars_of(path);
    let trimmed = trim_matches_char(&path_chars, '/');
    let segments = split_chars(&trimmed, '/');
    proof {
        crate::text::lemma_split_nonempty(trimmed@, '/');
    }
    let notion_host = contains_chars(&lowered, &chars_of("notion.so")) || contains_chars(
        &lowered,
        &chars_of("notion.site"),
    );
    if notion_host {
        let last_segment = last_of(&segments);
        let pieces = split_chars(&last_segment, '-');
        proof {
            crate::text::lemma_split_nonempty(last_segment@, '-');
        }
        let last_piece_chars = last_of(&pieces);
        let candidate = trim_chars(&last_piece_chars);
        if candidate.len() >= 32 {
            return Ok(
                RemoteDocumentRef::Notion { page_id: string_of(&candidate), url: owned(url) },
            );
        }
    }
    let feishu_host = contains_chars(&lowered, &chars_of("feishu.cn")) || contains_chars(
        &lowered,
        &chars_of("larksuite.com"),
    ) || contains_chars(&lowered, &chars_of("larkoffice.com"));
    if feishu_host {
        match segment_after_exec(&segments, &chars_of("docx")) {
            Some(id) => {
                return Ok(
                    RemoteDocumentRef::Feishu { document_id: string_of(&id), url: owned(url) },
                );
            },
            None => {},
        }
        match segment_after_exec(&segments, &chars_of("wiki")) {
            Some(id) => {
                return Ok(
                    RemoteDocumentRef::Feishu { document_id: string_of(&id), url: owned(url) },
                );
            },
            None => {},
        }
    }
    Err(unsupported_url_error())
}

/// Recognizes a Notion page or Feishu/Lark document URL (see
/// `remote_target`); a URL that does not parse gives a configuration error
/// "invalid remote document URL: <parse error>".
pub fn parse_remote_document_url(url: &str) -> (res: Result<RemoteDocumentRef, DeliError>)
    ensures
        match url_parts_of(url@) {
            Err(e) => res matches Err(err) && err.kind == DeliErrorKind::Configuration
                && err.message@ == "invalid remote document URL: "@ + e && err.retry_hint is None,
            Ok((host, path)) => match remote_target(host, path) {
                Some(t) => res matches Ok(r) && reference_matches(r, t, url@),
                None => res matches Err(e) && is_unsupported_url_error(e),
            },
        },
{
    match url_host_and_path(url) {
        Ok((host, path)) => remote_reference_from_parts(url, host, path.as_str()),
        Err(e) => Err(
            error_with_detail(DeliErrorKind::Configuration, "invalid remote document URL: ", e.as_str()),
        ),
    }
}


/// A configured Notion document provider.
#[derive(Debug, Clone)]
pub struct NotionDocumentProvider {
    pub name: String,
    pub endpoint: String,
    pub token_env: String,
    pub notion_version: String,
    pub ids: Vec<String>,
}

/// A configured Feishu/Lark document provider, with its sign-in settings.
#[derive(Debug, Clone)]
pub struct FeishuDocumentProvider {
    pub name: String,
    pub endpoint: String,
    pub token_env: String,
    pub app_id_env: String,
    pub app_secret_env: String,
    pub authorize_url: String,
    pub token_url: String,
    pub refresh_url: String,
    pub redirect_port: u16,
    pub ids: Vec<String>,
}

/// The error for a provider configuration that lacks a setting: "document
/// provider '<name>' is missing <setting>".
pub open spec fn is_missing_setting_error(e: DeliError, name: Seq<char>, setting: Seq<char>) -> bool {
    e.kind == DeliErrorKind::Configuration && e.message@ == "document provider '"@ + name
        + "' is missing "@ + setting && e.retry_hint is None
}

/// The error for a provider configuration that lacks a setting.
fn missing_setting(name: &String, setting: &str) -> (res: DeliError)
    ensures
        is_missing_setting_error(res, name@, setting@),
{
    let mut msg = owned("document provider '");
    msg.append(name.as_str());
    msg.append("' is missing ");
    msg.append(setting);
    DeliError::new(DeliErrorKind::Configuration, msg)
}

/// A URL of the sign-in API: the given one, else the endpoint without its
/// trailing slashes followed by the path.
pub open spec fn api_url_or(given: Option<String>, endpoint: Seq<char>, path: Seq<char>) -> Seq<char> {
    match given {
        Some(u) => u@,
        None => trim_end_char_seq(endpoint, '/') + path,
    }
}

/// The endpoint without its trailing slashes followed by the path.
pub fn endpoint_url(endpoint: &str, path: &str) -> (res: String)
    ensures
        res@ == trim_end_char_seq(endpoint@, '/') + path@,
{
    let mut v = trim_end_slashes(endpoint);
    append_str(&mut v, path);
    string_of(&v)
}

/// The given URL, else the endpoint URL with the path.
fn url_or(given: &Option<String>, endpoint: &str, path: &str) -> (res: String)
    ensures
        res@ == api_url_or(*given, endpoint@, path@),
{
    match given {
        Some(u) => u.clone(),
        None => endpoint_url(endpoint, path),
    }
}

/// An optional string, else a literal.
pub open spec fn or_text(o: Option<String>, fallback: Seq<char>) -> Seq<char> {
    match o {
        Some(s) => s@,
        None => fallback,
    }
}

/// An optional string, else a literal.
fn string_or(o: &Option<String>, fallback: &str) -> (res: String)
    ensures
        res@ == or_text(*o, fallback@),
{
    match o {
        Some(s) => s.clone(),
        None => owned(fallback),
    }
}

impl NotionDocumentProvider {
    /// A Notion provider from its configuration; the endpoint and the token
    /// variable are required, in that order.
    pub fn new(config: &DocumentProviderConfig) -> (res: Result<Self, DeliError>)
        ensures
            config.endpoint is None ==> (res matches Err(e) && is_missing_setting_error(
                e,
                config.name@,
                "endpoint"@,
            )),
            config.endpoint is Some && config.token_env is None ==> (res matches Err(e)
                && is_missing_setting_error(e, config.name@, "token_env"@)),
            config.endpoint is Some && config.token_env is Some ==> (res matches Ok(p) && p.name
                == config.name && p.endpoint == config.endpoint->0 && p.token_env
                == config.token_env->0 && p.notion_version == config.notion_version && p.ids@
                == config.ids@),
    {
        let endpoint = match &config.endpoint {
            Some(e) => e.clone(),
            None => return Err(missing_setting(&config.name, "endpoint")),
        };
        let token_env = match &config.token_env {
            Some(t) => t.clone(),
            None => return Err(missing_setting(&config.name, "token_env")),
        };
        Ok(NotionDocumentProvider {
            name: config.name.clone(),
            endpoint,
            token_env,
            notion_version: config.notion_version.clone(),
            ids: copy_strings(&config.ids),
        })
    }
}

impl FeishuDocumentProvider {
    /// A Feishu provider from its configuration; the endpoint and the token
    /// variable are required, in that order. The app id and secret variables
    /// default to `FEISHU_APP_ID` and `FEISHU_APP_SECRET`, the sign-in URLs to
    /// the endpoint's `/open-apis/authen/v1/` APIs.
    pub fn new(config: &DocumentProviderConfig) -> (res: Result<Self, DeliError>)
        ensures
            config.endpoint is None ==> (res matches Err(e) && is_missing_setting_error(
                e,
                config.name@,
                "endpoint"@,
            )),
            config.endpoint is Some && config.token_env is None ==> (res matches Err(e)
                && is_missing_setting_error(e, config.name@, "token_env"@)),
            config.endpoint is Some && config.token_env is Some ==> (res matches Ok(p) && {
                let endpoint = config.endpoint->0@;
                &&& p.name == config.name
                &&& p.endpoint@ == endpoint
                &&& p.token_env == config.token_env->0
                &&& p.app_id_env@ == or_text(config.app_id_env, "FEISHU_APP_ID"@)
                &&& p.app_secret_env@ == or_text(config.app_secret_env, "FEISHU_APP_SECRET"@)
                &&& p.authorize_url@ == api_url_or(
                    config.authorize_url,
                    endpoint,
                    "/open-apis/authen/v1/index"@,
                )
                &&& p.token_url@ == api_url_or(
                    config.token_url,
                    endpoint,
                    "/open-apis/authen/v1/access_token"@,
                )
                &&& p.refresh_url@ == api_url_or(
                    config.refresh_url,
                    endpoint,
                    "/open-apis/authen/v1/refresh_access_token"@,
                )
                &&& p.redirect_port == config.redirect_port
                &&& p.ids@ == config.ids@
            }),
    {
        let endpoint = match &config.endpoint {
            Some(e) => e.clone(),
            None => return Err(missing_setting(&config.name, "endpoint")),
        };
        let token_env = match &config.token_env {
            Some(t) => t.clone(),
            None => return Err(missing_setting(&config.name, "token_env")),
        };
        let authorize_url = url_or(
            &config.authorize_url,
            endpoint.as_str(),
            "/open-apis/authen/v1/index",
        );
        let token_url = url_or(
            &config.token_url,
            endpoint.as_str(),
            "/open-apis/authen/v1/access_token",
        );
        let refresh_url = url_or(
            &config.refresh_url,
            endpoint.as_str(),
            "/open-apis/authen/v1/refresh_access_token",
        );
        Ok(FeishuDocumentProvider {
            name: config.name.clone(),
            endpoint,
            token_env,
            app_id_env: string_or(&config.app_id_env, "FEISHU_APP_ID"),
            app_secret_env: string_or(&config.app_secret_env, "FEISHU_APP_SECRET"),
            authorize_url,
            token_url,
            refresh_url,
            redirect_port: config.redirect_port,
            ids: copy_strings(&config.ids),
        })
    }

    /// The configuration that the provider's access token is resolved from:
    /// its settings as a Feishu provider configuration.
    pub fn auth_source_config(&self) -> (res: DocumentProviderConfig)
        ensures
            res.name == self.name,
            res.kind == Some(DocumentProviderKind::Feishu),
            res.command is None,
            res.endpoint == Some(self.endpoint),
            res.token_env == Some(self.token_env),
            res.app_id_env == Some(self.app_id_env),
            res.app_secret_env == Some(self.app_secret_env),
            res.authorize_url == Some(self.authorize_url),
            res.token_url == Some(self.token_url),
            res.refresh_url == Some(self.refresh_url),
            res.notion_version@ == "2026-03-11"@,
            res.ids@ == self.ids@,
            res.redirect_port == self.redirect_port,
    {
        DocumentProviderConfig {
            name: self.name.clone(),
            kind: Some(DocumentProviderKind::Feishu),
            command: None,
            endpoint: Some(self.endpoint.clone()),
            token_env: Some(self.token_env.clone()),
            app_id_env: Some(self.app_id_env.clone()),
            app_secret_env: Some(self.app_secret_env.clone()),
            authorize_url: Some(self.authorize_url.clone()),
            token_url: Some(self.token_url.clone()),
            refresh_url: Some(self.refresh_url.clone()),
            notion_version: default_notion_version(),
            ids: copy_strings(&self.ids),
            redirect_port: self.redirect_port,
        }
    }
}

/// The Notion API path of a page's Markdown.
pub fn notion_page_url(endpoint: &str, page_id: &str) -> (res: String)
    ensures
        res@ == trim_end_char_seq(endpoint@, '/') + "/v1/pages/"@ + page_id@ + "/markdown"@,
{
    let mut v = trim_end_slashes(endpoint);
    append_str(&mut v, "/v1/pages/");
    append_str(&mut v, page_id);
    append_str(&mut v, "/markdown");
    string_of(&v)
}

/// The Feishu API path of a document's raw content.
pub fn feishu_document_url(endpoint: &str, document_id: &str) -> (res: String)
    ensures
        res@ == trim_end_char_seq(endpoint@, '/') + "/open-apis/docx/v1/documents/"@ + document_id@
            + "/raw_content"@,
{
    let mut v = trim_end_slashes(endpoint);
    append_str(&mut v, "/open-apis/docx/v1/documents/");
    append_str(&mut v, document_id);
    append_str(&mut v, "/raw_content");
    string_of(&v)
}

/// The Feishu API path that issues app access tokens.
pub fn feishu_app_token_url(endpoint: &str) -> (res: String)
    ensures
        res@ == trim_end_char_seq(endpoint@, '/') + "/open-apis/auth/v3/app_access_token/internal"@,
{
    endpoint_url(endpoint, "/open-apis/auth/v3/app_access_token/internal")
}

/// The position of the first configuration of a kind.
pub open spec fn first_of_kind(configs: Seq<DocumentProviderConfig>, kind: DocumentProviderKind) -> Option<int>
    decreases configs.len(),
{
    if configs.len() == 0 {
        None
    } else if document_kind_of(configs[0]) == kind {
        Some(0)
    } else {
        match first_of_kind(configs.drop_first(), kind) {
            Some(i) => Some(i + 1),
            None => None,
        }
    }
}

/// The position of the first configuration of a kind.
pub fn find_kind(configs: &Vec<DocumentProviderConfig>, kind: DocumentProviderKind) -> (res: Option<usize>)
    ensures
        match res {
            Some(i) => i < configs.len() && first_of_kind(configs@, kind) == Some(i as int),
            None => first_of_kind(configs@, kind) is None,
        },
{
    let mut i: usize = 0;
    assert(configs@.skip(0) =~= configs@);
    while i < configs.len()
        invariant
            i <= configs.len(),
            ({
                let r = first_of_kind(configs@.skip(i as int), kind);
                match first_of_kind(configs@, kind) {
                    Some(k) => r is Some && k == r->0 + i,
                    None => r is None,
                }
            }),
        decreases configs.len() - i,
    {
        let ghost rest = configs@.skip(i as int);
        assert(rest[0] == configs@[i as int]);
        if document_kind(&configs[i]) == kind {
            return Some(i);
        }
        assert(rest.drop_first() =~= configs@.skip(i + 1));
        i += 1;
    }
    None
}

/// The configuration used for a remote document of a kind when none is
/// configured: the given name, the API base from the environment or the
/// default, and the kind's token variables.
pub open spec fn is_fallback_config(
    c: DocumentProviderConfig,
    kind: DocumentProviderKind,
    name: Seq<char>,
    base: Seq<char>,
) -> bool {
    &&& c.name@ == name
    &&& c.kind == Some(kind)
    &&& c.command is None
    &&& c.endpoint matches Some(e) && e@ == base
    &&& c.authorize_url is None && c.token_url is None && c.refresh_url is None
    &&& c.notion_version@ == "2026-03-11"@
    &&& c.ids@.len() == 0
    &&& c.redirect_port == 32323
    &&& if kind == DocumentProviderKind::Notion {
        &&& c.token_env matches Some(t) && t@ == "NOTION_TOKEN"@
        &&& c.app_id_env is None && c.app_secret_env is None
    } else {
        &&& c.token_env matches Some(t) && t@ == "FEISHU_ACCESS_TOKEN"@
        &&& c.app_id_env matches Some(t) && t@ == "FEISHU_APP_ID"@
        &&& c.app_secret_env matches Some(t) && t@ == "FEISHU_APP_SECRET"@
    }
}

/// The configuration used when none of a kind is configured.
fn fallback_config(kind: DocumentProviderKind, name: &str, base: String) -> (res: DocumentProviderConfig)
    requires
        kind != DocumentProviderKind::Command,
    ensures
        is_fallback_config(res, kind, name@, base@),
{
    let notion = kind == DocumentProviderKind::Notion;
    DocumentProviderConfig {
        name: owned(name),
        kind: Some(kind),
        command: None,
        endpoint: Some(base),
        token_env: Some(
            if notion {
                owned("NOTION_TOKEN")
            } else {
                owned("FEISHU_ACCESS_TOKEN")
            },
        ),
        app_id_env: if notion {
            None
        } else {
            Some(owned("FEISHU_APP_ID"))
        },
        app_secret_env: if notion {
            None
        } else {
            Some(owned("FEISHU_APP_SECRET"))
        },
        authorize_url: None,
        token_url: None,
        refresh_url: None,
        notion_version: default_notion_version(),
        ids: Vec::new(),
        redirect_port: default_redirect_port(),
    }
}

/// The configuration for a remote document of a kind: the first configured
/// one of that kind, else the fallback with the API base from the
/// environment (when set) or the default base.
pub open spec fn resolved_config(
    res: DocumentProviderConfig,
    configs: Seq<DocumentProviderConfig>,
    kind: DocumentProviderKind,
    name: Seq<char>,
    env_base: Option<String>,
    default_base: Seq<char>,
) -> bool {
    match first_of_kind(configs, kind) {
        Some(i) => same_document_config(res, configs[i]),
        None => is_fallback_config(res, kind, name, or_text(env_base, default_base)),
    }
}

/// The Notion configuration for opening a URL: the first Notion provider,
/// else "notion-url" on the base from `DELI_NOTION_API_BASE_URL` (passed in)
/// or `https://api.notion.com` with the `NOTION_TOKEN` variable.
pub fn resolve_notion_config(configs: &Vec<DocumentProviderConfig>, env_base_url: Option<String>) -> (res:
    DocumentProviderConfig)
    ensures
        resolved_config(
            res,
            configs@,
            DocumentProviderKind::Notion,
            "notion-url"@,
            env_base_url,
            "https://api.notion.com"@,
        ),
{
    match find_kind(configs, DocumentProviderKind::Notion) {
        Some(i) => configs[i].copy(),
        None => {
            let base = string_or(&env_base_url, "https://api.notion.com");
            fallback_config(DocumentProviderKind::Notion, "notion-url", base)
        },
    }
}

/// The Feishu configuration for opening a URL: the first Feishu provider,
/// else "feishu-url" on the base from `DELI_FEISHU_API_BASE_URL` (passed in)
/// or `https://open.feishu.cn` with the Feishu token variables.
pub fn resolve_feishu_config(configs: &Vec<DocumentProviderConfig>, env_base_url: Option<String>) -> (res:
    DocumentProviderConfig)
    ensures
        resolved_config(
            res,
            configs@,
            DocumentProviderKind::Feishu,
            "feishu-url"@,
            env_base_url,
            "https://open.feishu.cn"@,
        ),
{
    match find_kind(configs, DocumentProviderKind::Feishu) {
        Some(i) => configs[i].copy(),
        None => {
            let base = string_or(&env_base_url, "https://open.feishu.cn");
            fallback_config(DocumentProviderKind::Feishu, "feishu-url", base)
        },
    }
}

/// A document as a remote provider returns it: Markdown, editable, recorded
/// as coming from the provider under the remote id.
pub open spec fn is_remote_document(
    d: DocumentResource,
    id: Seq<char>,
    path: Seq<char>,
    raw: Seq<char>,
    provider: Seq<char>,
) -> bool {
    &&& d.id@ == id
    &&& d.path@ == path
    &&& d.raw@ == raw
    &&& d.format == DocumentFormat::Markdown
    &&& nodes_view(d.nodes@) == normalized_blocks(raw, DocumentFormat::Markdown)
    &&& d.title@ == document_title(normalized_blocks(raw, DocumentFormat::Markdown), path)
    &&& d.provider_name matches Some(p) && p@ == provider
    &&& d.remote_id matches Some(r) && r@ == id
    &&& d.editable
    &&& d.source_url is None
}

/// A Markdown document from a remote provider.
fn remote_document(provider_name: &str, id: &str, path: String, raw: String) -> (res: DocumentResource)
    ensures
        is_remote_document(res, id@, path@, raw@, provider_name@),
{
    DocumentResource::from_source(owned(id), path, DocumentFormat::Markdown, raw).with_origin(
        owned(provider_name),
        owned(id),
        true,
    )
}

/// The document a Notion page reply gives: its id, the path `notion:<id>`,
/// its Markdown.
pub fn notion_document(provider_name: &str, page_id: &str, markdown: String) -> (res: DocumentResource)
    ensures
        is_remote_document(res, page_id@, "notion:"@ + page_id@, markdown@, provider_name@),
{
    remote_document(provider_name, page_id, concat("notion:", page_id), markdown)
}

/// The data of a Feishu document reply.
#[derive(Debug, Clone)]
pub struct FeishuDocumentData {
    pub title: Option<String>,
    pub content: Option<String>,
    pub markdown: Option<String>,
    pub raw_content: Option<String>,
}

/// A Feishu document reply.
#[derive(Debug, Clone)]
pub struct FeishuEnvelope {
    pub code: i64,
    pub msg: Option<String>,
    pub data: Option<FeishuDocumentData>,
}

/// The content of a Feishu reply: raw content, else Markdown, else content.
pub open spec fn feishu_content(data: FeishuDocumentData) -> Option<String> {
    match data.raw_content {
        Some(c) => Some(c),
        None => match data.markdown {
            Some(c) => Some(c),
            None => data.content,
        },
    }
}

/// An error of the provider kind with the given message.
pub open spec fn is_provider_error(e: DeliError, message: Seq<char>) -> bool {
    e.kind == DeliErrorKind::Provider && e.message@ == message && e.retry_hint is None
}

/// The content of a Feishu reply: raw content, else Markdown, else content.
fn feishu_content_exec(data: &FeishuDocumentData) -> (res: Option<String>)
    ensures
        res == feishu_content(*data),
{
    match &data.raw_content {
        Some(c) => Some(c.clone()),
        None => match &data.markdown {
            Some(c) => Some(c.clone()),
            None => copy_opt_string(&data.content),
        },
    }
}

/// The document a Feishu fetch reply gives: an error when its code is not 0
/// ("feishu document fetch failed: <msg or unknown error>"), when it has no
/// data or no content; else the content under the title, or
/// `feishu:<id>` without one.
pub fn feishu_fetched_document(provider_name: &str, document_id: &str, envelope: &FeishuEnvelope) -> (res:
    Result<DocumentResource, DeliError>)
    ensures
        envelope.code != 0 ==> (res matches Err(e) && is_provider_error(
            e,
            "feishu document fetch failed: "@ + or_text(envelope.msg, "unknown error"@),
        )),
        envelope.code == 0 ==> match envelope.data {
            None => res matches Err(e) && is_provider_error(
                e,
                "feishu document response missing data"@,
            ),
            Some(d) => match feishu_content(d) {
                None => res matches Err(e) && is_provider_error(
                    e,
                    "feishu document response missing markdown content"@,
                ),
                Some(c) => res matches Ok(doc) && is_remote_document(
                    doc,
                    document_id@,
                    or_text(d.title, "feishu:"@ + document_id@),
                    c@,
                    provider_name@,
                ),
            },
        },
{
    if envelope.code != 0 {
        let msg = string_or(&envelope.msg, "unknown error");
        return Err(
            error_with_detail(DeliErrorKind::Provider, "feishu document fetch failed: ", msg.as_str()),
        );
    }
    let data = match &envelope.data {
        Some(d) => d,
        None => return Err(error_from(DeliErrorKind::Provider, "feishu document response missing data")),
    };
    let markdown = match feishu_content_exec(data) {
        Some(c) => c,
        None => return Err(
            error_from(DeliErrorKind::Provider, "feishu document response missing markdown content"),
        ),
    };
    let fallback = concat("feishu:", document_id);
    let path = match &data.title {
        Some(t) => t.clone(),
        None => fallback,
    };
    Ok(remote_document(provider_name, document_id, path, markdown))
}

/// The document a Feishu save reply gives: an error when its code is not 0
/// ("feishu document save failed: <msg or unknown error>") or when it has no
/// data; else the content it returns, or the saved text when it returns
/// none, under the title or `feishu:<id>`.
pub fn feishu_saved_document(
    provider_name: &str,
    remote_id: &str,
    envelope: &FeishuEnvelope,
    saved_raw: &str,
) -> (res: Result<DocumentResource, DeliError>)
    ensures
        envelope.code != 0 ==> (res matches Err(e) && is_provider_error(
            e,
            "feishu document save failed: "@ + or_text(envelope.msg, "unknown error"@),
        )),
        envelope.code == 0 ==> match envelope.data {
            None => res matches Err(e) && is_provider_error(
                e,
                "feishu document update response missing data"@,
            ),
            Some(d) => res matches Ok(doc) && is_remote_document(
                doc,
                remote_id@,
                or_text(d.title, "feishu:"@ + remote_id@),
                or_text(feishu_content(d), saved_raw@),
                provider_name@,
            ),
        },
{
    if envelope.code != 0 {
        let msg = string_or(&envelope.msg, "unknown error");
        return Err(
            error_with_detail(DeliErrorKind::Provider, "feishu document save failed: ", msg.as_str()),
        );
    }
    let data = match &envelope.data {
        Some(d) => d,
        None => return Err(
            error_from(DeliErrorKind::Provider, "feishu document update response missing data"),
        ),
    };
    let content = feishu_content_exec(data);
    let markdown = string_or(&content, saved_raw);
    let fallback = concat("feishu:", remote_id);
    let path = match &data.title {
        Some(t) => t.clone(),
        None => fallback,
    };
    Ok(remote_document(provider_name, remote_id, path, markdown))
}

/// The id a document is saved under remotely: its remote id, else its id.
pub fn remote_id_of(document: &DocumentResource) -> (res: String)
    ensures
        res@ == or_text(document.remote_id, document.id@),
{
    match &document.remote_id {
        Some(r) => r.clone(),
        None => document.id.clone(),
    }
}

/// Where a document opened from a URL is saved: its URL recognized again
/// (failing as `parse_remote_document_url` does); a document without one
/// gives "document has no source URL for remote save".
pub fn remote_save_reference(document: &DocumentResource) -> (res: Result<RemoteDocumentRef, DeliError>)
    ensures
        document.source_url is None ==> (res matches Err(e) && e.kind
            == DeliErrorKind::Configuration && e.message@
            == "document has no source URL for remote save"@ && e.retry_hint is None),
        document.source_url matches Some(u) ==> match url_parts_of(u@) {
            Err(e) => res matches Err(err) && err.kind == DeliErrorKind::Configuration
                && err.message@ == "invalid remote document URL: "@ + e && err.retry_hint is None,
            Ok((host, path)) => match remote_target(host, path) {
                Some(t) => res matches Ok(r) && reference_matches(r, t, u@),
                None => res matches Err(e) && is_unsupported_url_error(e),
            },
        },
{
    match &document.source_url {
        Some(u) => parse_remote_document_url(u.as_str()),
        None => Err(
            error_from(DeliErrorKind::Configuration, "document has no source URL for remote save"),
        ),
    }
}

/// What opening or saving through a URL gives: the document the provider
/// returned, remembering that URL, or the provider's error.
pub fn remember_source_url(url: &String, result: Result<DocumentResource, DeliError>) -> (res: Result<
    DocumentResource,
    DeliError,
>)
    ensures
        match result {
            Ok(d) => res == Ok::<DocumentResource, DeliError>(
                DocumentResource { source_url: Some(*url), ..d },
            ),
            Err(e) => res == Err::<DocumentResource, DeliError>(e),
        },
{
    match result {
        Ok(d) => Ok(DocumentResource { source_url: Some(url.clone()), ..d }),
        Err(e) => Err(e),
    }
}

} // verus!
