use deli::config::{
    document_kind, monitor_kind, CommandSpec, DocumentProviderConfig, DocumentProviderKind,
    MonitorProviderConfig, MonitorProviderKind, ProviderConfig,
};
use deli::document::{DocumentFormat, DocumentResource};
use deli::error::{DeliError, DeliErrorKind};
use deli::feishu::{
    app_access_token_from, body_snippet, build_authorize_url, http_status_error, feishu_token_plan, read_callback,
    resolve_feishu_auth_config, session_from_envelope, AppAccessTokenResponse, FeishuTokenPlan,
    FeishuUserSession, UserTokenData, UserTokenEnvelope,
};
use deli::providers::{
    command_line, documents_from_raw, expand_template, expanded_command, parse_format,
    ActionProvider, CommandActionProvider, CommandDocumentProvider, CommandMonitorProvider,
    DocumentProvider, ProviderContext, RawDocument,
};
use deli::registry::{
    build_document_provider, build_monitor_provider, DocumentProviderImpl, MonitorProviderImpl,
};
use deli::json::{fields_object, notion_save_body};
use deli::remote::{
    parse_remote_document_url, remember_source_url, remote_save_reference, resolve_feishu_config,
    resolve_notion_config, FeishuDocumentProvider, NotionDocumentProvider, RemoteDocumentRef,
};

fn bare_config(name: &str) -> DocumentProviderConfig {
    DocumentProviderConfig {
        name: name.into(),
        kind: None,
        command: None,
        endpoint: None,
        token_env: None,
        app_id_env: None,
        app_secret_env: None,
        authorize_url: None,
        token_url: None,
        refresh_url: None,
        notion_version: "2026-03-11".into(),
        ids: vec![],
        redirect_port: 32323,
    }
}

fn monitor_config(name: &str, kind: Option<MonitorProviderKind>) -> MonitorProviderConfig {
    MonitorProviderConfig {
        name: name.into(),
        kind,
        command: None,
        endpoint: None,
        query: None,
        query_presets: vec![],
        step_seconds: 60,
        lookback_minutes: 60,
    }
}

#[test]
fn docs_http_document_kind_defaults_to_command() {
    let config = bare_config("docs");
    assert_eq!(document_kind(&config), DocumentProviderKind::Command);
}

#[test]
fn http_document_kind_defaults_to_command() {
    let config = DocumentProviderConfig {
        name: "docs".into(),
        kind: None,
        command: None,
        endpoint: None,
        token_env: None,
        app_id_env: None,
        app_secret_env: None,
        authorize_url: None,
        token_url: None,
        refresh_url: None,
        notion_version: "2026-03-11".into(),
        ids: vec![],
        redirect_port: 32323,
    };
    assert_eq!(document_kind(&config), DocumentProviderKind::Command);
}

#[test]
fn parses_notion_url_into_page_ref() {
    let parsed = parse_remote_document_url(
        "https://www.notion.so/workspace/Runbook-1234567890abcdef1234567890abcdef",
    )
    .unwrap();
    assert_eq!(
        parsed,
        RemoteDocumentRef::Notion {
            page_id: "1234567890abcdef1234567890abcdef".into(),
            url: "https://www.notion.so/workspace/Runbook-1234567890abcdef1234567890abcdef".into()
        }
    );
}

#[test]
fn parses_feishu_docx_url_into_document_ref() {
    let parsed =
        parse_remote_document_url("https://team.feishu.cn/docx/AbCdEfGhIjKlMnOpQrStUv").unwrap();
    assert_eq!(
        parsed,
        RemoteDocumentRef::Feishu {
            document_id: "AbCdEfGhIjKlMnOpQrStUv".into(),
            url: "https://team.feishu.cn/docx/AbCdEfGhIjKlMnOpQrStUv".into()
        }
    );
}

#[test]
fn refuses_unsupported_and_invalid_urls() {
    let unsupported = parse_remote_document_url("https://example.com/page").unwrap_err();
    assert_eq!(unsupported.kind, DeliErrorKind::Configuration);
    assert_eq!(unsupported.message, "unsupported remote document URL");
    assert_eq!(
        unsupported.retry_hint.as_deref(),
        Some("Paste a full Notion or Feishu/Lark document URL.")
    );
    let invalid = parse_remote_document_url("not a url").unwrap_err();
    assert_eq!(invalid.kind, DeliErrorKind::Configuration);
    assert!(invalid.message.starts_with("invalid remote document URL: "));
}

#[test]
fn builds_authorize_url_with_redirect_and_state() {
    let url = build_authorize_url(
        "https://open.feishu.cn/open-apis/authen/v1/index",
        "cli_test",
        "http://127.0.0.1:32323/callback",
        "abc123",
    )
    .unwrap();
    assert!(url.contains("app_id=cli_test"));
    assert!(url.contains("redirect_uri=http%3A%2F%2F127.0.0.1%3A32323%2Fcallback"));
    assert!(url.contains("state=abc123"));
}

#[test]
fn refuses_authorize_url_that_does_not_parse() {
    let error = build_authorize_url("::not a url", "id", "uri", "state").unwrap_err();
    assert_eq!(error.kind, DeliErrorKind::Configuration);
}

#[test]
fn expands_query_template_in_commands() {
    assert_eq!(expand_template("q={{query}}", Some("up")), "q=up");
    assert_eq!(expand_template("q={{query}}", None), "q={{query}}");
    let command = CommandSpec {
        program: "run-{{query}}".into(),
        args: vec!["--q".into(), "{{query}}{{query}}".into()],
        cwd: Some("dir/{{query}}".into()),
    };
    let expanded = expanded_command(&command, Some("x"));
    assert_eq!(expanded.program, "run-x");
    assert_eq!(expanded.args, vec!["--q".to_string(), "xx".to_string()]);
    assert_eq!(expanded.cwd.as_deref(), Some("dir/x"));
    assert_eq!(command_line(&command), "run-{{query}} --q {{query}}{{query}}");
}

#[test]
fn parses_document_formats() {
    assert_eq!(parse_format("mintlify"), DocumentFormat::Mintlify);
    assert_eq!(parse_format("markdown"), DocumentFormat::Markdown);
    assert_eq!(parse_format("rst"), DocumentFormat::PlainText);
}

#[test]
fn builds_documents_from_command_entries() {
    let docs = documents_from_raw(
        "docs",
        vec![RawDocument {
            id: "intro".into(),
            path: "guide/intro.md".into(),
            format: "markdown".into(),
            raw: "# Welcome\n\nBody".into(),
        }],
    );
    assert_eq!(docs.len(), 1);
    assert_eq!(docs[0].title, "Welcome");
    assert_eq!(docs[0].provider_name.as_deref(), Some("docs"));
    assert_eq!(docs[0].remote_id.as_deref(), Some("guide/intro.md"));
    assert!(!docs[0].editable);
}

#[test]
fn command_providers_need_a_command() {
    let error = CommandDocumentProvider::new(&bare_config("docs")).unwrap_err();
    assert_eq!(error.message, "document provider 'docs' is missing command");
    let monitor = CommandMonitorProvider::new(&monitor_config("cpu", None)).unwrap_err();
    assert_eq!(monitor.message, "monitor provider 'cpu' is missing command");
    let action = CommandActionProvider::new(&ProviderConfig {
        name: "deploy".into(),
        command: CommandSpec {
            program: "make".into(),
            args: vec!["deploy".into()],
            cwd: None,
        },
    });
    assert_eq!(action.commands().len(), 1);
    assert_eq!(action.commands()[0].program, "make");
    assert_eq!(action.name(), "deploy");
}

struct FixedDocuments;

impl DocumentProvider for FixedDocuments {
    fn name(&self) -> &str {
        "fixed"
    }

    fn list_documents(&self, _context: &ProviderContext) -> Result<Vec<DocumentResource>, DeliError> {
        Ok(Vec::new())
    }
}

#[test]
fn read_only_provider_refuses_to_save() {
    let context = ProviderContext {
        workspace_root: ".".into(),
    };
    let document = DocumentResource::from_source(
        "a".into(),
        "a.md".into(),
        DocumentFormat::Markdown,
        "# A".into(),
    );
    let error = FixedDocuments.save_document(&context, &document).unwrap_err();
    assert_eq!(error.kind, DeliErrorKind::Provider);
    assert_eq!(error.message, "document provider is read-only");
}

#[test]
fn remote_providers_need_endpoint_then_token() {
    let mut config = bare_config("notion");
    config.kind = Some(DocumentProviderKind::Notion);
    let missing_endpoint = NotionDocumentProvider::new(&config).unwrap_err();
    assert_eq!(
        missing_endpoint.message,
        "document provider 'notion' is missing endpoint"
    );
    config.endpoint = Some("https://api.notion.com".into());
    let missing_token = NotionDocumentProvider::new(&config).unwrap_err();
    assert_eq!(
        missing_token.message,
        "document provider 'notion' is missing token_env"
    );
    config.token_env = Some("NOTION_TOKEN".into());
    assert!(NotionDocumentProvider::new(&config).is_ok());
    let mut feishu = bare_config("lark");
    feishu.kind = Some(DocumentProviderKind::Feishu);
    feishu.endpoint = Some("https://open.feishu.cn/".into());
    feishu.token_env = Some("FEISHU_ACCESS_TOKEN".into());
    let provider = FeishuDocumentProvider::new(&feishu).unwrap();
    assert_eq!(provider.app_id_env, "FEISHU_APP_ID");
    assert!(provider.authorize_url.ends_with("/open-apis/authen/v1/index"));
}

#[test]
fn resolves_fallback_configs_for_urls() {
    let notion = resolve_notion_config(&vec![], None);
    assert_eq!(notion.name, "notion-url");
    assert_eq!(notion.endpoint.as_deref(), Some("https://api.notion.com"));
    assert_eq!(notion.token_env.as_deref(), Some("NOTION_TOKEN"));
    let feishu = resolve_feishu_config(&vec![], Some("http://127.0.0.1:9".into()));
    assert_eq!(feishu.name, "feishu-url");
    assert_eq!(feishu.endpoint.as_deref(), Some("http://127.0.0.1:9"));
    let mut configured = bare_config("team");
    configured.kind = Some(DocumentProviderKind::Feishu);
    let chosen = resolve_feishu_config(&vec![bare_config("other"), configured], None);
    assert_eq!(chosen.name, "team");
    let auth = resolve_feishu_auth_config(&vec![], None);
    assert_eq!(auth.endpoint, "https://open.feishu.cn");
    assert_eq!(auth.redirect_port, 32323);
}

#[test]
fn registry_builds_providers_by_kind() {
    let mut docs = bare_config("docs");
    docs.command = Some(CommandSpec {
        program: "echo".into(),
        args: vec!["[]".into()],
        cwd: None,
    });
    assert!(matches!(
        build_document_provider(&docs),
        Ok(DocumentProviderImpl::Command(_))
    ));
    let mut prom = monitor_config("prom", Some(MonitorProviderKind::Prometheus));
    prom.endpoint = Some("http://localhost:9090".into());
    assert_eq!(monitor_kind(&prom), MonitorProviderKind::Prometheus);
    match build_monitor_provider(&prom) {
        Some(MonitorProviderImpl::Prometheus(provider)) => {
            assert_eq!(provider.name, "prom");
            assert_eq!(provider.product_name, "Prometheus");
            assert_eq!(provider.endpoint, "http://localhost:9090");
        }
        other => panic!("unexpected {other:?}"),
    }
    let mut victoria = monitor_config("vm", Some(MonitorProviderKind::VictoriaMetrics));
    assert!(build_monitor_provider(&victoria).is_none());
    victoria.endpoint = Some("http://vm:8428".into());
    assert!(matches!(
        build_monitor_provider(&victoria),
        Some(MonitorProviderImpl::Prometheus(p)) if p.product_name == "VictoriaMetrics"
    ));
    assert!(build_monitor_provider(&monitor_config("cmd", None)).is_none());
}

#[test]
fn parses_minimal_feishu_success_payload_without_refresh_token() {
    let envelope = UserTokenEnvelope {
        code: Some(0),
        msg: None,
        data: Some(UserTokenData {
            access_token: Some("u-test-token".into()),
            refresh_token: None,
            expires_in: None,
            refresh_expires_in: None,
            name: Some("Test User".into()),
            user_id: None,
            open_id: None,
        }),
    };
    let session = session_from_envelope(envelope, 1_000).unwrap();
    assert_eq!(session.access_token, "u-test-token");
    assert_eq!(session.refresh_token, "");
    assert_eq!(session.name.as_deref(), Some("Test User"));
    assert_eq!(session.expires_at, 1_000 + 7200);
}

#[test]
fn reports_feishu_auth_failures() {
    let failed = session_from_envelope(
        UserTokenEnvelope {
            code: Some(99),
            msg: Some("denied".into()),
            data: None,
        },
        0,
    )
    .unwrap_err();
    assert_eq!(failed.message, "denied");
    let missing = session_from_envelope(
        UserTokenEnvelope {
            code: None,
            msg: None,
            data: None,
        },
        0,
    )
    .unwrap_err();
    assert_eq!(missing.message, "missing Feishu auth data");
}

#[test]
fn reads_app_access_token_or_explains_the_body() {
    let ok = app_access_token_from(
        AppAccessTokenResponse {
            app_access_token: None,
            tenant_access_token: Some("tenant".into()),
            code: Some(0),
            msg: None,
        },
        "{}",
    );
    assert_eq!(ok, Ok("tenant".to_string()));
    let missing = app_access_token_from(
        AppAccessTokenResponse {
            app_access_token: None,
            tenant_access_token: None,
            code: None,
            msg: None,
        },
        "  {\"x\":\n 1}  ",
    )
    .unwrap_err();
    assert_eq!(
        missing.message,
        "Feishu app access token response missing token field; body: {\"x\": 1}"
    );
    assert_eq!(body_snippet(&"a ".repeat(300)).len(), 240);
}

#[test]
fn chooses_feishu_token_source() {
    let session = FeishuUserSession {
        access_token: "user-token".into(),
        refresh_token: "refresh-1".into(),
        expires_at: 1_000,
        refresh_expires_at: None,
        name: None,
        user_id: None,
        open_id: None,
    };
    assert_eq!(
        feishu_token_plan(Some(&session), 100),
        FeishuTokenPlan::UseSession("user-token".into())
    );
    assert_eq!(
        feishu_token_plan(Some(&session), 950),
        FeishuTokenPlan::Refresh("refresh-1".into())
    );
    assert_eq!(feishu_token_plan(None, 0), FeishuTokenPlan::UseEnvironment);
}

#[test]
fn errors_keep_kind_and_message_when_hinted() {
    let error = DeliError::new(DeliErrorKind::Provider, "boom".into())
        .with_retry_hint("try again".into());
    assert_eq!(error.kind, DeliErrorKind::Provider);
    assert_eq!(error.message, "boom");
    assert_eq!(error.to_text(), "provider: boom");
}

#[test]
fn reads_sign_in_callback() {
    let ok = read_callback(
        "GET /callback?code=abc%20d&state=s1 HTTP/1.1\r\nHost: 127.0.0.1\r\n\r\n",
        "s1",
    );
    assert_eq!(ok.result.unwrap(), "abc d");
    assert!(ok.reply.unwrap().starts_with("HTTP/1.1 200 OK"));
    let bad = read_callback("GET /callback?code=abc&state=zz HTTP/1.1", "s1");
    assert_eq!(bad.result.unwrap_err().message, "authorization state mismatch");
    assert!(bad.reply.unwrap().starts_with("HTTP/1.1 400 Bad Request"));
    let missing = read_callback("GET /callback HTTP/1.1", "s1");
    assert!(missing.reply.is_none());
    assert_eq!(missing.result.unwrap_err().message, "missing auth code");
}

fn markdown_doc(id: &str) -> DocumentResource {
    DocumentResource::from_source(id.into(), format!("{id}.md"), DocumentFormat::Markdown, "# A".into())
}

#[test]
fn remote_save_needs_a_readable_source_url() {
    let mut document = markdown_doc("a");
    let missing = remote_save_reference(&document).unwrap_err();
    assert_eq!(missing.message, "document has no source URL for remote save");
    document.source_url = Some("not a url".into());
    let invalid = remote_save_reference(&document).unwrap_err();
    assert_eq!(invalid.kind, DeliErrorKind::Configuration);
    assert_eq!(
        invalid.message,
        "invalid remote document URL: relative URL without a base"
    );
    assert_eq!(invalid, parse_remote_document_url("not a url").unwrap_err());
}

#[test]
fn documents_opened_by_url_remember_it() {
    let url = "https://www.notion.so/Page-0123456789abcdef0123456789abcdef".to_string();
    let opened = remember_source_url(&url, Ok(markdown_doc("a"))).unwrap();
    assert_eq!(opened.source_url, Some(url.clone()));
    assert_eq!(opened.id, "a");
    let failed = remember_source_url(&url, Err(DeliError::new(DeliErrorKind::Provider, "down".into())));
    assert_eq!(failed.unwrap_err().message, "down");
}

#[test]
fn failing_http_status_becomes_an_error() {
    assert_eq!(http_status_error("refresh Feishu user session", true, "200 OK", "{}"), None);
    let error = http_status_error("refresh Feishu user session", false, "401 Unauthorized", "no\n  token").unwrap();
    assert_eq!(error.kind, DeliErrorKind::Provider);
    assert_eq!(
        error.message,
        "failed to refresh Feishu user session: http 401 Unauthorized body: no token"
    );
}

#[test]
fn request_bodies_are_json_objects() {
    assert_eq!(
        fields_object(&vec![
            ("grant_type".to_string(), "refresh_token".to_string()),
            ("refresh_token".to_string(), "r-\"1\"".to_string()),
        ]),
        "{\"grant_type\":\"refresh_token\",\"refresh_token\":\"r-\\\"1\\\"\"}"
    );
    assert_eq!(
        fields_object(&vec![("content".to_string(), "line\nnext".to_string())]),
        "{\"content\":\"line\\nnext\"}"
    );
    assert_eq!(
        fields_object(&vec![("bell".to_string(), "\u{1}\u{1f}\u{7f}é/".to_string())]),
        "{\"bell\":\"\\u0001\\u001f\u{7f}é/\"}"
    );
    assert_eq!(
        notion_save_body("# Title"),
        "{\"type\":\"replace_content\",\"replace_content\":{\"new_str\":\"# Title\"}}"
    );
}
