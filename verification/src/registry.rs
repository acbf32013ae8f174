//! Which provider each configured entry becomes.
use vstd::prelude::*;

use crate::config::{
    document_kind, document_kind_of, monitor_kind, monitor_kind_of, same_command,
    DocumentProviderConfig, DocumentProviderKind, MonitorProviderConfig, MonitorProviderKind,
};
use crate::error::DeliError;
use crate::metrics::{OpenTsdbMonitorProvider, PrometheusMonitorProvider};
use crate::providers::{is_missing_command_error, CommandDocumentProvider, CommandMonitorProvider};
use crate::remote::{is_missing_setting_error, FeishuDocumentProvider, NotionDocumentProvider};

verus! {

/// A document provider, by the kind its configuration names.
#[derive(Debug)]
pub enum DocumentProviderImpl {
    Command(CommandDocumentProvider),
    Notion(NotionDocumentProvider),
    Feishu(FeishuDocumentProvider),
}

/// A service-backed provider needs an endpoint, then a token variable: it is
/// built exactly when both are set, else refused for the first one missing.
pub open spec fn provider_checked(
    config: DocumentProviderConfig,
    res: Result<DocumentProviderImpl, DeliError>,
) -> bool {
    if config.endpoint is None {
        res matches Err(e) && is_missing_setting_error(e, config.name@, "endpoint"@)
    } else if config.token_env is None {
        res matches Err(e) && is_missing_setting_error(e, config.name@, "token_env"@)
    } else {
        res is Ok
    }
}

/// Builds the document provider of a configuration's kind (a command
/// provider when no kind is named); fails as that provider's constructor
/// fails.
pub fn build_document_provider(config: &DocumentProviderConfig) -> (res: Result<
    DocumentProviderImpl,
    DeliError,
>)
    ensures
        document_kind_of(*config) == DocumentProviderKind::Command ==> match config.command {
            Some(c) => res matches Ok(DocumentProviderImpl::Command(p)) && p.name == config.name
                && same_command(p.command, c),
            None => res matches Err(e) && is_missing_command_error(e, "document"@, config.name@),
        },
        document_kind_of(*config) == DocumentProviderKind::Notion ==> provider_checked(
            *config,
            res,
        ) && (res is Ok ==> res->Ok_0 is Notion),
        document_kind_of(*config) == DocumentProviderKind::Feishu ==> provider_checked(
            *config,
            res,
        ) && (res is Ok ==> res->Ok_0 is Feishu),
{
    match document_kind(config) {
        DocumentProviderKind::Command => match CommandDocumentProvider::new(config) {
            Ok(p) => Ok(DocumentProviderImpl::Command(p)),
            Err(e) => Err(e),
        },
        DocumentProviderKind::Notion => match NotionDocumentProvider::new(config) {
            Ok(p) => Ok(DocumentProviderImpl::Notion(p)),
            Err(e) => Err(e),
        },
        DocumentProviderKind::Feishu => match FeishuDocumentProvider::new(config) {
            Ok(p) => Ok(DocumentProviderImpl::Feishu(p)),
            Err(e) => Err(e),
        },
    }
}

/// A monitoring provider, by the kind its configuration names: a command,
/// a Prometheus-style endpoint, or an OpenTSDB endpoint.
#[derive(Debug)]
pub enum MonitorProviderImpl {
    Command(CommandMonitorProvider),
    /// Prometheus or VictoriaMetrics (which answers Prometheus queries).
    Prometheus(PrometheusMonitorProvider),
    OpenTsdb(OpenTsdbMonitorProvider),
}

/// The product a Prometheus-style provider speaks to.
pub open spec fn product_name_of(kind: MonitorProviderKind) -> Seq<char> {
    if kind == MonitorProviderKind::VictoriaMetrics {
        "VictoriaMetrics"@
    } else {
        "Prometheus"@
    }
}

/// Builds the monitoring provider of a configuration's kind (a command
/// provider when no kind is named); a command provider without a command,
/// and an HTTP provider without an endpoint, are left out.
pub fn build_monitor_provider(config: &MonitorProviderConfig) -> (res: Option<
    MonitorProviderImpl,
>)
    ensures
        monitor_kind_of(*config) == MonitorProviderKind::Command ==> match config.command {
            Some(c) => res matches Some(MonitorProviderImpl::Command(p)) && p.name == config.name
                && same_command(p.command, c),
            None => res is None,
        },
        monitor_kind_of(*config) == MonitorProviderKind::OpenTsdb ==> match config.endpoint {
            Some(e) => res matches Some(MonitorProviderImpl::OpenTsdb(p)) && p.name == config.name
                && p.endpoint == e && p.step_seconds == config.step_seconds && p.lookback_minutes
                == config.lookback_minutes,
            None => res is None,
        },
        (monitor_kind_of(*config) == MonitorProviderKind::Prometheus || monitor_kind_of(*config)
            == MonitorProviderKind::VictoriaMetrics) ==> match config.endpoint {
            Some(e) => res matches Some(MonitorProviderImpl::Prometheus(p)) && p.name == config.name
                && p.product_name@ == product_name_of(monitor_kind_of(*config)) && p.endpoint == e
                && p.step_seconds == config.step_seconds && p.lookback_minutes
                == config.lookback_minutes,
            None => res is None,
        },
{
    match monitor_kind(config) {
        MonitorProviderKind::Command => match CommandMonitorProvider::new(config) {
            Ok(p) => Some(MonitorProviderImpl::Command(p)),
            Err(_) => None,
        },
        MonitorProviderKind::OpenTsdb => match OpenTsdbMonitorProvider::new(config) {
            Ok(p) => Some(MonitorProviderImpl::OpenTsdb(p)),
            Err(_) => None,
        },
        MonitorProviderKind::VictoriaMetrics => match PrometheusMonitorProvider::new(
            config,
            "VictoriaMetrics",
        ) {
            Ok(p) => Some(MonitorProviderImpl::Prometheus(p)),
            Err(_) => None,
        },
        MonitorProviderKind::Prometheus => match PrometheusMonitorProvider::new(
            config,
            "Prometheus",
        ) {
            Ok(p) => Some(MonitorProviderImpl::Prometheus(p)),
            Err(_) => None,
        },
    }
}

} // verus!
