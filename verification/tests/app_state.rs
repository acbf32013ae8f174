use deli::config::{AppConfig, CommandSpec, MonitorProviderConfig, MonitorProviderKind, WorkspaceConfig};
use deli::dataframe::{CellValue, ColumnSchema, ColumnType, DataFrame};
use deli::document::{DocumentFormat, DocumentResource};
use deli::error::{DeliError, DeliErrorKind};
use deli::gnuplot::{ChartPlan, ChartRenderMode, ChartRenderStatus, TimeSeriesFrame};
use deli::session::{
    after_provider_save, ConfigEdit, ExportOutcome, PaletteAction, ProviderDocuments,
    ProviderSave, ProviderTable, RefreshOutcome, SaveStep,
};
use deli::state::{ActiveView, AppState, GraphArea, MonitorFetch};

fn state() -> AppState {
    AppState::new(&AppConfig::default(), None).unwrap()
}

fn echo_monitor(name: &str, query: &str, presets: &[&str]) -> MonitorProviderConfig {
    MonitorProviderConfig {
        name: name.into(),
        kind: Some(MonitorProviderKind::Command),
        command: Some(CommandSpec {
            program: "echo".into(),
            args: vec!["{\"title\":\"CPU\",\"series\":[]}".into()],
            cwd: None,
        }),
        endpoint: None,
        query: Some(query.into()),
        query_presets: presets.iter().map(|p| p.to_string()).collect(),
        step_seconds: 60,
        lookback_minutes: 60,
    }
}

fn empty_chart_frame() -> TimeSeriesFrame {
    TimeSeriesFrame {
        title: "CPU".into(),
        series: vec![],
    }
}

#[test]
fn config_filter_reduces_rows_and_resets_selection() {
    let mut state = state();
    state.active_view = ActiveView::Configs;
    state.config_frame = DataFrame {
        columns: vec![ColumnSchema {
            name: "service".into(),
            kind: ColumnType::String,
        }],
        rows: vec![
            vec![CellValue::String("api".into())],
            vec![CellValue::String("worker".into())],
        ],
    };
    state.config_index = 1;
    state.config_filter_mode = true;

    state.append_filter_char('a');

    assert_eq!(state.filtered_config_frame().rows.len(), 1);
    assert_eq!(state.config_index, 0);
}

#[test]
fn service_filter_reduces_resources_and_resets_selection() {
    let mut state = state();
    state.active_view = ActiveView::Services;
    state.service_frame = DataFrame {
        columns: vec![ColumnSchema {
            name: "name".into(),
            kind: ColumnType::String,
        }],
        rows: vec![
            vec![CellValue::String("checkout-api".into())],
            vec![CellValue::String("worker".into())],
        ],
    };
    state.service_index = 1;
    state.service_filter_mode = true;

    state.append_filter_char('c');

    assert_eq!(state.filtered_service_frame().rows.len(), 1);
    assert_eq!(state.service_index, 0);
}

#[test]
fn document_navigation_selects_reader_target() {
    let mut state = state();
    state.documents = vec![
        DocumentResource::from_source("one".into(), "a.md".into(), DocumentFormat::Markdown, "# One".into()),
        DocumentResource::from_source("two".into(), "b.md".into(), DocumentFormat::Markdown, "# Two".into()),
    ];

    state.move_selection(1);

    assert_eq!(state.current_document().unwrap().title, "Two");
    assert_eq!(state.document_editor_reload.as_deref(), Some("# Two"));
    state.move_selection(5);
    assert_eq!(state.document_index, 1);
    state.move_selection(-9);
    assert_eq!(state.document_index, 0);
}

#[test]
fn command_palette_input_supports_cursor_editing() {
    let mut state = state();

    state.open_command_palette();
    for character in "openurl".chars() {
        state.insert_command_char(character);
    }
    state.move_command_cursor(-3);
    state.insert_command_char(' ');
    state.command_cursor_home();
    state.kill_command_to_end();

    assert_eq!(state.command_query, "");
    assert_eq!(state.command_cursor, 0);

    for character in "connect feishu".chars() {
        state.insert_command_char(character);
    }
    state.command_cursor_home();
    state.move_command_cursor(7);
    state.delete_command_forward();

    assert_eq!(state.command_query, "connectfeishu");
    assert_eq!(state.command_cursor, 7);
}

#[test]
fn command_editing_handles_multibyte_text() {
    let mut state = state();
    for character in "héllo".chars() {
        state.insert_command_char(character);
    }
    state.move_command_cursor(-3);
    state.delete_command_backward();
    assert_eq!(state.command_query, "hllo");
    assert_eq!(state.command_cursor, 1);
    state.kill_command_to_start();
    assert_eq!(state.command_query, "llo");
    state.command_cursor_end();
    assert_eq!(state.command_cursor, 3);
    state.move_command_cursor(10);
    assert_eq!(state.command_cursor, 3);
}

#[test]
fn insert_then_delete_backward_restores_command() {
    let mut state = state();
    for character in "deploy".chars() {
        state.insert_command_char(character);
    }
    state.move_command_cursor(-2);
    let before = state.command_query.clone();
    let cursor = state.command_cursor;
    state.insert_command_char('x');
    state.delete_command_backward();
    assert_eq!(state.command_query, before);
    assert_eq!(state.command_cursor, cursor);
}

#[test]
fn config_editor_save_updates_selected_row_in_memory() {
    let mut state = state();
    state.active_view = ActiveView::Configs;
    state.config_frame = DataFrame {
        columns: vec![
            ColumnSchema {
                name: "service".into(),
                kind: ColumnType::String,
            },
            ColumnSchema {
                name: "replicas".into(),
                kind: ColumnType::Int,
            },
        ],
        rows: vec![vec![CellValue::String("api".into()), CellValue::Int(4)]],
    };
    state.sync_config_editor(true);
    state.config_editor_dirty = true;

    state.save_config_editor(ConfigEdit::Cells(vec![
        Some(CellValue::String("api".into())),
        Some(CellValue::Int(8)),
    ]));

    assert_eq!(state.config_frame.rows[0][1], CellValue::Int(8));
    assert!(!state.config_editor_dirty);
    assert_eq!(state.notifications[0], "Saved selected config row 1 in memory");
}

#[test]
fn config_save_reports_each_failure() {
    let mut state = state();
    state.save_config_editor(ConfigEdit::Missing);
    assert_eq!(state.notifications[0], "No config editor content to save");
    state.save_config_editor(ConfigEdit::NotObject);
    assert_eq!(state.notifications[0], "No config row selected to save");
    state.config_frame = DataFrame {
        columns: vec![ColumnSchema {
            name: "replicas".into(),
            kind: ColumnType::Int,
        }],
        rows: vec![vec![CellValue::Int(1)]],
    };
    state.save_config_editor(ConfigEdit::NotObject);
    assert_eq!(
        state.notifications[0],
        "Save failed: editor content must be a JSON object"
    );
    state.save_config_editor(ConfigEdit::Invalid("EOF".into()));
    assert_eq!(state.notifications[0], "Save failed: invalid JSON: EOF");
    state.save_config_editor(ConfigEdit::Cells(vec![None]));
    assert_eq!(
        state.notifications[0],
        "Save failed: column 'replicas' expects Int"
    );
    assert_eq!(state.config_frame.rows[0][0], CellValue::Int(1));
}

#[test]
fn export_names_file_after_selected_row() {
    let mut state = state();
    assert_eq!(state.config_export_file_name(), "config-row-0.json");
    state.config_frame = DataFrame {
        columns: vec![ColumnSchema {
            name: "service".into(),
            kind: ColumnType::String,
        }],
        rows: vec![vec![CellValue::String("api".into())]],
    };
    assert_eq!(state.config_export_file_name(), "config-row-1.json");
    state.finish_config_export(ExportOutcome::Written("/tmp/x/config-row-1.json".into()));
    assert_eq!(state.notifications[0], "Exported inspector to /tmp/x/config-row-1.json");
    state.finish_config_export(ExportOutcome::Failed("denied".into()));
    assert_eq!(state.notifications[0], "Export failed: denied");
}

#[test]
fn monitor_provider_switch_updates_active_query() {
    let mut config = AppConfig::default();
    config.monitor_providers = vec![
        echo_monitor("alpha", "up", &["up", "up{job=\"api\"}"]),
        echo_monitor("beta", "rate(http_requests_total[5m])", &["rate(http_requests_total[5m])"]),
    ];
    let mut state = AppState::new(&config, None).unwrap();

    assert!(state.cycle_monitor_provider(1));

    assert_eq!(state.monitor_query, "rate(http_requests_total[5m])");
    assert_eq!(state.notifications[0], "Switched monitor provider to beta");
}

#[test]
fn monitor_preset_switch_updates_query() {
    let mut config = AppConfig::default();
    config.monitor_providers = vec![echo_monitor("alpha", "up", &["up", "up{job=\"api\"}"])];
    let mut state = AppState::new(&config, None).unwrap();

    assert!(state.cycle_monitor_preset(1));

    assert_eq!(state.monitor_query, "up{job=\"api\"}");
    assert!(state.cycle_monitor_preset(1));
    assert_eq!(state.monitor_query, "up");
}

#[test]
fn multiple_monitor_providers_can_be_switched_in_app_state() {
    let mut config = AppConfig::default();
    config.monitor_providers = vec![
        echo_monitor("prom-a", "up", &["up", "up{job=\"api\"}"]),
        echo_monitor("prom-b", "rate(http_requests_total[5m])", &[]),
    ];
    let mut state = AppState::new(&config, None).unwrap();
    state.apply_refresh(RefreshOutcome {
        documents: vec![],
        config: None,
        services: None,
        actions: vec![],
    });

    state.cycle_monitor_provider(1);

    assert_eq!(state.monitor_query, "rate(http_requests_total[5m])");
}

#[test]
fn live_poll_triggers_refresh_on_tick_boundary() {
    let mut config = AppConfig::default();
    config.monitor_providers = vec![echo_monitor("alpha", "up", &[])];
    config.ui.refresh_seconds = 2;
    let mut state = AppState::new(&config, None).unwrap();
    state.toggle_monitor_live_poll();
    assert_eq!(state.notifications[0], "Live polling enabled (2s)");

    let first = state.on_tick();
    if first {
        state.apply_monitor_fetch(MonitorFetch::Fetched(Ok(empty_chart_frame())));
    }
    assert!(state.monitor_frame.is_none());
    let second = state.on_tick();
    if second {
        state.apply_monitor_fetch(MonitorFetch::Fetched(Ok(empty_chart_frame())));
    }
    assert!(state.monitor_frame.is_some());
}

#[test]
fn monitoring_without_providers_says_so() {
    let mut state = state();
    assert!(!state.cycle_monitor_provider(1));
    assert_eq!(state.notifications[0], "No monitoring providers configured");
    assert!(!state.cycle_monitor_preset(1));
    state.apply_monitor_fetch(MonitorFetch::Unregistered);
    assert!(state.monitor_frame.is_none());
}

#[test]
fn monitor_fetch_errors_are_reported() {
    let mut config = AppConfig::default();
    config.monitor_providers = vec![echo_monitor("alpha", "up", &[])];
    let mut state = AppState::new(&config, None).unwrap();
    state.apply_monitor_fetch(MonitorFetch::Unregistered);
    assert_eq!(state.notifications[0], "Monitor provider 'alpha' is not registered");
    state.apply_monitor_fetch(MonitorFetch::Fetched(Err(DeliError::new(
        DeliErrorKind::Provider,
        "timeout".into(),
    ))));
    assert_eq!(state.notifications[0], "alpha provider error: provider: timeout");
    assert!(state.monitor_frame.is_none());
}

#[test]
fn applying_a_query_updates_source_and_preset() {
    let mut config = AppConfig::default();
    config.monitor_providers = vec![echo_monitor("alpha", "up", &["up", "load"])];
    let mut state = AppState::new(&config, None).unwrap();
    state.active_view = ActiveView::Monitoring;
    state.toggle_monitor_query_mode();
    assert!(state.monitor_query_mode);
    assert_eq!(state.monitor_query_editor_reload.as_deref(), Some("up"));
    assert!(state.apply_monitor_query(Some("  load \n".into())));
    assert_eq!(state.monitor_query, "load");
    assert_eq!(state.monitor_sources[0].query, "load");
    assert_eq!(state.monitor_sources[0].preset_index, 1);
    assert!(!state.monitor_query_mode);
    assert_eq!(state.notifications[0], "Applied metric query: load");
}

#[test]
fn ticks_keep_twelve_newest_messages() {
    let mut state = state();
    for n in 0..20 {
        state.notify(format!("message {n}"));
    }
    assert!(!state.on_tick());
    assert_eq!(state.notifications.len(), 12);
    assert_eq!(state.notifications[0], "message 19");
    assert_eq!(state.tick_count, 1);
}

#[test]
fn workspace_override_must_name_a_workspace() {
    let mut config = AppConfig::default();
    config.workspaces = vec![
        WorkspaceConfig {
            name: "dev".into(),
            root: "/srv/dev".into(),
        },
        WorkspaceConfig {
            name: "prod".into(),
            root: "/srv/prod".into(),
        },
    ];
    let state = AppState::new(&config, Some("prod".into())).unwrap();
    assert_eq!(state.workspace_root, "/srv/prod");
    let first = AppState::new(&config, None).unwrap();
    assert_eq!(first.workspace_name, "dev");
    let error = AppState::new(&config, Some("qa".into())).unwrap_err();
    assert_eq!(error.message, "workspace 'qa' not found");
    config.workspaces = vec![];
    let fallback = AppState::new(&config, None).unwrap();
    assert_eq!(fallback.workspace_name, "default");
    assert_eq!(fallback.workspace_root, ".");
    assert_eq!(fallback.notifications, vec!["Welcome to deli".to_string()]);
}

#[test]
fn activating_a_view_ends_other_modes() {
    let mut state = state();
    state.config_filter_mode = true;
    state.monitor_query_mode = true;
    state.document_editor_mode = true;
    state.activate_view(ActiveView::Configs);
    assert!(state.config_filter_mode);
    assert!(!state.monitor_query_mode);
    assert!(!state.document_editor_mode);
    state.activate_view(ActiveView::Worktree);
    assert!(!state.config_filter_mode);
}

#[test]
fn palette_routes_commands() {
    let mut state = state();
    state.command_palette_open = true;
    state.command_query = "  Connect FEISHU ".into();
    assert_eq!(state.execute_command_palette(), PaletteAction::ConnectFeishu);
    state.command_query = "https://team.feishu.cn/docx/Doc1 ".into();
    assert_eq!(
        state.execute_command_palette(),
        PaletteAction::OpenUrl("https://team.feishu.cn/docx/Doc1".into())
    );
    state.command_query = "dance".into();
    assert_eq!(state.execute_command_palette(), PaletteAction::Done);
    assert_eq!(state.notifications[0], "Unknown command palette action: dance");
    assert!(!state.command_palette_open);
    state.command_palette_open = true;
    state.command_query = "   ".into();
    assert_eq!(state.execute_command_palette(), PaletteAction::Done);
    assert!(!state.command_palette_open);
}

#[test]
fn opening_a_url_twice_keeps_one_copy() {
    let mut state = state();
    state.command_palette_open = true;
    state.command_query = "https://x".into();
    let doc = DocumentResource::from_source("d1".into(), "p".into(), DocumentFormat::Markdown, "# Doc".into())
        .with_source_url("https://team.feishu.cn/docx/d1".into());
    state.apply_remote_open(Ok(doc.clone()));
    state.apply_remote_open(Ok(doc));
    assert_eq!(state.documents.len(), 1);
    assert_eq!(state.ad_hoc_documents.len(), 1);
    assert_eq!(state.document_index, 0);
    assert_eq!(state.command_query, "");
    assert!(!state.command_palette_open);
    assert_eq!(state.notifications[0], "Opened remote document URL");
    state.apply_remote_open(Err(DeliError::new(DeliErrorKind::Configuration, "bad".into())));
    assert_eq!(state.notifications[0], "Open URL failed: configuration: bad");
}

#[test]
fn saving_a_document_replaces_it_and_reloads_editor() {
    let mut state = state();
    state.documents = vec![DocumentResource::from_source(
        "one".into(),
        "a.md".into(),
        DocumentFormat::Markdown,
        "# One".into(),
    )];
    assert!(state.prepare_document_save(None).is_none());
    assert_eq!(state.notifications[0], "No document editor content to save");
    let plan = state.prepare_document_save(Some("# Changed".into())).unwrap();
    assert_eq!(plan.updated.title, "Changed");
    assert_eq!(plan.updated.provider_name.as_deref(), Some("local"));
    assert_eq!(plan.updated.remote_id.as_deref(), Some("one"));
    assert_eq!(plan.provider_name, None);
    let step = after_provider_save(&plan.updated, ProviderSave::NotRegistered);
    let result = match step {
        SaveStep::Finish(result) => result,
        SaveStep::SaveRemote => panic!("no remote save expected"),
    };
    state.document_editor_dirty = true;
    state.finish_document_save(plan.updated, result);
    assert_eq!(state.documents[0].raw, "# Changed");
    assert_eq!(state.ad_hoc_documents.len(), 1);
    assert_eq!(state.notifications[0], "Updated document preview in memory");
    assert!(!state.document_editor_dirty);
    assert_eq!(state.document_editor_reload.as_deref(), Some("# Changed"));
}

#[test]
fn failed_provider_save_without_url_fails() {
    let doc = DocumentResource::from_source("one".into(), "a.md".into(), DocumentFormat::Markdown, "x".into());
    match after_provider_save(&doc, ProviderSave::Failed(DeliError::new(DeliErrorKind::Provider, "down".into()))) {
        SaveStep::Finish(Err(error)) => assert_eq!(error.message, "document provider save failed"),
        other => panic!("unexpected {other:?}"),
    }
    let with_url = doc.with_source_url("https://team.feishu.cn/docx/one".into());
    assert!(matches!(
        after_provider_save(&with_url, ProviderSave::Failed(DeliError::new(DeliErrorKind::Provider, "down".into()))),
        SaveStep::SaveRemote
    ));
}

#[test]
fn refresh_collects_documents_and_reports_failures() {
    let mut state = state();
    state.ad_hoc_documents = vec![DocumentResource::from_source(
        "adhoc".into(),
        "z.md".into(),
        DocumentFormat::Markdown,
        "# Z".into(),
    )];
    state.document_index = 7;
    state.apply_refresh(RefreshOutcome {
        documents: vec![
            ProviderDocuments {
                name: "docs".into(),
                result: Ok(vec![DocumentResource::from_source(
                    "a".into(),
                    "a.md".into(),
                    DocumentFormat::Markdown,
                    "# A".into(),
                )]),
            },
            ProviderDocuments {
                name: "wiki".into(),
                result: Err(DeliError::new(DeliErrorKind::Provider, "offline".into())),
            },
        ],
        config: Some(ProviderTable {
            name: "cfg".into(),
            result: Err(DeliError::new(DeliErrorKind::Provider, "bad json".into())),
        }),
        services: None,
        actions: vec![CommandSpec {
            program: "make".into(),
            args: vec!["deploy".into()],
            cwd: None,
        }],
    });
    assert_eq!(state.documents.len(), 2);
    assert_eq!(state.documents[0].title, "A");
    assert_eq!(state.documents[1].title, "Z");
    assert_eq!(state.document_index, 1);
    assert_eq!(state.refresh_count, 1);
    assert_eq!(state.notifications[0], "cfg provider error: provider: bad json");
    assert_eq!(state.notifications[1], "wiki provider error: provider: offline");
    assert_eq!(state.notifications[2], "Refresh #1");
    assert_eq!(state.action_commands, vec!["make deploy".to_string()]);
    assert!(state.config_frame.columns.is_empty());
}

#[test]
fn graph_area_changes_are_normalized() {
    let mut state = state();
    assert!(state.sync_monitor_graph_area(GraphArea { x: 1, y: 2, width: 10, height: 3 }));
    assert_eq!(state.monitor_graph_area, GraphArea { x: 1, y: 2, width: 20, height: 8 });
    assert!(!state.sync_monitor_graph_area(GraphArea { x: 1, y: 2, width: 5, height: 1 }));
    let dims = state.chart_dimensions();
    assert_eq!(dims.ascii_width, 20);
    assert_eq!(dims.ascii_height, 8);
    assert_eq!(dims.pixel_width, 200);
    assert_eq!(dims.pixel_height, 160);
}

#[test]
fn charts_are_kept_only_with_metrics() {
    let mut state = state();
    let plan = ChartPlan {
        mode: ChartRenderMode::TextFallback,
        script: "plot".into(),
        output_path: "/tmp/c.png".into(),
    };
    state.apply_chart(Some((Some("chart".into()), plan.clone(), ChartRenderStatus::Skipped("no gnuplot".into()))));
    assert!(state.monitor_chart_plan.is_none());
    state.monitor_frame = Some(empty_chart_frame());
    state.apply_chart(Some((Some("chart".into()), plan, ChartRenderStatus::Skipped("no gnuplot".into()))));
    assert_eq!(state.monitor_chart_ascii.as_deref(), Some("chart"));
    state.apply_chart(None);
    assert!(state.monitor_chart_ascii.is_none());
    state.apply_chart(Some((Some("chart".into()), ChartPlan {
        mode: ChartRenderMode::TextFallback,
        script: "plot".into(),
        output_path: "/tmp/c.png".into(),
    }, ChartRenderStatus::Skipped("no gnuplot".into()))));
    assert_eq!(state.monitor_chart_ascii.as_deref(), Some("chart"));
    assert_eq!(state.monitor_chart_status, Some(ChartRenderStatus::Skipped("no gnuplot".into())));
}

#[test]
fn feishu_connect_outcome_is_reported() {
    let mut state = state();
    state.command_palette_open = true;
    state.command_query = "connect feishu".into();
    state.apply_feishu_connect(Ok("Alice".into()));
    assert!(!state.command_palette_open);
    assert_eq!(state.command_query, "");
    assert_eq!(state.notifications[0], "Feishu connected as Alice");
    state.apply_feishu_connect(Err(DeliError::new(DeliErrorKind::Provider, "denied".into())));
    assert_eq!(state.notifications[0], "Feishu connect failed: provider: denied");
}
