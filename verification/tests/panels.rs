use deli::config::AppConfig;
use deli::dataframe::{CellValue, ColumnSchema, ColumnType, DataFrame};
use deli::document::{DocumentFormat, DocumentResource};
use deli::gnuplot::{ChartRenderStatus, TimeSeriesFrame};
use deli::keys::{Key, KeyAction, KeyPress};
use deli::screen::{
    detail_panel_width, inspector_title, palette_cursor_x, palette_suggestions,
    service_column_width, sidebar_lines, table_title, ColumnWidth, TableKind,
};
use deli::state::{ActiveView, AppState};

fn state() -> AppState {
    AppState::new(&AppConfig::default(), None).unwrap()
}

fn press(key: Key, control: bool) -> KeyPress {
    KeyPress { key, control }
}

#[test]
fn lists_documents_with_selection_marker() {
    let mut state = state();
    assert_eq!(state.document_list_lines(), vec!["No documents loaded".to_string()]);
    state.documents = vec![
        DocumentResource::from_source("1".into(), "a.md".into(), DocumentFormat::Markdown, "# One".into()),
        DocumentResource::from_source("2".into(), "b.md".into(), DocumentFormat::Markdown, "# Two".into()),
    ];
    assert_eq!(
        state.document_list_lines(),
        vec!["> One (a.md)".to_string(), "  Two (b.md)".to_string()]
    );
}

#[test]
fn reader_lines_follow_scroll() {
    let mut state = state();
    assert_eq!(state.document_reader_lines(), vec!["No document selected".to_string()]);
    state.documents = vec![DocumentResource::from_source(
        "1".into(),
        "a.md".into(),
        DocumentFormat::Markdown,
        "# One\n\nbody".into(),
    )];
    let all = state.document_reader_lines();
    assert_eq!(all[0], "# One");
    state.document_scroll = 1;
    assert_eq!(state.document_reader_lines()[0], "Source: a.md");
    state.document_scroll = 500;
    assert!(state.document_reader_lines().is_empty());
}

#[test]
fn config_lines_show_filter_header_and_rows() {
    let mut state = state();
    assert_eq!(state.config_lines(), vec!["No config rows loaded".to_string()]);
    state.config_frame = DataFrame {
        columns: vec![
            ColumnSchema {
                name: "service".into(),
                kind: ColumnType::String,
            },
            ColumnSchema {
                name: "replicas".into(),
                kind: ColumnType::Int,
            },
        ],
        rows: vec![
            vec![CellValue::String("api".into()), CellValue::Int(3)],
            vec![CellValue::String("worker".into()), CellValue::Int(1)],
        ],
    };
    state.config_filter_mode = true;
    assert_eq!(
        state.config_lines(),
        vec![
            "Filter: <none> [editing]".to_string(),
            "service | replicas".to_string(),
            "> api | 3".to_string(),
            "  worker | 1".to_string(),
        ]
    );
}

#[test]
fn service_actions_show_selected_resource() {
    let mut state = state();
    assert_eq!(state.service_action_lines(), vec!["No service resources loaded".to_string()]);
    state.service_frame = DataFrame {
        columns: vec![
            ColumnSchema {
                name: "name".into(),
                kind: ColumnType::String,
            },
            ColumnSchema {
                name: "actions".into(),
                kind: ColumnType::String,
            },
        ],
        rows: vec![vec![
            CellValue::String("api".into()),
            CellValue::String("restart".into()),
        ]],
    };
    let lines = state.service_action_lines();
    assert_eq!(lines.len(), 7);
    assert_eq!(lines[4], "Selected resource:");
    assert_eq!(lines[5], "name=api");
    assert_eq!(lines[6], "actions: restart");
}

#[test]
fn worktree_and_message_lines() {
    let mut state = state();
    let lines = state.worktree_lines();
    assert_eq!(lines[0], "Workspace: .");
    assert_eq!(lines[2], "No action providers configured");
    assert_eq!(state.message_lines(), vec![" 1. Welcome to deli".to_string()]);
    for n in 0..10 {
        state.notify(format!("m{n}"));
    }
    let messages = state.message_lines();
    assert_eq!(messages.len(), 8);
    assert_eq!(messages[0], " 1. m9");
    assert_eq!(messages[7], " 8. m2");
}

#[test]
fn monitor_lines_summarize_chart_and_status() {
    let mut state = state();
    assert_eq!(state.monitor_lines(&vec![]), vec!["No monitoring series loaded".to_string()]);
    state.monitor_frame = Some(TimeSeriesFrame {
        title: "CPU".into(),
        series: vec![],
    });
    state.monitor_chart_ascii = Some("a\nb".into());
    state.monitor_chart_status = Some(ChartRenderStatus::Failed("exit 1".into()));
    let lines = state.monitor_lines(&vec!["api: 41.20 %".into()]);
    assert_eq!(
        lines,
        vec![
            "a".to_string(),
            "b".to_string(),
            "".to_string(),
            "CPU".to_string(),
            "Provider: none".to_string(),
            "Query: ".to_string(),
            "api: 41.20 %".to_string(),
            "".to_string(),
            "gnuplot failed: exit 1".to_string(),
        ]
    );
}

#[test]
fn detail_lines_describe_current_view() {
    let mut state = state();
    state.monitor_frame = Some(TimeSeriesFrame {
        title: "CPU".into(),
        series: vec![],
    });
    state.active_view = ActiveView::Monitoring;
    let lines = state.detail_lines(2, false);
    assert_eq!(lines[0], "Workspace root: .");
    assert_eq!(lines[1], "Docs: 0");
    assert_eq!(lines[4], "Monitor loaded: true");
    assert_eq!(lines[5], "Exports: JSON 2 bytes");
    assert_eq!(lines[6], "Metric query: ");
    assert_eq!(lines[7], "Metric provider: none");
    assert_eq!(lines[8], "Live polling: off (30s)");
    assert_eq!(lines[9], "Query panel: read-only");
    assert_eq!(lines.last().unwrap(), "Kitty unavailable, using text fallback");
    state.monitor_frame = None;
    assert_eq!(state.detail_lines(2, true).last().unwrap(), "No chart loaded");
}

#[test]
fn keys_follow_the_current_mode() {
    let mut state = state();
    assert_eq!(state.key_action(press(Key::Char('q'), false)), KeyAction::Quit);
    assert_eq!(state.key_action(press(Key::Char('c'), true)), KeyAction::Quit);
    assert_eq!(state.key_action(press(Key::Char('c'), false)), KeyAction::Ignore);
    assert_eq!(state.key_action(press(Key::Char('j'), true)), KeyAction::MoveSelection(1));
    assert_eq!(state.key_action(press(Key::Char('p'), false)), KeyAction::ScrollCurrent(-8));
    assert_eq!(state.key_action(press(Key::Char('p'), true)), KeyAction::MoveSelection(-1));
    assert_eq!(
        state.key_action(press(Key::Char('2'), false)),
        KeyAction::ActivateView(ActiveView::Configs)
    );
    state.command_palette_open = true;
    assert_eq!(state.key_action(press(Key::Char('q'), false)), KeyAction::PushCommandChar('q'));
    assert_eq!(state.key_action(press(Key::Esc, false)), KeyAction::ClosePalette);
    state.command_palette_open = false;
    state.config_filter_mode = true;
    assert_eq!(state.key_action(press(Key::Enter, false)), KeyAction::ClearFilterMode);
    assert_eq!(state.key_action(press(Key::Char('x'), true)), KeyAction::Ignore);
    state.config_filter_mode = false;
    state.monitor_query_mode = true;
    assert_eq!(state.key_action(press(Key::Char('s'), true)), KeyAction::ApplyMonitorQuery);
    assert_eq!(state.key_action(press(Key::Char('s'), false)), KeyAction::MonitorQueryInput);
    state.push_command_char('a');
    state.push_command_char('b');
    state.pop_command_char();
    assert_eq!(state.command_query, "a");
    state.flip_command_palette();
    assert!(state.command_palette_open);
}

#[test]
fn screen_titles_and_suggestions() {
    assert_eq!(table_title(TableKind::Configs, "", true), "Configs filter: <none> [editing]");
    assert_eq!(table_title(TableKind::Services, "api", false), "Services filter: api");
    assert_eq!(inspector_title(true, true), "Inspector [editing, dirty]");
    assert_eq!(detail_panel_width(ActiveView::Configs), 48);
    assert_eq!(detail_panel_width(ActiveView::Documents), 36);
    assert_eq!(service_column_width(&"name".to_string()), ColumnWidth::Min(18));
    assert_eq!(service_column_width(&"status".to_string()), ColumnWidth::Length(14));
    assert_eq!(service_column_width(&"owner".to_string()), ColumnWidth::Min(12));
    assert_eq!(palette_suggestions("https://x")[0], "Open remote URL");
    assert_eq!(palette_suggestions("CONNECT feishu")[0], "Connect Feishu user session");
    assert_eq!(palette_suggestions("").len(), 6);
    assert_eq!(palette_cursor_x(10, 20, 3), 15);
    assert_eq!(palette_cursor_x(10, 5, 30), 14);
    let sidebar = sidebar_lines(ActiveView::Worktree);
    assert_eq!(sidebar[2], "> Worktree");
    assert_eq!(sidebar[0], "  Documents");
}
