use deli::gnuplot::{
    build_ascii_gnuplot_script, build_gnuplot_script, escape_single_quotes, plan_chart,
    strip_ansi_sequences, ChartRenderMode, DataPoint, Series, TimeSeriesFrame,
};
use deli::screen::{nudge, theme_colors, Rgb};
use deli::terminal_theme::{
    osc_reply_overflows, parse_osc_11_response, scale_xterm_component, TerminalColor,
};

fn cpu_frame() -> TimeSeriesFrame {
    TimeSeriesFrame {
        title: "CPU".into(),
        series: vec![Series {
            name: "api".into(),
            unit: Some("%".into()),
            points: vec![DataPoint {
                timestamp: 1_712_300_000,
                value: 41.2f64.to_string(),
            }],
        }],
    }
}

#[test]
fn generates_transparent_gnuplot_script() {
    let frame = cpu_frame();
    let script = build_gnuplot_script(&frame, "/tmp/chart.png");

    assert!(script.contains("transparent noenhanced"));
    assert!(script.contains("set title 'CPU' textcolor rgb '#d9d9d9'"));
    assert!(script.contains("set key outside textcolor rgb '#d9d9d9'"));
    assert!(script.contains("plot '-' using 1:2 with lines lw 2 lc rgb '#ffd166' title 'api'"));
    assert!(script.contains("1712300000 41.2"));
}

#[test]
fn generates_ascii_gnuplot_script() {
    let frame = cpu_frame();
    let script = build_ascii_gnuplot_script(&frame, 80, 18);
    assert!(script.contains("set terminal dumb mono size 80,18"));
    assert!(script.contains("set termoption noenhanced"));
    assert!(script.contains("plot '-' using 1:2 with lines title 'api'"));
}

#[test]
fn ascii_chart_has_a_minimum_size() {
    let script = build_ascii_gnuplot_script(&cpu_frame(), 5, 2);
    assert!(script.contains("set terminal dumb mono size 20,8"));
}

#[test]
fn strips_ansi_sequences_from_ascii_output() {
    let value = "\u{1b}[22;39mhello\u{1b}[0m";
    assert_eq!(strip_ansi_sequences(value), "hello");
}

#[test]
fn stripped_output_has_no_escape_characters() {
    let stripped = strip_ansi_sequences("a\u{1b}b\u{1b}[1;2Hc\u{1b}");
    assert!(!stripped.contains('\u{1b}'));
    assert_eq!(stripped, "abc");
}

#[test]
fn monitoring_falls_back_without_kitty() {
    let frame = TimeSeriesFrame {
        title: "CPU".into(),
        series: vec![Series {
            name: "api".into(),
            unit: Some("%".into()),
            points: vec![DataPoint {
                timestamp: 1_712_300_000,
                value: 44.5f64.to_string(),
            }],
        }],
    };
    let plan = plan_chart(&frame, false, "/tmp/deli-monitor.png");
    assert!(matches!(
        plan.mode,
        ChartRenderMode::TextFallback | ChartRenderMode::KittyImage
    ));
    assert_eq!(plan.mode, ChartRenderMode::TextFallback);
    assert!(plan.script.contains("transparent"));
    let kitty = plan_chart(&frame, true, "/tmp/deli-monitor.png");
    assert_eq!(kitty.mode, ChartRenderMode::KittyImage);
    assert_eq!(kitty.output_path, "/tmp/deli-monitor.png");
}

#[test]
fn escapes_single_quotes_in_titles() {
    assert_eq!(escape_single_quotes("it's"), "it\\'s");
}

#[test]
fn parses_four_digit_osc_11_response() {
    let parsed = parse_osc_11_response("\x1b]11;rgb:1a1a/2020/2f2f\x07").unwrap();
    assert_eq!(
        parsed,
        TerminalColor {
            r: 26,
            g: 32,
            b: 47
        }
    );
}

#[test]
fn parses_two_digit_osc_11_response() {
    let parsed = parse_osc_11_response("\x1b]11;rgb:fa/ef/d7\x1b\\").unwrap();
    assert_eq!(
        parsed,
        TerminalColor {
            r: 250,
            g: 239,
            b: 215
        }
    );
}

#[test]
fn rejects_incomplete_osc_11_responses() {
    assert_eq!(parse_osc_11_response("no color here"), None);
    assert_eq!(parse_osc_11_response("\x1b]11;rgb:ff/ff\x07"), None);
    assert!(!osc_reply_overflows("\x1b]11;rgb:ffff/0/0\x07"));
    assert!(osc_reply_overflows("\x1b]11;rgb:ffffffff/0/0\x07"));
}

#[test]
fn derives_theme_colours_from_background() {
    let dark = TerminalColor { r: 10, g: 10, b: 250 };
    let colors = theme_colors(dark, true);
    assert_eq!(colors.panel_bg, Rgb { r: 20, g: 20, b: 255 });
    assert_eq!(colors.accent_fg, Rgb { r: 224, g: 198, b: 140 });
    let light = theme_colors(TerminalColor { r: 5, g: 200, b: 255 }, false);
    assert_eq!(light.muted_fg, Rgb { r: 0, g: 90, b: 145 });
    assert_eq!(nudge(TerminalColor { r: 0, g: 128, b: 255 }, -6), Rgb { r: 0, g: 122, b: 249 });
}

#[test]
fn reported_components_read_back_as_channels() {
    for channel in [0u8, 1, 0x1e, 0x80, 0xfe, 0xff] {
        let wide = format!("{:04x}", u32::from(channel) * 257);
        let narrow = format!("{channel:02x}");
        assert_eq!(scale_xterm_component(&wide), Some(channel));
        assert_eq!(scale_xterm_component(&narrow), Some(channel));
    }
    assert_eq!(scale_xterm_component("8"), Some(0x88));
    assert_eq!(scale_xterm_component("zz"), None);
}
