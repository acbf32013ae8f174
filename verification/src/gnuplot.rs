//! Time series and the gnuplot scripts that chart them.
use vstd::prelude::*;

use crate::text::{
    chars_of, i64_text, int_text, join, join_strings, nat_digits, owned, replace, str_replace,
    string_of, u64_text,
};

verus! {

/// One sample: a Unix timestamp and the value as Rust's `Display` prints the
/// number.
#[derive(Debug, Clone, PartialEq, Eq)]
pub struct DataPoint {
    pub timestamp: i64,
    pub value: String,
}

/// A named series of samples, with an optional unit.
#[derive(Debug, Clone, PartialEq, Eq)]
pub struct Series {
    pub name: String,
    pub unit: Option<String>,
    pub points: Vec<DataPoint>,
}

/// A titled set of series.
#[derive(Debug, Clone, PartialEq, Eq)]
pub struct TimeSeriesFrame {
    pub title: String,
    pub series: Vec<Series>,
}

/// How a chart is shown: as an image in a kitty terminal, else as text.
#[derive(Debug, Clone, Copy, PartialEq, Eq, Structural)]
pub enum ChartRenderMode {
    KittyImage,
    TextFallback,
}

/// A chart to render: how to show it, the gnuplot script and the image path.
#[derive(Debug, Clone)]
pub struct ChartPlan {
    pub mode: ChartRenderMode,
    pub script: String,
    pub output_path: String,
}

/// What came of rendering a chart.
#[derive(Debug, Clone, PartialEq, Eq)]
pub enum ChartRenderStatus {
    Rendered(String),
    Skipped(String),
    Failed(String),
}

/// Text with each single quote escaped by a backslash.
pub open spec fn quote_escaped(v: Seq<char>) -> Seq<char> {
    replace(v, "'"@, "\\'"@)
}

/// Escapes the single quotes of a text for a gnuplot string.
pub fn escape_single_quotes(value: &str) -> (res: String)
    ensures
        res@ == quote_escaped(value@),
{
    proof {
        reveal_strlit("'");
    }
    str_replace(value, "'", "\\'")
}

/// The line colors of the image chart, used in turn.
pub open spec fn series_color(index: int) -> Seq<char> {
    let k = index % 6;
    if k == 0 {
        "#ffd166"@
    } else if k == 1 {
        "#7bdff2"@
    } else if k == 2 {
        "#a8df65"@
    } else if k == 3 {
        "#f7a072"@
    } else if k == 4 {
        "#cdb4db"@
    } else {
        "#f28482"@
    }
}

/// The line color of the series at an index.
fn series_color_exec(index: usize) -> (res: &'static str)
    ensures
        res@ == series_color(index as int),
{
    let k = index % 6;
    if k == 0 {
        "#ffd166"
    } else if k == 1 {
        "#7bdff2"
    } else if k == 2 {
        "#a8df65"
    } else if k == 3 {
        "#f7a072"
    } else if k == 4 {
        "#cdb4db"
    } else {
        "#f28482"
    }
}

/// The data line of a sample: timestamp, space, value.
pub open spec fn point_line(p: DataPoint) -> Seq<char> {
    int_text(p.timestamp as int) + " "@ + p.value@
}

/// The inline data of a series: one line per sample, then `e`.
pub open spec fn series_block(s: Series) -> Seq<Seq<char>> {
    s.points@.map_values(|p: DataPoint| point_line(p)).push("e"@)
}

/// The inline data of all series, in order.
pub open spec fn data_lines(series: Seq<Series>) -> Seq<Seq<char>>
    decreases series.len(),
{
    if series.len() == 0 {
        Seq::empty()
    } else {
        data_lines(series.drop_last()) + series_block(series.last())
    }
}

/// The plot clause of a series in the image chart.
pub open spec fn image_plot(index: int, s: Series) -> Seq<char> {
    "'-' using 1:2 with lines lw 2 lc rgb '"@ + series_color(index) + "' title '"@ + quote_escaped(
        s.name@,
    ) + "'"@
}

/// The plot clause of a series in the text chart.
pub open spec fn ascii_plot(s: Series) -> Seq<char> {
    "'-' using 1:2 with lines title '"@ + quote_escaped(s.name@) + "'"@
}

/// The lines of the gnuplot script for a transparent PNG chart.
pub open spec fn image_script_lines(frame: TimeSeriesFrame, output_path: Seq<char>) -> Seq<Seq<char>> {
    seq![
        "set terminal pngcairo transparent noenhanced size 1200,400"@,
        "set output '"@ + output_path + "'"@,
        "set title '"@ + quote_escaped(frame.title@) + "' textcolor rgb '#d9d9d9'"@,
        "set border lc rgb '#d9d9d9'"@,
        "set xtics textcolor rgb '#8a8a8a'"@,
        "set ytics textcolor rgb '#8a8a8a'"@,
        "set key outside textcolor rgb '#d9d9d9'"@,
        "set grid lc rgb '#8a8a8a'"@,
        "set xdata time"@,
        "set timefmt '%s'"@,
        "set format x '%H:%M'"@,
        "plot "@ + join(
            Seq::new(frame.series@.len(), |i: int| image_plot(i, frame.series@[i])),
            ", "@,
        ),
    ] + data_lines(frame.series@)
}

/// The lines of the gnuplot script for a text chart of at least 20 by 8
/// characters.
pub open spec fn ascii_script_lines(frame: TimeSeriesFrame, width: u16, height: u16) -> Seq<Seq<char>> {
    let w = if width < 20 {
        20
    } else {
        width
    };
    let h = if height < 8 {
        8
    } else {
        height
    };
    seq![
        "set termoption noenhanced"@,
        "set terminal dumb mono size "@ + nat_digits(w as nat) + ","@ + nat_digits(h as nat),
        "set title '"@ + quote_escaped(frame.title@) + "'"@,
        "unset key"@,
        "set border"@,
        "set xdata time"@,
        "set timefmt '%s'"@,
        "set format x '%H:%M'"@,
        "set tics out"@,
        "plot "@ + join(frame.series@.map_values(|s: Series| ascii_plot(s)), ", "@),
    ] + data_lines(frame.series@)
}

/// Appends the inline data of the series to the script lines.
fn push_data_lines(lines: &mut Vec<String>, series: &Vec<Series>)
    ensures
        final(lines)@.map_values(|l: String| l@) == old(lines)@.map_values(|l: String| l@)
            + data_lines(series@),
{
    let ghost start = lines@.map_values(|l: String| l@);
    let mut i: usize = 0;
    while i < series.len()
        invariant
            i <= series.len(),
            lines@.map_values(|l: String| l@) == start + data_lines(series@.take(i as int)),
        decreases series.len() - i,
    {
        let s = &series[i];
        let ghost before = lines@.map_values(|l: String| l@);
        let mut k: usize = 0;
        while k < s.points.len()
            invariant
                k <= s.points.len(),
                lines@.map_values(|l: String| l@) == before + s.points@.take(k as int).map_values(
                    |p: DataPoint| point_line(p),
                ),
            decreases s.points.len() - k,
        {
            let p = &s.points[k];
            let mut line = i64_text(p.timestamp);
            line.append(" ");
            line.append(p.value.as_str());
            let ghost b2 = lines@.map_values(|l: String| l@);
            lines.push(line);
            assert(lines@.map_values(|l: String| l@) =~= b2.push(point_line(*p)));
            assert(s.points@.take(k + 1).map_values(|p: DataPoint| point_line(p)) =~= s.points@.take(
                k as int,
            ).map_values(|p: DataPoint| point_line(p)).push(point_line(s.points@[k as int])));
            k += 1;
        }
        let ghost b3 = lines@.map_values(|l: String| l@);
        lines.push(owned("e"));
        proof {
            assert(lines@.map_values(|l: String| l@) =~= b3.push("e"@));
            assert(s.points@.take(s.points.len() as int) =~= s.points@);
            assert(series@.take(i + 1).drop_last() =~= series@.take(i as int));
            assert(series@.take(i + 1).last() == *s);
            assert(lines@.map_values(|l: String| l@) =~= start + data_lines(series@.take(i + 1)));
        }
        i += 1;
    }
    assert(series@.take(series.len() as int) =~= series@);
}

/// The gnuplot script that draws the frame as a transparent PNG at the given
/// path: the lines of `image_script_lines` joined with newlines.
pub fn build_gnuplot_script(frame: &TimeSeriesFrame, output_path: &str) -> (res: String)
    ensures
        res@ == join(image_script_lines(*frame, output_path@), "\n"@),
{
    let mut lines: Vec<String> = Vec::new();
    lines.push(owned("set terminal pngcairo transparent noenhanced size 1200,400"));
    let mut out_line = owned("set output '");
    out_line.append(output_path);
    out_line.append("'");
    lines.push(out_line);
    let title = escape_single_quotes(frame.title.as_str());
    let mut title_line = owned("set title '");
    title_line.append(title.as_str());
    title_line.append("' textcolor rgb '#d9d9d9'");
    lines.push(title_line);
    lines.push(owned("set border lc rgb '#d9d9d9'"));
    lines.push(owned("set xtics textcolor rgb '#8a8a8a'"));
    lines.push(owned("set ytics textcolor rgb '#8a8a8a'"));
    lines.push(owned("set key outside textcolor rgb '#d9d9d9'"));
    lines.push(owned("set grid lc rgb '#8a8a8a'"));
    lines.push(owned("set xdata time"));
    lines.push(owned("set timefmt '%s'"));
    lines.push(owned("set format x '%H:%M'"));
    let mut plots: Vec<String> = Vec::new();
    let mut i: usize = 0;
    while i < frame.series.len()
        invariant
            i <= frame.series.len(),
            plots@.map_values(|l: String| l@) == Seq::new(
                i as nat,
                |k: int| image_plot(k, frame.series@[k]),
            ),
        decreases frame.series.len() - i,
    {
        let name = escape_single_quotes(frame.series[i].name.as_str());
        let mut p = owned("'-' using 1:2 with lines lw 2 lc rgb '");
        p.append(series_color_exec(i));
        p.append("' title '");
        p.append(name.as_str());
        p.append("'");
        let ghost before = plots@.map_values(|l: String| l@);
        assert(p@ == image_plot(i as int, frame.series@[i as int]));
        plots.push(p);
        assert(plots@.map_values(|l: String| l@) =~= before.push(p@));
        assert(plots@.map_values(|l: String| l@) =~= Seq::new(
            (i + 1) as nat,
            |k: int| image_plot(k, frame.series@[k]),
        ));
        i += 1;
    }
    let joined = join_strings(&plots, ", ");
    let mut plot_line = owned("plot ");
    plot_line.append(joined.as_str());
    lines.push(plot_line);
    let ghost head = lines@.map_values(|l: String| l@);
    push_data_lines(&mut lines, &frame.series);
    assert(lines@.map_values(|l: String| l@) =~= image_script_lines(*frame, output_path@));
    join_strings(&lines, "\n")
}

/// The gnuplot script that draws the frame as text at least 20 by 8
/// characters: the lines of `ascii_script_lines` joined with newlines.
pub fn build_ascii_gnuplot_script(frame: &TimeSeriesFrame, width: u16, height: u16) -> (res: String)
    ensures
        res@ == join(ascii_script_lines(*frame, width, height), "\n"@),
{
    let w: u16 = if width < 20 {
        20
    } else {
        width
    };
    let h: u16 = if height < 8 {
        8
    } else {
        height
    };
    let mut lines: Vec<String> = Vec::new();
    lines.push(owned("set termoption noenhanced"));
    let mut size_line = owned("set terminal dumb mono size ");
    let ws = u64_text(w as u64);
    let hs = u64_text(h as u64);
    size_line.append(ws.as_str());
    size_line.append(",");
    size_line.append(hs.as_str());
    lines.push(size_line);
    let title = escape_single_quotes(frame.title.as_str());
    let mut title_line = owned("set title '");
    title_line.append(title.as_str());
    title_line.append("'");
    lines.push(title_line);
    lines.push(owned("unset key"));
    lines.push(owned("set border"));
    lines.push(owned("set xdata time"));
    lines.push(owned("set timefmt '%s'"));
    lines.push(owned("set format x '%H:%M'"));
    lines.push(owned("set tics out"));
    let mut plots: Vec<String> = Vec::new();
    let mut i: usize = 0;
    while i < frame.series.len()
        invariant
            i <= frame.series.len(),
            plots@.map_values(|l: String| l@) == frame.series@.take(i as int).map_values(
                |s: Series| ascii_plot(s),
            ),
        decreases frame.series.len() - i,
    {
        let name = escape_single_quotes(frame.series[i].name.as_str());
        let mut p = owned("'-' using 1:2 with lines title '");
        p.append(name.as_str());
        p.append("'");
        let ghost before = plots@.map_values(|l: String| l@);
        plots.push(p);
        assert(plots@.map_values(|l: String| l@) =~= before.push(ascii_plot(frame.series@[i as int])));
        assert(frame.series@.take(i + 1).map_values(|s: Series| ascii_plot(s)) =~= frame.series@.take(
            i as int,
        ).map_values(|s: Series| ascii_plot(s)).push(ascii_plot(frame.series@[i as int])));
        i += 1;
    }
    assert(frame.series@.take(frame.series.len() as int) =~= frame.series@);
    let joined = join_strings(&plots, ", ");
    let mut plot_line = owned("plot ");
    plot_line.append(joined.as_str());
    lines.push(plot_line);
    push_data_lines(&mut lines, &frame.series);
    assert(lines@.map_values(|l: String| l@) =~= ascii_script_lines(*frame, width, height));
    join_strings(&lines, "\n")
}

/// The chart plan for a frame: an image in a kitty terminal, else text; the
/// script draws the frame to the given image path.
pub fn plan_chart(frame: &TimeSeriesFrame, supports_kitty: bool, output_path: &str) -> (res: ChartPlan)
    ensures
        res.mode == (if supports_kitty {
            ChartRenderMode::KittyImage
        } else {
            ChartRenderMode::TextFallback
        }),
        res.script@ == join(image_script_lines(*frame, output_path@), "\n"@),
        res.output_path@ == output_path@,
{
    let mode = if supports_kitty {
        ChartRenderMode::KittyImage
    } else {
        ChartRenderMode::TextFallback
    };
    ChartPlan {
        mode,
        script: build_gnuplot_script(frame, output_path),
        output_path: owned(output_path),
    }
}

/// The scanner's state while dropping ANSI control sequences.
#[derive(PartialEq, Eq, Structural, Clone, Copy)]
pub enum AnsiScan {
    /// Copying characters.
    Plain,
    /// Just after an escape character.
    Escape,
    /// Inside a control sequence (`ESC [`), up to its final byte.
    Sequence,
}

/// The effect of one character on the scan: the new state and whether the
/// character is kept.
pub open spec fn ansi_step(st: AnsiScan, c: char) -> (AnsiScan, bool) {
    match st {
        AnsiScan::Sequence => if '@' <= c && c <= '~' {
            (AnsiScan::Plain, false)
        } else {
            (AnsiScan::Sequence, false)
        },
        AnsiScan::Escape => if c == '[' {
            (AnsiScan::Sequence, false)
        } else if c == '\u{1b}' {
            (AnsiScan::Escape, false)
        } else {
            (AnsiScan::Plain, true)
        },
        AnsiScan::Plain => if c == '\u{1b}' {
            (AnsiScan::Escape, false)
        } else {
            (AnsiScan::Plain, true)
        },
    }
}

/// The scan over some characters: the final state and the kept characters.
pub open spec fn ansi_run(s: Seq<char>) -> (AnsiScan, Seq<char>)
    decreases s.len(),
{
    if s.len() == 0 {
        (AnsiScan::Plain, Seq::empty())
    } else {
        let (st, out) = ansi_run(s.drop_last());
        let (next, keep) = ansi_step(st, s.last());
        (next, if keep {
            out.push(s.last())
        } else {
            out
        })
    }
}

/// Text without ANSI control sequences: every escape character is dropped,
/// and when a `[` follows it, the sequence up to and including its final
/// byte (`@` to `~`) as well.
pub open spec fn without_ansi(s: Seq<char>) -> Seq<char> {
    ansi_run(s).1
}

/// The text kept by the scan never holds an escape character.
pub proof fn lemma_without_ansi_has_no_escape(s: Seq<char>)
    ensures
        forall|k: int| 0 <= k < without_ansi(s).len() ==> without_ansi(s)[k] != '\u{1b}',
    decreases s.len(),
{
    if s.len() > 0 {
        lemma_without_ansi_has_no_escape(s.drop_last());
        let (st, out) = ansi_run(s.drop_last());
        let (next, keep) = ansi_step(st, s.last());
        assert(ansi_run(s) == (next, if keep {
            out.push(s.last())
        } else {
            out
        }));
        assert(without_ansi(s.drop_last()) == out);
        assert forall|k: int| 0 <= k < out.len() implies out[k] != '\u{1b}' by {
            assert(out[k] == without_ansi(s.drop_last())[k]);
        }
        if keep {
            assert(s.last() != '\u{1b}');
            assert forall|k: int| 0 <= k < out.push(s.last()).len() implies out.push(s.last())[k]
                != '\u{1b}' by {
                if k < out.len() {
                    assert(out.push(s.last())[k] == out[k]);
                }
            }
        }
    }
}

/// Drops ANSI control sequences from gnuplot's text output (see
/// `without_ansi`); the result holds no escape character.
pub fn strip_ansi_sequences(value: &str) -> (res: String)
    ensures
        res@ == without_ansi(value@),
        forall|k: int| 0 <= k < res@.len() ==> res@[k] != '\u{1b}',
{
    let chars = chars_of(value);
    let mut out: Vec<char> = Vec::new();
    let mut st = AnsiScan::Plain;
    let mut i: usize = 0;
    while i < chars.len()
        invariant
            i <= chars.len(),
            ansi_run(chars@.take(i as int)) == (st, out@),
        decreases chars.len() - i,
    {
        let c = chars[i];
        assert(chars@.take(i + 1).drop_last() =~= chars@.take(i as int));
        assert(chars@.take(i + 1).last() == c);
        match st {
            AnsiScan::Sequence => {
                if '@' <= c && c <= '~' {
                    st = AnsiScan::Plain;
                }
            },
            AnsiScan::Escape => {
                if c == '[' {
                    st = AnsiScan::Sequence;
                } else if c == '\u{1b}' {
                    st = AnsiScan::Escape;
                } else {
                    st = AnsiScan::Plain;
                    out.push(c);
                }
            },
            AnsiScan::Plain => {
                if c == '\u{1b}' {
                    st = AnsiScan::Escape;
                } else {
                    out.push(c);
                }
            },
        }
        i += 1;
    }
    assert(chars@.take(chars.len() as int) =~= chars@);
    let res = string_of(&out);
    proof {
        lemma_without_ansi_has_no_escape(value@);
        assert(res@ == without_ansi(value@));
        assert forall|k: int| 0 <= k < res@.len() implies res@[k] != '\u{1b}' by {
            assert(res@[k] == without_ansi(value@)[k]);
        }
    }
    res
}

} // verus!
