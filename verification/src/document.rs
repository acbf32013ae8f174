//! Documents: Markdown, Mintlify or plain text, normalized into render nodes.
use vstd::prelude::*;

use pulldown_cmark::Event::{Code, End, HardBreak, SoftBreak, Start, Text};
use pulldown_cmark::{Parser, Tag, TagEnd};

use crate::text::{
    append_str, chars_of, copy_opt_string, ends_with, ends_with_chars, join, join_chars, lines, lines_chars,
    slice_chars, starts_with, starts_with_chars, string_of, trim, trim_chars, trim_end,
    trim_end_chars, trim_str,
};

verus! {

use MarkdownEvent as M;

/// The source format of a document.
#[derive(Debug, Clone, Copy, PartialEq, Eq, Structural)]
pub enum DocumentFormat {
    Markdown,
    Mintlify,
    PlainText,
}

/// One block of a normalized document.
#[derive(Debug, Clone, PartialEq, Eq)]
pub enum DocumentNode {
    Heading { level: u8, text: String },
    Paragraph(String),
    CodeBlock(String),
    ListItem(String),
    Quote(String),
}

/// A block of a normalized document, with its text as characters.
pub enum NodeView {
    Heading { level: u8, text: Seq<char> },
    Paragraph(Seq<char>),
    CodeBlock(Seq<char>),
    ListItem(Seq<char>),
    Quote(Seq<char>),
}

impl View for DocumentNode {
    type V = NodeView;

    open spec fn view(&self) -> NodeView {
        match self {
            DocumentNode::Heading { level, text } => NodeView::Heading { level: *level, text: text@ },
            DocumentNode::Paragraph(t) => NodeView::Paragraph(t@),
            DocumentNode::CodeBlock(t) => NodeView::CodeBlock(t@),
            DocumentNode::ListItem(t) => NodeView::ListItem(t@),
            DocumentNode::Quote(t) => NodeView::Quote(t@),
        }
    }
}

/// The blocks of a list of nodes.
pub open spec fn nodes_view(nodes: Seq<DocumentNode>) -> Seq<NodeView> {
    nodes.map_values(|n: DocumentNode| n@)
}

/// A document loaded from a provider, with its normalized blocks and where it
/// came from.
#[derive(Debug, Clone, PartialEq, Eq)]
pub struct DocumentResource {
    pub id: String,
    pub title: String,
    pub path: String,
    pub format: DocumentFormat,
    pub raw: String,
    pub nodes: Vec<DocumentNode>,
    pub provider_name: Option<String>,
    pub remote_id: Option<String>,
    pub editable: bool,
    pub source_url: Option<String>,
}

/// What the Markdown reader reports, in document order, as far as
/// normalization reads it.
#[derive(Debug, Clone, PartialEq, Eq)]
pub enum MarkdownEvent {
    HeadingStart(u8),
    HeadingEnd,
    CodeBlockStart,
    CodeBlockEnd,
    ItemStart,
    ItemEnd,
    QuoteStart,
    QuoteEnd,
    /// Text of a paragraph, heading, item, quote or code block.
    Text(String),
    /// Inline code.
    Code(String),
    SoftBreak,
    HardBreak,
    ParagraphEnd,
    /// Any other event, which normalization passes over.
    Other,
}

/// A reader event with its text as characters.
pub enum MarkdownEventView {
    HeadingStart(u8),
    HeadingEnd,
    CodeBlockStart,
    CodeBlockEnd,
    ItemStart,
    ItemEnd,
    QuoteStart,
    QuoteEnd,
    Text(Seq<char>),
    Code(Seq<char>),
    SoftBreak,
    HardBreak,
    ParagraphEnd,
    Other,
}

impl View for MarkdownEvent {
    type V = MarkdownEventView;

    open spec fn view(&self) -> MarkdownEventView {
        match self {
            MarkdownEvent::HeadingStart(l) => MarkdownEventView::HeadingStart(*l),
            MarkdownEvent::HeadingEnd => MarkdownEventView::HeadingEnd,
            MarkdownEvent::CodeBlockStart => MarkdownEventView::CodeBlockStart,
            MarkdownEvent::CodeBlockEnd => MarkdownEventView::CodeBlockEnd,
            MarkdownEvent::ItemStart => MarkdownEventView::ItemStart,
            MarkdownEvent::ItemEnd => MarkdownEventView::ItemEnd,
            MarkdownEvent::QuoteStart => MarkdownEventView::QuoteStart,
            MarkdownEvent::QuoteEnd => MarkdownEventView::QuoteEnd,
            MarkdownEvent::Text(t) => MarkdownEventView::Text(t@),
            MarkdownEvent::Code(t) => MarkdownEventView::Code(t@),
            MarkdownEvent::SoftBreak => MarkdownEventView::SoftBreak,
            MarkdownEvent::HardBreak => MarkdownEventView::HardBreak,
            MarkdownEvent::ParagraphEnd => MarkdownEventView::ParagraphEnd,
            MarkdownEvent::Other => MarkdownEventView::Other,
        }
    }
}

/// The events that `pulldown_cmark::Parser::new` reports for a source text.
pub uninterp spec fn markdown_events_of(source: Seq<char>) -> Seq<MarkdownEventView>;

/// Runs `pulldown_cmark::Parser::new` (default options) over the source and
/// keeps, for each event, what normalization reads: heading starts with their
/// level, the ends of headings, code blocks, items, block quotes and
/// paragraphs, text, inline code, soft breaks and hard breaks, each as its
/// own event; every other event is `Other`. The contract only says that the
/// result is the parser's event list for this source, read as above.
#[verifier::external_body]
fn markdown_events(source: &str) -> (events: Vec<MarkdownEvent>)
    ensures
        events@.map_values(|e: MarkdownEvent| e@) == markdown_events_of(source@),
{
    Parser::new(source).map(|event| match event {
        Start(Tag::Heading { level, .. }) => M::HeadingStart(level as u8),
        End(TagEnd::Heading(_)) => M::HeadingEnd,
        Start(Tag::CodeBlock(_)) => M::CodeBlockStart,
        End(TagEnd::CodeBlock) => M::CodeBlockEnd,
        Start(Tag::Item) => M::ItemStart,
        End(TagEnd::Item) => M::ItemEnd,
        Start(Tag::BlockQuote(_)) => M::QuoteStart,
        End(TagEnd::BlockQuote(_)) => M::QuoteEnd,
        Text(text) => M::Text(text.to_string()),
        Code(text) => M::Code(text.to_string()),
        SoftBreak => M::SoftBreak, HardBreak => M::HardBreak,
        End(TagEnd::Paragraph) => M::ParagraphEnd,
        _ => M::Other,
    }).collect()
}

/// What normalization has gathered after some of the events.
pub struct MdState {
    pub nodes: Seq<NodeView>,
    pub text: Seq<char>,
    pub heading: Option<u8>,
    pub in_code: bool,
    pub code: Seq<char>,
    pub in_item: bool,
    pub in_quote: bool,
}

/// Nothing gathered yet.
pub open spec fn md_initial() -> MdState {
    MdState {
        nodes: Seq::empty(),
        text: Seq::empty(),
        heading: None,
        in_code: false,
        code: Seq::empty(),
        in_item: false,
        in_quote: false,
    }
}

/// Text (inline code and line breaks alike) goes to the code block while
/// one is open, else to the gathered text.
pub open spec fn md_add_text(st: MdState, t: Seq<char>) -> MdState {
    if st.in_code {
        MdState { code: st.code + t, ..st }
    } else {
        MdState { text: st.text + t, ..st }
    }
}

/// The effect of one reader event: closing a heading, code block, item or
/// quote emits a block with the gathered text trimmed (a code block only at
/// its end) and starts a new text; a paragraph end emits a paragraph unless
/// its text is blank or it lies in an item or a quote; text and breaks go to
/// the code block while one is open, else to the text.
pub open spec fn md_step(st: MdState, e: MarkdownEventView) -> MdState {
    match e {
        MarkdownEventView::HeadingStart(l) => MdState { heading: Some(l), ..st },
        MarkdownEventView::HeadingEnd => MdState {
            nodes: st.nodes.push(
                NodeView::Heading {
                    level: match st.heading {
                        Some(l) => l,
                        None => 1,
                    },
                    text: trim(st.text),
                },
            ),
            text: Seq::empty(),
            heading: None,
            ..st
        },
        MarkdownEventView::CodeBlockStart => MdState { in_code: true, code: Seq::empty(), ..st },
        MarkdownEventView::CodeBlockEnd => MdState {
            nodes: st.nodes.push(NodeView::CodeBlock(trim_end(st.code))),
            code: Seq::empty(),
            in_code: false,
            ..st
        },
        MarkdownEventView::ItemStart => MdState { in_item: true, text: Seq::empty(), ..st },
        MarkdownEventView::ItemEnd => MdState {
            nodes: st.nodes.push(NodeView::ListItem(trim(st.text))),
            text: Seq::empty(),
            in_item: false,
            ..st
        },
        MarkdownEventView::QuoteStart => MdState { in_quote: true, text: Seq::empty(), ..st },
        MarkdownEventView::QuoteEnd => MdState {
            nodes: st.nodes.push(NodeView::Quote(trim(st.text))),
            text: Seq::empty(),
            in_quote: false,
            ..st
        },
        MarkdownEventView::Text(t) => md_add_text(st, t),
        MarkdownEventView::Code(t) => md_add_text(st, t),
        MarkdownEventView::SoftBreak => md_add_text(st, seq!['\n']),
        MarkdownEventView::HardBreak => md_add_text(st, seq!['\n']),
        MarkdownEventView::ParagraphEnd => if trim(st.text).len() == 0 || st.in_item
            || st.in_quote {
            MdState { text: Seq::empty(), ..st }
        } else {
            MdState {
                nodes: st.nodes.push(NodeView::Paragraph(trim(st.text))),
                text: Seq::empty(),
                ..st
            }
        },
        MarkdownEventView::Other => st,
    }
}

/// The state after all the events, in order.
pub open spec fn md_run(events: Seq<MarkdownEventView>) -> MdState
    decreases events.len(),
{
    if events.len() == 0 {
        md_initial()
    } else {
        md_step(md_run(events.drop_last()), events.last())
    }
}

/// The blocks that the events give for a source; when they give none and the
/// source is not blank, the trimmed source as one paragraph.
pub open spec fn md_blocks(source: Seq<char>, events: Seq<MarkdownEventView>) -> Seq<NodeView> {
    let nodes = md_run(events).nodes;
    if nodes.len() == 0 && trim(source).len() != 0 {
        seq![NodeView::Paragraph(trim(source))]
    } else {
        nodes
    }
}

/// The blocks that the events give for a source (see `md_blocks`).
pub fn blocks_from_events(source: &str, events: &Vec<MarkdownEvent>) -> (res: Vec<DocumentNode>)
    ensures
        nodes_view(res@) == md_blocks(source@, events@.map_values(|e: MarkdownEvent| e@)),
{
    let ghost evs = events@.map_values(|e: MarkdownEvent| e@);
    let mut nodes: Vec<DocumentNode> = Vec::new();
    let mut text: Vec<char> = Vec::new();
    let mut heading: Option<u8> = None;
    let mut in_code = false;
    let mut code: Vec<char> = Vec::new();
    let mut in_item = false;
    let mut in_quote = false;
    let mut i: usize = 0;
    assert(evs.take(0) =~= Seq::<MarkdownEventView>::empty());
    assert(nodes_view(nodes@) =~= Seq::<NodeView>::empty());
    while i < events.len()
        invariant
            i <= events.len(),
            evs == events@.map_values(|e: MarkdownEvent| e@),
            ({
                let st = md_run(evs.take(i as int));
                &&& nodes_view(nodes@) == st.nodes
                &&& text@ == st.text
                &&& heading == st.heading
                &&& in_code == st.in_code
                &&& code@ == st.code
                &&& in_item == st.in_item
                &&& in_quote == st.in_quote
            }),
        decreases events.len() - i,
    {
        proof {
            assert(evs.take(i + 1).drop_last() =~= evs.take(i as int));
            assert(evs.take(i + 1).last() == events@[i as int]@);
        }
        let ghost before = nodes_view(nodes@);
        match &events[i] {
            MarkdownEvent::HeadingStart(l) => {
                heading = Some(*l);
            },
            MarkdownEvent::HeadingEnd => {
                let level = match heading {
                    Some(l) => l,
                    None => 1,
                };
                let t = trim_chars(&text);
                nodes.push(DocumentNode::Heading { level, text: string_of(&t) });
                text = Vec::new();
                heading = None;
            },
            MarkdownEvent::CodeBlockStart => {
                in_code = true;
                code = Vec::new();
            },
            MarkdownEvent::CodeBlockEnd => {
                let t = trim_end_chars(&code);
                nodes.push(DocumentNode::CodeBlock(string_of(&t)));
                code = Vec::new();
                in_code = false;
            },
            MarkdownEvent::ItemStart => {
                in_item = true;
                text = Vec::new();
            },
            MarkdownEvent::ItemEnd => {
                let t = trim_chars(&text);
                nodes.push(DocumentNode::ListItem(string_of(&t)));
                text = Vec::new();
                in_item = false;
            },
            MarkdownEvent::QuoteStart => {
                in_quote = true;
                text = Vec::new();
            },
            MarkdownEvent::QuoteEnd => {
                let t = trim_chars(&text);
                nodes.push(DocumentNode::Quote(string_of(&t)));
                text = Vec::new();
                in_quote = false;
            },
            MarkdownEvent::Text(t) | MarkdownEvent::Code(t) => {
                if in_code {
                    append_str(&mut code, t.as_str());
                } else {
                    append_str(&mut text, t.as_str());
                }
            },
            MarkdownEvent::SoftBreak | MarkdownEvent::HardBreak => {
                if in_code {
                    code.push('\n');
                } else {
                    text.push('\n');
                }
            },
            MarkdownEvent::ParagraphEnd => {
                let t = trim_chars(&text);
                if t.len() == 0 || in_item || in_quote {
                    text = Vec::new();
                } else {
                    nodes.push(DocumentNode::Paragraph(string_of(&t)));
                    text = Vec::new();
                }
            },
            MarkdownEvent::Other => {},
        }
        proof {
            if nodes@.len() > before.len() {
                assert(nodes_view(nodes@) =~= before.push(nodes@.last()@));
            } else {
                assert(nodes_view(nodes@) =~= before);
            }
        }
        i += 1;
    }
    assert(evs.take(events.len() as int) =~= evs);
    if nodes.len() == 0 {
        let src = chars_of(source);
        let t = trim_chars(&src);
        if t.len() != 0 {
            let mut out: Vec<DocumentNode> = Vec::new();
            out.push(DocumentNode::Paragraph(string_of(&t)));
            assert(nodes_view(out@) =~= seq![NodeView::Paragraph(trim(source@))]);
            return out;
        }
    }
    nodes
}

/// The blocks of a Markdown source (see `md_blocks`), from the events that
/// `pulldown_cmark` reports for it.
pub fn parse_markdown(source: &str) -> (res: Vec<DocumentNode>)
    ensures
        nodes_view(res@) == md_blocks(source@, markdown_events_of(source@)),
{
    let events = markdown_events(source);
    blocks_from_events(source, &events)
}

/// Which lines a Mintlify source keeps: the first `---` fenced block (the
/// front matter) is dropped with its fences, and so are lines that, trimmed,
/// are a component tag: `<...>` or a closing `</...`.
pub struct MintState {
    pub in_frontmatter: bool,
    pub frontmatter_consumed: bool,
    pub kept: Seq<Seq<char>>,
}

/// Whether a trimmed line is a component tag that Mintlify stripping drops.
pub open spec fn is_component_line(trimmed: Seq<char>) -> bool {
    (starts_with(trimmed, "<"@) && ends_with(trimmed, ">"@) && !starts_with(trimmed, "</"@))
        || starts_with(trimmed, "</"@)
}

/// The effect of one line on Mintlify stripping.
pub open spec fn mint_step(st: MintState, line: Seq<char>) -> MintState {
    if !st.frontmatter_consumed && trim(line) == "---"@ {
        MintState {
            in_frontmatter: !st.in_frontmatter,
            frontmatter_consumed: st.in_frontmatter,
            kept: st.kept,
        }
    } else if st.in_frontmatter {
        st
    } else if is_component_line(trim(line)) {
        st
    } else {
        MintState { kept: st.kept.push(line), ..st }
    }
}

/// The state after the lines, in order.
pub open spec fn mint_run(lines: Seq<Seq<char>>) -> MintState
    decreases lines.len(),
{
    if lines.len() == 0 {
        MintState { in_frontmatter: false, frontmatter_consumed: false, kept: Seq::empty() }
    } else {
        mint_step(mint_run(lines.drop_last()), lines.last())
    }
}

/// A Mintlify source without its front matter and component tag lines, the
/// kept lines joined with `\n`.
pub open spec fn strip_mintlify(source: Seq<char>) -> Seq<char> {
    join(mint_run(lines(source)).kept, "\n"@)
}

/// Drops the front matter and the component tag lines of a Mintlify source.
pub fn strip_mintlify_constructs(source: &str) -> (res: String)
    ensures
        res@ == strip_mintlify(source@),
{
    let src = chars_of(source);
    let ls = lines_chars(&src);
    let ghost lv = ls@.map_values(|p: Vec<char>| p@);
    let dashes = chars_of("---");
    let lt = chars_of("<");
    let gt = chars_of(">");
    let close = chars_of("</");
    let mut kept: Vec<Vec<char>> = Vec::new();
    let mut in_frontmatter = false;
    let mut frontmatter_consumed = false;
    let mut i: usize = 0;
    assert(lv.take(0) =~= Seq::<Seq<char>>::empty());
    assert(kept@.map_values(|p: Vec<char>| p@) =~= Seq::<Seq<char>>::empty());
    while i < ls.len()
        invariant
            i <= ls.len(),
            lv == ls@.map_values(|p: Vec<char>| p@),
            lv == lines(source@),
            dashes@ == "---"@,
            lt@ == "<"@,
            gt@ == ">"@,
            close@ == "</"@,
            ({
                let st = mint_run(lv.take(i as int));
                &&& in_frontmatter == st.in_frontmatter
                &&& frontmatter_consumed == st.frontmatter_consumed
                &&& kept@.map_values(|p: Vec<char>| p@) == st.kept
            }),
        decreases ls.len() - i,
    {
        proof {
            assert(lv.take(i + 1).drop_last() =~= lv.take(i as int));
            assert(lv.take(i + 1).last() == ls@[i as int]@);
        }
        let line = &ls[i];
        let trimmed = trim_chars(line);
        let is_fence = trimmed.len() == 3 && starts_with_chars(&trimmed, &dashes);
        assert(is_fence == (trimmed@ == "---"@)) by {
            reveal_strlit("---");
            if trimmed@.len() == 3 && starts_with(trimmed@, dashes@) {
                assert(trimmed@ =~= trimmed@.take(3));
            }
            if trimmed@ == "---"@ {
                assert(trimmed@.take(3) =~= trimmed@);
            }
        }
        if !frontmatter_consumed && is_fence {
            in_frontmatter = !in_frontmatter;
            if !in_frontmatter {
                frontmatter_consumed = true;
            }
        } else if in_frontmatter {
        } else {
            let opens = starts_with_chars(&trimmed, &lt);
            let ends = ends_with_chars(&trimmed, &gt);
            let closes = starts_with_chars(&trimmed, &close);
            if (opens && ends && !closes) || closes {
            } else {
                let ghost before = kept@.map_values(|p: Vec<char>| p@);
                kept.push(slice_chars(line, 0, line.len()));
                assert(line@.subrange(0, line@.len() as int) =~= line@);
                assert(kept@.map_values(|p: Vec<char>| p@) =~= before.push(line@));
            }
        }
        i += 1;
    }
    assert(lv.take(ls.len() as int) =~= lv);
    let sep = chars_of("\n");
    let out = join_chars(&kept, &sep);
    string_of(&out)
}

/// The blocks of a source in a format: plain text is one paragraph of the
/// trimmed source; Markdown goes through the reader as is, Mintlify after
/// stripping.
pub open spec fn normalized_blocks(source: Seq<char>, format: DocumentFormat) -> Seq<NodeView> {
    match format {
        DocumentFormat::PlainText => seq![NodeView::Paragraph(trim(source))],
        DocumentFormat::Markdown => md_blocks(source, markdown_events_of(source)),
        DocumentFormat::Mintlify => md_blocks(
            strip_mintlify(source),
            markdown_events_of(strip_mintlify(source)),
        ),
    }
}

/// Normalizes a source into blocks according to its format.
pub fn normalize_document(source: &str, format: &DocumentFormat) -> (res: Vec<DocumentNode>)
    ensures
        nodes_view(res@) == normalized_blocks(source@, *format),
{
    match format {
        DocumentFormat::PlainText => {
            let t = trim_str(source);
            let mut out: Vec<DocumentNode> = Vec::new();
            out.push(DocumentNode::Paragraph(t));
            assert(nodes_view(out@) =~= seq![NodeView::Paragraph(trim(source@))]);
            out
        },
        DocumentFormat::Markdown => parse_markdown(source),
        DocumentFormat::Mintlify => {
            let stripped = strip_mintlify_constructs(source);
            parse_markdown(stripped.as_str())
        },
    }
}

/// The text of the first heading among the blocks, if any.
pub open spec fn first_heading(nodes: Seq<NodeView>) -> Option<Seq<char>>
    decreases nodes.len(),
{
    if nodes.len() == 0 {
        None
    } else {
        match nodes[0] {
            NodeView::Heading { text, .. } => Some(text),
            _ => first_heading(nodes.drop_first()),
        }
    }
}

/// The title of a document: its first heading, else its path.
pub open spec fn document_title(nodes: Seq<NodeView>, path: Seq<char>) -> Seq<char> {
    match first_heading(nodes) {
        Some(t) => t,
        None => path,
    }
}

/// The text of the first heading among the nodes, if any.
fn first_heading_text(nodes: &Vec<DocumentNode>) -> (res: Option<String>)
    ensures
        match res {
            Some(t) => first_heading(nodes_view(nodes@)) == Some(t@),
            None => first_heading(nodes_view(nodes@)) is None,
        },
{
    let mut i: usize = 0;
    assert(nodes_view(nodes@).skip(0) =~= nodes_view(nodes@));
    while i < nodes.len()
        invariant
            i <= nodes.len(),
            first_heading(nodes_view(nodes@)) == first_heading(nodes_view(nodes@).skip(i as int)),
        decreases nodes.len() - i,
    {
        let ghost rest = nodes_view(nodes@).skip(i as int);
        assert(rest[0] == nodes@[i as int]@);
        match &nodes[i] {
            DocumentNode::Heading { text, .. } => {
                return Some(text.clone());
            },
            _ => {},
        }
        assert(rest.drop_first() =~= nodes_view(nodes@).skip(i + 1));
        i += 1;
    }
    assert(nodes_view(nodes@).skip(i as int) =~= Seq::<NodeView>::empty());
    None
}

impl DocumentResource {
    /// A document from its source: the blocks are the normalized source, the
    /// title is the first heading or else the path; no origin is recorded.
    pub fn from_source(id: String, path: String, format: DocumentFormat, raw: String) -> (res: Self)
        ensures
            res.id == id,
            res.path == path,
            res.format == format,
            res.raw == raw,
            nodes_view(res.nodes@) == normalized_blocks(raw@, format),
            res.title@ == document_title(normalized_blocks(raw@, format), path@),
            res.provider_name is None,
            res.remote_id is None,
            !res.editable,
            res.source_url is None,
    {
        let nodes = normalize_document(raw.as_str(), &format);
        let title = match first_heading_text(&nodes) {
            Some(t) => t,
            None => path.clone(),
        };
        DocumentResource {
            id,
            title,
            path,
            format,
            raw,
            nodes,
            provider_name: None,
            remote_id: None,
            editable: false,
            source_url: None,
        }
    }

    /// The same document, recorded as coming from the named provider under the
    /// given remote id, editable or not.
    pub fn with_origin(self, provider_name: String, remote_id: String, editable: bool) -> (res: Self)
        ensures
            res.provider_name == Some(provider_name),
            res.remote_id == Some(remote_id),
            res.editable == editable,
            res.id == self.id && res.title == self.title && res.path == self.path,
            res.format == self.format && res.raw == self.raw && res.nodes@ == self.nodes@,
            res.source_url == self.source_url,
    {
        DocumentResource {
            provider_name: Some(provider_name),
            remote_id: Some(remote_id),
            editable,
            ..self
        }
    }

    /// The same document, recorded as opened from the given URL.
    pub fn with_source_url(self, source_url: String) -> (res: Self)
        ensures
            res.source_url == Some(source_url),
            res.id == self.id && res.title == self.title && res.path == self.path,
            res.format == self.format && res.raw == self.raw && res.nodes@ == self.nodes@,
            res.provider_name == self.provider_name && res.remote_id == self.remote_id,
            res.editable == self.editable,
    {
        DocumentResource { source_url: Some(source_url), ..self }
    }
}

impl DocumentNode {
    /// A copy of this block.
    pub fn copy(&self) -> (res: Self)
        ensures
            res == *self,
    {
        match self {
            DocumentNode::Heading { level, text } => DocumentNode::Heading {
                level: *level,
                text: text.clone(),
            },
            DocumentNode::Paragraph(t) => DocumentNode::Paragraph(t.clone()),
            DocumentNode::CodeBlock(t) => DocumentNode::CodeBlock(t.clone()),
            DocumentNode::ListItem(t) => DocumentNode::ListItem(t.clone()),
            DocumentNode::Quote(t) => DocumentNode::Quote(t.clone()),
        }
    }
}

/// A copy of a list of blocks.
pub fn copy_nodes(nodes: &Vec<DocumentNode>) -> (res: Vec<DocumentNode>)
    ensures
        res@ == nodes@,
{
    let mut out: Vec<DocumentNode> = Vec::new();
    let mut i: usize = 0;
    while i < nodes.len()
        invariant
            i <= nodes.len(),
            out@ == nodes@.take(i as int),
        decreases nodes.len() - i,
    {
        out.push(nodes[i].copy());
        assert(nodes@.take(i + 1) =~= nodes@.take(i as int).push(nodes@[i as int]));
        i += 1;
    }
    assert(nodes@.take(nodes.len() as int) =~= nodes@);
    out
}

/// Two documents hold the same fields (the blocks compared by contents).
pub open spec fn is_copy(a: DocumentResource, b: DocumentResource) -> bool {
    &&& a.id == b.id
    &&& a.title == b.title
    &&& a.path == b.path
    &&& a.format == b.format
    &&& a.raw == b.raw
    &&& a.nodes@ == b.nodes@
    &&& a.provider_name == b.provider_name
    &&& a.remote_id == b.remote_id
    &&& a.editable == b.editable
    &&& a.source_url == b.source_url
}

impl DocumentResource {
    /// A copy of this document.
    pub fn copy(&self) -> (res: Self)
        ensures
            is_copy(res, *self),
    {
        DocumentResource {
            id: self.id.clone(),
            title: self.title.clone(),
            path: self.path.clone(),
            format: self.format,
            raw: self.raw.clone(),
            nodes: copy_nodes(&self.nodes),
            provider_name: copy_opt_string(&self.provider_name),
            remote_id: copy_opt_string(&self.remote_id),
            editable: self.editable,
            source_url: copy_opt_string(&self.source_url),
        }
    }
}

/// The characters of an optional string.
pub open spec fn opt_view(o: Option<String>) -> Option<Seq<char>> {
    match o {
        Some(s) => Some(s@),
        None => None,
    }
}

/// Whether two documents are the same one: same provider, remote id, path and
/// id.
pub open spec fn same_document(left: DocumentResource, right: DocumentResource) -> bool {
    opt_view(left.provider_name) == opt_view(right.provider_name) && opt_view(left.remote_id)
        == opt_view(right.remote_id) && left.path@ == right.path@ && left.id@ == right.id@
}

/// Compares two optional strings by their characters.
pub fn opt_string_eq(a: &Option<String>, b: &Option<String>) -> (res: bool)
    ensures
        res == (opt_view(*a) == opt_view(*b)),
{
    match (a, b) {
        (Some(x), Some(y)) => *x == *y,
        (None, None) => true,
        _ => false,
    }
}

/// Whether two documents are the same one: same provider, remote id, path and
/// id.
pub fn is_same_document(left: &DocumentResource, right: &DocumentResource) -> (res: bool)
    ensures
        res == same_document(*left, *right),
{
    opt_string_eq(&left.provider_name, &right.provider_name) && opt_string_eq(
        &left.remote_id,
        &right.remote_id,
    ) && left.path == right.path && left.id == right.id
}

} // verus!
