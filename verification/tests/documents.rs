use deli::document::{normalize_document, parse_markdown, DocumentFormat, DocumentNode, DocumentResource};
use deli::panels::render_document;
use deli::text::owned;

#[test]
fn parses_markdown_into_render_nodes() {
    let nodes = normalize_document("# Title\n\nhello\n\n- item", &DocumentFormat::Markdown);
    assert_eq!(
        nodes,
        vec![
            DocumentNode::Heading {
                level: 1,
                text: "Title".into()
            },
            DocumentNode::Paragraph("hello".into()),
            DocumentNode::ListItem("item".into())
        ]
    );
}

#[test]
fn strips_mintlify_frontmatter_and_components() {
    let input = "---\ntitle: Demo\n---\n<Steps>\n# Title\n\nReal text\n</Steps>";
    let nodes = normalize_document(input, &DocumentFormat::Mintlify);
    assert_eq!(
        nodes,
        vec![
            DocumentNode::Heading {
                level: 1,
                text: "Title".into()
            },
            DocumentNode::Paragraph("Real text".into())
        ]
    );
}

#[test]
fn plain_text_documents_keep_their_text() {
    let nodes = normalize_document("just text", &DocumentFormat::PlainText);
    assert!(!nodes.is_empty());
    let rendered: Vec<String> = nodes
        .iter()
        .map(|node| match node {
            DocumentNode::Paragraph(text) => text.clone(),
            DocumentNode::CodeBlock(text) => text.clone(),
            other => format!("{other:?}"),
        })
        .collect();
    assert!(rendered.join("\n").contains("just text"));
}

#[test]
fn document_title_comes_from_first_heading_else_path() {
    let titled = DocumentResource::from_source(
        "one".into(),
        "a.md".into(),
        DocumentFormat::Markdown,
        "intro\n\n## Deep\n\n# Top".into(),
    );
    assert_eq!(titled.title, "Deep");
    let untitled = DocumentResource::from_source(
        "two".into(),
        "b.md".into(),
        DocumentFormat::Markdown,
        "no heading here".into(),
    );
    assert_eq!(untitled.title, "b.md");
    assert_eq!(untitled.provider_name, None);
    assert!(!untitled.editable);
}

#[test]
fn with_origin_records_provider_and_remote_id() {
    let doc = DocumentResource::from_source(
        "id".into(),
        "p.md".into(),
        DocumentFormat::Markdown,
        "# T".into(),
    )
    .with_origin(owned("docs"), owned("remote-1"), true);
    assert_eq!(doc.provider_name.as_deref(), Some("docs"));
    assert_eq!(doc.remote_id.as_deref(), Some("remote-1"));
    assert!(doc.editable);
    assert_eq!(doc.title, "T");
}

#[test]
fn renders_document_blocks_as_reader_lines() {
    let doc = DocumentResource::from_source(
        "id".into(),
        "guide.md".into(),
        DocumentFormat::Markdown,
        "## Setup\n\n> careful\n\n```\nline one\nline two\n```".into(),
    );
    let lines = render_document(&doc);
    assert_eq!(lines[0], "# Setup");
    assert_eq!(lines[1], "Source: guide.md");
    assert_eq!(lines[2], "");
    assert!(lines.contains(&"## Setup".to_string()));
    assert!(lines.contains(&"> ".to_string()));
    assert!(lines.contains(&"```".to_string()));
    assert!(lines.contains(&"line one".to_string()));
    assert!(lines.contains(&"line two".to_string()));
}

#[test]
fn blank_markdown_has_no_blocks() {
    assert!(parse_markdown("").is_empty());
    assert!(parse_markdown("  \n\t\n   ").is_empty());
    assert_eq!(parse_markdown("plain text").len(), 1);
}
