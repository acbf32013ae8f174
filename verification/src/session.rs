//! What the console decides around the work it hands to providers: running
//! a command typed in the palette, opening and saving documents, saving the
//! inspector, and taking in a refresh.
use vstd::prelude::*;

use crate::config::CommandSpec;
use crate::dataframe::{column_type_name, first_missing, CellValue, DataFrame};
use crate::panels::count_text;
use crate::providers::{command_line, command_line_text};
use crate::document::{
    document_title, is_copy, is_same_document, normalized_blocks, nodes_view, same_document,
    DocumentFormat, DocumentResource,
};
use crate::error::{error_text, DeliError, DeliErrorKind};
use crate::state::{
    clamp_index, clamped, config_rows_shown, document_payload, lemma_shown_rows_in_range, noted,
    notified, selected_config_row, service_rows_shown, ActiveView, AppState,
};
use crate::text::{
    ascii_lower, ascii_lower_chars, chars_of, concat, concat3, copy_opt_string, nat_digits, owned,
    starts_with, str_starts_with, string_of, trim, trim_str, u64_text,
};

verus! {

/// What the caller is to do after the palette ran its command.
#[derive(Debug, Clone, PartialEq, Eq)]
pub enum PaletteAction {
    /// Nothing more: the palette did what there was to do.
    Done,
    /// Connect the Feishu user session, then hand the outcome to
    /// `apply_feishu_connect`.
    ConnectFeishu,
    /// Open the document at this URL, then hand the outcome to
    /// `apply_remote_open`.
    OpenUrl(String),
}

/// The command the palette holds, trimmed.
pub open spec fn palette_command(s: AppState) -> Seq<char> {
    trim(s.command_query@)
}

/// Whether a command asks to connect Feishu (in any ASCII case).
pub open spec fn is_connect_command(q: Seq<char>) -> bool {
    ascii_lower(q) == "connect feishu"@
}

/// Whether a command is a web address.
pub open spec fn is_url_command(q: Seq<char>) -> bool {
    starts_with(q, "http://"@) || starts_with(q, "https://"@)
}

/// The documents other than `doc`, in order.
pub open spec fn others(docs: Seq<DocumentResource>, doc: DocumentResource) -> Seq<DocumentResource>
    decreases docs.len(),
{
    if docs.len() == 0 {
        Seq::empty()
    } else {
        (if same_document(docs[0], doc) {
            Seq::empty()
        } else {
            seq![docs[0]]
        }) + others(docs.drop_first(), doc)
    }
}

/// The first of the first `n` documents that is the same one as `doc`.
pub open spec fn first_same(docs: Seq<DocumentResource>, doc: DocumentResource, n: int) -> Option<int>
    decreases n,
{
    if n <= 0 {
        None
    } else {
        match first_same(docs, doc, n - 1) {
            Some(k) => Some(k),
            None => if same_document(docs[n - 1], doc) {
                Some(n - 1)
            } else {
                None
            },
        }
    }
}

/// `after` is `before` with `doc` in place of the first entry that is the
/// same document, or with `doc` added at the end when there is none.
pub open spec fn upserted(
    before: Seq<DocumentResource>,
    after: Seq<DocumentResource>,
    doc: DocumentResource,
) -> bool {
    match first_same(before, doc, before.len() as int) {
        Some(k) => {
            &&& after.len() == before.len()
            &&& is_copy(after[k], doc)
            &&& forall|j: int| 0 <= j < before.len() && j != k ==> after[j] == before[j]
        },
        None => {
            &&& after.len() == before.len() + 1
            &&& after.take(before.len() as int) == before
            &&& is_copy(after[before.len() as int], doc)
        },
    }
}

/// A document found among the first `n` stands before `n`.
proof fn lemma_first_same_range(docs: Seq<DocumentResource>, doc: DocumentResource, n: int)
    ensures
        first_same(docs, doc, n) matches Some(k) ==> 0 <= k < n,
    decreases n,
{
    if n > 0 {
        lemma_first_same_range(docs, doc, n - 1);
    }
}

/// Once found among the first `m`, a document stays the first found.
proof fn lemma_first_same_stays(docs: Seq<DocumentResource>, doc: DocumentResource, m: int, n: int)
    requires
        0 <= m <= n,
        first_same(docs, doc, m) is Some,
    ensures
        first_same(docs, doc, n) == first_same(docs, doc, m),
    decreases n - m,
{
    if m < n {
        lemma_first_same_stays(docs, doc, m, n - 1);
    }
}

/// The documents other than `doc`, in order (see `others`).
fn without_document(docs: Vec<DocumentResource>, doc: &DocumentResource) -> (res: Vec<
    DocumentResource,
>)
    ensures
        res@ == others(docs@, *doc),
{
    let mut rest = docs;
    let mut kept: Vec<DocumentResource> = Vec::new();
    let ghost all = rest@;
    while rest.len() > 0
        invariant
            kept@ + others(rest@, *doc) == others(all, *doc),
        decreases rest.len(),
    {
        let ghost before = rest@;
        let d = rest.remove(0);
        assert(rest@ =~= before.drop_first());
        if !is_same_document(&d, doc) {
            kept.push(d);
        }
        assert(kept@ + others(rest@, *doc) =~= others(all, *doc));
    }
    assert(kept@ + others(rest@, *doc) =~= kept@);
    kept
}

impl AppState {
    /// Puts a document among the documents opened by hand: in place of the
    /// same document, else at the end (see `upserted`).
    pub fn upsert_ad_hoc_document(&mut self, document: DocumentResource)
        ensures
            *final(self) == (AppState { ad_hoc_documents: final(self).ad_hoc_documents, ..*old(self) }),
            upserted(old(self).ad_hoc_documents@, final(self).ad_hoc_documents@, document),
    {
        let ghost before = self.ad_hoc_documents@;
        let mut i: usize = 0;
        while i < self.ad_hoc_documents.len()
            invariant
                i <= self.ad_hoc_documents.len(),
                *self == *old(self),
                self.ad_hoc_documents@ == before,
                first_same(before, document, i as int) is None,
            decreases self.ad_hoc_documents.len() - i,
        {
            if is_same_document(&self.ad_hoc_documents[i], &document) {
                proof {
                    assert(first_same(before, document, i + 1) == Some(i as int));
                    lemma_first_same_stays(before, document, i + 1, before.len() as int);
                }
                self.ad_hoc_documents.set(i, document.copy());
                return;
            }
            i += 1;
        }
        self.ad_hoc_documents.push(document.copy());
        assert(self.ad_hoc_documents@.take(before.len() as int) =~= before);
    }

    /// Runs the command in the palette. An empty command closes the palette;
    /// "connect feishu" (any ASCII case) and a web address are left to the
    /// caller; anything else is reported unknown and closes the palette.
    pub fn execute_command_palette(&mut self) -> (action: PaletteAction)
        ensures
            ({
                let q = palette_command(*old(self));
                if q.len() == 0 {
                    action == PaletteAction::Done && *final(self) == (AppState {
                        command_palette_open: false,
                        ..*old(self)
                    })
                } else if is_connect_command(q) {
                    action == PaletteAction::ConnectFeishu && *final(self) == *old(self)
                } else if is_url_command(q) {
                    action matches PaletteAction::OpenUrl(u) && u@ == q && *final(self) == *old(
                        self,
                    )
                } else {
                    action == PaletteAction::Done && notified(
                        AppState { command_palette_open: false, ..*old(self) },
                        *final(self),
                        "Unknown command palette action: "@ + q,
                    )
                }
            }),
    {
        let query = trim_str(self.command_query.as_str());
        if query.as_str().is_empty() {
            self.close_command_palette();
            return PaletteAction::Done;
        }
        let lowered = string_of(&ascii_lower_chars(&chars_of(query.as_str())));
        if lowered == owned("connect feishu") {
            return PaletteAction::ConnectFeishu;
        }
        if str_starts_with(query.as_str(), "http://") || str_starts_with(
            query.as_str(),
            "https://",
        ) {
            return PaletteAction::OpenUrl(query);
        }
        let msg = concat("Unknown command palette action: ", query.as_str());
        self.close_command_palette();
        self.notify(msg);
        PaletteAction::Done
    }

    /// Takes in the outcome of connecting Feishu: on success the palette is
    /// cleared and closed and the user named; on failure the error is shown.
    pub fn apply_feishu_connect(&mut self, result: Result<String, DeliError>)
        ensures
            match result {
                Ok(label) => final(self).command_query@ == Seq::<char>::empty() && notified(
                    AppState {
                        command_query: final(self).command_query,
                        command_cursor: 0,
                        command_palette_open: false,
                        ..*old(self)
                    },
                    *final(self),
                    "Feishu connected as "@ + label@,
                ),
                Err(e) => notified(*old(self), *final(self), "Feishu connect failed: "@ + error_text(e)),
            },
    {
        match result {
            Ok(label) => {
                self.command_query = String::new();
                self.command_cursor = 0;
                self.command_palette_open = false;
                let msg = concat("Feishu connected as ", label.as_str());
                self.notify(msg);
            },
            Err(e) => {
                let text = e.to_text();
                let msg = concat("Feishu connect failed: ", text.as_str());
                self.notify(msg);
            },
        }
    }

    /// Takes in the outcome of opening a document by URL. On success the
    /// document view shows it (it replaces the same document, at the end of
    /// the list, selected, scrolled to the top, loaded in the editor), it is
    /// kept among the documents opened by hand, and the palette is cleared
    /// and closed; on failure the error is shown.
    pub fn apply_remote_open(&mut self, result: Result<DocumentResource, DeliError>)
        ensures
            match result {
                Ok(doc) => {
                    let kept = others(old(self).documents@, doc);
                    &&& final(self).documents@ == kept.push(doc)
                    &&& upserted(
                        old(self).ad_hoc_documents@,
                        final(self).ad_hoc_documents@,
                        doc,
                    )
                    &&& final(self).command_query@ == Seq::<char>::empty()
                    &&& *final(self) == (AppState {
                        active_view: ActiveView::Documents,
                        config_filter_mode: false,
                        config_editor_mode: false,
                        monitor_query_mode: false,
                        service_filter_mode: false,
                        documents: final(self).documents,
                        ad_hoc_documents: final(self).ad_hoc_documents,
                        document_index: kept.len() as usize,
                        document_scroll: 0,
                        document_editor_reload: final(self).document_editor_reload,
                        document_editor_dirty: false,
                        command_query: final(self).command_query,
                        command_cursor: 0,
                        command_palette_open: false,
                        notifications: final(self).notifications,
                        ..*old(self)
                    })
                    &&& final(self).document_editor_reload matches Some(t) && t@ == doc.raw@
                    &&& noted(
                        old(self).notifications@,
                        final(self).notifications@,
                        "Opened remote document URL"@,
                    )
                },
                Err(e) => notified(*old(self), *final(self), "Open URL failed: "@ + error_text(e)),
            },
    {
        match result {
            Ok(document) => {
                self.activate_view(ActiveView::Documents);
                let copy = document.copy();
                proof {
                    lemma_first_same_copy(
                        old(self).ad_hoc_documents@,
                        copy,
                        document,
                        old(self).ad_hoc_documents@.len() as int,
                    );
                }
                self.upsert_ad_hoc_document(copy);
                let mut docs: Vec<DocumentResource> = Vec::new();
                std::mem::swap(&mut docs, &mut self.documents);
                let mut kept = without_document(docs, &document);
                proof {
                    lemma_others_len(old(self).documents@, document);
                }
                kept.push(document);
                self.documents = kept;
                self.document_index = self.documents.len() - 1;
                self.document_scroll = 0;
                self.sync_document_editor(true);
                self.command_query = String::new();
                self.command_cursor = 0;
                self.command_palette_open = false;
                self.notify(owned("Opened remote document URL"));
            },
            Err(e) => {
                let text = e.to_text();
                let msg = concat("Open URL failed: ", text.as_str());
                self.notify(msg);
            },
        }
    }
}

/// Documents holding the same fields are found at the same place.
proof fn lemma_first_same_copy(
    docs: Seq<DocumentResource>,
    a: DocumentResource,
    b: DocumentResource,
    n: int,
)
    requires
        is_copy(a, b),
    ensures
        first_same(docs, a, n) == first_same(docs, b, n),
    decreases n,
{
    if n > 0 {
        lemma_first_same_copy(docs, a, b, n - 1);
    }
}

/// The documents other than one are no more than all of them.
proof fn lemma_others_len(docs: Seq<DocumentResource>, doc: DocumentResource)
    ensures
        others(docs, doc).len() <= docs.len(),
    decreases docs.len(),
{
    if docs.len() > 0 {
        lemma_others_len(docs.drop_first(), doc);
    }
}

/// A document saved from the editor: its id, path and format stay, its
/// source is the editor's text (normalized again, titled again), and it is
/// recorded under its provider (else "local") and remote id (else its id),
/// editable as before, with no URL.
pub open spec fn is_saved_version(u: DocumentResource, cur: DocumentResource, content: Seq<char>) -> bool {
    &&& u.id == cur.id
    &&& u.path == cur.path
    &&& u.format == cur.format
    &&& u.raw@ == content
    &&& nodes_view(u.nodes@) == normalized_blocks(content, cur.format)
    &&& u.title@ == document_title(normalized_blocks(content, cur.format), cur.path@)
    &&& u.provider_name matches Some(p) && p@ == (match cur.provider_name {
        Some(n) => n@,
        None => "local"@,
    })
    &&& u.remote_id matches Some(r) && r@ == (match cur.remote_id {
        Some(x) => x@,
        None => cur.id@,
    })
    &&& u.editable == cur.editable
    &&& u.source_url is None
}

/// A document to save: the new version, and the provider it came from, if
/// any, which the caller asks to save it.
#[derive(Debug)]
pub struct DocumentSave {
    pub updated: DocumentResource,
    pub provider_name: Option<String>,
}

/// What came of asking the document's provider to save it.
#[derive(Debug)]
pub enum ProviderSave {
    /// No provider of that name is registered.
    NotRegistered,
    /// The provider saved it and gave back this document.
    Saved(DocumentResource),
    /// The provider failed.
    Failed(DeliError),
}

/// What to do once the provider has been asked.
#[derive(Debug)]
pub enum SaveStep {
    /// The save is over, with this outcome: the document the provider gave
    /// back, none when no provider took it, or the error.
    Finish(Result<Option<DocumentResource>, DeliError>),
    /// Save it through the address it was opened from, then finish with that
    /// outcome.
    SaveRemote,
}

/// The error when no provider could save a document.
pub open spec fn is_save_failed_error(e: DeliError) -> bool {
    e.kind == DeliErrorKind::Provider && e.message@ == "document provider save failed"@
        && e.retry_hint is None
}

/// Decides what follows the provider's answer: a failed provider falls back
/// to the document's address when it has one, else the save fails.
pub fn after_provider_save(updated: &DocumentResource, attempt: ProviderSave) -> (res: SaveStep)
    ensures
        match attempt {
            ProviderSave::NotRegistered => res matches SaveStep::Finish(Ok(None)),
            ProviderSave::Saved(d) => res matches SaveStep::Finish(Ok(Some(x))) && x == d,
            ProviderSave::Failed(_) => if updated.source_url is Some {
                res is SaveRemote
            } else {
                res matches SaveStep::Finish(Err(e)) && is_save_failed_error(e)
            },
        },
{
    match attempt {
        ProviderSave::NotRegistered => SaveStep::Finish(Ok(None)),
        ProviderSave::Saved(d) => SaveStep::Finish(Ok(Some(d))),
        ProviderSave::Failed(_) => if updated.source_url.is_some() {
            SaveStep::SaveRemote
        } else {
            SaveStep::Finish(
                Err(DeliError::new(DeliErrorKind::Provider, owned("document provider save failed"))),
            )
        },
    }
}

/// The document kept after a save: the one the provider gave back, else the
/// new version.
pub open spec fn saved_document(
    updated: DocumentResource,
    result: Result<Option<DocumentResource>, DeliError>,
) -> DocumentResource {
    match result {
        Ok(Some(d)) => d,
        _ => updated,
    }
}

/// The message after a save.
pub open spec fn save_message(result: Result<Option<DocumentResource>, DeliError>) -> Seq<char> {
    match result {
        Ok(Some(_)) => "Saved document to provider"@,
        Ok(None) => "Updated document preview in memory"@,
        Err(e) => "Provider save unavailable, updated preview only: "@ + error_text(e),
    }
}

/// What the inspector held when saving, as the caller read it.
#[derive(Debug)]
pub enum ConfigEdit {
    /// There is no inspector.
    Missing,
    /// The text is not JSON; the parse error.
    Invalid(String),
    /// The text is JSON but not an object.
    NotObject,
    /// An object: for each column, its field converted to the column's type,
    /// or `None` where it does not fit.
    Cells(Vec<Option<CellValue>>),
}

/// The message after saving the inspector.
pub open spec fn config_save_message(s: AppState, edit: ConfigEdit) -> Seq<char> {
    match edit {
        ConfigEdit::Missing => "No config editor content to save"@,
        _ => match selected_config_row(s) {
            None => "No config row selected to save"@,
            Some(row) => match edit {
                ConfigEdit::Invalid(e) => "Save failed: invalid JSON: "@ + e@,
                ConfigEdit::NotObject => "Save failed: editor content must be a JSON object"@,
                ConfigEdit::Cells(cells) => if row >= s.config_frame.rows.len() {
                    "Save failed: row index out of range"@
                } else {
                    match first_missing(cells@, cells@.len() as int) {
                        Some(k) => "Save failed: "@ + ("column '"@ + s.config_frame.columns@[k].name@
                            + "' expects "@ + column_type_name(s.config_frame.columns@[k].kind)),
                        None => "Saved selected config row "@ + nat_digits((row + 1) as nat)
                            + " in memory"@,
                    }
                },
                ConfigEdit::Missing => Seq::empty(),
            },
        },
    }
}

/// Whether saving the inspector changes the selected row.
pub open spec fn config_save_succeeds(s: AppState, edit: ConfigEdit) -> bool {
    match edit {
        ConfigEdit::Cells(cells) => match selected_config_row(s) {
            Some(row) => row < s.config_frame.rows.len() && first_missing(
                cells@,
                cells@.len() as int,
            ) is None,
            None => false,
        },
        _ => false,
    }
}

/// What came of writing the inspector to a file.
#[derive(Debug)]
pub enum ExportOutcome {
    /// There is no inspector.
    NoEditor,
    /// Written to this path.
    Written(String),
    /// Writing failed; the error.
    Failed(String),
}

/// The number in the export file's name: the selected row counted from 1,
/// else 0.
pub open spec fn export_row_number(s: AppState) -> nat {
    match selected_config_row(s) {
        Some(r) => (r + 1) as nat,
        None => 0,
    }
}

/// The document kept after a save and the message saying so.
fn save_result_parts(
    updated: DocumentResource,
    result: Result<Option<DocumentResource>, DeliError>,
) -> (res: (DocumentResource, String))
    ensures
        res.0 == saved_document(updated, result),
        res.1@ == save_message(result),
{
    match result {
        Ok(Some(d)) => (d, owned("Saved document to provider")),
        Ok(None) => (updated, owned("Updated document preview in memory")),
        Err(e) => {
            let text = e.to_text();
            (updated, concat("Provider save unavailable, updated preview only: ", text.as_str()))
        },
    }
}

impl AppState {
    /// Prepares saving the document in the editor, whose text the caller
    /// read after bringing the editor up to date (`sync_document_editor`
    /// with no force). Without text or without a selected document it says
    /// so and returns nothing; else it returns the new version (see
    /// `is_saved_version`) and the document's provider.
    pub fn prepare_document_save(&mut self, editor_content: Option<String>) -> (res: Option<
        DocumentSave,
    >)
        ensures
            editor_content is None ==> res is None && notified(
                *old(self),
                *final(self),
                "No document editor content to save"@,
            ),
            editor_content is Some && old(self).document_index >= old(self).documents.len() ==> res
                is None && notified(*old(self), *final(self), "No document selected"@),
            editor_content is Some && old(self).document_index < old(self).documents.len() ==> ({
                let cur = old(self).documents@[old(self).document_index as int];
                &&& *final(self) == *old(self)
                &&& res matches Some(p) && is_saved_version(p.updated, cur, editor_content->0@)
                    && p.provider_name == cur.provider_name
            }),
    {
        let content = match editor_content {
            Some(c) => c,
            None => {
                self.notify(owned("No document editor content to save"));
                return None;
            },
        };
        if self.document_index >= self.documents.len() {
            self.notify(owned("No document selected"));
            return None;
        }
        let current = &self.documents[self.document_index];
        let provider = match &current.provider_name {
            Some(n) => n.clone(),
            None => owned("local"),
        };
        let remote_id = match &current.remote_id {
            Some(r) => r.clone(),
            None => current.id.clone(),
        };
        let updated = DocumentResource::from_source(
            current.id.clone(),
            current.path.clone(),
            current.format,
            content,
        ).with_origin(provider, remote_id, current.editable);
        Some(DocumentSave { updated, provider_name: copy_opt_string(&current.provider_name) })
    }

    /// Finishes saving the selected document: the saved document (see
    /// `saved_document`) replaces it in the list and among the documents
    /// opened by hand, the editor is reloaded with it, and the outcome is
    /// said (see `save_message`).
    pub fn finish_document_save(
        &mut self,
        updated: DocumentResource,
        result: Result<Option<DocumentResource>, DeliError>,
    )
        requires
            old(self).document_index < old(self).documents.len(),
        ensures
            ({
                let doc = saved_document(updated, result);
                &&& upserted(old(self).ad_hoc_documents@, final(self).ad_hoc_documents@, doc)
                &&& final(self).documents@ == old(self).documents@.update(
                    old(self).document_index as int,
                    doc,
                )
                &&& noted(old(self).notifications@, final(self).notifications@, save_message(result))
                &&& *final(self) == (AppState {
                    ad_hoc_documents: final(self).ad_hoc_documents,
                    documents: final(self).documents,
                    notifications: final(self).notifications,
                    document_editor_reload: final(self).document_editor_reload,
                    document_editor_dirty: false,
                    ..*old(self)
                })
                &&& final(self).document_editor_reload matches Some(t) && t@ == doc.raw@
            }),
    {
        let (doc, msg) = save_result_parts(updated, result);
        let copy = doc.copy();
        proof {
            lemma_first_same_copy(
                old(self).ad_hoc_documents@,
                copy,
                doc,
                old(self).ad_hoc_documents@.len() as int,
            );
        }
        self.upsert_ad_hoc_document(copy);
        let i = self.document_index;
        self.documents.set(i, doc);
        self.notify(msg);
        self.document_editor_dirty = false;
        self.sync_document_editor(true);
    }

    /// Saves the inspector's text into the selected row, the caller having
    /// brought the inspector up to date (`sync_config_editor` with no force)
    /// and read and converted its text. On success the row is replaced and
    /// the inspector reloaded; the outcome is said (see
    /// `config_save_message`).
    #[verifier::rlimit(30)]
    pub fn save_config_editor(&mut self, edit: ConfigEdit)
        requires
            edit matches ConfigEdit::Cells(c) ==> c.len() == old(self).config_frame.columns.len(),
        ensures
            noted(
                old(self).notifications@,
                final(self).notifications@,
                config_save_message(*old(self), edit),
            ),
            config_save_succeeds(*old(self), edit) ==> ({
                let row = selected_config_row(*old(self))->0;
                &&& final(self).config_frame.columns@ == old(self).config_frame.columns@
                &&& final(self).config_frame.rows@ == old(self).config_frame.rows@.update(
                    row as int,
                    final(self).config_frame.rows@[row as int],
                )
                &&& final(self).config_frame.rows@[row as int]@ == (edit->Cells_0)@.map_values(
                    |c: Option<CellValue>| c->0,
                )
                &&& *final(self) == (AppState {
                    config_frame: final(self).config_frame,
                    notifications: final(self).notifications,
                    config_editor_row: selected_config_row(
                        AppState { config_frame: final(self).config_frame, ..*old(self) },
                    ),
                    config_editor_reload: true,
                    config_editor_dirty: false,
                    ..*old(self)
                })
            }),
            !config_save_succeeds(*old(self), edit) ==> *final(self) == (AppState {
                notifications: final(self).notifications,
                ..*old(self)
            }),
    {
        if let ConfigEdit::Missing = edit {
            self.notify(owned("No config editor content to save"));
            return;
        }
        let nrows = self.config_frame.rows.len();
        proof {
            lemma_shown_rows_in_range(self.config_frame.rows@, self.config_filter_query@);
        }
        let row_index = match self.selected_config_row_index() {
            Some(r) => r,
            None => {
                self.notify(owned("No config row selected to save"));
                return;
            },
        };
        match edit {
            ConfigEdit::Invalid(e) => {
                let msg = concat("Save failed: invalid JSON: ", e.as_str());
                self.notify(msg);
            },
            ConfigEdit::NotObject => {
                self.notify(owned("Save failed: editor content must be a JSON object"));
            },
            ConfigEdit::Cells(cells) => {
                match self.config_frame.update_row_from_cells(row_index, cells) {
                    Ok(()) => {
                        self.config_editor_dirty = false;
                        self.sync_config_editor(true);
                        let number = u64_text((row_index + 1) as u64);
                        let msg = concat3("Saved selected config row ", number.as_str(), " in memory");
                        self.notify(msg);
                    },
                    Err(e) => {
                        let msg = concat("Save failed: ", e.as_str());
                        self.notify(msg);
                    },
                }
            },
            ConfigEdit::Missing => {},
        }
    }

    /// The name of the file the inspector is exported to:
    /// `config-row-<n>.json` (see `export_row_number`).
    pub fn config_export_file_name(&self) -> (res: String)
        ensures
            res@ == "config-row-"@ + nat_digits(export_row_number(*self)) + ".json"@,
    {
        let nrows = self.config_frame.rows.len();
        proof {
            lemma_shown_rows_in_range(self.config_frame.rows@, self.config_filter_query@);
        }
        let n: u64 = match self.selected_config_row_index() {
            Some(r) => (r as u64) + 1,
            None => 0,
        };
        let digits = u64_text(n);
        concat3("config-row-", digits.as_str(), ".json")
    }

    /// Says what came of exporting the inspector.
    pub fn finish_config_export(&mut self, outcome: ExportOutcome)
        ensures
            notified(
                *old(self),
                *final(self),
                match outcome {
                    ExportOutcome::NoEditor => "No config editor content to export"@,
                    ExportOutcome::Written(p) => "Exported inspector to "@ + p@,
                    ExportOutcome::Failed(e) => "Export failed: "@ + e@,
                },
            ),
    {
        let msg = match outcome {
            ExportOutcome::NoEditor => owned("No config editor content to export"),
            ExportOutcome::Written(p) => concat("Exported inspector to ", p.as_str()),
            ExportOutcome::Failed(e) => concat("Export failed: ", e.as_str()),
        };
        self.notify(msg);
    }
}

/// The documents one provider listed, or why it could not.
#[derive(Debug)]
pub struct ProviderDocuments {
    pub name: String,
    pub result: Result<Vec<DocumentResource>, DeliError>,
}

/// The table one provider gave, or why it could not.
#[derive(Debug)]
pub struct ProviderTable {
    pub name: String,
    pub result: Result<DataFrame, DeliError>,
}

/// What a refresh brought back from the providers: each document
/// provider's listing in order, the first configuration provider's table,
/// the first service provider's table, and every action provider's commands.
#[derive(Debug)]
pub struct RefreshOutcome {
    pub documents: Vec<ProviderDocuments>,
    pub config: Option<ProviderTable>,
    pub services: Option<ProviderTable>,
    pub actions: Vec<CommandSpec>,
}

/// The message for a provider that failed.
pub open spec fn provider_error_line(name: Seq<char>, e: DeliError) -> Seq<char> {
    name + " provider error: "@ + error_text(e)
}

/// The documents the providers listed, in order.
pub open spec fn listed_documents(results: Seq<ProviderDocuments>) -> Seq<DocumentResource>
    decreases results.len(),
{
    if results.len() == 0 {
        Seq::empty()
    } else {
        (match results[0].result {
            Ok(d) => d@,
            Err(_) => Seq::empty(),
        }) + listed_documents(results.drop_first())
    }
}

/// The messages for the providers that failed to list documents, in order.
pub open spec fn listing_errors(results: Seq<ProviderDocuments>) -> Seq<Seq<char>>
    decreases results.len(),
{
    if results.len() == 0 {
        Seq::empty()
    } else {
        (match results[0].result {
            Ok(_) => Seq::empty(),
            Err(e) => seq![provider_error_line(results[0].name@, e)],
        }) + listing_errors(results.drop_first())
    }
}

/// The message for a table provider that failed, if it did.
pub open spec fn table_errors(t: Option<ProviderTable>) -> Seq<Seq<char>> {
    match t {
        Some(p) => match p.result {
            Ok(_) => Seq::empty(),
            Err(e) => seq![provider_error_line(p.name@, e)],
        },
        None => Seq::empty(),
    }
}

/// The table a provider gave, if it gave one.
pub open spec fn table_frame(t: Option<ProviderTable>) -> Option<DataFrame> {
    match t {
        Some(p) => match p.result {
            Ok(f) => Some(f),
            Err(_) => None,
        },
        None => None,
    }
}

/// `after` holds the messages of `before` with `msgs` added at the top one
/// after the other, so that the last stands first.
pub open spec fn stacked(before: Seq<String>, after: Seq<String>, msgs: Seq<Seq<char>>) -> bool {
    &&& after.len() == before.len() + msgs.len()
    &&& after.skip(msgs.len() as int) == before
    &&& forall|i: int| 0 <= i < msgs.len() ==> #[trigger] after[i]@ == msgs[msgs.len() - 1 - i]
}

/// Adding one message is stacking it.
proof fn lemma_noted_stacked(before: Seq<String>, after: Seq<String>, msg: Seq<char>)
    requires
        noted(before, after, msg),
    ensures
        stacked(before, after, seq![msg]),
{
    assert(after.skip(1) =~= after.drop_first());
}

/// Stacking twice is stacking both lists.
proof fn lemma_stacked_twice(
    a: Seq<String>,
    b: Seq<String>,
    c: Seq<String>,
    m1: Seq<Seq<char>>,
    m2: Seq<Seq<char>>,
)
    requires
        stacked(a, b, m1),
        stacked(b, c, m2),
    ensures
        stacked(a, c, m1 + m2),
{
    let m = m1 + m2;
    assert(c.skip(m.len() as int) =~= b.skip(m1.len() as int));
    assert forall|i: int| 0 <= i < m.len() implies #[trigger] c[i]@ == m[m.len() - 1 - i] by {
        if i < m2.len() {
            assert(m[m.len() - 1 - i] == m2[m2.len() - 1 - i]);
        } else {
            assert(c[i] == c.skip(m2.len() as int)[i - m2.len()]);
            assert(b[i - m2.len()]@ == m1[m1.len() - 1 - (i - m2.len())]);
        }
    }
}

/// Stacking nothing changes nothing.
proof fn lemma_stacked_none(a: Seq<String>)
    ensures
        stacked(a, a, Seq::empty()),
{
    assert(a.skip(0) =~= a);
}

/// Copies of documents, in order.
fn copy_documents(v: &Vec<DocumentResource>) -> (res: Vec<DocumentResource>)
    ensures
        res.len() == v.len(),
        forall|k: int| 0 <= k < v.len() ==> is_copy(#[trigger] res@[k], v@[k]),
{
    let mut out: Vec<DocumentResource> = Vec::new();
    let mut i: usize = 0;
    while i < v.len()
        invariant
            i <= v.len(),
            out.len() == i,
            forall|k: int| 0 <= k < i ==> is_copy(#[trigger] out@[k], v@[k]),
        decreases v.len() - i,
    {
        out.push(v[i].copy());
        i += 1;
    }
    out
}

/// Each command as the action list shows it.
fn command_lines(commands: &Vec<CommandSpec>) -> (res: Vec<String>)
    ensures
        res@.map_values(|l: String| l@) == commands@.map_values(|c: CommandSpec| command_line_text(c)),
{
    let mut out: Vec<String> = Vec::new();
    let mut i: usize = 0;
    while i < commands.len()
        invariant
            i <= commands.len(),
            out@.map_values(|l: String| l@) == commands@.take(i as int).map_values(
                |c: CommandSpec| command_line_text(c),
            ),
        decreases commands.len() - i,
    {
        let line = command_line(&commands[i]);
        let ghost before = out@;
        out.push(line);
        assert(out@.map_values(|l: String| l@) =~= before.map_values(|l: String| l@).push(line@));
        assert(commands@.take(i + 1).map_values(|c: CommandSpec| command_line_text(c))
            =~= commands@.take(i as int).map_values(|c: CommandSpec| command_line_text(c)).push(
            command_line_text(commands@[i as int]),
        ));
        i += 1;
    }
    assert(commands@.take(commands.len() as int) =~= commands@);
    out
}

impl AppState {
    /// Gathers the listed documents, saying which providers failed.
    fn take_listings(&mut self, results: Vec<ProviderDocuments>) -> (docs: Vec<DocumentResource>)
        ensures
            docs@ == listed_documents(results@),
            *final(self) == (AppState { notifications: final(self).notifications, ..*old(self) }),
            stacked(old(self).notifications@, final(self).notifications@, listing_errors(results@)),
    {
        let ghost all = results@;
        let mut rest = results;
        let mut docs: Vec<DocumentResource> = Vec::new();
        let ghost mut done: Seq<Seq<char>> = Seq::empty();
        proof {
            lemma_stacked_none(self.notifications@);
        }
        while rest.len() > 0
            invariant
                docs@ + listed_documents(rest@) == listed_documents(all),
                done + listing_errors(rest@) == listing_errors(all),
                *self == (AppState { notifications: self.notifications, ..*old(self) }),
                stacked(old(self).notifications@, self.notifications@, done),
            decreases rest.len(),
        {
            let ghost before = rest@;
            let ghost notes = self.notifications@;
            let entry = rest.remove(0);
            assert(rest@ =~= before.drop_first());
            match entry.result {
                Ok(mut listed) => {
                    docs.append(&mut listed);
                    assert(docs@ + listed_documents(rest@) =~= listed_documents(all));
                    assert(done + listing_errors(rest@) =~= listing_errors(all));
                },
                Err(e) => {
                    let text = e.to_text();
                    let msg = concat3(entry.name.as_str(), " provider error: ", text.as_str());
                    self.notify(msg);
                    proof {
                        lemma_noted_stacked(notes, self.notifications@, msg@);
                        lemma_stacked_twice(
                            old(self).notifications@,
                            notes,
                            self.notifications@,
                            done,
                            seq![msg@],
                        );
                        done = done + seq![msg@];
                    }
                    assert(docs@ + listed_documents(rest@) =~= listed_documents(all));
                    assert(done + listing_errors(rest@) =~= listing_errors(all));
                },
            }
        }
        assert(docs@ + listed_documents(rest@) =~= docs@);
        assert(done + listing_errors(rest@) =~= done);
        docs
    }

    /// The table a provider gave, else an empty one, saying when it failed.
    fn take_table(&mut self, table: Option<ProviderTable>) -> (frame: DataFrame)
        ensures
            match table_frame(table) {
                Some(f) => frame == f,
                None => frame.columns@.len() == 0 && frame.rows@.len() == 0,
            },
            *final(self) == (AppState { notifications: final(self).notifications, ..*old(self) }),
            stacked(old(self).notifications@, final(self).notifications@, table_errors(table)),
    {
        match table {
            Some(p) => match p.result {
                Ok(f) => {
                    proof {
                        lemma_stacked_none(self.notifications@);
                    }
                    f
                },
                Err(e) => {
                    let text = e.to_text();
                    let msg = concat3(p.name.as_str(), " provider error: ", text.as_str());
                    self.notify(msg);
                    proof {
                        lemma_noted_stacked(old(self).notifications@, self.notifications@, msg@);
                    }
                    DataFrame::empty()
                },
            },
            None => {
                proof {
                    lemma_stacked_none(self.notifications@);
                }
                DataFrame::empty()
            },
        }
    }

    /// Takes in a refresh: counts it and says so; the documents become those
    /// the providers listed followed by copies of the documents opened by
    /// hand; the tables become those the first providers gave (else empty);
    /// each failing provider is named in a message; the selections are kept
    /// inside the new lists and the editors are reloaded; the action list
    /// shows every action command. The monitoring source is refreshed by the
    /// caller after this.
    pub fn apply_refresh(&mut self, outcome: RefreshOutcome)
        requires
            old(self).refresh_count < usize::MAX,
        ensures
            ({
                let listed = listed_documents(outcome.documents@);
                let adhoc = old(self).ad_hoc_documents@;
                let msgs = seq!["Refresh #"@ + nat_digits((old(self).refresh_count + 1) as nat)]
                    + listing_errors(outcome.documents@) + table_errors(outcome.config)
                    + table_errors(outcome.services);
                let with_docs = AppState {
                    documents: final(self).documents,
                    document_index: clamped(
                        old(self).document_index as int,
                        (listed.len() + adhoc.len()) as int,
                    ) as usize,
                    ..*old(self)
                };
                let with_config = AppState { config_frame: final(self).config_frame, ..*old(self) };
                let with_config_index = AppState {
                    config_index: clamped(
                        old(self).config_index as int,
                        config_rows_shown(with_config).len() as int,
                    ) as usize,
                    ..with_config
                };
                let with_services = AppState {
                    service_frame: final(self).service_frame,
                    ..*old(self)
                };
                &&& final(self).documents@.len() == listed.len() + adhoc.len()
                &&& final(self).documents@.take(listed.len() as int) == listed
                &&& forall|k: int|
                    0 <= k < adhoc.len() ==> is_copy(
                        #[trigger] final(self).documents@[listed.len() + k],
                        adhoc[k],
                    )
                &&& final(self).document_editor_reload matches Some(t) && t@ == document_payload(
                    with_docs,
                )
                &&& match table_frame(outcome.config) {
                    Some(f) => final(self).config_frame == f,
                    None => final(self).config_frame.columns@.len() == 0
                        && final(self).config_frame.rows@.len() == 0,
                }
                &&& match table_frame(outcome.services) {
                    Some(f) => final(self).service_frame == f,
                    None => final(self).service_frame.columns@.len() == 0
                        && final(self).service_frame.rows@.len() == 0,
                }
                &&& final(self).action_commands@.map_values(|l: String| l@)
                    == outcome.actions@.map_values(|c: CommandSpec| command_line_text(c))
                &&& stacked(old(self).notifications@, final(self).notifications@, msgs)
                &&& *final(self) == (AppState {
                    refresh_count: (old(self).refresh_count + 1) as usize,
                    notifications: final(self).notifications,
                    documents: final(self).documents,
                    document_index: with_docs.document_index,
                    document_scroll: 0,
                    document_editor_reload: final(self).document_editor_reload,
                    document_editor_dirty: false,
                    config_frame: final(self).config_frame,
                    config_index: with_config_index.config_index,
                    config_editor_row: selected_config_row(with_config_index),
                    config_editor_reload: true,
                    config_editor_dirty: false,
                    service_frame: final(self).service_frame,
                    service_index: clamped(
                        old(self).service_index as int,
                        service_rows_shown(with_services).len() as int,
                    ) as usize,
                    action_commands: final(self).action_commands,
                    ..*old(self)
                })
            }),
    {
        let RefreshOutcome { documents, config, services, actions } = outcome;
        self.refresh_count = self.refresh_count + 1;
        let number = count_text(self.refresh_count);
        let first = concat("Refresh #", number.as_str());
        let ghost n0 = self.notifications@;
        self.notify(first);
        proof {
            lemma_noted_stacked(n0, self.notifications@, first@);
        }
        let ghost n1 = self.notifications@;
        let mut docs = self.take_listings(documents);
        proof {
            lemma_stacked_twice(n0, n1, self.notifications@, seq![first@], listing_errors(documents@));
        }
        let ghost listed = docs@;
        let mut copies = copy_documents(&self.ad_hoc_documents);
        docs.append(&mut copies);
        self.documents = docs;
        self.document_index = clamp_index(self.document_index, self.documents.len());
        self.document_scroll = 0;
        self.sync_document_editor(true);
        let ghost n2 = self.notifications@;
        let config_frame = self.take_table(config);
        proof {
            lemma_stacked_twice(
                n0,
                n2,
                self.notifications@,
                seq![first@] + listing_errors(documents@),
                table_errors(config),
            );
        }
        self.config_frame = config_frame;
        let rows = self.config_rows_count();
        self.config_index = clamp_index(self.config_index, rows);
        self.sync_config_editor(true);
        let ghost n3 = self.notifications@;
        let service_frame = self.take_table(services);
        proof {
            lemma_stacked_twice(
                n0,
                n3,
                self.notifications@,
                seq![first@] + listing_errors(documents@) + table_errors(config),
                table_errors(services),
            );
        }
        self.service_frame = service_frame;
        let rows = self.service_rows_count();
        self.service_index = clamp_index(self.service_index, rows);
        self.action_commands = command_lines(&actions);
        assert(self.documents@.take(listed.len() as int) =~= listed);
    }
}

} // verus!
