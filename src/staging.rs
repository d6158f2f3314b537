//! The on-disk layout of a document, the draft overlay that reads resolve
//! against, the fetch-or-initialize protocol of each section, and the order
//! of the steps of a save.
use vstd::prelude::*;

use crate::domain::{Fonts, SemanticColorTokens};
use crate::history::{redone, undone, HistoryError, Historic};
use crate::paths::{join, join_path};

verus! {

/// The shadow directory that holds a draft, under the canonical directory.
pub open spec fn draft_dir_name() -> Seq<char> {
    "draft"@
}

/// The metadata file of a document.
pub open spec fn metadata_file_name() -> Seq<char> {
    "design_system_metadata.yaml"@
}

/// The directory of the images of a document.
pub open spec fn images_dir_name() -> Seq<char> {
    "images"@
}

/// The directory of the exports of a document.
pub open spec fn exports_dir_name() -> Seq<char> {
    "exports"@
}

/// The directory of the exported fonts, under the exports.
pub open spec fn fonts_dir_name() -> Seq<char> {
    "fonts"@
}

/// The independently stored parts of a document.
#[derive(Clone, Copy, Debug, PartialEq, Eq, Structural)]
pub enum Section {
    Metadata,
    Palettes,
    Fonts,
    Typography,
    Spaces,
    Radius,
    Effects,
    Themes,
    SemanticColorTokens,
}

/// The file (or, for palettes, the directory) of a section.
pub open spec fn section_file(s: Section) -> Seq<char> {
    match s {
        Section::Metadata => "design_system_metadata.yaml"@,
        Section::Palettes => "palettes"@,
        Section::Fonts => "fonts.yaml"@,
        Section::Typography => "typography.yaml"@,
        Section::Spaces => "spaces.yaml"@,
        Section::Radius => "radius.yaml"@,
        Section::Effects => "effects.yaml"@,
        Section::Themes => "themes.yaml"@,
        Section::SemanticColorTokens => "semantic_color_tokens.yaml"@,
    }
}

impl Section {
    /// The file (or directory) name of this section.
    pub fn file_name(&self) -> (r: &'static str)
        ensures
            r@ == section_file(*self),
    {
        match self {
            Section::Metadata => "design_system_metadata.yaml",
            Section::Palettes => "palettes",
            Section::Fonts => "fonts.yaml",
            Section::Typography => "typography.yaml",
            Section::Spaces => "spaces.yaml",
            Section::Radius => "radius.yaml",
            Section::Effects => "effects.yaml",
            Section::Themes => "themes.yaml",
            Section::SemanticColorTokens => "semantic_color_tokens.yaml",
        }
    }
}

/// The file, under the palettes directory, that records their display order.
pub open spec fn palettes_order_file_name() -> Seq<char> {
    "palettes_metadata.yaml"@
}

/// Where the reads of a document come from: the canonical directory, and
/// the directory its sections are fetched from.
pub struct FetchPath {
    pub original_pathbuf: String,
    pub fetch_pathbuf: String,
}

/// The draft directory of the document at `canonical`.
pub open spec fn draft_dir(canonical: Seq<char>) -> Seq<char> {
    join(canonical, draft_dir_name())
}

/// The directory that reads resolve against: the draft when it holds a
/// valid metadata file, else the canonical directory.
pub open spec fn read_dir(canonical: Seq<char>, draft_has_metadata: bool) -> Seq<char> {
    if draft_has_metadata {
        draft_dir(canonical)
    } else {
        canonical
    }
}

/// The directory a save writes its sections to.
pub open spec fn write_dir(canonical: Seq<char>, is_draft: bool) -> Seq<char> {
    if is_draft {
        draft_dir(canonical)
    } else {
        canonical
    }
}

/// The draft directory of the document at `canonical`.
pub fn draft_path(canonical: &str) -> (r: String)
    ensures
        r@ == draft_dir(canonical@),
{
    join_path(canonical, "draft")
}

/// The metadata file whose presence makes the draft the active overlay.
pub fn draft_metadata_path(canonical: &str) -> (r: String)
    ensures
        r@ == join(draft_dir(canonical@), metadata_file_name()),
{
    let draft = draft_path(canonical);
    join_path(draft.as_str(), "design_system_metadata.yaml")
}

/// Resolves the read path of the document at `original_pathbuf`, given
/// whether its draft directory holds a valid metadata file.
pub fn compute_fetch_pathbuf(original_pathbuf: &str, draft_has_metadata: bool) -> (r: FetchPath)
    ensures
        r.original_pathbuf@ == original_pathbuf@,
        r.fetch_pathbuf@ == read_dir(original_pathbuf@, draft_has_metadata),
{
    let fetch_pathbuf = if draft_has_metadata {
        draft_path(original_pathbuf)
    } else {
        String::from_str(original_pathbuf)
    };
    FetchPath { original_pathbuf: String::from_str(original_pathbuf), fetch_pathbuf }
}

/// The directory a save writes to: the draft for a draft save, else the
/// canonical directory.
pub fn save_target(canonical: &str, is_draft: bool) -> (r: String)
    ensures
        r@ == write_dir(canonical@, is_draft),
{
    if is_draft {
        draft_path(canonical)
    } else {
        String::from_str(canonical)
    }
}

/// The path a section is read from.
pub fn section_read_path(fetch_path: &FetchPath, section: Section) -> (r: String)
    ensures
        r@ == join(fetch_path.fetch_pathbuf@, section_file(section)),
{
    join_path(fetch_path.fetch_pathbuf.as_str(), section.file_name())
}

/// The path at which a section's defaults are written: always under the
/// canonical directory.
pub fn section_init_path(fetch_path: &FetchPath, section: Section) -> (r: String)
    ensures
        r@ == join(fetch_path.original_pathbuf@, section_file(section)),
{
    join_path(fetch_path.original_pathbuf.as_str(), section.file_name())
}

/// The path a section is written to by a save into `target`.
pub fn section_write_path(target: &str, section: Section) -> (r: String)
    ensures
        r@ == join(target@, section_file(section)),
{
    join_path(target, section.file_name())
}

/// The images directory of a document.
pub fn get_images_path(design_system_path: &str) -> (r: String)
    ensures
        r@ == join(design_system_path@, images_dir_name()),
{
    join_path(design_system_path, "images")
}

/// The directory that holds the exported fonts of a document.
pub fn fonts_export_path(design_system_path: &str) -> (r: String)
    ensures
        r@ == join(join(design_system_path@, exports_dir_name()), fonts_dir_name()),
{
    let exports = join_path(design_system_path, "exports");
    join_path(exports.as_str(), "fonts")
}

/// The directory of the exports of a document.
pub fn exports_path(design_system_path: &str) -> (r: String)
    ensures
        r@ == join(design_system_path@, exports_dir_name()),
{
    join_path(design_system_path, "exports")
}

/// The file under a palettes directory that records the palettes' order.
pub fn palettes_order_path(palettes_dir: &str) -> (r: String)
    ensures
        r@ == join(palettes_dir@, palettes_order_file_name()),
{
    join_path(palettes_dir, "palettes_metadata.yaml")
}

/// The write an initializer makes for the fonts section: Roboto and no
/// additional font, at the canonical path.
pub fn init_fonts(fetch_path: &FetchPath) -> (r: (String, Fonts))
    ensures
        r.0@ == join(fetch_path.original_pathbuf@, section_file(Section::Fonts)),
        r.1.default@ == "Roboto"@,
        r.1.additionals@.len() == 0,
{
    (section_init_path(fetch_path, Section::Fonts), Fonts::new())
}

/// The write an initializer makes for the semantic color tokens: no token
/// and no combination, at the canonical path.
pub fn init_semantic_color_tokens(fetch_path: &FetchPath) -> (r: (String, SemanticColorTokens))
    ensures
        r.0@ == join(fetch_path.original_pathbuf@, section_file(Section::SemanticColorTokens)),
        r.1.background is None,
        r.1.border is None,
        r.1.text_light is None,
        r.1.text_default is None,
        r.1.text_dark is None,
        r.1.color_combination_collections@.len() == 0,
{
    (section_init_path(fetch_path, Section::SemanticColorTokens), SemanticColorTokens::new())
}

// ---------------------------------------------------------------------
// Fetch-or-initialize
// ---------------------------------------------------------------------

/// How far the fetch of one section has gone.
#[derive(Clone, Copy, Debug, PartialEq, Eq, Structural)]
pub enum FetchStage {
    /// Nothing was written yet.
    FirstAttempt,
    /// The section's defaults were written at the canonical path, and the
    /// load is retried there.
    AfterInit,
}

/// What to do after a load of a section.
#[derive(Clone, Copy, Debug, PartialEq, Eq, Structural)]
pub enum FetchStep {
    /// The load succeeded: use what was read.
    Accept,
    /// The file is missing or malformed: write the defaults at the
    /// canonical path, then load again from that path.
    InitializeThenRetry,
    /// The defaults just written could not be read back.
    GiveUp,
}

/// The decision after a load: a success is kept; a first failure (missing
/// or malformed alike) triggers initialization and one retry; a failure
/// after that gives up.
pub open spec fn fetch_step(stage: FetchStage, loaded: bool) -> FetchStep {
    if loaded {
        FetchStep::Accept
    } else if stage == FetchStage::FirstAttempt {
        FetchStep::InitializeThenRetry
    } else {
        FetchStep::GiveUp
    }
}

/// Decides what follows a load of a section.
pub fn next_fetch_step(stage: FetchStage, loaded: bool) -> (r: FetchStep)
    ensures
        r == fetch_step(stage, loaded),
{
    if loaded {
        FetchStep::Accept
    } else {
        match stage {
            FetchStage::FirstAttempt => FetchStep::InitializeThenRetry,
            FetchStage::AfterInit => FetchStep::GiveUp,
        }
    }
}

/// Fetch-or-initialize of the section stored in `file`, on a disk modelled
/// as a map from path to the parsed content of that path (a missing or
/// malformed file has no entry): read where reads resolve; on failure write
/// the defaults at the canonical path and read them back from there. Gives
/// the disk afterwards and the content obtained.
pub open spec fn fetch_or_init<V>(
    disk: Map<Seq<char>, V>,
    canonical: Seq<char>,
    draft_active: bool,
    file: Seq<char>,
    default: V,
) -> (Map<Seq<char>, V>, Option<V>) {
    let read = join(read_dir(canonical, draft_active), file);
    match fetch_step(FetchStage::FirstAttempt, disk.contains_key(read)) {
        FetchStep::Accept => (disk, Some(disk[read])),
        _ => {
            let written = join(canonical, file);
            let disk2 = disk.insert(written, default);
            match fetch_step(FetchStage::AfterInit, disk2.contains_key(written)) {
                FetchStep::Accept => (disk2, Some(disk2[written])),
                _ => (disk2, None),
            }
        },
    }
}

/// A name that `join` appends rather than substitutes.
pub open spec fn relative(name: Seq<char>) -> bool {
    name.len() == 0 || name[0] != '/'
}

proof fn lemma_join_injective(dir: Seq<char>, a: Seq<char>, b: Seq<char>)
    requires
        relative(a),
        relative(b),
        join(dir, a) == join(dir, b),
    ensures
        a == b,
{
    let ja = join(dir, a);
    let k = ja.len() - a.len();
    assert(ja.subrange(k, ja.len() as int) =~= a);
    assert(join(dir, b).subrange(k, ja.len() as int) =~= b);
}

/// Fetching a section never fails: a section that cannot be read, also
/// one missing from an active draft, comes back as its defaults.
pub proof fn lemma_fetch_never_fails<V>(
    disk: Map<Seq<char>, V>,
    canonical: Seq<char>,
    draft_active: bool,
    file: Seq<char>,
    default: V,
)
    ensures
        fetch_or_init(disk, canonical, draft_active, file, default).1 is Some,
        !disk.contains_key(join(read_dir(canonical, draft_active), file)) ==> fetch_or_init(
            disk,
            canonical,
            draft_active,
            file,
            default,
        ).1 == Some(default),
{
}

/// With no draft overlay, fetching a section whose file was deleted gives
/// that section's defaults, and leaves the content of every other section
/// file as it was, so fetching any other saved section then gives what was
/// saved.
pub proof fn lemma_fetch_after_delete<V>(
    disk: Map<Seq<char>, V>,
    canonical: Seq<char>,
    file: Seq<char>,
    other: Seq<char>,
    default: V,
    other_default: V,
)
    requires
        file != other,
        relative(file),
        relative(other),
    ensures
        ({
            let deleted = disk.remove(join(canonical, file));
            let (after, got) = fetch_or_init(deleted, canonical, false, file, default);
            &&& got == Some(default)
            &&& after.contains_key(join(canonical, other)) == disk.contains_key(join(canonical, other))
            &&& disk.contains_key(join(canonical, other)) ==> after[join(canonical, other)]
                == disk[join(canonical, other)]
            &&& disk.contains_key(join(canonical, other)) ==> fetch_or_init(
                after,
                canonical,
                false,
                other,
                other_default,
            ) == (after, Some(disk[join(canonical, other)]))
        }),
{
    if join(canonical, file) == join(canonical, other) {
        lemma_join_injective(canonical, file, other);
    }
}

/// A section that is present and parses is read as it is, and nothing is
/// written.
pub proof fn lemma_fetch_present_section<V>(
    disk: Map<Seq<char>, V>,
    canonical: Seq<char>,
    draft_active: bool,
    file: Seq<char>,
    default: V,
)
    requires
        disk.contains_key(join(read_dir(canonical, draft_active), file)),
    ensures
        fetch_or_init(disk, canonical, draft_active, file, default) == (
            disk,
            Some(disk[join(read_dir(canonical, draft_active), file)]),
        ),
{
}

// ---------------------------------------------------------------------
// Saving
// ---------------------------------------------------------------------

/// One step of a save of a whole document.
#[derive(Clone, Copy, Debug, PartialEq, Eq, Structural)]
pub enum SaveAction {
    /// Read the whole document as it is and record it as the baseline of
    /// its history.
    ReadBaseline,
    /// Write every section under the draft directory (created if absent).
    WriteDraft,
    /// Write every section under the canonical directory.
    WriteCanonical,
    /// Record the saved document as a new history checkpoint.
    RecordCheckpoint,
    /// Run the side effects of a commit (asset export).
    ExportAssets,
    /// Delete the draft directory and all it holds.
    RemoveDraft,
}

/// The steps of a save, in order: seed the history when it has no present;
/// write to the draft or the canonical directory; record a checkpoint only
/// for a draft save that asks for one; and, for a commit, export and then
/// delete the draft.
pub open spec fn save_steps(has_present: bool, is_draft: bool, record_history: bool) -> Seq<SaveAction> {
    (if has_present { Seq::empty() } else { seq![SaveAction::ReadBaseline] })
        + (if is_draft { seq![SaveAction::WriteDraft] } else { seq![SaveAction::WriteCanonical] })
        + (if record_history && is_draft { seq![SaveAction::RecordCheckpoint] } else { Seq::empty() })
        + (if is_draft { Seq::empty() } else { seq![SaveAction::ExportAssets, SaveAction::RemoveDraft] })
}

/// The steps of a save, given whether the document's history already has a
/// present. A failing step ends the save.
pub fn save_plan(has_present: bool, is_draft: bool, record_history: bool) -> (r: Vec<SaveAction>)
    ensures
        r@ == save_steps(has_present, is_draft, record_history),
{
    let mut steps: Vec<SaveAction> = Vec::new();
    if !has_present {
        steps.push(SaveAction::ReadBaseline);
    }
    if is_draft {
        steps.push(SaveAction::WriteDraft);
        if record_history {
            steps.push(SaveAction::RecordCheckpoint);
        }
    } else {
        steps.push(SaveAction::WriteCanonical);
        steps.push(SaveAction::ExportAssets);
        steps.push(SaveAction::RemoveDraft);
    }
    assert(steps@ =~= save_steps(has_present, is_draft, record_history));
    steps
}

/// Undo of a whole document: the previous snapshot from its history, and
/// the save that materializes it, a draft write that records nothing (the
/// history already moved). Fails with `NoHistory` when there is nothing to
/// undo, leaving the history as it was.
pub fn undo_document<D: Clone>(history: &mut Historic<D>) -> (r: Result<(D, Vec<SaveAction>), HistoryError>)
    requires
        old(history).wf(),
    ensures
        final(history).wf(),
        old(history)@.past.len() == 0 ==> r == Err::<(D, Vec<SaveAction>), HistoryError>(
            HistoryError::NoHistory,
        ) && final(history)@ == old(history)@,
        old(history)@.past.len() > 0 ==> r is Ok && final(history)@ == undone(old(history)@) && cloned(
            old(history)@.past.last(),
            r->Ok_0.0,
        ) && r->Ok_0.1@ == save_steps(true, true, false),
{
    match history.undo() {
        Err(e) => Err(e),
        Ok(snapshot) => Ok((snapshot, save_plan(true, true, false))),
    }
}

/// Redo of a whole document: the next snapshot from its history, and the
/// draft write, recording nothing, that materializes it. Fails with
/// `NoHistory` when there is nothing to redo.
pub fn redo_document<D: Clone>(history: &mut Historic<D>) -> (r: Result<(D, Vec<SaveAction>), HistoryError>)
    requires
        old(history).wf(),
    ensures
        final(history).wf(),
        old(history)@.future.len() == 0 ==> r == Err::<(D, Vec<SaveAction>), HistoryError>(
            HistoryError::NoHistory,
        ) && final(history)@ == old(history)@,
        old(history)@.future.len() > 0 ==> r is Ok && final(history)@ == redone(old(history)@)
            && cloned(old(history)@.future.last(), r->Ok_0.0) && r->Ok_0.1@ == save_steps(
            true,
            true,
            false,
        ),
{
    match history.redo() {
        Err(e) => Err(e),
        Ok(snapshot) => Ok((snapshot, save_plan(true, true, false))),
    }
}

/// The disk after writing `values[i]` into `files[i]` under `dir`, in order.
pub open spec fn write_all<V>(
    disk: Map<Seq<char>, V>,
    dir: Seq<char>,
    files: Seq<Seq<char>>,
    values: Seq<V>,
) -> Map<Seq<char>, V>
    decreases files.len(),
{
    if files.len() == 0 || values.len() == 0 {
        disk
    } else {
        write_all(disk, dir, files.drop_last(), values.drop_last()).insert(
            join(dir, files.last()),
            values.last(),
        )
    }
}

proof fn lemma_write_all_reads<V>(
    disk: Map<Seq<char>, V>,
    dir: Seq<char>,
    files: Seq<Seq<char>>,
    values: Seq<V>,
    i: int,
)
    requires
        files.len() == values.len(),
        files.no_duplicates(),
        forall|k: int| 0 <= k < files.len() ==> relative(#[trigger] files[k]),
        0 <= i < files.len(),
    ensures
        write_all(disk, dir, files, values).contains_key(join(dir, files[i])),
        write_all(disk, dir, files, values)[join(dir, files[i])] == values[i],
    decreases files.len(),
{
    if i < files.len() - 1 {
        lemma_write_all_reads(disk, dir, files.drop_last(), values.drop_last(), i);
        if join(dir, files[i]) == join(dir, files.last()) {
            lemma_join_injective(dir, files[i], files.last());
        }
    }
}

/// Staged save round trip: after a save writes every section, a read of the
/// document resolves to the directory that was written and finds each
/// section as saved. A draft save leaves a valid metadata file in the draft,
/// so reads go to the draft; a commit ends by removing the draft (and a
/// draft save never does), so reads go to the canonical directory.
pub proof fn lemma_save_then_open<V>(
    disk: Map<Seq<char>, V>,
    canonical: Seq<char>,
    has_present: bool,
    is_draft: bool,
    record_history: bool,
    files: Seq<Seq<char>>,
    values: Seq<V>,
    i: int,
)
    requires
        files.len() == values.len(),
        files.no_duplicates(),
        forall|k: int| 0 <= k < files.len() ==> relative(#[trigger] files[k]),
        0 <= i < files.len(),
    ensures
        read_dir(canonical, is_draft) == write_dir(canonical, is_draft),
        !is_draft ==> save_steps(has_present, is_draft, record_history).last()
            == SaveAction::RemoveDraft,
        is_draft ==> !save_steps(has_present, is_draft, record_history).contains(SaveAction::RemoveDraft),
        ({
            let after = write_all(disk, write_dir(canonical, is_draft), files, values);
            let read = join(read_dir(canonical, is_draft), files[i]);
            after.contains_key(read) && after[read] == values[i]
        }),
{
    lemma_write_all_reads(disk, write_dir(canonical, is_draft), files, values, i);
}

/// The section files of a document, in the order a save writes them.
pub open spec fn section_files() -> Seq<Seq<char>> {
    seq![
        section_file(Section::Metadata),
        section_file(Section::Palettes),
        section_file(Section::Fonts),
        section_file(Section::Typography),
        section_file(Section::Spaces),
        section_file(Section::Radius),
        section_file(Section::Effects),
        section_file(Section::Themes),
        section_file(Section::SemanticColorTokens),
    ]
}

/// The section files are distinct names relative to the document directory.
pub proof fn lemma_section_files_distinct()
    ensures
        section_files().no_duplicates(),
        forall|k: int| 0 <= k < section_files().len() ==> relative(#[trigger] section_files()[k]),
{
    reveal_strlit("design_system_metadata.yaml");
    reveal_strlit("palettes");
    reveal_strlit("fonts.yaml");
    reveal_strlit("typography.yaml");
    reveal_strlit("spaces.yaml");
    reveal_strlit("radius.yaml");
    reveal_strlit("effects.yaml");
    reveal_strlit("themes.yaml");
    reveal_strlit("semantic_color_tokens.yaml");
    let f = section_files();
    assert forall|a: int, b: int| 0 <= a < f.len() && 0 <= b < f.len() && a != b implies f[a] != f[
        b
    ] by {
        if f[a] == f[b] {
            assert(f[a].len() == f[b].len());
            assert(f[a][0] == f[b][0]);
            assert(f[a][1] == f[b][1]);
        }
    }
}

/// Staged save round trip on the document's own layout: after a draft save
/// (reads then resolve to the draft) or a commit (the draft is then
/// removed), reading any section finds what the save wrote for it.
pub proof fn lemma_save_then_open_document<V>(
    disk: Map<Seq<char>, V>,
    canonical: Seq<char>,
    is_draft: bool,
    values: Seq<V>,
    i: int,
)
    requires
        values.len() == section_files().len(),
        0 <= i < values.len(),
    ensures
        ({
            let after = write_all(disk, write_dir(canonical, is_draft), section_files(), values);
            let read = join(read_dir(canonical, is_draft), section_files()[i]);
            after.contains_key(read) && after[read] == values[i]
        }),
{
    lemma_section_files_distinct();
    lemma_save_then_open(disk, canonical, true, is_draft, false, section_files(), values, i);
}

} // verus!
