//! The home screen's bookkeeping: the list of recently opened files and the
//! user settings.
use vstd::prelude::*;

use crate::domain::{DesignSystemMetadata, DesignSystemMetadataHome, PaletteBuilderMetadata};
use crate::paths::join;
use crate::staging::metadata_file_name;

verus! {

/// The kind of a recently opened file.
#[derive(Clone, Copy, Debug, PartialEq, Eq, Structural)]
pub enum RecentFileCategory {
    DesignSystemCategory,
    PaletteBuilderCategory,
}

/// A recently opened file.
pub struct RecentFile {
    pub file_path: String,
    pub edit_mode: Option<bool>,
    pub category: RecentFileCategory,
}

/// A recent file as the home screen shows it, resolved once from its
/// category; `Unknown` when it could not be read.
pub enum RecentFilesMetadata {
    DesignSystem(DesignSystemMetadataHome),
    PaletteBuilder(PaletteBuilderMetadata),
    Unknown(String),
}

/// A request to forget a recent file, and possibly delete it.
pub struct RemoveRecentFilesPayload {
    pub file_path: String,
    pub is_delete_from_computer: bool,
}

/// The banners and logos offered to a new design system.
pub struct PresetDressing {
    pub banners: Vec<String>,
    pub logos: Vec<String>,
}

/// How plugins are displayed.
#[derive(Clone, Copy, Debug, PartialEq, Eq, Structural)]
pub enum PluginDisplayMode {
    FullScreen,
    Modal,
}

/// The user's settings.
pub struct UserSettings {
    pub plugin_display_mode: PluginDisplayMode,
}

impl Default for UserSettings {
    /// Plugins in full screen.
    fn default() -> (r: UserSettings)
        ensures
            r.plugin_display_mode == PluginDisplayMode::FullScreen,
    {
        UserSettings { plugin_display_mode: PluginDisplayMode::FullScreen }
    }
}

/// Why an operation on the recent files failed.
#[derive(Clone, Copy, Debug, PartialEq, Eq, Structural)]
pub enum RecentFileError {
    /// The folder does not hold a design system (no metadata file).
    NotADesignSystem,
    /// The file is not a readable palette builder.
    NotAPaletteBuilder,
    /// No recent file has that path.
    NotFound,
}

/// The same recent file, field for field.
pub open spec fn same_file(a: RecentFile, b: RecentFile) -> bool {
    a.file_path@ == b.file_path@ && a.edit_mode == b.edit_mode && a.category == b.category
}

/// The lists hold the same recent files, in the same order.
pub open spec fn same_files(a: Seq<RecentFile>, b: Seq<RecentFile>) -> bool {
    a.len() == b.len() && forall|i: int| 0 <= i < a.len() ==> same_file(#[trigger] a[i], b[i])
}

/// Whether some recent file has path `p`.
pub open spec fn has_path(files: Seq<RecentFile>, p: Seq<char>) -> bool {
    exists|i: int| 0 <= i < files.len() && (#[trigger] files[i]).file_path@ == p
}

/// The recent files that do not have path `p`, in order.
pub open spec fn without_path(files: Seq<RecentFile>, p: Seq<char>) -> Seq<RecentFile>
    decreases files.len(),
{
    if files.len() == 0 {
        Seq::empty()
    } else if files.last().file_path@ == p {
        without_path(files.drop_last(), p)
    } else {
        without_path(files.drop_last(), p).push(files.last())
    }
}

impl RecentFile {
    /// A copy of this recent file.
    pub fn copy(&self) -> (r: RecentFile)
        ensures
            same_file(r, *self),
    {
        RecentFile {
            file_path: self.file_path.clone(),
            edit_mode: self.edit_mode,
            category: self.category,
        }
    }
}

/// What must be found on disk for a recent file to be valid.
pub enum RecentFileProbe {
    /// A directory holding the given metadata file.
    DesignSystemFolder { folder: String, metadata_file: String },
    /// A palette builder file that parses.
    PaletteBuilderFile { path: String },
}

/// What to look for on disk to validate `recent_file`.
pub fn recent_file_probe(recent_file: &RecentFile) -> (r: RecentFileProbe)
    ensures
        recent_file.category == RecentFileCategory::DesignSystemCategory ==> (r matches RecentFileProbe::DesignSystemFolder { folder, metadata_file }
            && folder@ == recent_file.file_path@ && metadata_file@ == join(
            recent_file.file_path@,
            metadata_file_name(),
        )),
        recent_file.category == RecentFileCategory::PaletteBuilderCategory ==> (r matches RecentFileProbe::PaletteBuilderFile { path }
            && path@ == recent_file.file_path@),
{
    match recent_file.category {
        RecentFileCategory::DesignSystemCategory => RecentFileProbe::DesignSystemFolder {
            folder: recent_file.file_path.clone(),
            metadata_file: crate::paths::join_path(
                recent_file.file_path.as_str(),
                "design_system_metadata.yaml",
            ),
        },
        RecentFileCategory::PaletteBuilderCategory => RecentFileProbe::PaletteBuilderFile {
            path: recent_file.file_path.clone(),
        },
    }
}

/// Validates `recent_file` given whether its probe was found on disk: its
/// path when found, else the error of its category.
pub fn validate_recent_file(recent_file: &RecentFile, found: bool) -> (r: Result<String, RecentFileError>)
    ensures
        found ==> r is Ok && r->Ok_0@ == recent_file.file_path@,
        !found && recent_file.category == RecentFileCategory::DesignSystemCategory ==> r == Err::<
            String,
            RecentFileError,
        >(RecentFileError::NotADesignSystem),
        !found && recent_file.category == RecentFileCategory::PaletteBuilderCategory ==> r == Err::<
            String,
            RecentFileError,
        >(RecentFileError::NotAPaletteBuilder),
{
    if found {
        Ok(recent_file.file_path.clone())
    } else {
        match recent_file.category {
            RecentFileCategory::DesignSystemCategory => Err(RecentFileError::NotADesignSystem),
            RecentFileCategory::PaletteBuilderCategory => Err(RecentFileError::NotAPaletteBuilder),
        }
    }
}

fn find_path(recent_files: &Vec<RecentFile>, path: &String) -> (r: Option<usize>)
    ensures
        r is None <==> !has_path(recent_files@, path@),
        r is Some ==> r->0 < recent_files@.len() && recent_files@[r->0 as int].file_path@ == path@
            && forall|j: int| 0 <= j < r->0 ==> (#[trigger] recent_files@[j]).file_path@ != path@,
{
    let mut i: usize = 0;
    while i < recent_files.len()
        invariant
            i <= recent_files@.len(),
            forall|j: int| 0 <= j < i ==> (#[trigger] recent_files@[j]).file_path@ != path@,
        decreases recent_files.len() - i,
    {
        if recent_files[i].file_path == *path {
            return Some(i);
        }
        i = i + 1;
    }
    None
}

/// Adds `recent_file` at the end of the list unless a recent file with the
/// same path is there already; gives back its path.
pub fn insert_recent_file(recent_files: &mut Vec<RecentFile>, recent_file: RecentFile) -> (r: String)
    ensures
        r@ == recent_file.file_path@,
        has_path(old(recent_files)@, recent_file.file_path@) ==> final(recent_files)@ == old(
            recent_files,
        )@,
        !has_path(old(recent_files)@, recent_file.file_path@) ==> final(recent_files)@ == old(
            recent_files,
        )@.push(recent_file),
{
    let path = recent_file.file_path.clone();
    match find_path(recent_files, &path) {
        Some(_) => {},
        None => {
            recent_files.push(recent_file);
        },
    }
    path
}

/// The recent files without those whose path is `file_path`, in order.
pub fn remove_recent_file(recent_files: &Vec<RecentFile>, file_path: &String) -> (r: Vec<RecentFile>)
    ensures
        same_files(r@, without_path(recent_files@, file_path@)),
{
    let mut out: Vec<RecentFile> = Vec::new();
    let mut i: usize = 0;
    while i < recent_files.len()
        invariant
            i <= recent_files@.len(),
            same_files(out@, without_path(recent_files@.subrange(0, i as int), file_path@)),
        decreases recent_files.len() - i,
    {
        proof {
            assert(recent_files@.subrange(0, i + 1).drop_last() =~= recent_files@.subrange(0, i as int));
        }
        if recent_files[i].file_path != *file_path {
            out.push(recent_files[i].copy());
        }
        i = i + 1;
    }
    assert(recent_files@.subrange(0, recent_files@.len() as int) =~= recent_files@);
    out
}

/// Sets the edit mode of the first recent file with the path of `updated`;
/// fails with `NotFound` when there is none.
pub fn update_recent_file(recent_files: &mut Vec<RecentFile>, updated: &RecentFile) -> (r: Result<
    (),
    RecentFileError,
>)
    ensures
        !has_path(old(recent_files)@, updated.file_path@) ==> r == Err::<(), RecentFileError>(
            RecentFileError::NotFound,
        ) && final(recent_files)@ == old(recent_files)@,
        has_path(old(recent_files)@, updated.file_path@) ==> r is Ok && exists|i: int|
            0 <= i < old(recent_files)@.len() && (forall|j: int|
                0 <= j < i ==> (#[trigger] old(recent_files)@[j]).file_path@ != updated.file_path@)
                && (#[trigger] old(recent_files)@[i]).file_path@ == updated.file_path@
                && final(recent_files)@.len() == old(recent_files)@.len() && (forall|j: int|
                0 <= j < old(recent_files)@.len() && j != i ==> (#[trigger] final(recent_files)@[j])
                == old(recent_files)@[j]) && final(recent_files)@[i].file_path
                == old(recent_files)@[i].file_path && final(recent_files)@[i].category
                == old(recent_files)@[i].category && final(recent_files)@[i].edit_mode
                == updated.edit_mode,
{
    match find_path(recent_files, &updated.file_path) {
        None => Err(RecentFileError::NotFound),
        Some(i) => {
            let file_path = recent_files[i].file_path.clone();
            let category = recent_files[i].category;
            recent_files.set(i, RecentFile { file_path, edit_mode: updated.edit_mode, category });
            Ok(())
        },
    }
}

/// What reading a recent file gave.
pub enum RecentFileLoad {
    DesignSystem(DesignSystemMetadata),
    PaletteBuilder(PaletteBuilderMetadata),
    Failed,
}

/// The home-screen entry of `recent_file`, resolved once from its category
/// and what reading it gave: a design system or a palette builder when the
/// read matches the category, else `Unknown` with its path.
pub fn resolve_recent_file(recent_file: RecentFile, load: RecentFileLoad) -> (r: RecentFilesMetadata)
    ensures
        (recent_file.category == RecentFileCategory::DesignSystemCategory && load is DesignSystem)
            ==> (r matches RecentFilesMetadata::DesignSystem(home) && home.design_system_id
            == (load->DesignSystem_0).design_system_id && home.design_system_name == (
            load->DesignSystem_0).design_system_name && home.design_system_path == (
            load->DesignSystem_0).design_system_path && home.is_tmp == (load->DesignSystem_0).is_tmp
            && home.can_undo == (load->DesignSystem_0).can_undo && home.can_redo == (
            load->DesignSystem_0).can_redo && home.edit_mode == recent_file.edit_mode),
        (recent_file.category == RecentFileCategory::PaletteBuilderCategory && load is PaletteBuilder)
            ==> r == RecentFilesMetadata::PaletteBuilder(load->PaletteBuilder_0),
        !((recent_file.category == RecentFileCategory::DesignSystemCategory && load is DesignSystem)
            || (recent_file.category == RecentFileCategory::PaletteBuilderCategory
            && load is PaletteBuilder)) ==> r == RecentFilesMetadata::Unknown(recent_file.file_path),
{
    match (recent_file.category, load) {
        (RecentFileCategory::DesignSystemCategory, RecentFileLoad::DesignSystem(m)) => {
            RecentFilesMetadata::DesignSystem(DesignSystemMetadataHome::from(m, recent_file.edit_mode))
        },
        (RecentFileCategory::PaletteBuilderCategory, RecentFileLoad::PaletteBuilder(m)) => {
            RecentFilesMetadata::PaletteBuilder(m)
        },
        _ => RecentFilesMetadata::Unknown(recent_file.file_path),
    }
}

} // verus!
