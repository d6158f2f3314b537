//! What a design system's repository decides once the disk has been read:
//! where a new design system goes, in which order palettes are listed, the
//! files palettes are written to, and what a palette builder file shows.
use vstd::prelude::*;

use crate::domain::{
    DesignSystemCreationPayload, DesignSystemMetadata, ExportsMetadata, PaletteBuilderMetadata,
    PaletteBuilderRenamePayload, Palette, Themes, TintBuild,
};
use crate::paths::{
    compute_path, compute_path_with_extension, compute_path_with_extension_overwrite, free_path,
    filename_equals, join, last_component, sanitized, stem_and_extension, stem_of, extension_of,
    with_extension,
};
use crate::staging::palettes_order_file_name;

verus! {

/// The metadata of a new design system named `payload.name` in
/// `payload.folder_path`: its directory is the first free path for that name
/// among `existing` (see `compute_path`), nothing is exported, and there is
/// nothing to undo or redo.
pub fn create_design_system(
    payload: DesignSystemCreationPayload,
    existing: &Vec<String>,
    design_system_id: String,
) -> (r: DesignSystemMetadata)
    requires
        existing@.len() < usize::MAX,
    ensures
        r.design_system_id == design_system_id,
        r.design_system_name == payload.name,
        free_path(
            existing@,
            join(payload.folder_path@, sanitized(payload.name@)),
            join(payload.folder_path@, sanitized(payload.name@)) + seq![' ', '('],
            seq![')'],
            r.design_system_path@,
        ),
        !r.is_tmp,
        !r.can_undo,
        !r.can_redo,
        r.banner == payload.banner,
        r.logo == payload.logo,
        r.readme is None,
        r.preview_images@.len() == 0,
        r.fonts@.len() == 0,
        r.exports.css is None,
        r.exports.figma_token_studio is None,
        r.exports.readme is None,
        r.update_date@.len() == 0,
{
    let DesignSystemCreationPayload { name, folder_path, banner, logo } = payload;
    let design_system_path = compute_path(folder_path.as_str(), name.as_str(), existing);
    DesignSystemMetadata {
        design_system_id,
        design_system_name: name,
        design_system_path,
        is_tmp: false,
        can_redo: false,
        can_undo: false,
        banner,
        logo,
        readme: None,
        preview_images: Vec::new(),
        fonts: Vec::new(),
        exports: ExportsMetadata::none(),
        update_date: String::new(),
    }
}

/// The themes as read, or no theme at all when the themes file was missing
/// or did not parse.
pub fn fetch_themes(loaded: Option<Themes>) -> (r: Themes)
    ensures
        loaded is Some ==> r == loaded->0,
        loaded is None ==> r.main_theme is None && r.other_themes@.len() == 0,
{
    match loaded {
        Some(themes) => themes,
        None => Themes::empty(),
    }
}

// ---------------------------------------------------------------------
// Palette order
// ---------------------------------------------------------------------

/// The index of the last occurrence of `name` in `order`, or -1.
pub open spec fn last_occurrence(order: Seq<String>, name: Seq<char>) -> int
    decreases order.len(),
{
    if order.len() == 0 {
        -1
    } else if order.last()@ == name {
        order.len() - 1
    } else {
        last_occurrence(order.drop_last(), name)
    }
}

/// The position of `name` in the order file: its last occurrence, or the
/// length of the order when it does not occur (listed after all others).
pub open spec fn order_rank(order: Seq<String>, name: Seq<char>) -> int {
    if last_occurrence(order, name) >= 0 {
        last_occurrence(order, name)
    } else {
        order.len() as int
    }
}

/// The ranks of the palettes named `names`.
pub open spec fn ranks(names: Seq<String>, order: Seq<String>) -> Seq<int> {
    Seq::new(names.len(), |j: int| order_rank(order, names[j]@))
}

/// The indices below `n` whose rank is `r`, ascending.
pub open spec fn bucket(rs: Seq<int>, r: int, n: nat) -> Seq<usize>
    decreases n,
{
    if n == 0 {
        Seq::empty()
    } else if rs[n - 1] == r {
        bucket(rs, r, (n - 1) as nat).push((n - 1) as usize)
    } else {
        bucket(rs, r, (n - 1) as nat)
    }
}

/// The indices of rank below `k`, by rank, and by index within a rank.
pub open spec fn buckets_below(rs: Seq<int>, n: nat, k: nat) -> Seq<usize>
    decreases k,
{
    if k == 0 {
        Seq::empty()
    } else {
        buckets_below(rs, n, (k - 1) as nat) + bucket(rs, k - 1, n)
    }
}

/// The display order of palettes named `names` under `order`: a stable sort
/// by rank, so palettes in the order file come in its order and the others
/// follow in the order they were found.
pub open spec fn display_order(names: Seq<String>, order: Seq<String>) -> Seq<usize> {
    buckets_below(ranks(names, order), names.len(), order.len() + 1)
}

/// The rank of `name` in `order`.
fn rank_of(order: &Vec<String>, name: &String) -> (r: usize)
    ensures
        r as int == order_rank(order@, name@),
{
    let mut i: usize = order.len();
    assert(order@.subrange(0, i as int) =~= order@);
    while i > 0
        invariant
            i <= order@.len(),
            last_occurrence(order@, name@) == last_occurrence(order@.subrange(0, i as int), name@),
        decreases i,
    {
        proof {
            assert(order@.subrange(0, i as int).drop_last() =~= order@.subrange(0, i - 1));
        }
        if order[i - 1] == *name {
            return i - 1;
        }
        i = i - 1;
    }
    proof {
        assert(order@.subrange(0, 0) =~= Seq::<String>::empty());
    }
    order.len()
}

/// The order in which palettes named `names` are listed, given the names in
/// the order file: the index of each palette, a stable sort by rank.
pub fn palette_display_order(names: &Vec<String>, order: &Vec<String>) -> (r: Vec<usize>)
    requires
        order@.len() < usize::MAX,
    ensures
        r@ == display_order(names@, order@),
{
    let n = names.len();
    let m = order.len();
    let mut rs: Vec<usize> = Vec::new();
    let mut j: usize = 0;
    while j < n
        invariant
            n == names@.len(),
            j <= n,
            rs@.len() == j,
            forall|t: int| 0 <= t < j ==> rs@[t] as int == ranks(names@, order@)[t],
        decreases n - j,
    {
        let r = rank_of(order, &names[j]);
        rs.push(r);
        j = j + 1;
    }
    let ghost gr = ranks(names@, order@);
    let mut out: Vec<usize> = Vec::new();
    let mut k: usize = 0;
    while k <= m
        invariant
            n == names@.len(),
            m == order@.len(),
            m < usize::MAX,
            k <= m + 1,
            rs@.len() == n,
            gr == ranks(names@, order@),
            forall|t: int| 0 <= t < n ==> rs@[t] as int == gr[t],
            out@ == buckets_below(gr, n as nat, k as nat),
        decreases m + 1 - k,
    {
        let mut j: usize = 0;
        while j < n
            invariant
                n == names@.len(),
                m == order@.len(),
                k <= m,
                j <= n,
                rs@.len() == n,
                forall|t: int| 0 <= t < n ==> rs@[t] as int == gr[t],
                out@ == buckets_below(gr, n as nat, k as nat) + bucket(gr, k as int, j as nat),
            decreases n - j,
        {
            if rs[j] == k {
                out.push(j);
            }
            proof {
                assert(bucket(gr, k as int, (j + 1) as nat) == if gr[j as int] == k {
                    bucket(gr, k as int, j as nat).push(j)
                } else {
                    bucket(gr, k as int, j as nat)
                });
            }
            assert(out@ =~= buckets_below(gr, n as nat, k as nat) + bucket(gr, k as int, (j + 1) as nat));
            j = j + 1;
        }
        k = k + 1;
    }
    out
}

/// The palette stored at `path`, by name: its stem, when its extension is
/// `yaml` or `yml` and it is not the order file.
pub fn palette_name_of(path: &str) -> (r: Option<String>)
    ensures
        r is Some <==> (extension_of(path@) is Some && (extension_of(path@)->0 == "yaml"@
            || extension_of(path@)->0 == "yml"@) && last_component(path@)
            != palettes_order_file_name()),
        r is Some ==> r->0@ == stem_of(path@)->0,
{
    proof {
        reveal_strlit("yaml");
        reveal_strlit("yml");
    }
    if filename_equals(path, "palettes_metadata.yaml") {
        return None;
    }
    let (stem, ext) = stem_and_extension(path);
    match (stem, ext) {
        (Some(name), Some(e)) => {
            if e == String::from_str("yaml") || e == String::from_str("yml") {
                Some(name)
            } else {
                None
            }
        },
        _ => None,
    }
}

/// The names of the palettes, in their order: what the order file records.
pub fn palettes_order(palettes: &Vec<Palette>) -> (r: Vec<String>)
    ensures
        r@.len() == palettes@.len(),
        forall|i: int| 0 <= i < r@.len() ==> (#[trigger] r@[i])@ == palettes@[i].palette_name@,
{
    let mut out: Vec<String> = Vec::new();
    let mut i: usize = 0;
    while i < palettes.len()
        invariant
            i <= palettes@.len(),
            out@.len() == i,
            forall|t: int| 0 <= t < i ==> (#[trigger] out@[t])@ == palettes@[t].palette_name@,
        decreases palettes.len() - i,
    {
        out.push(palettes[i].palette_name.clone());
        i = i + 1;
    }
    out
}

/// The files the palettes named `names` are written to, in a freshly
/// emptied palettes directory: each name gets the first path (see
/// `compute_path_with_extension`, extension `yaml`) not given to an earlier
/// palette.
pub fn palette_file_paths(palettes_dir: &str, names: &Vec<String>) -> (r: Vec<String>)
    requires
        names@.len() < usize::MAX,
    ensures
        r@.len() == names@.len(),
        forall|i: int|
            0 <= i < r@.len() ==> free_path(
                r@.subrange(0, i),
                with_extension(join(palettes_dir@, sanitized(names@[i]@)), "yaml"@),
                join(palettes_dir@, sanitized(names@[i]@)) + seq!['-'],
                seq!['.'] + "yaml"@,
                #[trigger] r@[i]@,
            ),
{
    let mut out: Vec<String> = Vec::new();
    let mut i: usize = 0;
    while i < names.len()
        invariant
            i <= names@.len(),
            names@.len() < usize::MAX,
            out@.len() == i,
            forall|t: int|
                0 <= t < i ==> free_path(
                    out@.subrange(0, t),
                    with_extension(join(palettes_dir@, sanitized(names@[t]@)), "yaml"@),
                    join(palettes_dir@, sanitized(names@[t]@)) + seq!['-'],
                    seq!['.'] + "yaml"@,
                    #[trigger] out@[t]@,
                ),
        decreases names.len() - i,
    {
        let p = compute_path_with_extension(palettes_dir, names[i].as_str(), "yaml", &out);
        let ghost before = out@;
        out.push(p);
        assert(out@.subrange(0, i as int) =~= before);
        assert forall|t: int| 0 <= t < i implies out@.subrange(0, t) =~= before.subrange(0, t) by {}
        i = i + 1;
    }
    out
}

// ---------------------------------------------------------------------
// Palette builders
// ---------------------------------------------------------------------

/// The color of the first tint from `j` on that is marked as the center.
pub open spec fn center_from(tints: Seq<TintBuild>, j: int) -> Option<Seq<char>>
    decreases tints.len() - j,
{
    if j < 0 || j >= tints.len() {
        None
    } else if tints[j].is_center == Some(true) {
        Some(tints[j].color@)
    } else {
        center_from(tints, j + 1)
    }
}

/// The main color of each palette that has a center tint, in order.
pub open spec fn main_colors_of(palettes: Seq<Vec<TintBuild>>) -> Seq<Seq<char>>
    decreases palettes.len(),
{
    if palettes.len() == 0 {
        Seq::empty()
    } else {
        let rest = main_colors_of(palettes.drop_last());
        match center_from(palettes.last()@, 0) {
            Some(c) => rest.push(c),
            None => rest,
        }
    }
}

/// The color of the first center tint of a palette, if any.
pub fn center_color(tints: &Vec<TintBuild>) -> (r: Option<String>)
    ensures
        r is None <==> center_from(tints@, 0) is None,
        r is Some ==> center_from(tints@, 0) == Some(r->0@),
{
    let mut j: usize = 0;
    while j < tints.len()
        invariant
            j <= tints@.len(),
            center_from(tints@, 0) == center_from(tints@, j as int),
        decreases tints.len() - j,
    {
        if tints[j].is_center == Some(true) {
            return Some(tints[j].color.clone());
        }
        j = j + 1;
    }
    None
}

/// The main colors of a palette builder: for each palette that has a center
/// tint, the color of its first one.
pub fn main_colors(palettes: &Vec<Vec<TintBuild>>) -> (r: Vec<String>)
    ensures
        r@.map_values(|s: String| s@) == main_colors_of(palettes@),
{
    let mut out: Vec<String> = Vec::new();
    let mut i: usize = 0;
    while i < palettes.len()
        invariant
            i <= palettes@.len(),
            out@.map_values(|s: String| s@) == main_colors_of(palettes@.subrange(0, i as int)),
        decreases palettes.len() - i,
    {
        let c = center_color(&palettes[i]);
        proof {
            assert(palettes@.subrange(0, i + 1).drop_last() =~= palettes@.subrange(0, i as int));
        }
        match c {
            Some(color) => {
                out.push(color);
            },
            None => {},
        }
        assert(out@.map_values(|s: String| s@) =~= main_colors_of(palettes@.subrange(0, i + 1)));
        i = i + 1;
    }
    assert(palettes@.subrange(0, palettes@.len() as int) =~= palettes@);
    out
}

/// A file found in a design system's palette builder directory, with the
/// tints of its palettes when it parsed.
pub struct PaletteBuilderFileEntry {
    pub path: String,
    pub palettes: Option<Vec<Vec<TintBuild>>>,
}

/// A palette builder file is listed when its extension is `yaml` or `yml`,
/// it has a stem, and it parsed.
pub open spec fn is_listed(e: PaletteBuilderFileEntry) -> bool {
    &&& extension_of(e.path@) is Some
    &&& (extension_of(e.path@)->0 == "yaml"@ || extension_of(e.path@)->0 == "yml"@)
    &&& stem_of(e.path@) is Some
    &&& e.palettes is Some
}

/// The indices of the listed entries below `n`, ascending.
pub open spec fn listed_indices(entries: Seq<PaletteBuilderFileEntry>, n: nat) -> Seq<int>
    decreases n,
{
    if n == 0 {
        Seq::empty()
    } else if is_listed(entries[n - 1]) {
        listed_indices(entries, (n - 1) as nat).push(n - 1)
    } else {
        listed_indices(entries, (n - 1) as nat)
    }
}

/// `m` lists entry `e`: named by its stem, at its path, with its main
/// colors.
pub open spec fn lists(m: PaletteBuilderMetadata, e: PaletteBuilderFileEntry) -> bool {
    &&& m.palette_builder_name@ == stem_of(e.path@)->0
    &&& m.path@ == e.path@
    &&& m.main_colors@.map_values(|s: String| s@) == main_colors_of(e.palettes->0@)
}

/// The palette builders of a design system, from the files of its palette
/// builder directory: the listed ones, in the order found.
pub fn fetch_design_system_palette_builders(entries: &Vec<PaletteBuilderFileEntry>) -> (r: Vec<
    PaletteBuilderMetadata,
>)
    ensures
        r@.len() == listed_indices(entries@, entries@.len()).len(),
        forall|k: int|
            0 <= k < r@.len() ==> lists(
                #[trigger] r@[k],
                entries@[listed_indices(entries@, entries@.len())[k]],
            ),
{
    let mut out: Vec<PaletteBuilderMetadata> = Vec::new();
    let mut i: usize = 0;
    while i < entries.len()
        invariant
            i <= entries@.len(),
            out@.len() == listed_indices(entries@, i as nat).len(),
            forall|k: int|
                0 <= k < out@.len() ==> lists(
                    #[trigger] out@[k],
                    entries@[listed_indices(entries@, i as nat)[k]],
                ),
        decreases entries.len() - i,
    {
        let e = &entries[i];
        let (stem, ext) = stem_and_extension(e.path.as_str());
        let ghost before = out@;
        match (stem, ext, &e.palettes) {
            (Some(name), Some(extension), Some(palettes)) => {
                proof {
                    reveal_strlit("yaml");
                    reveal_strlit("yml");
                }
                if extension == String::from_str("yaml") || extension == String::from_str("yml") {
                    let colors = main_colors(palettes);
                    out.push(
                        PaletteBuilderMetadata {
                            palette_builder_name: name,
                            path: e.path.clone(),
                            main_colors: colors,
                        },
                    );
                }
            },
            _ => {},
        }
        proof {
            assert forall|k: int| 0 <= k < before.len() implies out@[k] == before[k] by {}
        }
        i = i + 1;
    }
    out
}

/// Why a file is not a palette builder.
#[derive(Clone, Copy, Debug, PartialEq, Eq, Structural)]
pub enum PaletteBuilderError {
    /// The extension is missing, or neither `yaml` nor `yml`.
    BadExtension,
    /// The file name has no stem.
    NoName,
    /// The file could not be read as a palette builder.
    Unreadable,
}

/// The metadata of the palette builder file at `path`, given the tints of
/// its palettes when it parsed: an extension other than `yaml` or `yml` is
/// refused first, then a name without a stem, then a file that did not
/// parse.
pub fn find_palette_builder_metadata(path: &String, palettes: Option<&Vec<Vec<TintBuild>>>) -> (r: Result<
    PaletteBuilderMetadata,
    PaletteBuilderError,
>)
    ensures
        !(extension_of(path@) is Some && (extension_of(path@)->0 == "yaml"@ || extension_of(path@)->0
            == "yml"@)) ==> r == Err::<PaletteBuilderMetadata, PaletteBuilderError>(
            PaletteBuilderError::BadExtension,
        ),
        (extension_of(path@) is Some && (extension_of(path@)->0 == "yaml"@ || extension_of(path@)->0
            == "yml"@)) && palettes is None ==> r == Err::<PaletteBuilderMetadata, PaletteBuilderError>(
            PaletteBuilderError::Unreadable,
        ),
        (extension_of(path@) is Some && (extension_of(path@)->0 == "yaml"@ || extension_of(path@)->0
            == "yml"@)) && palettes is Some ==> r is Ok && r->Ok_0.palette_builder_name@ == stem_of(
            path@,
        )->0 && r->Ok_0.path@ == path@ && r->Ok_0.main_colors@.map_values(|s: String| s@)
            == main_colors_of(palettes->0@),
{
    let (stem, ext) = stem_and_extension(path.as_str());
    proof {
        reveal_strlit("yaml");
        reveal_strlit("yml");
    }
    let good_ext = match &ext {
        Some(e) => *e == String::from_str("yaml") || *e == String::from_str("yml"),
        None => false,
    };
    if !good_ext {
        return Err(PaletteBuilderError::BadExtension);
    }
    let name = match stem {
        Some(n) => n,
        None => {
            return Err(PaletteBuilderError::NoName);
        },
    };
    match palettes {
        None => Err(PaletteBuilderError::Unreadable),
        Some(p) => Ok(
            PaletteBuilderMetadata {
                palette_builder_name: name,
                path: path.clone(),
                main_colors: main_colors(p),
            },
        ),
    }
}

/// The path a palette builder is moved to when renamed: `new_name` with the
/// `yaml` extension in the design system's palette builder directory.
pub fn rename_palette_builder(payload: &PaletteBuilderRenamePayload) -> (r: String)
    ensures
        r@ == with_extension(
            join(join(payload.design_system_path@, "palette_builder"@), sanitized(payload.new_name@)),
            "yaml"@,
        ),
{
    let dir = crate::paths::join_path(payload.design_system_path.as_str(), "palette_builder");
    compute_path_with_extension_overwrite(dir.as_str(), payload.new_name.as_str(), "yaml")
}

} // verus!
