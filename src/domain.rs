//! The records of a design system that the library reads and builds.
//! Paths are held as '/'-separated strings.
use vstd::prelude::*;

use crate::paths::{file_name, join, join_path, has_file_name, last_component};

verus! {

/// A file found in a directory.
pub struct FileInfos {
    pub filename: String,
    pub filename_with_extension: String,
    pub extension: String,
    pub filepath: String,
}

/// The name and last modification date (RFC 3339) of a file.
pub struct FileMetadata {
    pub filename: String,
    pub update_date: String,
}

/// An image with its content as a data URI.
pub struct ImageLocal {
    pub path: String,
    pub binary: String,
}

/// What the user gives to create a design system.
pub struct DesignSystemCreationPayload {
    pub name: String,
    pub folder_path: String,
    pub banner: String,
    pub logo: String,
}

/// The metadata of a design system as the home screen lists it.
pub struct DesignSystemMetadataHome {
    pub design_system_id: String,
    pub design_system_name: String,
    pub design_system_path: String,
    pub is_tmp: bool,
    pub edit_mode: Option<bool>,
    pub can_undo: bool,
    pub can_redo: bool,
}

/// The files a design system has exported.
pub struct ExportsMetadata {
    pub css: Option<FileMetadata>,
    pub figma_token_studio: Option<FileMetadata>,
    pub readme: Option<FileMetadata>,
}

/// The metadata of an open design system.
pub struct DesignSystemMetadata {
    pub design_system_id: String,
    pub design_system_name: String,
    pub design_system_path: String,
    pub is_tmp: bool,
    pub can_undo: bool,
    pub can_redo: bool,
    pub banner: String,
    pub logo: String,
    pub readme: Option<String>,
    pub preview_images: Vec<ImageLocal>,
    pub fonts: Vec<FileInfos>,
    pub exports: ExportsMetadata,
    pub update_date: String,
}

/// The metadata as stored in the metadata file: images by file name only.
pub struct DesignSystemMetadataFile {
    pub design_system_id: String,
    pub design_system_name: String,
    pub banner: String,
    pub logo: String,
}

/// A named palette of tints.
pub struct Palette {
    pub palette_name: String,
    pub palette_path: Option<String>,
    pub tints: Vec<Tint>,
}

/// Colors outside any palette.
pub struct IndependantColors {
    pub white: String,
    pub independant_colors: Vec<Tint>,
}

/// The display order of the palettes, by name.
pub struct PalettesMetadataFile {
    pub palettes_order: Vec<String>,
}

/// The semantic color tokens of a design system.
pub struct SemanticColorTokens {
    pub background: Option<String>,
    pub border: Option<String>,
    pub text_light: Option<String>,
    pub text_default: Option<String>,
    pub text_dark: Option<String>,
    pub color_combination_collections: Vec<ColorCombinationCollection>,
}

/// A token combination with its interaction states.
pub struct ColorCombinationCollection {
    pub combination_name: Option<String>,
    pub default: Option<ColorCombination>,
    pub hover: Option<ColorCombination>,
    pub active: Option<ColorCombination>,
    pub focus: Option<ColorCombination>,
    pub group: Option<String>,
    pub default_combination: Option<bool>,
}

/// Background, border and text colors used together.
pub struct ColorCombination {
    pub background: Option<String>,
    pub border: Option<String>,
    pub text: Option<String>,
}

/// One labelled color of a palette.
pub struct Tint {
    pub label: String,
    pub color: String,
}

/// The display order of the themes, by name.
pub struct ThemesMetadataFile {
    pub themes_order: Vec<String>,
}

/// The default font and the additional fonts of a design system.
pub struct Fonts {
    pub default: String,
    pub additionals: Vec<AdditionalFont>,
}

/// An additional font.
pub struct AdditionalFont {
    pub font_name: String,
    pub value: String,
}

/// A named font weight.
pub struct AdditionalFontWeight {
    pub weight_name: String,
    pub font_weight: FontWeight,
}

/// A unit of a measurement.
#[derive(Clone, Copy, Debug, PartialEq, Eq, Structural)]
pub enum UnitOfMeasurement {
    REM,
    PX,
}

/// The CSS font style.
#[derive(Clone, Copy, Debug, PartialEq, Eq, Structural)]
pub enum FontStyle {
    Normal,
    Italic,
    Oblique,
}

/// The CSS text transform.
#[derive(Clone, Copy, Debug, PartialEq, Eq, Structural)]
pub enum TextTransform {
    NoTransform,
    Uppercase,
    Lowercase,
    Capitalize,
}

/// The CSS text decoration.
#[derive(Clone, Copy, Debug, PartialEq, Eq, Structural)]
pub enum TextDecoration {
    NoDecoration,
    Underline,
    Overline,
    LineThrough,
}

/// The CSS font weights, from 100 to 900.
#[derive(Clone, Copy, Debug, PartialEq, Eq, Structural)]
pub enum FontWeight {
    One,
    Two,
    Three,
    Four,
    Five,
    Six,
    Seven,
    Eight,
    Nine,
}

/// The numeric CSS value of a font weight.
pub open spec fn weight_value(w: FontWeight) -> u16 {
    match w {
        FontWeight::One => 100,
        FontWeight::Two => 200,
        FontWeight::Three => 300,
        FontWeight::Four => 400,
        FontWeight::Five => 500,
        FontWeight::Six => 600,
        FontWeight::Seven => 700,
        FontWeight::Eight => 800,
        FontWeight::Nine => 900,
    }
}

impl FontWeight {
    /// The numeric CSS value of this weight.
    pub fn value(&self) -> (r: u16)
        ensures
            r == weight_value(*self),
    {
        match self {
            FontWeight::One => 100,
            FontWeight::Two => 200,
            FontWeight::Three => 300,
            FontWeight::Four => 400,
            FontWeight::Five => 500,
            FontWeight::Six => 600,
            FontWeight::Seven => 700,
            FontWeight::Eight => 800,
            FontWeight::Nine => 900,
        }
    }
}

/// Letter and word spacings, in em, from -1em to 1em.
#[derive(Clone, Copy, Debug, PartialEq, Eq, Structural)]
pub enum TypographySpacing {
    Neg1_0,
    Neg0_9,
    Neg0_8,
    Neg0_7,
    Neg0_6,
    Neg0_5,
    Neg0_4,
    Neg0_3,
    Neg0_2,
    Neg0_1,
    Neg0_09,
    Neg0_08,
    Neg0_07,
    Neg0_06,
    Neg0_05,
    Neg0_02,
    Zero,
    Pos0_02,
    Pos0_05,
    Pos0_06,
    Pos0_07,
    Pos0_08,
    Pos0_09,
    Pos0_1,
    Pos0_2,
    Pos0_3,
    Pos0_4,
    Pos0_5,
    Pos0_6,
    Pos0_7,
    Pos0_8,
    Pos0_9,
    Pos1_0,
}

/// The main theme and the other themes of a design system.
pub struct Themes {
    pub main_theme: Option<Theme>,
    pub other_themes: Vec<Theme>,
}

/// A named theme.
pub struct Theme {
    pub name: String,
    pub background: String,
}

/// An export to write into a design system's exports directory.
pub struct ExportPayload {
    pub design_system_path: String,
    pub export_name: String,
    pub value: String,
    pub extension: String,
}

/// One tint of a palette under construction.
pub struct TintBuild {
    pub name: String,
    pub is_anchor: Option<bool>,
    pub is_center: Option<bool>,
    pub color: String,
}

/// A palette builder file as the design system lists it.
pub struct PaletteBuilderMetadata {
    pub palette_builder_name: String,
    pub path: String,
    pub main_colors: Vec<String>,
}

/// A request to rename a palette builder of a design system.
pub struct PaletteBuilderRenamePayload {
    pub metadata: PaletteBuilderMetadata,
    pub new_name: String,
    pub design_system_path: String,
}

/// A named sample of hex colors.
pub struct ColorSample {
    pub name: String,
    pub colors: Vec<String>,
}

/// The colors of the color picker and its samples.
pub struct ColorPickerStore {
    pub colors: Vec<String>,
    pub samples: Vec<ColorSample>,
}

impl Default for ColorPickerStore {
    /// Two starting colors and one empty sample.
    fn default() -> (r: ColorPickerStore)
        ensures
            r.colors@.len() == 2,
            r.colors@[0]@ == "#bfdbfe"@,
            r.colors@[1]@ == "#1e3a8a"@,
            r.samples@.len() == 1,
            r.samples@[0].name@ == "sample-1"@,
            r.samples@[0].colors@.len() == 0,
    {
        let mut colors: Vec<String> = Vec::new();
        colors.push(String::from_str("#bfdbfe"));
        colors.push(String::from_str("#1e3a8a"));
        let mut samples: Vec<ColorSample> = Vec::new();
        samples.push(ColorSample { name: String::from_str("sample-1"), colors: Vec::new() });
        ColorPickerStore { colors, samples }
    }
}

/// The value a missing optional string field of a stored file takes.
pub fn default_string() -> (r: String)
    ensures
        r@ == Seq::<char>::empty(),
{
    String::new()
}

impl IndependantColors {
    /// White, and no independent color.
    pub fn new() -> (r: IndependantColors)
        ensures
            r.white@ == "#ffffff"@,
            r.independant_colors@.len() == 0,
    {
        IndependantColors { white: String::from_str("#ffffff"), independant_colors: Vec::new() }
    }
}

impl SemanticColorTokens {
    /// No token set and no combination.
    pub fn new() -> (r: SemanticColorTokens)
        ensures
            r.background is None,
            r.border is None,
            r.text_light is None,
            r.text_default is None,
            r.text_dark is None,
            r.color_combination_collections@.len() == 0,
    {
        SemanticColorTokens {
            background: None,
            text_light: None,
            text_default: None,
            text_dark: None,
            border: None,
            color_combination_collections: Vec::new(),
        }
    }
}

impl Fonts {
    /// Roboto as the default font, and no additional font.
    pub fn new() -> (r: Fonts)
        ensures
            r.default@ == "Roboto"@,
            r.additionals@.len() == 0,
    {
        Fonts { default: String::from_str("Roboto"), additionals: Vec::new() }
    }
}

impl Themes {
    /// No main theme and no other theme.
    pub fn empty() -> (r: Themes)
        ensures
            r.main_theme is None,
            r.other_themes@.len() == 0,
    {
        Themes { main_theme: None, other_themes: Vec::new() }
    }
}

impl ExportsMetadata {
    /// No export yet.
    pub fn none() -> (r: ExportsMetadata)
        ensures
            r.css is None,
            r.figma_token_studio is None,
            r.readme is None,
    {
        ExportsMetadata { css: None, figma_token_studio: None, readme: None }
    }
}

impl DesignSystemMetadataHome {
    /// The home-screen view of `metadata`, with the given edit mode.
    pub fn from(metadata: DesignSystemMetadata, edit_mode: Option<bool>) -> (r:
        DesignSystemMetadataHome)
        ensures
            r.design_system_id == metadata.design_system_id,
            r.design_system_name == metadata.design_system_name,
            r.design_system_path == metadata.design_system_path,
            r.is_tmp == metadata.is_tmp,
            r.edit_mode == edit_mode,
            r.can_undo == metadata.can_undo,
            r.can_redo == metadata.can_redo,
    {
        let DesignSystemMetadata {
            design_system_id,
            design_system_name,
            design_system_path,
            is_tmp,
            can_redo,
            can_undo,
            ..
        } = metadata;
        DesignSystemMetadataHome {
            design_system_id,
            design_system_name,
            design_system_path,
            edit_mode,
            is_tmp,
            can_redo,
            can_undo,
        }
    }
}

impl DesignSystemMetadataFile {
    /// The stored form of `design_system_metadata`: its identity, and the
    /// file names of its banner and logo.
    pub fn from(design_system_metadata: &DesignSystemMetadata) -> (r: DesignSystemMetadataFile)
        requires
            has_file_name(design_system_metadata.banner@),
            has_file_name(design_system_metadata.logo@),
        ensures
            r.design_system_id@ == design_system_metadata.design_system_id@,
            r.design_system_name@ == design_system_metadata.design_system_name@,
            r.banner@ == last_component(design_system_metadata.banner@),
            r.logo@ == last_component(design_system_metadata.logo@),
    {
        let banner = match file_name(design_system_metadata.banner.as_str()) {
            Some(n) => n,
            None => String::new(),
        };
        let logo = match file_name(design_system_metadata.logo.as_str()) {
            Some(n) => n,
            None => String::new(),
        };
        DesignSystemMetadataFile {
            design_system_id: design_system_metadata.design_system_id.clone(),
            design_system_name: design_system_metadata.design_system_name.clone(),
            banner,
            logo,
        }
    }
}

impl DesignSystemMetadata {
    /// The metadata of the design system at `path`, read from its stored
    /// form: banner and logo resolved under `image_pathbuf`, nothing to undo
    /// or redo yet, no readme, preview image or font.
    pub fn from(
        design_system_file: &DesignSystemMetadataFile,
        path: &String,
        is_tmp: bool,
        image_pathbuf: &String,
        exports: ExportsMetadata,
        update_date: String,
    ) -> (r: DesignSystemMetadata)
        ensures
            r.design_system_id@ == design_system_file.design_system_id@,
            r.design_system_name@ == design_system_file.design_system_name@,
            r.design_system_path@ == path@,
            r.banner@ == join(image_pathbuf@, design_system_file.banner@),
            r.logo@ == join(image_pathbuf@, design_system_file.logo@),
            r.is_tmp == is_tmp,
            !r.can_undo,
            !r.can_redo,
            r.readme is None,
            r.preview_images@.len() == 0,
            r.fonts@.len() == 0,
            r.exports == exports,
            r.update_date == update_date,
    {
        DesignSystemMetadata {
            design_system_id: design_system_file.design_system_id.clone(),
            design_system_name: design_system_file.design_system_name.clone(),
            design_system_path: path.clone(),
            banner: join_path(image_pathbuf.as_str(), design_system_file.banner.as_str()),
            logo: join_path(image_pathbuf.as_str(), design_system_file.logo.as_str()),
            is_tmp,
            can_redo: false,
            can_undo: false,
            readme: None,
            preview_images: Vec::new(),
            fonts: Vec::new(),
            exports,
            update_date,
        }
    }
}

} // verus!
