use uitea::assets::{
    encode_image_base64, list_file_info_in_dir, load_design_system_fonts, load_font_as_base64,
    to_ascii_lowercase, upload_typography,
};
use uitea::design_system::{
    create_design_system, fetch_design_system_palette_builders, fetch_themes, main_colors,
    palette_display_order, palette_file_paths, palette_name_of, palettes_order, rename_palette_builder,
    PaletteBuilderFileEntry,
};
use uitea::domain::{
    DesignSystemCreationPayload, DesignSystemMetadata, DesignSystemMetadataFile,
    DesignSystemMetadataHome, ExportsMetadata, Fonts, IndependantColors, Palette,
    PaletteBuilderMetadata, PaletteBuilderRenamePayload, SemanticColorTokens, Theme, Themes, Tint,
    TintBuild, ColorPickerStore, FontWeight,
};
use uitea::home::{
    insert_recent_file, remove_recent_file, update_recent_file, validate_recent_file,
    RecentFile, RecentFileCategory, RecentFileError, UserSettings, PluginDisplayMode,
};
use uitea::tints::TintsFile;
use uitea::design_system::{find_palette_builder_metadata, PaletteBuilderError};
use uitea::assets::manage_font_export;
use uitea::domain::AdditionalFont;
use uitea::assets::fetch_image_folder;
use uitea::assets::{google_font_css_url, google_font_file};
use uitea::paths::is_within;
use uitea::home::{resolve_recent_file, RecentFileLoad, RecentFilesMetadata};
use uitea::history::{Historic, HistoryError};
use uitea::staging::{redo_document, undo_document, SaveAction};

fn strings(v: &[&str]) -> Vec<String> {
    v.iter().map(|s| s.to_string()).collect()
}

fn tint(label: &str, color: &str) -> Tint {
    Tint { label: label.to_string(), color: color.to_string() }
}

fn tb(color: &str, center: Option<bool>) -> TintBuild {
    TintBuild { name: color.to_string(), is_anchor: None, is_center: center, color: color.to_string() }
}

fn metadata(banner: &str, logo: &str) -> DesignSystemMetadata {
    DesignSystemMetadata {
        design_system_id: "id-1".to_string(),
        design_system_name: "Brand".to_string(),
        design_system_path: "/ds/Brand".to_string(),
        is_tmp: true,
        can_undo: true,
        can_redo: false,
        banner: banner.to_string(),
        logo: logo.to_string(),
        readme: None,
        preview_images: vec![],
        fonts: vec![],
        exports: ExportsMetadata::none(),
        update_date: String::new(),
    }
}

#[test]
fn defaults_of_sections() {
    let c = IndependantColors::new();
    assert_eq!(c.white, "#ffffff");
    assert!(c.independant_colors.is_empty());
    let f = Fonts::new();
    assert_eq!(f.default, "Roboto");
    let t = SemanticColorTokens::new();
    assert!(t.text_dark.is_none() && t.border.is_none());
    let store = ColorPickerStore::default();
    assert_eq!(store.colors, strings(&["#bfdbfe", "#1e3a8a"]));
    assert_eq!(store.samples.len(), 1);
    assert_eq!(store.samples[0].name, "sample-1");
    assert_eq!(UserSettings::default().plugin_display_mode, PluginDisplayMode::FullScreen);
    assert_eq!(FontWeight::Seven.value(), 700);
}

#[test]
fn metadata_file_round_trip() {
    let m = metadata("/ds/Brand/images/banner.png", "/tmp/logo.svg");
    let file = DesignSystemMetadataFile::from(&m);
    assert_eq!(file.banner, "banner.png");
    assert_eq!(file.logo, "logo.svg");
    assert_eq!(file.design_system_name, "Brand");
    let back = DesignSystemMetadata::from(
        &file,
        &"/ds/Brand".to_string(),
        false,
        &"/ds/Brand/images".to_string(),
        ExportsMetadata::none(),
        "2024-01-01T00:00:00+00:00".to_string(),
    );
    assert_eq!(back.banner, "/ds/Brand/images/banner.png");
    assert_eq!(back.logo, "/ds/Brand/images/logo.svg");
    assert!(!back.can_undo && !back.can_redo);
    let home = DesignSystemMetadataHome::from(m, Some(true));
    assert_eq!(home.design_system_id, "id-1");
    assert_eq!(home.edit_mode, Some(true));
    assert!(home.can_undo);
    let odd = metadata("x/img.png/", "a/.");
    let file = DesignSystemMetadataFile::from(&odd);
    assert_eq!(file.banner, "img.png");
    assert_eq!(file.logo, "a");
    let absolute = DesignSystemMetadataFile { banner: "/b.png".to_string(), ..file };
    let back = DesignSystemMetadata::from(
        &absolute,
        &"/ds".to_string(),
        false,
        &"/ds/images".to_string(),
        ExportsMetadata::none(),
        String::new(),
    );
    assert_eq!(back.banner, "/b.png");
}

#[test]
fn new_design_system_gets_free_folder() {
    let payload = DesignSystemCreationPayload {
        name: "Brand Kit".to_string(),
        folder_path: "/work".to_string(),
        banner: "b.png".to_string(),
        logo: "l.png".to_string(),
    };
    let existing = strings(&["/work/Brand-Kit"]);
    let m = create_design_system(payload, &existing, "uuid-7".to_string());
    assert_eq!(m.design_system_path, "/work/Brand-Kit (1)");
    assert_eq!(m.design_system_id, "uuid-7");
    assert_eq!(m.design_system_name, "Brand Kit");
    assert!(!m.is_tmp);
}

#[test]
fn themes_fall_back_to_empty() {
    let t = fetch_themes(None);
    assert!(t.main_theme.is_none() && t.other_themes.is_empty());
    let loaded = Themes {
        main_theme: Some(Theme { name: "light".to_string(), background: "#fff".to_string() }),
        other_themes: vec![],
    };
    assert_eq!(fetch_themes(Some(loaded)).main_theme.unwrap().name, "light");
}

#[test]
fn palettes_listed_in_manifest_order() {
    let names = strings(&["red", "blue", "extra", "green", "more"]);
    let order = strings(&["green", "red", "blue"]);
    assert_eq!(palette_display_order(&names, &order), vec![3, 0, 1, 2, 4]);
    let dup = strings(&["blue", "red", "blue"]);
    assert_eq!(palette_display_order(&strings(&["red", "blue"]), &dup), vec![0, 1]);
    assert_eq!(palette_display_order(&names, &vec![]), vec![0, 1, 2, 3, 4]);
}

#[test]
fn palette_files_never_collide() {
    let names = strings(&["Primary", "Primary", "Pri mary"]);
    let paths = palette_file_paths("/ds/palettes", &names);
    assert_eq!(
        paths,
        strings(&["/ds/palettes/Primary.yaml", "/ds/palettes/Primary-1.yaml", "/ds/palettes/Pri-mary.yaml"])
    );
    let palettes = vec![
        Palette { palette_name: "b".to_string(), palette_path: None, tints: vec![] },
        Palette { palette_name: "a".to_string(), palette_path: None, tints: vec![] },
    ];
    assert_eq!(palettes_order(&palettes), strings(&["b", "a"]));
}

#[test]
fn tints_file_keeps_order_and_last_color() {
    let tints = vec![tint("50", "#eef"), tint("100", "#ccf"), tint("50", "#ddf")];
    let file = TintsFile::from(&tints);
    let back = TintsFile::to(&file);
    assert_eq!(back.len(), 2);
    assert_eq!(back[0].label, "50");
    assert_eq!(back[0].color, "#ddf");
    assert_eq!(back[1].label, "100");
    let unique = vec![tint("a", "#1"), tint("b", "#2")];
    let back = TintsFile::to(&TintsFile::from(&unique));
    assert_eq!(back.iter().map(|t| (t.label.clone(), t.color.clone())).collect::<Vec<_>>(),
        vec![("a".to_string(), "#1".to_string()), ("b".to_string(), "#2".to_string())]);
}

#[test]
fn palette_builder_listing() {
    let palettes = vec![
        vec![tb("#111", None), tb("#222", Some(true)), tb("#333", Some(true))],
        vec![tb("#444", Some(false))],
        vec![tb("#555", Some(true))],
    ];
    assert_eq!(main_colors(&palettes), strings(&["#222", "#555"]));
    let entries = vec![
        PaletteBuilderFileEntry { path: "/ds/palette_builder/warm.yaml".to_string(), palettes: Some(palettes) },
        PaletteBuilderFileEntry { path: "/ds/palette_builder/notes.txt".to_string(), palettes: Some(vec![]) },
        PaletteBuilderFileEntry { path: "/ds/palette_builder/broken.yml".to_string(), palettes: None },
        PaletteBuilderFileEntry { path: "/ds/palette_builder/cold.yml".to_string(), palettes: Some(vec![]) },
    ];
    let listed = fetch_design_system_palette_builders(&entries);
    assert_eq!(listed.len(), 2);
    assert_eq!(listed[0].palette_builder_name, "warm");
    assert_eq!(listed[0].main_colors, strings(&["#222", "#555"]));
    assert_eq!(listed[1].palette_builder_name, "cold");
    assert_eq!(listed[1].path, "/ds/palette_builder/cold.yml");
}

#[test]
fn rename_target() {
    let payload = PaletteBuilderRenamePayload {
        metadata: PaletteBuilderMetadata {
            palette_builder_name: "old".to_string(),
            path: "/ds/palette_builder/old.yaml".to_string(),
            main_colors: vec![],
        },
        new_name: "new name".to_string(),
        design_system_path: "/ds".to_string(),
    };
    assert_eq!(rename_palette_builder(&payload), "/ds/palette_builder/new-name.yaml");
}

#[test]
fn base64_of_assets() {
    let image = encode_image_base64("/img/a.png".to_string(), &b"hi".to_vec());
    assert_eq!(image.path, "/img/a.png");
    assert_eq!(image.binary, "data:image/png;base64,aGk=");
    assert_eq!(load_font_as_base64(&vec![0u8, 1, 2]), "AAEC");
    assert_eq!(load_font_as_base64(&vec![]), "");
}

#[test]
fn font_files_listed_by_extension() {
    let files = strings(&["/f/Roboto.TTF", "/f/readme.md", "/f/Inter.woff2", "/f/noext"]);
    let fonts = load_design_system_fonts(&files);
    assert_eq!(fonts.len(), 2);
    assert_eq!(fonts[0].filename, "Roboto");
    assert_eq!(fonts[0].filename_with_extension, "Roboto.TTF");
    assert_eq!(fonts[0].extension, "ttf");
    assert_eq!(fonts[1].filepath, "/f/Inter.woff2");
    let all = list_file_info_in_dir(&files, None);
    assert_eq!(all.len(), 3);
    assert_eq!(to_ascii_lowercase("WoFF2-Ä"), "woff2-Ä");
    assert_eq!(upload_typography("/tmp/Lato.ttf", "/ds"), Some("/ds/exports/fonts/Lato.ttf".to_string()));
    assert_eq!(upload_typography("/tmp/", "/ds"), Some("/ds/exports/fonts/tmp".to_string()));
    assert_eq!(upload_typography("/", "/ds"), None);
}

#[test]
fn recent_files_bookkeeping() {
    let rf = |p: &str, c: RecentFileCategory| RecentFile { file_path: p.to_string(), edit_mode: None, category: c };
    let mut files = vec![];
    assert_eq!(insert_recent_file(&mut files, rf("/a", RecentFileCategory::DesignSystemCategory)), "/a");
    insert_recent_file(&mut files, rf("/b.yaml", RecentFileCategory::PaletteBuilderCategory));
    insert_recent_file(&mut files, rf("/a", RecentFileCategory::DesignSystemCategory));
    assert_eq!(files.len(), 2);
    let updated = RecentFile { file_path: "/b.yaml".to_string(), edit_mode: Some(true), category: RecentFileCategory::PaletteBuilderCategory };
    assert_eq!(update_recent_file(&mut files, &updated), Ok(()));
    assert_eq!(files[1].edit_mode, Some(true));
    let missing = rf("/zzz", RecentFileCategory::DesignSystemCategory);
    assert_eq!(update_recent_file(&mut files, &missing), Err(RecentFileError::NotFound));
    let kept = remove_recent_file(&files, &"/a".to_string());
    assert_eq!(kept.len(), 1);
    assert_eq!(kept[0].file_path, "/b.yaml");
    assert_eq!(validate_recent_file(&files[0], true), Ok("/a".to_string()));
    assert_eq!(validate_recent_file(&files[0], false), Err(RecentFileError::NotADesignSystem));
    assert_eq!(validate_recent_file(&files[1], false), Err(RecentFileError::NotAPaletteBuilder));
}

#[test]
fn palette_files_recognised_by_extension() {
    assert_eq!(palette_name_of("/ds/palettes/blue.yaml"), Some("blue".to_string()));
    assert_eq!(palette_name_of("/ds/palettes/blue.yml"), Some("blue".to_string()));
    assert_eq!(palette_name_of("/ds/palettes/palettes_metadata.yaml"), None);
    assert_eq!(palette_name_of("/ds/palettes/blue.json"), None);
    assert_eq!(palette_name_of("/ds/palettes/blue"), None);
}

#[test]
fn palette_builder_metadata_errors() {
    let palettes = vec![vec![tb("#abc", Some(true))]];
    let ok = find_palette_builder_metadata(&"/x/warm.yml".to_string(), Some(&palettes)).unwrap();
    assert_eq!(ok.palette_builder_name, "warm");
    assert_eq!(ok.main_colors, strings(&["#abc"]));
    assert_eq!(
        find_palette_builder_metadata(&"/x/warm.txt".to_string(), Some(&palettes)).err(),
        Some(PaletteBuilderError::BadExtension)
    );
    assert_eq!(
        find_palette_builder_metadata(&"/x/warm.yaml".to_string(), None).err(),
        Some(PaletteBuilderError::Unreadable)
    );
}

#[test]
fn font_export_keeps_directory_in_line() {
    let files = load_design_system_fonts(&strings(&["/e/fonts/Roboto.ttf", "/e/fonts/Old.woff"]));
    let fonts = Fonts {
        default: "Roboto".to_string(),
        additionals: vec![
            AdditionalFont { font_name: "Inter".to_string(), value: "Inter".to_string() },
            AdditionalFont { font_name: "Mine".to_string(), value: "Mine".to_string() },
        ],
    };
    let plan = manage_font_export(&files, &fonts, &strings(&["Inter", "Roboto"]));
    assert_eq!(plan.downloads, strings(&["Inter"]));
    assert_eq!(plan.removals, strings(&["/e/fonts/Old.woff"]));
}

#[test]
fn preset_images_filtered() {
    let paths = strings(&["\\\\?\\C:\\assets\\a.PNG", "/assets/b.jpeg", "/assets/c.svg", "/assets/d"]);
    assert_eq!(fetch_image_folder(&paths), strings(&["C:\\assets\\a.PNG", "/assets/b.jpeg"]));
}

#[test]
fn containment_is_by_component() {
    assert!(is_within("/ds/images", "/ds/images/logo.png"));
    assert!(is_within("/ds/images", "/ds/images"));
    assert!(is_within("/ds/images/", "/ds/images/logo.png"));
    assert!(!is_within("/ds/images", "/ds/images2/logo.png"));
    assert!(!is_within("/ds/images", "/ds"));
}

#[test]
fn document_undo_writes_a_draft_only() {
    let mut h: Historic<String> = Historic::new();
    assert_eq!(undo_document(&mut h).err(), Some(HistoryError::NoHistory));
    h.set_new("v1".to_string());
    h.set_new("v2".to_string());
    let (snapshot, plan) = undo_document(&mut h).unwrap();
    assert_eq!(snapshot, "v1");
    assert_eq!(plan, vec![SaveAction::WriteDraft]);
    let (snapshot, plan) = redo_document(&mut h).unwrap();
    assert_eq!(snapshot, "v2");
    assert_eq!(plan, vec![SaveAction::WriteDraft]);
    assert_eq!(redo_document(&mut h).err(), Some(HistoryError::NoHistory));
}

#[test]
fn recent_files_resolved_by_category() {
    let ds = RecentFile { file_path: "/ds/Brand".to_string(), edit_mode: Some(false), category: RecentFileCategory::DesignSystemCategory };
    match resolve_recent_file(ds, RecentFileLoad::DesignSystem(metadata("/i/b.png", "/i/l.png"))) {
        RecentFilesMetadata::DesignSystem(home) => {
            assert_eq!(home.design_system_path, "/ds/Brand");
            assert_eq!(home.edit_mode, Some(false));
        }
        _ => panic!("expected a design system"),
    }
    let pb = RecentFile { file_path: "/p/warm.yaml".to_string(), edit_mode: None, category: RecentFileCategory::PaletteBuilderCategory };
    match resolve_recent_file(pb, RecentFileLoad::Failed) {
        RecentFilesMetadata::Unknown(path) => assert_eq!(path, "/p/warm.yaml"),
        _ => panic!("expected an unknown entry"),
    }
    let mismatched = RecentFile { file_path: "/p/x.yaml".to_string(), edit_mode: None, category: RecentFileCategory::PaletteBuilderCategory };
    match resolve_recent_file(mismatched, RecentFileLoad::DesignSystem(metadata("/i/b.png", "/i/l.png"))) {
        RecentFilesMetadata::Unknown(path) => assert_eq!(path, "/p/x.yaml"),
        _ => panic!("expected an unknown entry"),
    }
}

#[test]
fn google_font_links() {
    assert_eq!(
        google_font_css_url("Open Sans"),
        "https://fonts.googleapis.com/css2?family=Open+Sans&display=swap"
    );
    let css = "@font-face { src: url(https://fonts.gstatic.com/s/opensans/v40/abc.woff2) format('woff2'); }\n@font-face { src: url(https://fonts.gstatic.com/s/opensans/v40/def.ttf); }";
    let d = google_font_file("Open Sans", css).unwrap();
    assert_eq!(d.url, "https://fonts.gstatic.com/s/opensans/v40/abc.woff2");
    assert_eq!(d.filename, "Open Sans.woff2");
    assert!(google_font_file("Open Sans", "body { color: red; }").is_none());
    assert!(google_font_file("X", "url(https://example.com/a.woff2)").is_none());
}
