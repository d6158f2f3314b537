use uitea::paths::{
    compute_path, compute_path_with_extension, compute_path_with_extension_overwrite,
    decimal_string, file_name, filename_equals, join_path, path_with_extension, sanitize_filename,
    stem_and_extension,
};
use uitea::staging::{
    compute_fetch_pathbuf, draft_metadata_path, get_images_path, init_fonts,
    init_semantic_color_tokens, next_fetch_step, save_plan, save_target, section_init_path,
    section_read_path, section_write_path, FetchStage, FetchStep, SaveAction, Section,
};

fn strings(v: &[&str]) -> Vec<String> {
    v.iter().map(|s| s.to_string()).collect()
}

#[test]
fn join_and_sanitize() {
    assert_eq!(join_path("/home/me", "ds"), "/home/me/ds");
    assert_eq!(join_path("/home/me/", "ds"), "/home/me/ds");
    assert_eq!(join_path("", "ds"), "ds");
    assert_eq!(join_path("/ds/images", "/b.png"), "/b.png");
    assert_eq!(sanitize_filename("my design system"), "my-design-system");
    assert_eq!(decimal_string(0), "0");
    assert_eq!(decimal_string(1207), "1207");
}

#[test]
fn file_names_and_extensions() {
    assert_eq!(file_name("/a/b/c.yaml"), Some("c.yaml".to_string()));
    assert_eq!(file_name("/a/b/"), Some("b".to_string()));
    assert_eq!(file_name("a/."), Some("a".to_string()));
    assert_eq!(file_name("a/b/./"), Some("b".to_string()));
    assert_eq!(file_name("/a/.."), None);
    assert_eq!(file_name("/"), None);
    assert_eq!(file_name("."), None);
    assert_eq!(file_name(""), None);
    assert!(filename_equals("a/b/", "b"));
    assert_eq!(path_with_extension("a/b.txt/", "yaml"), "a/b.yaml");
    assert_eq!(path_with_extension("a/", "yaml"), "a.yaml");
    assert_eq!(path_with_extension("/", "yaml"), "/");
    assert_eq!(path_with_extension("/a/b.old", "yaml"), "/a/b.yaml");
    assert_eq!(path_with_extension("/a/b", "yaml"), "/a/b.yaml");
    assert_eq!(path_with_extension("/a.d/.hidden", "yaml"), "/a.d/.hidden.yaml");
    assert_eq!(path_with_extension("/a/b.old", ""), "/a/b");
    assert_eq!(
        stem_and_extension("/x/palette.v2.yml"),
        (Some("palette.v2".to_string()), Some("yml".to_string()))
    );
    assert_eq!(stem_and_extension("/x/README"), (Some("README".to_string()), None));
    assert!(filename_equals("/p/palettes_metadata.yaml", "palettes_metadata.yaml"));
    assert!(!filename_equals("/p/other.yaml", "palettes_metadata.yaml"));
}

#[test]
fn compute_path_picks_first_free_name() {
    let none: Vec<String> = vec![];
    assert_eq!(compute_path("/d", "My DS", &none), "/d/My-DS");
    let taken = strings(&["/d/My-DS", "/d/My-DS (1)", "/d/My-DS (3)"]);
    assert_eq!(compute_path("/d", "My DS", &taken), "/d/My-DS (2)");
}

#[test]
fn compute_path_with_extension_numbers_before_extension() {
    let none: Vec<String> = vec![];
    assert_eq!(compute_path_with_extension("/d", "css export", "css", &none), "/d/css-export.css");
    let taken = strings(&["/d/css-export.css", "/d/css-export-1.css"]);
    assert_eq!(compute_path_with_extension("/d", "css export", "css", &taken), "/d/css-export-2.css");
    assert_eq!(compute_path_with_extension_overwrite("/d", "blue tones", "yaml"), "/d/blue-tones.yaml");
}

#[test]
fn reads_resolve_against_active_draft() {
    let clean = compute_fetch_pathbuf("/ds", false);
    assert_eq!(clean.original_pathbuf, "/ds");
    assert_eq!(clean.fetch_pathbuf, "/ds");
    let drafting = compute_fetch_pathbuf("/ds", true);
    assert_eq!(drafting.original_pathbuf, "/ds");
    assert_eq!(drafting.fetch_pathbuf, "/ds/draft");
    assert_eq!(draft_metadata_path("/ds"), "/ds/draft/design_system_metadata.yaml");
    assert_eq!(section_read_path(&drafting, Section::Fonts), "/ds/draft/fonts.yaml");
    assert_eq!(section_init_path(&drafting, Section::Fonts), "/ds/fonts.yaml");
    assert_eq!(save_target("/ds", true), "/ds/draft");
    assert_eq!(save_target("/ds", false), "/ds");
    assert_eq!(get_images_path("/ds"), "/ds/images");
}

#[test]
fn section_initializers_write_defaults_at_canonical_path() {
    let drafting = compute_fetch_pathbuf("/ds", true);
    let (path, fonts) = init_fonts(&drafting);
    assert_eq!(path, "/ds/fonts.yaml");
    assert_eq!(fonts.default, "Roboto");
    assert!(fonts.additionals.is_empty());
    let (path, tokens) = init_semantic_color_tokens(&drafting);
    assert_eq!(path, "/ds/semantic_color_tokens.yaml");
    assert!(tokens.background.is_none() && tokens.color_combination_collections.is_empty());
}

#[test]
fn fetch_or_init_decisions() {
    assert_eq!(next_fetch_step(FetchStage::FirstAttempt, true), FetchStep::Accept);
    assert_eq!(next_fetch_step(FetchStage::FirstAttempt, false), FetchStep::InitializeThenRetry);
    assert_eq!(next_fetch_step(FetchStage::AfterInit, true), FetchStep::Accept);
    assert_eq!(next_fetch_step(FetchStage::AfterInit, false), FetchStep::GiveUp);
}

#[test]
fn save_plans() {
    assert_eq!(
        save_plan(false, true, true),
        vec![SaveAction::ReadBaseline, SaveAction::WriteDraft, SaveAction::RecordCheckpoint]
    );
    assert_eq!(save_plan(true, true, false), vec![SaveAction::WriteDraft]);
    assert_eq!(
        save_plan(true, false, true),
        vec![SaveAction::WriteCanonical, SaveAction::ExportAssets, SaveAction::RemoveDraft]
    );
    assert_eq!(
        save_plan(false, false, false),
        vec![
            SaveAction::ReadBaseline,
            SaveAction::WriteCanonical,
            SaveAction::ExportAssets,
            SaveAction::RemoveDraft
        ]
    );
}

#[test]
fn staged_save_reads_back_where_written() {
    let sections = [
        Section::Metadata,
        Section::Palettes,
        Section::Fonts,
        Section::Typography,
        Section::Spaces,
        Section::Radius,
        Section::Effects,
        Section::Themes,
        Section::SemanticColorTokens,
    ];
    for is_draft in [true, false] {
        let target = save_target("/ds/Brand", is_draft);
        // A draft save leaves a valid draft; a commit removes it.
        let fetch = compute_fetch_pathbuf("/ds/Brand", is_draft);
        for s in sections {
            assert_eq!(section_write_path(&target, s), section_read_path(&fetch, s));
        }
        let plan = save_plan(true, is_draft, true);
        assert_eq!(plan.last() == Some(&SaveAction::RemoveDraft), !is_draft);
    }
}
