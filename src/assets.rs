//! Images and fonts of a design system: their base64 form, and the listing
//! of the files of a directory.
use base64::Engine;
use vstd::prelude::*;

use crate::domain::{FileInfos, Fonts, ImageLocal};
use crate::paths::{
    extension_of, file_name, has_file_name, join, join_path, last_component, stem_and_extension,
    stem_of,
};
use crate::staging::{exports_dir_name, fonts_dir_name, fonts_export_path};

verus! {

/// The standard base64 encoding (with padding) of some bytes.
pub uninterp spec fn base64_standard(bytes: Seq<u8>) -> Seq<char>;

/// Relies on `base64::engine::general_purpose::STANDARD.encode`: the
/// standard alphabet, with padding.
#[verifier::external_body]
fn base64_encode(bytes: &Vec<u8>) -> (r: String)
    ensures
        r@ == base64_standard(bytes@),
{
    base64::engine::general_purpose::STANDARD.encode(bytes)
}

/// The prefix of the data URI of a PNG image.
pub open spec fn png_data_uri_prefix() -> Seq<char> {
    "data:image/png;base64,"@
}

/// The image at `path`, whose content is `bytes`, as a PNG data URI.
pub fn encode_image_base64(path: String, bytes: &Vec<u8>) -> (r: ImageLocal)
    ensures
        r.path == path,
        r.binary@ == png_data_uri_prefix() + base64_standard(bytes@),
{
    let mut binary = String::from_str("data:image/png;base64,");
    let encoded = base64_encode(bytes);
    binary.append(encoded.as_str());
    ImageLocal { path, binary }
}

/// A font file's content in base64.
pub fn load_font_as_base64(data: &Vec<u8>) -> (r: String)
    ensures
        r@ == base64_standard(data@),
{
    base64_encode(data)
}

/// `c` in lower case when it is an ASCII capital letter.
pub open spec fn ascii_lower(c: char) -> char {
    if 'A' <= c && c <= 'Z' {
        (((c as u32) + 32) as u8) as char
    } else {
        c
    }
}

/// `s` with its ASCII capitals in lower case.
pub open spec fn ascii_lowercase(s: Seq<char>) -> Seq<char> {
    Seq::new(s.len(), |i: int| ascii_lower(s[i]))
}

fn lower_char(c: char) -> (r: char)
    ensures
        r == ascii_lower(c),
{
    if 'A' <= c && c <= 'Z' {
        (((c as u32) + 32) as u8) as char
    } else {
        c
    }
}

/// `s` with its ASCII capitals in lower case.
pub fn to_ascii_lowercase(s: &str) -> (r: String)
    ensures
        r@ == ascii_lowercase(s@),
{
    let n = s.unicode_len();
    let mut out = String::new();
    let mut i: usize = 0;
    while i < n
        invariant
            n == s@.len(),
            i <= n,
            out@ =~= ascii_lowercase(s@).subrange(0, i as int),
        decreases n - i,
    {
        let c = s.get_char(i);
        if 'A' <= c && c <= 'Z' {
            let letters = "abcdefghijklmnopqrstuvwxyz";
            proof {
                reveal_strlit("abcdefghijklmnopqrstuvwxyz");
            }
            let k = (c as u32 - 'A' as u32) as usize;
            let piece = letters.substring_char(k, k + 1);
            assert(piece@[0] == ascii_lower(c));
            out.append(piece);
        } else {
            out.append(s.substring_char(i, i + 1));
        }
        assert(out@ =~= ascii_lowercase(s@).subrange(0, i + 1));
        i = i + 1;
    }
    assert(ascii_lowercase(s@).subrange(0, n as int) =~= ascii_lowercase(s@));
    out
}

/// The strings of `list`, as sequences of characters.
pub open spec fn views(list: Seq<String>) -> Seq<Seq<char>> {
    list.map_values(|s: String| s@)
}

/// Whether `ext` is allowed: always without a list, else when in it.
pub open spec fn extension_allowed(allowed: Option<Seq<Seq<char>>>, ext: Seq<char>) -> bool {
    match allowed {
        None => true,
        Some(a) => a.contains(ext),
    }
}

/// A file of a directory is listed when its name has a stem and an
/// extension, and its extension, in lower case, is allowed.
pub open spec fn file_listed(allowed: Option<Seq<Seq<char>>>, path: Seq<char>) -> bool {
    &&& stem_of(path) is Some
    &&& extension_of(path) is Some
    &&& extension_allowed(allowed, ascii_lowercase(extension_of(path)->0))
}

/// `info` describes the file at `path`.
pub open spec fn describes(info: FileInfos, path: Seq<char>) -> bool {
    &&& info.filename@ == stem_of(path)->0
    &&& info.filename_with_extension@ == last_component(path)
    &&& info.extension@ == ascii_lowercase(extension_of(path)->0)
    &&& info.filepath@ == path
}

/// The indices of the listed files below `n`, ascending.
pub open spec fn listed_files(allowed: Option<Seq<Seq<char>>>, paths: Seq<String>, n: nat) -> Seq<int>
    decreases n,
{
    if n == 0 {
        Seq::empty()
    } else if file_listed(allowed, paths[n - 1]@) {
        listed_files(allowed, paths, (n - 1) as nat).push(n - 1)
    } else {
        listed_files(allowed, paths, (n - 1) as nat)
    }
}

fn extension_in(allowed: &Vec<String>, ext: &String) -> (r: bool)
    ensures
        r == views(allowed@).contains(ext@),
{
    let mut i: usize = 0;
    while i < allowed.len()
        invariant
            i <= allowed@.len(),
            forall|j: int| 0 <= j < i ==> (#[trigger] views(allowed@)[j]) != ext@,
        decreases allowed.len() - i,
    {
        if allowed[i] == *ext {
            assert(views(allowed@)[i as int] == ext@);
            return true;
        }
        i = i + 1;
    }
    false
}

/// The files among `file_paths` (the regular files of one directory) whose
/// extension is allowed, described by stem, name, lower-case extension and
/// path; every extension is allowed when `allowed_extensions` is `None`.
pub fn list_file_info_in_dir(file_paths: &Vec<String>, allowed_extensions: Option<&Vec<String>>) -> (r:
    Vec<FileInfos>)
    ensures
        ({
            let allowed = match allowed_extensions {
                Some(a) => Some(views(a@)),
                None => None,
            };
            let listed = listed_files(allowed, file_paths@, file_paths@.len());
            &&& r@.len() == listed.len()
            &&& forall|k: int|
                0 <= k < r@.len() ==> describes(#[trigger] r@[k], file_paths@[listed[k]]@)
        }),
{
    let ghost allowed = match allowed_extensions {
        Some(a) => Some(views(a@)),
        None => None,
    };
    let mut out: Vec<FileInfos> = Vec::new();
    let mut i: usize = 0;
    while i < file_paths.len()
        invariant
            i <= file_paths@.len(),
            allowed == match allowed_extensions {
                Some(a) => Some(views(a@)),
                None => None::<Seq<Seq<char>>>,
            },
            out@.len() == listed_files(allowed, file_paths@, i as nat).len(),
            forall|k: int|
                0 <= k < out@.len() ==> describes(
                    #[trigger] out@[k],
                    file_paths@[listed_files(allowed, file_paths@, i as nat)[k]]@,
                ),
        decreases file_paths.len() - i,
    {
        let path = &file_paths[i];
        let (stem, ext) = stem_and_extension(path.as_str());
        let ghost before = out@;
        match (stem, ext) {
            (Some(stem), Some(ext)) => {
                let ext_lower = to_ascii_lowercase(ext.as_str());
                let is_allowed = match allowed_extensions {
                    Some(a) => extension_in(a, &ext_lower),
                    None => true,
                };
                if is_allowed {
                    let name = match file_name(path.as_str()) {
                        Some(n) => n,
                        None => String::new(),
                    };
                    out.push(
                        FileInfos {
                            filename: stem,
                            filename_with_extension: name,
                            extension: ext_lower,
                            filepath: path.clone(),
                        },
                    );
                }
            },
            _ => {},
        }
        proof {
            assert forall|k: int| 0 <= k < before.len() implies out@[k] == before[k] by {}
        }
        i = i + 1;
    }
    out
}

/// The extensions of the font files a design system exports.
pub open spec fn font_extensions_spec() -> Seq<Seq<char>> {
    seq!["ttf"@, "otf"@, "woff"@, "woff2"@]
}

/// The extensions of the font files a design system exports.
pub fn font_extensions() -> (r: Vec<String>)
    ensures
        views(r@) == font_extensions_spec(),
{
    let mut r: Vec<String> = Vec::new();
    r.push(String::from_str("ttf"));
    r.push(String::from_str("otf"));
    r.push(String::from_str("woff"));
    r.push(String::from_str("woff2"));
    assert(views(r@) =~= font_extensions_spec());
    r
}

/// The font files among `file_paths`, the files of a design system's
/// exported fonts directory.
pub fn load_design_system_fonts(file_paths: &Vec<String>) -> (r: Vec<FileInfos>)
    ensures
        ({
            let listed = listed_files(Some(font_extensions_spec()), file_paths@, file_paths@.len());
            &&& r@.len() == listed.len()
            &&& forall|k: int|
                0 <= k < r@.len() ==> describes(#[trigger] r@[k], file_paths@[listed[k]]@)
        }),
{
    let allowed = font_extensions();
    list_file_info_in_dir(file_paths, Some(&allowed))
}

/// Where a font file at `original_path` is copied to when uploaded to the
/// design system at `design_system_path`: its file name in the exported
/// fonts directory; `None` when the path has no file name.
pub fn upload_typography(original_path: &str, design_system_path: &str) -> (r: Option<String>)
    ensures
        r is None <==> !has_file_name(original_path@),
        r is Some ==> r->0@ == join(
            join(join(design_system_path@, exports_dir_name()), fonts_dir_name()),
            last_component(original_path@),
        ),
{
    match file_name(original_path) {
        None => None,
        Some(name) => {
            let dir = fonts_export_path(design_system_path);
            Some(join_path(dir.as_str(), name.as_str()))
        },
    }
}

/// The fonts a design system uses: each additional font's value, then the
/// default font.
pub open spec fn wanted_fonts(fonts: Fonts) -> Seq<Seq<char>> {
    Seq::new(fonts.additionals@.len(), |i: int| fonts.additionals@[i].value@).push(fonts.default@)
}

/// The stems of the exported font files.
pub open spec fn exported_stems(files: Seq<FileInfos>) -> Seq<Seq<char>> {
    Seq::new(files.len(), |i: int| files[i].filename@)
}

/// The wanted fonts below `n` that are not exported and can be downloaded,
/// in order.
pub open spec fn fonts_to_download(
    wanted: Seq<Seq<char>>,
    stems: Seq<Seq<char>>,
    downloadable: Seq<Seq<char>>,
    n: nat,
) -> Seq<Seq<char>>
    decreases n,
{
    if n == 0 {
        Seq::empty()
    } else {
        let rest = fonts_to_download(wanted, stems, downloadable, (n - 1) as nat);
        if !stems.contains(wanted[n - 1]) && downloadable.contains(wanted[n - 1]) {
            rest.push(wanted[n - 1])
        } else {
            rest
        }
    }
}

/// The paths of the exported font files below `n` whose stem is not a
/// wanted font, in order.
pub open spec fn files_to_remove(files: Seq<FileInfos>, wanted: Seq<Seq<char>>, n: nat) -> Seq<
    Seq<char>,
>
    decreases n,
{
    if n == 0 {
        Seq::empty()
    } else {
        let rest = files_to_remove(files, wanted, (n - 1) as nat);
        if !wanted.contains(files[n - 1].filename@) {
            rest.push(files[n - 1].filepath@)
        } else {
            rest
        }
    }
}

/// What keeping the exported fonts in line with a design system takes.
pub struct FontExportPlan {
    /// The fonts to download into the exported fonts directory.
    pub downloads: Vec<String>,
    /// The exported font files to delete.
    pub removals: Vec<String>,
}

fn contains_string(list: &Vec<String>, s: &String) -> (r: bool)
    ensures
        r == views(list@).contains(s@),
{
    let mut i: usize = 0;
    while i < list.len()
        invariant
            i <= list@.len(),
            forall|j: int| 0 <= j < i ==> (#[trigger] views(list@)[j]) != s@,
        decreases list.len() - i,
    {
        if list[i] == *s {
            assert(views(list@)[i as int] == s@);
            return true;
        }
        i = i + 1;
    }
    false
}

/// Which fonts to download and which exported font files to delete, given
/// the files of the exported fonts directory, the design system's fonts, and
/// the fonts that can be downloaded: a wanted font with no exported file is
/// downloaded when it can be; an exported file whose stem is not a wanted
/// font is deleted.
pub fn manage_font_export(font_files: &Vec<FileInfos>, fonts: &Fonts, downloadable: &Vec<String>) -> (r:
    FontExportPlan)
    ensures
        views(r.downloads@) == fonts_to_download(
            wanted_fonts(*fonts),
            exported_stems(font_files@),
            views(downloadable@),
            wanted_fonts(*fonts).len(),
        ),
        views(r.removals@) == files_to_remove(font_files@, wanted_fonts(*fonts), font_files@.len()),
{
    let mut wanted: Vec<String> = Vec::new();
    let mut i: usize = 0;
    while i < fonts.additionals.len()
        invariant
            i <= fonts.additionals@.len(),
            wanted@.len() == i,
            forall|k: int| 0 <= k < i ==> (#[trigger] wanted@[k])@ == fonts.additionals@[k].value@,
        decreases fonts.additionals.len() - i,
    {
        wanted.push(fonts.additionals[i].value.clone());
        i = i + 1;
    }
    wanted.push(fonts.default.clone());
    assert(views(wanted@) =~= wanted_fonts(*fonts));
    let mut stems: Vec<String> = Vec::new();
    let mut i: usize = 0;
    while i < font_files.len()
        invariant
            i <= font_files@.len(),
            stems@.len() == i,
            forall|k: int| 0 <= k < i ==> (#[trigger] stems@[k])@ == font_files@[k].filename@,
        decreases font_files.len() - i,
    {
        stems.push(font_files[i].filename.clone());
        i = i + 1;
    }
    assert(views(stems@) =~= exported_stems(font_files@));
    let mut downloads: Vec<String> = Vec::new();
    let mut i: usize = 0;
    while i < wanted.len()
        invariant
            i <= wanted@.len(),
            views(wanted@) == wanted_fonts(*fonts),
            views(stems@) == exported_stems(font_files@),
            views(downloads@) =~= fonts_to_download(
                views(wanted@),
                views(stems@),
                views(downloadable@),
                i as nat,
            ),
        decreases wanted.len() - i,
    {
        if !contains_string(&stems, &wanted[i]) && contains_string(downloadable, &wanted[i]) {
            downloads.push(wanted[i].clone());
        }
        i = i + 1;
    }
    let mut removals: Vec<String> = Vec::new();
    let mut i: usize = 0;
    while i < font_files.len()
        invariant
            i <= font_files@.len(),
            views(wanted@) == wanted_fonts(*fonts),
            views(removals@) =~= files_to_remove(font_files@, views(wanted@), i as nat),
        decreases font_files.len() - i,
    {
        if !contains_string(&wanted, &font_files[i].filename) {
            removals.push(font_files[i].filepath.clone());
        }
        i = i + 1;
    }
    FontExportPlan { downloads, removals }
}

/// The image extensions offered as presets.
pub open spec fn image_extensions() -> Seq<Seq<char>> {
    seq!["png"@, "jpg"@, "jpeg"@, "gif"@]
}

/// `p` without the `\\?\` prefix of a Windows verbatim path.
pub open spec fn without_verbatim_prefix(p: Seq<char>) -> Seq<char> {
    if p.len() >= 4 && p.subrange(0, 4) == seq!['\\', '\\', '?', '\\'] {
        p.subrange(4, p.len() as int)
    } else {
        p
    }
}

/// The image files below `n`, with the verbatim prefix removed, in order.
pub open spec fn image_files(paths: Seq<String>, n: nat) -> Seq<Seq<char>>
    decreases n,
{
    if n == 0 {
        Seq::empty()
    } else {
        let rest = image_files(paths, (n - 1) as nat);
        if extension_of(paths[n - 1]@) is Some && image_extensions().contains(
            ascii_lowercase(extension_of(paths[n - 1]@)->0),
        ) {
            rest.push(without_verbatim_prefix(paths[n - 1]@))
        } else {
            rest
        }
    }
}

/// The images among `canonical_paths` (the canonical paths of the files of
/// a presets directory): those whose extension, in lower case, is png, jpg,
/// jpeg or gif, without the verbatim prefix Windows gives canonical paths.
pub fn fetch_image_folder(canonical_paths: &Vec<String>) -> (r: Vec<String>)
    ensures
        views(r@) == image_files(canonical_paths@, canonical_paths@.len()),
{
    let mut allowed: Vec<String> = Vec::new();
    allowed.push(String::from_str("png"));
    allowed.push(String::from_str("jpg"));
    allowed.push(String::from_str("jpeg"));
    allowed.push(String::from_str("gif"));
    assert(views(allowed@) =~= image_extensions());
    let mut out: Vec<String> = Vec::new();
    let mut i: usize = 0;
    while i < canonical_paths.len()
        invariant
            i <= canonical_paths@.len(),
            views(allowed@) == image_extensions(),
            views(out@) =~= image_files(canonical_paths@, i as nat),
        decreases canonical_paths.len() - i,
    {
        let p = &canonical_paths[i];
        let (_, ext) = stem_and_extension(p.as_str());
        match ext {
            Some(e) => {
                let lower = to_ascii_lowercase(e.as_str());
                if contains_string(&allowed, &lower) {
                    out.push(strip_verbatim_prefix(p.as_str()));
                }
            },
            None => {},
        }
        i = i + 1;
    }
    out
}

fn strip_verbatim_prefix(p: &str) -> (r: String)
    ensures
        r@ == without_verbatim_prefix(p@),
{
    let n = p.unicode_len();
    if n >= 4 && p.get_char(0) == '\\' && p.get_char(1) == '\\' && p.get_char(2) == '?' && p.get_char(3)
        == '\\' {
        assert(p@.subrange(0, 4) =~= seq!['\\', '\\', '?', '\\']);
        String::from_str(p.substring_char(4, n))
    } else {
        assert(n >= 4 ==> p@.subrange(0, 4)[0] == p@[0] && p@.subrange(0, 4)[1] == p@[1]
            && p@.subrange(0, 4)[2] == p@[2] && p@.subrange(0, 4)[3] == p@[3]);
        String::from_str(p)
    }
}

/// The text of the first capture group of the leftmost match of `pattern`
/// in `text`; none when the pattern is invalid, nothing matches, or the
/// group took no part in the match.
pub uninterp spec fn first_capture(pattern: Seq<char>, text: Seq<char>) -> Option<Seq<char>>;

/// Relies on `regex::Regex::new` and `Regex::captures`: compiles `pattern`
/// and gives group 1 of the leftmost match in `text`.
#[verifier::external_body]
fn regex_first_capture(pattern: &str, text: &str) -> (r: Option<String>)
    ensures
        r is None ==> first_capture(pattern@, text@) is None,
        r is Some ==> first_capture(pattern@, text@) == Some(r->0@),
{
    let re = regex::Regex::new(pattern).ok()?;
    re.captures(text).and_then(|c| c.get(1)).map(|m| m.as_str().to_string())
}

/// The pattern of a font file link in a Google Fonts stylesheet.
pub open spec fn font_url_pattern() -> Seq<char> {
    "url\\((https://fonts\\.gstatic\\.com/[^)]+\\.(woff2|woff|ttf))\\)"@
}

/// `name` with each space turned into a plus sign.
pub open spec fn plus_for_spaces(name: Seq<char>) -> Seq<char> {
    Seq::new(name.len(), |i: int| if name[i] == ' ' { '+' } else { name[i] })
}

/// The Google Fonts stylesheet address of the font family `font_name`.
pub fn google_font_css_url(font_name: &str) -> (r: String)
    ensures
        r@ == "https://fonts.googleapis.com/css2?family="@ + plus_for_spaces(font_name@)
            + "&display=swap"@,
{
    let n = font_name.unicode_len();
    let mut family = String::new();
    let mut i: usize = 0;
    while i < n
        invariant
            n == font_name@.len(),
            i <= n,
            family@ =~= plus_for_spaces(font_name@).subrange(0, i as int),
        decreases n - i,
    {
        let c = font_name.get_char(i);
        if c == ' ' {
            proof {
                reveal_strlit("+");
            }
            family.append("+");
        } else {
            family.append(font_name.substring_char(i, i + 1));
        }
        assert(family@ =~= plus_for_spaces(font_name@).subrange(0, i + 1));
        i = i + 1;
    }
    assert(plus_for_spaces(font_name@).subrange(0, n as int) =~= plus_for_spaces(font_name@));
    let mut url = String::from_str("https://fonts.googleapis.com/css2?family=");
    url.append(family.as_str());
    url.append("&display=swap");
    url
}

/// A font file to download: where from, and the file name to save it as.
pub struct FontDownload {
    pub url: String,
    pub filename: String,
}

/// The font file that a Google Fonts stylesheet links for `font_name`: the
/// first gstatic link to a woff2, woff or ttf file, saved as the font name
/// with the link's extension (`font` when it has none).
pub fn google_font_file(font_name: &str, css: &str) -> (r: Option<FontDownload>)
    ensures
        r is None <==> first_capture(font_url_pattern(), css@) is None,
        r is Some ==> ({
            let url = first_capture(font_url_pattern(), css@)->0;
            &&& r->0.url@ == url
            &&& r->0.filename@ == font_name@ + seq!['.'] + (if extension_of(url) is Some {
                extension_of(url)->0
            } else {
                "font"@
            })
        }),
{
    let url = match regex_first_capture(
        "url\\((https://fonts\\.gstatic\\.com/[^)]+\\.(woff2|woff|ttf))\\)",
        css,
    ) {
        None => {
            return None;
        },
        Some(u) => u,
    };
    proof {
        reveal_strlit(".");
    }
    let (_, ext) = stem_and_extension(url.as_str());
    let mut filename = String::from_str(font_name);
    filename.append(".");
    match ext {
        Some(e) => filename.append(e.as_str()),
        None => filename.append("font"),
    }
    Some(FontDownload { url, filename })
}

} // verus!
