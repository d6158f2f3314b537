//! Paths as strings in Unix form ('/' is the separator), read by std's
//! component rules: joining, file names, extensions, and the choice of a
//! free name in a directory. Callers on Windows hand paths over with their
//! separators written as '/'.
use vstd::prelude::*;
use vstd::set_lib::{lemma_len_subset, lemma_int_range, lemma_map_size, set_int_range};

verus! {

/// The character of one decimal digit.
pub open spec fn digit_char(d: nat) -> char {
    if d == 0 {
        '0'
    } else if d == 1 {
        '1'
    } else if d == 2 {
        '2'
    } else if d == 3 {
        '3'
    } else if d == 4 {
        '4'
    } else if d == 5 {
        '5'
    } else if d == 6 {
        '6'
    } else if d == 7 {
        '7'
    } else if d == 8 {
        '8'
    } else {
        '9'
    }
}

/// The decimal digits of `n`, most significant first, with no leading zero.
pub open spec fn decimal(n: nat) -> Seq<char>
    decreases n,
{
    if n < 10 {
        seq![digit_char(n)]
    } else {
        decimal(n / 10) + seq![digit_char(n % 10)]
    }
}

/// `name` appended to `dir` as `PathBuf::push` does on Unix: an absolute
/// `name` replaces `dir`; otherwise one separator goes between them, unless
/// `dir` is empty or already ends with one.
pub open spec fn join(dir: Seq<char>, name: Seq<char>) -> Seq<char> {
    if name.len() > 0 && name[0] == '/' {
        name
    } else if dir.len() == 0 {
        name
    } else if dir.last() == '/' {
        dir + name
    } else {
        dir + seq!['/'] + name
    }
}

/// `name` with each space turned into a dash.
pub open spec fn sanitized(name: Seq<char>) -> Seq<char> {
    Seq::new(name.len(), |i: int| if name[i] == ' ' { '-' } else { name[i] })
}

/// The index of the last `c` in `s`, or -1.
pub open spec fn last_index_of(s: Seq<char>, c: char) -> int
    decreases s.len(),
{
    if s.len() == 0 {
        -1
    } else if s.last() == c {
        s.len() - 1
    } else {
        last_index_of(s.drop_last(), c)
    }
}

/// `p` without its trailing separators and trailing `.` components, which
/// std's component parsing skips; a lone root separator stays.
pub open spec fn trim_end(p: Seq<char>) -> Seq<char>
    decreases p.len(),
{
    if p.len() > 1 && p.last() == '/' {
        trim_end(p.drop_last())
    } else if p.len() >= 2 && p.last() == '.' && p[p.len() - 2] == '/' {
        trim_end(p.drop_last())
    } else {
        p
    }
}

/// Where the last segment of `t` starts: after its last separator.
pub open spec fn segment_start(t: Seq<char>) -> int {
    last_index_of(t, '/') + 1
}

/// Where the stem of the last segment of `t` ends: at its last dot, unless
/// the segment has none or starts with it.
pub open spec fn segment_stem_end(t: Seq<char>) -> int {
    if last_index_of(t, '.') > segment_start(t) {
        last_index_of(t, '.')
    } else {
        t.len() as int
    }
}

/// Where the last component of `p` starts.
pub open spec fn name_start(p: Seq<char>) -> int {
    segment_start(trim_end(p))
}

/// The last component of `p`: what follows the last separator once trailing
/// separators and `.` components are skipped.
pub open spec fn last_component(p: Seq<char>) -> Seq<char> {
    trim_end(p).subrange(name_start(p), trim_end(p).len() as int)
}

/// A path has a file name when its last component is a name: neither empty
/// (a root or an empty path), nor `.`, nor `..`.
pub open spec fn has_file_name(p: Seq<char>) -> bool {
    &&& last_component(p).len() > 0
    &&& last_component(p) != seq!['.']
    &&& last_component(p) != seq!['.', '.']
}

/// Where the stem of the file name of `p` ends.
pub open spec fn stem_end(p: Seq<char>) -> int {
    segment_stem_end(trim_end(p))
}

/// `p` with the extension of its file name replaced by `ext` (removed when
/// `ext` is empty), as `PathBuf::set_extension` does: the path is cut right
/// after the stem; unchanged when `p` has no file name.
pub open spec fn with_extension(p: Seq<char>, ext: Seq<char>) -> Seq<char> {
    if !has_file_name(p) {
        p
    } else if ext.len() == 0 {
        trim_end(p).subrange(0, stem_end(p))
    } else {
        trim_end(p).subrange(0, stem_end(p)) + seq!['.'] + ext
    }
}

/// The extension of the file name of `p`, when it has one.
pub open spec fn extension_of(p: Seq<char>) -> Option<Seq<char>> {
    if has_file_name(p) && stem_end(p) < trim_end(p).len() {
        Some(trim_end(p).subrange(stem_end(p) + 1, trim_end(p).len() as int))
    } else {
        None
    }
}

/// The stem of the file name of `p`: the name without its extension.
pub open spec fn stem_of(p: Seq<char>) -> Option<Seq<char>> {
    if has_file_name(p) {
        Some(trim_end(p).subrange(name_start(p), stem_end(p)))
    } else {
        None
    }
}

/// Whether some path of `existing` is `p`.
pub open spec fn taken(existing: Seq<String>, p: Seq<char>) -> bool {
    exists|i: int| 0 <= i < existing.len() && (#[trigger] existing[i])@ == p
}

/// The `i`-th alternative of a taken name: `prefix`, the number, `suffix`.
pub open spec fn numbered(prefix: Seq<char>, i: nat, suffix: Seq<char>) -> Seq<char> {
    prefix + decimal(i) + suffix
}

/// `i` is the first number from 1 on whose alternative is not taken.
pub open spec fn first_free(existing: Seq<String>, prefix: Seq<char>, suffix: Seq<char>, i: nat) -> bool {
    &&& i >= 1
    &&& !taken(existing, numbered(prefix, i, suffix))
    &&& forall|j: nat| 1 <= j < i ==> taken(existing, #[trigger] numbered(prefix, j, suffix))
}

/// `r` is `candidate` when that is free, else its first free alternative.
pub open spec fn free_path(
    existing: Seq<String>,
    candidate: Seq<char>,
    prefix: Seq<char>,
    suffix: Seq<char>,
    r: Seq<char>,
) -> bool {
    if !taken(existing, candidate) {
        r == candidate
    } else {
        exists|i: nat| first_free(existing, prefix, suffix, i) && r == numbered(prefix, i, suffix)
    }
}

proof fn lemma_decimal_nonempty(n: nat)
    ensures
        decimal(n).len() >= 1,
        n < 10 <==> decimal(n).len() == 1,
    decreases n,
{
    if n >= 10 {
        lemma_decimal_nonempty(n / 10);
    }
}

proof fn lemma_decimal_injective(a: nat, b: nat)
    requires
        decimal(a) == decimal(b),
    ensures
        a == b,
    decreases a,
{
    lemma_decimal_nonempty(a);
    lemma_decimal_nonempty(b);
    if a >= 10 && b >= 10 {
        let da = decimal(a / 10);
        let db = decimal(b / 10);
        assert(decimal(a).drop_last() =~= da);
        assert(decimal(b).drop_last() =~= db);
        assert(decimal(a).last() == digit_char(a % 10));
        assert(decimal(b).last() == digit_char(b % 10));
        lemma_decimal_injective(a / 10, b / 10);
    } else if a < 10 && b < 10 {
        assert(decimal(a)[0] == digit_char(a));
        assert(decimal(b)[0] == digit_char(b));
    }
}

proof fn lemma_numbered_injective(prefix: Seq<char>, a: nat, b: nat, suffix: Seq<char>)
    requires
        numbered(prefix, a, suffix) == numbered(prefix, b, suffix),
    ensures
        a == b,
{
    let na = numbered(prefix, a, suffix);
    let nb = numbered(prefix, b, suffix);
    assert(na.len() == nb.len());
    assert(decimal(a).len() == decimal(b).len());
    let lo = prefix.len() as int;
    let hi = lo + decimal(a).len();
    assert(na.subrange(lo, hi) =~= decimal(a));
    assert(nb.subrange(lo, hi) =~= decimal(b));
    lemma_decimal_injective(a, b);
}

/// When the alternatives 1 to `m` are all taken, `existing` has at least `m`
/// paths.
proof fn lemma_taken_bound(existing: Seq<String>, prefix: Seq<char>, suffix: Seq<char>, m: nat)
    requires
        forall|j: nat| 1 <= j <= m ==> taken(existing, #[trigger] numbered(prefix, j, suffix)),
    ensures
        m <= existing.len(),
{
    let views = existing.map_values(|s: String| s@);
    let f = |j: int| numbered(prefix, j as nat, suffix);
    let x = set_int_range(1, m as int + 1);
    lemma_int_range(1, m as int + 1);
    let y = x.map(f);
    assert forall|a: int, b: int| x.contains(a) && x.contains(b) && #[trigger] f(a) == #[trigger] f(b) implies a == b by {
        lemma_numbered_injective(prefix, a as nat, b as nat, suffix);
    }
    lemma_map_size(x, y, f);
    assert forall|p: Seq<char>| y.contains(p) implies views.to_set().contains(p) by {
        let j = choose|j: int| x.contains(j) && f(j) == p;
        assert(taken(existing, numbered(prefix, j as nat, suffix)));
        let i = choose|i: int| 0 <= i < existing.len() && (#[trigger] existing[i])@ == numbered(prefix, j as nat, suffix);
        assert(views[i] == p);
    }
    views.lemma_cardinality_of_set();
    lemma_len_subset(y, views.to_set());
}

fn digit_str(d: usize) -> (r: &'static str)
    requires
        d < 10,
    ensures
        r@ == seq![digit_char(d as nat)],
{
    proof {
        reveal_strlit("0");
        reveal_strlit("1");
        reveal_strlit("2");
        reveal_strlit("3");
        reveal_strlit("4");
        reveal_strlit("5");
        reveal_strlit("6");
        reveal_strlit("7");
        reveal_strlit("8");
        reveal_strlit("9");
    }
    if d == 0 {
        "0"
    } else if d == 1 {
        "1"
    } else if d == 2 {
        "2"
    } else if d == 3 {
        "3"
    } else if d == 4 {
        "4"
    } else if d == 5 {
        "5"
    } else if d == 6 {
        "6"
    } else if d == 7 {
        "7"
    } else if d == 8 {
        "8"
    } else {
        "9"
    }
}

/// The decimal form of `n`.
pub fn decimal_string(n: usize) -> (r: String)
    ensures
        r@ == decimal(n as nat),
    decreases n,
{
    if n < 10 {
        String::from_str(digit_str(n))
    } else {
        let mut s = decimal_string(n / 10);
        s.append(digit_str(n % 10));
        s
    }
}

/// `dir` and `name` joined by one separator.
pub fn join_path(dir: &str, name: &str) -> (r: String)
    ensures
        r@ == join(dir@, name@),
{
    proof {
        reveal_strlit("/");
    }
    if name.unicode_len() > 0 && name.get_char(0) == '/' {
        return String::from_str(name);
    }
    let n = dir.unicode_len();
    if n == 0 {
        String::from_str(name)
    } else if dir.get_char(n - 1) == '/' {
        let mut s = String::from_str(dir);
        s.append(name);
        s
    } else {
        let mut s = String::from_str(dir);
        s.append("/");
        s.append(name);
        s
    }
}

/// `name` with its spaces turned into dashes.
pub fn sanitize_filename(name: &str) -> (r: String)
    ensures
        r@ == sanitized(name@),
{
    proof {
        reveal_strlit("-");
    }
    let n = name.unicode_len();
    let mut out = String::new();
    let mut i: usize = 0;
    while i < n
        invariant
            n == name@.len(),
            i <= n,
            out@ =~= sanitized(name@).subrange(0, i as int),
        decreases n - i,
    {
        let c = name.get_char(i);
        if c == ' ' {
            proof {
                reveal_strlit("-");
            }
            out.append("-");
        } else {
            out.append(name.substring_char(i, i + 1));
        }
        assert(sanitized(name@).subrange(0, i + 1) =~= sanitized(name@).subrange(0, i as int).push(
            if c == ' ' { '-' } else { c },
        ));
        assert(out@ =~= sanitized(name@).subrange(0, i + 1));
        i = i + 1;
    }
    assert(sanitized(name@).subrange(0, n as int) =~= sanitized(name@));
    out
}

/// The index of the last `c` in `s`, if any.
fn find_last(s: &str, c: char) -> (r: Option<usize>)
    ensures
        r is None ==> last_index_of(s@, c) == -1,
        r is Some ==> r->0 as int == last_index_of(s@, c) && (r->0 as int) < s@.len(),
        s@.len() <= usize::MAX,
{
    let n = s.unicode_len();
    let mut i: usize = n;
    assert(s@.subrange(0, n as int) =~= s@);
    while i > 0
        invariant
            n == s@.len(),
            i <= n,
            last_index_of(s@, c) == last_index_of(s@.subrange(0, i as int), c),
        decreases i,
    {
        if s.get_char(i - 1) == c {
            return Some(i - 1);
        }
        assert(s@.subrange(0, i as int).drop_last() =~= s@.subrange(0, i - 1));
        i = i - 1;
    }
    None
}

/// The length of `trim_end(p)`, a prefix of `p`.
fn trimmed_len(p: &str) -> (r: usize)
    ensures
        r <= p@.len(),
        trim_end(p@) == p@.subrange(0, r as int),
{
    let mut n = p.unicode_len();
    assert(p@.subrange(0, n as int) =~= p@);
    while (n > 1 && p.get_char(n - 1) == '/') || (n >= 2 && p.get_char(n - 1) == '.' && p.get_char(
        n - 2,
    ) == '/')
        invariant
            n <= p@.len(),
            trim_end(p@) == trim_end(p@.subrange(0, n as int)),
        decreases n,
    {
        assert(p@.subrange(0, n as int).drop_last() =~= p@.subrange(0, n - 1));
        n = n - 1;
    }
    n
}

/// Where the last segment of `t` starts.
fn find_segment_start(t: &str) -> (r: usize)
    ensures
        r as int == segment_start(t@),
        r <= t@.len(),
{
    proof {
        lemma_last_index_bounds(t@, '/');
    }
    match find_last(t, '/') {
        None => 0,
        Some(i) => i + 1,
    }
}

proof fn lemma_last_index_bounds(s: Seq<char>, c: char)
    ensures
        -1 <= last_index_of(s, c) < s.len(),
        last_index_of(s, c) >= 0 ==> s[last_index_of(s, c)] == c,
    decreases s.len(),
{
    if s.len() > 0 && s.last() != c {
        lemma_last_index_bounds(s.drop_last(), c);
    }
}

fn find_segment_stem_end(t: &str) -> (r: usize)
    ensures
        r as int == segment_stem_end(t@),
        r <= t@.len(),
{
    let start = find_segment_start(t);
    match find_last(t, '.') {
        Some(d) => {
            if d > start {
                d
            } else {
                t.unicode_len()
            }
        },
        None => t.unicode_len(),
    }
}

/// Whether `p` has a file name: a last component that is neither empty, nor
/// `.`, nor `..`.
pub fn path_has_file_name(p: &str) -> (r: bool)
    ensures
        r == has_file_name(p@),
{
    let t = p.substring_char(0, trimmed_len(p));
    let n = t.unicode_len();
    let start = find_segment_start(t);
    if start == n {
        return false;
    }
    if n - start == 1 && t.get_char(start) == '.' {
        assert(last_component(p@) =~= seq!['.']);
        return false;
    }
    if n - start == 2 && t.get_char(start) == '.' && t.get_char(start + 1) == '.' {
        assert(last_component(p@) =~= seq!['.', '.']);
        return false;
    }
    assert(last_component(p@).len() != 1 || last_component(p@)[0] != '.');
    assert(last_component(p@).len() != 2 || last_component(p@)[0] != '.' || last_component(p@)[1]
        != '.');
    true
}

/// The file name of `p`, when it has one.
pub fn file_name(p: &str) -> (r: Option<String>)
    ensures
        r is None <==> !has_file_name(p@),
        r is Some ==> r->0@ == last_component(p@),
{
    if !path_has_file_name(p) {
        return None;
    }
    let t = p.substring_char(0, trimmed_len(p));
    let n = t.unicode_len();
    let start = find_segment_start(t);
    Some(String::from_str(t.substring_char(start, n)))
}

/// `p` with the extension of its file name set to `ext`.
pub fn path_with_extension(p: &str, ext: &str) -> (r: String)
    ensures
        r@ == with_extension(p@, ext@),
{
    proof {
        reveal_strlit(".");
    }
    if !path_has_file_name(p) {
        return String::from_str(p);
    }
    let t = p.substring_char(0, trimmed_len(p));
    let end = find_segment_stem_end(t);
    let mut s = String::from_str(t.substring_char(0, end));
    if ext.unicode_len() > 0 {
        s.append(".");
        s.append(ext);
    }
    s
}

/// The stem and the extension of the file name of `p`.
pub fn stem_and_extension(p: &str) -> (r: (Option<String>, Option<String>))
    ensures
        r.0 is Some <==> stem_of(p@) is Some,
        r.0 is Some ==> r.0->0@ == stem_of(p@)->0,
        r.1 is Some <==> extension_of(p@) is Some,
        r.1 is Some ==> r.1->0@ == extension_of(p@)->0,
{
    if !path_has_file_name(p) {
        return (None, None);
    }
    let t = p.substring_char(0, trimmed_len(p));
    let n = t.unicode_len();
    let start = find_segment_start(t);
    let end = find_segment_stem_end(t);
    proof {
        lemma_last_index_bounds(t@, '.');
    }
    let stem = String::from_str(t.substring_char(start, end));
    if end < n {
        (Some(stem), Some(String::from_str(t.substring_char(end + 1, n))))
    } else {
        (Some(stem), None)
    }
}

/// Whether `p` is one of `existing`.
pub fn contains_path(existing: &Vec<String>, p: &str) -> (r: bool)
    ensures
        r == taken(existing@, p@),
{
    let target = String::from_str(p);
    let mut i: usize = 0;
    while i < existing.len()
        invariant
            i <= existing@.len(),
            target@ == p@,
            forall|j: int| 0 <= j < i ==> (#[trigger] existing@[j])@ != p@,
        decreases existing.len() - i,
    {
        if existing[i] == target {
            return true;
        }
        i = i + 1;
    }
    false
}

/// `candidate` when it is not in `existing`, else `prefix`, a number and
/// `suffix`, with the first number from 1 on that gives a path not in
/// `existing`.
fn first_free_path(existing: &Vec<String>, candidate: &str, prefix: &str, suffix: &str) -> (r: String)
    requires
        existing@.len() < usize::MAX,
    ensures
        free_path(existing@, candidate@, prefix@, suffix@, r@),
{
    if !contains_path(existing, candidate) {
        return String::from_str(candidate);
    }
    assert(taken(existing@, candidate@));
    let mut i: usize = 1;
    loop
        invariant
            1 <= i <= existing@.len() + 1,
            existing@.len() < usize::MAX,
            taken(existing@, candidate@),
            forall|j: nat| 1 <= j < i ==> taken(existing@, #[trigger] numbered(prefix@, j, suffix@)),
        decreases existing@.len() + 1 - i,
    {
        let mut name = String::from_str(prefix);
        let digits = decimal_string(i);
        name.append(digits.as_str());
        name.append(suffix);
        if !contains_path(existing, name.as_str()) {
            assert(name@ == numbered(prefix@, i as nat, suffix@));
            assert(first_free(existing@, prefix@, suffix@, i as nat));
            return name;
        }
        proof {
            lemma_taken_bound(existing@, prefix@, suffix@, i as nat);
        }
        i = i + 1;
    }
}

/// The path for `filename` (spaces turned into dashes) in `directory`: that
/// path itself when it is not in `existing`, else the path followed by
/// ` (i)` for the first `i` from 1 on that is not in `existing`.
pub fn compute_path(directory: &str, filename: &str, existing: &Vec<String>) -> (r: String)
    requires
        existing@.len() < usize::MAX,
    ensures
        free_path(
            existing@,
            join(directory@, sanitized(filename@)),
            join(directory@, sanitized(filename@)) + seq![' ', '('],
            seq![')'],
            r@,
        ),
{
    proof {
        reveal_strlit(" (");
        reveal_strlit(")");
    }
    let name = sanitize_filename(filename);
    let base = join_path(directory, name.as_str());
    let mut prefix = base.clone();
    prefix.append(" (");
    assert(prefix@ =~= base@ + seq![' ', '(']);
    assert(")"@ =~= seq![')']);
    first_free_path(existing, base.as_str(), prefix.as_str(), ")")
}

/// The path for `filename` (spaces turned into dashes) in `directory` with
/// its extension set to `extension`, when that is not in `existing`; else
/// the sanitized path followed by `-i.extension` for the first `i` from 1
/// on that is not in `existing`.
pub fn compute_path_with_extension(
    directory: &str,
    filename: &str,
    extension: &str,
    existing: &Vec<String>,
) -> (r: String)
    requires
        existing@.len() < usize::MAX,
    ensures
        free_path(
            existing@,
            with_extension(join(directory@, sanitized(filename@)), extension@),
            join(directory@, sanitized(filename@)) + seq!['-'],
            seq!['.'] + extension@,
            r@,
        ),
{
    proof {
        reveal_strlit("-");
        reveal_strlit(".");
    }
    let name = sanitize_filename(filename);
    let file_path = join_path(directory, name.as_str());
    let candidate = path_with_extension(file_path.as_str(), extension);
    let mut prefix = file_path.clone();
    prefix.append("-");
    let mut suffix = String::from_str(".");
    suffix.append(extension);
    assert(prefix@ =~= file_path@ + seq!['-']);
    assert(suffix@ =~= seq!['.'] + extension@);
    first_free_path(existing, candidate.as_str(), prefix.as_str(), suffix.as_str())
}

/// The path for `filename` (spaces turned into dashes) in `directory` with
/// its extension set to `extension`, whether or not it exists.
pub fn compute_path_with_extension_overwrite(directory: &str, filename: &str, extension: &str) -> (r:
    String)
    ensures
        r@ == with_extension(join(directory@, sanitized(filename@)), extension@),
{
    let name = sanitize_filename(filename);
    let file_path = join_path(directory, name.as_str());
    path_with_extension(file_path.as_str(), extension)
}

/// Whether the file name of `path` is `filename`.
pub fn filename_equals(path: &str, filename: &str) -> (r: bool)
    ensures
        r == (has_file_name(path@) && last_component(path@) == filename@),
{
    match file_name(path) {
        None => false,
        Some(name) => name == String::from_str(filename),
    }
}

/// `file` is `folder` or lies under it, component by component.
pub open spec fn within(folder: Seq<char>, file: Seq<char>) -> bool {
    ||| file == folder
    ||| (file.len() > folder.len() && file.subrange(0, folder.len() as int) == folder && (folder.len()
        > 0 && folder.last() == '/' || file[folder.len() as int] == '/'))
}

/// Whether `file` is `folder` or lies under it (both in the same canonical
/// form): a whole-component prefix test, so `/a/bc` is not under `/a/b`.
pub fn is_within(folder: &str, file: &str) -> (r: bool)
    ensures
        r == within(folder@, file@),
{
    let n = folder.unicode_len();
    let m = file.unicode_len();
    if m < n {
        return false;
    }
    let mut i: usize = 0;
    while i < n
        invariant
            n == folder@.len(),
            m == file@.len(),
            n <= m,
            i <= n,
            forall|k: int| 0 <= k < i ==> file@[k] == folder@[k],
        decreases n - i,
    {
        if file.get_char(i) != folder.get_char(i) {
            assert(file@.subrange(0, n as int)[i as int] != folder@[i as int]);
            return false;
        }
        i = i + 1;
    }
    assert(file@.subrange(0, n as int) =~= folder@);
    if m == n {
        assert(file@ =~= folder@);
        return true;
    }
    (n > 0 && folder.get_char(n - 1) == '/') || file.get_char(n) == '/'
}

} // verus!
