use vstd::prelude::*;
use vstd::string::*;

verus! {

/// One theme file: where it is, and the name shown for it.
pub struct ThemeEntry {
    pub path: String,
    pub name: String,
}

/// The abstract value of a theme entry.
pub struct ThemeModel {
    pub path: Seq<char>,
    pub name: Seq<char>,
}

impl View for ThemeEntry {
    type V = ThemeModel;

    open spec fn view(&self) -> ThemeModel {
        ThemeModel { path: self.path@, name: self.name@ }
    }
}

/// The largest position `i` with `0 < i < n` that holds a dot, or 0 if none does.
pub open spec fn last_dot_below(name: Seq<char>, n: int) -> int
    decreases n,
{
    if n <= 1 {
        0
    } else if name[n - 1] == '.' {
        n - 1
    } else {
        last_dot_below(name, n - 1)
    }
}

/// Where a file name splits into stem and extension: at its last dot, unless
/// that dot is the first character (`.profile`) or the name is `..`.
pub open spec fn split_point(name: Seq<char>) -> Option<int> {
    let d = last_dot_below(name, name.len() as int);
    if name == ".."@ || d == 0 {
        None
    } else {
        Some(d)
    }
}

/// The extension of a file name, without its dot.
pub open spec fn extension_of(name: Seq<char>) -> Option<Seq<char>> {
    match split_point(name) {
        Some(d) => Some(name.subrange(d + 1, name.len() as int)),
        None => None,
    }
}

/// The file name without its extension.
pub open spec fn stem_of(name: Seq<char>) -> Seq<char> {
    match split_point(name) {
        Some(d) => name.subrange(0, d),
        None => name,
    }
}

/// A file is a theme when its extension is exactly `toml`; a name without
/// an extension is no theme.
pub open spec fn is_theme_name(name: Seq<char>) -> bool {
    extension_of(name) == Some("toml"@)
}

proof fn lemma_last_dot_bounds(name: Seq<char>, n: int)
    requires
        n <= name.len(),
    ensures
        0 <= last_dot_below(name, n),
        last_dot_below(name, n) < n || last_dot_below(name, n) == 0,
        last_dot_below(name, n) > 0 ==> name[last_dot_below(name, n)] == '.',
    decreases n,
{
    if n > 1 && name[n - 1] != '.' {
        lemma_last_dot_bounds(name, n - 1);
    }
}

/// Finds where `name` splits into stem and extension.
fn split_index(name: &str) -> (r: Option<usize>)
    ensures
        r matches Some(d) ==> split_point(name@) == Some(d as int) && 0 < d < name@.len(),
        r is None ==> split_point(name@) is None,
{
    let n = name.unicode_len();
    let mut d: usize = 0;
    let mut i: usize = 1;
    while i < n
        invariant
            n == name@.len(),
            1 <= i,
            i <= n || i == 1,
            d as int == last_dot_below(name@, i as int),
        decreases n - i,
    {
        if name.get_char(i) == '.' {
            d = i;
        }
        i += 1;
    }
    assert(d as int == last_dot_below(name@, name@.len() as int));
    let is_parent = String::from_str(name) == String::from_str("..");
    assert(is_parent == (name@ == ".."@));
    proof {
        lemma_last_dot_bounds(name@, n as int);
    }
    if is_parent || d == 0 {
        None
    } else {
        Some(d)
    }
}

/// Whether a file name carries the theme extension `toml`.
pub fn is_theme_file(name: &str) -> (r: bool)
    ensures
        r == is_theme_name(name@),
{
    match split_index(name) {
        Some(d) => {
            let n = name.unicode_len();
            let ext = name.substring_char(d + 1, n);
            String::from_str(ext) == String::from_str("toml")
        },
        None => false,
    }
}

/// The display name of a theme file: its name without the extension.
pub fn theme_name(name: &str) -> (r: String)
    ensures
        r@ == stem_of(name@),
{
    match split_index(name) {
        Some(d) => {
            String::from_str(name.substring_char(0, d))
        },
        None => String::from_str(name),
    }
}

/// The position just after the last `/` among the first `n` characters of a
/// path, or 0 if there is none.
pub open spec fn name_start(path: Seq<char>, n: int) -> int
    decreases n,
{
    if n <= 0 {
        0
    } else if path[n - 1] == '/' {
        n
    } else {
        name_start(path, n - 1)
    }
}

proof fn lemma_name_start_bounds(path: Seq<char>, n: int)
    requires
        0 <= n <= path.len(),
    ensures
        0 <= name_start(path, n) <= n,
    decreases n,
{
    if n > 0 && path[n - 1] != '/' {
        lemma_name_start_bounds(path, n - 1);
    }
}

/// The length of the first `n` characters of a path once trailing
/// separators and trailing `.` components (`a/b/`, `a/b/.`) are dropped.
pub open spec fn trimmed_len(path: Seq<char>, n: int) -> int
    decreases n,
{
    if n <= 0 {
        0
    } else if path[n - 1] == '/' {
        trimmed_len(path, n - 1)
    } else if path[n - 1] == '.' && n >= 2 && path[n - 2] == '/' {
        trimmed_len(path, n - 1)
    } else {
        n
    }
}

/// The last component of a `/`-separated path, after trailing separators
/// and `.` components are dropped; none where that is empty (the empty path,
/// the root), `.` or `..`.
pub open spec fn file_name_of(path: Seq<char>) -> Option<Seq<char>> {
    let e = trimmed_len(path, path.len() as int);
    let f = path.subrange(name_start(path, e), e);
    if f.len() == 0 || f == "."@ || f == ".."@ {
        None
    } else {
        Some(f)
    }
}

/// The name shown for a theme path: the stem of its file name, or the whole
/// path where it has no file name.
pub open spec fn display_name_of(path: Seq<char>) -> Seq<char> {
    match file_name_of(path) {
        Some(f) => stem_of(f),
        None => path,
    }
}

/// The name shown for a theme file: its file name without the extension,
/// falling back to the path itself when it names no file.
pub fn format_theme(theme_path: &str) -> (r: String)
    ensures
        r@ == display_name_of(theme_path@),
{
    let n = theme_path.unicode_len();
    let mut e: usize = n;
    let mut trimmed = false;
    while e > 0 && !trimmed
        invariant
            n == theme_path@.len(),
            e <= n,
            trimmed_len(theme_path@, e as int) == trimmed_len(theme_path@, n as int),
            trimmed ==> trimmed_len(theme_path@, e as int) == e,
        decreases 2 * e + if trimmed { 0int } else { 1int },
    {
        let c = theme_path.get_char(e - 1);
        let after_separator = e >= 2 && theme_path.get_char(e - 2) == '/';
        if c == '/' || (c == '.' && after_separator) {
            e = e - 1;
        } else {
            trimmed = true;
        }
    }
    assert(trimmed_len(theme_path@, e as int) == e);
    let mut start: usize = 0;
    let mut i: usize = 0;
    while i < e
        invariant
            n == theme_path@.len(),
            e <= n,
            i <= e,
            start as int == name_start(theme_path@, i as int),
        decreases e - i,
    {
        if theme_path.get_char(i) == '/' {
            start = i + 1;
        }
        i += 1;
    }
    proof {
        lemma_name_start_bounds(theme_path@, e as int);
    }
    let file = theme_path.substring_char(start, e);
    let f = String::from_str(file);
    if start == e || f == String::from_str(".") || f == String::from_str("..") {
        String::from_str(theme_path)
    } else {
        theme_name(file)
    }
}

/// The theme entries among the files `names` of directory `dir`, in the
/// order of the listing.
pub open spec fn catalog_of(dir: Seq<char>, names: Seq<Seq<char>>) -> Seq<ThemeModel>
    decreases names.len(),
{
    if names.len() == 0 {
        Seq::empty()
    } else {
        let earlier = catalog_of(dir, names.drop_last());
        let name = names.last();
        if is_theme_name(name) {
            earlier.push(ThemeModel { path: dir + "/"@ + name, name: stem_of(name) })
        } else {
            earlier
        }
    }
}

/// The views of a sequence of theme entries.
pub open spec fn entries_view(v: Seq<ThemeEntry>) -> Seq<ThemeModel> {
    v.map_values(|e: ThemeEntry| e@)
}

/// Builds the theme catalog from the file names listed in `themes_dir`:
/// the files with extension `toml`, in listing order, each with its path and
/// its name without the extension. Other files, extensionless ones
/// included, are left out.
pub fn get_themes(themes_dir: &str, file_names: &Vec<String>) -> (r: Vec<ThemeEntry>)
    ensures
        entries_view(r@) == catalog_of(themes_dir@, file_names@.map_values(|s: String| s@)),
{
    let ghost names = file_names@.map_values(|s: String| s@);
    let mut out: Vec<ThemeEntry> = Vec::new();
    let mut i: usize = 0;
    while i < file_names.len()
        invariant
            names == file_names@.map_values(|s: String| s@),
            i <= file_names@.len(),
            entries_view(out@) == catalog_of(themes_dir@, names.subrange(0, i as int)),
        decreases file_names@.len() - i,
    {
        let name = file_names[i].as_str();
        proof {
            assert(names.subrange(0, i + 1).drop_last() =~= names.subrange(0, i as int));
            assert(names.subrange(0, i + 1).last() == name@);
        }
        if is_theme_file(name) {
            let path = String::from_str(themes_dir).concat("/").concat(name);
            let entry = ThemeEntry { path, name: theme_name(name) };
            let ghost before = out@;
            out.push(entry);
            proof {
                assert(entries_view(out@) =~= entries_view(before).push(entry@));
            }
        }
        i += 1;
    }
    proof {
        assert(names.subrange(0, i as int) =~= names);
    }
    out
}

} // verus!
