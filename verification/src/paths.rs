//! File system paths as text, under the rules of the platform the application runs on: the file
//! name at the end of a path, joining a component onto a folder, and the folders the application
//! falls back on.
use vstd::prelude::*;
use crate::text::{chars_of, push_char, push_text, string_of};

verus! {

broadcast use vstd::string::group_string_axioms;

/// The path rules of a platform.
#[derive(Clone, Copy, Debug, PartialEq, Eq, Structural)]
pub enum PathStyle {
    /// Only `/` separates components.
    Unix,
    /// Both `\` and `/` separate components (only `\` in a verbatim `\\?\` path), and a path may
    /// start with a prefix: a drive such as `C:`, a share `\\server\share`, a device `\\.\name`
    /// or a verbatim `\\?\` form.
    Windows,
}

/// Whether `c` separates path components under `style`.
pub open spec fn is_separator(c: char, style: PathStyle) -> bool {
    c == '/' || (style == PathStyle::Windows && c == '\\')
}

/// Whether `c` is an ASCII letter.
pub open spec fn is_ascii_letter(c: char) -> bool {
    (65 <= (c as u32) <= 90) || (97 <= (c as u32) <= 122)
}

/// Whether `p` starts with a drive prefix (a letter and `:`), which only Windows has.
pub open spec fn has_drive_prefix(p: Seq<char>, style: PathStyle) -> bool {
    style == PathStyle::Windows && p.len() >= 2 && is_ascii_letter(p[0]) && p[1] == ':'
}

/// Whether `c` separates components of a path: in a verbatim Windows path (one that starts with
/// `\\?\`) only `\` does.
pub open spec fn is_separator_in(c: char, style: PathStyle, verbatim: bool) -> bool {
    if verbatim {
        c == '\\'
    } else {
        is_separator(c, style)
    }
}

/// The length of the first component of `s`: the position of its first separator, or its
/// length when there is none.
pub open spec fn first_separator(s: Seq<char>, style: PathStyle, verbatim: bool) -> nat
    decreases s.len(),
{
    if s.len() == 0 {
        0
    } else if is_separator_in(s[0], style, verbatim) {
        0
    } else {
        1 + first_separator(s.drop_first(), style, verbatim)
    }
}

/// What follows the first component of `s` and the separator after it.
pub open spec fn after_first_component(s: Seq<char>, style: PathStyle, verbatim: bool) -> Seq<
    char,
> {
    let a = first_separator(s, style, verbatim);
    if a < s.len() {
        s.skip(a + 1int)
    } else {
        Seq::empty()
    }
}

/// The character at `i` as the Windows prefix parser reads it: among the first eight, `/` reads
/// as `\`.
pub open spec fn prefix_char(p: Seq<char>, i: int) -> char {
    if i < 8 && p[i] == '/' {
        '\\'
    } else {
        p[i]
    }
}

/// Whether `s` starts with an exact drive: a letter and `:`, then nothing or `\`.
pub open spec fn is_exact_drive(s: Seq<char>) -> bool {
    s.len() >= 2 && is_ascii_letter(s[0]) && s[1] == ':' && (s.len() == 2 || s[2] == '\\')
}

/// The prefix of a Windows path, as its length and whether it makes the path verbatim:
/// `\\?\UNC\server\share`, `\\?\C:` and `\\?\name` (verbatim, written with `\` up to the `?\`),
/// `\\.\device`, `\\server\share` (both names non-empty), `C:`, or none. Among the first eight
/// characters `/` counts as `\`; the names end at the next separator.
pub open spec fn windows_prefix(p: Seq<char>) -> (nat, bool) {
    if p.len() >= 2 && prefix_char(p, 0) == '\\' && prefix_char(p, 1) == '\\' {
        if p.len() >= 4 && prefix_char(p, 2) == '?' && prefix_char(p, 3) == '\\' && p[0] != '/'
            && p[1] != '/' && p[3] != '/' {
            if p.len() >= 8 && prefix_char(p, 4) == 'U' && prefix_char(p, 5) == 'N' && prefix_char(
                p,
                6,
            ) == 'C' && prefix_char(p, 7) == '\\' {
                let r = p.skip(8);
                let server = first_separator(r, PathStyle::Windows, true);
                let share = first_separator(
                    after_first_component(r, PathStyle::Windows, true),
                    PathStyle::Windows,
                    true,
                );
                (8 + server + (if share > 0 {
                    1 + share
                } else {
                    0
                }), true)
            } else if is_exact_drive(p.skip(4)) {
                (6, true)
            } else {
                (4 + first_separator(p.skip(4), PathStyle::Windows, true), true)
            }
        } else if p.len() >= 4 && prefix_char(p, 2) == '.' && prefix_char(p, 3) == '\\' {
            (4 + first_separator(p.skip(4), PathStyle::Windows, false), false)
        } else {
            let r = p.skip(2);
            let server = first_separator(r, PathStyle::Windows, false);
            let share = first_separator(
                after_first_component(r, PathStyle::Windows, false),
                PathStyle::Windows,
                false,
            );
            if server > 0 && share > 0 {
                (2 + server + 1 + share, false)
            } else {
                (0, false)
            }
        }
    } else if has_drive_prefix(p, PathStyle::Windows) {
        (2, false)
    } else {
        (0, false)
    }
}

/// The prefix of `p` under `style`, as its length and whether it makes the path verbatim.
pub open spec fn path_prefix(p: Seq<char>, style: PathStyle) -> (nat, bool) {
    if style == PathStyle::Windows {
        windows_prefix(p)
    } else {
        (0, false)
    }
}

/// The position of the last separator in `s`, or -1 when there is none.
pub open spec fn last_separator(s: Seq<char>, style: PathStyle, verbatim: bool) -> int
    decreases s.len(),
{
    if s.len() == 0 {
        -1
    } else if is_separator_in(s.last(), style, verbatim) {
        s.len() - 1
    } else {
        last_separator(s.drop_last(), style, verbatim)
    }
}

pub proof fn lemma_last_separator_range(s: Seq<char>, style: PathStyle, verbatim: bool)
    ensures
        -1 <= last_separator(s, style, verbatim) < s.len(),
    decreases s.len(),
{
    if s.len() > 0 && !is_separator_in(s.last(), style, verbatim) {
        lemma_last_separator_range(s.drop_last(), style, verbatim);
    }
}

proof fn lemma_last_separator(s: Seq<char>, style: PathStyle, verbatim: bool, k: int)
    requires
        -1 <= k < s.len(),
        k >= 0 ==> is_separator_in(s[k], style, verbatim),
        forall|j: int| k < j < s.len() ==> !is_separator_in(#[trigger] s[j], style, verbatim),
    ensures
        last_separator(s, style, verbatim) == k,
    decreases s.len(),
{
    if s.len() > 0 && k < s.len() - 1 {
        assert(!is_separator_in(s[s.len() - 1], style, verbatim));
        assert forall|j: int| k < j < s.drop_last().len() implies !is_separator_in(
            #[trigger] s.drop_last()[j],
            style,
            verbatim,
        ) by {
            assert(s.drop_last()[j] == s[j]);
        }
        lemma_last_separator(s.drop_last(), style, verbatim, k);
    }
}

proof fn lemma_first_separator(s: Seq<char>, style: PathStyle, verbatim: bool, k: int)
    requires
        0 <= k <= s.len(),
        k < s.len() ==> is_separator_in(s[k], style, verbatim),
        forall|j: int| 0 <= j < k ==> !is_separator_in(#[trigger] s[j], style, verbatim),
    ensures
        first_separator(s, style, verbatim) == k,
    decreases s.len(),
{
    if s.len() > 0 && k > 0 {
        assert(!is_separator_in(s[0], style, verbatim));
        assert forall|j: int| 0 <= j < k - 1 implies !is_separator_in(
            #[trigger] s.drop_first()[j],
            style,
            verbatim,
        ) by {
            assert(s.drop_first()[j] == s[j + 1]);
        }
        lemma_first_separator(s.drop_first(), style, verbatim, k - 1);
    }
}

pub proof fn lemma_first_separator_range(s: Seq<char>, style: PathStyle, verbatim: bool)
    ensures
        first_separator(s, style, verbatim) <= s.len(),
    decreases s.len(),
{
    if s.len() > 0 && !is_separator_in(s[0], style, verbatim) {
        lemma_first_separator_range(s.drop_first(), style, verbatim);
    }
}

/// The last normal component of `p` (a path after its prefix): empty components are passed
/// over, and so are `.` components outside verbatim paths; none when the last component is `..`
/// (or a verbatim `.`), or there is no component.
pub open spec fn last_component(p: Seq<char>, style: PathStyle, verbatim: bool) -> Option<
    Seq<char>,
>
    decreases p.len(),
{
    let k = last_separator(p, style, verbatim);
    let seg = p.skip(k + 1);
    if seg.len() == 0 || (seg == seq!['.'] && !verbatim) {
        if k < 0 {
            None
        } else {
            proof {
                lemma_last_separator_range(p, style, verbatim);
            }
            last_component(p.take(k), style, verbatim)
        }
    } else if seg == seq!['.', '.'] || seg == seq!['.'] {
        None
    } else {
        Some(seg)
    }
}

/// `Path::file_name` under `style`: the last normal component of what follows the prefix.
pub open spec fn path_file_name(p: Seq<char>, style: PathStyle) -> Option<Seq<char>> {
    let (n, verbatim) = path_prefix(p, style);
    last_component(p.skip(n as int), style, verbatim)
}

/// Whether `v[from..to]` holds exactly the characters of `lit`.
pub(crate) fn range_is(v: &Vec<char>, from: usize, to: usize, lit: &Vec<char>) -> (r: bool)
    requires
        from <= to <= v.len(),
    ensures
        r == (v@.subrange(from as int, to as int) == lit@),
{
    if to - from != lit.len() {
        return false;
    }
    let mut i: usize = 0;
    while i < lit.len()
        invariant
            from <= to <= v.len(),
            to - from == lit.len(),
            i <= lit.len(),
            forall|j: int| 0 <= j < i ==> v@[from + j] == lit@[j],
        decreases lit.len() - i,
    {
        if v[from + i] != lit[i] {
            assert(v@.subrange(from as int, to as int)[i as int] != lit@[i as int]);
            return false;
        }
        i += 1;
    }
    assert(v@.subrange(from as int, to as int) =~= lit@);
    true
}

/// The characters `v[from..to]` as a vector.
pub(crate) fn copy_range(v: &Vec<char>, from: usize, to: usize) -> (r: Vec<char>)
    requires
        from <= to <= v.len(),
    ensures
        r@ == v@.subrange(from as int, to as int),
{
    let mut r: Vec<char> = Vec::new();
    let mut i: usize = from;
    while i < to
        invariant
            from <= i <= to <= v.len(),
            r@ == v@.subrange(from as int, i as int),
        decreases to - i,
    {
        r.push(v[i]);
        i += 1;
        assert(r@ =~= v@.subrange(from as int, i as int));
    }
    r
}

/// Whether `c` separates path components under `style`, in a verbatim path or not.
pub fn separator_in(c: char, style: PathStyle, verbatim: bool) -> (r: bool)
    ensures
        r == is_separator_in(c, style, verbatim),
{
    if verbatim {
        c == '\\'
    } else {
        c == '/' || (style == PathStyle::Windows && c == '\\')
    }
}

/// Whether `c` separates path components under `style`.
pub fn separator(c: char, style: PathStyle) -> (r: bool)
    ensures
        r == is_separator(c, style),
{
    separator_in(c, style, false)
}

/// Whether `v` starts with a drive prefix under `style`.
fn drive_prefix(v: &Vec<char>, style: PathStyle) -> (r: bool)
    ensures
        r == has_drive_prefix(v@, style),
{
    style == PathStyle::Windows && v.len() >= 2 && letter_at(v, 0) && v[1] == ':'
}

/// The position in `v` of the first separator at or after `start`, or `v.len()`.
fn first_separator_from(v: &Vec<char>, start: usize, style: PathStyle, verbatim: bool) -> (k: usize)
    requires
        start <= v.len(),
    ensures
        start <= k <= v.len(),
        k - start == first_separator(v@.skip(start as int), style, verbatim),
{
    let mut k: usize = start;
    while k < v.len() && !separator_in(v[k], style, verbatim)
        invariant
            start <= k <= v.len(),
            forall|j: int| start <= j < k ==> !is_separator_in(#[trigger] v@[j], style, verbatim),
        decreases v.len() - k,
    {
        k += 1;
    }
    proof {
        let t = v@.skip(start as int);
        assert forall|j: int| 0 <= j < k - start implies !is_separator_in(
            #[trigger] t[j],
            style,
            verbatim,
        ) by {
            assert(t[j] == v@[start + j]);
        }
        if k < v.len() {
            assert(t[k - start] == v@[k as int]);
        }
        lemma_first_separator(t, style, verbatim, k - start);
    }
    k
}

/// The character at `i` as the Windows prefix parser reads it.
fn prefix_char_at(v: &Vec<char>, i: usize) -> (c: char)
    requires
        i < v.len(),
    ensures
        c == prefix_char(v@, i as int),
{
    if i < 8 && v[i] == '/' {
        '\\'
    } else {
        v[i]
    }
}

/// Whether `v[i]` is an ASCII letter.
fn letter_at(v: &Vec<char>, i: usize) -> (r: bool)
    requires
        i < v.len(),
    ensures
        r == is_ascii_letter(v@[i as int]),
{
    let c = v[i] as u32;
    (65 <= c && c <= 90) || (97 <= c && c <= 122)
}

/// The prefix of a Windows path: its length and whether it makes the path verbatim.
fn windows_prefix_of(v: &Vec<char>) -> (r: (usize, bool))
    ensures
        r.0 as nat == windows_prefix(v@).0,
        r.1 == windows_prefix(v@).1,
        r.0 <= v.len(),
{
    let n = v.len();
    let w = PathStyle::Windows;
    if n >= 2 && prefix_char_at(v, 0) == '\\' && prefix_char_at(v, 1) == '\\' {
        if n >= 4 && prefix_char_at(v, 2) == '?' && prefix_char_at(v, 3) == '\\' && v[0] != '/'
            && v[1] != '/' && v[3] != '/' {
            if n >= 8 && prefix_char_at(v, 4) == 'U' && prefix_char_at(v, 5) == 'N'
                && prefix_char_at(v, 6) == 'C' && prefix_char_at(v, 7) == '\\' {
                let a = first_separator_from(v, 8, w, true);
                let ghost r = v@.skip(8);
                if a < n {
                    assert(after_first_component(r, w, true) =~= v@.skip(a + 1));
                    let b = first_separator_from(v, a + 1, w, true);
                    if b > a + 1 {
                        (b, true)
                    } else {
                        (a, true)
                    }
                } else {
                    assert(after_first_component(r, w, true) =~= Seq::<char>::empty());
                    (a, true)
                }
            } else if n >= 6 && letter_at(v, 4) && v[5] == ':' && (n == 6 || v[6] == '\\') {
                (6, true)
            } else {
                assert(!is_exact_drive(v@.skip(4)) ==> !(n >= 6 && is_ascii_letter(v@[4])
                    && v@[5] == ':' && (n == 6 || v@[6] == '\\')));
                proof {
                    let t = v@.skip(4);
                    if n >= 6 {
                        assert(t[0] == v@[4]);
                        assert(t[1] == v@[5]);
                        if n > 6 {
                            assert(t[2] == v@[6]);
                        }
                    }
                }
                let a = first_separator_from(v, 4, w, true);
                (a, true)
            }
        } else if n >= 4 && prefix_char_at(v, 2) == '.' && prefix_char_at(v, 3) == '\\' {
            let a = first_separator_from(v, 4, w, false);
            (a, false)
        } else {
            let a = first_separator_from(v, 2, w, false);
            let ghost r = v@.skip(2);
            if a < n {
                assert(after_first_component(r, w, false) =~= v@.skip(a + 1));
                let b = first_separator_from(v, a + 1, w, false);
                if a > 2 && b > a + 1 {
                    (b, false)
                } else {
                    (0, false)
                }
            } else {
                assert(after_first_component(r, w, false) =~= Seq::<char>::empty());
                (0, false)
            }
        }
    } else if n >= 2 && letter_at(v, 0) && v[1] == ':' {
        (2, false)
    } else {
        (0, false)
    }
}

/// One past the position of the last separator in `v[start..end]` (as a position in `v`), or
/// `start` when there is none.
fn after_last_separator(v: &Vec<char>, start: usize, end: usize, style: PathStyle, verbatim: bool) -> (k:
    usize)
    requires
        start <= end <= v.len(),
    ensures
        start <= k <= end,
        k - start == last_separator(v@.subrange(start as int, end as int), style, verbatim) + 1,
{
    let mut k: usize = end;
    while k > start && !separator_in(v[k - 1], style, verbatim)
        invariant
            start <= k <= end <= v.len(),
            forall|j: int| k <= j < end ==> !is_separator_in(#[trigger] v@[j], style, verbatim),
        decreases k,
    {
        k -= 1;
    }
    proof {
        let t = v@.subrange(start as int, end as int);
        assert forall|j: int| k - start - 1 < j < t.len() implies !is_separator_in(
            #[trigger] t[j],
            style,
            verbatim,
        ) by {
            assert(t[j] == v@[start + j]);
        }
        if k > start {
            assert(t[k - start - 1] == v@[k - 1]);
        }
        lemma_last_separator(t, style, verbatim, k - start - 1);
    }
    k
}

/// The file name at the end of `path` under `style`, as `Path::file_name` finds it.
pub fn file_name_of(path: &str, style: PathStyle) -> (r: Option<String>)
    ensures
        r matches Some(n) ==> path_file_name(path@, style) == Some(n@),
        r is None ==> path_file_name(path@, style) is None,
{
    let v = chars_of(path);
    let dot: Vec<char> = vec!['.'];
    let dots: Vec<char> = vec!['.', '.'];
    let (start, verbatim) = if style == PathStyle::Windows {
        windows_prefix_of(&v)
    } else {
        (0, false)
    };
    let mut end: usize = v.len();
    assert(v@.skip(start as int) =~= v@.subrange(start as int, end as int));
    loop
        invariant
            start <= end <= v.len(),
            v@ == path@,
            dot@ == seq!['.'],
            dots@ == seq!['.', '.'],
            path_file_name(path@, style) == last_component(
                v@.subrange(start as int, end as int),
                style,
                verbatim,
            ),
        decreases end,
    {
        let k = after_last_separator(&v, start, end, style, verbatim);
        let ghost t = v@.subrange(start as int, end as int);
        assert(t.skip(k - start) =~= v@.subrange(k as int, end as int));
        let is_dot = range_is(&v, k, end, &dot);
        if k == end || (is_dot && !verbatim) {
            if k == start {
                return None;
            }
            assert(t.take(k - start - 1) =~= v@.subrange(start as int, k - 1));
            end = k - 1;
        } else if is_dot || range_is(&v, k, end, &dots) {
            return None;
        } else {
            let seg = copy_range(&v, k, end);
            let s = string_of(&seg);
            return Some(s);
        }
    }
}

/// The character that joins components under `style`.
pub open spec fn separator_char(style: PathStyle) -> char {
    if style == PathStyle::Windows {
        '\\'
    } else {
        '/'
    }
}

/// `PathBuf::push` of a relative component `name` onto `base`: a separator goes between them
/// unless `base` is empty, already ends with one, or is a bare drive.
pub open spec fn joined(base: Seq<char>, name: Seq<char>, style: PathStyle) -> Seq<char> {
    if base.len() == 0 || is_separator(base.last(), style) || (has_drive_prefix(base, style)
        && base.len() == 2) {
        base + name
    } else {
        base + seq![separator_char(style)] + name
    }
}

/// Appends the relative component `name` to the path `base`.
fn push_component(base: &mut String, name: &str, style: PathStyle)
    ensures
        final(base)@ == joined(old(base)@, name@, style),
{
    let v = chars_of(base.as_str());
    let needs_separator = !(v.len() == 0 || separator(v[v.len() - 1], style) || (drive_prefix(
        &v,
        style,
    ) && v.len() == 2));
    if needs_separator {
        let c = if style == PathStyle::Windows {
            '\\'
        } else {
            '/'
        };
        push_char(base, c);
    }
    push_text(base, name);
}

/// The folder of the current directory.
pub const CURRENT_FOLDER: &'static str = ".";

/// The folder under the home folder where downloads go when the platform names none.
pub const DOWNLOADS_FOLDER_NAME: &'static str = "Downloads";

/// The folder under the configuration folder that holds the application's files.
pub const APP_FOLDER_NAME: &'static str = "kotauri";

/// The file that holds the preferences.
pub const SETTINGS_FILE_NAME: &'static str = "settings.json";

/// Where downloads go: the platform's download folder; else `Downloads` in the home folder; else
/// the current folder.
pub open spec fn download_folder_path(
    download_dir: Option<Seq<char>>,
    home_dir: Option<Seq<char>>,
    style: PathStyle,
) -> Seq<char> {
    match download_dir {
        Some(d) => d,
        None => match home_dir {
            Some(h) => joined(h, DOWNLOADS_FOLDER_NAME@, style),
            None => CURRENT_FOLDER@,
        },
    }
}

/// Where downloads go, given the folders the platform reports.
pub fn download_folder(download_dir: Option<&str>, home_dir: Option<&str>, style: PathStyle) -> (r:
    String)
    ensures
        r@ == download_folder_path(
            match download_dir {
                Some(d) => Some(d@),
                None => None,
            },
            match home_dir {
                Some(h) => Some(h@),
                None => None,
            },
            style,
        ),
{
    match download_dir {
        Some(d) => d.to_owned(),
        None => match home_dir {
            Some(h) => {
                let mut r = h.to_owned();
                push_component(&mut r, DOWNLOADS_FOLDER_NAME, style);
                r
            },
            None => CURRENT_FOLDER.to_owned(),
        },
    }
}

/// The application's folder under the configuration folder (the current folder when the
/// platform names none).
pub open spec fn app_folder_path(config_dir: Option<Seq<char>>, style: PathStyle) -> Seq<char> {
    joined(
        match config_dir {
            Some(c) => c,
            None => CURRENT_FOLDER@,
        },
        APP_FOLDER_NAME@,
        style,
    )
}

/// The application's folder and the preferences file in it.
pub fn settings_location(config_dir: Option<&str>, style: PathStyle) -> (r: (String, String))
    ensures
        r.0@ == app_folder_path(
            match config_dir {
                Some(c) => Some(c@),
                None => None,
            },
            style,
        ),
        r.1@ == joined(r.0@, SETTINGS_FILE_NAME@, style),
{
    let mut folder = match config_dir {
        Some(c) => c.to_owned(),
        None => CURRENT_FOLDER.to_owned(),
    };
    push_component(&mut folder, APP_FOLDER_NAME, style);
    let mut file = folder.clone();
    push_component(&mut file, SETTINGS_FILE_NAME, style);
    (folder, file)
}

/// On Unix, the file name of `dir/name`, with or without a `/` after it, is `name`, for any name
/// without `/` other than `.` and `..`; a path that ends in `..` has no file name.
pub proof fn law_unix_file_name(dir: Seq<char>, name: Seq<char>)
    requires
        name.len() > 0,
        forall|i: int| 0 <= i < name.len() ==> #[trigger] name[i] != '/',
        name != seq!['.'],
        name != seq!['.', '.'],
    ensures
        path_file_name(dir + seq!['/'] + name, PathStyle::Unix) == Some(name),
        path_file_name(dir + seq!['/'] + name + seq!['/'], PathStyle::Unix) == Some(name),
        path_file_name(dir + seq!['/', '.', '.'], PathStyle::Unix) is None,
{
    let p = dir + seq!['/'] + name;
    let k = dir.len() as int;
    assert forall|j: int| k < j < p.len() implies !is_separator_in(
        #[trigger] p[j],
        PathStyle::Unix,
        false,
    ) by {
        assert(p[j] == name[j - k - 1]);
    }
    lemma_last_separator(p, PathStyle::Unix, false, k);
    assert(p.skip(k + 1) =~= name);
    assert(p.skip(0) =~= p);
    assert(last_component(p, PathStyle::Unix, false) == Some(name));
    let p2 = p + seq!['/'];
    lemma_last_separator(p2, PathStyle::Unix, false, p.len() as int);
    assert(p2.skip(p.len() + 1int) =~= Seq::<char>::empty());
    assert(p2.take(p.len() as int) =~= p);
    assert(p2.skip(0) =~= p2);
    let p3 = dir + seq!['/', '.', '.'];
    assert forall|j: int| k < j < p3.len() implies !is_separator_in(
        #[trigger] p3[j],
        PathStyle::Unix,
        false,
    ) by {}
    lemma_last_separator(p3, PathStyle::Unix, false, k);
    assert(p3.skip(k + 1) =~= seq!['.', '.']);
    assert(p3.skip(0) =~= p3);
}

/// Joining a component onto a folder puts one separator between them (`/` on Unix, `\` on
/// Windows), except after an empty folder, a folder that already ends with a separator, or a bare
/// Windows drive such as `C:`.
pub proof fn law_join_puts_one_separator(base: Seq<char>, name: Seq<char>)
    ensures
        joined(base, name, PathStyle::Unix) == (if base.len() == 0 || base.last() == '/' {
            base + name
        } else {
            base + seq!['/'] + name
        }),
        joined(base, name, PathStyle::Windows) == (if base.len() == 0 || base.last() == '/'
            || base.last() == '\\' || (base.len() == 2 && base[1] == ':' && ((65 <= (
        base[0] as u32) && (base[0] as u32) <= 90) || (97 <= (base[0] as u32) && (base[0] as u32)
            <= 122))) {
            base + name
        } else {
            base + seq!['\\'] + name
        }),
{
}

} // verus!
