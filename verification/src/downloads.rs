//! Where a download of the web view lands: the file name derived from the suggested destination
//! or the URL, cleaned of path characters, and the numbered variants tried when it is taken.
use vstd::prelude::*;
use crate::paths::{copy_range, file_name_of, path_file_name, PathStyle};
use crate::text::{
    chars_of, control_char, decimal, lemma_decimal_digits, has_prefix, is_control_char, is_white_space, push_char,
    push_decimal, push_text, starts_with_text, str_equals, string_of, white_space,
};

verus! {

broadcast use vstd::string::group_string_axioms;

/// The name used when no other can be derived.
pub const FALLBACK_FILE_NAME: &'static str = "download";

/// The longest file name, in characters, that the cleaning keeps.
pub const MAX_FILE_NAME_CHARS: usize = 180;

/// Characters that never stand in a file name: path separators and those Windows refuses.
pub open spec fn is_reserved_name_char(c: char) -> bool {
    c == '/' || c == '\\' || c == ':' || c == '*' || c == '?' || c == '"' || c == '<' || c == '>'
        || c == '|'
}

/// A reserved or control character becomes `_`; any other stays.
pub open spec fn cleaned_char(c: char) -> char {
    if is_reserved_name_char(c) || is_control_char(c) {
        '_'
    } else {
        c
    }
}

/// How many characters at the start of `s` satisfy `p`.
pub open spec fn leading_count(s: Seq<char>, p: spec_fn(char) -> bool) -> nat
    decreases s.len(),
{
    if s.len() > 0 && p(s[0]) {
        1 + leading_count(s.drop_first(), p)
    } else {
        0
    }
}

/// How many characters at the end of `s` satisfy `p`.
pub open spec fn trailing_count(s: Seq<char>, p: spec_fn(char) -> bool) -> nat
    decreases s.len(),
{
    if s.len() > 0 && p(s.last()) {
        1 + trailing_count(s.drop_last(), p)
    } else {
        0
    }
}

/// `str::trim`: `s` without the white space at either end.
pub open spec fn trimmed(s: Seq<char>) -> Seq<char> {
    let ws = |c: char| is_white_space(c);
    let t = s.take(s.len() - trailing_count(s, ws));
    t.skip(leading_count(t, ws) as int)
}

/// `s` without the dots at its start.
pub open spec fn without_leading_dots(s: Seq<char>) -> Seq<char> {
    s.skip(leading_count(s, |c: char| c == '.') as int)
}

/// The file name that `name` is cleaned into: reserved and control characters become `_`, white
/// space at both ends and then leading dots go, an empty result becomes `download`, and at most
/// the first 180 characters stay.
pub open spec fn sanitized_name(name: Seq<char>) -> Seq<char> {
    let t = without_leading_dots(trimmed(name.map_values(|c: char| cleaned_char(c))));
    if t.len() == 0 {
        FALLBACK_FILE_NAME@
    } else if t.len() <= MAX_FILE_NAME_CHARS {
        t
    } else {
        t.take(MAX_FILE_NAME_CHARS as int)
    }
}

proof fn lemma_leading_count(s: Seq<char>, p: spec_fn(char) -> bool, i: int)
    requires
        0 <= i <= s.len(),
        forall|j: int| 0 <= j < i ==> p(#[trigger] s[j]),
        i == s.len() || !p(s[i]),
    ensures
        leading_count(s, p) == i,
    decreases i,
{
    if i > 0 {
        assert forall|j: int| 0 <= j < i - 1 implies p(#[trigger] s.drop_first()[j]) by {
            assert(s.drop_first()[j] == s[j + 1]);
        }
        lemma_leading_count(s.drop_first(), p, i - 1);
    }
}

proof fn lemma_trailing_count(s: Seq<char>, p: spec_fn(char) -> bool, i: int)
    requires
        0 <= i <= s.len(),
        forall|j: int| s.len() - i <= j < s.len() ==> p(#[trigger] s[j]),
        i == s.len() || !p(s[s.len() - 1 - i]),
    ensures
        trailing_count(s, p) == i,
    decreases i,
{
    if i > 0 {
        assert(p(s[s.len() - 1]));
        assert forall|j: int| s.drop_last().len() - (i - 1) <= j < s.drop_last().len() implies p(
            #[trigger] s.drop_last()[j],
        ) by {
            assert(s.drop_last()[j] == s[j]);
        }
        lemma_trailing_count(s.drop_last(), p, i - 1);
    }
}

/// `c` with reserved and control characters replaced by `_`.
fn clean_char(c: char) -> (r: char)
    ensures
        r == cleaned_char(c),
{
    if c == '/' || c == '\\' || c == ':' || c == '*' || c == '?' || c == '"' || c == '<' || c
        == '>' || c == '|' || control_char(c) {
        '_'
    } else {
        c
    }
}

/// Cleans a suggested name into one that can be used as a file name.
pub fn sanitize_filename(name: &str) -> (r: String)
    ensures
        r@ == sanitized_name(name@),
{
    let v = chars_of(name);
    let ghost ws = |c: char| is_white_space(c);
    let ghost dot = |c: char| c == '.';
    let ghost m = name@.map_values(|c: char| cleaned_char(c));
    let mut c: Vec<char> = Vec::new();
    let mut i: usize = 0;
    while i < v.len()
        invariant
            i <= v.len(),
            v@ == name@,
            c@ == m.take(i as int),
            m == name@.map_values(|c: char| cleaned_char(c)),
        decreases v.len() - i,
    {
        c.push(clean_char(v[i]));
        i += 1;
        assert(c@ =~= m.take(i as int));
    }
    assert(m.take(i as int) == m);
    let mut end: usize = c.len();
    while end > 0 && white_space(c[end - 1])
        invariant
            end <= c.len(),
            forall|j: int| end <= j < c.len() ==> is_white_space(#[trigger] c@[j]),
        decreases end,
    {
        end -= 1;
    }
    proof {
        lemma_trailing_count(c@, ws, c.len() - end);
    }
    let ghost t = c@.take(end as int);
    let mut start: usize = 0;
    while start < end && white_space(c[start])
        invariant
            start <= end <= c.len(),
            forall|j: int| 0 <= j < start ==> is_white_space(#[trigger] c@[j]),
        decreases end - start,
    {
        start += 1;
    }
    proof {
        assert forall|j: int| 0 <= j < start implies ws(#[trigger] t[j]) by {
            assert(t[j] == c@[j]);
        }
        lemma_leading_count(t, ws, start as int);
    }
    let ghost u = t.skip(start as int);
    assert(u == trimmed(m));
    let mut first: usize = start;
    while first < end && c[first] == '.'
        invariant
            start <= first <= end <= c.len(),
            forall|j: int| start <= j < first ==> #[trigger] c@[j] == '.',
        decreases end - first,
    {
        first += 1;
    }
    proof {
        assert forall|j: int| 0 <= j < first - start implies dot(#[trigger] u[j]) by {
            assert(u[j] == c@[start + j]);
        }
        if first < end {
            assert(u[first - start] == c@[first as int]);
        }
        lemma_leading_count(u, dot, first - start);
    }
    let ghost w = u.skip(first - start);
    assert(w == without_leading_dots(u));
    assert(w =~= c@.subrange(first as int, end as int));
    if first == end {
        return FALLBACK_FILE_NAME.to_owned();
    }
    let stop: usize = if end - first > MAX_FILE_NAME_CHARS {
        first + MAX_FILE_NAME_CHARS
    } else {
        end
    };
    let mut r = String::new();
    let mut k: usize = first;
    while k < stop
        invariant
            first <= k <= stop <= end <= c.len(),
            r@ == c@.subrange(first as int, k as int),
        decreases stop - k,
    {
        push_char(&mut r, c[k]);
        k += 1;
        assert(r@ =~= c@.subrange(first as int, k as int));
    }
    assert(end - first > MAX_FILE_NAME_CHARS ==> w.take(MAX_FILE_NAME_CHARS as int) =~= c@.subrange(
        first as int,
        stop as int,
    ));
    r
}


/// The position of the last `c` in `s`, or -1 when there is none.
pub open spec fn last_index_of(s: Seq<char>, c: char) -> int
    decreases s.len(),
{
    if s.len() == 0 {
        -1
    } else if s.last() == c {
        s.len() - 1
    } else {
        last_index_of(s.drop_last(), c)
    }
}

/// The position of the first `c` in `s`, or `s.len()` when there is none.
pub open spec fn first_index_of(s: Seq<char>, c: char) -> int
    decreases s.len(),
{
    if s.len() == 0 {
        0
    } else if s[0] == c {
        0
    } else {
        1 + first_index_of(s.drop_first(), c)
    }
}

proof fn lemma_last_index_of(s: Seq<char>, c: char, k: int)
    requires
        -1 <= k < s.len(),
        k >= 0 ==> s[k] == c,
        forall|j: int| k < j < s.len() ==> #[trigger] s[j] != c,
    ensures
        last_index_of(s, c) == k,
    decreases s.len(),
{
    if s.len() > 0 && k < s.len() - 1 {
        assert(s[s.len() - 1] != c);
        assert forall|j: int| k < j < s.drop_last().len() implies #[trigger] s.drop_last()[j]
            != c by {
            assert(s.drop_last()[j] == s[j]);
        }
        lemma_last_index_of(s.drop_last(), c, k);
    }
}

pub proof fn lemma_last_index_range(s: Seq<char>, c: char)
    ensures
        -1 <= last_index_of(s, c) < s.len(),
        last_index_of(s, c) >= 0 ==> s[last_index_of(s, c)] == c,
    decreases s.len(),
{
    if s.len() > 0 && s.last() != c {
        lemma_last_index_range(s.drop_last(), c);
    }
}

proof fn lemma_first_index_of(s: Seq<char>, c: char, k: int)
    requires
        0 <= k <= s.len(),
        k < s.len() ==> s[k] == c,
        forall|j: int| 0 <= j < k ==> #[trigger] s[j] != c,
    ensures
        first_index_of(s, c) == k,
    decreases s.len(),
{
    if s.len() > 0 && k > 0 {
        assert(s[0] != c);
        assert forall|j: int| 0 <= j < k - 1 implies #[trigger] s.drop_first()[j] != c by {
            assert(s.drop_first()[j] == s[j + 1]);
        }
        lemma_first_index_of(s.drop_first(), c, k - 1);
    }
}

/// One past the position of the last `c` in `v[..end]`, or 0 when there is none.
fn after_last_in(v: &Vec<char>, end: usize, c: char) -> (k: usize)
    requires
        end <= v.len(),
    ensures
        k <= end,
        k as int == last_index_of(v@.take(end as int), c) + 1,
{
    let mut k: usize = end;
    while k > 0 && v[k - 1] != c
        invariant
            k <= end <= v.len(),
            forall|j: int| k <= j < end ==> #[trigger] v@[j] != c,
        decreases k,
    {
        k -= 1;
    }
    proof {
        let t = v@.take(end as int);
        assert forall|j: int| k - 1 < j < t.len() implies #[trigger] t[j] != c by {
            assert(t[j] == v@[j]);
        }
        lemma_last_index_of(t, c, k - 1);
    }
    k
}

/// The last `/`-separated segment of the URL's part before any `?`.
pub open spec fn url_last_segment(url: Seq<char>) -> Seq<char> {
    let b = url.take(first_index_of(url, '?'));
    b.skip(last_index_of(b, '/') + 1)
}

/// The name suggested for a download: the destination's file name when it is a real name
/// (neither `.` nor a `data:` URL), else the last segment of the URL's path, cleaned; `download`
/// when neither gives one.
pub open spec fn suggested_name(destination: Seq<char>, url: Seq<char>, style: PathStyle) -> Seq<
    char,
> {
    let f = path_file_name(destination, style);
    if f is Some && f->0.len() > 0 && f->0 != seq!['.'] && !has_prefix(f->0, "data:"@) {
        sanitized_name(f->0)
    } else if url_last_segment(url).len() > 0 {
        sanitized_name(url_last_segment(url))
    } else {
        FALLBACK_FILE_NAME@
    }
}

/// The file name for a download whose web view suggested the path `destination`, read under the
/// path rules `style` of the platform.
pub fn suggested_filename(destination: &str, url: &str, style: PathStyle) -> (r: String)
    ensures
        r@ == suggested_name(destination@, url@, style),
{
    proof {
        reveal_strlit(".");
        assert("."@ =~= seq!['.']);
    }
    if let Some(name) = file_name_of(destination, style) {
        let n = name.as_str();
        if !n.is_empty() && !str_equals(n, ".") && !starts_with_text(n, "data:") {
            return sanitize_filename(n);
        }
    }
    let v = chars_of(url);
    let mut q: usize = 0;
    while q < v.len() && v[q] != '?'
        invariant
            q <= v.len(),
            forall|j: int| 0 <= j < q ==> #[trigger] v@[j] != '?',
        decreases v.len() - q,
    {
        q += 1;
    }
    proof {
        lemma_first_index_of(v@, '?', q as int);
    }
    let k = after_last_in(&v, q, '/');
    assert(v@.take(q as int).skip(k as int) =~= v@.subrange(k as int, q as int));
    if k < q {
        let seg = string_of(&copy_range(&v, k, q));
        return sanitize_filename(seg.as_str());
    }
    FALLBACK_FILE_NAME.to_owned()
}


/// Whether `name` is one normal path component on any platform: not empty, without `/` or `\`,
/// neither `.` nor `..`.
pub open spec fn is_plain_file_name(name: Seq<char>) -> bool {
    &&& name.len() > 0
    &&& !name.contains('/')
    &&& !name.contains('\\')
    &&& name != seq!['.']
    &&& name != seq!['.', '.']
}

/// `Path::file_stem` of a plain file name: the part before its last dot, or the whole name when
/// the only dot, if any, is its first character.
pub open spec fn name_stem(name: Seq<char>) -> Seq<char> {
    let k = last_index_of(name, '.');
    if k <= 0 {
        name
    } else {
        name.take(k)
    }
}

/// `Path::extension` of a plain file name: the part after its last dot, unless that dot is its
/// first character.
pub open spec fn name_extension(name: Seq<char>) -> Option<Seq<char>> {
    let k = last_index_of(name, '.');
    if k <= 0 {
        None
    } else {
        Some(name.skip(k + 1))
    }
}

/// The largest number of a numbered variant `stem (n).ext`.
pub const MAX_NUMBERED_VARIANT: u32 = 10000;

/// The name tried for a download at attempt `n`: the name itself at 0, `stem (n).ext` up to
/// 10000, and `stem-n.ext` beyond. For a plain file name (the only kind a download gets, see
/// `law_suggested_name_is_safe`), stem and extension are those of `Path::file_stem` and
/// `Path::extension`.
pub open spec fn candidate_name(name: Seq<char>, n: nat) -> Seq<char> {
    let stem = name_stem(name);
    let ext = name_extension(name);
    if n == 0 {
        name
    } else if n <= MAX_NUMBERED_VARIANT {
        stem + seq![' ', '('] + decimal(n) + seq![')'] + (if ext is Some {
            seq!['.'] + ext->0
        } else {
            Seq::empty()
        })
    } else {
        stem + seq!['-'] + decimal(n) + seq!['.'] + (if ext is Some {
            ext->0
        } else {
            Seq::empty()
        })
    }
}

/// The name for a download at attempt `n`.
pub fn candidate_filename(name: &str, n: u32) -> (r: String)
    requires
        is_plain_file_name(name@),
    ensures
        r@ == candidate_name(name@, n as nat),
{
    if n == 0 {
        return name.to_owned();
    }
    let v = chars_of(name);
    let k = after_last_in(&v, v.len(), '.');
    assert(v@.take(v.len() as int) == v@);
    let stem_end: usize = if k <= 1 { v.len() } else { k - 1 };
    assert(k > 1 ==> v@.take(k - 1) =~= v@.subrange(0, k - 1));
    assert(k <= 1 ==> v@ =~= v@.subrange(0, v.len() as int));
    let mut r = string_of(&copy_range(&v, 0, stem_end));
    if n <= MAX_NUMBERED_VARIANT {
        push_char(&mut r, ' ');
        push_char(&mut r, '(');
        push_decimal(&mut r, n);
        push_char(&mut r, ')');
        if k > 1 {
            push_char(&mut r, '.');
            push_text(&mut r, string_of(&copy_range(&v, k, v.len())).as_str());
        }
    } else {
        push_char(&mut r, '-');
        push_decimal(&mut r, n);
        push_char(&mut r, '.');
        if k > 1 {
            push_text(&mut r, string_of(&copy_range(&v, k, v.len())).as_str());
        }
    }
    assert(v@.skip(k as int) =~= v@.subrange(k as int, v.len() as int));
    assert(r@ =~= candidate_name(name@, n as nat));
    r
}

/// The next step in the search for a free download name.
pub enum NameProbe {
    /// Use this name: it was reported free.
    Use(String),
    /// Find out whether the name of attempt `attempt` is taken.
    Probe { attempt: u32, name: String },
    /// Every name up to the last attempt is taken.
    Exhausted,
}

/// The first step of the search: try the name itself.
pub fn first_probe(name: &str) -> (r: NameProbe)
    requires
        is_plain_file_name(name@),
    ensures
        r matches NameProbe::Probe { attempt, name: n } && attempt == 0 && n@ == candidate_name(
            name@,
            0,
        ),
{
    NameProbe::Probe { attempt: 0, name: name.to_owned() }
}

/// The step after the name of attempt `attempt` was found free (`taken` false) or taken: a free
/// name is used; after a taken one the name of the next attempt is probed; when the last attempt
/// is taken too, the search gives up.
pub fn probe_step(name: &str, attempt: u32, taken: bool) -> (r: NameProbe)
    requires
        is_plain_file_name(name@),
    ensures
        !taken ==> (r matches NameProbe::Use(n) && n@ == candidate_name(name@, attempt as nat)),
        taken && attempt < u32::MAX ==> (r matches NameProbe::Probe { attempt: a, name: n } && a
            == attempt + 1 && n@ == candidate_name(name@, a as nat)),
        taken && attempt == u32::MAX ==> r is Exhausted,
{
    if !taken {
        return NameProbe::Use(candidate_filename(name, attempt));
    }
    if attempt == u32::MAX {
        return NameProbe::Exhausted;
    }
    let next = attempt + 1;
    NameProbe::Probe { attempt: next, name: candidate_filename(name, next) }
}

/// The attempt whose name the search settles on, starting at `attempt`, when `taken` tells which
/// names exist: the first attempt whose name is free; none when every name up to the last
/// attempt is taken.
pub open spec fn search_from(name: Seq<char>, taken: spec_fn(Seq<char>) -> bool, attempt: nat) -> Option<
    nat,
>
    decreases u32::MAX - attempt,
{
    if !taken(candidate_name(name, attempt)) {
        Some(attempt)
    } else if attempt >= u32::MAX {
        None
    } else {
        search_from(name, taken, attempt + 1)
    }
}

/// Each step of `probe_step` is one step of `search_from`: a free name ends the search on it, a
/// taken one hands it on to the next attempt, and a taken last attempt ends it with nothing.
pub proof fn law_steps_follow_search(name: Seq<char>, taken: spec_fn(Seq<char>) -> bool, a: nat)
    requires
        a <= u32::MAX,
    ensures
        !taken(candidate_name(name, a)) ==> search_from(name, taken, a) == Some(a),
        taken(candidate_name(name, a)) && a < u32::MAX ==> search_from(name, taken, a)
            == search_from(name, taken, a + 1),
        taken(candidate_name(name, a)) && a == u32::MAX ==> search_from(name, taken, a) is None,
{
}

proof fn lemma_search_from(name: Seq<char>, taken: spec_fn(Seq<char>) -> bool, a: nat, m: nat)
    requires
        a <= u32::MAX,
    ensures
        search_from(name, taken, a) == Some(m) <==> (a <= m <= u32::MAX && !taken(
            candidate_name(name, m),
        ) && forall|k: nat| a <= k < m ==> taken(#[trigger] candidate_name(name, k))),
        search_from(name, taken, a) is None <==> forall|k: nat|
            a <= k <= u32::MAX ==> taken(#[trigger] candidate_name(name, k)),
    decreases u32::MAX - a,
{
    if taken(candidate_name(name, a)) && a < u32::MAX {
        lemma_search_from(name, taken, a + 1, m);
        if search_from(name, taken, a) is None {
            assert forall|k: nat| a <= k <= u32::MAX implies taken(
                #[trigger] candidate_name(name, k),
            ) by {
                if k > a {
                    assert(a + 1 <= k);
                }
            }
        }
        if search_from(name, taken, a) == Some(m) {
            assert forall|k: nat| a <= k < m implies taken(#[trigger] candidate_name(name, k)) by {
                if k > a {
                    assert(a + 1 <= k);
                }
            }
        }
    }
}

/// The search, from the name itself on, settles on the least attempt whose name is free, and
/// gives up only when every name up to the last attempt is taken.
pub proof fn law_search_finds_least_free(name: Seq<char>, taken: spec_fn(Seq<char>) -> bool, m: nat)
    ensures
        search_from(name, taken, 0) == Some(m) <==> (m <= u32::MAX && !taken(
            candidate_name(name, m),
        ) && forall|k: nat| k < m ==> taken(#[trigger] candidate_name(name, k))),
        search_from(name, taken, 0) is None <==> forall|k: nat|
            k <= u32::MAX ==> taken(#[trigger] candidate_name(name, k)),
{
    lemma_search_from(name, taken, 0, m);
}

proof fn lemma_leading_count_bound(s: Seq<char>, p: spec_fn(char) -> bool)
    ensures
        leading_count(s, p) <= s.len(),
        leading_count(s, p) < s.len() ==> !p(s[leading_count(s, p) as int]),
    decreases s.len(),
{
    if s.len() > 0 && p(s[0]) {
        lemma_leading_count_bound(s.drop_first(), p);
    }
}

proof fn lemma_trailing_count_bound(s: Seq<char>, p: spec_fn(char) -> bool)
    ensures
        trailing_count(s, p) <= s.len(),
    decreases s.len(),
{
    if s.len() > 0 && p(s.last()) {
        lemma_trailing_count_bound(s.drop_last(), p);
    }
}

/// A cleaned name is never empty, has at most 180 characters, holds no reserved or control
/// character, does not start with a dot, and is therefore one plain path component.
pub proof fn law_sanitized_name_is_safe(name: Seq<char>)
    ensures
        ({
            let r = sanitized_name(name);
            &&& 0 < r.len() <= MAX_FILE_NAME_CHARS
            &&& forall|i: int|
                0 <= i < r.len() ==> !is_reserved_name_char(#[trigger] r[i]) && !is_control_char(
                    r[i],
                )
            &&& r[0] != '.'
            &&& is_plain_file_name(r)
        }),
{
    reveal_strlit("download");
    let ws = |c: char| is_white_space(c);
    let dot = |c: char| c == '.';
    let m = name.map_values(|c: char| cleaned_char(c));
    lemma_trailing_count_bound(m, ws);
    let t = m.take(m.len() - trailing_count(m, ws));
    lemma_leading_count_bound(t, ws);
    let u = t.skip(leading_count(t, ws) as int);
    assert(u == trimmed(m));
    lemma_leading_count_bound(u, dot);
    let w = u.skip(leading_count(u, dot) as int);
    assert(w == without_leading_dots(u));
    let a: int = (leading_count(t, ws) + leading_count(u, dot)) as int;
    assert(w =~= m.subrange(a, t.len() as int));
    let r = sanitized_name(name);
    if w.len() == 0 {
        assert(r == FALLBACK_FILE_NAME@);
    } else {
        assert forall|i: int| 0 <= i < r.len() implies !is_reserved_name_char(#[trigger] r[i])
            && !is_control_char(r[i]) by {
            assert(r[i] == w[i]);
            assert(w[i] == m[a + i]);
            assert(m[a + i] == cleaned_char(name[a + i]));
        }
        assert(r[0] == w[0]);
        assert(u[leading_count(u, dot) as int] == w[0]);
    }
    assert(!r.contains('/')) by {
        if r.contains('/') {
            let i = choose|i: int| 0 <= i < r.len() && r[i] == '/';
            assert(!is_reserved_name_char(r[i]));
        }
    }
    assert(!r.contains('\\')) by {
        if r.contains('\\') {
            let i = choose|i: int| 0 <= i < r.len() && r[i] == '\\';
            assert(!is_reserved_name_char(r[i]));
        }
    }
    assert(r != seq!['.']) by {
        if r == seq!['.'] {
            assert(r[0] == '.');
        }
    }
    assert(r != seq!['.', '.']) by {
        if r == seq!['.', '.'] {
            assert(r[0] == '.');
        }
    }
}

/// A name that is already clean (1 to 180 characters, none reserved or control, no white space at
/// either end, no leading dot) is kept as it is.
pub proof fn law_sanitize_keeps_clean_names(name: Seq<char>)
    requires
        0 < name.len() <= MAX_FILE_NAME_CHARS,
        forall|i: int|
            0 <= i < name.len() ==> !is_reserved_name_char(#[trigger] name[i]) && !is_control_char(
                name[i],
            ),
        !is_white_space(name[0]),
        !is_white_space(name.last()),
        name[0] != '.',
    ensures
        sanitized_name(name) == name,
{
    let ws = |c: char| is_white_space(c);
    let dot = |c: char| c == '.';
    let m = name.map_values(|c: char| cleaned_char(c));
    assert(m =~= name);
    assert(trailing_count(m, ws) == 0);
    assert(m.take(m.len() - 0) =~= m);
    assert(leading_count(m, ws) == 0);
    assert(m.skip(0) =~= m);
    assert(trimmed(m) == name);
    assert(leading_count(name, dot) == 0);
    assert(without_leading_dots(name) == name);
}

/// The name suggested for a download is always a safe, plain file name.
pub proof fn law_suggested_name_is_safe(destination: Seq<char>, url: Seq<char>, style: PathStyle)
    ensures
        is_plain_file_name(suggested_name(destination, url, style)),
        suggested_name(destination, url, style).len() <= MAX_FILE_NAME_CHARS,
{
    reveal_strlit("download");
    let f = path_file_name(destination, style);
    if f is Some && f->0.len() > 0 && f->0 != seq!['.'] && !has_prefix(f->0, "data:"@) {
        law_sanitized_name_is_safe(f->0);
    } else if url_last_segment(url).len() > 0 {
        law_sanitized_name_is_safe(url_last_segment(url));
    } else {
        let r = FALLBACK_FILE_NAME@;
        assert(!r.contains('/')) by {
            if r.contains('/') {
                let i = choose|i: int| 0 <= i < r.len() && r[i] == '/';
                assert(r[i] != '/');
            }
        }
        assert(!r.contains('\\')) by {
            if r.contains('\\') {
                let i = choose|i: int| 0 <= i < r.len() && r[i] == '\\';
                assert(r[i] != '\\');
            }
        }
    }
}

/// The names of two different attempts are different names, so the search never probes a name
/// twice.
pub proof fn law_candidates_differ(name: Seq<char>, a: nat, b: nat)
    requires
        a != b,
    ensures
        candidate_name(name, a) != candidate_name(name, b),
{
    lemma_decimal_digits(a);
    lemma_decimal_digits(b);
    lemma_last_index_range(name, '.');
    let k = last_index_of(name, '.');
    let stem = name_stem(name);
    let ext = name_extension(name);
    let numbered_ext: Seq<char> = if ext is Some {
        seq!['.'] + ext->0
    } else {
        Seq::empty()
    };
    let plain_ext: Seq<char> = if ext is Some {
        ext->0
    } else {
        Seq::empty()
    };
    assert(name.len() == stem.len() + numbered_ext.len()) by {
        if k > 0 {
            assert(name =~= name.take(k) + seq!['.'] + name.skip(k + 1));
        }
    }
    assert(numbered_ext.len() == plain_ext.len() + (if ext is Some {
        1int
    } else {
        0int
    }));
    let ca = candidate_name(name, a);
    let cb = candidate_name(name, b);
    if ca == cb {
        if a == 0 || b == 0 {
            assert(ca.len() != cb.len());
        } else if a <= MAX_NUMBERED_VARIANT && b <= MAX_NUMBERED_VARIANT {
            assert(ca == stem + seq![' ', '('] + decimal(a) + seq![')'] + numbered_ext);
            assert(cb == stem + seq![' ', '('] + decimal(b) + seq![')'] + numbered_ext);
            assert(decimal(a).len() == decimal(b).len());
            let p: int = stem.len() + 2int;
            assert(ca.subrange(p, p + decimal(a).len() as int) =~= decimal(a));
            assert(cb.subrange(p, p + decimal(b).len() as int) =~= decimal(b));
        } else if a > MAX_NUMBERED_VARIANT && b > MAX_NUMBERED_VARIANT {
            assert(ca == stem + seq!['-'] + decimal(a) + seq!['.'] + plain_ext);
            assert(cb == stem + seq!['-'] + decimal(b) + seq!['.'] + plain_ext);
            assert(decimal(a).len() == decimal(b).len());
            let p: int = stem.len() + 1int;
            assert(ca.subrange(p, p + decimal(a).len() as int) =~= decimal(a));
            assert(cb.subrange(p, p + decimal(b).len() as int) =~= decimal(b));
        } else {
            let p: int = stem.len() as int;
            if a <= MAX_NUMBERED_VARIANT {
                assert(ca[p] == ' ');
                assert(cb[p] == '-');
            } else {
                assert(ca[p] == '-');
                assert(cb[p] == ' ');
            }
        }
    }
}

/// Cleaning a name of 1 to 180 characters, with no white space at either end and no leading dot,
/// changes exactly its characters `/ \ : * ? " < > |` and its control characters (U+0000 to
/// U+001F and U+007F to U+009F), each into `_`, and keeps every other character in its place:
/// letters, digits, spaces inside, brackets, dots after the first character and the rest.
pub proof fn law_sanitize_replaces_only_reserved(name: Seq<char>)
    requires
        0 < name.len() <= MAX_FILE_NAME_CHARS,
        !is_white_space(name[0]),
        !is_white_space(name.last()),
        name[0] != '.',
    ensures
        sanitized_name(name).len() == name.len(),
        forall|i: int|
            0 <= i < name.len() ==> #[trigger] sanitized_name(name)[i] == (if name[i] == '/'
                || name[i] == '\\' || name[i] == ':' || name[i] == '*' || name[i] == '?' || name[i]
                == '"' || name[i] == '<' || name[i] == '>' || name[i] == '|' || (name[i] as u32)
                <= 0x1F || (0x7F <= (name[i] as u32) && (name[i] as u32) <= 0x9F) {
                '_'
            } else {
                name[i]
            }),
{
    let ws = |c: char| is_white_space(c);
    let dot = |c: char| c == '.';
    let m = name.map_values(|c: char| cleaned_char(c));
    assert(m[0] == cleaned_char(name[0]));
    assert(m.last() == cleaned_char(name.last()));
    assert(trailing_count(m, ws) == 0);
    assert(m.take(m.len() - 0) =~= m);
    assert(leading_count(m, ws) == 0);
    assert(m.skip(0) =~= m);
    assert(trimmed(m) == m);
    assert(leading_count(m, dot) == 0);
    assert(without_leading_dots(m) == m);
    assert(sanitized_name(name) == m);
}

/// A destination whose file name is a real name (not empty, not `.`, not starting with `data:`)
/// gives that name, cleaned, whatever the URL: names that merely start with `data`, such as
/// `data.csv`, are kept.
pub proof fn law_destination_name_is_used(
    destination: Seq<char>,
    url: Seq<char>,
    style: PathStyle,
    name: Seq<char>,
)
    requires
        path_file_name(destination, style) == Some(name),
        name.len() > 0,
        name != seq!['.'],
        !(name.len() >= 5 && name.take(5) == seq!['d', 'a', 't', 'a', ':']),
    ensures
        suggested_name(destination, url, style) == sanitized_name(name),
{
    reveal_strlit("data:");
    assert("data:"@ =~= seq!['d', 'a', 't', 'a', ':']);
}

/// When the destination gives no usable name (none, an empty one, `.` or one starting with
/// `data:`), the name comes from the URL: for a URL `head/segment` followed by nothing or by a
/// query `?...`, where `head` holds no `?` and `segment` is not empty and holds neither `/` nor
/// `?`, the suggested name is `segment`, cleaned.
pub proof fn law_url_segment_is_used(
    destination: Seq<char>,
    url: Seq<char>,
    style: PathStyle,
    head: Seq<char>,
    segment: Seq<char>,
    query: Seq<char>,
)
    requires
        match path_file_name(destination, style) {
            None => true,
            Some(n) => n.len() == 0 || n == seq!['.'] || (n.len() >= 5 && n.take(5) == seq![
                'd',
                'a',
                't',
                'a',
                ':',
            ]),
        },
        url == head + seq!['/'] + segment + query,
        forall|i: int| 0 <= i < head.len() ==> #[trigger] head[i] != '?',
        segment.len() > 0,
        forall|i: int| 0 <= i < segment.len() ==> #[trigger] segment[i] != '/' && segment[i] != '?',
        query.len() == 0 || query[0] == '?',
    ensures
        suggested_name(destination, url, style) == sanitized_name(segment),
{
    reveal_strlit("data:");
    assert("data:"@ =~= seq!['d', 'a', 't', 'a', ':']);
    let q: int = (head.len() + 1 + segment.len()) as int;
    assert forall|j: int| 0 <= j < q implies #[trigger] url[j] != '?' by {
        if j < head.len() {
            assert(url[j] == head[j]);
        } else if j > head.len() {
            assert(url[j] == segment[j - head.len() - 1]);
        }
    }
    if q < url.len() {
        assert(url[q] == query[0]);
    }
    lemma_first_index_of(url, '?', q);
    let b = url.take(q);
    assert(b =~= head + seq!['/'] + segment);
    let k = head.len() as int;
    assert forall|j: int| k < j < b.len() implies #[trigger] b[j] != '/' by {
        assert(b[j] == segment[j - k - 1]);
    }
    lemma_last_index_of(b, '/', k);
    assert(b.skip(k + 1) =~= segment);
    assert(url_last_segment(url) == segment);
}

/// The numbered variants of `stem.ext` (a stem that is not empty, an extension without a dot)
/// are `stem (n).ext` for attempts 1 to 10000 and `stem-n.ext` beyond; those of a name without a
/// dot are `name (n)` and `name-n.`.
pub proof fn law_numbered_variants(stem: Seq<char>, ext: Seq<char>, n: nat)
    requires
        stem.len() > 0,
        forall|i: int| 0 <= i < ext.len() ==> #[trigger] ext[i] != '.',
        n > 0,
    ensures
        n <= 10000 ==> candidate_name(stem + seq!['.'] + ext, n) == stem + seq![' ', '(']
            + decimal(n) + seq![')', '.'] + ext,
        n > 10000 ==> candidate_name(stem + seq!['.'] + ext, n) == stem + seq!['-'] + decimal(n)
            + seq!['.'] + ext,
        (forall|i: int| 0 <= i < stem.len() ==> #[trigger] stem[i] != '.') ==> (n <= 10000
            ==> candidate_name(stem, n) == stem + seq![' ', '('] + decimal(n) + seq![')']),
        (forall|i: int| 0 <= i < stem.len() ==> #[trigger] stem[i] != '.') ==> (n > 10000
            ==> candidate_name(stem, n) == stem + seq!['-'] + decimal(n) + seq!['.']),
{
    let name = stem + seq!['.'] + ext;
    let k = stem.len() as int;
    assert forall|j: int| k < j < name.len() implies #[trigger] name[j] != '.' by {
        assert(name[j] == ext[j - k - 1]);
    }
    lemma_last_index_of(name, '.', k);
    assert(name.take(k) =~= stem);
    assert(name.skip(k + 1) =~= ext);
    if forall|i: int| 0 <= i < stem.len() ==> #[trigger] stem[i] != '.' {
        lemma_last_index_of(stem, '.', -1);
    }
}

} // verus!
