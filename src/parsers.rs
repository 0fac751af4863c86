use vstd::prelude::*;
use vstd::string::StringExecFns;

use crate::models::{package_views, record, Package, PackageView, Source};
use crate::text::{
    chars_of, contains, has_infix, has_prefix, lines, lines_of, split_chars, split_on,
    starts_with, string_of, trim, trimmed, views, words, words_of,
};

verus! {

/// What `str::to_lowercase` makes of a text.
pub uninterp spec fn lower_of(s: Seq<char>) -> Seq<char>;

/// Relies on `str::to_lowercase`: the lowercase form of `s`, a function of its chars.
#[verifier::external_body]
fn lowercase(s: &str) -> (r: String)
    ensures
        r@ == lower_of(s@),
{
    s.to_lowercase()
}

pub open spec fn opt_seq<A>(o: Option<A>) -> Seq<A> {
    match o {
        Some(x) => seq![x],
        None => seq![],
    }
}

/// The results of `f` on each line, in order, where it gives one.
pub open spec fn keep<A>(ls: Seq<Seq<char>>, f: spec_fn(Seq<char>) -> Option<A>) -> Seq<A>
    decreases ls.len(),
{
    if ls.len() == 0 {
        seq![]
    } else {
        keep(ls.drop_last(), f) + opt_seq(f(ls.last()))
    }
}

pub(crate) proof fn lemma_keep_step<A>(ls: Seq<Seq<char>>, f: spec_fn(Seq<char>) -> Option<A>, i: int)
    requires
        0 <= i < ls.len(),
    ensures
        keep(ls.take(i + 1), f) == keep(ls.take(i), f) + opt_seq(f(ls[i])),
{
    assert(ls.take(i + 1).drop_last() == ls.take(i));
}

/// The indentation that marks a description line.
pub open spec fn indent() -> Seq<char> {
    "    "@
}

pub open spec fn installed_mark(line: Seq<char>) -> bool {
    contains(lower_of(line), "[installed]"@)
}

/// A line that opens a record of a repository listing.
pub open spec fn is_header(l: Seq<char>, src: Source) -> bool {
    &&& !starts_with(l, indent())
    &&& l.len() > 0
    &&& (src == Source::Aur ==> starts_with(l, "aur/"@))
    &&& words(l).len() > 0
}

/// The record that header line `l` opens, with description `desc`.
pub open spec fn header_record(l: Seq<char>, desc: Seq<char>, src: Source) -> PackageView {
    let w = words(l);
    record(
        split_on(w[0], '/').last(),
        if w.len() > 1 {
            w[1]
        } else {
            seq![]
        },
        desc,
        src,
        installed_mark(l),
    )
}

/// The records of a repository search listing: a header line
/// `repo/name version [installed]`, then optionally a description line
/// indented by four spaces.
pub open spec fn repo_search(ls: Seq<Seq<char>>, src: Source) -> Seq<PackageView>
    decreases ls.len(),
{
    if ls.len() == 0 {
        seq![]
    } else if !is_header(ls[0], src) {
        repo_search(ls.drop_first(), src)
    } else if ls.len() > 1 && starts_with(ls[1], indent()) {
        seq![header_record(ls[0], trim(ls[1]), src)] + repo_search(ls.subrange(2, ls.len() as int), src)
    } else {
        seq![header_record(ls[0], seq![], src)] + repo_search(ls.drop_first(), src)
    }
}

/// Whether lowercased text carries the installed marker.
pub fn marked_installed(lowered: &str) -> (r: bool)
    ensures
        r == contains(lowered@, "[installed]"@),
{
    let t = chars_of(lowered);
    let m = chars_of("[installed]");
    has_infix(&t, &m)
}

pub(crate) fn line_marked_installed(line: &Vec<char>) -> (r: bool)
    ensures
        r == installed_mark(line@),
{
    let s = string_of(line, 0, line.len());
    proof {
        assert(line@.subrange(0, line.len() as int) == line@);
    }
    let low = lowercase(s.as_str());
    marked_installed(low.as_str())
}

fn whole(v: &Vec<char>) -> (r: String)
    ensures
        r@ == v@,
{
    let r = string_of(v, 0, v.len());
    assert(v@.subrange(0, v.len() as int) == v@);
    r
}

fn header_is(line: &Vec<char>, src: Source, ind: &Vec<char>, aur: &Vec<char>) -> (r: bool)
    requires
        ind@ == indent(),
        aur@ == "aur/"@,
    ensures
        r == is_header(line@, src),
{
    if has_prefix(line, ind) || line.len() == 0 {
        return false;
    }
    if src == Source::Aur && !has_prefix(line, aur) {
        return false;
    }
    let w = words_of(line);
    assert(views(w@).len() == w.len());
    w.len() > 0
}

fn header_package(line: &Vec<char>, desc: String, src: Source) -> (r: Package)
    requires
        words(line@).len() > 0,
    ensures
        r@ == header_record(line@, desc@, src),
{
    let w = words_of(line);
    assert(views(w@).len() == w.len());
    assert(views(w@)[0] == w@[0]@);
    let parts = split_chars(&w[0], '/');
    assert(views(parts@).len() == parts.len());
    assert(views(parts@)[parts.len() - 1] == parts@[parts.len() - 1]@);
    let name = whole(&parts[parts.len() - 1]);
    let version = if w.len() > 1 {
        assert(views(w@)[1] == w@[1]@);
        whole(&w[1])
    } else {
        String::new()
    };
    let installed = line_marked_installed(line);
    Package::new(name, version, desc, src, installed)
}

fn parse_repo_listing(output: &str, src: Source) -> (r: Vec<Package>)
    ensures
        package_views(r@) == repo_search(lines(output@), src),
{
    let ls = lines_of(output);
    let ghost all = lines(output@);
    let n = ls.len();
    assert(all.len() == n);
    assert forall|k: int| 0 <= k < n implies #[trigger] ls@[k]@ == all[k] by {
        assert(views(ls@)[k] == ls@[k]@);
    }
    let ind = chars_of("    ");
    let aur = chars_of("aur/");
    let mut r: Vec<Package> = Vec::new();
    let mut i: usize = 0;
    assert(all.subrange(0, n as int) == all);
    assert(package_views(r@) + repo_search(all, src) =~= repo_search(all, src));
    while i < n
        invariant
            n == ls.len() == all.len(),
            i <= n,
            ind@ == indent(),
            aur@ == "aur/"@,
            forall|k: int| 0 <= k < n ==> #[trigger] ls@[k]@ == all[k],
            package_views(r@) + repo_search(all.subrange(i as int, n as int), src) == repo_search(
                all,
                src,
            ),
        decreases n - i,
    {
        let ghost rest = all.subrange(i as int, n as int);
        assert(rest[0] == all[i as int]);
        assert(rest.drop_first() == all.subrange(i + 1, n as int));
        let ghost before = package_views(r@);
        if !header_is(&ls[i], src, &ind, &aur) {
            i += 1;
        } else {
            let has_desc = i + 1 < n && has_prefix(&ls[i + 1], &ind);
            let desc = if has_desc {
                assert(rest[1] == all[i + 1]);
                let t = trimmed(&ls[i + 1]);
                whole(&t)
            } else {
                String::new()
            };
            let p = header_package(&ls[i], desc, src);
            r.push(p);
            assert(package_views(r@) =~= before.push(p@));
            if has_desc {
                assert(rest.subrange(2, rest.len() as int) == all.subrange(i + 2, n as int));
                assert(package_views(r@) + repo_search(all.subrange(i + 2, n as int), src)
                    =~= before + repo_search(rest, src));
                i += 2;
            } else {
                assert(i + 1 >= n ==> rest.len() == 1);
                assert(package_views(r@) + repo_search(all.subrange(i + 1, n as int), src)
                    =~= before + repo_search(rest, src));
                i += 1;
            }
        }
    }
    assert(all.subrange(n as int, n as int).len() == 0);
    assert(package_views(r@) + repo_search(all.subrange(n as int, n as int), src) =~= package_views(r@));
    r
}

/// Parses the output of a pacman repository search (`pacman -Ss`).
pub fn parse_pacman_search(output: &str) -> (r: Vec<Package>)
    ensures
        package_views(r@) == repo_search(lines(output@), Source::Official),
{
    parse_repo_listing(output, Source::Official)
}

/// Parses the output of an AUR helper search; records from other repositories
/// are left out.
pub fn parse_aur_search(output: &str) -> (r: Vec<Package>)
    ensures
        package_views(r@) == repo_search(lines(output@), Source::Aur),
{
    parse_repo_listing(output, Source::Aur)
}

/// The row formats of tabular and word-separated listings.
#[derive(Clone, Copy, Debug, PartialEq, Eq, Structural)]
pub enum RowKind {
    /// `flatpak search`: name, summary, application id, version (tab-separated).
    FlatpakSearch,
    /// `pacman -Q` or a helper's `-Qm`: name and version.
    Installed(Source),
    /// `flatpak list --app`: name, application id, version (tab-separated).
    FlatpakInstalled,
    /// `checkupdates` or a helper's `-Qua`: name, current version, `->`, new version.
    Update(Source),
    /// `flatpak remote-ls --updates --app`: name, application id, version.
    FlatpakUpdate,
}

pub open spec fn field_or_empty(p: Seq<Seq<char>>, k: int) -> Seq<char> {
    if 0 <= k < p.len() {
        p[k]
    } else {
        seq![]
    }
}

pub open spec fn update_prefix(src: Source) -> Seq<char> {
    if src == Source::Aur {
        "AUR update available: "@
    } else {
        "Update available: "@
    }
}

/// The record that one line of a listing of kind `kind` gives, if any.
pub open spec fn row(kind: RowKind, l: Seq<char>) -> Option<PackageView> {
    let p = split_on(l, '\t');
    let w = words(l);
    match kind {
        RowKind::FlatpakSearch => if p.len() >= 3 {
            Some(
                record(
                    trim(p[2]),
                    trim(field_or_empty(p, 3)),
                    trim(p[0]) + " - "@ + trim(p[1]),
                    Source::Flatpak,
                    false,
                ),
            )
        } else {
            None
        },
        RowKind::Installed(src) => if w.len() >= 2 {
            Some(record(w[0], w[1], seq![], src, true))
        } else {
            None
        },
        RowKind::FlatpakInstalled => if p.len() >= 2 {
            Some(record(p[1], field_or_empty(p, 2), p[0], Source::Flatpak, true))
        } else {
            None
        },
        RowKind::Update(src) => if w.len() >= 4 {
            Some(record(w[0], w[3], update_prefix(src) + w[1] + " -> "@ + w[3], src, true))
        } else {
            None
        },
        RowKind::FlatpakUpdate => if p.len() >= 2 {
            Some(
                record(
                    p[1],
                    field_or_empty(p, 2),
                    p[0] + " - Update available"@,
                    Source::Flatpak,
                    true,
                ),
            )
        } else {
            None
        },
    }
}

/// The records of a listing of kind `kind`; a `flatpak search` listing opens
/// with a header line, which is skipped.
pub open spec fn rows(ls: Seq<Seq<char>>, kind: RowKind) -> Seq<PackageView> {
    if kind == RowKind::FlatpakSearch {
        if ls.len() == 0 {
            seq![]
        } else {
            keep(ls.drop_first(), |l: Seq<char>| row(kind, l))
        }
    } else {
        keep(ls, |l: Seq<char>| row(kind, l))
    }
}

fn piece(p: &Vec<Vec<char>>, k: usize) -> (r: String)
    ensures
        r@ == field_or_empty(views(p@), k as int),
{
    if k < p.len() {
        assert(views(p@)[k as int] == p@[k as int]@);
        whole(&p[k])
    } else {
        String::new()
    }
}

fn trimmed_piece(p: &Vec<Vec<char>>, k: usize) -> (r: String)
    ensures
        r@ == trim(field_or_empty(views(p@), k as int)),
{
    if k < p.len() {
        assert(views(p@)[k as int] == p@[k as int]@);
        let t = trimmed(&p[k]);
        whole(&t)
    } else {
        let r = String::new();
        assert(trim(seq![]) == Seq::<char>::empty());
        r
    }
}

fn row_of(kind: RowKind, line: &Vec<char>) -> (r: Option<Package>)
    ensures
        match r {
            Some(x) => row(kind, line@) == Some(x@),
            None => row(kind, line@) is None,
        },
{
    let p = split_chars(line, '\t');
    let w = words_of(line);
    assert(views(p@).len() == p.len());
    assert(views(w@).len() == w.len());
    match kind {
        RowKind::FlatpakSearch => {
            if p.len() >= 3 {
                let name = trimmed_piece(&p, 2);
                let version = trimmed_piece(&p, 3);
                let mut d = trimmed_piece(&p, 0);
                d.append(" - ");
                let summary = trimmed_piece(&p, 1);
                d.append(summary.as_str());
                Some(Package::new(name, version, d, Source::Flatpak, false))
            } else {
                None
            }
        },
        RowKind::Installed(src) => {
            if w.len() >= 2 {
                let name = piece(&w, 0);
                let version = piece(&w, 1);
                Some(Package::new(name, version, String::new(), src, true))
            } else {
                None
            }
        },
        RowKind::FlatpakInstalled => {
            if p.len() >= 2 {
                let name = piece(&p, 1);
                let version = piece(&p, 2);
                let d = piece(&p, 0);
                Some(Package::new(name, version, d, Source::Flatpak, true))
            } else {
                None
            }
        },
        RowKind::Update(src) => {
            if w.len() >= 4 {
                let name = piece(&w, 0);
                let version = piece(&w, 3);
                let mut d = if src == Source::Aur {
                    String::from_str("AUR update available: ")
                } else {
                    String::from_str("Update available: ")
                };
                let old = piece(&w, 1);
                d.append(old.as_str());
                d.append(" -> ");
                d.append(version.as_str());
                Some(Package::new(name, version, d, src, true))
            } else {
                None
            }
        },
        RowKind::FlatpakUpdate => {
            if p.len() >= 2 {
                let name = piece(&p, 1);
                let version = piece(&p, 2);
                let mut d = piece(&p, 0);
                d.append(" - Update available");
                Some(Package::new(name, version, d, Source::Flatpak, true))
            } else {
                None
            }
        },
    }
}

/// Parses a listing whose lines are read by row format `kind`.
pub fn parse_rows(output: &str, kind: RowKind) -> (r: Vec<Package>)
    ensures
        package_views(r@) == rows(lines(output@), kind),
{
    let ls = lines_of(output);
    let ghost all = lines(output@);
    let n = ls.len();
    assert(all.len() == n);
    assert forall|k: int| 0 <= k < n implies #[trigger] ls@[k]@ == all[k] by {
        assert(views(ls@)[k] == ls@[k]@);
    }
    let first: usize = if kind == RowKind::FlatpakSearch && n > 0 { 1 } else { 0 };
    let ghost body = all.subrange(first as int, n as int);
    let ghost f = |l: Seq<char>| row(kind, l);
    let mut r: Vec<Package> = Vec::new();
    let mut i: usize = first;
    assert(body.take(0) =~= Seq::<Seq<char>>::empty());
    assert(package_views(r@) =~= keep(body.take(0), f));
    while i < n
        invariant
            n == ls.len() == all.len(),
            first <= i <= n,
            body == all.subrange(first as int, n as int),
            f == (|l: Seq<char>| row(kind, l)),
            forall|k: int| 0 <= k < n ==> #[trigger] ls@[k]@ == all[k],
            package_views(r@) == keep(body.take(i - first), f),
        decreases n - i,
    {
        proof {
            lemma_keep_step(body, f, i - first);
        }
        assert(body[i - first] == all[i as int]);
        let ghost before = package_views(r@);
        match row_of(kind, &ls[i]) {
            Some(p) => {
                r.push(p);
                assert(package_views(r@) =~= before.push(p@));
                assert(package_views(r@) =~= keep(body.take(i + 1 - first), f));
            },
            None => {
                assert(package_views(r@) =~= keep(body.take(i + 1 - first), f));
            },
        }
        i += 1;
    }
    assert(body.take(n - first) == body);
    if kind == RowKind::FlatpakSearch && n > 0 {
        assert(body == all.drop_first());
    } else {
        assert(body == all);
    }
    r
}

/// Parses the output of `flatpak search`: a header line, then one
/// tab-separated row per application.
pub fn parse_flatpak_search(output: &str) -> (r: Vec<Package>)
    ensures
        package_views(r@) == rows(lines(output@), RowKind::FlatpakSearch),
{
    parse_rows(output, RowKind::FlatpakSearch)
}

/// `i` is the position of the first colon of `l`.
pub open spec fn first_colon(l: Seq<char>, i: int) -> bool {
    0 <= i < l.len() && l[i] == ':' && forall|k: int| 0 <= k < i ==> l[k] != ':'
}

/// The value of a labelled line: the text after its first colon, trimmed;
/// empty when it has no colon.
pub open spec fn label_value(l: Seq<char>) -> Seq<char> {
    if exists|i: int| first_colon(l, i) {
        trim(l.subrange((choose|i: int| first_colon(l, i)) + 1, l.len() as int))
    } else {
        seq![]
    }
}

/// The fields that the labelled lines `ls` set: name, version, description,
/// size; a later line overrides an earlier one.
pub open spec fn info_fields(ls: Seq<Seq<char>>) -> (Seq<char>, Seq<char>, Seq<char>, Seq<char>)
    decreases ls.len(),
{
    if ls.len() == 0 {
        (seq![], seq![], seq![], seq![])
    } else {
        let (n, v, d, z) = info_fields(ls.drop_last());
        let l = ls.last();
        if starts_with(l, "Name"@) {
            (label_value(l), v, d, z)
        } else if starts_with(l, "Version"@) {
            (n, label_value(l), d, z)
        } else if starts_with(l, "Description"@) {
            (n, v, label_value(l), z)
        } else if starts_with(l, "Installed Size"@) || starts_with(l, "Download Size"@) {
            (n, v, d, label_value(l))
        } else {
            (n, v, d, z)
        }
    }
}

pub open spec fn package_info(output: Seq<char>) -> PackageView {
    let (n, v, d, z) = info_fields(lines(output));
    PackageView { size: z, ..record(n, v, d, Source::Official, false) }
}

/// Parses a labelled package detail listing (`pacman -Si`); fields that are
/// missing stay empty, and no input is an error.
pub fn parse_package_info(output: &str) -> (r: Result<Package, String>)
    ensures
        r matches Ok(p) && p@ == package_info(output@),
{
    let ls = lines_of(output);
    let ghost all = lines(output@);
    let n = ls.len();
    assert(all.len() == n);
    assert forall|k: int| 0 <= k < n implies #[trigger] ls@[k]@ == all[k] by {
        assert(views(ls@)[k] == ls@[k]@);
    }
    let l_name = chars_of("Name");
    let l_version = chars_of("Version");
    let l_desc = chars_of("Description");
    let l_inst = chars_of("Installed Size");
    let l_down = chars_of("Download Size");
    let mut name = String::new();
    let mut version = String::new();
    let mut description = String::new();
    let mut size = String::new();
    let mut i: usize = 0;
    assert(all.take(0) =~= Seq::<Seq<char>>::empty());
    while i < n
        invariant
            n == ls.len() == all.len(),
            i <= n,
            forall|k: int| 0 <= k < n ==> #[trigger] ls@[k]@ == all[k],
            l_name@ == "Name"@,
            l_version@ == "Version"@,
            l_desc@ == "Description"@,
            l_inst@ == "Installed Size"@,
            l_down@ == "Download Size"@,
            (name@, version@, description@, size@) == info_fields(all.take(i as int)),
        decreases n - i,
    {
        assert(all.take(i + 1).drop_last() == all.take(i as int));
        let line = &ls[i];
        if has_prefix(line, &l_name) {
            name = value_of(line);
        } else if has_prefix(line, &l_version) {
            version = value_of(line);
        } else if has_prefix(line, &l_desc) {
            description = value_of(line);
        } else if has_prefix(line, &l_inst) || has_prefix(line, &l_down) {
            size = value_of(line);
        }
        i += 1;
    }
    assert(all.take(n as int) == all);
    let mut p = Package::new(name, version, description, Source::Official, false);
    p.size = size;
    Ok(p)
}

fn value_of(line: &Vec<char>) -> (r: String)
    ensures
        r@ == label_value(line@),
{
    let n = line.len();
    let mut i: usize = 0;
    while i < n && line[i] != ':'
        invariant
            i <= n == line.len(),
            forall|k: int| 0 <= k < i ==> line@[k] != ':',
        decreases n - i,
    {
        i += 1;
    }
    if i == n {
        assert(!exists|j: int| first_colon(line@, j));
        return String::new();
    }
    assert(first_colon(line@, i as int));
    proof {
        let c = choose|j: int| first_colon(line@, j);
        assert(c == i) by {
            if c < i {
                assert(line@[c] != ':');
            } else if c > i {
                assert(line@[i as int] != ':');
            }
        }
    }
    let mut rest: Vec<char> = Vec::new();
    let mut j: usize = i + 1;
    while j < n
        invariant
            i < j <= n == line.len(),
            rest@ == line@.subrange(i + 1, j as int),
        decreases n - j,
    {
        rest.push(line[j]);
        assert(line@.subrange(i + 1, j + 1) == line@.subrange(i + 1, j as int).push(line@[j as int]));
        j += 1;
    }
    let t = trimmed(&rest);
    whole(&t)
}

} // verus!
