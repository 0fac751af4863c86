use vstd::prelude::*;

use crate::backend::{no_helper_message, Helper};
use crate::models::{package_views, Package, PackageView, Source};
use crate::operation::CommandOutput;
use crate::parsers::{
    installed_mark, keep, line_marked_installed, lemma_keep_step, parse_aur_search, parse_flatpak_search,
    parse_package_info, parse_pacman_search, parse_rows, package_info, repo_search, rows, RowKind,
};
use crate::text::{
    chars_of, contains, copy_text, has_infix, has_prefix, join2, lines, lines_of, split_chars,
    split_on, starts_with, trim, trimmed, views, words, words_of, same_text,
};

verus! {

pub open spec fn str_views(v: Seq<String>) -> Seq<Seq<char>> {
    v.map_values(|s: String| s@)
}

/// The first word of a line, if it has one.
pub open spec fn first_word(l: Seq<char>) -> Option<Seq<char>> {
    if words(l).len() > 0 {
        Some(words(l)[0])
    } else {
        None
    }
}

/// The second tab-separated field of a line, if it has one.
pub open spec fn second_field(l: Seq<char>) -> Option<Seq<char>> {
    if split_on(l, '\t').len() >= 2 {
        Some(split_on(l, '\t')[1])
    } else {
        None
    }
}

pub open spec fn line_key(l: Seq<char>, by_tab: bool) -> Option<Seq<char>> {
    if by_tab {
        second_field(l)
    } else {
        first_word(l)
    }
}

fn key_of(line: &Vec<char>, by_tab: bool) -> (r: Option<String>)
    ensures
        match r {
            Some(k) => line_key(line@, by_tab) == Some(k@),
            None => line_key(line@, by_tab) is None,
        },
{
    let parts = if by_tab {
        split_chars(line, '\t')
    } else {
        words_of(line)
    };
    let k: usize = if by_tab { 1 } else { 0 };
    assert(views(parts@).len() == parts.len());
    if parts.len() > k {
        assert(views(parts@)[k as int] == parts@[k as int]@);
        let p = &parts[k];
        let t = crate::text::string_of(p, 0, p.len());
        assert(p@.subrange(0, p.len() as int) == p@);
        Some(t)
    } else {
        None
    }
}

/// The keys of a listing's lines: the first word (`pacman -Q`), or the second
/// tab-separated field (`flatpak list --app`).
pub fn listed_keys(output: &str, by_tab: bool) -> (r: Vec<String>)
    ensures
        str_views(r@) == keep(lines(output@), |l: Seq<char>| line_key(l, by_tab)),
{
    let ls = lines_of(output);
    let ghost all = lines(output@);
    let ghost f = |l: Seq<char>| line_key(l, by_tab);
    let n = ls.len();
    assert(all.len() == n);
    assert forall|k: int| 0 <= k < n implies #[trigger] ls@[k]@ == all[k] by {
        assert(views(ls@)[k] == ls@[k]@);
    }
    let mut r: Vec<String> = Vec::new();
    let mut i: usize = 0;
    assert(str_views(r@) =~= keep(all.take(0), f));
    while i < n
        invariant
            n == ls.len() == all.len(),
            i <= n,
            f == (|l: Seq<char>| line_key(l, by_tab)),
            forall|k: int| 0 <= k < n ==> #[trigger] ls@[k]@ == all[k],
            str_views(r@) == keep(all.take(i as int), f),
        decreases n - i,
    {
        proof {
            lemma_keep_step(all, f, i as int);
        }
        let ghost before = str_views(r@);
        match key_of(&ls[i], by_tab) {
            Some(k) => {
                r.push(k);
                assert(str_views(r@) =~= keep(all.take(i + 1), f));
            },
            None => {
                assert(str_views(r@) =~= keep(all.take(i + 1), f));
            },
        }
        i += 1;
    }
    assert(all.take(n as int) == all);
    r
}

/// The package names of `pacman -Q` output, one per line.
pub fn installed_names(output: &str) -> (r: Vec<String>)
    ensures
        str_views(r@) == keep(lines(output@), |l: Seq<char>| line_key(l, false)),
{
    listed_keys(output, false)
}

/// The application ids of `flatpak list --app` output, one per line.
pub fn flatpak_installed_ids(output: &str) -> (r: Vec<String>)
    ensures
        str_views(r@) == keep(lines(output@), |l: Seq<char>| line_key(l, true)),
{
    listed_keys(output, true)
}

/// Whether `name` is among `names`.
pub fn is_listed(name: &str, names: &Vec<String>) -> (r: bool)
    ensures
        r == str_views(names@).contains(name@),
{
    let mut j: usize = 0;
    while j < names.len()
        invariant
            j <= names.len(),
            forall|k: int| 0 <= k < j ==> names@[k]@ != name@,
        decreases names.len() - j,
    {
        if same_text(names[j].as_str(), name) {
            assert(str_views(names@)[j as int] == name@);
            return true;
        }
        j += 1;
    }
    assert forall|k: int| 0 <= k < str_views(names@).len() implies str_views(names@)[k] != name@ by {
        assert(str_views(names@)[k] == names@[k]@);
    }
    false
}

/// `ps` with every package whose name is in `names` marked installed.
pub open spec fn with_installed(ps: Seq<PackageView>, names: Seq<Seq<char>>) -> Seq<PackageView> {
    ps.map_values(|p: PackageView| PackageView { installed: p.installed || names.contains(p.name), ..p })
}

fn copy_package(p: &Package, installed: bool) -> (r: Package)
    ensures
        r@ == (PackageView { installed, ..p@ }),
{
    Package {
        name: p.name.clone(),
        version: p.version.clone(),
        description: p.description.clone(),
        source: p.source,
        installed,
        category: p.category.clone(),
        downloads: p.downloads,
        rating: p.rating,
        maintainer: p.maintainer.clone(),
        size: p.size.clone(),
        last_updated: p.last_updated.clone(),
    }
}

/// The packages, with those whose name is in `names` marked installed.
pub fn mark_installed(packages: &Vec<Package>, names: &Vec<String>) -> (r: Vec<Package>)
    ensures
        package_views(r@) == with_installed(package_views(packages@), str_views(names@)),
{
    let ghost want = with_installed(package_views(packages@), str_views(names@));
    let mut r: Vec<Package> = Vec::new();
    let mut i: usize = 0;
    while i < packages.len()
        invariant
            i <= packages.len(),
            want == with_installed(package_views(packages@), str_views(names@)),
            package_views(r@) == want.take(i as int),
        decreases packages.len() - i,
    {
        let p = &packages[i];
        let listed = is_listed(p.name.as_str(), names);
        let q = copy_package(p, p.installed || listed);
        let ghost before = package_views(r@);
        let ghost qv = q@;
        r.push(q);
        assert(package_views(packages@)[i as int] == p@);
        assert(want[i as int] == qv);
        assert(package_views(r@) =~= before.push(qv));
        assert(package_views(r@) =~= want.take(i + 1));
        i += 1;
    }
    assert(want.take(packages.len() as int) =~= want);
    r
}

/// The lines of a successful run's output; nothing for any other outcome.
pub open spec fn output_lines(run: Result<CommandOutput, String>) -> Seq<Seq<char>> {
    match run {
        Ok(o) => if o.success {
            lines(o.stdout@)
        } else {
            seq![]
        },
        Err(_) => seq![],
    }
}

pub open spec fn optional_lines(run: Option<Result<CommandOutput, String>>) -> Seq<Seq<char>> {
    match run {
        Some(x) => output_lines(x),
        None => seq![],
    }
}

fn succeeded(run: &Result<CommandOutput, String>) -> (r: Option<&CommandOutput>)
    ensures
        match r {
            Some(o) => run matches Ok(x) && x == *o && o.success,
            None => !(run matches Ok(x) && x.success),
        },
{
    match run {
        Ok(o) => if o.success {
            Some(o)
        } else {
            None
        },
        Err(_) => None,
    }
}

/// The keys of the lines of an optional listing run.
fn optional_keys(run: &Option<Result<CommandOutput, String>>, by_tab: bool) -> (r: Vec<String>)
    ensures
        str_views(r@) == keep(optional_lines(*run), |l: Seq<char>| line_key(l, by_tab)),
{
    if let Some(x) = run {
        if let Some(o) = succeeded(x) {
            return listed_keys(o.stdout.as_str(), by_tab);
        }
    }
    let r: Vec<String> = Vec::new();
    assert(str_views(r@) =~= keep(Seq::<Seq<char>>::empty(), |l: Seq<char>| line_key(l, by_tab)));
    r
}

/// The result of an official repository search from the run of
/// `pacman -Ss <query>` and, where it was made, the run of `pacman -Q`: a
/// search that could not run is an error, one that failed finds nothing.
pub fn search_official_packages(
    search: &Result<CommandOutput, String>,
    installed: &Option<Result<CommandOutput, String>>,
) -> (r: Result<Vec<Package>, String>)
    ensures
        search matches Err(e) ==> (r matches Err(m) && m@ == "Failed to execute pacman: "@ + e@),
        search matches Ok(o) ==> (r matches Ok(v) && package_views(v@) == with_installed(
            repo_search(output_lines(*search), Source::Official),
            keep(optional_lines(*installed), |l: Seq<char>| line_key(l, false)),
        )),
{
    match search {
        Err(e) => Err(join2("Failed to execute pacman: ", e.as_str())),
        Ok(o) => {
            if !o.success {
                let v: Vec<Package> = Vec::new();
                let ghost names = keep(optional_lines(*installed), |l: Seq<char>| line_key(l, false));
                assert(lines(Seq::<char>::empty()) =~= Seq::<Seq<char>>::empty()) by {
                    reveal_with_fuel(crate::text::split_state, 1);
                }
                assert(package_views(v@) =~= with_installed(repo_search(seq![], Source::Official), names));
                return Ok(v);
            }
            let found = parse_pacman_search(o.stdout.as_str());
            let names = optional_keys(installed, false);
            Ok(mark_installed(&found, &names))
        },
    }
}

/// The result of a Flatpak search from the run of `flatpak search <query>`
/// and, where it was made, the run of `flatpak list --app`.
pub fn search_flatpak_packages(
    search: &Result<CommandOutput, String>,
    installed: &Option<Result<CommandOutput, String>>,
) -> (r: Result<Vec<Package>, String>)
    ensures
        search matches Err(e) ==> (r matches Err(m) && m@ == "Failed to execute flatpak: "@ + e@),
        search matches Ok(o) ==> (r matches Ok(v) && package_views(v@) == with_installed(
            rows(output_lines(*search), RowKind::FlatpakSearch),
            keep(optional_lines(*installed), |l: Seq<char>| line_key(l, true)),
        )),
{
    match search {
        Err(e) => Err(join2("Failed to execute flatpak: ", e.as_str())),
        Ok(o) => {
            if !o.success {
                let v: Vec<Package> = Vec::new();
                let ghost names = keep(optional_lines(*installed), |l: Seq<char>| line_key(l, true));
                assert(package_views(v@) =~= with_installed(rows(seq![], RowKind::FlatpakSearch), names));
                return Ok(v);
            }
            let found = parse_flatpak_search(o.stdout.as_str());
            let ids = optional_keys(installed, true);
            Ok(mark_installed(&found, &ids))
        },
    }
}

/// The result of an AUR search: `found` is the selected helper with the run of
/// `<helper> -Ss <query>`, or nothing when no helper is present, which is an
/// error.
pub fn search_aur_packages(found: &Option<(Helper, Result<CommandOutput, String>)>) -> (r: Result<
    Vec<Package>,
    String,
>)
    ensures
        found is None ==> (r matches Err(m) && m@ == no_helper_message()),
        found matches Some((h, Err(e))) ==> (r matches Err(m) && m@ == "Failed to execute "@
            + crate::backend::helper_spec_name(*h) + ": "@ + e@),
        found matches Some((h, Ok(o))) ==> (r matches Ok(v) && package_views(v@) == repo_search(
            output_lines(Ok(*o)),
            Source::Aur,
        )),
{
    match found {
        None => Err(copy_text("No AUR helper found. Please install yay or paru.")),
        Some((h, Err(e))) => {
            let mut m = join2("Failed to execute ", h.name());
            vstd::string::StringExecFns::append(&mut m, ": ");
            vstd::string::StringExecFns::append(&mut m, e.as_str());
            Err(m)
        },
        Some((_, Ok(o))) => {
            if !o.success {
                let v: Vec<Package> = Vec::new();
                assert(package_views(v@) =~= repo_search(seq![], Source::Aur));
                return Ok(v);
            }
            Ok(parse_aur_search(o.stdout.as_str()))
        },
    }
}

fn rows_of(run: &Result<CommandOutput, String>, kind: RowKind) -> (r: Vec<Package>)
    ensures
        package_views(r@) == rows(output_lines(*run), kind),
{
    if let Some(o) = succeeded(run) {
        return parse_rows(o.stdout.as_str(), kind);
    }
    let v: Vec<Package> = Vec::new();
    assert(package_views(v@) =~= rows(seq![], kind));
    v
}

fn optional_rows_of(run: &Option<Result<CommandOutput, String>>, kind: RowKind) -> (r: Vec<Package>)
    ensures
        package_views(r@) == rows(optional_lines(*run), kind),
{
    match run {
        Some(x) => rows_of(x, kind),
        None => {
            let v: Vec<Package> = Vec::new();
            assert(package_views(v@) =~= rows(seq![], kind));
            v
        },
    }
}

fn concat(a: Vec<Package>, b: Vec<Package>) -> (r: Vec<Package>)
    ensures
        package_views(r@) == package_views(a@) + package_views(b@),
{
    let mut a = a;
    let mut b = b;
    let ghost va = package_views(a@);
    let ghost vb = package_views(b@);
    a.append(&mut b);
    assert(package_views(a@) =~= va + vb);
    a
}

/// Everything installed, from the runs of `pacman -Q`, of `<helper> -Qm`
/// (nothing when no helper is present) and of `flatpak list --app`. A run that
/// failed contributes nothing, and none is an error.
pub fn get_installed_packages(
    official: &Result<CommandOutput, String>,
    aur: &Option<Result<CommandOutput, String>>,
    flatpak: &Result<CommandOutput, String>,
) -> (r: Vec<Package>)
    ensures
        package_views(r@) == rows(output_lines(*official), RowKind::Installed(Source::Official))
            + rows(optional_lines(*aur), RowKind::Installed(Source::Aur)) + rows(
            output_lines(*flatpak),
            RowKind::FlatpakInstalled,
        ),
{
    let a = rows_of(official, RowKind::Installed(Source::Official));
    let b = optional_rows_of(aur, RowKind::Installed(Source::Aur));
    let c = rows_of(flatpak, RowKind::FlatpakInstalled);
    concat(concat(a, b), c)
}

/// The pending updates, from the runs of `checkupdates`, of `<helper> -Qua`
/// (nothing when no helper is present) and of
/// `flatpak remote-ls --updates --app`; only a `checkupdates` that could not
/// run is an error.
pub fn check_updates(
    official: &Result<CommandOutput, String>,
    aur: &Option<Result<CommandOutput, String>>,
    flatpak: &Result<CommandOutput, String>,
) -> (r: Result<Vec<Package>, String>)
    ensures
        official matches Err(e) ==> (r matches Err(m) && m@ == "Failed to check updates: "@ + e@),
        official is Ok ==> (r matches Ok(v) && package_views(v@) == rows(
            output_lines(*official),
            RowKind::Update(Source::Official),
        ) + rows(optional_lines(*aur), RowKind::Update(Source::Aur)) + rows(
            output_lines(*flatpak),
            RowKind::FlatpakUpdate,
        )),
{
    if let Err(e) = official {
        return Err(join2("Failed to check updates: ", e.as_str()));
    }
    let a = rows_of(official, RowKind::Update(Source::Official));
    let b = optional_rows_of(aur, RowKind::Update(Source::Aur));
    let c = rows_of(flatpak, RowKind::FlatpakUpdate);
    Ok(concat(concat(a, b), c))
}

/// A line of a probe's output that shows `name` installed: for the AUR, it
/// opens with `aur/<name>` and carries the installed marker; for Flatpak, it
/// mentions the name.
pub open spec fn line_hit(l: Seq<char>, name: Seq<char>, aur: bool) -> bool {
    if aur {
        starts_with(l, "aur/"@ + name) && installed_mark(l)
    } else {
        contains(l, name)
    }
}

pub open spec fn any_hit(output: Seq<char>, name: Seq<char>, aur: bool) -> bool {
    exists|i: int| 0 <= i < lines(output).len() && line_hit(#[trigger] lines(output)[i], name, aur)
}

/// Whether the installed-state probe for `name` from `source` found it
/// installed: for the official repositories, `pacman -Qs ^name$` succeeded;
/// otherwise a line of the helper's search or of `flatpak list --app` shows it.
pub open spec fn probe_says_installed(
    name: Seq<char>,
    source: Source,
    probe: Option<Result<CommandOutput, String>>,
) -> bool {
    match probe {
        Some(Ok(o)) => o.success && match source {
            Source::Official => true,
            Source::Aur => any_hit(o.stdout@, name, true),
            Source::Flatpak => any_hit(o.stdout@, name, false),
        },
        _ => false,
    }
}

fn scan_hits(output: &str, name: &str, aur: bool) -> (r: bool)
    ensures
        r == any_hit(output@, name@, aur),
{
    let ls = lines_of(output);
    let ghost all = lines(output@);
    let n = ls.len();
    assert(all.len() == n);
    assert forall|k: int| 0 <= k < n implies #[trigger] ls@[k]@ == all[k] by {
        assert(views(ls@)[k] == ls@[k]@);
    }
    let target = if aur {
        join2("aur/", name)
    } else {
        copy_text(name)
    };
    let t = chars_of(target.as_str());
    let mut i: usize = 0;
    while i < n
        invariant
            n == ls.len() == all.len(),
            i <= n,
            forall|k: int| 0 <= k < n ==> #[trigger] ls@[k]@ == all[k],
            t@ == if aur { "aur/"@ + name@ } else { name@ },
            all == lines(output@),
            forall|k: int| 0 <= k < i ==> !line_hit(#[trigger] all[k], name@, aur),
        decreases n - i,
    {
        assert(ls@[i as int]@ == all[i as int]);
        let hit = if aur {
            has_prefix(&ls[i], &t) && line_marked_installed(&ls[i])
        } else {
            has_infix(&ls[i], &t)
        };
        if hit {
            assert(0 <= i < lines(output@).len() && line_hit(lines(output@)[i as int], name@, aur));
            return true;
        }
        i += 1;
    }
    false
}

/// The details of package `name` from `source`: `info` is the run of the
/// detail command, `probe` that of the installed-state probe where one was
/// made. A detail command that could not run or failed is an error.
pub fn get_package_info(
    name: &str,
    source: Source,
    info: &Result<CommandOutput, String>,
    probe: &Option<Result<CommandOutput, String>>,
) -> (r: Result<Package, String>)
    ensures
        info matches Err(e) ==> (r matches Err(m) && m@ == e@),
        info matches Ok(o) && !o.success ==> (r matches Err(m) && m@
            == "Failed to get package info"@),
        info matches Ok(o) ==> (o.success ==> (r matches Ok(p) && p@ == (PackageView {
            installed: probe_says_installed(name@, source, *probe),
            ..package_info(o.stdout@)
        }))),
{
    let o = match info {
        Err(e) => {
            return Err(e.clone());
        },
        Ok(o) => o,
    };
    if !o.success {
        return Err(copy_text("Failed to get package info"));
    }
    let parsed = parse_package_info(o.stdout.as_str());
    let p = match parsed {
        Ok(p) => p,
        Err(e) => {
            return Err(e);
        },
    };
    let installed = match probe {
        Some(Ok(q)) => q.success && match source {
            Source::Official => true,
            Source::Aur => scan_hits(q.stdout.as_str(), name, true),
            Source::Flatpak => scan_hits(q.stdout.as_str(), name, false),
        },
        _ => false,
    };
    Ok(copy_package(&p, installed))
}

/// Which backends this system offers.
#[derive(Clone, Copy, Debug, PartialEq, Eq, Structural)]
pub struct Capabilities {
    pub has_aur_helper: bool,
    pub has_flatpak: bool,
    pub multilib_enabled: bool,
}

/// The configuration has a `[multilib]` section header with an `Include`
/// line somewhere after it (both read without surrounding whitespace).
pub open spec fn multilib_in_config(conf: Seq<char>) -> bool {
    exists|i: int, j: int|
        0 <= i < j < lines(conf).len() && trim(#[trigger] lines(conf)[i]) == "[multilib]"@
            && starts_with(trim(#[trigger] lines(conf)[j]), "Include"@)
}

/// Whether the package manager's configuration enables the optional
/// repository.
pub fn multilib_configured(conf: &str) -> (r: bool)
    ensures
        r == multilib_in_config(conf@),
{
    let ls = lines_of(conf);
    let ghost all = lines(conf@);
    let n = ls.len();
    assert(all.len() == n);
    assert forall|k: int| 0 <= k < n implies #[trigger] ls@[k]@ == all[k] by {
        assert(views(ls@)[k] == ls@[k]@);
    }
    let header = chars_of("[multilib]");
    let entry = chars_of("Include");
    let mut found = false;
    let mut i: usize = 0;
    while i < n
        invariant
            n == ls.len() == all.len(),
            i <= n,
            forall|k: int| 0 <= k < n ==> #[trigger] ls@[k]@ == all[k],
            header@ == "[multilib]"@,
            all == lines(conf@),
            entry@ == "Include"@,
            found == exists|k: int| 0 <= k < i && trim(#[trigger] all[k]) == "[multilib]"@,
            !exists|a: int, b: int|
                0 <= a < b < i && trim(#[trigger] all[a]) == "[multilib]"@ && starts_with(
                    trim(#[trigger] all[b]),
                    "Include"@,
                ),
        decreases n - i,
    {
        assert(ls@[i as int]@ == all[i as int]);
        let t = trimmed(&ls[i]);
        let is_header = t.len() == header.len() && has_prefix(&t, &header);
        assert(is_header == (t@ == header@)) by {
            assert(t@.len() == header@.len() ==> t@.subrange(0, header@.len() as int) == t@);
        }
        if is_header {
            found = true;
        } else if found && has_prefix(&t, &entry) {
            assert(trim(all[i as int]) == t@);
            let ghost k = choose|k: int| 0 <= k < i && trim(#[trigger] all[k]) == "[multilib]"@;
            assert(0 <= k < i as int && i < lines(conf@).len() && trim(lines(conf@)[k])
                == "[multilib]"@ && starts_with(trim(lines(conf@)[i as int]), "Include"@));
            return true;
        }
        proof {
            reveal_strlit("[multilib]");
            reveal_strlit("Include");
            if !is_header {
                assert(trim(all[i as int]) != "[multilib]"@);
            }
            if is_header {
                assert(!starts_with(trim(all[i as int]), "Include"@)) by {
                    assert(trim(all[i as int])[0] == '[');
                }
            }
        }
        i += 1;
    }
    false
}

/// The capabilities from the helper and Flatpak version probes and the text of
/// the package manager's configuration, where it could be read.
pub fn check_system_capabilities(
    yay_ran: bool,
    paru_ran: bool,
    flatpak_ran: bool,
    conf: &Option<String>,
) -> (r: Capabilities)
    ensures
        r.has_aur_helper == (yay_ran || paru_ran),
        r.has_flatpak == flatpak_ran,
        r.multilib_enabled == (conf matches Some(c) && multilib_in_config(c@)),
{
    let multilib_enabled = match conf {
        Some(c) => multilib_configured(c.as_str()),
        None => false,
    };
    Capabilities { has_aur_helper: yay_ran || paru_ran, has_flatpak: flatpak_ran, multilib_enabled }
}

} // verus!
