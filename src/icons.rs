use vstd::prelude::*;
use vstd::string::StringExecFns;

use crate::text::{chars_of, contains, copy_text, has_infix, matches_at, push_char, same_text, starts_with};

verus! {

/// `s` with each occurrence of `pat`, taken left to right without overlap,
/// replaced by `rep` (as `str::replace`).
pub open spec fn replaced(s: Seq<char>, pat: Seq<char>, rep: Seq<char>) -> Seq<char>
    decreases s.len(),
{
    if s.len() == 0 {
        seq![]
    } else if pat.len() > 0 && starts_with(s, pat) {
        rep + replaced(s.subrange(pat.len() as int, s.len() as int), pat, rep)
    } else {
        seq![s[0]] + replaced(s.drop_first(), pat, rep)
    }
}

/// `s` with every occurrence of `pat` replaced by `rep`.
pub fn replace_all(s: &str, pat: &str, rep: &str) -> (r: String)
    requires
        pat@.len() > 0,
    ensures
        r@ == replaced(s@, pat@, rep@),
{
    let v = chars_of(s);
    let p = chars_of(pat);
    let n = v.len();
    let mut out = String::new();
    let mut i: usize = 0;
    assert(v@.subrange(0, n as int) == v@);
    while i < n
        invariant
            i <= n == v.len(),
            v@ == s@,
            p@ == pat@,
            p@.len() > 0,
            out@ + replaced(v@.subrange(i as int, n as int), pat@, rep@) == replaced(s@, pat@, rep@),
        decreases n - i,
    {
        let ghost rest = v@.subrange(i as int, n as int);
        let ghost before = out@;
        if p.len() <= n - i && matches_at(&v, &p, i) {
            assert(rest.subrange(0, p@.len() as int) == v@.subrange(i as int, i + p.len()));
            assert(rest.subrange(p@.len() as int, rest.len() as int) == v@.subrange(
                i + p.len(),
                n as int,
            ));
            out.append(rep);
            assert(out@ + replaced(v@.subrange(i + p.len(), n as int), pat@, rep@) =~= before
                + replaced(rest, pat@, rep@));
            i += p.len();
        } else {
            assert(!starts_with(rest, pat@)) by {
                if p.len() <= n - i {
                    assert(rest.subrange(0, p@.len() as int) == v@.subrange(i as int, i + p.len()));
                }
            }
            assert(rest.drop_first() == v@.subrange(i + 1, n as int));
            push_char(&mut out, v[i]);
            assert(out@ + replaced(v@.subrange(i + 1, n as int), pat@, rep@) =~= before + replaced(
                rest,
                pat@,
                rep@,
            ));
            i += 1;
        }
    }
    assert(out@ + replaced(v@.subrange(n as int, n as int), pat@, rep@) =~= out@);
    out
}

/// Further names known to carry the icon of a few common packages.
pub open spec fn alias_names(app: Seq<char>) -> Seq<Seq<char>> {
    if app == "code"@ {
        seq!["vscode"@, "visual-studio-code"@, "com.visualstudio.code"@]
    } else if app == "brave-bin"@ {
        seq!["brave"@, "brave-browser"@]
    } else if app == "obs-studio"@ {
        seq!["obs"@, "com.obsproject.Studio"@]
    } else if app == "libreoffice-fresh"@ || app == "libreoffice-still"@ {
        seq!["libreoffice"@, "libreoffice-startcenter"@]
    } else if app == "telegram-desktop"@ {
        seq!["telegram"@]
    } else if app == "slack-desktop"@ {
        seq!["slack"@]
    } else {
        seq![]
    }
}

pub open spec fn variant(app: Seq<char>, pat: Seq<char>, rep: Seq<char>) -> Seq<Seq<char>> {
    if contains(app, pat) {
        seq![replaced(app, pat, rep)]
    } else {
        seq![]
    }
}

/// The names an application's icon may be filed under, in the order they are
/// tried: the name itself; without `-bin`; without `-desktop`; with `_` as
/// `-`; with `-` as `_`; then the known aliases.
pub open spec fn icon_names(app: Seq<char>) -> Seq<Seq<char>> {
    seq![app] + variant(app, "-bin"@, ""@) + variant(app, "-desktop"@, ""@) + variant(
        app,
        "_"@,
        "-"@,
    ) + variant(app, "-"@, "_"@) + alias_names(app)
}

pub open spec fn name_views(v: Seq<String>) -> Seq<Seq<char>> {
    v.map_values(|s: String| s@)
}

fn push_name(names: &mut Vec<String>, s: String)
    ensures
        name_views(final(names)@) == name_views(old(names)@).push(s@),
{
    let ghost before = name_views(names@);
    names.push(s);
    assert(name_views(names@) =~= before.push(s@));
}

fn push_variant(names: &mut Vec<String>, app: &str, pat: &str, rep: &str)
    requires
        pat@.len() > 0,
    ensures
        name_views(final(names)@) == name_views(old(names)@) + variant(app@, pat@, rep@),
{
    let a = chars_of(app);
    let p = chars_of(pat);
    if has_infix(&a, &p) {
        push_name(names, replace_all(app, pat, rep));
        assert(name_views(names@) =~= name_views(old(names)@) + variant(app@, pat@, rep@));
    } else {
        assert(name_views(names@) =~= name_views(old(names)@) + variant(app@, pat@, rep@));
    }
}

/// The names to look an application's icon up under.
pub fn icon_name_variations(app_name: &str) -> (r: Vec<String>)
    ensures
        name_views(r@) == icon_names(app_name@),
{
    proof {
        reveal_strlit("-bin");
        reveal_strlit("-desktop");
        reveal_strlit("_");
        reveal_strlit("-");
    }
    let mut names: Vec<String> = Vec::new();
    push_name(&mut names, copy_text(app_name));
    push_variant(&mut names, app_name, "-bin", "");
    push_variant(&mut names, app_name, "-desktop", "");
    push_variant(&mut names, app_name, "_", "-");
    push_variant(&mut names, app_name, "-", "_");
    let ghost base = name_views(names@);
    if same_text(app_name, "code") {
        push_name(&mut names, copy_text("vscode"));
        push_name(&mut names, copy_text("visual-studio-code"));
        push_name(&mut names, copy_text("com.visualstudio.code"));
    } else if same_text(app_name, "brave-bin") {
        push_name(&mut names, copy_text("brave"));
        push_name(&mut names, copy_text("brave-browser"));
    } else if same_text(app_name, "obs-studio") {
        push_name(&mut names, copy_text("obs"));
        push_name(&mut names, copy_text("com.obsproject.Studio"));
    } else if same_text(app_name, "libreoffice-fresh") || same_text(app_name, "libreoffice-still") {
        push_name(&mut names, copy_text("libreoffice"));
        push_name(&mut names, copy_text("libreoffice-startcenter"));
    } else if same_text(app_name, "telegram-desktop") {
        push_name(&mut names, copy_text("telegram"));
    } else if same_text(app_name, "slack-desktop") {
        push_name(&mut names, copy_text("slack"));
    }
    assert(name_views(names@) =~= base + alias_names(app_name@));
    names
}

} // verus!
