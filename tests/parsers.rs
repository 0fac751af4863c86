use archstore::models::Source;
use archstore::parsers::{
    marked_installed, parse_aur_search, parse_flatpak_search, parse_package_info,
    parse_pacman_search, parse_rows, RowKind,
};

#[test]
fn empty_input_gives_no_packages() {
    assert!(parse_pacman_search("").is_empty());
    assert!(parse_aur_search("").is_empty());
    assert!(parse_flatpak_search("").is_empty());
    assert!(parse_rows("", RowKind::Installed(Source::Official)).is_empty());
    assert!(parse_rows("", RowKind::FlatpakUpdate).is_empty());
    let p = parse_package_info("").unwrap();
    assert_eq!(p.name, "");
    assert_eq!(p.version, "");
    assert_eq!(p.description, "");
    assert_eq!(p.size, "");
    assert!(!p.installed);
}

#[test]
fn aur_block_gives_one_record() {
    let v = parse_aur_search("aur/foo 1.2.3 [installed]\n    A sample tool");
    assert_eq!(v.len(), 1);
    assert_eq!(v[0].name, "foo");
    assert_eq!(v[0].version, "1.2.3");
    assert!(v[0].installed);
    assert_eq!(v[0].description, "A sample tool");
    assert_eq!(v[0].source, Source::Aur);
}

#[test]
fn aur_search_skips_other_repositories() {
    let out = "extra/foo 1.0-1\n    From extra\naur/bar 2.0-1\n    From the AUR\n";
    let v = parse_aur_search(out);
    assert_eq!(v.len(), 1);
    assert_eq!(v[0].name, "bar");
    assert_eq!(v[0].description, "From the AUR");
    assert!(!v[0].installed);
}

#[test]
fn flatpak_row_after_header() {
    let out = "Name\tDescription\tApplication ID\tVersion\nDisplay Name\tSummary\tapp.id.Foo\t2.0\n";
    let v = parse_flatpak_search(out);
    assert_eq!(v.len(), 1);
    assert_eq!(v[0].name, "app.id.Foo");
    assert_eq!(v[0].version, "2.0");
    assert_eq!(v[0].description, "Display Name - Summary");
    assert_eq!(v[0].source, Source::Flatpak);
}

#[test]
fn flatpak_short_rows_are_skipped() {
    let out = "Header\nOnly\ttwo\nA\t B \t id.x \n";
    let v = parse_flatpak_search(out);
    assert_eq!(v.len(), 1);
    assert_eq!(v[0].name, "id.x");
    assert_eq!(v[0].version, "");
    assert_eq!(v[0].description, "A - B");
}

#[test]
fn pacman_search_groups() {
    let out = "extra/vim 9.0-1 [installed]\n    Vi Improved\ncore/bash 5.2-1\n\ncore/zsh 5.9-1\n    A shell\n";
    let v = parse_pacman_search(out);
    assert_eq!(v.len(), 3);
    assert_eq!(v[0].name, "vim");
    assert!(v[0].installed);
    assert_eq!(v[0].description, "Vi Improved");
    assert_eq!(v[1].name, "bash");
    assert_eq!(v[1].version, "5.2-1");
    assert_eq!(v[1].description, "");
    assert!(!v[1].installed);
    assert_eq!(v[2].name, "zsh");
    assert_eq!(v[2].description, "A shell");
    assert_eq!(v[2].source, Source::Official);
}

#[test]
fn installed_marker_in_any_case() {
    let v = parse_pacman_search("extra/vim 9.0-1 [INSTALLED]\n");
    assert_eq!(v.len(), 1);
    assert!(v[0].installed);
    assert!(marked_installed("x 1.0 [installed]"));
    assert!(!marked_installed("x [INSTALLED]"));
}

#[test]
fn package_info_fields() {
    let out = "Repository      : extra\nName            : vim\nVersion         : 9.0-1\nDescription     : Vi: Improved\nDownload Size   : 1.2 MiB\nInstalled Size  : 3.4 MiB\nPackager        : someone\n";
    let p = parse_package_info(out).unwrap();
    assert_eq!(p.name, "vim");
    assert_eq!(p.version, "9.0-1");
    assert_eq!(p.description, "Vi: Improved");
    assert_eq!(p.size, "3.4 MiB");
    assert_eq!(p.source, Source::Official);
}

#[test]
fn installed_and_update_rows() {
    let v = parse_rows("linux 6.1-1\nbad\n", RowKind::Installed(Source::Official));
    assert_eq!(v.len(), 1);
    assert_eq!(v[0].name, "linux");
    assert_eq!(v[0].version, "6.1-1");
    assert!(v[0].installed);
    let u = parse_rows("linux 6.1-1 -> 6.2-1\n", RowKind::Update(Source::Official));
    assert_eq!(u[0].version, "6.2-1");
    assert_eq!(u[0].description, "Update available: 6.1-1 -> 6.2-1");
    let a = parse_rows("yay 12.0-1 -> 12.1-1\n", RowKind::Update(Source::Aur));
    assert_eq!(a[0].description, "AUR update available: 12.0-1 -> 12.1-1");
    assert_eq!(a[0].source, Source::Aur);
    let f = parse_rows("Firefox\torg.mozilla.firefox\t120.0\n", RowKind::FlatpakUpdate);
    assert_eq!(f[0].name, "org.mozilla.firefox");
    assert_eq!(f[0].description, "Firefox - Update available");
    let l = parse_rows("Firefox\torg.mozilla.firefox\n", RowKind::FlatpakInstalled);
    assert_eq!(l[0].version, "");
    assert_eq!(l[0].description, "Firefox");
}

#[test]
fn package_info_splits_on_first_colon() {
    let out = "Name            : foo\nVersion         : 1:2.3-1\nDescription     : A tool: fast\nInstalled Size  : 1.50 MiB\nNo colon here\n";
    let p = parse_package_info(out).unwrap();
    assert_eq!(p.name, "foo");
    assert_eq!(p.version, "1:2.3-1");
    assert_eq!(p.description, "A tool: fast");
    assert_eq!(p.size, "1.50 MiB");
    assert!(!p.installed);
    let q = parse_package_info("Name\n").unwrap();
    assert_eq!(q.name, "");
}
