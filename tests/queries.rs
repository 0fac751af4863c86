use archstore::backend::{installed_probe_command, Helper};
use archstore::models::Source;
use archstore::operation::CommandOutput;
use archstore::queries::{
    check_system_capabilities, check_updates, get_installed_packages, get_package_info,
    multilib_configured, search_aur_packages, search_flatpak_packages, search_official_packages,
};

fn ok(stdout: &str) -> Result<CommandOutput, String> {
    Ok(CommandOutput { success: true, stdout: stdout.to_string(), stderr: String::new() })
}

fn failed() -> Result<CommandOutput, String> {
    Ok(CommandOutput { success: false, stdout: String::new(), stderr: "e".to_string() })
}

#[test]
fn missing_helper_search_errs_listing_omits() {
    match search_aur_packages(&None) {
        Err(m) => assert_eq!(m, "No AUR helper found. Please install yay or paru."),
        Ok(_) => panic!("expected an error"),
    }
    let v = get_installed_packages(&ok("bash 5.2-1\n"), &None, &ok("Firefox\torg.mozilla.firefox\t120.0\n"));
    assert_eq!(v.len(), 2);
    assert!(v.iter().all(|p| p.source != Source::Aur));
}

#[test]
fn installed_listing_from_all_backends() {
    let v = get_installed_packages(
        &ok("bash 5.2-1\nvim 9.0-1\n"),
        &Some(ok("yay 12.0-1\n")),
        &failed(),
    );
    assert_eq!(v.len(), 3);
    assert_eq!(v[2].name, "yay");
    assert_eq!(v[2].source, Source::Aur);
    assert!(v.iter().all(|p| p.installed));
}

#[test]
fn official_search_marks_installed() {
    let r = search_official_packages(
        &ok("extra/vim 9.0-1\n    Vi Improved\nextra/nano 7.2-1\n    Editor\n"),
        &Some(ok("nano 7.2-1\n")),
    )
    .unwrap();
    assert!(!r[0].installed);
    assert!(r[1].installed);
    assert!(search_official_packages(&failed(), &None).unwrap().is_empty());
    match search_official_packages(&Err("not found".to_string()), &None) {
        Err(m) => assert_eq!(m, "Failed to execute pacman: not found"),
        Ok(_) => panic!("expected an error"),
    }
}

#[test]
fn flatpak_search_marks_installed() {
    let r = search_flatpak_packages(
        &ok("Name\tDescription\tApplication ID\tVersion\nFirefox\tBrowser\torg.mozilla.firefox\t120.0\n"),
        &Some(ok("Firefox\torg.mozilla.firefox\t120.0\n")),
    )
    .unwrap();
    assert_eq!(r.len(), 1);
    assert!(r[0].installed);
}

#[test]
fn aur_search_outcomes() {
    let r = search_aur_packages(&Some((Helper::Yay, ok("aur/foo 1.0-1\n    Foo\n")))).unwrap();
    assert_eq!(r[0].name, "foo");
    assert!(search_aur_packages(&Some((Helper::Yay, failed()))).unwrap().is_empty());
    match search_aur_packages(&Some((Helper::Paru, Err("missing".to_string())))) {
        Err(m) => assert_eq!(m, "Failed to execute paru: missing"),
        Ok(_) => panic!("expected an error"),
    }
}

#[test]
fn updates_from_all_backends() {
    let v = check_updates(
        &ok("linux 6.1-1 -> 6.2-1\n"),
        &Some(ok("yay 12.0-1 -> 12.1-1\n")),
        &ok("Firefox\torg.mozilla.firefox\t121.0\n"),
    )
    .unwrap();
    assert_eq!(v.len(), 3);
    assert_eq!(v[0].description, "Update available: 6.1-1 -> 6.2-1");
    assert_eq!(v[1].description, "AUR update available: 12.0-1 -> 12.1-1");
    assert_eq!(v[2].description, "Firefox - Update available");
    match check_updates(&Err("no tool".to_string()), &None, &failed()) {
        Err(m) => assert_eq!(m, "Failed to check updates: no tool"),
        Ok(_) => panic!("expected an error"),
    }
}

#[test]
fn package_detail_with_probe() {
    let info = ok("Name            : foo\nVersion         : 1.0-1\n");
    let p = get_package_info("foo", Source::Aur, &info, &Some(ok("aur/foo 1.0-1 [Installed]\n    Foo\n")))
        .unwrap();
    assert_eq!(p.name, "foo");
    assert!(p.installed);
    let p = get_package_info("foo", Source::Aur, &info, &Some(ok("aur/foobar 1.0-1\n"))).unwrap();
    assert!(!p.installed);
    let p = get_package_info("foo", Source::Official, &info, &Some(ok(""))).unwrap();
    assert!(p.installed);
    let p = get_package_info("org.x.Foo", Source::Flatpak, &info, &Some(ok("X\torg.x.Foo\t1\n"))).unwrap();
    assert!(p.installed);
    match get_package_info("foo", Source::Official, &failed(), &None) {
        Err(m) => assert_eq!(m, "Failed to get package info"),
        Ok(_) => panic!("expected an error"),
    }
}

#[test]
fn probe_commands() {
    let c = installed_probe_command("vim", Source::Official, None).unwrap();
    assert_eq!(c.args, vec!["-Qs", "^vim$"]);
    assert!(installed_probe_command("vim", Source::Aur, None).is_none());
}

#[test]
fn capabilities_read_configuration() {
    assert!(multilib_configured("[options]\n[multilib]\n  Include = /etc/pacman.d/mirrorlist\n"));
    assert!(!multilib_configured("#[multilib]\n#Include = /etc/pacman.d/mirrorlist\n"));
    assert!(!multilib_configured("Include = x\n[multilib]\n"));
    let c = check_system_capabilities(false, true, false, &Some("[multilib]\nInclude = m\n".to_string()));
    assert!(c.has_aur_helper);
    assert!(!c.has_flatpak);
    assert!(c.multilib_enabled);
    assert!(!check_system_capabilities(false, false, true, &None).multilib_enabled);
}
