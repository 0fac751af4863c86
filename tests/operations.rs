use archstore::backend::{select_helper, Helper};
use archstore::models::InstallProgress;
use archstore::operation::{
    enable_multilib, install_package, remove_package, update_aur, update_flatpak,
    update_official, update_system, Action, CommandOutput, Coordinator, Event, Invocation,
    RunOutcome, Step,
};
use archstore::progress::line_event;

fn exited(success: bool, stdout: &str, stderr: &str) -> Event {
    Event::Ran(RunOutcome::Exited(CommandOutput {
        success,
        stdout: stdout.to_string(),
        stderr: stderr.to_string(),
    }))
}

fn run_of(step: &Step) -> &Invocation {
    match &step.action {
        Action::Run(inv) => inv,
        other => panic!("expected a run, got {:?}", other),
    }
}

fn completed(events: &[InstallProgress]) -> usize {
    events.iter().filter(|e| e.completed).count()
}

#[test]
fn install_official_runs_elevated_pacman() {
    let (mut c, s) = install_package("vim".to_string(), "official", "pw".to_string());
    assert_eq!(s.events[0].percentage, 10);
    assert_eq!(s.events[0].message, "Starting installation of vim...");
    let inv = run_of(&s);
    assert_eq!(inv.command.program, "sudo");
    assert_eq!(inv.command.args, vec!["-S", "pacman", "-S", "--noconfirm", "vim"]);
    assert_eq!(inv.secret.as_deref(), Some("pw"));
    assert!(inv.filter_prompt);
    let s = c.advance(exited(true, "", ""));
    match s.action {
        Action::Finish(Ok(_)) => {}
        other => panic!("{:?}", other),
    }
    let last = s.events.last().unwrap();
    assert!(last.completed);
    assert_eq!(last.percentage, 100);
}

#[test]
fn install_unknown_source_fails_without_process() {
    let (_c, s) = install_package("vim".to_string(), "snap", "pw".to_string());
    match &s.action {
        Action::Finish(Err(m)) => assert_eq!(m, "Unknown package source"),
        other => panic!("{:?}", other),
    }
    let last = s.events.last().unwrap();
    assert!(last.completed);
    assert_eq!(last.percentage, 0);
    assert_eq!(completed(&s.events), 1);
}

#[test]
fn install_aur_without_helper_fails() {
    let (mut c, s) = install_package("foo".to_string(), "aur", "pw".to_string());
    assert!(matches!(s.action, Action::ProbeHelper));
    let s = c.advance(Event::HelperFound(None));
    match &s.action {
        Action::Finish(Err(m)) => assert_eq!(m, "No AUR helper found. Please install yay or paru."),
        other => panic!("{:?}", other),
    }
    assert_eq!(s.events.last().unwrap().percentage, 0);
}

#[test]
fn install_aur_runs_helper_script() {
    let (mut c, _) = install_package("a/b".to_string(), "aur", "pw".to_string());
    let s = c.advance(Event::HelperFound(Some(Helper::Paru)));
    assert_eq!(s.events[0].message, "Using paru to install a/b...");
    let inv = run_of(&s);
    assert_eq!(inv.command.program, "/tmp/archstore_install_a_b.sh");
    assert!(inv.command.args.is_empty());
    assert_eq!(
        inv.script.as_deref(),
        Some("#!/bin/bash\necho 'pw' | sudo -S -v\nparu -S --noconfirm a/b\n")
    );
    assert!(inv.secret.is_none());
    assert_eq!(inv.stdout_percentage, 60);
    let s = c.advance(Event::Ran(RunOutcome::SpawnFailed("denied".to_string())));
    match &s.action {
        Action::Finish(Err(m)) => assert_eq!(m, "Failed to spawn AUR helper: denied"),
        other => panic!("{:?}", other),
    }
}

#[test]
fn install_failure_prefers_error_stream() {
    let (mut c, _) = install_package("vim".to_string(), "flatpak", "".to_string());
    let s = c.advance(exited(false, "out text", ""));
    match &s.action {
        Action::Finish(Err(m)) => assert_eq!(m, "Installation failed: out text"),
        other => panic!("{:?}", other),
    }
    assert_eq!(s.events.last().unwrap().message, "Installation failed: out text");
    let (mut c, _) = install_package("vim".to_string(), "flatpak", "".to_string());
    let s = c.advance(exited(false, "out text", "err text"));
    match &s.action {
        Action::Finish(Err(m)) => assert_eq!(m, "Installation failed: err text"),
        other => panic!("{:?}", other),
    }
    let (mut c, _) = install_package("vim".to_string(), "official", "".to_string());
    let s = c.advance(exited(false, "", ""));
    match &s.action {
        Action::Finish(Err(m)) => {
            assert_eq!(m, "Installation failed: Installation failed with unknown error")
        }
        other => panic!("{:?}", other),
    }
    let (mut c, _) = install_package("vim".to_string(), "official", "".to_string());
    let s = c.advance(Event::Ran(RunOutcome::CredentialFailed("broken pipe".to_string())));
    match &s.action {
        Action::Finish(Err(m)) => assert_eq!(m, "Failed to write password: broken pipe"),
        other => panic!("{:?}", other),
    }
    let (mut c, _) = install_package("vim".to_string(), "official", "".to_string());
    let s = c.advance(Event::Ran(RunOutcome::WaitFailed("gone".to_string())));
    match &s.action {
        Action::Finish(Err(m)) => assert_eq!(m, "Failed to execute installer: gone (official)"),
        other => panic!("{:?}", other),
    }
}

#[test]
fn recursive_removal_uses_dependency_cleaning_form() {
    let (_c, s) = remove_package("vim".to_string(), "official", "recursive", "pw".to_string());
    let inv = run_of(&s);
    assert_eq!(inv.command.args, vec!["-S", "pacman", "-Rns", "--noconfirm", "vim"]);
    let (_c, s) = remove_package("vim".to_string(), "aur", "plain", "pw".to_string());
    let inv = run_of(&s);
    assert_eq!(inv.command.args, vec!["-S", "pacman", "-R", "--noconfirm", "vim"]);
    let (_c, s) = remove_package("org.x.Y".to_string(), "flatpak", "recursive", "".to_string());
    let inv = run_of(&s);
    assert_eq!(inv.command.program, "flatpak");
    assert_eq!(inv.command.args, vec!["uninstall", "-y", "org.x.Y"]);
}

#[test]
fn removal_outcomes() {
    let (mut c, _) = remove_package("vim".to_string(), "official", "plain", "pw".to_string());
    let s = c.advance(exited(false, "", "target not found: vim"));
    match &s.action {
        Action::Finish(Err(m)) => assert_eq!(m, "Removal failed: target not found: vim"),
        other => panic!("{:?}", other),
    }
    let (mut c, _) = remove_package("vim".to_string(), "flatpak", "plain", "pw".to_string());
    let s = c.advance(exited(true, "", ""));
    assert_eq!(s.events.last().unwrap().message, "Removal completed successfully!");
}

#[test]
fn full_update_with_one_terminal_event() {
    let (mut c, s) = update_system("pw".to_string());
    let mut all: Vec<InstallProgress> = s.events.clone();
    let inv = run_of(&s);
    assert_eq!(inv.command.args, vec!["-S", "pacman", "-Syu", "--noconfirm"]);
    assert_eq!(inv.stdout_percentage, 30);
    let s = c.advance(exited(true, "", ""));
    all.extend(s.events.clone());
    assert!(matches!(s.action, Action::ProbeHelper));
    let s = c.advance(Event::HelperFound(Some(Helper::Yay)));
    all.extend(s.events.clone());
    let inv = run_of(&s);
    assert_eq!(inv.command.program, "/tmp/archstore_update_aur.sh");
    assert_eq!(
        inv.script.as_deref(),
        Some("#!/bin/bash\necho 'pw' | sudo -S -v\nyay -Sua --noconfirm\n")
    );
    let s = c.advance(exited(false, "", "oops"));
    all.extend(s.events.clone());
    assert_eq!(s.events[0].message, "AUR update completed with warnings (continuing...)");
    let inv = run_of(&s);
    assert_eq!(inv.command.args, vec!["update", "-y"]);
    assert_eq!(inv.stdout_percentage, 85);
    let s = c.advance(exited(false, "", ""));
    all.extend(s.events.clone());
    match &s.action {
        Action::Finish(Ok(m)) => assert_eq!(m, "System updated successfully"),
        other => panic!("{:?}", other),
    }
    assert_eq!(completed(&all), 1);
    assert!(all.last().unwrap().completed);
    assert_eq!(all.last().unwrap().percentage, 100);
}

#[test]
fn full_update_stops_when_official_fails() {
    let (mut c, _) = update_system("pw".to_string());
    let s = c.advance(exited(false, "", "conflict"));
    match &s.action {
        Action::Finish(Err(m)) => assert_eq!(m, "Official packages update failed: conflict"),
        other => panic!("{:?}", other),
    }
    assert_eq!(s.events.last().unwrap().percentage, 0);
}

#[test]
fn full_update_without_helper_goes_to_flatpak() {
    let (mut c, _) = update_system("pw".to_string());
    c.advance(exited(true, "", ""));
    let s = c.advance(Event::HelperFound(None));
    assert_eq!(s.events[0].percentage, 75);
    assert_eq!(run_of(&s).command.program, "flatpak");
}

#[test]
fn single_backend_updates() {
    let (mut c, s) = update_official("pw".to_string());
    assert_eq!(run_of(&s).stdout_percentage, 50);
    let s = c.advance(exited(true, "", ""));
    assert!(matches!(s.action, Action::Finish(Ok(_))));
    let (mut c, s) = update_aur("pw".to_string());
    assert_eq!(s.events.len(), 1);
    assert_eq!(s.events[0].message, ":: Starting AUR packages update...");
    let s = c.advance(Event::HelperFound(None));
    assert!(matches!(s.action, Action::Finish(Err(_))));
    let (mut c, _) = update_flatpak();
    let s = c.advance(exited(false, "", ""));
    match &s.action {
        Action::Finish(Err(m)) => assert_eq!(m, "Flatpak packages update failed: unknown error"),
        other => panic!("{:?}", other),
    }
    let last = s.events.last().unwrap();
    assert!(last.completed);
    assert_eq!(last.percentage, 0);
    let (mut c, _) = update_flatpak();
    let s = c.advance(exited(true, "", ""));
    assert_eq!(s.events.last().unwrap().message, ":: Flatpak packages updated successfully!");
    assert!(matches!(s.action, Action::Finish(Ok(_))));
}

fn run_enable(c: &mut Coordinator, check: &str) -> Step {
    c.advance(exited(true, check, ""))
}

#[test]
fn enabling_twice_leaves_enabled_repository_alone() {
    let (mut c, s) = enable_multilib("pw".to_string());
    assert_eq!(run_of(&s).command.program, "grep");
    let s = run_enable(&mut c, "");
    let inv = run_of(&s);
    assert_eq!(inv.command.program, "sudo");
    assert_eq!(inv.secret.as_deref(), Some("pw"));
    let s = c.advance(exited(true, "", ""));
    assert_eq!(run_of(&s).command.args[3], "/^\\[multilib\\]$/,/^#Include/ s/^#Include/Include/");
    let s = c.advance(exited(true, "", ""));
    assert_eq!(run_of(&s).command.args, vec!["-S", "pacman", "-Sy"]);
    let s = c.advance(exited(true, "", ""));
    assert!(matches!(s.action, Action::Finish(Ok(_))));
    let (mut c, _) = enable_multilib("pw".to_string());
    let s = run_enable(&mut c, "[multilib]\nInclude = /etc/pacman.d/mirrorlist\n");
    match &s.action {
        Action::Finish(Ok(m)) => assert_eq!(m, "Multilib is already enabled"),
        other => panic!("{:?}", other),
    }
    assert!(s.events.is_empty());
}

#[test]
fn enabling_reports_failed_edit() {
    let (mut c, _) = enable_multilib("pw".to_string());
    run_enable(&mut c, "");
    let s = c.advance(exited(false, "", "denied"));
    match &s.action {
        Action::Finish(Err(m)) => assert_eq!(m, "Failed to uncomment [multilib]: denied"),
        other => panic!("{:?}", other),
    }
}

#[test]
fn blank_lines_give_no_event() {
    assert!(line_event("", 50, false).is_none());
    assert!(line_event("  \t ", 50, true).is_none());
    let e = line_event(" downloading ", 50, false).unwrap();
    assert_eq!(e.message, " downloading ");
    assert_eq!(e.percentage, 50);
    assert!(!e.completed);
}

#[test]
fn password_prompt_is_dropped() {
    assert!(line_event("[sudo] password for alice: ", 30, true).is_none());
    assert!(line_event("x [sudo] password y", 30, true).is_none());
    assert!(line_event("[sudo] password for alice: ", 30, false).is_some());
}

#[test]
fn helper_preference() {
    assert_eq!(select_helper(true, true), Some(Helper::Yay));
    assert_eq!(select_helper(false, true), Some(Helper::Paru));
    assert_eq!(select_helper(false, false), None);
}

#[test]
fn flatpak_runs_drop_password_prompts() {
    let (_c, s) = update_flatpak();
    let inv = run_of(&s);
    assert!(inv.filter_prompt);
    assert!(inv.stderr_event("[sudo] password for bob:").is_none());
    assert!(inv.stderr_event("Installing 1/2").is_some());
    let (_c, s) = install_package("org.x.Y".to_string(), "flatpak", "".to_string());
    assert!(run_of(&s).filter_prompt);
}

#[test]
fn single_update_spawn_failure_is_an_error() {
    let (mut c, _) = update_flatpak();
    let s = c.advance(Event::Ran(RunOutcome::SpawnFailed("no such file".to_string())));
    match &s.action {
        Action::Finish(Err(m)) => assert_eq!(m, "Failed to spawn flatpak update: no such file"),
        other => panic!("{:?}", other),
    }
    assert_eq!(s.events.last().unwrap().percentage, 0);
    let (mut c, _) = update_aur("pw".to_string());
    c.advance(Event::HelperFound(Some(Helper::Yay)));
    let s = c.advance(Event::Ran(RunOutcome::WaitFailed("lost".to_string())));
    match &s.action {
        Action::Finish(Err(m)) => assert_eq!(m, "Failed to update AUR packages: lost"),
        other => panic!("{:?}", other),
    }
}

#[test]
fn events_never_carry_the_password() {
    let secret = "s3cret-pw";
    let (mut c, s) = install_package("foo".to_string(), "aur", secret.to_string());
    let mut all = s.events.clone();
    let s = c.advance(Event::HelperFound(Some(Helper::Yay)));
    all.extend(s.events.clone());
    let s = c.advance(exited(false, "", "boom"));
    all.extend(s.events.clone());
    assert!(all.iter().all(|e| !e.message.contains(secret)));
    assert_eq!(all.last().unwrap().message, "Installation failed: boom");
}

#[test]
fn single_aur_update_fails_on_failed_exit() {
    let (mut c, _) = update_aur("pw".to_string());
    let s = c.advance(Event::HelperFound(Some(Helper::Yay)));
    assert!(s.events.is_empty());
    let s = c.advance(exited(false, "", "target not found"));
    match &s.action {
        Action::Finish(Err(m)) => assert_eq!(m, "AUR packages update failed: target not found"),
        other => panic!("{:?}", other),
    }
    let last = s.events.last().unwrap();
    assert!(last.completed);
    assert_eq!(last.percentage, 0);
    assert_eq!(last.message, "AUR packages update failed: target not found");
}
