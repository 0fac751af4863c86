use vstd::prelude::*;
use vstd::string::StringExecFns;

use crate::backend::{
    command, helper_spec_name, no_helper_message, source_spec_tag, with_arg, CommandLine, Helper, RemoveMode,
};
use crate::models::{InstallProgress, Source};
use crate::progress::{event, line_event, forwards};
use crate::text::{chars_of, contains, copy_text, has_infix, join2, join3, replace_char};

verus! {

/// What a finished process left behind.
#[derive(Clone, Debug)]
pub struct CommandOutput {
    pub success: bool,
    pub stdout: String,
    pub stderr: String,
}

/// How an attempt to run an invocation ended; the text is the system's reason.
#[derive(Clone, Debug)]
pub enum RunOutcome {
    /// The script file could not be written.
    ScriptWriteFailed(String),
    /// The script file could not be made executable.
    ScriptModeFailed(String),
    /// The process could not be started.
    SpawnFailed(String),
    /// The credential could not be written to the process's input.
    CredentialFailed(String),
    /// The exit status could not be collected.
    WaitFailed(String),
    /// The process ran to its end.
    Exited(CommandOutput),
}

/// A process to run, and how to feed and read it.
#[derive(Clone, Debug)]
pub struct Invocation {
    pub command: CommandLine,
    /// Written to the process's input, then a line end, right after spawning.
    pub secret: Option<String>,
    /// Written to `command.program` and made executable before spawning, and
    /// removed once the process has exited.
    pub script: Option<String>,
    pub stdout_percentage: u32,
    pub stderr_percentage: u32,
    /// Whether error-stream lines that hold the password prompt are dropped.
    pub filter_prompt: bool,
}

impl Invocation {
    /// The event for a line read from the process's output stream.
    pub fn stdout_event(&self, line: &str) -> (r: Option<InstallProgress>)
        ensures
            r is Some == forwards(line@, false),
            r matches Some(e) ==> e.percentage == self.stdout_percentage && e.message@ == line@
                && !e.completed,
    {
        line_event(line, self.stdout_percentage, false)
    }

    /// The event for a line read from the process's error stream.
    pub fn stderr_event(&self, line: &str) -> (r: Option<InstallProgress>)
        ensures
            r is Some == forwards(line@, self.filter_prompt),
            r matches Some(e) ==> e.percentage == self.stderr_percentage && e.message@ == line@
                && !e.completed,
    {
        line_event(line, self.stderr_percentage, self.filter_prompt)
    }
}

/// What the caller does next.
#[derive(Debug)]
pub enum Action {
    /// Probe the AUR helpers and report the selection.
    ProbeHelper,
    /// Run the invocation and report how it ended.
    Run(Invocation),
    /// The operation is over, with this result.
    Finish(Result<String, String>),
}

/// What the caller reports back.
#[derive(Debug)]
pub enum Event {
    HelperFound(Option<Helper>),
    Ran(RunOutcome),
}

/// Progress events to emit, in order, and the next action.
#[derive(Debug)]
pub struct Step {
    pub events: Vec<InstallProgress>,
    pub action: Action,
}

#[derive(Clone, Copy, Debug, PartialEq, Eq, Structural)]
pub enum Operation {
    Install,
    Remove,
    UpdateAll,
    UpdateOfficial,
    UpdateAur,
    UpdateFlatpak,
    EnableMultilib,
}

#[derive(Clone, Copy, Debug, PartialEq, Eq, Structural)]
pub enum Stage {
    AwaitHelper,
    AwaitMain,
    AwaitOfficial,
    AwaitAur,
    AwaitFlatpak,
    AwaitCheck,
    AwaitUncomment,
    AwaitInclude,
    AwaitSync,
    Done,
}

/// Events that announce progress without ending the operation.
pub open spec fn pending(evs: Seq<InstallProgress>) -> bool {
    forall|i: int| 0 <= i < evs.len() ==> (#[trigger] evs[i]).percentage <= 100 && !evs[i].completed
}

/// The shape every step has. Where the operation reports progress, a step
/// ends the operation exactly when its last event is completed; that event is
/// 100% on success and 0% with the error text on failure, and no other event
/// is completed. An operation that does not report progress emits nothing.
pub open spec fn step_ok(s: Step, reports: bool) -> bool {
    let evs = s.events@;
    if reports {
        match s.action {
            Action::Finish(res) => {
                &&& evs.len() > 0
                &&& pending(evs.drop_last())
                &&& evs.last().completed
                &&& evs.last().percentage == (if res is Ok { 100u32 } else { 0u32 })
                &&& (res matches Err(m) ==> m@.len() > 0 && evs.last().message@ == m@)
            },
            _ => pending(evs),
        }
    } else {
        &&& evs.len() == 0
        &&& (s.action matches Action::Finish(Err(m)) ==> m@.len() > 0)
    }
}

/// The most telling text of a failed run: its error stream, else its output,
/// else `generic`.
pub open spec fn diagnostic(o: CommandOutput, generic: Seq<char>) -> Seq<char> {
    if o.stderr@.len() > 0 {
        o.stderr@
    } else if o.stdout@.len() > 0 {
        o.stdout@
    } else {
        generic
    }
}

pub fn diagnostic_of(o: &CommandOutput, generic: &str) -> (r: String)
    ensures
        r@ == diagnostic(*o, generic@),
{
    let e = chars_of(o.stderr.as_str());
    if e.len() > 0 {
        return o.stderr.clone();
    }
    let s = chars_of(o.stdout.as_str());
    if s.len() > 0 {
        return o.stdout.clone();
    }
    copy_text(generic)
}

/// The `grep` output shows the optional repository's section with its
/// `Include` line.
pub open spec fn multilib_listed(check: Seq<char>) -> bool {
    contains(check, "[multilib]"@) && contains(check, "Include"@)
}

pub fn multilib_already_enabled(check_output: &str) -> (r: bool)
    ensures
        r == multilib_listed(check_output@),
{
    let v = chars_of(check_output);
    let a = chars_of("[multilib]");
    let b = chars_of("Include");
    has_infix(&v, &a) && has_infix(&v, &b)
}

pub open spec fn slash_free(s: Seq<char>) -> Seq<char> {
    s.map_values(|c: char| if c == '/' { '_' } else { c })
}

/// Where the install script for `name` is written.
pub fn install_script_path(name: &str) -> (r: String)
    ensures
        r@ == "/tmp/archstore_install_"@ + slash_free(name@) + ".sh"@,
{
    let safe = replace_char(name, '/', '_');
    assert(safe@ =~= slash_free(name@));
    join3("/tmp/archstore_install_", safe.as_str(), ".sh")
}

/// A shell script that first validates the credential with the elevation
/// tool, then runs `helper` with `args`.
pub open spec fn elevation_script(password: Seq<char>, helper: Seq<char>, args: Seq<char>) -> Seq<char> {
    "#!/bin/bash\necho '"@ + password + "' | sudo -S -v\n"@ + helper + " "@ + args + "\n"@
}

pub fn elevation_script_text(password: &str, helper: &str, args: &str) -> (r: String)
    ensures
        r@ == elevation_script(password@, helper@, args@),
{
    let mut r = copy_text("#!/bin/bash\necho '");
    r.append(password);
    r.append("' | sudo -S -v\n");
    r.append(helper);
    r.append(" ");
    r.append(args);
    r.append("\n");
    r
}

/// The coordinator of one operation.
#[derive(Debug)]
pub struct Coordinator {
    pub operation: Operation,
    pub stage: Stage,
    pub name: String,
    pub source: Source,
    pub mode: RemoveMode,
    pub password: String,
}

impl Coordinator {
    /// Whether the operation reports progress events.
    pub open spec fn reports(&self) -> bool {
        self.operation != Operation::EnableMultilib
    }

    pub open spec fn is_done(&self) -> bool {
        self.stage == Stage::Done
    }

    /// The stage belongs to the operation.
    pub open spec fn wf(&self) -> bool {
        match self.stage {
            Stage::AwaitHelper => (self.operation == Operation::Install && self.source == Source::Aur)
                || self.operation == Operation::UpdateAur || self.operation == Operation::UpdateAll,
            Stage::AwaitMain => self.operation == Operation::Install || self.operation
                == Operation::Remove || self.operation == Operation::UpdateOfficial
                || self.operation == Operation::UpdateAur || self.operation
                == Operation::UpdateFlatpak,
            Stage::AwaitOfficial | Stage::AwaitAur | Stage::AwaitFlatpak => self.operation
                == Operation::UpdateAll,
            Stage::AwaitCheck | Stage::AwaitUncomment | Stage::AwaitInclude | Stage::AwaitSync =>
                self.operation == Operation::EnableMultilib,
            Stage::Done => true,
        }
    }

    /// The event is the report that the current stage waits for.
    pub open spec fn expects(&self, e: Event) -> bool {
        if self.stage == Stage::AwaitHelper {
            e is HelperFound
        } else {
            e is Ran
        }
    }
}

/// The percentage and message of each event, in order.
pub open spec fn shown(evs: Seq<InstallProgress>) -> Seq<(u32, Seq<char>)> {
    evs.map_values(|e: InstallProgress| (e.percentage, e.message@))
}

fn fail(events: Vec<InstallProgress>, msg: String) -> (r: Step)
    requires
        pending(events@),
        msg@.len() > 0,
    ensures
        step_ok(r, true),
        r.action == Action::Finish(Err::<String, String>(msg)),
        r.events@.drop_last() == events@,
        shown(r.events@) == shown(events@).push((0u32, msg@)),
{
    let mut events = events;
    let ghost before = events@;
    events.push(event(0, msg.clone(), true));
    assert(events@.drop_last() == before);
    assert(shown(events@) =~= shown(before).push((0u32, msg@)));
    Step { events, action: Action::Finish(Err(msg)) }
}

fn succeed(events: Vec<InstallProgress>, note: &str, result: &str) -> (r: Step)
    requires
        pending(events@),
    ensures
        step_ok(r, true),
        r.action matches Action::Finish(Ok(m)) && m@ == result@,
        r.events@.drop_last() == events@,
        r.events@.last().message@ == note@,
        shown(r.events@) == shown(events@).push((100u32, note@)),
{
    let mut events = events;
    let ghost before = events@;
    events.push(event(100, copy_text(note), true));
    assert(events@.drop_last() == before);
    assert(shown(events@) =~= shown(before).push((100u32, note@)));
    Step { events, action: Action::Finish(Ok(copy_text(result))) }
}

fn run(events: Vec<InstallProgress>, inv: Invocation) -> (r: Step)
    requires
        pending(events@),
    ensures
        step_ok(r, true),
        r.action == Action::Run(inv),
        r.events@ == events@,
{
    Step { events, action: Action::Run(inv) }
}

fn probe(events: Vec<InstallProgress>) -> (r: Step)
    requires
        pending(events@),
    ensures
        step_ok(r, true),
        r.action is ProbeHelper,
        r.events@ == events@,
{
    Step { events, action: Action::ProbeHelper }
}

fn quiet(action: Action) -> (r: Step)
    requires
        action matches Action::Finish(Err(m)) ==> m@.len() > 0,
    ensures
        step_ok(r, false),
        r.action == action,
{
    Step { events: Vec::new(), action }
}

fn note(events: &mut Vec<InstallProgress>, percentage: u32, message: String)
    requires
        pending(old(events)@),
        percentage <= 100,
    ensures
        pending(final(events)@),
        final(events)@.len() == old(events)@.len() + 1,
        final(events)@.drop_last() == old(events)@,
        final(events)@.last().percentage == percentage,
        final(events)@.last().message@ == message@,
        shown(final(events)@) == shown(old(events)@).push((percentage, message@)),
{
    let ghost before = events@;
    let ghost m = message@;
    events.push(event(percentage, message, false));
    assert(events@.drop_last() == before);
    assert(shown(events@) =~= shown(before).push((percentage, m)));
}

/// `prefix` followed by the system's reason.
fn reason(prefix: &str, detail: &str) -> (r: String)
    requires
        prefix@.len() > 0,
    ensures
        r@ == prefix@ + detail@,
        r@.len() > 0,
{
    join2(prefix, detail)
}

/// Runs `sudo -S <args>` with the credential on its input.
pub open spec fn is_elevated(inv: Invocation, args: Seq<Seq<char>>, password: Seq<char>) -> bool {
    &&& inv.command.program@ == "sudo"@
    &&& inv.command.spec_args() == seq!["-S"@] + args
    &&& inv.secret matches Some(p) && p@ == password
    &&& inv.script is None
    &&& inv.filter_prompt
}

/// Runs `program <args>` with nothing on its input.
pub open spec fn is_plain(inv: Invocation, program: Seq<char>, args: Seq<Seq<char>>) -> bool {
    &&& inv.command.program@ == program
    &&& inv.command.spec_args() == args
    &&& inv.secret is None
    &&& inv.script is None
    &&& inv.filter_prompt
}

/// Runs the script `content`, written to `path`.
pub open spec fn is_scripted(inv: Invocation, path: Seq<char>, content: Seq<char>) -> bool {
    &&& inv.command.program@ == path
    &&& inv.command.spec_args().len() == 0
    &&& inv.script matches Some(c) && c@ == content
    &&& inv.secret is None
    &&& inv.filter_prompt
}

pub open spec fn percentages(inv: Invocation, p: u32) -> bool {
    inv.stdout_percentage == p && inv.stderr_percentage == p
}

fn elevated(c: CommandLine, password: &String, percentage: u32) -> (r: Invocation)
    requires
        c.program@ == "sudo"@,
    ensures
        r.command == c,
        r.secret == Some(*password),
        r.script is None,
        r.filter_prompt,
        percentages(r, percentage),
{
    Invocation {
        command: c,
        secret: Some(password.clone()),
        script: None,
        stdout_percentage: percentage,
        stderr_percentage: percentage,
        filter_prompt: true,
    }
}

fn plain(c: CommandLine, percentage: u32) -> (r: Invocation)
    ensures
        r.command == c,
        r.secret is None,
        r.script is None,
        r.filter_prompt,
        percentages(r, percentage),
{
    Invocation {
        command: c,
        secret: None,
        script: None,
        stdout_percentage: percentage,
        stderr_percentage: percentage,
        filter_prompt: true,
    }
}

fn scripted(path: String, content: String, percentage: u32) -> (r: Invocation)
    ensures
        is_scripted(r, path@, content@),
        percentages(r, percentage),
{
    let c = CommandLine { program: path, args: Vec::new() };
    assert(c.spec_args() =~= Seq::<Seq<char>>::empty());
    Invocation {
        command: c,
        secret: None,
        script: Some(content),
        stdout_percentage: percentage,
        stderr_percentage: percentage,
        filter_prompt: true,
    }
}

/// `sudo -S pacman <flag> --noconfirm <name>`.
fn pacman_elevated(flag: &str, name: &str, password: &String, percentage: u32) -> (r: Invocation)
    ensures
        is_elevated(r, seq!["pacman"@, flag@, "--noconfirm"@, name@], password@),
        percentages(r, percentage),
{
    let c = command("sudo", &["-S", "pacman"]);
    let c = with_arg(c, flag);
    let c = with_arg(c, "--noconfirm");
    let c = with_arg(c, name);
    assert(c.spec_args() =~= seq!["-S"@] + seq!["pacman"@, flag@, "--noconfirm"@, name@]);
    elevated(c, password, percentage)
}

/// `sudo -S pacman -Syu --noconfirm`.
fn system_upgrade(password: &String, percentage: u32) -> (r: Invocation)
    ensures
        is_elevated(r, seq!["pacman"@, "-Syu"@, "--noconfirm"@], password@),
        percentages(r, percentage),
{
    let c = command("sudo", &["-S", "pacman", "-Syu", "--noconfirm"]);
    assert(c.spec_args() =~= seq!["-S"@] + seq!["pacman"@, "-Syu"@, "--noconfirm"@]);
    elevated(c, password, percentage)
}

/// `flatpak update -y`.
fn flatpak_update(percentage: u32) -> (r: Invocation)
    ensures
        is_plain(r, "flatpak"@, seq!["update"@, "-y"@]),
        percentages(r, percentage),
{
    let c = command("flatpak", &["update", "-y"]);
    assert(c.spec_args() =~= seq!["update"@, "-y"@]);
    plain(c, percentage)
}

pub open spec fn aur_update_script(password: Seq<char>, h: Helper) -> Seq<char> {
    elevation_script(password, helper_spec_name(h), "-Sua --noconfirm"@)
}

pub open spec fn aur_install_script(password: Seq<char>, h: Helper, name: Seq<char>) -> Seq<char> {
    elevation_script(password, helper_spec_name(h), "-S --noconfirm "@ + name)
}

/// The script run that updates the AUR packages with helper `h`.
fn aur_update(password: &String, h: Helper, percentage: u32) -> (r: Invocation)
    ensures
        is_scripted(r, "/tmp/archstore_update_aur.sh"@, aur_update_script(password@, h)),
        percentages(r, percentage),
{
    let content = elevation_script_text(password.as_str(), h.name(), "-Sua --noconfirm");
    scripted(copy_text("/tmp/archstore_update_aur.sh"), content, percentage)
}

/// Starts the installation of package `name` from the source tagged `source_tag`.
pub fn install_package(name: String, source_tag: &str, password: String) -> (r: (Coordinator, Step))
    ensures
        (exists|s: Source| source_spec_tag(s) == source_tag@) ==> source_spec_tag(r.0.source)
            == source_tag@,
        source_tag@ == "official"@ ==> shown(r.1.events@) == seq![
            (10u32, "Starting installation of "@ + name@ + "..."@),
            (30u32, "Installing from official repositories..."@),
        ],
        source_tag@ == "aur"@ ==> shown(r.1.events@) == seq![
            (10u32, "Starting installation of "@ + name@ + "..."@),
            (30u32, "Installing from AUR..."@),
        ],
        source_tag@ == "flatpak"@ ==> shown(r.1.events@) == seq![
            (10u32, "Starting installation of "@ + name@ + "..."@),
            (30u32, "Installing from Flatpak..."@),
        ],
        (forall|s: Source| source_spec_tag(s) != source_tag@) ==> shown(r.1.events@) == seq![
            (10u32, "Starting installation of "@ + name@ + "..."@),
            (0u32, "Unknown package source"@),
        ],
        r.0.name == name,
        source_tag@ == "official"@ || source_tag@ == "flatpak"@ ==> r.0.stage == Stage::AwaitMain,
        source_tag@ == "aur"@ ==> r.0.stage == Stage::AwaitHelper && r.0.source == Source::Aur,
        r.0.operation == Operation::Install,
        r.0.wf(),
        step_ok(r.1, true),
        (r.1.action is Finish) == r.0.is_done(),
        r.0.password == password,
        r.1.events@.len() > 0 && r.1.events@[0].percentage == 10,
        (forall|s: Source| source_spec_tag(s) != source_tag@) ==> (r.1.action matches Action::Finish(
            Err(m),
        ) && m@ == "Unknown package source"@),
        source_tag@ == "official"@ ==> (r.1.action matches Action::Run(inv) && is_elevated(
            inv,
            seq!["pacman"@, "-S"@, "--noconfirm"@, name@],
            password@,
        ) && percentages(inv, 50)),
        source_tag@ == "aur"@ ==> r.1.action is ProbeHelper,
        source_tag@ == "flatpak"@ ==> (r.1.action matches Action::Run(inv) && is_plain(
            inv,
            "flatpak"@,
            seq!["install"@, "-y"@, name@],
        ) && percentages(inv, 50)),
{
    let mut events: Vec<InstallProgress> = Vec::new();
    note(&mut events, 10, join3("Starting installation of ", name.as_str(), "..."));
    let found = Source::from_tag(source_tag);
    proof {
        reveal_strlit("official");
        reveal_strlit("aur");
        reveal_strlit("flatpak");
    }
    match found {
        None => {
            proof {
                reveal_strlit("Unknown package source");
                assert(source_spec_tag(Source::Official) != source_tag@);
                assert(source_spec_tag(Source::Aur) != source_tag@);
                assert(source_spec_tag(Source::Flatpak) != source_tag@);
            }
            let c = Coordinator {
                operation: Operation::Install,
                stage: Stage::Done,
                name,
                source: Source::Official,
                mode: RemoveMode::Plain,
                password,
            };
            let st = fail(events, copy_text("Unknown package source"));
            assert(shown(st.events@) =~= seq![(10u32, st.events@[0].message@), (0u32, "Unknown package source"@)]);
            (c, st)
        },
        Some(source) => {
            let step = match source {
                Source::Official => {
                    note(&mut events, 30, copy_text("Installing from official repositories..."));
                    let inv = pacman_elevated("-S", name.as_str(), &password, 50);
                    run(events, inv)
                },
                Source::Aur => {
                    note(&mut events, 30, copy_text("Installing from AUR..."));
                    probe(events)
                },
                Source::Flatpak => {
                    note(&mut events, 30, copy_text("Installing from Flatpak..."));
                    let c = with_arg(command("flatpak", &["install", "-y"]), name.as_str());
                    assert(c.spec_args() =~= seq!["install"@, "-y"@, name@]);
                    run(events, plain(c, 50))
                },
            };
            assert(shown(step.events@) =~= seq![
                (10u32, step.events@[0].message@),
                (30u32, step.events@[1].message@),
            ]);
            let stage = if source == Source::Aur {
                Stage::AwaitHelper
            } else {
                Stage::AwaitMain
            };
            let c = Coordinator {
                operation: Operation::Install,
                stage,
                name,
                source,
                mode: RemoveMode::Plain,
                password,
            };
            (c, step)
        },
    }
}

/// Starts the removal of package `name` from the source tagged `source_tag`;
/// `mode_tag` `"recursive"` also removes the dependencies nothing else needs.
pub fn remove_package(name: String, source_tag: &str, mode_tag: &str, password: String) -> (r: (
    Coordinator,
    Step,
))
    ensures
        (exists|s: Source| source_spec_tag(s) == source_tag@) ==> source_spec_tag(r.0.source)
            == source_tag@,
        r.0.mode == (if mode_tag@ == "recursive"@ {
            RemoveMode::Recursive
        } else {
            RemoveMode::Plain
        }),
        source_tag@ == "official"@ ==> shown(r.1.events@) == seq![
            (10u32, "Starting removal of "@ + name@ + "..."@),
            (30u32, "Removing from official repositories..."@),
        ],
        source_tag@ == "aur"@ ==> shown(r.1.events@) == seq![
            (10u32, "Starting removal of "@ + name@ + "..."@),
            (30u32, "Removing AUR package..."@),
        ],
        source_tag@ == "flatpak"@ ==> shown(r.1.events@) == seq![
            (10u32, "Starting removal of "@ + name@ + "..."@),
            (30u32, "Removing Flatpak package..."@),
        ],
        (forall|s: Source| source_spec_tag(s) != source_tag@) ==> shown(r.1.events@) == seq![
            (10u32, "Starting removal of "@ + name@ + "..."@),
            (0u32, "Unknown package source"@),
        ],
        r.0.name == name,
        r.0.password == password,
        (exists|s: Source| source_spec_tag(s) == source_tag@) ==> r.0.stage == Stage::AwaitMain,
        r.0.operation == Operation::Remove,
        r.0.wf(),
        step_ok(r.1, true),
        (r.1.action is Finish) == r.0.is_done(),
        r.1.events@.len() > 0 && r.1.events@[0].percentage == 10,
        (forall|s: Source| source_spec_tag(s) != source_tag@) ==> (r.1.action matches Action::Finish(
            Err(m),
        ) && m@ == "Unknown package source"@),
        (source_tag@ == "official"@ || source_tag@ == "aur"@) ==> (r.1.action matches Action::Run(
            inv,
        ) && is_elevated(
            inv,
            seq![
                "pacman"@,
                if mode_tag@ == "recursive"@ { "-Rns"@ } else { "-R"@ },
                "--noconfirm"@,
                name@,
            ],
            password@,
        ) && percentages(inv, 50)),
        source_tag@ == "flatpak"@ ==> (r.1.action matches Action::Run(inv) && is_plain(
            inv,
            "flatpak"@,
            seq!["uninstall"@, "-y"@, name@],
        ) && percentages(inv, 50)),
{
    let mut events: Vec<InstallProgress> = Vec::new();
    note(&mut events, 10, join3("Starting removal of ", name.as_str(), "..."));
    let mode = RemoveMode::from_tag(mode_tag);
    let found = Source::from_tag(source_tag);
    proof {
        reveal_strlit("official");
        reveal_strlit("aur");
        reveal_strlit("flatpak");
    }
    match found {
        None => {
            proof {
                reveal_strlit("Unknown package source");
                assert(source_spec_tag(Source::Official) != source_tag@);
                assert(source_spec_tag(Source::Aur) != source_tag@);
                assert(source_spec_tag(Source::Flatpak) != source_tag@);
            }
            let c = Coordinator {
                operation: Operation::Remove,
                stage: Stage::Done,
                name,
                source: Source::Official,
                mode,
                password,
            };
            let st = fail(events, copy_text("Unknown package source"));
            assert(shown(st.events@) =~= seq![(10u32, st.events@[0].message@), (0u32, "Unknown package source"@)]);
            (c, st)
        },
        Some(source) => {
            let step = match source {
                Source::Flatpak => {
                    note(&mut events, 30, copy_text("Removing Flatpak package..."));
                    let c = with_arg(command("flatpak", &["uninstall", "-y"]), name.as_str());
                    assert(c.spec_args() =~= seq!["uninstall"@, "-y"@, name@]);
                    run(events, plain(c, 50))
                },
                _ => {
                    if source == Source::Official {
                        note(&mut events, 30, copy_text("Removing from official repositories..."));
                    } else {
                        note(&mut events, 30, copy_text("Removing AUR package..."));
                    }
                    let flag = match mode {
                        RemoveMode::Recursive => "-Rns",
                        RemoveMode::Plain => "-R",
                    };
                    let inv = pacman_elevated(flag, name.as_str(), &password, 50);
                    run(events, inv)
                },
            };
            assert(shown(step.events@) =~= seq![
                (10u32, step.events@[0].message@),
                (30u32, step.events@[1].message@),
            ]);
            let c = Coordinator {
                operation: Operation::Remove,
                stage: Stage::AwaitMain,
                name,
                source,
                mode,
                password,
            };
            (c, step)
        },
    }
}

/// Starts the update of the whole system: official packages first, then AUR
/// packages where a helper is present, then Flatpak applications.
pub fn update_system(password: String) -> (r: (Coordinator, Step))
    ensures
        shown(r.1.events@) == seq![
            (10u32, "Starting system update..."@),
            (20u32, ":: Updating official packages..."@),
        ],
        r.0.stage == Stage::AwaitOfficial,
        r.0.operation == Operation::UpdateAll,
        r.0.wf(),
        !r.0.is_done(),
        r.0.password == password,
        step_ok(r.1, true),
        r.1.action matches Action::Run(inv) && is_elevated(
            inv,
            seq!["pacman"@, "-Syu"@, "--noconfirm"@],
            password@,
        ) && percentages(inv, 30),
{
    let mut events: Vec<InstallProgress> = Vec::new();
    note(&mut events, 10, copy_text("Starting system update..."));
    note(&mut events, 20, copy_text(":: Updating official packages..."));
    let inv = system_upgrade(&password, 30);
    let c = Coordinator {
        operation: Operation::UpdateAll,
        stage: Stage::AwaitOfficial,
        name: String::new(),
        source: Source::Official,
        mode: RemoveMode::Plain,
        password,
    };
    (c, run(events, inv))
}

/// Starts the update of the official packages alone.
pub fn update_official(password: String) -> (r: (Coordinator, Step))
    ensures
        shown(r.1.events@) == seq![(10u32, ":: Starting official packages update..."@)],
        r.0.stage == Stage::AwaitMain,
        r.0.password == password,
        r.0.operation == Operation::UpdateOfficial,
        r.0.wf(),
        !r.0.is_done(),
        step_ok(r.1, true),
        r.1.action matches Action::Run(inv) && is_elevated(
            inv,
            seq!["pacman"@, "-Syu"@, "--noconfirm"@],
            password@,
        ) && percentages(inv, 50),
{
    let mut events: Vec<InstallProgress> = Vec::new();
    note(&mut events, 10, copy_text(":: Starting official packages update..."));
    let inv = system_upgrade(&password, 50);
    let c = Coordinator {
        operation: Operation::UpdateOfficial,
        stage: Stage::AwaitMain,
        name: String::new(),
        source: Source::Official,
        mode: RemoveMode::Plain,
        password,
    };
    (c, run(events, inv))
}

/// Starts the update of the AUR packages alone.
pub fn update_aur(password: String) -> (r: (Coordinator, Step))
    ensures
        shown(r.1.events@) == seq![(10u32, ":: Starting AUR packages update..."@)],
        r.0.stage == Stage::AwaitHelper,
        r.0.operation == Operation::UpdateAur,
        r.0.wf(),
        !r.0.is_done(),
        r.0.password == password,
        step_ok(r.1, true),
        r.1.action is ProbeHelper,
{
    let c = Coordinator {
        operation: Operation::UpdateAur,
        stage: Stage::AwaitHelper,
        name: String::new(),
        source: Source::Aur,
        mode: RemoveMode::Plain,
        password,
    };
    let mut events: Vec<InstallProgress> = Vec::new();
    note(&mut events, 10, copy_text(":: Starting AUR packages update..."));
    let r = probe(events);
    assert(shown(r.events@) =~= seq![(10u32, ":: Starting AUR packages update..."@)]);
    (c, r)
}

/// Starts the update of the Flatpak applications alone.
pub fn update_flatpak() -> (r: (Coordinator, Step))
    ensures
        shown(r.1.events@) == seq![(10u32, ":: Starting Flatpak packages update..."@)],
        r.0.stage == Stage::AwaitMain,
        r.0.operation == Operation::UpdateFlatpak,
        r.0.wf(),
        !r.0.is_done(),
        step_ok(r.1, true),
        r.1.action matches Action::Run(inv) && is_plain(inv, "flatpak"@, seq!["update"@, "-y"@])
            && percentages(inv, 50),
{
    let mut events: Vec<InstallProgress> = Vec::new();
    note(&mut events, 10, copy_text(":: Starting Flatpak packages update..."));
    let c = Coordinator {
        operation: Operation::UpdateFlatpak,
        stage: Stage::AwaitMain,
        name: String::new(),
        source: Source::Flatpak,
        mode: RemoveMode::Plain,
        password: String::new(),
    };
    (c, run(events, flatpak_update(50)))
}

/// `grep -A1 ^\[multilib\]$ /etc/pacman.conf`: shows the optional
/// repository's section header and the line after it.
fn multilib_check() -> (r: Invocation)
    ensures
        is_plain(r, "grep"@, seq!["-A1"@, "^\\[multilib\\]$"@, "/etc/pacman.conf"@]),
{
    let c = command("grep", &["-A1", "^\\[multilib\\]$", "/etc/pacman.conf"]);
    assert(c.spec_args() =~= seq!["-A1"@, "^\\[multilib\\]$"@, "/etc/pacman.conf"@]);
    plain(c, 0)
}

/// Starts enabling the optional `multilib` repository; this operation reports
/// no progress events.
pub fn enable_multilib(password: String) -> (r: (Coordinator, Step))
    ensures
        r.0.stage == Stage::AwaitCheck,
        r.0.operation == Operation::EnableMultilib,
        r.0.wf(),
        !r.0.is_done(),
        r.0.password == password,
        step_ok(r.1, false),
        r.1.action matches Action::Run(inv) && is_plain(
            inv,
            "grep"@,
            seq!["-A1"@, "^\\[multilib\\]$"@, "/etc/pacman.conf"@],
        ),
{
    let c = Coordinator {
        operation: Operation::EnableMultilib,
        stage: Stage::AwaitCheck,
        name: String::new(),
        source: Source::Official,
        mode: RemoveMode::Plain,
        password,
    };
    (c, quiet(Action::Run(multilib_check())))
}

/// The system's reason that an outcome carries (the error text of a run that
/// exited).
pub open spec fn outcome_reason(outcome: RunOutcome) -> Seq<char> {
    match outcome {
        RunOutcome::ScriptWriteFailed(e) => e@,
        RunOutcome::ScriptModeFailed(e) => e@,
        RunOutcome::SpawnFailed(e) => e@,
        RunOutcome::CredentialFailed(e) => e@,
        RunOutcome::WaitFailed(e) => e@,
        RunOutcome::Exited(o) => o.stderr@,
    }
}

fn reason_of(outcome: &RunOutcome) -> (r: String)
    ensures
        r@ == outcome_reason(*outcome),
{
    match outcome {
        RunOutcome::ScriptWriteFailed(e) => e.clone(),
        RunOutcome::ScriptModeFailed(e) => e.clone(),
        RunOutcome::SpawnFailed(e) => e.clone(),
        RunOutcome::CredentialFailed(e) => e.clone(),
        RunOutcome::WaitFailed(e) => e.clone(),
        RunOutcome::Exited(o) => o.stderr.clone(),
    }
}

pub open spec fn exited_with(outcome: RunOutcome, success: bool) -> bool {
    outcome matches RunOutcome::Exited(o) && o.success == success
}

/// The error text of an install that did not succeed.
pub open spec fn install_failure(source: Source, outcome: RunOutcome) -> Seq<char> {
    let e = outcome_reason(outcome);
    match outcome {
        RunOutcome::Exited(o) => "Installation failed: "@ + diagnostic(
            o,
            "Installation failed with unknown error"@,
        ),
        RunOutcome::ScriptWriteFailed(_) => "Failed to write temp script: "@ + e,
        RunOutcome::ScriptModeFailed(_) => "Failed to make script executable: "@ + e,
        RunOutcome::SpawnFailed(_) => match source {
            Source::Official => "Failed to spawn sudo: "@ + e,
            Source::Aur => "Failed to spawn AUR helper: "@ + e,
            Source::Flatpak => "Failed to spawn flatpak: "@ + e,
        },
        RunOutcome::CredentialFailed(_) => "Failed to write password: "@ + e,
        RunOutcome::WaitFailed(_) => "Failed to execute installer: "@ + e + " ("@ + source_spec_tag(
            source,
        ) + ")"@,
    }
}

/// The error text of a removal that did not succeed.
pub open spec fn removal_failure(source: Source, outcome: RunOutcome) -> Seq<char> {
    let e = outcome_reason(outcome);
    match outcome {
        RunOutcome::Exited(o) => "Removal failed: "@ + diagnostic(o, "Removal failed with unknown error"@),
        RunOutcome::SpawnFailed(_) => if source == Source::Flatpak {
            "Failed to spawn flatpak: "@ + e
        } else {
            "Failed to spawn sudo: "@ + e
        },
        RunOutcome::CredentialFailed(_) => "Failed to write password: "@ + e,
        _ => "Failed to execute removal: "@ + e,
    }
}

/// The error text of an official packages update that did not succeed.
pub open spec fn official_failure(outcome: RunOutcome) -> Seq<char> {
    let e = outcome_reason(outcome);
    match outcome {
        RunOutcome::Exited(o) => "Official packages update failed: "@ + diagnostic(o, "unknown error"@),
        RunOutcome::CredentialFailed(_) => "Failed to write password: "@ + e,
        RunOutcome::WaitFailed(_) => "Failed to update official packages: "@ + e,
        _ => "Failed to spawn sudo: "@ + e,
    }
}

/// The error text of an AUR-only update that did not succeed.
pub open spec fn aur_failure(outcome: RunOutcome) -> Seq<char> {
    let e = outcome_reason(outcome);
    match outcome {
        RunOutcome::Exited(o) => "AUR packages update failed: "@ + diagnostic(o, "unknown error"@),
        RunOutcome::ScriptWriteFailed(_) => "Failed to create update script: "@ + e,
        RunOutcome::WaitFailed(_) => "Failed to update AUR packages: "@ + e,
        _ => "Failed to spawn AUR update: "@ + e,
    }
}

/// The error text of a Flatpak-only update that did not succeed.
pub open spec fn flatpak_failure(outcome: RunOutcome) -> Seq<char> {
    let e = outcome_reason(outcome);
    match outcome {
        RunOutcome::Exited(o) => "Flatpak packages update failed: "@ + diagnostic(o, "unknown error"@),
        RunOutcome::WaitFailed(_) => "Failed to update Flatpak packages: "@ + e,
        _ => "Failed to spawn flatpak update: "@ + e,
    }
}

/// The error text of a step of enabling the optional repository (`Stage`
/// `AwaitUncomment`, `AwaitInclude` or `AwaitSync`) that did not succeed.
pub open spec fn config_failure(stage: Stage, outcome: RunOutcome) -> Seq<char> {
    let e = outcome_reason(outcome);
    match outcome {
        RunOutcome::Exited(o) => if stage == Stage::AwaitUncomment {
            "Failed to uncomment [multilib]: "@ + e
        } else if stage == Stage::AwaitInclude {
            "Failed to uncomment Include line: "@ + e
        } else {
            "Failed to sync databases: "@ + e
        },
        RunOutcome::CredentialFailed(_) => "Failed to write password: "@ + e,
        RunOutcome::WaitFailed(_) => if stage == Stage::AwaitUncomment {
            "Failed to wait for sed 1: "@ + e
        } else if stage == Stage::AwaitInclude {
            "Failed to wait for sed 2: "@ + e
        } else {
            "Failed to wait for sync: "@ + e
        },
        _ => if stage == Stage::AwaitUncomment {
            "Failed to spawn sed command 1: "@ + e
        } else if stage == Stage::AwaitInclude {
            "Failed to spawn sed command 2: "@ + e
        } else {
            "Failed to spawn sync command: "@ + e
        },
    }
}

fn install_failure_text(source: Source, outcome: &RunOutcome) -> (r: String)
    ensures
        r@ == install_failure(source, *outcome),
        r@.len() > 0,
{
    proof {
        reveal_strlit("Installation failed: ");
        reveal_strlit("Failed to write temp script: ");
        reveal_strlit("Failed to make script executable: ");
        reveal_strlit("Failed to spawn sudo: ");
        reveal_strlit("Failed to spawn AUR helper: ");
        reveal_strlit("Failed to spawn flatpak: ");
        reveal_strlit("Failed to write password: ");
        reveal_strlit("Failed to execute installer: ");
    }
    let e = reason_of(outcome);
    match outcome {
        RunOutcome::Exited(o) => {
            let d = diagnostic_of(o, "Installation failed with unknown error");
            reason("Installation failed: ", d.as_str())
        },
        RunOutcome::ScriptWriteFailed(_) => reason("Failed to write temp script: ", e.as_str()),
        RunOutcome::ScriptModeFailed(_) => reason("Failed to make script executable: ", e.as_str()),
        RunOutcome::SpawnFailed(_) => match source {
            Source::Official => reason("Failed to spawn sudo: ", e.as_str()),
            Source::Aur => reason("Failed to spawn AUR helper: ", e.as_str()),
            Source::Flatpak => reason("Failed to spawn flatpak: ", e.as_str()),
        },
        RunOutcome::CredentialFailed(_) => reason("Failed to write password: ", e.as_str()),
        RunOutcome::WaitFailed(_) => {
            let mut m = reason("Failed to execute installer: ", e.as_str());
            m.append(" (");
            m.append(source.tag());
            m.append(")");
            m
        },
    }
}

fn removal_failure_text(source: Source, outcome: &RunOutcome) -> (r: String)
    ensures
        r@ == removal_failure(source, *outcome),
        r@.len() > 0,
{
    proof {
        reveal_strlit("Removal failed: ");
        reveal_strlit("Failed to spawn sudo: ");
        reveal_strlit("Failed to spawn flatpak: ");
        reveal_strlit("Failed to write password: ");
        reveal_strlit("Failed to execute removal: ");
    }
    let e = reason_of(outcome);
    match outcome {
        RunOutcome::Exited(o) => {
            let d = diagnostic_of(o, "Removal failed with unknown error");
            reason("Removal failed: ", d.as_str())
        },
        RunOutcome::SpawnFailed(_) => if source == Source::Flatpak {
            reason("Failed to spawn flatpak: ", e.as_str())
        } else {
            reason("Failed to spawn sudo: ", e.as_str())
        },
        RunOutcome::CredentialFailed(_) => reason("Failed to write password: ", e.as_str()),
        _ => reason("Failed to execute removal: ", e.as_str()),
    }
}

fn official_failure_text(outcome: &RunOutcome) -> (r: String)
    ensures
        r@ == official_failure(*outcome),
        r@.len() > 0,
{
    proof {
        reveal_strlit("Official packages update failed: ");
        reveal_strlit("Failed to spawn sudo: ");
        reveal_strlit("Failed to write password: ");
        reveal_strlit("Failed to update official packages: ");
    }
    let e = reason_of(outcome);
    match outcome {
        RunOutcome::Exited(o) => {
            let d = diagnostic_of(o, "unknown error");
            reason("Official packages update failed: ", d.as_str())
        },
        RunOutcome::CredentialFailed(_) => reason("Failed to write password: ", e.as_str()),
        RunOutcome::WaitFailed(_) => reason("Failed to update official packages: ", e.as_str()),
        _ => reason("Failed to spawn sudo: ", e.as_str()),
    }
}

fn aur_failure_text(outcome: &RunOutcome) -> (r: String)
    ensures
        r@ == aur_failure(*outcome),
        r@.len() > 0,
{
    proof {
        reveal_strlit("Failed to create update script: ");
        reveal_strlit("Failed to spawn AUR update: ");
        reveal_strlit("Failed to update AUR packages: ");
        reveal_strlit("AUR packages update failed: ");
    }
    let e = reason_of(outcome);
    match outcome {
        RunOutcome::Exited(o) => {
            let d = diagnostic_of(o, "unknown error");
            reason("AUR packages update failed: ", d.as_str())
        },
        RunOutcome::ScriptWriteFailed(_) => reason("Failed to create update script: ", e.as_str()),
        RunOutcome::WaitFailed(_) => reason("Failed to update AUR packages: ", e.as_str()),
        _ => reason("Failed to spawn AUR update: ", e.as_str()),
    }
}

fn flatpak_failure_text(outcome: &RunOutcome) -> (r: String)
    ensures
        r@ == flatpak_failure(*outcome),
        r@.len() > 0,
{
    proof {
        reveal_strlit("Failed to spawn flatpak update: ");
        reveal_strlit("Failed to update Flatpak packages: ");
        reveal_strlit("Flatpak packages update failed: ");
    }
    let e = reason_of(outcome);
    match outcome {
        RunOutcome::Exited(o) => {
            let d = diagnostic_of(o, "unknown error");
            reason("Flatpak packages update failed: ", d.as_str())
        },
        RunOutcome::WaitFailed(_) => reason("Failed to update Flatpak packages: ", e.as_str()),
        _ => reason("Failed to spawn flatpak update: ", e.as_str()),
    }
}

fn config_failure_text(stage: Stage, outcome: &RunOutcome) -> (r: String)
    ensures
        r@ == config_failure(stage, *outcome),
        r@.len() > 0,
{
    proof {
        reveal_strlit("Failed to uncomment [multilib]: ");
        reveal_strlit("Failed to uncomment Include line: ");
        reveal_strlit("Failed to sync databases: ");
        reveal_strlit("Failed to spawn sed command 1: ");
        reveal_strlit("Failed to spawn sed command 2: ");
        reveal_strlit("Failed to spawn sync command: ");
        reveal_strlit("Failed to write password: ");
        reveal_strlit("Failed to wait for sed 1: ");
        reveal_strlit("Failed to wait for sed 2: ");
        reveal_strlit("Failed to wait for sync: ");
    }
    let e = reason_of(outcome);
    let prefix = match outcome {
        RunOutcome::Exited(_) => if stage == Stage::AwaitUncomment {
            "Failed to uncomment [multilib]: "
        } else if stage == Stage::AwaitInclude {
            "Failed to uncomment Include line: "
        } else {
            "Failed to sync databases: "
        },
        RunOutcome::CredentialFailed(_) => "Failed to write password: ",
        RunOutcome::WaitFailed(_) => if stage == Stage::AwaitUncomment {
            "Failed to wait for sed 1: "
        } else if stage == Stage::AwaitInclude {
            "Failed to wait for sed 2: "
        } else {
            "Failed to wait for sync: "
        },
        _ => if stage == Stage::AwaitUncomment {
            "Failed to spawn sed command 1: "
        } else if stage == Stage::AwaitInclude {
            "Failed to spawn sed command 2: "
        } else {
            "Failed to spawn sync command: "
        },
    };
    reason(prefix, e.as_str())
}

/// `sudo -S sed -i <script> /etc/pacman.conf`.
fn config_edit(script: &str, password: &String) -> (r: Invocation)
    ensures
        is_elevated(r, seq!["sed"@, "-i"@, script@, "/etc/pacman.conf"@], password@),
{
    let c = command("sudo", &["-S", "sed", "-i"]);
    let c = with_arg(c, script);
    let c = with_arg(c, "/etc/pacman.conf");
    assert(c.spec_args() =~= seq!["-S"@] + seq!["sed"@, "-i"@, script@, "/etc/pacman.conf"@]);
    elevated(c, password, 0)
}

/// `sudo -S pacman -Sy`.
fn database_sync(password: &String) -> (r: Invocation)
    ensures
        is_elevated(r, seq!["pacman"@, "-Sy"@], password@),
{
    let c = command("sudo", &["-S", "pacman", "-Sy"]);
    assert(c.spec_args() =~= seq!["-S"@] + seq!["pacman"@, "-Sy"@]);
    elevated(c, password, 0)
}

pub open spec fn uncomment_section() -> Seq<char> {
    "/^#\\[multilib\\]/s/^#//"@
}

pub open spec fn enable_entry_line() -> Seq<char> {
    "/^\\[multilib\\]$/,/^#Include/ s/^#Include/Include/"@
}

/// The step runs `inv`, and `inv` holds.
pub open spec fn runs(r: Step, inv: spec_fn(Invocation) -> bool) -> bool {
    r.action matches Action::Run(i) && inv(i)
}

/// The step ends the operation with `Ok(text)`.
pub open spec fn ends_ok(r: Step, text: Seq<char>) -> bool {
    r.action matches Action::Finish(Ok(m)) && m@ == text
}

/// The step ends the operation with `Err(text)`.
pub open spec fn ends_err(r: Step, text: Seq<char>) -> bool {
    r.action matches Action::Finish(Err(m)) && m@ == text
}

/// A step that ends the operation: success with event `note` and result
/// `ok_text` exactly when the process exited with success, else the error
/// `failure` with its 0% event.
pub open spec fn strict_end(r: Step, outcome: RunOutcome, note: Seq<char>, ok_text: Seq<char>, failure: Seq<char>) -> bool {
    if exited_with(outcome, true) {
        shown(r.events@) == seq![(100u32, note)] && ends_ok(r, ok_text)
    } else {
        shown(r.events@) == seq![(0u32, failure)] && ends_err(r, failure)
    }
}

/// The warning event of a best-effort stage whose process exited with failure.
pub open spec fn warning(outcome: RunOutcome, p: u32, text: Seq<char>) -> Seq<(u32, Seq<char>)> {
    if exited_with(outcome, false) {
        seq![(p, text)]
    } else {
        seq![]
    }
}

/// What a helper selection leads to, with `next` the stage that follows: with
/// a helper its script runs; without one the full update goes on to the
/// Flatpak applications, and any other operation fails with the text that
/// asks for a helper.
pub open spec fn helper_decision(c: Coordinator, found: Option<Helper>, r: Step, next: Stage) -> bool {
    match found {
        Some(h) => if c.operation == Operation::Install {
            &&& next == Stage::AwaitMain
            &&& shown(r.events@) == seq![
                (40u32, "Using "@ + helper_spec_name(h) + " to install "@ + c.name@ + "..."@),
            ]
            &&& runs(
                r,
                |inv: Invocation|
                    is_scripted(
                        inv,
                        "/tmp/archstore_install_"@ + slash_free(c.name@) + ".sh"@,
                        aur_install_script(c.password@, h, c.name@),
                    ) && percentages(inv, 60),
            )
        } else if c.operation == Operation::UpdateAll {
            &&& next == Stage::AwaitAur
            &&& shown(r.events@) == seq![(50u32, ":: Updating AUR packages..."@)]
            &&& runs(
                r,
                |inv: Invocation|
                    is_scripted(
                        inv,
                        "/tmp/archstore_update_aur.sh"@,
                        aur_update_script(c.password@, h),
                    ) && percentages(inv, 60),
            )
        } else {
            &&& next == Stage::AwaitMain
            &&& r.events@.len() == 0
            &&& runs(
                r,
                |inv: Invocation|
                    is_scripted(
                        inv,
                        "/tmp/archstore_update_aur.sh"@,
                        aur_update_script(c.password@, h),
                    ) && percentages(inv, 50),
            )
        },
        None => if c.operation == Operation::UpdateAll {
            &&& next == Stage::AwaitFlatpak
            &&& shown(r.events@) == seq![(75u32, ":: Updating Flatpak packages..."@)]
            &&& runs(
                r,
                |inv: Invocation|
                    is_plain(inv, "flatpak"@, seq!["update"@, "-y"@]) && percentages(inv, 85),
            )
        } else {
            &&& next == Stage::Done
            &&& shown(r.events@) == seq![(0u32, no_helper_message())]
            &&& ends_err(r, no_helper_message())
        },
    }
}

/// What the outcome of a run leads to in a package operation, with `next`
/// the stage that follows. A single operation ends, successfully exactly when
/// its process exited with success, else with its failure text. In the full update a failed official stage is fatal; a
/// successful one goes on to the helper probe, and the AUR and Flatpak stages
/// only warn.
pub open spec fn run_decision(c: Coordinator, outcome: RunOutcome, r: Step, next: Stage) -> bool {
    match c.stage {
        Stage::AwaitMain => next == Stage::Done && match c.operation {
            Operation::Install => strict_end(
                r,
                outcome,
                "Installation completed successfully!"@,
                "Installation completed successfully"@,
                install_failure(c.source, outcome),
            ),
            Operation::Remove => strict_end(
                r,
                outcome,
                "Removal completed successfully!"@,
                "Removal completed successfully"@,
                removal_failure(c.source, outcome),
            ),
            Operation::UpdateOfficial => strict_end(
                r,
                outcome,
                ":: Official packages updated successfully!"@,
                "Official packages updated successfully"@,
                official_failure(outcome),
            ),
            Operation::UpdateAur => strict_end(
                r,
                outcome,
                ":: AUR packages updated successfully!"@,
                "AUR packages updated successfully"@,
                aur_failure(outcome),
            ),
            _ => strict_end(
                r,
                outcome,
                ":: Flatpak packages updated successfully!"@,
                "Flatpak packages updated successfully"@,
                flatpak_failure(outcome),
            ),
        },
        Stage::AwaitOfficial => if exited_with(outcome, true) {
            next == Stage::AwaitHelper && r.events@.len() == 0 && r.action is ProbeHelper
        } else {
            &&& next == Stage::Done
            &&& shown(r.events@) == seq![(0u32, official_failure(outcome))]
            &&& ends_err(r, official_failure(outcome))
        },
        Stage::AwaitAur => {
            &&& next == Stage::AwaitFlatpak
            &&& shown(r.events@) == warning(
                outcome,
                60,
                "AUR update completed with warnings (continuing...)"@,
            ) + seq![(75u32, ":: Updating Flatpak packages..."@)]
            &&& runs(
                r,
                |inv: Invocation|
                    is_plain(inv, "flatpak"@, seq!["update"@, "-y"@]) && percentages(inv, 85),
            )
        },
        Stage::AwaitFlatpak => {
            &&& next == Stage::Done
            &&& shown(r.events@) == warning(
                outcome,
                85,
                "Flatpak update completed with warnings (continuing...)"@,
            ) + seq![(100u32, ":: System updated successfully!"@)]
            &&& ends_ok(r, "System updated successfully"@)
        },
        _ => true,
    }
}

/// What the outcome of a run leads to while the optional repository is
/// enabled, with `next` the stage that follows: a configuration that already
/// lists it ends the operation at once, with no elevated command; otherwise
/// the two edits and the database sync run in turn, and the first that fails
/// ends the operation with its error text.
pub open spec fn config_decision(c: Coordinator, outcome: RunOutcome, r: Step, next: Stage) -> bool {
    match c.stage {
        Stage::AwaitCheck => match outcome {
            RunOutcome::Exited(o) => if multilib_listed(o.stdout@) {
                next == Stage::Done && ends_ok(r, "Multilib is already enabled"@)
            } else {
                next == Stage::AwaitUncomment && runs(
                    r,
                    |inv: Invocation|
                        is_elevated(
                            inv,
                            seq!["sed"@, "-i"@, uncomment_section(), "/etc/pacman.conf"@],
                            c.password@,
                        ),
                )
            },
            _ => next == Stage::Done && ends_err(
                r,
                "Failed to check pacman.conf: "@ + outcome_reason(outcome),
            ),
        },
        Stage::AwaitUncomment => if exited_with(outcome, true) {
            next == Stage::AwaitInclude && runs(
                r,
                |inv: Invocation|
                    is_elevated(
                        inv,
                        seq!["sed"@, "-i"@, enable_entry_line(), "/etc/pacman.conf"@],
                        c.password@,
                    ),
            )
        } else {
            next == Stage::Done && ends_err(r, config_failure(c.stage, outcome))
        },
        Stage::AwaitInclude => if exited_with(outcome, true) {
            next == Stage::AwaitSync && runs(
                r,
                |inv: Invocation| is_elevated(inv, seq!["pacman"@, "-Sy"@], c.password@),
            )
        } else {
            next == Stage::Done && ends_err(r, config_failure(c.stage, outcome))
        },
        Stage::AwaitSync => next == Stage::Done && if exited_with(outcome, true) {
            ends_ok(r, "Multilib enabled and databases synced successfully"@)
        } else {
            ends_err(r, config_failure(c.stage, outcome))
        },
        _ => true,
    }
}

impl Coordinator {
    /// Everything but the stage is kept.
    pub open spec fn same_request(&self, other: Coordinator) -> bool {
        &&& self.operation == other.operation
        &&& self.name == other.name
        &&& self.source == other.source
        &&& self.mode == other.mode
        &&& self.password == other.password
    }

    fn on_helper(&mut self, found: Option<Helper>) -> (r: Step)
        requires
            old(self).wf(),
            old(self).stage == Stage::AwaitHelper,
        ensures
            final(self).wf(),
            final(self).same_request(*old(self)),
            step_ok(r, true),
            helper_decision(*old(self), found, r, final(self).stage),
    {
        let mut events: Vec<InstallProgress> = Vec::new();
        match found {
            None => {
                if self.operation == Operation::UpdateAll {
                    note(&mut events, 75, copy_text(":: Updating Flatpak packages..."));
                    self.stage = Stage::AwaitFlatpak;
                    let r = run(events, flatpak_update(85));
                    assert(shown(r.events@) =~= seq![(75u32, ":: Updating Flatpak packages..."@)]);
                    r
                } else {
                    proof {
                        reveal_strlit("No AUR helper found. Please install yay or paru.");
                    }
                    self.stage = Stage::Done;
                    let r = fail(events, copy_text("No AUR helper found. Please install yay or paru."));
                    assert(shown(r.events@) =~= seq![(0u32, no_helper_message())]);
                    r
                }
            },
            Some(h) => {
                if self.operation == Operation::UpdateAll {
                    note(&mut events, 50, copy_text(":: Updating AUR packages..."));
                    self.stage = Stage::AwaitAur;
                    let r = run(events, aur_update(&self.password, h, 60));
                    assert(shown(r.events@) =~= seq![(50u32, ":: Updating AUR packages..."@)]);
                    r
                } else if self.operation == Operation::UpdateAur {
                    self.stage = Stage::AwaitMain;
                    run(events, aur_update(&self.password, h, 50))
                } else {
                    let mut m = join3("Using ", h.name(), " to install ");
                    m.append(self.name.as_str());
                    m.append("...");
                    let ghost mv = m@;
                    note(&mut events, 40, m);
                    let args = join2("-S --noconfirm ", self.name.as_str());
                    let content = elevation_script_text(self.password.as_str(), h.name(), args.as_str());
                    let path = install_script_path(self.name.as_str());
                    self.stage = Stage::AwaitMain;
                    let r = run(events, scripted(path, content, 60));
                    assert(shown(r.events@) =~= seq![(40u32, mv)]);
                    r
                }
            },
        }
    }

    fn on_run(&mut self, outcome: RunOutcome) -> (r: Step)
        requires
            old(self).wf(),
            old(self).stage == Stage::AwaitMain || old(self).stage == Stage::AwaitOfficial
                || old(self).stage == Stage::AwaitAur || old(self).stage == Stage::AwaitFlatpak,
        ensures
            final(self).wf(),
            final(self).same_request(*old(self)),
            step_ok(r, true),
            run_decision(*old(self), outcome, r, final(self).stage),
    {
        let mut events: Vec<InstallProgress> = Vec::new();
        let ok = exited_ok(&outcome);
        match self.stage {
            Stage::AwaitOfficial => {
                if ok {
                    self.stage = Stage::AwaitHelper;
                    probe(events)
                } else {
                    self.stage = Stage::Done;
                    let r = fail(events, official_failure_text(&outcome));
                    assert(shown(r.events@) =~= seq![(0u32, official_failure(outcome))]);
                    r
                }
            },
            Stage::AwaitAur => {
                if exited_failed(&outcome) {
                    note(&mut events, 60, copy_text("AUR update completed with warnings (continuing...)"));
                }
                note(&mut events, 75, copy_text(":: Updating Flatpak packages..."));
                self.stage = Stage::AwaitFlatpak;
                let r = run(events, flatpak_update(85));
                assert(shown(r.events@) =~= warning(
                    outcome,
                    60,
                    "AUR update completed with warnings (continuing...)"@,
                ) + seq![(75u32, ":: Updating Flatpak packages..."@)]);
                r
            },
            Stage::AwaitFlatpak => {
                if exited_failed(&outcome) {
                    note(
                        &mut events,
                        85,
                        copy_text("Flatpak update completed with warnings (continuing...)"),
                    );
                }
                self.stage = Stage::Done;
                let r = succeed(events, ":: System updated successfully!", "System updated successfully");
                assert(shown(r.events@) =~= warning(
                    outcome,
                    85,
                    "Flatpak update completed with warnings (continuing...)"@,
                ) + seq![(100u32, ":: System updated successfully!"@)]);
                r
            },
            _ => {
                self.stage = Stage::Done;
                if ok {
                    let r = match self.operation {
                        Operation::Install => succeed(
                            events,
                            "Installation completed successfully!",
                            "Installation completed successfully",
                        ),
                        Operation::Remove => succeed(
                            events,
                            "Removal completed successfully!",
                            "Removal completed successfully",
                        ),
                        Operation::UpdateOfficial => succeed(
                            events,
                            ":: Official packages updated successfully!",
                            "Official packages updated successfully",
                        ),
                        Operation::UpdateAur => succeed(
                            events,
                            ":: AUR packages updated successfully!",
                            "AUR packages updated successfully",
                        ),
                        _ => succeed(
                            events,
                            ":: Flatpak packages updated successfully!",
                            "Flatpak packages updated successfully",
                        ),
                    };
                    assert(shown(r.events@) =~= seq![(100u32, r.events@[0].message@)]);
                    r
                } else {
                    let m = match self.operation {
                        Operation::Install => install_failure_text(self.source, &outcome),
                        Operation::Remove => removal_failure_text(self.source, &outcome),
                        Operation::UpdateOfficial => official_failure_text(&outcome),
                        Operation::UpdateAur => aur_failure_text(&outcome),
                        _ => flatpak_failure_text(&outcome),
                    };
                    let ghost mv = m@;
                    let r = fail(events, m);
                    assert(shown(r.events@) =~= seq![(0u32, mv)]);
                    r
                }
            },
        }
    }

    fn on_config(&mut self, outcome: RunOutcome) -> (r: Step)
        requires
            old(self).wf(),
            old(self).stage == Stage::AwaitCheck || old(self).stage == Stage::AwaitUncomment
                || old(self).stage == Stage::AwaitInclude || old(self).stage == Stage::AwaitSync,
        ensures
            final(self).wf(),
            final(self).same_request(*old(self)),
            step_ok(r, false),
            config_decision(*old(self), outcome, r, final(self).stage),
    {
        let stage = self.stage;
        if stage == Stage::AwaitCheck {
            if let RunOutcome::Exited(o) = &outcome {
                if multilib_already_enabled(o.stdout.as_str()) {
                    self.stage = Stage::Done;
                    return quiet(Action::Finish(Ok(copy_text("Multilib is already enabled"))));
                }
                self.stage = Stage::AwaitUncomment;
                return quiet(Action::Run(config_edit("/^#\\[multilib\\]/s/^#//", &self.password)));
            }
            proof {
                reveal_strlit("Failed to check pacman.conf: ");
            }
            let e = reason_of(&outcome);
            self.stage = Stage::Done;
            return quiet(Action::Finish(Err(reason("Failed to check pacman.conf: ", e.as_str()))));
        }
        if exited_ok(&outcome) {
            if stage == Stage::AwaitUncomment {
                self.stage = Stage::AwaitInclude;
                return quiet(
                    Action::Run(
                        config_edit(
                            "/^\\[multilib\\]$/,/^#Include/ s/^#Include/Include/",
                            &self.password,
                        ),
                    ),
                );
            } else if stage == Stage::AwaitInclude {
                self.stage = Stage::AwaitSync;
                return quiet(Action::Run(database_sync(&self.password)));
            } else {
                self.stage = Stage::Done;
                return quiet(
                    Action::Finish(Ok(copy_text("Multilib enabled and databases synced successfully"))),
                );
            }
        }
        self.stage = Stage::Done;
        quiet(Action::Finish(Err(config_failure_text(stage, &outcome))))
    }

    /// Moves the operation on by the caller's report `e`. The step says what
    /// to emit and do next, and the coordinator moves to the stage that waits
    /// for the report of that action: a helper probe is awaited exactly when
    /// the step asks for one, and the operation is over exactly when the step
    /// finishes it.
    pub fn advance(&mut self, e: Event) -> (r: Step)
        requires
            old(self).wf(),
            !old(self).is_done(),
            old(self).expects(e),
        ensures
            final(self).wf(),
            final(self).same_request(*old(self)),
            step_ok(r, old(self).reports()),
            (r.action is Finish) == final(self).is_done(),
            (r.action is ProbeHelper) == (final(self).stage == Stage::AwaitHelper),
            e matches Event::HelperFound(found) ==> helper_decision(
                *old(self),
                found,
                r,
                final(self).stage,
            ),
            e matches Event::Ran(outcome) ==> (if old(self).operation == Operation::EnableMultilib {
                config_decision(*old(self), outcome, r, final(self).stage)
            } else {
                run_decision(*old(self), outcome, r, final(self).stage)
            }),
    {
        match e {
            Event::HelperFound(found) => self.on_helper(found),
            Event::Ran(outcome) => {
                if self.operation == Operation::EnableMultilib {
                    self.on_config(outcome)
                } else {
                    self.on_run(outcome)
                }
            },
        }
    }
}

fn exited_ok(outcome: &RunOutcome) -> (r: bool)
    ensures
        r == exited_with(*outcome, true),
{
    match outcome {
        RunOutcome::Exited(o) => o.success,
        _ => false,
    }
}

fn exited_failed(outcome: &RunOutcome) -> (r: bool)
    ensures
        r == exited_with(*outcome, false),
{
    match outcome {
        RunOutcome::Exited(o) => !o.success,
        _ => false,
    }
}

} // verus!
