use vstd::prelude::*;

use crate::models::Source;
use crate::text::{copy_text, same_text};

verus! {

/// The AUR helpers this library knows, in order of preference.
#[derive(Clone, Copy, Debug, PartialEq, Eq, Structural)]
pub enum Helper {
    Yay,
    Paru,
}

pub open spec fn helper_spec_name(h: Helper) -> Seq<char> {
    match h {
        Helper::Yay => "yay"@,
        Helper::Paru => "paru"@,
    }
}

impl Helper {
    /// The helper's executable.
    pub fn name(&self) -> (r: &'static str)
        ensures
            r@ == helper_spec_name(*self),
    {
        match self {
            Helper::Yay => "yay",
            Helper::Paru => "paru",
        }
    }
}

pub open spec fn no_helper_message() -> Seq<char> {
    "No AUR helper found. Please install yay or paru."@
}

/// The first helper, in order of preference, whose version probe ran.
pub fn select_helper(yay_ran: bool, paru_ran: bool) -> (r: Option<Helper>)
    ensures
        yay_ran ==> r == Some(Helper::Yay),
        !yay_ran && paru_ran ==> r == Some(Helper::Paru),
        !yay_ran && !paru_ran ==> r is None,
{
    if yay_ran {
        Some(Helper::Yay)
    } else if paru_ran {
        Some(Helper::Paru)
    } else {
        None
    }
}

/// The selected helper, or the error that tells the user to install one.
pub fn require_helper(h: Option<Helper>) -> (r: Result<Helper, String>)
    ensures
        h matches Some(x) ==> r == Ok::<Helper, String>(x),
        h is None ==> (r matches Err(m) && m@ == no_helper_message()),
{
    match h {
        Some(x) => Ok(x),
        None => Err(copy_text("No AUR helper found. Please install yay or paru.")),
    }
}

pub open spec fn source_spec_tag(s: Source) -> Seq<char> {
    match s {
        Source::Official => "official"@,
        Source::Aur => "aur"@,
        Source::Flatpak => "flatpak"@,
    }
}

impl Source {
    /// The tag that names the source to callers.
    pub fn tag(&self) -> (r: &'static str)
        ensures
            r@ == source_spec_tag(*self),
    {
        match self {
            Source::Official => "official",
            Source::Aur => "aur",
            Source::Flatpak => "flatpak",
        }
    }

    /// The source that `tag` names, if any.
    pub fn from_tag(tag: &str) -> (r: Option<Source>)
        ensures
            r matches Some(s) ==> source_spec_tag(s) == tag@,
            r is None ==> forall|s: Source| source_spec_tag(s) != tag@,
            tag@ == "official"@ ==> r == Some(Source::Official),
            tag@ == "aur"@ ==> r == Some(Source::Aur),
            tag@ == "flatpak"@ ==> r == Some(Source::Flatpak),
    {
        proof {
            reveal_strlit("official");
            reveal_strlit("aur");
            reveal_strlit("flatpak");
            assert("aur"@[0] != "official"@[0]);
            assert("aur"@ != "official"@);
            assert("flatpak"@[0] != "official"@[0]);
            assert("flatpak"@ != "official"@);
            assert("flatpak"@ != "aur"@);
        }
        if same_text(tag, "official") {
            Some(Source::Official)
        } else if same_text(tag, "aur") {
            Some(Source::Aur)
        } else if same_text(tag, "flatpak") {
            Some(Source::Flatpak)
        } else {
            None
        }
    }
}

/// How a removal treats the package's dependencies.
#[derive(Clone, Copy, Debug, PartialEq, Eq, Structural)]
pub enum RemoveMode {
    /// Remove the package alone.
    Plain,
    /// Remove the package with its unneeded dependencies and saved configuration.
    Recursive,
}

impl RemoveMode {
    /// `"recursive"` selects the recursive form; any other text the plain one.
    pub fn from_tag(tag: &str) -> (r: RemoveMode)
        ensures
            (r == RemoveMode::Recursive) == (tag@ == "recursive"@),
    {
        if same_text(tag, "recursive") {
            RemoveMode::Recursive
        } else {
            RemoveMode::Plain
        }
    }
}

/// An executable and its arguments.
#[derive(Clone, Debug)]
pub struct CommandLine {
    pub program: String,
    pub args: Vec<String>,
}

pub open spec fn arg_views(a: Seq<String>) -> Seq<Seq<char>> {
    a.map_values(|s: String| s@)
}

impl CommandLine {
    pub open spec fn spec_program(&self) -> Seq<char> {
        self.program@
    }

    pub open spec fn spec_args(&self) -> Seq<Seq<char>> {
        arg_views(self.args@)
    }
}

/// A command line from literal words.
pub fn command(program: &str, args: &[&str]) -> (r: CommandLine)
    ensures
        r.program@ == program@,
        r.spec_args() == args@.map_values(|a: &str| a@),
{
    let mut v: Vec<String> = Vec::new();
    let mut i: usize = 0;
    while i < args.len()
        invariant
            i <= args.len(),
            arg_views(v@) == args@.take(i as int).map_values(|a: &str| a@),
        decreases args.len() - i,
    {
        let ghost before = arg_views(v@);
        v.push(copy_text(args[i]));
        assert(arg_views(v@) =~= before.push(args@[i as int]@));
        assert(args@.take(i + 1).map_values(|a: &str| a@) =~= args@.take(i as int).map_values(
            |a: &str| a@,
        ).push(args@[i as int]@));
        i += 1;
    }
    assert(args@.take(args.len() as int) == args@);
    CommandLine { program: copy_text(program), args: v }
}

/// The same command line with `last` appended.
pub fn with_arg(c: CommandLine, last: &str) -> (r: CommandLine)
    ensures
        r.program@ == c.program@,
        r.spec_args() == c.spec_args().push(last@),
{
    let mut c = c;
    let ghost before = c.spec_args();
    c.args.push(copy_text(last));
    assert(c.spec_args() =~= before.push(last@));
    c
}

/// `pacman -Ss <query>`.
pub fn official_search_command(query: &str) -> (r: CommandLine)
    ensures
        r.program@ == "pacman"@,
        r.spec_args() == seq!["-Ss"@, query@],
{
    let c = command("pacman", &["-Ss"]);
    with_arg(c, query)
}

/// `<helper> -Ss <query>`.
pub fn aur_search_command(h: Helper, query: &str) -> (r: CommandLine)
    ensures
        r.program@ == helper_spec_name(h),
        r.spec_args() == seq!["-Ss"@, query@],
{
    let c = command(h.name(), &["-Ss"]);
    with_arg(c, query)
}

/// `flatpak search <query>`.
pub fn flatpak_search_command(query: &str) -> (r: CommandLine)
    ensures
        r.program@ == "flatpak"@,
        r.spec_args() == seq!["search"@, query@],
{
    let c = command("flatpak", &["search"]);
    with_arg(c, query)
}

/// The command that shows the details of `name` from `source`.
pub fn info_command(name: &str, source: Source, h: Option<Helper>) -> (r: Result<CommandLine, String>)
    ensures
        source == Source::Official ==> (r matches Ok(c) && c.program@ == "pacman"@
            && c.spec_args() == seq!["-Si"@, name@]),
        source == Source::Aur && h is Some ==> (r matches Ok(c) && c.program@ == helper_spec_name(
            h->0,
        ) && c.spec_args() == seq!["-Si"@, name@]),
        source == Source::Aur && h is None ==> (r matches Err(m) && m@ == no_helper_message()),
        source == Source::Flatpak ==> (r matches Ok(c) && c.program@ == "flatpak"@
            && c.spec_args() == seq!["info"@, name@]),
{
    match source {
        Source::Official => Ok(with_arg(command("pacman", &["-Si"]), name)),
        Source::Aur => {
            let x = require_helper(h)?;
            Ok(with_arg(command(x.name(), &["-Si"]), name))
        },
        Source::Flatpak => Ok(with_arg(command("flatpak", &["info"]), name)),
    }
}

/// `<program> --version`: the probe that tells whether a tool is present.
pub fn version_probe(program: &str) -> (r: CommandLine)
    ensures
        r.program@ == program@,
        r.spec_args() == seq!["--version"@],
{
    let c = command(program, &["--version"]);
    assert(c.spec_args() =~= seq!["--version"@]);
    c
}

/// The command that lists what `source` has installed: `pacman -Q`,
/// `<helper> -Qm` or `flatpak list --app`.
pub fn installed_list_command(source: Source, h: Helper) -> (r: CommandLine)
    ensures
        source == Source::Official ==> r.program@ == "pacman"@ && r.spec_args() == seq!["-Q"@],
        source == Source::Aur ==> r.program@ == helper_spec_name(h) && r.spec_args() == seq![
            "-Qm"@,
        ],
        source == Source::Flatpak ==> r.program@ == "flatpak"@ && r.spec_args() == seq![
            "list"@,
            "--app"@,
        ],
{
    let c = match source {
        Source::Official => command("pacman", &["-Q"]),
        Source::Aur => command(h.name(), &["-Qm"]),
        Source::Flatpak => command("flatpak", &["list", "--app"]),
    };
    assert(source == Source::Official ==> c.spec_args() =~= seq!["-Q"@]);
    assert(source == Source::Aur ==> c.spec_args() =~= seq!["-Qm"@]);
    assert(source == Source::Flatpak ==> c.spec_args() =~= seq!["list"@, "--app"@]);
    c
}

/// The command that lists the pending updates of `source`: `checkupdates`,
/// `<helper> -Qua` or `flatpak remote-ls --updates --app`.
pub fn updates_command(source: Source, h: Helper) -> (r: CommandLine)
    ensures
        source == Source::Official ==> r.program@ == "checkupdates"@ && r.spec_args().len() == 0,
        source == Source::Aur ==> r.program@ == helper_spec_name(h) && r.spec_args() == seq![
            "-Qua"@,
        ],
        source == Source::Flatpak ==> r.program@ == "flatpak"@ && r.spec_args() == seq![
            "remote-ls"@,
            "--updates"@,
            "--app"@,
        ],
{
    let c = match source {
        Source::Official => command("checkupdates", &[]),
        Source::Aur => command(h.name(), &["-Qua"]),
        Source::Flatpak => command("flatpak", &["remote-ls", "--updates", "--app"]),
    };
    assert(source == Source::Official ==> c.spec_args() =~= Seq::<Seq<char>>::empty());
    assert(source == Source::Aur ==> c.spec_args() =~= seq!["-Qua"@]);
    assert(source == Source::Flatpak ==> c.spec_args() =~= seq![
        "remote-ls"@,
        "--updates"@,
        "--app"@,
    ]);
    c
}

/// The command that tells whether `name` from `source` is installed, where
/// one can be made: `pacman -Qs ^<name>$`, `<helper> -Ss <name>` (none
/// without a helper) or `flatpak list --app`.
pub fn installed_probe_command(name: &str, source: Source, h: Option<Helper>) -> (r: Option<
    CommandLine,
>)
    ensures
        source == Source::Official ==> (r matches Some(c) && c.program@ == "pacman"@
            && c.spec_args() == seq!["-Qs"@, "^"@ + name@ + "$"@]),
        source == Source::Aur && h is None ==> r is None,
        source == Source::Aur && h is Some ==> (r matches Some(c) && c.program@ == helper_spec_name(
            h->0,
        ) && c.spec_args() == seq!["-Ss"@, name@]),
        source == Source::Flatpak ==> (r matches Some(c) && c.program@ == "flatpak"@
            && c.spec_args() == seq!["list"@, "--app"@]),
{
    match source {
        Source::Official => {
            let pattern = crate::text::join3("^", name, "$");
            Some(with_arg(command("pacman", &["-Qs"]), pattern.as_str()))
        },
        Source::Aur => match h {
            Some(x) => Some(with_arg(command(x.name(), &["-Ss"]), name)),
            None => None,
        },
        Source::Flatpak => {
            let c = command("flatpak", &["list", "--app"]);
            assert(c.spec_args() =~= seq!["list"@, "--app"@]);
            Some(c)
        },
    }
}

} // verus!
