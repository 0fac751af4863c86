use vstd::prelude::*;

use crate::models::InstallProgress;
use crate::text::{chars_of, contains, copy_text, has_infix, trim, trimmed};

verus! {

/// The prompt that the elevation tool prints on its error stream.
pub open spec fn prompt_marker() -> Seq<char> {
    "[sudo] password"@
}

/// Whether an output line is forwarded as a progress event: it holds more than
/// whitespace and, where prompts are filtered, no password prompt.
pub open spec fn forwards(line: Seq<char>, filter_prompt: bool) -> bool {
    trim(line).len() > 0 && !(filter_prompt && contains(line, prompt_marker()))
}

/// The progress event for one line read from a process's output, if it is
/// forwarded at all.
pub fn line_event(line: &str, percentage: u32, filter_prompt: bool) -> (r: Option<InstallProgress>)
    ensures
        r is Some == forwards(line@, filter_prompt),
        trim(line@).len() == 0 ==> r is None,
        filter_prompt && contains(line@, prompt_marker()) ==> r is None,
        r matches Some(e) ==> e.percentage == percentage && e.message@ == line@ && !e.completed,
{
    let v = chars_of(line);
    let t = trimmed(&v);
    if t.len() == 0 {
        return None;
    }
    if filter_prompt {
        let m = chars_of("[sudo] password");
        if has_infix(&v, &m) {
            return None;
        }
    }
    Some(InstallProgress { percentage, message: copy_text(line), completed: false })
}

/// A progress event.
pub fn event(percentage: u32, message: String, completed: bool) -> (r: InstallProgress)
    ensures
        r.percentage == percentage,
        r.message@ == message@,
        r.completed == completed,
{
    InstallProgress { percentage, message, completed }
}

} // verus!
