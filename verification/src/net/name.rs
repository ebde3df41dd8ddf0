//! The machine's own name.
use vstd::prelude::*;

use crate::text::trim;

verus! {

/// A text with something in it besides white space.
pub open spec fn says_something(s: Seq<char>) -> bool {
    crate::text::trimmed(s).len() > 0
}

fn tells(s: &String) -> (r: bool)
    ensures
        r == says_something(s@),
{
    let bare = trim(s.as_str());
    bare.as_str().unicode_len() > 0
}

/// The name by which a user is to recognise the machine on a list.
///
/// `HOSTNAME` is at times a variable of the shell and not of the environment, so
/// that a child process does not see it and introduces itself as unknown. So the
/// system is asked, and the variables stay as a back door to change the name:
/// the program's own comes first, what the system says second, the usual
/// variables last.
pub fn hostname(
    program: Option<String>,
    system: Option<String>,
    computer_name: Option<String>,
    host_name: Option<String>,
) -> (r: String)
    ensures
        r@ == if program is Some && says_something(program->0@) {
            program->0@
        } else if system is Some && says_something(system->0@) {
            system->0@
        } else if computer_name is Some {
            computer_name->0@
        } else if host_name is Some {
            host_name->0@
        } else {
            "nieznany"@
        },
{
    if let Some(name) = program {
        if tells(&name) {
            return name;
        }
    }
    if let Some(name) = system {
        if tells(&name) {
            return name;
        }
    }
    if let Some(name) = computer_name {
        return name;
    }
    match host_name {
        Some(name) => name,
        None => "nieznany".to_owned(),
    }
}

} // verus!
