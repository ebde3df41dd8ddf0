//! Starting together with the system: an option, not the default.
//!
//! Every system does it in its own way, and none needs a library for it: in
//! Windows it is an entry in the registry, in Linux a `.desktop` file in the
//! directory of autostart. Both can be undone by one deletion.
use vstd::prelude::*;

use crate::text::append;

verus! {

/// The entry stands in the system under this name.
pub const ENTRY: &'static str = "MicBridge";

/// The name of the file in the directory of autostart.
pub const DESKTOP_FILE: &'static str = "micbridge.desktop";

/// The key "Run" of the current user: it takes no rights of an administrator and
/// goes away with the user's profile.
pub const RUN_KEY: &'static str = "HKCU\\Software\\Microsoft\\Windows\\CurrentVersion\\Run";

/// Whether we are set to start together with the system, by what the system said
/// when asked: where it could not be asked, we are not.
pub fn enabled(probe: Result<bool, String>) -> (r: bool)
    ensures
        r == (probe == Ok::<bool, String>(true)),
{
    match probe {
        Ok(on) => on,
        Err(_) => false,
    }
}

/// What the toggle shows after an attempt to switch: the actual state, not the
/// wish. And what is said of it.
pub fn set(on: bool, outcome: Result<(), String>) -> (r: (bool, Option<String>))
    ensures
        match outcome {
            Ok(_) => r.0 == on && r.1 is None,
            Err(e) => r.0 == !on && r.1 == Some(e),
        },
{
    match outcome {
        Ok(_) => (on, None),
        Err(e) => (!on, Some(e)),
    }
}

/// Where the settings of the user lie.
#[derive(Debug)]
pub enum ConfigHome {
    /// In this directory.
    At(String),
    /// In `.config` of this directory.
    UnderHome(String),
    /// The home directory is not known.
    Unknown,
}

/// Where the settings of the user lie, by `$XDG_CONFIG_HOME`, and where that is
/// not set, by `$HOME`.
pub fn config_home(xdg: Option<String>, home: Option<String>) -> (r: ConfigHome)
    ensures
        match xdg {
            Some(dir) if dir@.len() > 0 => r == ConfigHome::At(dir),
            _ => match home {
                Some(h) => r == ConfigHome::UnderHome(h),
                None => r is Unknown,
            },
        },
{
    if let Some(dir) = xdg {
        if dir.as_str().unicode_len() > 0 {
            return ConfigHome::At(dir);
        }
    }
    match home {
        Some(h) => ConfigHome::UnderHome(h),
        None => ConfigHome::Unknown,
    }
}

/// What the `.desktop` file of a program holds.
pub fn desktop_entry(exe: &str) -> (r: String)
    ensures
        r@ == "[Desktop Entry]\nType=Application\nName=MicBridge\nComment=Mikrofon z drugiego komputera\nExec="@
            + exe@ + "\nTerminal=false\nX-GNOME-Autostart-enabled=true\n"@,
{
    let mut out =
        "[Desktop Entry]\nType=Application\nName=MicBridge\nComment=Mikrofon z drugiego komputera\nExec=".to_owned();
    append(&mut out, exe);
    append(&mut out, "\nTerminal=false\nX-GNOME-Autostart-enabled=true\n");
    out
}

/// The value of the entry in the registry: in quotes, because a path nearly
/// always has a space in it.
pub fn run_value(exe: &str) -> (r: String)
    ensures
        r@ == "\""@ + exe@ + "\""@,
{
    let mut out = "\"".to_owned();
    append(&mut out, exe);
    append(&mut out, "\"");
    out
}

} // verus!
