//! Launch-at-sign-in: where the per-user startup shortcut lives, and what
//! its presence says.

use vstd::prelude::*;

use crate::text::{append_str, chars_of, lit};

verus! {

/// Whether the palette starts at sign-in.
#[derive(Debug, PartialEq, Eq)]
pub enum UiAutostartStatus {
    Enabled { shortcut: String },
    Disabled { shortcut: String },
    Unsupported,
}

impl UiAutostartStatus {
    pub fn is_enabled(&self) -> (b: bool)
        ensures
            b == (*self is Enabled),
    {
        match self {
            UiAutostartStatus::Enabled { .. } => true,
            _ => false,
        }
    }
}

/// `base` joined with `part` by one `/`, unless `base` already ends with one.
pub open spec fn join_spec(base: Seq<char>, part: Seq<char>) -> Seq<char> {
    if base.len() > 0 && base.last() == '/' {
        base + part
    } else {
        base + seq!['/'] + part
    }
}

fn join(base: &mut String, part: &str)
    ensures
        final(base)@ == join_spec(old(base)@, part@),
{
    let v = chars_of(base.as_str());
    if v.len() > 0 && v[v.len() - 1] == '/' {
        append_str(base, part);
    } else {
        crate::text::push_char(base, '/');
        append_str(base, part);
    }
}

/// The startup shortcut under the roaming application-data folder.
pub open spec fn startup_shortcut_spec(roaming_app_data: Seq<char>) -> Seq<char> {
    join_spec(join_spec(join_spec(join_spec(join_spec(join_spec(roaming_app_data, "Microsoft"@), "Windows"@), "Start Menu"@), "Programs"@), "Startup"@), "freepalette.lnk"@)
}

/// The per-user startup shortcut path.
pub fn startup_shortcut_path_from_roaming_app_data(roaming_app_data: &str) -> (s: String)
    ensures
        s@ == startup_shortcut_spec(roaming_app_data@),
{
    let mut s = lit(roaming_app_data);
    join(&mut s, "Microsoft");
    join(&mut s, "Windows");
    join(&mut s, "Start Menu");
    join(&mut s, "Programs");
    join(&mut s, "Startup");
    join(&mut s, "freepalette.lnk");
    s
}

/// Autostart is on exactly when the shortcut exists.
pub fn autostart_status_for_shortcut(shortcut: String, exists: bool) -> (r: UiAutostartStatus)
    ensures
        exists ==> r == (UiAutostartStatus::Enabled { shortcut }),
        !exists ==> r == (UiAutostartStatus::Disabled { shortcut }),
{
    if exists {
        UiAutostartStatus::Enabled { shortcut }
    } else {
        UiAutostartStatus::Disabled { shortcut }
    }
}

} // verus!
