//! What the webviews are told about the machine the app runs on.
use vstd::prelude::*;
use crate::text::{chars_of, eq_ignore_case};

verus! {

#[derive(Debug, Clone, Copy)]
pub struct PlatformInfo {
    pub os: &'static str,
    pub screen_permission: bool,
    pub wayland: bool,
    /// macOS: "disk-image" / "translocated" when this copy of the app cannot
    /// be granted permissions (see `install::install_issue_for`).
    pub install_issue: Option<&'static str>,
}

/// A Wayland session: on Linux, with `XDG_SESSION_TYPE` set to `wayland` in
/// any ASCII case.
pub fn is_wayland_session(os_is_linux: bool, session_type: Option<&str>) -> (r: bool)
    ensures
        r == (os_is_linux && match session_type {
            Some(t) => eq_ignore_case(t@, "wayland"@),
            None => false,
        }),
{
    if !os_is_linux {
        return false;
    }
    match session_type {
        None => false,
        Some(t) => {
            let v = chars_of(t);
            assert(v@.subrange(0, v@.len() as int) =~= v@);
            crate::text::eq_ignore_case_range(&v, 0, v.len(), "wayland")
        },
    }
}

} // verus!
