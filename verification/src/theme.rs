//! Desktop theme detection and the palette choice that follows from it.
//!
//! The surrounding application reads the desktop-environment variable and
//! runs the desktop-settings command; this module owns the decisions: which
//! desktops can be probed, what the probe's output means, and which colours
//! the window uses for a dark or a light desktop.

use vstd::prelude::*;
use vstd::string::StrSliceExecFns;

use crate::text::str_eq;

verus! {

/// The desktop environments the theme probe knows.
#[derive(Debug, Clone, Copy, PartialEq, Eq, Structural)]
pub enum DesktopEnvironment {
    Gnome,
    Kde,
    Unknown,
}

/// The desktop that an environment name denotes; an unset variable
/// (`None`) or an unrecognised name counts as unknown.
pub open spec fn desktop_env_of(name: Option<Seq<char>>) -> DesktopEnvironment {
    match name {
        Option::Some(n) => if n == "GNOME"@ {
            DesktopEnvironment::Gnome
        } else if n == "KDE"@ {
            DesktopEnvironment::Kde
        } else {
            DesktopEnvironment::Unknown
        },
        Option::None => DesktopEnvironment::Unknown,
    }
}

/// Classifies the desktop-environment variable's value, as
/// `desktop_env_of` describes.
pub fn desktop_environment_from(name: Option<&str>) -> (r: DesktopEnvironment)
    ensures
        r == desktop_env_of(name.deep_view()),
{
    match name {
        Option::Some(n) => if str_eq(n, "GNOME") {
            DesktopEnvironment::Gnome
        } else if str_eq(n, "KDE") {
            DesktopEnvironment::Kde
        } else {
            DesktopEnvironment::Unknown
        },
        Option::None => DesktopEnvironment::Unknown,
    }
}

/// Whether the word `dark` occurs somewhere in `s`.
pub open spec fn has_dark_marker(s: Seq<char>) -> bool {
    exists|i: int| 0 <= i && i + 4 <= s.len() && #[trigger] s.subrange(i, i + 4) == "dark"@
}

/// Whether the settings command's output names a dark colour scheme:
/// true exactly when the word `dark` occurs in it.
pub fn theme_output_indicates_dark(output: &str) -> (r: bool)
    ensures
        r == has_dark_marker(output@),
{
    proof {
        reveal_strlit("dark");
    }
    let n = output.unicode_len();
    if n < 4 {
        return false;
    }
    let mut i: usize = 0;
    while i <= n - 4
        invariant
            n == output@.len(),
            4 <= n,
            i <= n - 3,
            forall|j: int| 0 <= j < i ==> #[trigger] output@.subrange(j, j + 4) != "dark"@,
        decreases n - i,
    {
        if output.get_char(i) == 'd' && output.get_char(i + 1) == 'a' && output.get_char(i + 2)
            == 'r' && output.get_char(i + 3) == 'k' {
            proof {
                reveal_strlit("dark");
                assert(output@.subrange(i as int, i as int + 4) =~= "dark"@);
            }
            return true;
        }
        proof {
            reveal_strlit("dark");
            if output@.subrange(i as int, i as int + 4) == "dark"@ {
                assert(output@.subrange(i as int, i as int + 4)[0] == 'd');
                assert(output@.subrange(i as int, i as int + 4)[1] == 'a');
                assert(output@.subrange(i as int, i as int + 4)[2] == 'r');
                assert(output@.subrange(i as int, i as int + 4)[3] == 'k');
                assert(false);
            }
        }
        i += 1;
    }
    false
}

/// Whether the desktop is in dark mode, from the classified desktop and
/// the probe's output: only a known desktop can be probed, and its output
/// must name a dark scheme; a probe whose output could not be read
/// (`None`) counts as light.
pub open spec fn spec_system_dark(desktop: DesktopEnvironment, probe: Option<Seq<char>>) -> bool {
    !(desktop is Unknown) && match probe {
        Option::Some(o) => has_dark_marker(o),
        Option::None => false,
    }
}

/// Decides dark mode from the classified desktop and the probe's output,
/// as `spec_system_dark` describes.
pub fn system_theme_is_dark(desktop: DesktopEnvironment, probe_output: Option<&str>) -> (r: bool)
    ensures
        r == spec_system_dark(desktop, probe_output.deep_view()),
{
    match desktop {
        DesktopEnvironment::Unknown => false,
        _ => match probe_output {
            Option::Some(o) => theme_output_indicates_dark(o),
            Option::None => false,
        },
    }
}

/// One solid colour, as integer channels.
#[derive(Debug, Clone, Copy, PartialEq, Eq, Structural)]
pub struct CustomStyle {
    pub red: u8,
    pub green: u8,
    pub blue: u8,
    pub alpha: u8,
}

/// The palette choice for the main window: dark or light.
#[derive(Debug, Clone, Copy, PartialEq, Eq, Structural)]
pub struct CustomTheme {
    pub dark: bool,
}

/// The widget surface colour a theme uses: black on a dark desktop, white
/// on a light one, opaque either way.
pub open spec fn spec_surface_color(dark: bool) -> CustomStyle {
    if dark {
        CustomStyle { red: 0, green: 0, blue: 0, alpha: 255 }
    } else {
        CustomStyle { red: 255, green: 255, blue: 255, alpha: 255 }
    }
}

impl CustomTheme {
    /// The theme for the detected mode.
    pub fn for_system(dark: bool) -> (t: CustomTheme)
        ensures
            t.dark == dark,
    {
        CustomTheme { dark }
    }

    /// The colour behind text inputs and containers, as
    /// `spec_surface_color` describes.
    pub fn surface_color(&self) -> (c: CustomStyle)
        ensures
            c == spec_surface_color(self.dark),
    {
        if self.dark {
            CustomStyle { red: 0, green: 0, blue: 0, alpha: 255 }
        } else {
            CustomStyle { red: 255, green: 255, blue: 255, alpha: 255 }
        }
    }

    /// The window's own background: fully transparent, whatever the mode.
    pub fn window_background(&self) -> (c: CustomStyle)
        ensures
            c == (CustomStyle { red: 0, green: 0, blue: 0, alpha: 0 }),
    {
        CustomStyle { red: 0, green: 0, blue: 0, alpha: 0 }
    }
}

} // verus!
