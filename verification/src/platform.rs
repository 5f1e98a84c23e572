//! The backdrop that the main window is given at startup, by operating
//! system.
//!
//! Which effect a window gets is the shell's choice; putting it on the window
//! is the host's work. This module makes the choice and leaves the rest to
//! the caller.

use vstd::prelude::*;
use vstd::string::StringExecFns;

verus! {

/// The operating systems that the shell tells apart.
#[derive(Clone, Copy, Debug, PartialEq, Eq, Structural)]
pub enum Platform {
    MacOs,
    Windows,
    Linux,
    /// Any other system: the window is left as the host made it.
    Other,
}

/// A colour: red, green, blue and opacity, each from 0 to 255.
#[derive(Clone, Copy, Debug, PartialEq, Eq, Structural)]
pub struct Tint {
    pub red: u8,
    pub green: u8,
    pub blue: u8,
    pub alpha: u8,
}

/// The look of a vibrant window on macOS.
#[derive(Clone, Copy, Debug, PartialEq, Eq, Structural)]
pub enum Material {
    Menu,
    Popover,
    Sidebar,
    HeaderView,
}

/// When a vibrant window on macOS shows its material.
#[derive(Clone, Copy, Debug, PartialEq, Eq, Structural)]
pub enum Activity {
    /// Only while the window is the active one.
    FollowsWindow,
    /// Always, so that the window looks the same when it loses focus.
    Active,
    /// Never.
    Inactive,
}

/// A translucent backdrop for a window.
#[derive(Clone, Copy, Debug, PartialEq, Eq, Structural)]
pub enum WindowEffect {
    /// Vibrancy, with corners rounded by `corner_radius` points.
    Vibrancy { material: Material, activity: Activity, corner_radius: u8 },
    /// Acrylic over `tint`.
    Acrylic { tint: Tint },
    /// Blur over `tint`.
    Blur { tint: Tint },
}

/// The system that goes by the identifier `os`. The identifiers are those by
/// which a build names its target system, in lower case; one that is not
/// known, or is spelled otherwise, is `Other`.
pub open spec fn platform_named(os: Seq<char>) -> Platform {
    if os == "macos"@ {
        Platform::MacOs
    } else if os == "windows"@ {
        Platform::Windows
    } else if os == "linux"@ {
        Platform::Linux
    } else {
        Platform::Other
    }
}

/// The tint under the acrylic and the blur: a dark grey, about half opaque.
pub open spec fn backdrop_tint() -> Tint {
    Tint { red: 18, green: 18, blue: 18, alpha: 125 }
}

/// The backdrop of the main window on `platform`, or `None` where the window
/// gets none.
pub open spec fn effect_on(platform: Platform) -> Option<WindowEffect> {
    match platform {
        Platform::MacOs => Some(
            WindowEffect::Vibrancy {
                material: Material::Menu,
                activity: Activity::Active,
                corner_radius: 6,
            },
        ),
        Platform::Windows => Some(WindowEffect::Acrylic { tint: backdrop_tint() }),
        Platform::Linux => Some(WindowEffect::Blur { tint: backdrop_tint() }),
        Platform::Other => None,
    }
}

/// Tells the system apart by its identifier.
pub fn platform_of(os: &str) -> (platform: Platform)
    ensures
        platform == platform_named(os@),
{
    let name = String::from_str(os);
    if name == String::from_str("macos") {
        Platform::MacOs
    } else if name == String::from_str("windows") {
        Platform::Windows
    } else if name == String::from_str("linux") {
        Platform::Linux
    } else {
        Platform::Other
    }
}

/// Chooses the backdrop that the main window is given at startup.
pub fn startup_effect(platform: Platform) -> (effect: Option<WindowEffect>)
    ensures
        effect == effect_on(platform),
{
    let tint = Tint { red: 18, green: 18, blue: 18, alpha: 125 };
    match platform {
        Platform::MacOs => Some(
            WindowEffect::Vibrancy {
                material: Material::Menu,
                activity: Activity::Active,
                corner_radius: 6,
            },
        ),
        Platform::Windows => Some(WindowEffect::Acrylic { tint }),
        Platform::Linux => Some(WindowEffect::Blur { tint }),
        Platform::Other => None,
    }
}

} // verus!
