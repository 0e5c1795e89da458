//! Static knowledge of the supported launcher applications: their labels,
//! the repository that publishes the compatibility tool each one consumes,
//! and where each expects its tool directory to live.

use vstd::prelude::*;

verus! {

/// A supported game-launcher target needing a compatibility tool.
/// The set is closed and known at build time.
#[derive(Clone, Copy, PartialEq, Eq, Structural, Debug)]
pub enum Application {
    Steam,
    SteamFlatpak,
    Lutris,
    LutrisFlatpak,
}

impl Application {
    /// Human-readable label for this launcher.
    pub fn label(&self) -> (r: &'static str)
        ensures
            r@ == match *self {
                Application::Steam => "Steam"@,
                Application::SteamFlatpak => "Steam (Flatpak)"@,
                Application::Lutris => "Lutris"@,
                Application::LutrisFlatpak => "Lutris (Flatpak)"@,
            },
    {
        match *self {
            Application::Steam => "Steam",
            Application::SteamFlatpak => "Steam (Flatpak)",
            Application::Lutris => "Lutris",
            Application::LutrisFlatpak => "Lutris (Flatpak)",
        }
    }

    /// Identifier of the repository that hosts the compatibility tool
    /// releases this launcher consumes.
    pub fn repository_id(&self) -> (r: &'static str)
        ensures
            r@ == match *self {
                Application::Steam | Application::SteamFlatpak => "GloriousEggroll/proton-ge-custom"@,
                Application::Lutris | Application::LutrisFlatpak => "GloriousEggroll/wine-ge-custom"@,
            },
    {
        match *self {
            Application::Steam | Application::SteamFlatpak => "GloriousEggroll/proton-ge-custom",
            Application::Lutris | Application::LutrisFlatpak => "GloriousEggroll/wine-ge-custom",
        }
    }

    /// Path of this launcher's tool directory, relative to the user's home.
    pub fn tool_dir_suffix(&self) -> (r: &'static str)
        ensures
            r@ == self.spec_tool_dir_suffix(),
    {
        match *self {
            Application::Steam => "/.steam/steam/compatibilitytools.d",
            Application::SteamFlatpak => "/.var/app/com.valvesoftware.Steam/data/Steam/compatibilitytools.d",
            Application::Lutris => "/.local/share/lutris/runners/wine",
            Application::LutrisFlatpak => "/.var/app/net.lutris.Lutris/data/lutris/runners/wine",
        }
    }

    pub open spec fn spec_tool_dir_suffix(self) -> Seq<char> {
        match self {
            Application::Steam => "/.steam/steam/compatibilitytools.d"@,
            Application::SteamFlatpak => "/.var/app/com.valvesoftware.Steam/data/Steam/compatibilitytools.d"@,
            Application::Lutris => "/.local/share/lutris/runners/wine"@,
            Application::LutrisFlatpak => "/.var/app/net.lutris.Lutris/data/lutris/runners/wine"@,
        }
    }
}

/// A resolved destination for an install: either one of the fixed
/// [`Application`] slots or a user-supplied custom directory.
pub struct InstallTarget {
    /// The launcher this target belongs to, if any; `None` for a custom path.
    pub for_app: Option<Application>,
    /// The resolved directory where installed tool versions live.
    pub install_dir: String,
}

/// Resolves the platform-appropriate tool directory for a fixed
/// [`Application`].
///
/// The caller reports whether the launcher's own parent directory was found
/// on the host (`parent_present`); resolution is a pure lookup and fails
/// exactly when that parent cannot be located.
pub fn resolve(app: Application, home: &str, parent_present: bool) -> (r: Result<
    InstallTarget,
    crate::errors::FailReason,
>)
    ensures
        parent_present ==> (r matches Ok(t) && t.for_app == Some(app) && t.install_dir@ == home@
            + app.spec_tool_dir_suffix()),
        !parent_present ==> (r matches Err(e) && e == crate::errors::FailReason::Configuration),
{
    if parent_present {
        let mut dir = home.to_owned();
        dir.append(app.tool_dir_suffix());
        Ok(InstallTarget { for_app: Some(app), install_dir: dir })
    } else {
        Err(crate::errors::FailReason::Configuration)
    }
}

/// A custom location supplied by the user, taken as-is.
pub fn custom_target(dir: String) -> (r: InstallTarget)
    ensures
        r.for_app == None::<Application>,
        r.install_dir == dir,
{
    InstallTarget { for_app: None, install_dir: dir }
}

} // verus!
