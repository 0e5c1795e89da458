//! The choices of the top-level interactive menu. The prompting itself
//! belongs to the excluded presentation layer; the choices and their
//! labels are fixed data.

use vstd::prelude::*;

verus! {

/// One choice of the top-level menu.
#[derive(Clone, Copy, PartialEq, Eq, Structural, Debug)]
pub enum InitialMenu {
    QuickUpdate,
    DownloadForSteam,
    DownloadForLutris,
    DownloadIntoCustomLocation,
    ManageExistingInstallations,
}

impl InitialMenu {
    /// The label the menu shows for this choice.
    pub fn label(&self) -> (r: &'static str)
        ensures
            r@ == match *self {
                InitialMenu::QuickUpdate => "Quick Update (detect apps and update compatibility tools)"@,
                InitialMenu::DownloadForSteam => "Download compatibility tools for Steam"@,
                InitialMenu::DownloadForLutris => "Download compatibility tools for Lutris"@,
                InitialMenu::DownloadIntoCustomLocation => "Download compatibility tools into custom location"@,
                InitialMenu::ManageExistingInstallations => "Manage Existing Installations"@,
            },
    {
        match *self {
            InitialMenu::QuickUpdate => "Quick Update (detect apps and update compatibility tools)",
            InitialMenu::DownloadForSteam => "Download compatibility tools for Steam",
            InitialMenu::DownloadForLutris => "Download compatibility tools for Lutris",
            InitialMenu::DownloadIntoCustomLocation => "Download compatibility tools into custom location",
            InitialMenu::ManageExistingInstallations => "Manage Existing Installations",
        }
    }

    /// All choices, in menu order.
    pub fn variants() -> (v: Vec<InitialMenu>)
        ensures
            v@ == seq![
                InitialMenu::QuickUpdate,
                InitialMenu::DownloadForSteam,
                InitialMenu::DownloadForLutris,
                InitialMenu::DownloadIntoCustomLocation,
                InitialMenu::ManageExistingInstallations,
            ],
    {
        let mut v: Vec<InitialMenu> = Vec::new();
        v.push(InitialMenu::QuickUpdate);
        v.push(InitialMenu::DownloadForSteam);
        v.push(InitialMenu::DownloadForLutris);
        v.push(InitialMenu::DownloadIntoCustomLocation);
        v.push(InitialMenu::ManageExistingInstallations);
        proof {
            assert(v@ =~= seq![
                InitialMenu::QuickUpdate,
                InitialMenu::DownloadForSteam,
                InitialMenu::DownloadForLutris,
                InitialMenu::DownloadIntoCustomLocation,
                InitialMenu::ManageExistingInstallations,
            ]);
        }
        v
    }
}

} // verus!
