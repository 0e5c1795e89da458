use protonup_core::apps::{custom_target, resolve, Application};
use protonup_core::errors::FailReason;
use protonup_core::menu::InitialMenu;

#[test]
fn each_application_resolves_to_its_tool_dir() {
    let home = "/home/user";
    let cases = [
        (
            Application::Steam,
            "/home/user/.steam/steam/compatibilitytools.d",
        ),
        (
            Application::SteamFlatpak,
            "/home/user/.var/app/com.valvesoftware.Steam/data/Steam/compatibilitytools.d",
        ),
        (
            Application::Lutris,
            "/home/user/.local/share/lutris/runners/wine",
        ),
        (
            Application::LutrisFlatpak,
            "/home/user/.var/app/net.lutris.Lutris/data/lutris/runners/wine",
        ),
    ];
    for (app, expected) in cases {
        let t = resolve(app, home, true).unwrap();
        assert_eq!(t.install_dir, expected);
        assert_eq!(t.for_app, Some(app));
    }
}

#[test]
fn missing_launcher_is_a_configuration_error() {
    match resolve(Application::Steam, "/home/user", false) {
        Err(FailReason::Configuration) => {}
        _ => panic!("expected a configuration error"),
    }
}

#[test]
fn custom_locations_are_taken_as_is() {
    let t = custom_target("/mnt/tools".to_string());
    assert_eq!(t.install_dir, "/mnt/tools");
    assert_eq!(t.for_app, None);
}

#[test]
fn repositories_per_launcher() {
    assert_eq!(
        Application::Steam.repository_id(),
        "GloriousEggroll/proton-ge-custom"
    );
    assert_eq!(
        Application::SteamFlatpak.repository_id(),
        "GloriousEggroll/proton-ge-custom"
    );
    assert_eq!(
        Application::Lutris.repository_id(),
        "GloriousEggroll/wine-ge-custom"
    );
    assert_eq!(
        Application::LutrisFlatpak.repository_id(),
        "GloriousEggroll/wine-ge-custom"
    );
}

#[test]
fn labels_are_human_readable() {
    assert_eq!(Application::Steam.label(), "Steam");
    assert_eq!(Application::LutrisFlatpak.label(), "Lutris (Flatpak)");
    assert_eq!(
        InitialMenu::QuickUpdate.label(),
        "Quick Update (detect apps and update compatibility tools)"
    );
}

#[test]
fn menu_lists_every_choice_once() {
    let v = InitialMenu::variants();
    assert_eq!(v.len(), 5);
    assert_eq!(v[0], InitialMenu::QuickUpdate);
    assert_eq!(v[4], InitialMenu::ManageExistingInstallations);
}
