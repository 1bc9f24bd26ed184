use omarchy_nix_daemon::alias::{resolve, ResolveError};

#[test]
fn passthrough_unchanged() {
    assert_eq!(resolve("bat").unwrap(), "bat");
    assert_eq!(resolve("ripgrep").unwrap(), "ripgrep");
    assert_eq!(resolve("chromium").unwrap(), "chromium");
}

#[test]
fn known_aliases() {
    assert_eq!(resolve("libreoffice-fresh").unwrap(), "libreoffice");
    assert_eq!(resolve("lua51").unwrap(), "lua5_1");
    assert_eq!(resolve("noto-fonts-emoji").unwrap(), "noto-fonts-color-emoji");
    assert_eq!(resolve("dua-cli").unwrap(), "dua");
    assert_eq!(resolve("vi").unwrap(), "vim");
}

#[test]
fn service_managed() {
    assert!(matches!(resolve("docker"), Err(ResolveError::ServiceManaged(_))));
    assert!(matches!(resolve("bluez"), Err(ResolveError::ServiceManaged(_))));
    assert!(matches!(resolve("networkmanager"), Err(ResolveError::ServiceManaged(_))));
}

#[test]
fn eliminated() {
    assert!(matches!(resolve("yay"), Err(ResolveError::Eliminated(_))));
    assert!(matches!(resolve("paru"), Err(ResolveError::Eliminated(_))));
}

#[test]
fn service_managed_names_the_option() {
    assert!(matches!(resolve("docker-compose"), Err(ResolveError::ServiceManaged("virtualisation.docker.enable"))));
    assert!(matches!(resolve("wireplumber"), Err(ResolveError::ServiceManaged("services.pipewire.enable"))));
    assert!(matches!(resolve("sddm"), Err(ResolveError::ServiceManaged("services.displayManager.sddm.enable"))));
    assert!(matches!(resolve("plymouth"), Err(ResolveError::ServiceManaged("boot.plymouth.enable"))));
}

#[test]
fn eliminated_gives_the_reason() {
    assert!(matches!(
        resolve("limine-entry-tool"),
        Err(ResolveError::Eliminated("Limine is the Arch bootloader; NixOS uses systemd-boot"))
    ));
    assert!(matches!(resolve("pacman-contrib"), Err(ResolveError::Eliminated("pacman helper, not needed on NixOS"))));
}

#[test]
fn renames_of_several_names_share_an_attribute() {
    assert_eq!(resolve("gvfs-mtp").unwrap(), "gvfs");
    assert_eq!(resolve("gvfs-smb").unwrap(), "gvfs");
    assert_eq!(resolve("nvim").unwrap(), "neovim");
    assert_eq!(resolve("omarchy-nvim").unwrap(), "neovim");
    assert_eq!(resolve("xdg-terminal-exec").unwrap(), "xdg-terminal-exec");
}

#[test]
fn resolving_twice_changes_nothing() {
    for name in ["dua-cli", "vi", "mpv-mpris", "ttf-jetbrains-mono-nerd-basic", "yt-dlp", "bat", "python-gobject"] {
        let once = resolve(name).unwrap();
        assert_eq!(resolve(once).unwrap(), once);
    }
}

#[test]
fn near_misses_pass_through() {
    assert_eq!(resolve("").unwrap(), "");
    assert_eq!(resolve("docker2").unwrap(), "docker2");
    assert_eq!(resolve("Docker").unwrap(), "Docker");
    assert_eq!(resolve("v").unwrap(), "v");
}

#[test]
fn refusal_messages() {
    let managed = match resolve("cups") {
        Err(e) => e.message(),
        Ok(_) => panic!("cups is managed by a module"),
    };
    assert_eq!(
        managed,
        "this package is managed by the NixOS option `services.printing.enable`;\nuse the Omarchy settings panel or omarchy-setup to toggle it"
    );
    let gone = match resolve("makepkg") {
        Err(e) => e.message(),
        Ok(_) => panic!("makepkg has no NixOS equivalent"),
    };
    assert_eq!(gone, "not available on NixOS: AUR tooling does not exist on NixOS");
}
