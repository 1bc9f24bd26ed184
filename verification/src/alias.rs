//! Arch Linux package names and the nixpkgs attributes they stand for.
use vstd::prelude::*;

use vstd::string::StringExecFns;

use crate::text::same_text;

verus! {

/// Why a package name cannot be installed through `environment.systemPackages`.
#[derive(Debug)]
pub enum ResolveError {
    /// Package is managed by a NixOS module option; the field is the option's path.
    ServiceManaged(&'static str),
    /// Package is Arch-specific and has no NixOS equivalent; the field explains why.
    Eliminated(&'static str),
}

/// What a package name resolves to.
pub enum Resolution {
    /// The nixpkgs attribute to install.
    Attr(Seq<char>),
    /// The package is controlled by this NixOS option.
    ServiceManaged(Seq<char>),
    /// The package does not exist on NixOS, for this reason.
    Eliminated(Seq<char>),
}

/// The text of an optional table entry.
pub open spec fn option_text(o: Option<&'static str>) -> Option<Seq<char>> {
    match o {
        Some(s) => Some(s@),
        None => None,
    }
}

/// The nixpkgs attribute of an Arch package whose name differs in nixpkgs.
pub open spec fn renamed_attr(name: Seq<char>) -> Option<Seq<char>> {
    if name == "dua-cli"@ {
        Some("dua"@)
    } else if name == "gvfs-mtp"@ || name == "gvfs-nfs"@ || name == "gvfs-smb"@ {
        Some("gvfs"@)
    } else if name == "libvips"@ {
        Some("vips"@)
    } else if name == "libreoffice-fresh"@ {
        Some("libreoffice"@)
    } else if name == "lua51"@ {
        Some("lua5_1"@)
    } else if name == "mariadb-libs"@ {
        Some("mariadb"@)
    } else if name == "mise-bin"@ {
        Some("mise"@)
    } else if name == "mpv-mpris"@ {
        Some("mpvScripts.mpris"@)
    } else if name == "noto-fonts-cjk"@ {
        Some("noto-fonts-cjk-sans"@)
    } else if name == "noto-fonts-emoji"@ {
        Some("noto-fonts-color-emoji"@)
    } else if name == "nvim"@ {
        Some("neovim"@)
    } else if name == "omarchy-nvim"@ {
        Some("neovim"@)
    } else if name == "postgresql-libs"@ {
        Some("libpq"@)
    } else if name == "python-gobject"@ {
        Some("python3Packages.pygobject3"@)
    } else if name == "python-poetry-core"@ {
        Some("python3Packages.poetry-core"@)
    } else if name == "qt6-imageformats"@ {
        Some("qt6.qtimageformats"@)
    } else if name == "tesseract-data-eng"@ {
        Some("tesseract"@)
    } else if name == "tree-sitter-cli"@ {
        Some("tree-sitter"@)
    } else if name == "ttf-ia-writer"@ {
        Some("ia-writer-duospace"@)
    } else if name == "ttf-jetbrains-mono-nerd-basic"@ {
        Some("nerd-fonts.jetbrains-mono"@)
    } else if name == "vi"@ {
        Some("vim"@)
    } else if name == "woff2-font-awesome"@ {
        Some("font-awesome"@)
    } else if name == "xdg-terminal-exec"@ {
        Some("xdg-terminal-exec"@)
    } else if name == "xorg-xwayland"@ {
        Some("xwayland"@)
    } else if name == "yaru-icon-theme"@ {
        Some("yaru-theme"@)
    } else if name == "yt-dlp"@ {
        Some("yt-dlp"@)
    } else {
        None
    }
}

/// The NixOS option that controls a package managed by a NixOS module.
pub open spec fn managing_option(name: Seq<char>) -> Option<Seq<char>> {
    if name == "bluez"@ || name == "bluez-tools"@ || name == "bluez-utils"@ {
        Some("hardware.bluetooth.enable"@)
    } else if name == "cups"@ || name == "cups-filters"@ || name == "cups-pk-helper"@ {
        Some("services.printing.enable"@)
    } else if name == "avahi"@ || name == "nss-mdns"@ {
        Some("services.avahi.enable"@)
    } else if name == "docker"@ || name == "docker-buildx"@ || name == "docker-compose"@ {
        Some("virtualisation.docker.enable"@)
    } else if name == "networkmanager"@ {
        Some("networking.networkmanager.enable"@)
    } else if name == "pipewire"@ || name == "wireplumber"@ {
        Some("services.pipewire.enable"@)
    } else if name == "power-profiles-daemon"@ {
        Some("services.power-profiles-daemon.enable"@)
    } else if name == "sddm"@ {
        Some("services.displayManager.sddm.enable"@)
    } else if name == "ufw"@ || name == "ufw-docker"@ {
        Some("networking.firewall.enable"@)
    } else if name == "hyprland"@ || name == "xdg-desktop-portal-hyprland"@ {
        Some("programs.hyprland.enable"@)
    } else if name == "plymouth"@ {
        Some("boot.plymouth.enable"@)
    } else {
        None
    }
}

/// Why an Arch-only package has no NixOS equivalent.
pub open spec fn elimination_reason(name: Seq<char>) -> Option<Seq<char>> {
    if name == "yay"@ || name == "paru"@ || name == "expac"@ || name == "fakeroot"@ || name == "makepkg"@ {
        Some("AUR tooling does not exist on NixOS"@)
    } else if name == "kernel-modules-hook"@ || name == "linux-modules-cleanup"@ {
        Some("Arch kernel hook, not needed on NixOS"@)
    } else if name == "limine"@ || name == "limine-entry-tool"@ {
        Some("Limine is the Arch bootloader; NixOS uses systemd-boot"@)
    } else if name == "mkinitcpio"@ || name == "mkinitcpio-openswap"@ {
        Some("Arch initramfs tool, not needed on NixOS"@)
    } else if name == "pacman-contrib"@ {
        Some("pacman helper, not needed on NixOS"@)
    } else {
        None
    }
}

/// Looks `name` up in the rename table.
fn lookup_renamed(name: &str) -> (res: Option<&'static str>)
    ensures
        option_text(res) == renamed_attr(name@),
{
    if same_text(name, "dua-cli") {
        return Some("dua");
    }
    if same_text(name, "gvfs-mtp") || same_text(name, "gvfs-nfs") || same_text(name, "gvfs-smb") {
        return Some("gvfs");
    }
    if same_text(name, "libvips") {
        return Some("vips");
    }
    if same_text(name, "libreoffice-fresh") {
        return Some("libreoffice");
    }
    if same_text(name, "lua51") {
        return Some("lua5_1");
    }
    if same_text(name, "mariadb-libs") {
        return Some("mariadb");
    }
    if same_text(name, "mise-bin") {
        return Some("mise");
    }
    if same_text(name, "mpv-mpris") {
        return Some("mpvScripts.mpris");
    }
    if same_text(name, "noto-fonts-cjk") {
        return Some("noto-fonts-cjk-sans");
    }
    if same_text(name, "noto-fonts-emoji") {
        return Some("noto-fonts-color-emoji");
    }
    if same_text(name, "nvim") {
        return Some("neovim");
    }
    if same_text(name, "omarchy-nvim") {
        return Some("neovim");
    }
    if same_text(name, "postgresql-libs") {
        return Some("libpq");
    }
    if same_text(name, "python-gobject") {
        return Some("python3Packages.pygobject3");
    }
    if same_text(name, "python-poetry-core") {
        return Some("python3Packages.poetry-core");
    }
    if same_text(name, "qt6-imageformats") {
        return Some("qt6.qtimageformats");
    }
    if same_text(name, "tesseract-data-eng") {
        return Some("tesseract");
    }
    if same_text(name, "tree-sitter-cli") {
        return Some("tree-sitter");
    }
    if same_text(name, "ttf-ia-writer") {
        return Some("ia-writer-duospace");
    }
    if same_text(name, "ttf-jetbrains-mono-nerd-basic") {
        return Some("nerd-fonts.jetbrains-mono");
    }
    if same_text(name, "vi") {
        return Some("vim");
    }
    if same_text(name, "woff2-font-awesome") {
        return Some("font-awesome");
    }
    if same_text(name, "xdg-terminal-exec") {
        return Some("xdg-terminal-exec");
    }
    if same_text(name, "xorg-xwayland") {
        return Some("xwayland");
    }
    if same_text(name, "yaru-icon-theme") {
        return Some("yaru-theme");
    }
    if same_text(name, "yt-dlp") {
        return Some("yt-dlp");
    }
    None
}

/// Looks `name` up in the table of module-managed packages.
fn lookup_managing_option(name: &str) -> (res: Option<&'static str>)
    ensures
        option_text(res) == managing_option(name@),
{
    if same_text(name, "bluez") || same_text(name, "bluez-tools") || same_text(name, "bluez-utils") {
        return Some("hardware.bluetooth.enable");
    }
    if same_text(name, "cups") || same_text(name, "cups-filters") || same_text(name, "cups-pk-helper") {
        return Some("services.printing.enable");
    }
    if same_text(name, "avahi") || same_text(name, "nss-mdns") {
        return Some("services.avahi.enable");
    }
    if same_text(name, "docker") || same_text(name, "docker-buildx") || same_text(name, "docker-compose") {
        return Some("virtualisation.docker.enable");
    }
    if same_text(name, "networkmanager") {
        return Some("networking.networkmanager.enable");
    }
    if same_text(name, "pipewire") || same_text(name, "wireplumber") {
        return Some("services.pipewire.enable");
    }
    if same_text(name, "power-profiles-daemon") {
        return Some("services.power-profiles-daemon.enable");
    }
    if same_text(name, "sddm") {
        return Some("services.displayManager.sddm.enable");
    }
    if same_text(name, "ufw") || same_text(name, "ufw-docker") {
        return Some("networking.firewall.enable");
    }
    if same_text(name, "hyprland") || same_text(name, "xdg-desktop-portal-hyprland") {
        return Some("programs.hyprland.enable");
    }
    if same_text(name, "plymouth") {
        return Some("boot.plymouth.enable");
    }
    None
}

/// Looks `name` up in the table of Arch-only packages.
fn lookup_elimination(name: &str) -> (res: Option<&'static str>)
    ensures
        option_text(res) == elimination_reason(name@),
{
    if same_text(name, "yay") || same_text(name, "paru") || same_text(name, "expac") || same_text(name, "fakeroot") || same_text(name, "makepkg") {
        return Some("AUR tooling does not exist on NixOS");
    }
    if same_text(name, "kernel-modules-hook") || same_text(name, "linux-modules-cleanup") {
        return Some("Arch kernel hook, not needed on NixOS");
    }
    if same_text(name, "limine") || same_text(name, "limine-entry-tool") {
        return Some("Limine is the Arch bootloader; NixOS uses systemd-boot");
    }
    if same_text(name, "mkinitcpio") || same_text(name, "mkinitcpio-openswap") {
        return Some("Arch initramfs tool, not needed on NixOS");
    }
    if same_text(name, "pacman-contrib") {
        return Some("pacman helper, not needed on NixOS");
    }
    None
}
/// The outcome of resolving an Arch package name: the rename table first, then
/// the module-managed packages, then the Arch-only ones; any other name is its
/// own nixpkgs attribute.
pub open spec fn resolution(name: Seq<char>) -> Resolution {
    if let Some(attr) = renamed_attr(name) {
        Resolution::Attr(attr)
    } else if let Some(option) = managing_option(name) {
        Resolution::ServiceManaged(option)
    } else if let Some(reason) = elimination_reason(name) {
        Resolution::Eliminated(reason)
    } else {
        Resolution::Attr(name)
    }
}

/// The resolution that a result of `resolve` reports.
pub open spec fn resolved_as(res: Result<&str, ResolveError>) -> Resolution {
    match res {
        Ok(attr) => Resolution::Attr(attr@),
        Err(ResolveError::ServiceManaged(option)) => Resolution::ServiceManaged(option@),
        Err(ResolveError::Eliminated(reason)) => Resolution::Eliminated(reason@),
    }
}

/// Resolve an Arch Linux package name to the corresponding nixpkgs attribute.
///
/// A name outside the alias tables is returned unchanged. Packages controlled by
/// NixOS module options give `ServiceManaged`, Arch-only packages `Eliminated`.
pub fn resolve(name: &str) -> (res: Result<&str, ResolveError>)
    ensures
        resolved_as(res) == resolution(name@),
{
    if let Some(attr) = lookup_renamed(name) {
        return Ok(attr);
    }
    if let Some(option) = lookup_managing_option(name) {
        return Err(ResolveError::ServiceManaged(option));
    }
    if let Some(reason) = lookup_elimination(name) {
        return Err(ResolveError::Eliminated(reason));
    }
    Ok(name)
}

/// The text that explains a refusal to the user.
pub open spec fn refusal_text(err: ResolveError) -> Seq<char> {
    match err {
        ResolveError::ServiceManaged(option) => "this package is managed by the NixOS option `"@
            + option@ + "`;\nuse the Omarchy settings panel or omarchy-setup to toggle it"@,
        ResolveError::Eliminated(reason) => "not available on NixOS: "@ + reason@,
    }
}

impl ResolveError {
    /// The user-facing explanation of this refusal.
    pub fn message(&self) -> (res: String)
        ensures
            res@ == refusal_text(*self),
    {
        match self {
            ResolveError::ServiceManaged(option) => {
                let mut text = String::from_str("this package is managed by the NixOS option `");
                text.append(option);
                text.append("`;\nuse the Omarchy settings panel or omarchy-setup to toggle it");
                text
            },
            ResolveError::Eliminated(reason) => {
                let mut text = String::from_str("not available on NixOS: ");
                text.append(reason);
                text
            },
        }
    }
}

/// The lengths, and the characters that tell them apart, of the names in the
/// alias tables.
proof fn lemma_table_names_spelled_out()
    ensures
        "dua"@.len() == 3 && "dua"@[0] == 'd',
        "gvfs"@.len() == 4 && "gvfs"@[0] == 'g',
        "vips"@.len() == 4 && "vips"@[0] == 'v',
        "libreoffice"@.len() == 11 && "libreoffice"@[0] == 'l',
        "lua5_1"@.len() == 6 && "lua5_1"@[0] == 'l' && "lua5_1"@[1] == 'u',
        "mariadb"@.len() == 7 && "mariadb"@[0] == 'm' && "mariadb"@[2] == 'r',
        "mise"@.len() == 4 && "mise"@[0] == 'm',
        "mpvScripts.mpris"@.len() == 16 && "mpvScripts.mpris"@[0] == 'm',
        "noto-fonts-cjk-sans"@.len() == 19 && "noto-fonts-cjk-sans"@[0] == 'n',
        "noto-fonts-color-emoji"@.len() == 22,
        "neovim"@.len() == 6 && "neovim"@[0] == 'n',
        "libpq"@.len() == 5 && "libpq"@[0] == 'l' && "libpq"@[1] == 'i',
        "python3Packages.pygobject3"@.len() == 26,
        "python3Packages.poetry-core"@.len() == 27 && "python3Packages.poetry-core"@[0] == 'p',
        "qt6.qtimageformats"@.len() == 18 && "qt6.qtimageformats"@[0] == 'q',
        "tesseract"@.len() == 9 && "tesseract"@[0] == 't',
        "tree-sitter"@.len() == 11 && "tree-sitter"@[0] == 't',
        "ia-writer-duospace"@.len() == 18 && "ia-writer-duospace"@[0] == 'i',
        "nerd-fonts.jetbrains-mono"@.len() == 25,
        "vim"@.len() == 3 && "vim"@[0] == 'v',
        "font-awesome"@.len() == 12 && "font-awesome"@[0] == 'f',
        "xdg-terminal-exec"@.len() == 17 && "xdg-terminal-exec"@[0] == 'x',
        "xwayland"@.len() == 8 && "xwayland"@[0] == 'x',
        "yaru-theme"@.len() == 10 && "yaru-theme"@[0] == 'y',
        "yt-dlp"@.len() == 6 && "yt-dlp"@[0] == 'y',
        "dua-cli"@.len() == 7 && "dua-cli"@[0] == 'd',
        "gvfs-mtp"@.len() == 8 && "gvfs-mtp"@[0] == 'g' && "gvfs-mtp"@[5] == 'm',
        "gvfs-nfs"@.len() == 8 && "gvfs-nfs"@[0] == 'g' && "gvfs-nfs"@[5] == 'n',
        "gvfs-smb"@.len() == 8 && "gvfs-smb"@[0] == 'g' && "gvfs-smb"@[5] == 's',
        "libvips"@.len() == 7 && "libvips"@[0] == 'l',
        "libreoffice-fresh"@.len() == 17 && "libreoffice-fresh"@[0] == 'l' && "libreoffice-fresh"@[2] == 'b',
        "lua51"@.len() == 5 && "lua51"@[0] == 'l' && "lua51"@[1] == 'u',
        "mariadb-libs"@.len() == 12 && "mariadb-libs"@[0] == 'm',
        "mise-bin"@.len() == 8 && "mise-bin"@[0] == 'm',
        "mpv-mpris"@.len() == 9 && "mpv-mpris"@[0] == 'm',
        "noto-fonts-cjk"@.len() == 14 && "noto-fonts-cjk"@[0] == 'n' && "noto-fonts-cjk"@[1] == 'o',
        "noto-fonts-emoji"@.len() == 16 && "noto-fonts-emoji"@[0] == 'n',
        "nvim"@.len() == 4 && "nvim"@[0] == 'n',
        "omarchy-nvim"@.len() == 12 && "omarchy-nvim"@[0] == 'o',
        "postgresql-libs"@.len() == 15 && "postgresql-libs"@[0] == 'p',
        "python-gobject"@.len() == 14 && "python-gobject"@[0] == 'p' && "python-gobject"@[1] == 'y',
        "python-poetry-core"@.len() == 18 && "python-poetry-core"@[0] == 'p',
        "qt6-imageformats"@.len() == 16 && "qt6-imageformats"@[0] == 'q',
        "tesseract-data-eng"@.len() == 18 && "tesseract-data-eng"@[0] == 't',
        "tree-sitter-cli"@.len() == 15 && "tree-sitter-cli"@[0] == 't',
        "ttf-ia-writer"@.len() == 13 && "ttf-ia-writer"@[0] == 't',
        "ttf-jetbrains-mono-nerd-basic"@.len() == 29,
        "vi"@.len() == 2,
        "woff2-font-awesome"@.len() == 18 && "woff2-font-awesome"@[0] == 'w',
        "xorg-xwayland"@.len() == 13 && "xorg-xwayland"@[0] == 'x',
        "yaru-icon-theme"@.len() == 15 && "yaru-icon-theme"@[0] == 'y',
        "bluez"@.len() == 5 && "bluez"@[0] == 'b',
        "bluez-tools"@.len() == 11 && "bluez-tools"@[0] == 'b' && "bluez-tools"@[6] == 't',
        "bluez-utils"@.len() == 11 && "bluez-utils"@[0] == 'b' && "bluez-utils"@[6] == 'u',
        "cups"@.len() == 4 && "cups"@[0] == 'c',
        "cups-filters"@.len() == 12 && "cups-filters"@[0] == 'c',
        "cups-pk-helper"@.len() == 14 && "cups-pk-helper"@[0] == 'c',
        "avahi"@.len() == 5 && "avahi"@[0] == 'a',
        "nss-mdns"@.len() == 8 && "nss-mdns"@[0] == 'n',
        "docker"@.len() == 6 && "docker"@[0] == 'd',
        "docker-buildx"@.len() == 13 && "docker-buildx"@[0] == 'd',
        "docker-compose"@.len() == 14 && "docker-compose"@[0] == 'd',
        "networkmanager"@.len() == 14 && "networkmanager"@[0] == 'n' && "networkmanager"@[1] == 'e',
        "pipewire"@.len() == 8 && "pipewire"@[0] == 'p' && "pipewire"@[1] == 'i',
        "wireplumber"@.len() == 11 && "wireplumber"@[0] == 'w',
        "power-profiles-daemon"@.len() == 21 && "power-profiles-daemon"@[0] == 'p',
        "sddm"@.len() == 4 && "sddm"@[0] == 's',
        "ufw"@.len() == 3 && "ufw"@[0] == 'u',
        "ufw-docker"@.len() == 10 && "ufw-docker"@[0] == 'u',
        "hyprland"@.len() == 8 && "hyprland"@[0] == 'h',
        "xdg-desktop-portal-hyprland"@.len() == 27 && "xdg-desktop-portal-hyprland"@[0] == 'x',
        "plymouth"@.len() == 8 && "plymouth"@[0] == 'p' && "plymouth"@[1] == 'l',
        "yay"@.len() == 3 && "yay"@[0] == 'y',
        "paru"@.len() == 4 && "paru"@[0] == 'p',
        "expac"@.len() == 5 && "expac"@[0] == 'e',
        "fakeroot"@.len() == 8 && "fakeroot"@[0] == 'f',
        "makepkg"@.len() == 7 && "makepkg"@[0] == 'm' && "makepkg"@[2] == 'k',
        "kernel-modules-hook"@.len() == 19 && "kernel-modules-hook"@[0] == 'k',
        "linux-modules-cleanup"@.len() == 21 && "linux-modules-cleanup"@[0] == 'l',
        "limine"@.len() == 6 && "limine"@[0] == 'l' && "limine"@[1] == 'i',
        "limine-entry-tool"@.len() == 17 && "limine-entry-tool"@[0] == 'l' && "limine-entry-tool"@[2] == 'm',
        "mkinitcpio"@.len() == 10 && "mkinitcpio"@[0] == 'm',
        "mkinitcpio-openswap"@.len() == 19 && "mkinitcpio-openswap"@[0] == 'm',
        "pacman-contrib"@.len() == 14 && "pacman-contrib"@[0] == 'p' && "pacman-contrib"@[1] == 'a',
{
    reveal_strlit("dua");
    reveal_strlit("gvfs");
    reveal_strlit("vips");
    reveal_strlit("libreoffice");
    reveal_strlit("lua5_1");
    reveal_strlit("mariadb");
    reveal_strlit("mise");
    reveal_strlit("mpvScripts.mpris");
    reveal_strlit("noto-fonts-cjk-sans");
    reveal_strlit("noto-fonts-color-emoji");
    reveal_strlit("neovim");
    reveal_strlit("libpq");
    reveal_strlit("python3Packages.pygobject3");
    reveal_strlit("python3Packages.poetry-core");
    reveal_strlit("qt6.qtimageformats");
    reveal_strlit("tesseract");
    reveal_strlit("tree-sitter");
    reveal_strlit("ia-writer-duospace");
    reveal_strlit("nerd-fonts.jetbrains-mono");
    reveal_strlit("vim");
    reveal_strlit("font-awesome");
    reveal_strlit("xdg-terminal-exec");
    reveal_strlit("xwayland");
    reveal_strlit("yaru-theme");
    reveal_strlit("yt-dlp");
    reveal_strlit("dua-cli");
    reveal_strlit("gvfs-mtp");
    reveal_strlit("gvfs-nfs");
    reveal_strlit("gvfs-smb");
    reveal_strlit("libvips");
    reveal_strlit("libreoffice-fresh");
    reveal_strlit("lua51");
    reveal_strlit("mariadb-libs");
    reveal_strlit("mise-bin");
    reveal_strlit("mpv-mpris");
    reveal_strlit("noto-fonts-cjk");
    reveal_strlit("noto-fonts-emoji");
    reveal_strlit("nvim");
    reveal_strlit("omarchy-nvim");
    reveal_strlit("postgresql-libs");
    reveal_strlit("python-gobject");
    reveal_strlit("python-poetry-core");
    reveal_strlit("qt6-imageformats");
    reveal_strlit("tesseract-data-eng");
    reveal_strlit("tree-sitter-cli");
    reveal_strlit("ttf-ia-writer");
    reveal_strlit("ttf-jetbrains-mono-nerd-basic");
    reveal_strlit("vi");
    reveal_strlit("woff2-font-awesome");
    reveal_strlit("xorg-xwayland");
    reveal_strlit("yaru-icon-theme");
    reveal_strlit("bluez");
    reveal_strlit("bluez-tools");
    reveal_strlit("bluez-utils");
    reveal_strlit("cups");
    reveal_strlit("cups-filters");
    reveal_strlit("cups-pk-helper");
    reveal_strlit("avahi");
    reveal_strlit("nss-mdns");
    reveal_strlit("docker");
    reveal_strlit("docker-buildx");
    reveal_strlit("docker-compose");
    reveal_strlit("networkmanager");
    reveal_strlit("pipewire");
    reveal_strlit("wireplumber");
    reveal_strlit("power-profiles-daemon");
    reveal_strlit("sddm");
    reveal_strlit("ufw");
    reveal_strlit("ufw-docker");
    reveal_strlit("hyprland");
    reveal_strlit("xdg-desktop-portal-hyprland");
    reveal_strlit("plymouth");
    reveal_strlit("yay");
    reveal_strlit("paru");
    reveal_strlit("expac");
    reveal_strlit("fakeroot");
    reveal_strlit("makepkg");
    reveal_strlit("kernel-modules-hook");
    reveal_strlit("linux-modules-cleanup");
    reveal_strlit("limine");
    reveal_strlit("limine-entry-tool");
    reveal_strlit("mkinitcpio");
    reveal_strlit("mkinitcpio-openswap");
    reveal_strlit("pacman-contrib");
}

/// Each attribute of the rename table resolves to itself.
proof fn lemma_rename_targets_are_fixed()
    ensures
        resolution("dua"@) == Resolution::Attr("dua"@),
        resolution("gvfs"@) == Resolution::Attr("gvfs"@),
        resolution("vips"@) == Resolution::Attr("vips"@),
        resolution("libreoffice"@) == Resolution::Attr("libreoffice"@),
        resolution("lua5_1"@) == Resolution::Attr("lua5_1"@),
        resolution("mariadb"@) == Resolution::Attr("mariadb"@),
        resolution("mise"@) == Resolution::Attr("mise"@),
        resolution("mpvScripts.mpris"@) == Resolution::Attr("mpvScripts.mpris"@),
        resolution("noto-fonts-cjk-sans"@) == Resolution::Attr("noto-fonts-cjk-sans"@),
        resolution("noto-fonts-color-emoji"@) == Resolution::Attr("noto-fonts-color-emoji"@),
        resolution("neovim"@) == Resolution::Attr("neovim"@),
        resolution("libpq"@) == Resolution::Attr("libpq"@),
        resolution("python3Packages.pygobject3"@) == Resolution::Attr("python3Packages.pygobject3"@),
        resolution("python3Packages.poetry-core"@) == Resolution::Attr("python3Packages.poetry-core"@),
        resolution("qt6.qtimageformats"@) == Resolution::Attr("qt6.qtimageformats"@),
        resolution("tesseract"@) == Resolution::Attr("tesseract"@),
        resolution("tree-sitter"@) == Resolution::Attr("tree-sitter"@),
        resolution("ia-writer-duospace"@) == Resolution::Attr("ia-writer-duospace"@),
        resolution("nerd-fonts.jetbrains-mono"@) == Resolution::Attr("nerd-fonts.jetbrains-mono"@),
        resolution("vim"@) == Resolution::Attr("vim"@),
        resolution("font-awesome"@) == Resolution::Attr("font-awesome"@),
        resolution("xdg-terminal-exec"@) == Resolution::Attr("xdg-terminal-exec"@),
        resolution("xwayland"@) == Resolution::Attr("xwayland"@),
        resolution("yaru-theme"@) == Resolution::Attr("yaru-theme"@),
        resolution("yt-dlp"@) == Resolution::Attr("yt-dlp"@),
{
    lemma_table_names_spelled_out();
}

/// A resolved attribute resolves to itself: resolving the attribute that a name
/// resolves to gives that attribute back, so resolving twice changes nothing.
pub proof fn lemma_resolution_is_idempotent(name: Seq<char>)
    requires
        resolution(name) is Attr,
    ensures
        resolution(resolution(name)->Attr_0) == resolution(name),
{
    lemma_rename_targets_are_fixed();
}

/// The names of the rename table stand in no other table, and the module-managed
/// names are not among the Arch-only ones.
proof fn lemma_rename_keys_are_not_elsewhere()
    ensures
        managing_option("dua-cli"@) is None && elimination_reason("dua-cli"@) is None,
        managing_option("gvfs-mtp"@) is None && elimination_reason("gvfs-mtp"@) is None,
        managing_option("gvfs-nfs"@) is None && elimination_reason("gvfs-nfs"@) is None,
        managing_option("gvfs-smb"@) is None && elimination_reason("gvfs-smb"@) is None,
        managing_option("libvips"@) is None && elimination_reason("libvips"@) is None,
        managing_option("libreoffice-fresh"@) is None && elimination_reason("libreoffice-fresh"@) is None,
        managing_option("lua51"@) is None && elimination_reason("lua51"@) is None,
        managing_option("mariadb-libs"@) is None && elimination_reason("mariadb-libs"@) is None,
        managing_option("mise-bin"@) is None && elimination_reason("mise-bin"@) is None,
        managing_option("mpv-mpris"@) is None && elimination_reason("mpv-mpris"@) is None,
        managing_option("noto-fonts-cjk"@) is None && elimination_reason("noto-fonts-cjk"@) is None,
        managing_option("noto-fonts-emoji"@) is None && elimination_reason("noto-fonts-emoji"@) is None,
        managing_option("nvim"@) is None && elimination_reason("nvim"@) is None,
        managing_option("omarchy-nvim"@) is None && elimination_reason("omarchy-nvim"@) is None,
        managing_option("postgresql-libs"@) is None && elimination_reason("postgresql-libs"@) is None,
        managing_option("python-gobject"@) is None && elimination_reason("python-gobject"@) is None,
        managing_option("python-poetry-core"@) is None && elimination_reason("python-poetry-core"@) is None,
        managing_option("qt6-imageformats"@) is None && elimination_reason("qt6-imageformats"@) is None,
        managing_option("tesseract-data-eng"@) is None && elimination_reason("tesseract-data-eng"@) is None,
        managing_option("tree-sitter-cli"@) is None && elimination_reason("tree-sitter-cli"@) is None,
        managing_option("ttf-ia-writer"@) is None && elimination_reason("ttf-ia-writer"@) is None,
        managing_option("ttf-jetbrains-mono-nerd-basic"@) is None && elimination_reason("ttf-jetbrains-mono-nerd-basic"@) is None,
        managing_option("vi"@) is None && elimination_reason("vi"@) is None,
        managing_option("woff2-font-awesome"@) is None && elimination_reason("woff2-font-awesome"@) is None,
        managing_option("xdg-terminal-exec"@) is None && elimination_reason("xdg-terminal-exec"@) is None,
        managing_option("xorg-xwayland"@) is None && elimination_reason("xorg-xwayland"@) is None,
        managing_option("yaru-icon-theme"@) is None && elimination_reason("yaru-icon-theme"@) is None,
        managing_option("yt-dlp"@) is None && elimination_reason("yt-dlp"@) is None,
        elimination_reason("bluez"@) is None,
        elimination_reason("bluez-tools"@) is None,
        elimination_reason("bluez-utils"@) is None,
        elimination_reason("cups"@) is None,
        elimination_reason("cups-filters"@) is None,
        elimination_reason("cups-pk-helper"@) is None,
        elimination_reason("avahi"@) is None,
        elimination_reason("nss-mdns"@) is None,
        elimination_reason("docker"@) is None,
        elimination_reason("docker-buildx"@) is None,
        elimination_reason("docker-compose"@) is None,
        elimination_reason("networkmanager"@) is None,
        elimination_reason("pipewire"@) is None,
        elimination_reason("wireplumber"@) is None,
        elimination_reason("power-profiles-daemon"@) is None,
        elimination_reason("sddm"@) is None,
        elimination_reason("ufw"@) is None,
        elimination_reason("ufw-docker"@) is None,
        elimination_reason("hyprland"@) is None,
        elimination_reason("xdg-desktop-portal-hyprland"@) is None,
        elimination_reason("plymouth"@) is None,
{
    lemma_table_names_spelled_out();
}

/// No name stands in more than one of the alias tables, so the order in which
/// `resolve` consults them decides nothing.
pub proof fn lemma_alias_tables_are_disjoint()
    ensures
        forall|name: Seq<char>| #[trigger] renamed_attr(name) is Some
            ==> managing_option(name) is None && elimination_reason(name) is None,
        forall|name: Seq<char>| #[trigger] managing_option(name) is Some
            ==> elimination_reason(name) is None,
{
    lemma_rename_keys_are_not_elsewhere();
}

/// Every Arch name of the rename table resolves to the nixpkgs attribute that
/// the table lists for it.
pub proof fn lemma_renamed_names_resolve_to_their_attributes()
    ensures
        resolution("dua-cli"@) == Resolution::Attr("dua"@),
        resolution("gvfs-mtp"@) == Resolution::Attr("gvfs"@),
        resolution("gvfs-nfs"@) == Resolution::Attr("gvfs"@),
        resolution("gvfs-smb"@) == Resolution::Attr("gvfs"@),
        resolution("libvips"@) == Resolution::Attr("vips"@),
        resolution("libreoffice-fresh"@) == Resolution::Attr("libreoffice"@),
        resolution("lua51"@) == Resolution::Attr("lua5_1"@),
        resolution("mariadb-libs"@) == Resolution::Attr("mariadb"@),
        resolution("mise-bin"@) == Resolution::Attr("mise"@),
        resolution("mpv-mpris"@) == Resolution::Attr("mpvScripts.mpris"@),
        resolution("noto-fonts-cjk"@) == Resolution::Attr("noto-fonts-cjk-sans"@),
        resolution("noto-fonts-emoji"@) == Resolution::Attr("noto-fonts-color-emoji"@),
        resolution("nvim"@) == Resolution::Attr("neovim"@),
        resolution("omarchy-nvim"@) == Resolution::Attr("neovim"@),
        resolution("postgresql-libs"@) == Resolution::Attr("libpq"@),
        resolution("python-gobject"@) == Resolution::Attr("python3Packages.pygobject3"@),
        resolution("python-poetry-core"@) == Resolution::Attr("python3Packages.poetry-core"@),
        resolution("qt6-imageformats"@) == Resolution::Attr("qt6.qtimageformats"@),
        resolution("tesseract-data-eng"@) == Resolution::Attr("tesseract"@),
        resolution("tree-sitter-cli"@) == Resolution::Attr("tree-sitter"@),
        resolution("ttf-ia-writer"@) == Resolution::Attr("ia-writer-duospace"@),
        resolution("ttf-jetbrains-mono-nerd-basic"@) == Resolution::Attr("nerd-fonts.jetbrains-mono"@),
        resolution("vi"@) == Resolution::Attr("vim"@),
        resolution("woff2-font-awesome"@) == Resolution::Attr("font-awesome"@),
        resolution("xdg-terminal-exec"@) == Resolution::Attr("xdg-terminal-exec"@),
        resolution("xorg-xwayland"@) == Resolution::Attr("xwayland"@),
        resolution("yaru-icon-theme"@) == Resolution::Attr("yaru-theme"@),
        resolution("yt-dlp"@) == Resolution::Attr("yt-dlp"@),
{
    lemma_table_names_spelled_out();
}

/// Every package that a NixOS module option controls resolves to that option.
pub proof fn lemma_module_managed_names_resolve_to_their_options()
    ensures
        resolution("bluez"@) == Resolution::ServiceManaged("hardware.bluetooth.enable"@),
        resolution("bluez-tools"@) == Resolution::ServiceManaged("hardware.bluetooth.enable"@),
        resolution("bluez-utils"@) == Resolution::ServiceManaged("hardware.bluetooth.enable"@),
        resolution("cups"@) == Resolution::ServiceManaged("services.printing.enable"@),
        resolution("cups-filters"@) == Resolution::ServiceManaged("services.printing.enable"@),
        resolution("cups-pk-helper"@) == Resolution::ServiceManaged("services.printing.enable"@),
        resolution("avahi"@) == Resolution::ServiceManaged("services.avahi.enable"@),
        resolution("nss-mdns"@) == Resolution::ServiceManaged("services.avahi.enable"@),
        resolution("docker"@) == Resolution::ServiceManaged("virtualisation.docker.enable"@),
        resolution("docker-buildx"@) == Resolution::ServiceManaged("virtualisation.docker.enable"@),
        resolution("docker-compose"@) == Resolution::ServiceManaged("virtualisation.docker.enable"@),
        resolution("networkmanager"@) == Resolution::ServiceManaged("networking.networkmanager.enable"@),
        resolution("pipewire"@) == Resolution::ServiceManaged("services.pipewire.enable"@),
        resolution("wireplumber"@) == Resolution::ServiceManaged("services.pipewire.enable"@),
        resolution("power-profiles-daemon"@) == Resolution::ServiceManaged("services.power-profiles-daemon.enable"@),
        resolution("sddm"@) == Resolution::ServiceManaged("services.displayManager.sddm.enable"@),
        resolution("ufw"@) == Resolution::ServiceManaged("networking.firewall.enable"@),
        resolution("ufw-docker"@) == Resolution::ServiceManaged("networking.firewall.enable"@),
        resolution("hyprland"@) == Resolution::ServiceManaged("programs.hyprland.enable"@),
        resolution("xdg-desktop-portal-hyprland"@) == Resolution::ServiceManaged("programs.hyprland.enable"@),
        resolution("plymouth"@) == Resolution::ServiceManaged("boot.plymouth.enable"@),
{
    lemma_table_names_spelled_out();
    lemma_rename_keys_are_not_elsewhere();
}

/// Every Arch-only package resolves to the reason it does not exist on NixOS.
pub proof fn lemma_arch_only_names_resolve_to_their_reasons()
    ensures
        resolution("yay"@) == Resolution::Eliminated("AUR tooling does not exist on NixOS"@),
        resolution("paru"@) == Resolution::Eliminated("AUR tooling does not exist on NixOS"@),
        resolution("expac"@) == Resolution::Eliminated("AUR tooling does not exist on NixOS"@),
        resolution("fakeroot"@) == Resolution::Eliminated("AUR tooling does not exist on NixOS"@),
        resolution("makepkg"@) == Resolution::Eliminated("AUR tooling does not exist on NixOS"@),
        resolution("kernel-modules-hook"@) == Resolution::Eliminated("Arch kernel hook, not needed on NixOS"@),
        resolution("linux-modules-cleanup"@) == Resolution::Eliminated("Arch kernel hook, not needed on NixOS"@),
        resolution("limine"@) == Resolution::Eliminated("Limine is the Arch bootloader; NixOS uses systemd-boot"@),
        resolution("limine-entry-tool"@) == Resolution::Eliminated("Limine is the Arch bootloader; NixOS uses systemd-boot"@),
        resolution("mkinitcpio"@) == Resolution::Eliminated("Arch initramfs tool, not needed on NixOS"@),
        resolution("mkinitcpio-openswap"@) == Resolution::Eliminated("Arch initramfs tool, not needed on NixOS"@),
        resolution("pacman-contrib"@) == Resolution::Eliminated("pacman helper, not needed on NixOS"@),
{
    lemma_table_names_spelled_out();
    lemma_rename_keys_are_not_elsewhere();
}

} // verus!
