//! The packages that every installation gets.

use crate::command::strings;
use crate::text::{texts};
use vstd::prelude::*;

verus! {

/// The names of the packages of the desktop.
pub open spec fn required_list() -> Seq<Seq<char>> {
    seq![
        "mesa"@,
        "dunst"@,
        "grim"@,
        "slurp"@,
        "gnome-themes-extra"@,
        "qt5-multimedia"@,
        "qt6-multimedia"@,
        "pipewire"@,
        "pipewire-alsa"@,
        "pipewire-audio"@,
        "pipewire-jack"@,
        "pipewire-pulse"@,
        "zsh"@,
        "networkmanager"@,
        "network-manager-applet"@,
        "bluez"@,
        "bluez-utils"@,
        "vim"@,
        "neovim"@,
        "htop"@,
        "kitty"@,
        "alacritty"@,
        "fastfetch"@,
        "exa"@,
        "foot"@,
        "yay"@,
        "nautilus"@,
        "gvfs"@,
        "gvfs-mtp"@,
        "noto-fonts"@,
        "noto-fonts-emoji"@,
        "ttf-cascadia-code-nerd"@,
        "ttf-cascadia-mono-nerd"@,
        "ttf-nerd-fonts-symbols"@,
        "sddm"@,
        "nebula-keybind-menu"@,
        "nebula-oh-my-zsh"@,
        "xdg-desktop-portal"@,
        "xdg-desktop-portal-hyprland"@,
        "xdg-desktop-portal-gtk"@,
        "xdg-utils"@,
        "xdg-user-dirs"@,
        "polkit-gnome"@,
        "wl-clipboard"@,
        "waybar"@,
        "wayland"@,
        "wayland-protocols"@,
        "qt5-wayland"@,
        "qt6-wayland"@,
        "rofi"@,
        "jq"@,
    ]
}

/// The names of the packages of the Hyprland compositor.
pub open spec fn hyprland_list() -> Seq<Seq<char>> {
    seq![
        "hyprland"@,
        "hyprlock"@,
        "hyprpicker"@,
        "hyprpaper"@,
        "hypridle"@,
        "hyprland-guiutils"@,
        "hyprsunset"@,
        "hyprutils"@,
        "hyprtoolkit"@,
        "nebula-hypr"@,
    ]
}

/// The packages of the desktop.
pub fn required_packages() -> (out: Vec<String>)
    ensures
        texts(out@) == required_list(),
{
    let names = [
        "mesa",
        "dunst",
        "grim",
        "slurp",
        "gnome-themes-extra",
        "qt5-multimedia",
        "qt6-multimedia",
        "pipewire",
        "pipewire-alsa",
        "pipewire-audio",
        "pipewire-jack",
        "pipewire-pulse",
        "zsh",
        "networkmanager",
        "network-manager-applet",
        "bluez",
        "bluez-utils",
        "vim",
        "neovim",
        "htop",
        "kitty",
        "alacritty",
        "fastfetch",
        "exa",
        "foot",
        "yay",
        "nautilus",
        "gvfs",
        "gvfs-mtp",
        "noto-fonts",
        "noto-fonts-emoji",
        "ttf-cascadia-code-nerd",
        "ttf-cascadia-mono-nerd",
        "ttf-nerd-fonts-symbols",
        "sddm",
        "nebula-keybind-menu",
        "nebula-oh-my-zsh",
        "xdg-desktop-portal",
        "xdg-desktop-portal-hyprland",
        "xdg-desktop-portal-gtk",
        "xdg-utils",
        "xdg-user-dirs",
        "polkit-gnome",
        "wl-clipboard",
        "waybar",
        "wayland",
        "wayland-protocols",
        "qt5-wayland",
        "qt6-wayland",
        "rofi",
        "jq",
    ];
    let out = strings(&names);
    out
}

/// The packages of the Hyprland compositor.
pub fn hyprland_packages() -> (out: Vec<String>)
    ensures
        texts(out@) == hyprland_list(),
{
    let names = [
        "hyprland",
        "hyprlock",
        "hyprpicker",
        "hyprpaper",
        "hypridle",
        "hyprland-guiutils",
        "hyprsunset",
        "hyprutils",
        "hyprtoolkit",
        "nebula-hypr",
    ];
    let out = strings(&names);
    out
}

} // verus!
