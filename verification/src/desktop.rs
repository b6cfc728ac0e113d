//! The files that integrate the application with a Linux desktop: where
//! they go and what the `.desktop` entry says.
use crate::text::{chars_of, concat, string_of};
use vstd::prelude::*;

verus! {

/// The application id: the `.desktop` file's name, the icon's name and the
/// window class.
pub const APP_ID: &'static str = "onlyprox";

fn join(a: &str, b: &str) -> (r: String)
    ensures
        r@ == a@ + b@,
{
    string_of(&concat(&chars_of(a), &chars_of(b)))
}

/// Where the `.desktop` entry goes under the home directory `home`.
pub fn desktop_file_path(home: &str) -> (r: String)
    ensures
        r@ == home@ + "/.local/share/applications/onlyprox.desktop"@,
{
    join(home, "/.local/share/applications/onlyprox.desktop")
}

/// The directory of application entries, for `update-desktop-database`.
pub fn applications_dir(home: &str) -> (r: String)
    ensures
        r@ == home@ + "/.local/share/applications"@,
{
    join(home, "/.local/share/applications")
}

/// The directory that the 256x256 icon goes in.
pub fn icon_dir(home: &str) -> (r: String)
    ensures
        r@ == home@ + "/.local/share/icons/hicolor/256x256/apps"@,
{
    join(home, "/.local/share/icons/hicolor/256x256/apps")
}

/// Where the icon goes.
pub fn icon_path(home: &str) -> (r: String)
    ensures
        r@ == home@ + "/.local/share/icons/hicolor/256x256/apps"@ + "/onlyprox.png"@,
{
    let dir = icon_dir(home);
    join(dir.as_str(), "/onlyprox.png")
}

/// The icon theme directory, for `gtk-update-icon-cache`.
pub fn hicolor_dir(home: &str) -> (r: String)
    ensures
        r@ == home@ + "/.local/share/icons/hicolor"@,
{
    join(home, "/.local/share/icons/hicolor")
}

/// The `.desktop` entry that starts the executable at `exe_path`.
pub fn desktop_entry(exe_path: &str) -> (r: String)
    ensures
        r@ == "[Desktop Entry]\nType=Application\nName=OnlyProx\nComment=VPN клиент с автопоиском рабочих конфигов\nExec="@
            + exe_path@
            + "\nIcon=onlyprox\nTerminal=false\nCategories=Network;Security;\nStartupWMClass=onlyprox\n"@,
{
    let head = join(
        "[Desktop Entry]\nType=Application\nName=OnlyProx\nComment=VPN клиент с автопоиском рабочих конфигов\nExec=",
        exe_path,
    );
    join(
        head.as_str(),
        "\nIcon=onlyprox\nTerminal=false\nCategories=Network;Security;\nStartupWMClass=onlyprox\n",
    )
}

} // verus!
