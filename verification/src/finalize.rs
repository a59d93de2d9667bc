//! Finishing the installation: branding, the helper programs in the user's
//! home directory, the input method's settings, and unmounting.

use vstd::prelude::*;
use vstd::string::StringExecFns;

use crate::command::{
    appended, attempt, command, inside, lemma_never_fatal_joined, never_fatal, quietly, texts,
    written, Invocation, InvocationView, Script, Step, StepView,
};
use crate::config::{script_packages, Config, ConfigView};
use crate::disk::{unmount_partitions, unmount_steps};
use crate::text::{glue, glue3, same_text};

verus! {

/// How the program that installs the chosen programs begins.
pub const PACKAGE_SCRIPT_HEAD: &'static str = r#"#!/bin/bash
# Blunux Package Installation Script (auto-generated by installer)
# Run this after first boot to install selected packages
# Each package is installed via its own script from the Blunux repository

BASE_URL="https://jaewoojoung.github.io/linux"

# Install yay if not present (needed by most package scripts)
if ! command -v yay &> /dev/null; then
    echo "=========================================="
    echo "  Installing yay AUR helper"
    echo "=========================================="
    sudo pacman -S --needed --noconfirm base-devel git
    BUILDDIR=$(mktemp -d)
    git clone https://aur.archlinux.org/yay-bin.git "$BUILDDIR/yay-bin"
    cd "$BUILDDIR/yay-bin"
    makepkg -si --noconfirm
    cd /
    rm -rf "$BUILDDIR"
    echo ""
fi

FAILED_PACKAGES=()

install_package() {
    local pkg="$1"
    local script="/tmp/blunux-install-$pkg.sh"
    echo "=========================================="
    echo "  Installing: $pkg"
    echo "=========================================="
    if curl -fsSL "$BASE_URL/$pkg.sh" -o "$script"; then
        chmod +x "$script"
        if bash "$script"; then
            echo "$pkg installed successfully"
        else
            echo "WARNING: $pkg installation failed"
            FAILED_PACKAGES+=("$pkg")
        fi
        rm -f "$script"
    else
        echo "WARNING: Failed to download $pkg.sh"
        FAILED_PACKAGES+=("$pkg")
    fi
    echo ""
}

# Selected packages:
"#;

/// How the program that installs the chosen programs ends.
pub const PACKAGE_SCRIPT_TAIL: &'static str = r#"
echo "=========================================="
echo "  Package installation complete!"
echo "=========================================="
echo ""
if [ ${#FAILED_PACKAGES[@]} -gt 0 ]; then
    echo "The following packages failed to install:"
    for pkg in "${FAILED_PACKAGES[@]}"; do
        echo "  - $pkg"
    done
    echo ""
    echo "You can retry failed packages by running:"
    echo "  bash ~/install-packages.sh"
else
    echo "All packages installed successfully!"
fi
echo ""
echo "Please log out and log back in for changes to take effect."
"#;

/// The program that installs the input method `kime`, should the
/// installation not have done so.
pub const KIME_INSTALL_SCRIPT: &'static str = r#"#!/bin/bash
# KIME Installation Script (auto-generated by Blunux installer)
# Run this if kime was not installed during system installation

set -e

echo "Installing kime-git..."

# Check if yay is installed
if ! command -v yay &> /dev/null; then
    echo "Installing yay first..."
    BUILDDIR=$(mktemp -d)
    git clone https://aur.archlinux.org/yay-bin.git "$BUILDDIR/yay-bin"
    cd "$BUILDDIR/yay-bin"
    makepkg -si --noconfirm
    cd /
    rm -rf "$BUILDDIR"
fi

# Install kime-git
yay -S --noconfirm --needed kime-git

echo "kime-git installed successfully!"
echo "Please log out and log back in for changes to take effect."
"#;

/// The program that installs the kernel with the BORE scheduler after the
/// first boot.
pub const BORE_SETUP_SCRIPT: &'static str = r#"#!/bin/bash
# Linux-BORE Kernel Setup Script (auto-generated by Blunux installer)
# Run this after first boot to complete linux-bore installation

set -e

echo "=========================================="
echo "  Linux-BORE Kernel Setup"
echo "=========================================="

# Check if yay is installed
if ! command -v yay &> /dev/null; then
    echo "Installing yay first..."
    BUILDDIR=$(mktemp -d)
    git clone https://aur.archlinux.org/yay-bin.git "$BUILDDIR/yay-bin"
    cd "$BUILDDIR/yay-bin"
    makepkg -si --noconfirm
    cd /
    rm -rf "$BUILDDIR"
fi

# Install linux-cachyos kernel (BORE scheduler)
echo "Installing linux-cachyos kernel with BORE scheduler (this may take a while)..."
yay -S --noconfirm --needed linux-cachyos linux-cachyos-headers

# Update boot configuration
if [ -f /usr/local/bin/nmbl-update ]; then
    echo "Updating EFISTUB boot entry (NMBL)..."
    sudo /usr/local/bin/nmbl-update
    ROOT_UUID=$(blkid -s UUID -o value $(findmnt -n -o SOURCE /))
    sudo efibootmgr --create --disk $(findmnt -n -o SOURCE /boot/efi | sed 's/[0-9]*$//') \
        --part $(findmnt -n -o SOURCE /boot/efi | grep -o '[0-9]*$') \
        --label "Blunux" \
        --loader "\\EFI\\Blunux\\vmlinuz-linux-cachyos" \
        --unicode "root=UUID=$ROOT_UUID rw quiet loglevel=3 initrd=\\EFI\\Blunux\\initramfs-linux-cachyos.img"
else
    echo "Updating GRUB configuration..."
    sudo grub-mkconfig -o /boot/grub/grub.cfg
fi

echo ""
echo "=========================================="
echo "  Linux-CachyOS (BORE) installation complete!"
echo "=========================================="
echo ""
echo "Please reboot to use the linux-cachyos kernel."
"#;

/// The program that checks the installed system.
pub const SYSTEM_CHECK_SCRIPT: &'static str = r#"#!/bin/bash
# System Check Script (auto-generated by Blunux installer)
# Downloads and runs syschk.jl with Julia

set -e

SYSCHK_URL="https://jaewoojoung.github.io/linux/syschk.jl"
SYSCHK_FILE="$(dirname "$0")/syschk.jl"

echo "Downloading syschk.jl..."
curl -fsSL "$SYSCHK_URL" -o "$SYSCHK_FILE"

echo "Running system check..."
julia "$SYSCHK_FILE"
"#;

/// The settings of the input method `kime`.
pub const KIME_SETTINGS: &'static str = r#"indicator:
  icon_color: Black

engine:
  default_category: Latin

  global_hotkeys:
    Alt_R:
      behavior: !Toggle
        - Hangul
        - Latin
      result: Consume
    Hangul:
      behavior: !Toggle
        - Hangul
        - Latin
      result: Consume
    Super-Space:
      behavior: !Toggle
        - Hangul
        - Latin
      result: Consume
    Esc:
      behavior: !Switch Latin
      result: Bypass

  hangul:
    layout: dubeolsik
    word_commit: false
    auto_reorder: true
"#;

/// The entry that starts `kime` with the desktop.
pub const KIME_AUTOSTART: &'static str =
    "[Desktop Entry]\nType=Application\nName=Kime Input Method\nExec=/usr/bin/kime\nTerminal=false\nCategories=Utility;\nX-GNOME-Autostart-enabled=true\n";

/// The service that keeps `kime` running in a session.
pub const KIME_SERVICE: &'static str =
    "[Unit]\nDescription=Korean Input Method Editor\nAfter=graphical-session.target\nPartOf=graphical-session.target\n\n[Service]\nType=simple\nExecStart=/usr/bin/kime\nRestart=on-failure\nRestartSec=3\nEnvironment=\"GTK_IM_MODULE=kime\"\nEnvironment=\"QT_IM_MODULE=kime\"\nEnvironment=\"XMODIFIERS=@im=kime\"\n\n[Install]\nWantedBy=graphical-session.target\n";

/// What tells the window manager of `kime`.
pub const KIME_WINDOW_RULES: &'static str =
    "[Wayland]\nInputMethod[$e]=/usr/share/applications/kime.desktop\n";

/// What a login shell exports for `kime`.
pub const KIME_LOGIN_PROFILE: &'static str =
    "# Kime Input Method\nexport GTK_IM_MODULE=kime\nexport QT_IM_MODULE=kime\nexport XMODIFIERS=@im=kime\nexport LANG=ko_KR.UTF-8\n";

/// What a graphical session exports for `kime`.
pub const KIME_SESSION_PROFILE: &'static str =
    "export GTK_IM_MODULE=kime\nexport QT_IM_MODULE=kime\nexport XMODIFIERS=@im=kime\n";

/// What every process finds in its environment for `kime`.
pub const KIME_ENVIRONMENT_FILE: &'static str =
    "GTK_IM_MODULE=kime\nQT_IM_MODULE=kime\nXMODIFIERS=@im=kime\n";

/// The shell text that copies the branding of the installation medium into
/// the directory at its first parameter.
pub const COPY_BRANDING_SCRIPT: &'static str =
    "cp -r /etc/fastfetch/* \"$1\" 2>/dev/null || true";

/// The home directory of the user in the tree at `mount_point`.
pub open spec fn user_home(cfg: ConfigView, mount_point: Seq<char>) -> Seq<char> {
    mount_point + "/home/"@ + cfg.install.username
}

/// The question whether the installation medium carries the branding.
pub open spec fn branding_probe_of() -> InvocationView {
    command("test"@, seq!["-f"@, "/etc/fastfetch/config.jsonc"@])
}

/// The question whether the installation medium carries the branding.
pub fn branding_probe() -> (probe: Invocation)
    ensures
        probe@ == branding_probe_of(),
{
    let probe = Invocation::new("test", &["-f", "/etc/fastfetch/config.jsonc"]);
    probe
}

/// The question whether the installation medium says what release it is.
pub open spec fn release_probe_of() -> InvocationView {
    command("test"@, seq!["-f"@, "/etc/os-release"@])
}

/// The question whether the installation medium says what release it is.
pub fn release_probe() -> (probe: Invocation)
    ensures
        probe@ == release_probe_of(),
{
    let probe = Invocation::new("test", &["-f", "/etc/os-release"]);
    probe
}

/// Whether the input method `kime` is set up for the user.
pub open spec fn sets_up_kime(cfg: ConfigView) -> bool {
    cfg.input_method.enabled && cfg.input_method.engine == "kime"@
}

/// Whether the input method `kime` is set up for the user.
pub fn is_kime_set_up(cfg: &Config) -> (yes: bool)
    ensures
        yes == sets_up_kime(cfg@),
{
    cfg.input_method.enabled && same_text(cfg.input_method.engine.as_str(), "kime")
}

/// Where the window manager keeps its rules for the user.
pub open spec fn window_rules_path(cfg: ConfigView, mount_point: Seq<char>) -> Seq<char> {
    user_home(cfg, mount_point) + "/.config/kwinrc"@
}

/// Where the window manager keeps its rules for the user.
pub fn window_rules_file(cfg: &Config, mount_point: &str) -> (path: String)
    ensures
        path@ == window_rules_path(cfg@, mount_point@),
{
    let mut path = glue3(mount_point, "/home/", cfg.install.username.as_str());
    path.append("/.config/kwinrc");
    path
}

/// Where the user keeps the settings of `fastfetch`.
pub open spec fn branding_directory(cfg: ConfigView, mount_point: Seq<char>) -> Seq<char> {
    user_home(cfg, mount_point) + "/.config/fastfetch"@
}

/// Giving the user the `fastfetch` settings of the installation medium,
/// where `branded` says that it has them.
pub open spec fn user_branding_steps(
    cfg: ConfigView,
    mount_point: Seq<char>,
    branded: bool,
) -> Seq<StepView> {
    let settings = branding_directory(cfg, mount_point);
    if branded {
        seq![
            attempt(command("mkdir"@, seq!["-p"@, settings])),
            attempt(command("cp"@, seq!["/etc/fastfetch/config.jsonc"@, settings + "/"@])),
            attempt(
                quietly(command("cp"@, seq!["/etc/fastfetch/blunux-logo.txt"@, settings + "/"@])),
            ),
        ]
    } else {
        seq![attempt(command("mkdir"@, seq!["-p"@, settings]))]
    }
}

/// Giving the installed system the `fastfetch` settings of the installation
/// medium. The directory is a parameter of the shell text, not a part of it.
pub open spec fn system_branding_steps(mount_point: Seq<char>) -> Seq<StepView> {
    seq![
        attempt(command("mkdir"@, seq!["-p"@, mount_point + "/etc/fastfetch"@])),
        attempt(
            command(
                "sh"@,
                seq!["-c"@, COPY_BRANDING_SCRIPT@, "sh"@, mount_point + "/etc/fastfetch/"@],
            ),
        ),
    ]
}

/// Giving the installed system the release file of the installation medium,
/// where `released` says that it has one.
pub open spec fn release_file_steps(mount_point: Seq<char>, released: bool) -> Seq<StepView> {
    if released {
        seq![
            attempt(command("cp"@, seq!["/etc/os-release"@, mount_point + "/etc/os-release"@])),
            attempt(command("mkdir"@, seq!["-p"@, mount_point + "/usr/lib"@])),
            attempt(
                command("cp"@, seq!["/etc/os-release"@, mount_point + "/usr/lib/os-release"@]),
            ),
        ]
    } else {
        Seq::empty()
    }
}

/// Copying the branding of the installation medium: its `fastfetch`
/// settings for the user and for the system, and its release file.
pub open spec fn branding_steps(
    cfg: ConfigView,
    mount_point: Seq<char>,
    branded: bool,
    released: bool,
) -> Seq<StepView> {
    user_branding_steps(cfg, mount_point, branded) + system_branding_steps(mount_point)
        + release_file_steps(mount_point, released)
}

fn user_branding_script(cfg: &Config, mount_point: &str, branded: bool) -> (script: Script)
    ensures
        script@ == user_branding_steps(cfg@, mount_point@, branded),
{
    let mut settings = glue3(mount_point, "/home/", cfg.install.username.as_str());
    settings.append("/.config/fastfetch");
    let target = glue(settings.as_str(), "/");
    let mut script = Script::new();
    script.push(Step::attempt(Invocation::new("mkdir", &["-p", settings.as_str()])));
    if branded {
        script.push(
            Step::attempt(
                Invocation::new("cp", &["/etc/fastfetch/config.jsonc", target.as_str()]),
            ),
        );
        script.push(
            Step::attempt(
                Invocation::new("cp", &["/etc/fastfetch/blunux-logo.txt", target.as_str()]).quiet(),
            ),
        );
    }
    assert(script@ =~~= user_branding_steps(cfg@, mount_point@, branded));
    script
}

fn system_branding_script(mount_point: &str) -> (script: Script)
    ensures
        script@ == system_branding_steps(mount_point@),
{
    let mut script = Script::new();
    script.push(
        Step::attempt(
            Invocation::new("mkdir", &["-p", glue(mount_point, "/etc/fastfetch").as_str()]),
        ),
    );
    script.push(
        Step::attempt(
            Invocation::new(
                "sh",
                &["-c", COPY_BRANDING_SCRIPT, "sh", glue(mount_point, "/etc/fastfetch/").as_str()],
            ),
        ),
    );
    assert(script@ =~~= system_branding_steps(mount_point@));
    script
}

fn release_file_script(mount_point: &str, released: bool) -> (script: Script)
    ensures
        script@ == release_file_steps(mount_point@, released),
{
    let mut script = Script::new();
    if released {
        script.push(
            Step::attempt(
                Invocation::new(
                    "cp",
                    &["/etc/os-release", glue(mount_point, "/etc/os-release").as_str()],
                ),
            ),
        );
        script.push(
            Step::attempt(
                Invocation::new("mkdir", &["-p", glue(mount_point, "/usr/lib").as_str()]),
            ),
        );
        script.push(
            Step::attempt(
                Invocation::new(
                    "cp",
                    &["/etc/os-release", glue(mount_point, "/usr/lib/os-release").as_str()],
                ),
            ),
        );
    }
    assert(script@ =~~= release_file_steps(mount_point@, released));
    script
}

fn branding_script(cfg: &Config, mount_point: &str, branded: bool, released: bool) -> (script:
    Script)
    ensures
        script@ == branding_steps(cfg@, mount_point@, branded, released),
{
    let mut script = user_branding_script(cfg, mount_point, branded);
    script.extend(system_branding_script(mount_point));
    script.extend(release_file_script(mount_point, released));
    script
}

/// One line for each program, asking for its installation.
pub open spec fn package_lines(packages: Seq<Seq<char>>) -> Seq<char>
    decreases packages.len(),
{
    if packages.len() == 0 {
        Seq::empty()
    } else {
        package_lines(packages.drop_last()) + "install_package \""@ + packages.last() + "\"\n"@
    }
}

/// The program that installs the given programs after the first boot.
pub open spec fn package_program(packages: Seq<Seq<char>>) -> Seq<char> {
    PACKAGE_SCRIPT_HEAD@ + package_lines(packages) + PACKAGE_SCRIPT_TAIL@
}

/// The program that installs the given programs after the first boot.
pub fn package_program_text(packages: &Vec<String>) -> (program: String)
    ensures
        program@ == package_program(texts(packages@)),
{
    let ghost all = texts(packages@);
    let mut lines = String::new();
    let mut i: usize = 0;
    while i < packages.len()
        invariant
            i <= packages@.len(),
            all == texts(packages@),
            lines@ == package_lines(all.take(i as int)),
        decreases packages@.len() - i,
    {
        assert(all.take(i + 1).drop_last() =~= all.take(i as int));
        lines.append("install_package \"");
        lines.append(packages[i].as_str());
        lines.append("\"\n");
        i += 1;
    }
    assert(all.take(packages@.len() as int) =~= all);
    glue3(PACKAGE_SCRIPT_HEAD, lines.as_str(), PACKAGE_SCRIPT_TAIL)
}

/// Putting a program into the user's home directory: writing it and making
/// it executable.
pub open spec fn program_steps(path: Seq<char>, content: Seq<char>) -> Seq<StepView> {
    seq![written(path, content), attempt(command("chmod"@, seq!["+x"@, path]))]
}

fn program_script(path: &str, content: &str) -> (script: Script)
    ensures
        script@ == program_steps(path@, content@),
{
    let mut script = Script::new();
    script.push(Step::write(path, content));
    script.push(Step::attempt(Invocation::new("chmod", &["+x", path])));
    assert(script@ =~~= program_steps(path@, content@));
    script
}

/// The programs that are left in the user's home directory for the time
/// after the first boot: one that installs the chosen programs, where any
/// were chosen; one that installs `kime`, where it is set up; one that
/// installs the kernel with the BORE scheduler, where that kernel is asked
/// for; and one that checks the system.
pub open spec fn helper_steps(cfg: ConfigView, mount_point: Seq<char>) -> Seq<StepView> {
    let home = user_home(cfg, mount_point);
    (if script_packages(cfg.packages).len() > 0 {
        program_steps(home + "/install-packages.sh"@, package_program(script_packages(cfg.packages)))
    } else {
        Seq::empty()
    }) + (if sets_up_kime(cfg) {
        program_steps(home + "/kime-install.sh"@, KIME_INSTALL_SCRIPT@)
    } else {
        Seq::empty()
    }) + (if cfg.kernel.type_ == "linux-bore"@ {
        program_steps(home + "/setup-linux-bore.sh"@, BORE_SETUP_SCRIPT@)
    } else {
        Seq::empty()
    }) + program_steps(home + "/syschk.sh"@, SYSTEM_CHECK_SCRIPT@)
}

fn helper_script(cfg: &Config, mount_point: &str) -> (script: Script)
    ensures
        script@ == helper_steps(cfg@, mount_point@),
{
    let home = glue3(mount_point, "/home/", cfg.install.username.as_str());
    let packages = cfg.get_script_package_list();
    let mut script = Script::new();
    if packages.len() > 0 {
        script =
        program_script(
            glue(home.as_str(), "/install-packages.sh").as_str(),
            package_program_text(&packages).as_str(),
        );
    }
    let mut kime = Script::new();
    if is_kime_set_up(cfg) {
        kime = program_script(glue(home.as_str(), "/kime-install.sh").as_str(), KIME_INSTALL_SCRIPT);
    }
    script.extend(kime);
    let mut bore = Script::new();
    if same_text(cfg.kernel.type_.as_str(), "linux-bore") {
        bore =
        program_script(glue(home.as_str(), "/setup-linux-bore.sh").as_str(), BORE_SETUP_SCRIPT);
    }
    script.extend(bore);
    script.extend(program_script(glue(home.as_str(), "/syschk.sh").as_str(), SYSTEM_CHECK_SCRIPT));
    script
}

/// The settings of `kime` in the user's home directory, the entry and the
/// service that start it.
pub open spec fn kime_files_steps(
    home: Seq<char>,
    username: Seq<char>,
    mount_point: Seq<char>,
) -> Seq<StepView> {
    seq![
        attempt(command("mkdir"@, seq!["-p"@, home + "/.config/kime"@])),
        written(home + "/.config/kime"@ + "/config.yaml"@, KIME_SETTINGS@),
        attempt(command("mkdir"@, seq!["-p"@, home + "/.config/autostart"@])),
        written(home + "/.config/autostart"@ + "/kime.desktop"@, KIME_AUTOSTART@),
        attempt(command("mkdir"@, seq!["-p"@, home + "/.config/systemd/user"@])),
        written(home + "/.config/systemd/user"@ + "/kime.service"@, KIME_SERVICE@),
        attempt(
            quietly(
                inside(
                    mount_point,
                    "su"@,
                    seq!["-"@, username, "-c"@, "systemctl --user enable kime.service"@],
                ),
            ),
        ),
    ]
}

/// Telling the window manager and every kind of session of `kime`. The rules
/// of the window manager are added to where `ruled` says that the user has
/// some, and written where not.
pub open spec fn kime_environment_steps(
    home: Seq<char>,
    mount_point: Seq<char>,
    ruled: bool,
) -> Seq<StepView> {
    seq![
        if ruled {
            appended(home + "/.config/kwinrc"@, "\n"@ + KIME_WINDOW_RULES@)
        } else {
            written(home + "/.config/kwinrc"@, KIME_WINDOW_RULES@)
        },
        appended(home + "/.bash_profile"@, KIME_LOGIN_PROFILE@),
        written(home + "/.xprofile"@, KIME_SESSION_PROFILE@),
        attempt(command("mkdir"@, seq!["-p"@, mount_point + "/etc/environment.d"@])),
        written(mount_point + "/etc/environment.d/kime.conf"@, KIME_ENVIRONMENT_FILE@),
    ]
}

/// Setting up the input method `kime` for the user, where it is asked for.
pub open spec fn kime_steps(cfg: ConfigView, mount_point: Seq<char>, ruled: bool) -> Seq<StepView> {
    if sets_up_kime(cfg) {
        kime_files_steps(user_home(cfg, mount_point), cfg.install.username, mount_point)
            + kime_environment_steps(user_home(cfg, mount_point), mount_point, ruled)
    } else {
        Seq::empty()
    }
}

fn kime_files_script(home: &str, username: &str, mount_point: &str) -> (script: Script)
    ensures
        script@ == kime_files_steps(home@, username@, mount_point@),
{
    let settings = glue(home, "/.config/kime");
    let autostart = glue(home, "/.config/autostart");
    let services = glue(home, "/.config/systemd/user");
    let mut script = Script::new();
    script.push(Step::attempt(Invocation::new("mkdir", &["-p", settings.as_str()])));
    script.push(Step::write(glue(settings.as_str(), "/config.yaml").as_str(), KIME_SETTINGS));
    script.push(Step::attempt(Invocation::new("mkdir", &["-p", autostart.as_str()])));
    script.push(Step::write(glue(autostart.as_str(), "/kime.desktop").as_str(), KIME_AUTOSTART));
    script.push(Step::attempt(Invocation::new("mkdir", &["-p", services.as_str()])));
    script.push(Step::write(glue(services.as_str(), "/kime.service").as_str(), KIME_SERVICE));
    script.push(
        Step::attempt(
            Invocation::inside(
                mount_point,
                "su",
                &["-", username, "-c", "systemctl --user enable kime.service"],
            ).quiet(),
        ),
    );
    assert(script@ =~~= kime_files_steps(home@, username@, mount_point@));
    script
}

fn kime_environment_script(home: &str, mount_point: &str, ruled: bool) -> (script: Script)
    ensures
        script@ == kime_environment_steps(home@, mount_point@, ruled),
{
    let rules = glue(home, "/.config/kwinrc");
    let mut script = Script::new();
    if ruled {
        script.push(Step::append(rules.as_str(), glue("\n", KIME_WINDOW_RULES).as_str()));
    } else {
        script.push(Step::write(rules.as_str(), KIME_WINDOW_RULES));
    }
    script.push(Step::append(glue(home, "/.bash_profile").as_str(), KIME_LOGIN_PROFILE));
    script.push(Step::write(glue(home, "/.xprofile").as_str(), KIME_SESSION_PROFILE));
    script.push(
        Step::attempt(
            Invocation::new("mkdir", &["-p", glue(mount_point, "/etc/environment.d").as_str()]),
        ),
    );
    script.push(
        Step::write(
            glue(mount_point, "/etc/environment.d/kime.conf").as_str(),
            KIME_ENVIRONMENT_FILE,
        ),
    );
    assert(script@ =~~= kime_environment_steps(home@, mount_point@, ruled));
    script
}

fn kime_script(cfg: &Config, mount_point: &str, ruled: bool) -> (script: Script)
    ensures
        script@ == kime_steps(cfg@, mount_point@, ruled),
{
    if is_kime_set_up(cfg) {
        let home = glue3(mount_point, "/home/", cfg.install.username.as_str());
        let mut script = kime_files_script(
            home.as_str(),
            cfg.install.username.as_str(),
            mount_point,
        );
        script.extend(kime_environment_script(home.as_str(), mount_point, ruled));
        script
    } else {
        Script::new()
    }
}

/// Handing the home directory over to the user and keeping it private.
pub open spec fn ownership_steps(cfg: ConfigView, mount_point: Seq<char>) -> Seq<StepView> {
    let home = user_home(cfg, mount_point);
    seq![
        attempt(command("chown"@, seq!["-R"@, "1000:1000"@, home])),
        attempt(command("chmod"@, seq!["700"@, home])),
        attempt(command("chmod"@, seq!["700"@, home + "/.config"@])),
    ]
}

fn ownership_script(cfg: &Config, mount_point: &str) -> (script: Script)
    ensures
        script@ == ownership_steps(cfg@, mount_point@),
{
    let home = glue3(mount_point, "/home/", cfg.install.username.as_str());
    let mut script = Script::new();
    script.push(Step::attempt(Invocation::new("chown", &["-R", "1000:1000", home.as_str()])));
    script.push(Step::attempt(Invocation::new("chmod", &["700", home.as_str()])));
    script.push(
        Step::attempt(Invocation::new("chmod", &["700", glue(home.as_str(), "/.config").as_str()])),
    );
    assert(script@ =~~= ownership_steps(cfg@, mount_point@));
    script
}

/// Finishing the installation: the branding, the helper programs, the input
/// method, the ownership of the home directory, and at the end unmounting the
/// installed system. `branded` and `released` are the answers to
/// [`branding_probe`] and [`release_probe`]; `ruled` says whether the file at
/// [`window_rules_file`] exists. None of the steps is fatal.
pub open spec fn finalize_steps(
    cfg: ConfigView,
    mount_point: Seq<char>,
    branded: bool,
    released: bool,
    ruled: bool,
) -> Seq<StepView> {
    branding_steps(cfg, mount_point, branded, released) + helper_steps(cfg, mount_point)
        + kime_steps(cfg, mount_point, ruled) + ownership_steps(cfg, mount_point) + unmount_steps(
        mount_point,
    )
}

/// The steps that finish the installation.
pub fn finalize(cfg: &Config, mount_point: &str, branded: bool, released: bool, ruled: bool) -> (script:
    Script)
    ensures
        script@ == finalize_steps(cfg@, mount_point@, branded, released, ruled),
{
    let mut script = branding_script(cfg, mount_point, branded, released);
    script.extend(helper_script(cfg, mount_point));
    script.extend(kime_script(cfg, mount_point, ruled));
    script.extend(ownership_script(cfg, mount_point));
    script.extend(unmount_partitions(mount_point));
    script
}

/// Whatever fails in finishing the installation, it is finished all the
/// same.
pub proof fn lemma_finalize_never_fatal(
    cfg: ConfigView,
    mount_point: Seq<char>,
    branded: bool,
    released: bool,
    ruled: bool,
)
    ensures
        never_fatal(finalize_steps(cfg, mount_point, branded, released, ruled)),
{
    let branding = branding_steps(cfg, mount_point, branded, released);
    lemma_never_fatal_joined(
        user_branding_steps(cfg, mount_point, branded),
        system_branding_steps(mount_point),
    );
    lemma_never_fatal_joined(
        user_branding_steps(cfg, mount_point, branded) + system_branding_steps(mount_point),
        release_file_steps(mount_point, released),
    );
    let helpers = helper_steps(cfg, mount_point);
    let kime = kime_steps(cfg, mount_point, ruled);
    let ownership = ownership_steps(cfg, mount_point);
    let unmount = unmount_steps(mount_point);
    lemma_never_fatal_joined(branding, helpers);
    lemma_never_fatal_joined(branding + helpers, kime);
    lemma_never_fatal_joined(branding + helpers + kime, ownership);
    lemma_never_fatal_joined(branding + helpers + kime + ownership, unmount);
}

} // verus!
