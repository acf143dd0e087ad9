//! Uninstalling: the shell commands, the plan that they make up, and what is said while
//! it runs.

use crate::face_data::{
    lemma_face_data_is_named, lemma_other_commands_spare_faces, names_face_data,
};
use crate::text::{
    contains_text, decimal, decimal_text, is_space, joined, lemma_nothing_to_trim,
    lemma_written_without_space, stands_at, trimmed, written_numbers_differ,
};
use vstd::prelude::*;
use vstd::string::*;

verus! {

/// Takes the extension out of every user's GNOME settings.
pub const RESET_GNOME_USER_SETTINGS: &'static str = "if command -v getent >/dev/null 2>&1 && command -v dbus-run-session >/dev/null 2>&1; then \
    getent passwd | while IFS=: read -r user _ uid _ _ home _; do { [ \"$uid\" -ge 1000 ] \
    2>/dev/null || [ \"$user\" = gdm ] || [ \"$user\" = gdm3 ] || [ \"$user\" = Debian-gdm ]; } || \
    continue; [ -d \"$home\" ] || continue; dconf_profile=\"\"; case \"$user\" in \
    gdm|gdm3|Debian-gdm) dconf_profile=\"DCONF_PROFILE=gdm\" ;; esac; sudo -u \"$user\" env \
    HOME=\"$home\" $dconf_profile dbus-run-session sh -c 'EXT_ID=\"gaze@gundulabs.com\"; if \
    command -v gsettings >/dev/null 2>&1; then current=$(gsettings get org.gnome.shell \
    enabled-extensions 2>/dev/null || true); case \"$current\" in *\"$EXT_ID\"*) next=$(printf \
    \"%s\" \"$current\" | sed \"s/\\047$EXT_ID\\047, //; s/, \\047$EXT_ID\\047//; \
    s/\\047$EXT_ID\\047//\"); gsettings set org.gnome.shell enabled-extensions \"$next\" \
    2>/dev/null || true;; esac; gsettings reset-recursively org.gnome.shell.extensions.gaze \
    2>/dev/null || true; fi; if command -v dconf >/dev/null 2>&1; then dconf reset -f \
    /org/gnome/shell/extensions/gaze/ 2>/dev/null || true; fi' || true; done; fi";

/// Removes the settings of the login screen.
pub const REMOVE_GDM_DCONF_OVERRIDES: &'static str = "sudo rm -f /etc/dconf/db/gdm.d/00-gaze-defaults* /etc/dconf/db/gdm.d/99-gaze* && if \
    command -v dconf >/dev/null 2>&1; then sudo dconf update >/dev/null 2>&1 || true; fi";

/// Restores the authselect profile from before the installation.
pub const RESTORE_AUTHSELECT: &'static str = "if [ -f /etc/gaze/authselect.previous ]; then profile=$(sudo sed -n 's/^Profile \
    ID:[[:space:]]*//p' /etc/gaze/authselect.previous); features=$(sudo sed -n 's/^- //p' \
    /etc/gaze/authselect.previous | tr '\\n' ' '); if [ -n \"$profile\" ]; then sudo authselect \
    select \"$profile\" $features --force 2>/dev/null || true; else sudo authselect select sssd \
    --force 2>/dev/null || true; fi; else sudo authselect select sssd --force 2>/dev/null || \
    true; fi";

/// Rebuilds the settings databases.
pub const REFRESH_GNOME_SYSTEM_SETTINGS: &'static str = "if command -v dconf >/dev/null 2>&1; then sudo dconf update >/dev/null 2>&1 || true; fi; \
    if command -v glib-compile-schemas >/dev/null 2>&1; then sudo glib-compile-schemas \
    /usr/share/glib-2.0/schemas >/dev/null 2>&1 || true; fi";

/// Removes files that no package owns.
pub const REMOVE_UNMANAGED_INSTALL_ARTIFACTS: &'static str = r#"owned_by_pkg() {
          p=$1;
          if command -v pacman >/dev/null 2>&1; then pacman -Qo "$p" >/dev/null 2>&1 && return 0; fi;
          if command -v dpkg-query >/dev/null 2>&1; then dpkg-query -S "$p" >/dev/null 2>&1 && return 0; fi;
          if command -v rpm >/dev/null 2>&1; then rpm -qf "$p" >/dev/null 2>&1 && return 0; fi;
          return 1;
        };
        remove_if_unmanaged() {
          p=$1;
          [ -e "$p" ] || [ -L "$p" ] || return 0;
          if [ -L "$p" ] || ! owned_by_pkg "$p"; then
            sudo rm -rf "$p";
          fi;
        };
        for p in \
          /usr/bin/gaze /usr/bin/gazed /usr/bin/gaze-gui \
          /usr/local/bin/gaze /usr/local/bin/gazed /usr/local/bin/gaze-gui \
          /usr/lib/security/pam_gaze.so /usr/lib/security/pam_gaze_grosshack.so \
          /usr/lib64/security/pam_gaze.so /usr/lib64/security/pam_gaze_grosshack.so \
          /usr/share/glib-2.0/schemas/org.gnome.shell.extensions.gaze.gschema.xml \
          /usr/share/polkit-1/actions/com.gundulabs.gaze.policy \
          /usr/share/gnome-shell/extensions/gaze@gundulabs.com/extension.js \
          /usr/share/gnome-shell/extensions/gaze@gundulabs.com/metadata.json \
          /usr/share/gnome-shell/extensions/gaze@gundulabs.com/prefs.js
        do remove_if_unmanaged "$p"; done;
        for p in /lib/*/security/pam_gaze.so /lib/*/security/pam_gaze_grosshack.so /usr/lib/*/security/pam_gaze.so /usr/lib/*/security/pam_gaze_grosshack.so; do
          [ -e "$p" ] || [ -L "$p" ] || continue;
          remove_if_unmanaged "$p";
        done;
        sudo rmdir /usr/share/gnome-shell/extensions/gaze@gundulabs.com 2>/dev/null || true;
        sudo rm -rf /etc/systemd/system/gazed.service.d;
        sudo rm -rf /usr/local/share/gaze-dev;
        sudo systemctl daemon-reload >/dev/null 2>&1 || true;
        if command -v glib-compile-schemas >/dev/null 2>&1; then sudo glib-compile-schemas /usr/share/glib-2.0/schemas >/dev/null 2>&1 || true; fi"#;

/// Takes the PAM module out of the files that it was written to.
pub const REMOVE_ARCH_PAM_CONFIGURATION: &'static str = "for flag in /etc/gaze/pam-arch.configured /etc/gaze/pam-arch.dev-configured; do [ -f \
    \"$flag\" ] || continue; while IFS= read -r f; do [ -f \"$f\" ] || continue; sudo sed -i \
    '/pam_gaze/d' \"$f\" || true; done < \"$flag\"; done; sudo sed -i '/pam_gaze/d' \
    /etc/pam.d/sudo 2>/dev/null || true; for flag in /etc/gaze/pam-arch.polkit-configured \
    /etc/gaze/pam-arch.polkit-dev-configured; do [ -f \"$flag\" ] || continue; while IFS= read \
    -r f; do sudo rm -f \"$f\" || true; done < \"$flag\"; sudo rm -f \"$flag\" || true; done";

/// Removes the pacman packages, debug packages first: they can depend on the base package.
pub const REMOVE_PACMAN_PACKAGES: &'static str = "for base in gaze gaze-gui gaze-gnome-extension gaze-hyprlock gaze-bin gaze-gui-bin \
    gaze-gnome-extension-bin gaze-hyprlock-bin; do for pkg in \"$base-debug\" \"$base\"; do if \
    pacman -Q \"$pkg\" >/dev/null 2>&1; then sudo pacman -Rns --noconfirm \"$pkg\" || true; fi; \
    done; done";

/// Disables and uninstalls the GNOME extension.
pub const UNINSTALL_GNOME_EXTENSION: &'static str = "gnome-extensions disable gaze@gundulabs.com 2>/dev/null || true; gnome-extensions \
    uninstall gaze@gundulabs.com 2>/dev/null || true";

/// Removes the copies of the extension in home directories.
pub const REMOVE_USER_EXTENSIONS: &'static str = "for d in /home/*/.local/share/gnome-shell/extensions \
    /root/.local/share/gnome-shell/extensions; do [ -d \"$d/gaze@gundulabs.com\" ] || continue; \
    sudo rm -rf \"$d/gaze@gundulabs.com\"; done";

/// Removes the PAM profile of Debian and Ubuntu.
pub const REMOVE_DEBIAN_PAM_PROFILE: &'static str = "sudo pam-auth-update --package --remove gaze 2>/dev/null || true";

/// Takes the PAM module out of hyprlock's settings.
pub const REMOVE_HYPRLOCK_REFERENCES: &'static str = "for d in /home/*/.config/hypr /root/.config/hypr; do f=\"$d/hyprlock.conf\"; [ -f \"$f\" ] || \
    continue; sudo sed -i.gaze-uninstall-bak \
    '/^\\s*pam_module\\s*=\\s*hyprlock-gaze\\(-simultaneous\\)\\?\\s*$/d' \"$f\" || true; done";

/// Stops the daemon.
pub const STOP_DAEMON: &'static str = "sudo systemctl disable --now gazed 2>/dev/null || true";

/// Removes the apt packages.
pub const REMOVE_APT_PACKAGES: &'static str = "sudo apt-get remove --purge -y gaze gaze-gui gaze-gnome-extension gaze-hyprlock \
    2>/dev/null || true";

/// Removes the apt repository and its key.
pub const REMOVE_APT_REPOSITORY: &'static str = "sudo rm -f /etc/apt/sources.list.d/gundulabs.list \
    /usr/share/keyrings/gundulabs-archive-keyring.gpg && sudo apt-get update 2>/dev/null || \
    true";

/// Removes the dnf packages.
pub const REMOVE_DNF_PACKAGES: &'static str = "sudo dnf remove -y gaze gaze-gui gaze-gnome-extension gaze-hyprlock 2>/dev/null || true";

/// Removes the dnf repository.
pub const REMOVE_DNF_REPOSITORY: &'static str = "sudo rm -f /etc/yum.repos.d/gundulabs.repo";

/// Removes the pacman repository.
pub const REMOVE_PACMAN_REPOSITORY: &'static str = "sudo sed -i '/^\\[gaze\\]/,/^$/d' /etc/pacman.conf && sudo rm -f \
    /etc/pacman.d/gaze-mirrorlist";

/// Removes the SELinux policy.
pub const REMOVE_SELINUX_POLICY: &'static str = "sudo semodule -r gaze-gdm-camera 2>/dev/null || true";

/// Removes core dumps: the daemon holds decrypted face templates in memory, so its crash
/// dumps are biometric data too.
pub const REMOVE_CORE_DUMPS: &'static str = "[ -d /var/lib/systemd/coredump ] && sudo find /var/lib/systemd/coredump \\( -name \
    'core.gazed.*' -o -name 'core.gaze.*' -o -name 'core.gaze-gui.*' \\) -delete 2>/dev/null || \
    true";

/// Removes the models.
pub const REMOVE_MODEL_CACHE: &'static str = "sudo rm -rf /var/cache/gaze";

/// Removes the settings.
pub const REMOVE_CONFIG: &'static str = "sudo rm -rf /etc/gaze";

/// Removes the enrolled faces.
pub const REMOVE_FACE_DATA: &'static str = "sudo rm -rf /var/lib/gaze";

/// Reloads systemd.
pub const RELOAD_SYSTEMD: &'static str = "sudo systemctl daemon-reload";

/// The tools that are installed.
#[derive(Clone, Copy, Debug, PartialEq, Eq, Structural)]
pub struct Tools {
    pub gnome_extensions: bool,
    pub pam_auth_update: bool,
    pub authselect: bool,
    pub pacman: bool,
    pub apt_get: bool,
    pub dnf: bool,
    pub semodule: bool,
}

/// The steps of a plan, their labels and commands as text.
pub open spec fn step_models(plan: Seq<(&'static str, String)>) -> Seq<(Seq<char>, Seq<char>)> {
    plan.map_values(|step: (&'static str, String)| (step.0@, step.1@))
}

/// One step, or none.
pub open spec fn step_if(needed: bool, label: Seq<char>, command: Seq<char>) -> Seq<
    (Seq<char>, Seq<char>),
> {
    if needed {
        seq![(label, command)]
    } else {
        seq![]
    }
}

fn add_step(
    plan: &mut Vec<(&'static str, String)>,
    needed: bool,
    label: &'static str,
    command: &str,
)
    ensures
        step_models(final(plan)@) == step_models(old(plan)@) + step_if(needed, label@, command@),
{
    if needed {
        let step: (&'static str, String) = (label, command.to_owned());
        assert(step_models(plan@.push(step)) =~= step_models(plan@) + seq![(label@, command@)]);
        plan.push(step);
    } else {
        assert(step_models(plan@) =~= step_models(plan@) + seq![]);
    }
}

/// The steps that undo what the session and the login use.
pub open spec fn session_steps(tools: Tools) -> Seq<(Seq<char>, Seq<char>)> {
    step_if(tools.gnome_extensions, "Disable and uninstall GNOME extension (best-effort)"@, UNINSTALL_GNOME_EXTENSION@)
        + step_if(true, "Reset GNOME lock/login settings"@, RESET_GNOME_USER_SETTINGS@)
        + step_if(true, "Remove per-user GNOME extension copies"@, REMOVE_USER_EXTENSIONS@)
        + step_if(true, "Remove GDM dconf overrides"@, REMOVE_GDM_DCONF_OVERRIDES@)
        + step_if(tools.pam_auth_update, "Remove Debian/Ubuntu PAM profile"@, REMOVE_DEBIAN_PAM_PROFILE@)
        + step_if(tools.authselect, "Restore authselect profile"@, RESTORE_AUTHSELECT@)
        + step_if(tools.pacman && !tools.pam_auth_update && !tools.authselect, "Remove Arch PAM configuration"@, REMOVE_ARCH_PAM_CONFIGURATION@)
        + step_if(true, "Remove hyprlock pam_module references"@, REMOVE_HYPRLOCK_REFERENCES@)
        + step_if(true, "Stop and disable daemon"@, STOP_DAEMON@)
}

/// The steps that remove the packages: those of the first package manager that is there.
pub open spec fn package_steps(tools: Tools) -> Seq<(Seq<char>, Seq<char>)> {
    step_if(tools.apt_get, "Remove apt packages"@, REMOVE_APT_PACKAGES@)
        + step_if(tools.apt_get, "Remove apt repo + keyring"@, REMOVE_APT_REPOSITORY@)
        + step_if(tools.dnf && !tools.apt_get, "Remove dnf packages"@, REMOVE_DNF_PACKAGES@)
        + step_if(tools.dnf && !tools.apt_get, "Remove dnf repo"@, REMOVE_DNF_REPOSITORY@)
        + step_if(tools.pacman && !tools.apt_get && !tools.dnf, "Remove pacman packages"@, REMOVE_PACMAN_PACKAGES@)
        + step_if(tools.pacman && !tools.apt_get && !tools.dnf, "Remove old pacman repo entry"@, REMOVE_PACMAN_REPOSITORY@)
}

/// The steps that remove files outside the packages, short of the enrolled faces.
pub open spec fn file_steps(tools: Tools) -> Seq<(Seq<char>, Seq<char>)> {
    step_if(tools.semodule, "Remove SELinux policy"@, REMOVE_SELINUX_POLICY@)
        + step_if(true, "Remove unmanaged development links/files"@, REMOVE_UNMANAGED_INSTALL_ARTIFACTS@)
        + step_if(true, "Remove gaze core dumps"@, REMOVE_CORE_DUMPS@)
        + step_if(true, "Remove model cache"@, REMOVE_MODEL_CACHE@)
        + step_if(true, "Remove config"@, REMOVE_CONFIG@)
}

/// The steps that bring the system up to date at the end.
pub open spec fn closing_steps() -> Seq<(Seq<char>, Seq<char>)> {
    step_if(true, "Refresh GNOME system settings"@, REFRESH_GNOME_SYSTEM_SETTINGS@)
        + step_if(true, "Reload systemd"@, RELOAD_SYSTEMD@)
}

/// The step that removes the enrolled faces, unless they are kept.
pub open spec fn face_data_step(keep_data: bool) -> Seq<(Seq<char>, Seq<char>)> {
    step_if(!keep_data, "Remove enrolled face data"@, REMOVE_FACE_DATA@)
}

/// The steps of an uninstallation, in order.
pub open spec fn uninstall_steps(tools: Tools, keep_data: bool) -> Seq<(Seq<char>, Seq<char>)> {
    session_steps(tools) + package_steps(tools) + file_steps(tools) + face_data_step(keep_data)
        + closing_steps()
}

/// Keeping the enrolled faces leaves out the step that removes them, right after the removal
/// of the settings, and changes nothing else.
pub proof fn keeping_data_skips_one_step(tools: Tools)
    ensures
        ({
            let before = session_steps(tools) + package_steps(tools) + file_steps(tools);
            &&& before.last() == ("Remove config"@, REMOVE_CONFIG@)
            &&& uninstall_steps(tools, true) == before + closing_steps()
            &&& uninstall_steps(tools, false) == before.push(
                ("Remove enrolled face data"@, REMOVE_FACE_DATA@),
            ) + closing_steps()
        }),
{
    let before = session_steps(tools) + package_steps(tools) + file_steps(tools);
    assert(uninstall_steps(tools, true) =~= before + closing_steps());
    assert(uninstall_steps(tools, false) =~= before.push(
        ("Remove enrolled face data"@, REMOVE_FACE_DATA@),
    ) + closing_steps());
}

/// Where a label stands in the longest plan, told by its length and two of its letters.
spec fn place(label: Seq<char>) -> int {
    let n = label.len();
    if n == 51 {
        0
    } else if n == 31 {
        1
    } else if n == 38 {
        2
    } else if n == 26 {
        if label[2] == 'm' {
            3
        } else {
            5
        }
    } else if n == 32 {
        4
    } else if n == 29 {
        if label[2] == 'm' {
            6
        } else {
            21
        }
    } else if n == 37 {
        7
    } else if n == 23 {
        8
    } else if n == 19 {
        if label[7] == 'a' {
            9
        } else {
            11
        }
    } else if n == 25 {
        if label[7] == 'a' {
            10
        } else {
            20
        }
    } else if n == 15 {
        12
    } else if n == 22 {
        if label[7] == 'p' {
            13
        } else {
            17
        }
    } else if n == 28 {
        14
    } else if n == 21 {
        15
    } else if n == 40 {
        16
    } else if n == 18 {
        18
    } else if n == 13 {
        19
    } else {
        22
    }
}

proof fn lemma_places()
    ensures
        place("Disable and uninstall GNOME extension (best-effort)"@) == 0,
        place("Reset GNOME lock/login settings"@) == 1,
        place("Remove per-user GNOME extension copies"@) == 2,
        place("Remove GDM dconf overrides"@) == 3,
        place("Remove Debian/Ubuntu PAM profile"@) == 4,
        place("Restore authselect profile"@) == 5,
        place("Remove Arch PAM configuration"@) == 6,
        place("Remove hyprlock pam_module references"@) == 7,
        place("Stop and disable daemon"@) == 8,
        place("Remove apt packages"@) == 9,
        place("Remove apt repo + keyring"@) == 10,
        place("Remove dnf packages"@) == 11,
        place("Remove dnf repo"@) == 12,
        place("Remove pacman packages"@) == 13,
        place("Remove old pacman repo entry"@) == 14,
        place("Remove SELinux policy"@) == 15,
        place("Remove unmanaged development links/files"@) == 16,
        place("Remove gaze core dumps"@) == 17,
        place("Remove model cache"@) == 18,
        place("Remove config"@) == 19,
        place("Remove enrolled face data"@) == 20,
        place("Refresh GNOME system settings"@) == 21,
        place("Reload systemd"@) == 22,
{
    reveal_strlit("Disable and uninstall GNOME extension (best-effort)");
    reveal_strlit("Reset GNOME lock/login settings");
    reveal_strlit("Remove per-user GNOME extension copies");
    reveal_strlit("Remove GDM dconf overrides");
    reveal_strlit("Remove Debian/Ubuntu PAM profile");
    reveal_strlit("Restore authselect profile");
    reveal_strlit("Remove Arch PAM configuration");
    reveal_strlit("Remove hyprlock pam_module references");
    reveal_strlit("Stop and disable daemon");
    reveal_strlit("Remove apt packages");
    reveal_strlit("Remove apt repo + keyring");
    reveal_strlit("Remove dnf packages");
    reveal_strlit("Remove dnf repo");
    reveal_strlit("Remove pacman packages");
    reveal_strlit("Remove old pacman repo entry");
    reveal_strlit("Remove SELinux policy");
    reveal_strlit("Remove unmanaged development links/files");
    reveal_strlit("Remove gaze core dumps");
    reveal_strlit("Remove model cache");
    reveal_strlit("Remove config");
    reveal_strlit("Remove enrolled face data");
    reveal_strlit("Refresh GNOME system settings");
    reveal_strlit("Reload systemd");
}

/// The labels of the steps stand in the longest plan from `lo` on, before `hi`, one after
/// the other.
spec fn in_order(steps: Seq<(Seq<char>, Seq<char>)>, lo: int, hi: int) -> bool {
    &&& forall|i: int| 0 <= i < steps.len() ==> lo <= place((#[trigger] steps[i]).0) < hi
    &&& forall|i: int, j: int|
        0 <= i < j < steps.len() ==> place((#[trigger] steps[i]).0) < place(
            (#[trigger] steps[j]).0,
        )
}

broadcast proof fn lemma_step_in_order(needed: bool, label: Seq<char>, command: Seq<char>)
    ensures
        in_order(#[trigger] step_if(needed, label, command), place(label), place(label) + 1),
{
}

broadcast proof fn lemma_steps_in_order(
    first: Seq<(Seq<char>, Seq<char>)>,
    second: Seq<(Seq<char>, Seq<char>)>,
    lo: int,
    mid: int,
    hi: int,
)
    requires
        #[trigger] in_order(first, lo, mid),
        #[trigger] in_order(second, mid, hi),
        lo <= mid <= hi,
    ensures
        in_order(#[trigger] (first + second), lo, hi),
{
    let steps = first + second;
    assert forall|i: int| 0 <= i < steps.len() implies lo <= place((#[trigger] steps[i]).0) < hi by {
        if i < first.len() {
            assert(steps[i] == first[i]);
        } else {
            assert(steps[i] == second[i - first.len()]);
        }
    }
    assert forall|i: int, j: int| 0 <= i < j < steps.len() implies place((#[trigger] steps[i]).0)
        < place((#[trigger] steps[j]).0) by {
        if j < first.len() {
            assert(steps[i] == first[i] && steps[j] == first[j]);
        } else if i < first.len() {
            assert(steps[i] == first[i] && steps[j] == second[j - first.len()]);
        } else {
            assert(steps[i] == second[i - first.len()] && steps[j] == second[j - first.len()]);
        }
    }
}

/// No label occurs twice in a plan.
pub proof fn labels_occur_once(tools: Tools, keep_data: bool, i: int, j: int)
    requires
        0 <= i < j < uninstall_steps(tools, keep_data).len(),
    ensures
        uninstall_steps(tools, keep_data)[i].0 != uninstall_steps(tools, keep_data)[j].0,
{
    broadcast use {lemma_step_in_order, lemma_steps_in_order};

    lemma_places();
    assert(in_order(session_steps(tools), 0, 9));
    assert(in_order(package_steps(tools), 9, 15));
    assert(in_order(file_steps(tools), 15, 20));
    assert(in_order(face_data_step(keep_data), 20, 21));
    assert(in_order(closing_steps(), 21, 23));
    assert(in_order(uninstall_steps(tools, keep_data), 0, 23));
}

/// No command of the steps names the directory of the enrolled faces.
spec fn spare_faces(steps: Seq<(Seq<char>, Seq<char>)>) -> bool {
    forall|i: int| 0 <= i < steps.len() ==> !names_face_data((#[trigger] steps[i]).1)
}

broadcast proof fn lemma_step_spares_faces(needed: bool, label: Seq<char>, command: Seq<char>)
    requires
        !names_face_data(command),
    ensures
        spare_faces(#[trigger] step_if(needed, label, command)),
{
}

broadcast proof fn lemma_steps_spare_faces(
    first: Seq<(Seq<char>, Seq<char>)>,
    second: Seq<(Seq<char>, Seq<char>)>,
)
    requires
        spare_faces(first),
        spare_faces(second),
    ensures
        spare_faces(#[trigger] (first + second)),
{
    let steps = first + second;
    assert forall|i: int| 0 <= i < steps.len() implies !names_face_data((#[trigger] steps[i]).1) by {
        if i < first.len() {
            assert(steps[i] == first[i]);
        } else {
            assert(steps[i] == second[i - first.len()]);
        }
    }
}

/// The directory of the enrolled faces is named by one command alone, that of the step that
/// removes them: where they are kept, no command names it.
pub proof fn one_command_names_the_face_data(tools: Tools, keep_data: bool, i: int)
    requires
        0 <= i < uninstall_steps(tools, keep_data).len(),
    ensures
        names_face_data(uninstall_steps(tools, keep_data)[i].1) <==> !keep_data
            && uninstall_steps(tools, keep_data)[i] == (
            "Remove enrolled face data"@,
            REMOVE_FACE_DATA@,
        ),
{
    lemma_other_commands_spare_faces();
    lemma_face_data_is_named();
    let before = session_steps(tools) + package_steps(tools) + file_steps(tools);
    assert(spare_faces(before) && spare_faces(closing_steps())) by {
        broadcast use {lemma_step_spares_faces, lemma_steps_spare_faces};

        assert(spare_faces(session_steps(tools)));
        assert(spare_faces(package_steps(tools)));
        assert(spare_faces(file_steps(tools)));
    }
    keeping_data_skips_one_step(tools);
    let n = before.len() as int;
    let steps = uninstall_steps(tools, keep_data);
    if i < n {
        assert(steps[i] == before[i]);
    } else if keep_data {
        assert(steps[i] == closing_steps()[i - n]);
    } else if i > n {
        assert(steps[i] == closing_steps()[i - n - 1]);
    }
}

/// Files that no package owns, core dumps, models and settings are removed whatever is
/// installed and whether or not the faces are kept.
pub proof fn leftovers_are_always_removed(tools: Tools, keep_data: bool)
    ensures
        uninstall_steps(tools, keep_data).contains(
            (
                "Remove unmanaged development links/files"@,
                REMOVE_UNMANAGED_INSTALL_ARTIFACTS@,
            ),
        ),
        uninstall_steps(tools, keep_data).contains(("Remove gaze core dumps"@, REMOVE_CORE_DUMPS@)),
        uninstall_steps(tools, keep_data).contains(("Remove model cache"@, REMOVE_MODEL_CACHE@)),
        uninstall_steps(tools, keep_data).contains(("Remove config"@, REMOVE_CONFIG@)),
{
    let steps = uninstall_steps(tools, keep_data);
    let front = session_steps(tools) + package_steps(tools);
    let at: int = front.len() + step_if(
        tools.semodule,
        "Remove SELinux policy"@,
        REMOVE_SELINUX_POLICY@,
    ).len() as int;
    assert(steps[at] == (
        "Remove unmanaged development links/files"@,
        REMOVE_UNMANAGED_INSTALL_ARTIFACTS@,
    ));
    assert(steps[at + 1] == ("Remove gaze core dumps"@, REMOVE_CORE_DUMPS@));
    assert(steps[at + 2] == ("Remove model cache"@, REMOVE_MODEL_CACHE@));
    assert(steps[at + 3] == ("Remove config"@, REMOVE_CONFIG@));
}

/// The packages of one package manager at most are removed, in two steps.
pub proof fn one_package_manager_is_used(tools: Tools)
    ensures
        package_steps(tools).len() == if tools.apt_get || tools.dnf || tools.pacman {
            2nat
        } else {
            0nat
        },
{
}

/// The steps hold one with this label and this command.
spec fn holds(steps: Seq<(Seq<char>, Seq<char>)>, label: Seq<char>, command: Seq<char>) -> bool {
    steps.contains((label, command))
}

/// No step has this label.
spec fn lacks(steps: Seq<(Seq<char>, Seq<char>)>, label: Seq<char>) -> bool {
    forall|i: int| 0 <= i < steps.len() ==> (#[trigger] steps[i]).0 != label
}

broadcast proof fn lemma_step_holds(label: Seq<char>, command: Seq<char>)
    ensures
        holds(#[trigger] step_if(true, label, command), label, command),
{
    assert(step_if(true, label, command)[0] == (label, command));
}

broadcast proof fn lemma_steps_hold(
    first: Seq<(Seq<char>, Seq<char>)>,
    second: Seq<(Seq<char>, Seq<char>)>,
    label: Seq<char>,
    command: Seq<char>,
)
    requires
        holds(first, label, command) || holds(second, label, command),
    ensures
        #[trigger] holds(first + second, label, command),
{
    let steps = first + second;
    if holds(first, label, command) {
        let i = choose|i: int| 0 <= i < first.len() && first[i] == (label, command);
        assert(steps[i] == first[i]);
    } else {
        let i = choose|i: int| 0 <= i < second.len() && second[i] == (label, command);
        assert(steps[first.len() + i] == second[i]);
    }
}

broadcast proof fn lemma_step_lacks(
    needed: bool,
    label: Seq<char>,
    command: Seq<char>,
    other: Seq<char>,
)
    requires
        !needed || label != other,
    ensures
        #[trigger] lacks(step_if(needed, label, command), other),
{
}

broadcast proof fn lemma_steps_lack(
    first: Seq<(Seq<char>, Seq<char>)>,
    second: Seq<(Seq<char>, Seq<char>)>,
    label: Seq<char>,
)
    requires
        lacks(first, label),
        lacks(second, label),
    ensures
        #[trigger] lacks(first + second, label),
{
    let steps = first + second;
    assert forall|i: int| 0 <= i < steps.len() implies (#[trigger] steps[i]).0 != label by {
        if i < first.len() {
            assert(steps[i] == first[i]);
        } else {
            assert(steps[i] == second[i - first.len()]);
        }
    }
}

/// A label that no needed step has is not in the plan.
#[verifier::spinoff_prover]
proof fn lemma_plan_lacks(tools: Tools, keep_data: bool, label: Seq<char>)
    requires
        tools.gnome_extensions ==> label != "Disable and uninstall GNOME extension (best-effort)"@,
        label != "Reset GNOME lock/login settings"@,
        label != "Remove per-user GNOME extension copies"@,
        label != "Remove GDM dconf overrides"@,
        tools.pam_auth_update ==> label != "Remove Debian/Ubuntu PAM profile"@,
        tools.authselect ==> label != "Restore authselect profile"@,
        tools.pacman && !tools.pam_auth_update && !tools.authselect ==> label != "Remove Arch PAM configuration"@,
        label != "Remove hyprlock pam_module references"@,
        label != "Stop and disable daemon"@,
        tools.apt_get ==> label != "Remove apt packages"@,
        tools.apt_get ==> label != "Remove apt repo + keyring"@,
        tools.dnf && !tools.apt_get ==> label != "Remove dnf packages"@,
        tools.dnf && !tools.apt_get ==> label != "Remove dnf repo"@,
        tools.pacman && !tools.apt_get && !tools.dnf ==> label != "Remove pacman packages"@,
        tools.pacman && !tools.apt_get && !tools.dnf ==> label != "Remove old pacman repo entry"@,
        tools.semodule ==> label != "Remove SELinux policy"@,
        label != "Remove unmanaged development links/files"@,
        label != "Remove gaze core dumps"@,
        label != "Remove model cache"@,
        label != "Remove config"@,
        label != "Refresh GNOME system settings"@,
        label != "Reload systemd"@,
        !keep_data ==> label != "Remove enrolled face data"@,
    ensures
        forall|command: Seq<char>|
            !(#[trigger] uninstall_steps(tools, keep_data).contains((label, command))),
{
    broadcast use {lemma_step_lacks, lemma_steps_lack};

    assert(lacks(session_steps(tools), label));
    assert(lacks(package_steps(tools), label));
    assert(lacks(file_steps(tools), label));
    assert(lacks(face_data_step(keep_data), label));
    assert(lacks(closing_steps(), label));
    assert(lacks(uninstall_steps(tools, keep_data), label));
}

/// A step for a tool is in the plan where the tool is there.
#[verifier::spinoff_prover]
#[verifier::rlimit(30)]
proof fn lemma_plan_holds(tools: Tools, keep_data: bool, label: Seq<char>, command: Seq<char>)
    requires
        ({
            ||| tools.gnome_extensions && label == "Disable and uninstall GNOME extension (best-effort)"@ && command == UNINSTALL_GNOME_EXTENSION@
            ||| tools.pam_auth_update && label == "Remove Debian/Ubuntu PAM profile"@ && command == REMOVE_DEBIAN_PAM_PROFILE@
            ||| tools.authselect && label == "Restore authselect profile"@ && command == RESTORE_AUTHSELECT@
            ||| tools.pacman && !tools.pam_auth_update && !tools.authselect && label == "Remove Arch PAM configuration"@ && command == REMOVE_ARCH_PAM_CONFIGURATION@
            ||| tools.apt_get && label == "Remove apt packages"@ && command == REMOVE_APT_PACKAGES@
            ||| tools.apt_get && label == "Remove apt repo + keyring"@ && command == REMOVE_APT_REPOSITORY@
            ||| tools.dnf && !tools.apt_get && label == "Remove dnf packages"@ && command == REMOVE_DNF_PACKAGES@
            ||| tools.dnf && !tools.apt_get && label == "Remove dnf repo"@ && command == REMOVE_DNF_REPOSITORY@
            ||| tools.pacman && !tools.apt_get && !tools.dnf && label == "Remove pacman packages"@ && command == REMOVE_PACMAN_PACKAGES@
            ||| tools.pacman && !tools.apt_get && !tools.dnf && label == "Remove old pacman repo entry"@ && command == REMOVE_PACMAN_REPOSITORY@
            ||| tools.semodule && label == "Remove SELinux policy"@ && command == REMOVE_SELINUX_POLICY@
        }),
    ensures
        uninstall_steps(tools, keep_data).contains((label, command)),
{
    broadcast use {lemma_step_holds, lemma_steps_hold};

    assert(holds(session_steps(tools), label, command) || holds(
        package_steps(tools),
        label,
        command,
    ) || holds(file_steps(tools), label, command));
    assert(holds(uninstall_steps(tools, keep_data), label, command));
}

/// A step for a tool is in the plan exactly if the tool is there: those of GNOME's
/// extensions, of the two PAM tools and of SELinux for themselves, those of Arch's PAM files
/// only where pacman is and neither PAM tool is. The faces play no part in it.
pub proof fn session_steps_need_their_tool(tools: Tools, keep_data: bool)
    ensures
        uninstall_steps(tools, keep_data).contains(
            ("Disable and uninstall GNOME extension (best-effort)"@, UNINSTALL_GNOME_EXTENSION@),
        ) <==> tools.gnome_extensions,
        uninstall_steps(tools, keep_data).contains(
            ("Remove Debian/Ubuntu PAM profile"@, REMOVE_DEBIAN_PAM_PROFILE@),
        ) <==> tools.pam_auth_update,
        uninstall_steps(tools, keep_data).contains(
            ("Restore authselect profile"@, RESTORE_AUTHSELECT@),
        ) <==> tools.authselect,
        uninstall_steps(tools, keep_data).contains(
            ("Remove Arch PAM configuration"@, REMOVE_ARCH_PAM_CONFIGURATION@),
        ) <==> tools.pacman && !tools.pam_auth_update && !tools.authselect,
        uninstall_steps(tools, keep_data).contains(
            ("Remove SELinux policy"@, REMOVE_SELINUX_POLICY@),
        ) <==> tools.semodule,
{
    lemma_places();
    if tools.gnome_extensions {
        lemma_plan_holds(tools, keep_data, "Disable and uninstall GNOME extension (best-effort)"@, UNINSTALL_GNOME_EXTENSION@);
    } else {
        lemma_plan_lacks(tools, keep_data, "Disable and uninstall GNOME extension (best-effort)"@);
    }
    if tools.pam_auth_update {
        lemma_plan_holds(tools, keep_data, "Remove Debian/Ubuntu PAM profile"@, REMOVE_DEBIAN_PAM_PROFILE@);
    } else {
        lemma_plan_lacks(tools, keep_data, "Remove Debian/Ubuntu PAM profile"@);
    }
    if tools.authselect {
        lemma_plan_holds(tools, keep_data, "Restore authselect profile"@, RESTORE_AUTHSELECT@);
    } else {
        lemma_plan_lacks(tools, keep_data, "Restore authselect profile"@);
    }
    if tools.pacman && !tools.pam_auth_update && !tools.authselect {
        lemma_plan_holds(tools, keep_data, "Remove Arch PAM configuration"@, REMOVE_ARCH_PAM_CONFIGURATION@);
    } else {
        lemma_plan_lacks(tools, keep_data, "Remove Arch PAM configuration"@);
    }
    if tools.semodule {
        lemma_plan_holds(tools, keep_data, "Remove SELinux policy"@, REMOVE_SELINUX_POLICY@);
    } else {
        lemma_plan_lacks(tools, keep_data, "Remove SELinux policy"@);
    }
}

/// The steps for a package manager are in the plan exactly if it is there and none that goes
/// before it is: apt first, then dnf, then pacman.
pub proof fn package_steps_need_their_manager(tools: Tools, keep_data: bool)
    ensures
        uninstall_steps(tools, keep_data).contains(
            ("Remove apt packages"@, REMOVE_APT_PACKAGES@),
        ) <==> tools.apt_get,
        uninstall_steps(tools, keep_data).contains(
            ("Remove apt repo + keyring"@, REMOVE_APT_REPOSITORY@),
        ) <==> tools.apt_get,
        uninstall_steps(tools, keep_data).contains(
            ("Remove dnf packages"@, REMOVE_DNF_PACKAGES@),
        ) <==> tools.dnf && !tools.apt_get,
        uninstall_steps(tools, keep_data).contains(
            ("Remove dnf repo"@, REMOVE_DNF_REPOSITORY@),
        ) <==> tools.dnf && !tools.apt_get,
        uninstall_steps(tools, keep_data).contains(
            ("Remove pacman packages"@, REMOVE_PACMAN_PACKAGES@),
        ) <==> tools.pacman && !tools.apt_get && !tools.dnf,
        uninstall_steps(tools, keep_data).contains(
            ("Remove old pacman repo entry"@, REMOVE_PACMAN_REPOSITORY@),
        ) <==> tools.pacman && !tools.apt_get && !tools.dnf,
{
    lemma_places();
    if tools.apt_get {
        lemma_plan_holds(tools, keep_data, "Remove apt packages"@, REMOVE_APT_PACKAGES@);
    } else {
        lemma_plan_lacks(tools, keep_data, "Remove apt packages"@);
    }
    if tools.apt_get {
        lemma_plan_holds(tools, keep_data, "Remove apt repo + keyring"@, REMOVE_APT_REPOSITORY@);
    } else {
        lemma_plan_lacks(tools, keep_data, "Remove apt repo + keyring"@);
    }
    if tools.dnf && !tools.apt_get {
        lemma_plan_holds(tools, keep_data, "Remove dnf packages"@, REMOVE_DNF_PACKAGES@);
    } else {
        lemma_plan_lacks(tools, keep_data, "Remove dnf packages"@);
    }
    if tools.dnf && !tools.apt_get {
        lemma_plan_holds(tools, keep_data, "Remove dnf repo"@, REMOVE_DNF_REPOSITORY@);
    } else {
        lemma_plan_lacks(tools, keep_data, "Remove dnf repo"@);
    }
    if tools.pacman && !tools.apt_get && !tools.dnf {
        lemma_plan_holds(tools, keep_data, "Remove pacman packages"@, REMOVE_PACMAN_PACKAGES@);
    } else {
        lemma_plan_lacks(tools, keep_data, "Remove pacman packages"@);
    }
    if tools.pacman && !tools.apt_get && !tools.dnf {
        lemma_plan_holds(tools, keep_data, "Remove old pacman repo entry"@, REMOVE_PACMAN_REPOSITORY@);
    } else {
        lemma_plan_lacks(tools, keep_data, "Remove old pacman repo entry"@);
    }
}

/// Settings of GNOME and of the login, references to the module, the daemon and what systemd
/// knows are seen to whatever is installed.
#[verifier::spinoff_prover]
pub proof fn common_steps_are_always_taken(tools: Tools, keep_data: bool)
    ensures
        uninstall_steps(tools, keep_data).contains(
            ("Reset GNOME lock/login settings"@, RESET_GNOME_USER_SETTINGS@),
        ),
        uninstall_steps(tools, keep_data).contains(
            ("Remove per-user GNOME extension copies"@, REMOVE_USER_EXTENSIONS@),
        ),
        uninstall_steps(tools, keep_data).contains(
            ("Remove GDM dconf overrides"@, REMOVE_GDM_DCONF_OVERRIDES@),
        ),
        uninstall_steps(tools, keep_data).contains(
            ("Remove hyprlock pam_module references"@, REMOVE_HYPRLOCK_REFERENCES@),
        ),
        uninstall_steps(tools, keep_data).contains(
            ("Stop and disable daemon"@, STOP_DAEMON@),
        ),
        uninstall_steps(tools, keep_data).contains(
            ("Refresh GNOME system settings"@, REFRESH_GNOME_SYSTEM_SETTINGS@),
        ),
        uninstall_steps(tools, keep_data).contains(
            ("Reload systemd"@, RELOAD_SYSTEMD@),
        ),
{
    broadcast use {lemma_step_holds, lemma_steps_hold};

    let steps = uninstall_steps(tools, keep_data);
    assert(holds(steps, "Reset GNOME lock/login settings"@, RESET_GNOME_USER_SETTINGS@));
    assert(holds(steps, "Remove per-user GNOME extension copies"@, REMOVE_USER_EXTENSIONS@));
    assert(holds(steps, "Remove GDM dconf overrides"@, REMOVE_GDM_DCONF_OVERRIDES@));
    assert(holds(steps, "Remove hyprlock pam_module references"@, REMOVE_HYPRLOCK_REFERENCES@));
    assert(holds(steps, "Stop and disable daemon"@, STOP_DAEMON@));
    assert(holds(steps, "Refresh GNOME system settings"@, REFRESH_GNOME_SYSTEM_SETTINGS@));
    assert(holds(steps, "Reload systemd"@, RELOAD_SYSTEMD@));
}

/// Takes the extension out of every user's GNOME settings.
pub fn reset_gnome_user_settings_cmd() -> (r: String)
    ensures
        r@ == RESET_GNOME_USER_SETTINGS@,
{
    RESET_GNOME_USER_SETTINGS.to_owned()
}

/// Removes the settings of the login screen.
pub fn remove_gdm_dconf_overrides_cmd() -> (r: String)
    ensures
        r@ == REMOVE_GDM_DCONF_OVERRIDES@,
{
    REMOVE_GDM_DCONF_OVERRIDES.to_owned()
}

/// Restores the authselect profile from before the installation.
pub fn restore_authselect_cmd() -> (r: String)
    ensures
        r@ == RESTORE_AUTHSELECT@,
{
    RESTORE_AUTHSELECT.to_owned()
}

/// Rebuilds the settings databases.
pub fn refresh_gnome_system_settings_cmd() -> (r: String)
    ensures
        r@ == REFRESH_GNOME_SYSTEM_SETTINGS@,
{
    REFRESH_GNOME_SYSTEM_SETTINGS.to_owned()
}

/// Removes files that no package owns.
pub fn remove_unmanaged_install_artifacts_cmd() -> (r: String)
    ensures
        r@ == REMOVE_UNMANAGED_INSTALL_ARTIFACTS@,
{
    REMOVE_UNMANAGED_INSTALL_ARTIFACTS.to_owned()
}

/// Takes the PAM module out of the files that it was written to.
pub fn remove_arch_pam_configuration_cmd() -> (r: String)
    ensures
        r@ == REMOVE_ARCH_PAM_CONFIGURATION@,
{
    REMOVE_ARCH_PAM_CONFIGURATION.to_owned()
}

/// Removes the pacman packages, debug packages first: they can depend on the base package.
pub fn remove_pacman_packages_cmd() -> (r: String)
    ensures
        r@ == REMOVE_PACMAN_PACKAGES@,
{
    REMOVE_PACMAN_PACKAGES.to_owned()
}

/// Adds the steps that undo what the session and the login use.
fn add_session_steps(plan: &mut Vec<(&'static str, String)>, tools: &Tools)
    ensures
        step_models(final(plan)@) == step_models(old(plan)@) + session_steps(*tools),
{
    let ghost before = step_models(plan@);
    add_step(plan, tools.gnome_extensions, "Disable and uninstall GNOME extension (best-effort)", UNINSTALL_GNOME_EXTENSION);
    let command: String = reset_gnome_user_settings_cmd();
    add_step(plan, true, "Reset GNOME lock/login settings", command.as_str());
    add_step(plan, true, "Remove per-user GNOME extension copies", REMOVE_USER_EXTENSIONS);
    let command: String = remove_gdm_dconf_overrides_cmd();
    add_step(plan, true, "Remove GDM dconf overrides", command.as_str());
    add_step(plan, tools.pam_auth_update, "Remove Debian/Ubuntu PAM profile", REMOVE_DEBIAN_PAM_PROFILE);
    let command: String = restore_authselect_cmd();
    add_step(plan, tools.authselect, "Restore authselect profile", command.as_str());
    let command: String = remove_arch_pam_configuration_cmd();
    add_step(plan, tools.pacman && !tools.pam_auth_update && !tools.authselect, "Remove Arch PAM configuration", command.as_str());
    add_step(plan, true, "Remove hyprlock pam_module references", REMOVE_HYPRLOCK_REFERENCES);
    add_step(plan, true, "Stop and disable daemon", STOP_DAEMON);
    assert(step_models(plan@) =~= before + session_steps(*tools));
}

/// Adds the steps that remove the packages.
fn add_package_steps(plan: &mut Vec<(&'static str, String)>, tools: &Tools)
    ensures
        step_models(final(plan)@) == step_models(old(plan)@) + package_steps(*tools),
{
    let ghost before = step_models(plan@);
    add_step(plan, tools.apt_get, "Remove apt packages", REMOVE_APT_PACKAGES);
    add_step(plan, tools.apt_get, "Remove apt repo + keyring", REMOVE_APT_REPOSITORY);
    add_step(plan, tools.dnf && !tools.apt_get, "Remove dnf packages", REMOVE_DNF_PACKAGES);
    add_step(plan, tools.dnf && !tools.apt_get, "Remove dnf repo", REMOVE_DNF_REPOSITORY);
    let command: String = remove_pacman_packages_cmd();
    add_step(plan, tools.pacman && !tools.apt_get && !tools.dnf, "Remove pacman packages", command.as_str());
    add_step(plan, tools.pacman && !tools.apt_get && !tools.dnf, "Remove old pacman repo entry", REMOVE_PACMAN_REPOSITORY);
    assert(step_models(plan@) =~= before + package_steps(*tools));
}

/// Adds the steps that remove files outside the packages, short of the enrolled faces.
fn add_file_steps(plan: &mut Vec<(&'static str, String)>, tools: &Tools)
    ensures
        step_models(final(plan)@) == step_models(old(plan)@) + file_steps(*tools),
{
    let ghost before = step_models(plan@);
    add_step(plan, tools.semodule, "Remove SELinux policy", REMOVE_SELINUX_POLICY);
    let command: String = remove_unmanaged_install_artifacts_cmd();
    add_step(plan, true, "Remove unmanaged development links/files", command.as_str());
    add_step(plan, true, "Remove gaze core dumps", REMOVE_CORE_DUMPS);
    add_step(plan, true, "Remove model cache", REMOVE_MODEL_CACHE);
    add_step(plan, true, "Remove config", REMOVE_CONFIG);
    assert(step_models(plan@) =~= before + file_steps(*tools));
}

/// Adds the steps that bring the system up to date at the end.
fn add_closing_steps(plan: &mut Vec<(&'static str, String)>)
    ensures
        step_models(final(plan)@) == step_models(old(plan)@) + closing_steps(),
{
    let ghost before = step_models(plan@);
    let command: String = refresh_gnome_system_settings_cmd();
    add_step(plan, true, "Refresh GNOME system settings", command.as_str());
    add_step(plan, true, "Reload systemd", RELOAD_SYSTEMD);
    assert(step_models(plan@) =~= before + closing_steps());
}

/// The plan of an uninstallation: what is done, and the shell command that does it.
pub fn build_uninstall_plan(tools: &Tools, keep_data: bool) -> (r: Vec<(&'static str, String)>)
    ensures
        step_models(r@) == uninstall_steps(*tools, keep_data),
{
    let mut plan: Vec<(&'static str, String)> = Vec::new();
    add_session_steps(&mut plan, tools);
    add_package_steps(&mut plan, tools);
    add_file_steps(&mut plan, tools);
    add_step(&mut plan, !keep_data, "Remove enrolled face data", REMOVE_FACE_DATA);
    add_closing_steps(&mut plan);
    assert(step_models(plan@) =~= uninstall_steps(*tools, keep_data));
    plan
}

/// The number of a step in the list of a plan, two places wide, and a full stop.
pub open spec fn number_text(n: nat) -> Seq<char> {
    if n < 10 {
        " "@ + decimal_text(n) + "."@
    } else {
        decimal_text(n) + "."@
    }
}

/// The numbers of a plan of up to 99 steps are as wide as each other, end with a full stop,
/// and read back as what they are.
pub proof fn step_numbers_are_aligned(n: nat, other: nat)
    requires
        n < 100,
    ensures
        number_text(n).len() == 3,
        number_text(n)[2] == '.',
        trimmed(number_text(n).drop_last()) == decimal_text(n),
        number_text(n) == number_text(other) ==> n == other,
{
    reveal_strlit(" ");
    reveal_strlit(".");
    reveal_with_fuel(decimal_text, 3);
    lemma_step_digits(n);
    if number_text(n) == number_text(other) {
        lemma_step_digits(other);
        assert(number_text(n).drop_last() == number_text(other).drop_last());
        written_numbers_differ(n, other);
    }
}

proof fn lemma_step_digits(n: nat)
    ensures
        trimmed(number_text(n).drop_last()) == decimal_text(n),
{
    reveal_strlit(" ");
    reveal_strlit(".");
    lemma_written_without_space(n);
    let text = number_text(n).drop_last();
    if n < 10 {
        assert(text =~= " "@ + decimal_text(n));
        assert(text.drop_first() =~= decimal_text(n));
        assert(is_space(text[0]));
    } else {
        assert(text =~= decimal_text(n));
    }
    lemma_nothing_to_trim(decimal_text(n));
}

/// The number of a step, as the list of a plan shows it.
pub fn step_number(n: usize) -> (r: String)
    ensures
        r@ == number_text(n as nat),
{
    let digits: String = decimal(n as u64);
    let mut text: String = if n < 10 {
        joined(" ", digits.as_str())
    } else {
        digits
    };
    text.append(".");
    text
}

/// What an uninstallation does next.
#[derive(Clone, Copy, Debug, PartialEq, Eq, Structural)]
pub enum UninstallStep {
    /// Only the plan was asked for.
    DryRun,
    /// Ask whether to go on.
    Ask,
    /// Run the plan.
    Run,
    /// Stop without a change.
    Cancelled,
}

/// What follows the plan.
pub fn after_plan(yes: bool, dry_run: bool) -> (r: UninstallStep)
    ensures
        r == (if dry_run {
            UninstallStep::DryRun
        } else if yes {
            UninstallStep::Run
        } else {
            UninstallStep::Ask
        }),
        dry_run <==> r is DryRun,
        r is Run <==> yes && !dry_run,
{
    if dry_run {
        UninstallStep::DryRun
    } else if yes {
        UninstallStep::Run
    } else {
        UninstallStep::Ask
    }
}

/// What follows the question whether to go on; only the second answer is a yes.
pub fn after_question(selected: usize) -> (r: UninstallStep)
    ensures
        r == (if selected == 1 {
            UninstallStep::Run
        } else {
            UninstallStep::Cancelled
        }),
        r is Run <==> selected == 1,
        r is Cancelled <==> selected != 1,
{
    if selected == 1 {
        UninstallStep::Run
    } else {
        UninstallStep::Cancelled
    }
}

/// What is said of the enrolled faces before the plan runs.
pub fn data_notice(keep_data: bool) -> (r: &'static str)
    ensures
        r@ == (if keep_data {
            "/var/lib/gaze (enrolled faces) will be preserved."@
        } else {
            "This removes enrolled face data. Pass --keep-data to preserve it."@
        }),
        keep_data ==> contains_text(r@, "will be preserved"@),
        !keep_data ==> contains_text(r@, "removes enrolled face data"@),
{
    proof {
        reveal_strlit("/var/lib/gaze (enrolled faces) will be preserved.");
        reveal_strlit("This removes enrolled face data. Pass --keep-data to preserve it.");
        reveal_strlit("will be preserved");
        reveal_strlit("removes enrolled face data");
        let kept = "/var/lib/gaze (enrolled faces) will be preserved."@;
        assert(kept.subrange(31, 48) =~= "will be preserved"@);
        assert(stands_at(kept, "will be preserved"@, 31));
        let removed = "This removes enrolled face data. Pass --keep-data to preserve it."@;
        assert(removed.subrange(5, 31) =~= "removes enrolled face data"@);
        assert(stands_at(removed, "removes enrolled face data"@, 5));
    }
    if keep_data {
        "/var/lib/gaze (enrolled faces) will be preserved."
    } else {
        "This removes enrolled face data. Pass --keep-data to preserve it."
    }
}

/// How one command of the plan ended.
#[derive(Clone, Debug)]
pub enum CommandEnd {
    /// It ran; the code is missing where a signal ended it.
    Exited { code: Option<i32> },
    /// It could not be started; the text says why.
    NotStarted(String),
}

/// A whole number in decimal, with a sign if it is negative.
pub open spec fn signed_text(n: int) -> Seq<char> {
    if n < 0 {
        "-"@ + decimal_text((-n) as nat)
    } else {
        decimal_text(n as nat)
    }
}

fn signed(n: i32) -> (r: String)
    ensures
        r@ == signed_text(n as int),
{
    if n < 0 {
        let digits: String = decimal((-(n as i64)) as u64);
        joined("-", digits.as_str())
    } else {
        decimal(n as u64)
    }
}

/// What is said of a command that ended: whether it is done, and a note.
pub open spec fn end_note(end: CommandEnd) -> (bool, Seq<char>) {
    match end {
        CommandEnd::Exited { code } => match code {
            Some(c) => if c == 0 {
                (true, "done"@)
            } else {
                (false, "step exited with "@ + signed_text(c as int) + " (continuing)"@)
            },
            None => (false, "step exited with "@ + signed_text(-1) + " (continuing)"@),
        },
        CommandEnd::NotStarted(why) => (false, "failed to spawn: "@ + why@ + " (continuing)"@),
    }
}

/// A command is done exactly if it ended with zero. Otherwise its code is shown, minus one
/// where a signal ended it, or the reason why it could not be started, and the plan goes on.
pub proof fn commands_are_done_at_zero(end: CommandEnd)
    ensures
        end_note(end).0 <==> end == (CommandEnd::Exited { code: Some(0) }),
        end_note(end).0 ==> end_note(end).1 == "done"@,
        !end_note(end).0 ==> stands_at(
            end_note(end).1,
            "(continuing)"@,
            end_note(end).1.len() - 12,
        ),
        end matches CommandEnd::Exited { code: Some(code) } ==> code != 0 ==> contains_text(
            end_note(end).1,
            signed_text(code as int),
        ),
        end matches CommandEnd::Exited { code: None } ==> contains_text(end_note(end).1, "-1"@),
        end matches CommandEnd::NotStarted(why) ==> contains_text(end_note(end).1, why@),
{
    reveal_strlit("step exited with ");
    reveal_strlit(" (continuing)");
    reveal_strlit("(continuing)");
    reveal_strlit("failed to spawn: ");
    reveal_strlit("-1");
    reveal_strlit("-");
    let note = end_note(end).1;
    match end {
        CommandEnd::Exited { code } => {
            let shown = signed_text(
                match code {
                    Some(c) => c as int,
                    None => -1,
                },
            );
            assert(signed_text(-1) =~= "-1"@);
            if code != Some(0i32) {
                assert(note.subrange(17, 17 + shown.len() as int) =~= shown);
                assert(stands_at(note, shown, 17));
                assert(note.subrange(note.len() - 12, note.len() as int) =~= "(continuing)"@);
            }
        },
        CommandEnd::NotStarted(why) => {
            assert(note.subrange(17, 17 + why@.len() as int) =~= why@);
            assert(stands_at(note, why@, 17));
            assert(note.subrange(note.len() - 12, note.len() as int) =~= "(continuing)"@);
        },
    }
}

/// Negative numbers alone are written with a sign, and what follows it is the number's size;
/// two numbers are written alike only if they are the same.
pub proof fn signs_are_for_negative_numbers(n: int, other: int)
    ensures
        n < 0 <==> signed_text(n)[0] == '-',
        n >= 0 ==> signed_text(n) == decimal_text(n as nat),
        n < 0 ==> signed_text(n).drop_first() == decimal_text((-n) as nat),
        signed_text(n) == signed_text(other) ==> n == other,
{
    reveal_strlit("-");
    lemma_written_without_space((if n < 0 { -n } else { n }) as nat);
    lemma_written_without_space((if other < 0 { -other } else { other }) as nat);
    if n < 0 {
        assert(signed_text(n).drop_first() =~= decimal_text((-n) as nat));
    }
    if other < 0 {
        assert(signed_text(other).drop_first() =~= decimal_text((-other) as nat));
    }
    if signed_text(n) == signed_text(other) {
        if n < 0 {
            written_numbers_differ((-n) as nat, (-other) as nat);
        } else {
            written_numbers_differ(n as nat, other as nat);
        }
    }
}

/// What is said of a command that ended; a failed one does not stop the plan.
pub fn command_note(end: &CommandEnd) -> (r: (bool, String))
    ensures
        (r.0, r.1@) == end_note(*end),
{
    match end {
        CommandEnd::Exited { code } => {
            let shown: i32 = match code {
                Some(c) => {
                    if *c == 0 {
                        return (true, "done".to_owned());
                    }
                    *c
                },
                None => -1,
            };
            let text: String = signed(shown);
            let mut note: String = joined("step exited with ", text.as_str());
            note.append(" (continuing)");
            (false, note)
        },
        CommandEnd::NotStarted(why) => {
            let mut note: String = joined("failed to spawn: ", why.as_str());
            note.append(" (continuing)");
            (false, note)
        },
    }
}

} // verus!
