//! The commands of an uninstallation, read for the directory of the enrolled faces: one
//! command names it and no other does.

use crate::text::{contains_text, stands_at};
use crate::uninstall::{
    REFRESH_GNOME_SYSTEM_SETTINGS, RELOAD_SYSTEMD, REMOVE_APT_PACKAGES, REMOVE_APT_REPOSITORY,
    REMOVE_ARCH_PAM_CONFIGURATION, REMOVE_CONFIG, REMOVE_CORE_DUMPS, REMOVE_DEBIAN_PAM_PROFILE,
    REMOVE_DNF_PACKAGES, REMOVE_DNF_REPOSITORY, REMOVE_FACE_DATA, REMOVE_GDM_DCONF_OVERRIDES,
    REMOVE_HYPRLOCK_REFERENCES, REMOVE_MODEL_CACHE, REMOVE_PACMAN_PACKAGES,
    REMOVE_PACMAN_REPOSITORY, REMOVE_SELINUX_POLICY, REMOVE_UNMANAGED_INSTALL_ARTIFACTS,
    REMOVE_USER_EXTENSIONS, RESET_GNOME_USER_SETTINGS, RESTORE_AUTHSELECT, STOP_DAEMON,
    UNINSTALL_GNOME_EXTENSION,
};
use vstd::prelude::*;

verus! {

/// The command names the directory of the enrolled faces.
pub open spec fn names_face_data(command: Seq<char>) -> bool {
    contains_text(command, "/var/lib/gaze"@)
}

/// A text without the middle of the directory's name does not name it.
proof fn lemma_without_middle(command: Seq<char>)
    requires
        forall|i: int|
            0 <= i && i + 3 < command.len() ==> !(#[trigger] command[i] == 'b' && command[i + 1]
                == '/' && command[i + 2] == 'g' && command[i + 3] == 'a'),
    ensures
        !names_face_data(command),
{
    reveal_strlit("/var/lib/gaze");
    let name = "/var/lib/gaze"@;
    if names_face_data(command) {
        let i = choose|i: int| stands_at(command, name, i);
        let found = command.subrange(i, i + 13);
        assert(found[7] == command[i + 7] && found[8] == command[i + 8]);
        assert(found[9] == command[i + 9] && found[10] == command[i + 10]);
    }
}

/// The command that removes the enrolled faces names their directory.
pub proof fn lemma_face_data_is_named()
    ensures
        names_face_data(REMOVE_FACE_DATA@),
{
    reveal_strlit("sudo rm -rf /var/lib/gaze");
    reveal_strlit("/var/lib/gaze");
    assert(REMOVE_FACE_DATA@.subrange(12, 25) =~= "/var/lib/gaze"@);
    assert(stands_at(REMOVE_FACE_DATA@, "/var/lib/gaze"@, 12));
}

proof fn lemma_reset_gnome_user_settings_spares_faces()
    ensures
        !names_face_data(RESET_GNOME_USER_SETTINGS@),
{
    reveal_strlit("if command -v getent >/dev/null 2>&1 && command -v dbus-run-session >/dev/null 2>&1; then \
    getent passwd | while IFS=: read -r user _ uid _ _ home _; do { [ \"$uid\" -ge 1000 ] \
    2>/dev/null || [ \"$user\" = gdm ] || [ \"$user\" = gdm3 ] || [ \"$user\" = Debian-gdm ]; } || \
    continue; [ -d \"$home\" ] || continue; dconf_profile=\"\"; case \"$user\" in \
    gdm|gdm3|Debian-gdm) dconf_profile=\"DCONF_PROFILE=gdm\" ;; esac; sudo -u \"$user\" env \
    HOME=\"$home\" $dconf_profile dbus-run-session sh -c 'EXT_ID=\"gaze@gundulabs.com\"; if \
    command -v gsettings >/dev/null 2>&1; then current=$(gsettings get org.gnome.shell \
    enabled-extensions 2>/dev/null || true); case \"$current\" in *\"$EXT_ID\"*) next=$(printf \
    \"%s\" \"$current\" | sed \"s/\\047$EXT_ID\\047, //; s/, \\047$EXT_ID\\047//; \
    s/\\047$EXT_ID\\047//\"); gsettings set org.gnome.shell enabled-extensions \"$next\" \
    2>/dev/null || true;; esac; gsettings reset-recursively org.gnome.shell.extensions.gaze \
    2>/dev/null || true; fi; if command -v dconf >/dev/null 2>&1; then dconf reset -f \
    /org/gnome/shell/extensions/gaze/ 2>/dev/null || true; fi' || true; done; fi");
    lemma_without_middle(RESET_GNOME_USER_SETTINGS@);
}

proof fn lemma_remove_gdm_dconf_overrides_spares_faces()
    ensures
        !names_face_data(REMOVE_GDM_DCONF_OVERRIDES@),
{
    reveal_strlit("sudo rm -f /etc/dconf/db/gdm.d/00-gaze-defaults* /etc/dconf/db/gdm.d/99-gaze* && if \
    command -v dconf >/dev/null 2>&1; then sudo dconf update >/dev/null 2>&1 || true; fi");
    lemma_without_middle(REMOVE_GDM_DCONF_OVERRIDES@);
}

proof fn lemma_restore_authselect_spares_faces()
    ensures
        !names_face_data(RESTORE_AUTHSELECT@),
{
    reveal_strlit("if [ -f /etc/gaze/authselect.previous ]; then profile=$(sudo sed -n 's/^Profile \
    ID:[[:space:]]*//p' /etc/gaze/authselect.previous); features=$(sudo sed -n 's/^- //p' \
    /etc/gaze/authselect.previous | tr '\\n' ' '); if [ -n \"$profile\" ]; then sudo authselect \
    select \"$profile\" $features --force 2>/dev/null || true; else sudo authselect select sssd \
    --force 2>/dev/null || true; fi; else sudo authselect select sssd --force 2>/dev/null || \
    true; fi");
    lemma_without_middle(RESTORE_AUTHSELECT@);
}

proof fn lemma_refresh_gnome_system_settings_spares_faces()
    ensures
        !names_face_data(REFRESH_GNOME_SYSTEM_SETTINGS@),
{
    reveal_strlit("if command -v dconf >/dev/null 2>&1; then sudo dconf update >/dev/null 2>&1 || true; fi; \
    if command -v glib-compile-schemas >/dev/null 2>&1; then sudo glib-compile-schemas \
    /usr/share/glib-2.0/schemas >/dev/null 2>&1 || true; fi");
    lemma_without_middle(REFRESH_GNOME_SYSTEM_SETTINGS@);
}

proof fn lemma_remove_unmanaged_install_artifacts_spares_faces()
    ensures
        !names_face_data(REMOVE_UNMANAGED_INSTALL_ARTIFACTS@),
{
    reveal_strlit(r#"owned_by_pkg() {
          p=$1;
          if command -v pacman >/dev/null 2>&1; then pacman -Qo "$p" >/dev/null 2>&1 && return 0; fi;
          if command -v dpkg-query >/dev/null 2>&1; then dpkg-query -S "$p" >/dev/null 2>&1 && return 0; fi;
          if command -v rpm >/dev/null 2>&1; then rpm -qf "$p" >/dev/null 2>&1 && return 0; fi;
          return 1;
        };
        remove_if_unmanaged() {
          p=$1;
          [ -e "$p" ] || [ -L "$p" ] || return 0;
          if [ -L "$p" ] || ! owned_by_pkg "$p"; then
            sudo rm -rf "$p";
          fi;
        };
        for p in \
          /usr/bin/gaze /usr/bin/gazed /usr/bin/gaze-gui \
          /usr/local/bin/gaze /usr/local/bin/gazed /usr/local/bin/gaze-gui \
          /usr/lib/security/pam_gaze.so /usr/lib/security/pam_gaze_grosshack.so \
          /usr/lib64/security/pam_gaze.so /usr/lib64/security/pam_gaze_grosshack.so \
          /usr/share/glib-2.0/schemas/org.gnome.shell.extensions.gaze.gschema.xml \
          /usr/share/polkit-1/actions/com.gundulabs.gaze.policy \
          /usr/share/gnome-shell/extensions/gaze@gundulabs.com/extension.js \
          /usr/share/gnome-shell/extensions/gaze@gundulabs.com/metadata.json \
          /usr/share/gnome-shell/extensions/gaze@gundulabs.com/prefs.js
        do remove_if_unmanaged "$p"; done;
        for p in /lib/*/security/pam_gaze.so /lib/*/security/pam_gaze_grosshack.so /usr/lib/*/security/pam_gaze.so /usr/lib/*/security/pam_gaze_grosshack.so; do
          [ -e "$p" ] || [ -L "$p" ] || continue;
          remove_if_unmanaged "$p";
        done;
        sudo rmdir /usr/share/gnome-shell/extensions/gaze@gundulabs.com 2>/dev/null || true;
        sudo rm -rf /etc/systemd/system/gazed.service.d;
        sudo rm -rf /usr/local/share/gaze-dev;
        sudo systemctl daemon-reload >/dev/null 2>&1 || true;
        if command -v glib-compile-schemas >/dev/null 2>&1; then sudo glib-compile-schemas /usr/share/glib-2.0/schemas >/dev/null 2>&1 || true; fi"#);
    lemma_without_middle(REMOVE_UNMANAGED_INSTALL_ARTIFACTS@);
}

proof fn lemma_remove_arch_pam_configuration_spares_faces()
    ensures
        !names_face_data(REMOVE_ARCH_PAM_CONFIGURATION@),
{
    reveal_strlit("for flag in /etc/gaze/pam-arch.configured /etc/gaze/pam-arch.dev-configured; do [ -f \
    \"$flag\" ] || continue; while IFS= read -r f; do [ -f \"$f\" ] || continue; sudo sed -i \
    '/pam_gaze/d' \"$f\" || true; done < \"$flag\"; done; sudo sed -i '/pam_gaze/d' \
    /etc/pam.d/sudo 2>/dev/null || true; for flag in /etc/gaze/pam-arch.polkit-configured \
    /etc/gaze/pam-arch.polkit-dev-configured; do [ -f \"$flag\" ] || continue; while IFS= read \
    -r f; do sudo rm -f \"$f\" || true; done < \"$flag\"; sudo rm -f \"$flag\" || true; done");
    lemma_without_middle(REMOVE_ARCH_PAM_CONFIGURATION@);
}

proof fn lemma_remove_pacman_packages_spares_faces()
    ensures
        !names_face_data(REMOVE_PACMAN_PACKAGES@),
{
    reveal_strlit("for base in gaze gaze-gui gaze-gnome-extension gaze-hyprlock gaze-bin gaze-gui-bin \
    gaze-gnome-extension-bin gaze-hyprlock-bin; do for pkg in \"$base-debug\" \"$base\"; do if \
    pacman -Q \"$pkg\" >/dev/null 2>&1; then sudo pacman -Rns --noconfirm \"$pkg\" || true; fi; \
    done; done");
    lemma_without_middle(REMOVE_PACMAN_PACKAGES@);
}

proof fn lemma_uninstall_gnome_extension_spares_faces()
    ensures
        !names_face_data(UNINSTALL_GNOME_EXTENSION@),
{
    reveal_strlit("gnome-extensions disable gaze@gundulabs.com 2>/dev/null || true; gnome-extensions \
    uninstall gaze@gundulabs.com 2>/dev/null || true");
    lemma_without_middle(UNINSTALL_GNOME_EXTENSION@);
}

proof fn lemma_remove_user_extensions_spares_faces()
    ensures
        !names_face_data(REMOVE_USER_EXTENSIONS@),
{
    reveal_strlit("for d in /home/*/.local/share/gnome-shell/extensions \
    /root/.local/share/gnome-shell/extensions; do [ -d \"$d/gaze@gundulabs.com\" ] || continue; \
    sudo rm -rf \"$d/gaze@gundulabs.com\"; done");
    lemma_without_middle(REMOVE_USER_EXTENSIONS@);
}

proof fn lemma_remove_debian_pam_profile_spares_faces()
    ensures
        !names_face_data(REMOVE_DEBIAN_PAM_PROFILE@),
{
    reveal_strlit("sudo pam-auth-update --package --remove gaze 2>/dev/null || true");
    lemma_without_middle(REMOVE_DEBIAN_PAM_PROFILE@);
}

proof fn lemma_remove_hyprlock_references_spares_faces()
    ensures
        !names_face_data(REMOVE_HYPRLOCK_REFERENCES@),
{
    reveal_strlit("for d in /home/*/.config/hypr /root/.config/hypr; do f=\"$d/hyprlock.conf\"; [ -f \"$f\" ] || \
    continue; sudo sed -i.gaze-uninstall-bak \
    '/^\\s*pam_module\\s*=\\s*hyprlock-gaze\\(-simultaneous\\)\\?\\s*$/d' \"$f\" || true; done");
    lemma_without_middle(REMOVE_HYPRLOCK_REFERENCES@);
}

proof fn lemma_stop_daemon_spares_faces()
    ensures
        !names_face_data(STOP_DAEMON@),
{
    reveal_strlit("sudo systemctl disable --now gazed 2>/dev/null || true");
    lemma_without_middle(STOP_DAEMON@);
}

proof fn lemma_remove_apt_packages_spares_faces()
    ensures
        !names_face_data(REMOVE_APT_PACKAGES@),
{
    reveal_strlit("sudo apt-get remove --purge -y gaze gaze-gui gaze-gnome-extension gaze-hyprlock \
    2>/dev/null || true");
    lemma_without_middle(REMOVE_APT_PACKAGES@);
}

proof fn lemma_remove_apt_repository_spares_faces()
    ensures
        !names_face_data(REMOVE_APT_REPOSITORY@),
{
    reveal_strlit("sudo rm -f /etc/apt/sources.list.d/gundulabs.list \
    /usr/share/keyrings/gundulabs-archive-keyring.gpg && sudo apt-get update 2>/dev/null || \
    true");
    lemma_without_middle(REMOVE_APT_REPOSITORY@);
}

proof fn lemma_remove_dnf_packages_spares_faces()
    ensures
        !names_face_data(REMOVE_DNF_PACKAGES@),
{
    reveal_strlit("sudo dnf remove -y gaze gaze-gui gaze-gnome-extension gaze-hyprlock 2>/dev/null || true");
    lemma_without_middle(REMOVE_DNF_PACKAGES@);
}

proof fn lemma_remove_dnf_repository_spares_faces()
    ensures
        !names_face_data(REMOVE_DNF_REPOSITORY@),
{
    reveal_strlit("sudo rm -f /etc/yum.repos.d/gundulabs.repo");
    lemma_without_middle(REMOVE_DNF_REPOSITORY@);
}

proof fn lemma_remove_pacman_repository_spares_faces()
    ensures
        !names_face_data(REMOVE_PACMAN_REPOSITORY@),
{
    reveal_strlit("sudo sed -i '/^\\[gaze\\]/,/^$/d' /etc/pacman.conf && sudo rm -f \
    /etc/pacman.d/gaze-mirrorlist");
    lemma_without_middle(REMOVE_PACMAN_REPOSITORY@);
}

proof fn lemma_remove_selinux_policy_spares_faces()
    ensures
        !names_face_data(REMOVE_SELINUX_POLICY@),
{
    reveal_strlit("sudo semodule -r gaze-gdm-camera 2>/dev/null || true");
    lemma_without_middle(REMOVE_SELINUX_POLICY@);
}

proof fn lemma_remove_core_dumps_spares_faces()
    ensures
        !names_face_data(REMOVE_CORE_DUMPS@),
{
    reveal_strlit("[ -d /var/lib/systemd/coredump ] && sudo find /var/lib/systemd/coredump \\( -name \
    'core.gazed.*' -o -name 'core.gaze.*' -o -name 'core.gaze-gui.*' \\) -delete 2>/dev/null || \
    true");
    lemma_without_middle(REMOVE_CORE_DUMPS@);
}

proof fn lemma_remove_model_cache_spares_faces()
    ensures
        !names_face_data(REMOVE_MODEL_CACHE@),
{
    reveal_strlit("sudo rm -rf /var/cache/gaze");
    lemma_without_middle(REMOVE_MODEL_CACHE@);
}

proof fn lemma_remove_config_spares_faces()
    ensures
        !names_face_data(REMOVE_CONFIG@),
{
    reveal_strlit("sudo rm -rf /etc/gaze");
    lemma_without_middle(REMOVE_CONFIG@);
}

proof fn lemma_reload_systemd_spares_faces()
    ensures
        !names_face_data(RELOAD_SYSTEMD@),
{
    reveal_strlit("sudo systemctl daemon-reload");
    lemma_without_middle(RELOAD_SYSTEMD@);
}

/// No command but the one that removes the enrolled faces names their directory.
pub proof fn lemma_other_commands_spare_faces()
    ensures
        !names_face_data(RESET_GNOME_USER_SETTINGS@),
        !names_face_data(REMOVE_GDM_DCONF_OVERRIDES@),
        !names_face_data(RESTORE_AUTHSELECT@),
        !names_face_data(REFRESH_GNOME_SYSTEM_SETTINGS@),
        !names_face_data(REMOVE_UNMANAGED_INSTALL_ARTIFACTS@),
        !names_face_data(REMOVE_ARCH_PAM_CONFIGURATION@),
        !names_face_data(REMOVE_PACMAN_PACKAGES@),
        !names_face_data(UNINSTALL_GNOME_EXTENSION@),
        !names_face_data(REMOVE_USER_EXTENSIONS@),
        !names_face_data(REMOVE_DEBIAN_PAM_PROFILE@),
        !names_face_data(REMOVE_HYPRLOCK_REFERENCES@),
        !names_face_data(STOP_DAEMON@),
        !names_face_data(REMOVE_APT_PACKAGES@),
        !names_face_data(REMOVE_APT_REPOSITORY@),
        !names_face_data(REMOVE_DNF_PACKAGES@),
        !names_face_data(REMOVE_DNF_REPOSITORY@),
        !names_face_data(REMOVE_PACMAN_REPOSITORY@),
        !names_face_data(REMOVE_SELINUX_POLICY@),
        !names_face_data(REMOVE_CORE_DUMPS@),
        !names_face_data(REMOVE_MODEL_CACHE@),
        !names_face_data(REMOVE_CONFIG@),
        !names_face_data(RELOAD_SYSTEMD@),
{
    lemma_reset_gnome_user_settings_spares_faces();
    lemma_remove_gdm_dconf_overrides_spares_faces();
    lemma_restore_authselect_spares_faces();
    lemma_refresh_gnome_system_settings_spares_faces();
    lemma_remove_unmanaged_install_artifacts_spares_faces();
    lemma_remove_arch_pam_configuration_spares_faces();
    lemma_remove_pacman_packages_spares_faces();
    lemma_uninstall_gnome_extension_spares_faces();
    lemma_remove_user_extensions_spares_faces();
    lemma_remove_debian_pam_profile_spares_faces();
    lemma_remove_hyprlock_references_spares_faces();
    lemma_stop_daemon_spares_faces();
    lemma_remove_apt_packages_spares_faces();
    lemma_remove_apt_repository_spares_faces();
    lemma_remove_dnf_packages_spares_faces();
    lemma_remove_dnf_repository_spares_faces();
    lemma_remove_pacman_repository_spares_faces();
    lemma_remove_selinux_policy_spares_faces();
    lemma_remove_core_dumps_spares_faces();
    lemma_remove_model_cache_spares_faces();
    lemma_remove_config_spares_faces();
    lemma_reload_systemd_spares_faces();
}

} // verus!
