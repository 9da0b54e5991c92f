//! The desktop session (the unlocked vault, its file and its password) and the desktop
//! settings.
use vstd::prelude::*;

use crate::entry::DEFAULT_ENTRY_REVISION_LIMIT;
use crate::secret::{zeroizing_text, ZeroizingText};
use crate::types::{entries_view, EntryModel, VaultEntry, VaultMeta};

verus! {

/// Trusted: `std::time::Instant`, a reading of the monotonic clock.
#[verifier::external_type_specification]
#[verifier::external_body]
pub struct ExInstant(std::time::Instant);

/// Trusted: `Instant::now`, the current reading of the monotonic clock. Nothing is stated of
/// it.
#[verifier::external_body]
fn instant_now() -> std::time::Instant {
    std::time::Instant::now()
}

/// The unlocked vault of the desktop shell, if any.
pub struct SessionState {
    pub master_password: Option<ZeroizingText>,
    pub vault_path: Option<String>,
    pub entries: Vec<VaultEntry>,
    pub meta: Option<VaultMeta>,
    pub last_active: Option<std::time::Instant>,
}

/// Whether a session holds everything a command on the vault needs: its metadata, its file
/// and its password.
pub open spec fn is_unlocked(s: &SessionState) -> bool {
    s.meta is Some && s.vault_path is Some && s.master_password is Some
}

/// The master password a session holds.
pub open spec fn session_password(s: &SessionState) -> Seq<char> {
    zeroizing_text(s.master_password->0)
}

/// The entries a session holds.
pub open spec fn session_entries(s: &SessionState) -> Seq<EntryModel> {
    entries_view(s.entries@)
}

impl Default for SessionState {
    /// A locked session.
    fn default() -> (r: Self)
        ensures
            r.master_password is None,
            r.vault_path is None,
            r.entries@.len() == 0,
            r.meta is None,
            r.last_active is None,
    {
        SessionState {
            master_password: None,
            vault_path: None,
            entries: Vec::new(),
            meta: None,
            last_active: None,
        }
    }
}

impl SessionState {
    /// Holds an opened vault: its file, password, metadata and entries; marks it active.
    pub fn unlock(&mut self, vault_path: String, master_password: String, meta: VaultMeta, entries: Vec<VaultEntry>)
        ensures
            is_unlocked(final(self)),
            final(self).vault_path matches Some(p) && p@ == vault_path@,
            session_password(final(self)) == master_password@,
            final(self).meta matches Some(m) && m@ == meta@,
            final(self).entries@ == entries@,
            final(self).last_active is Some,
    {
        self.master_password = Some(ZeroizingText::new(master_password));
        self.vault_path = Some(vault_path);
        self.entries = entries;
        self.meta = Some(meta);
        self.touch();
    }

    /// Forgets the vault: password, file, entries, metadata and activity. Every entry is
    /// wiped before it is dropped; the password's holder wipes itself.
    pub fn lock(&mut self)
        ensures
            final(self).master_password is None,
            final(self).vault_path is None,
            final(self).entries@.len() == 0,
            final(self).meta is None,
            final(self).last_active is None,
    {
        self.master_password = None;
        self.vault_path = None;
        crate::wipe::zeroize_entries(&mut self.entries);
        self.meta = None;
        self.last_active = None;
    }

    /// Records activity now.
    pub fn touch(&mut self)
        ensures
            final(self).master_password == old(self).master_password,
            final(self).vault_path == old(self).vault_path,
            final(self).entries == old(self).entries,
            final(self).meta == old(self).meta,
            final(self).last_active is Some,
    {
        self.last_active = Some(instant_now());
    }
}

/// The desktop colour theme.
#[derive(Debug, Clone, Copy, PartialEq, Eq, Structural)]
pub enum Theme {
    Paper,
    Ink,
}

/// Desktop settings.
#[derive(Debug, Clone, Copy, PartialEq, Eq, Structural)]
pub struct Settings {
    pub auto_lock_timeout_minutes: Option<u64>,
    pub clipboard_clear_seconds: Option<u64>,
    pub theme: Theme,
    pub font_size: u8,
    pub entry_revision_limit: usize,
}

impl Default for Settings {
    /// Lock after 15 idle minutes, clear the clipboard after 30 seconds, the paper theme at
    /// 13 points, and the default revision limit.
    fn default() -> (r: Self)
        ensures
            r.auto_lock_timeout_minutes == Some(15u64),
            r.clipboard_clear_seconds == Some(30u64),
            r.theme == Theme::Paper,
            r.font_size == 13,
            r.entry_revision_limit == DEFAULT_ENTRY_REVISION_LIMIT,
    {
        Settings {
            auto_lock_timeout_minutes: Some(15),
            clipboard_clear_seconds: Some(30),
            theme: Theme::Paper,
            font_size: 13,
            entry_revision_limit: DEFAULT_ENTRY_REVISION_LIMIT,
        }
    }
}

} // verus!
