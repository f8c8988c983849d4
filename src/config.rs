//! The singleton blog configuration record and its sparse patch.
use vstd::prelude::*;

use crate::error::AccessError;

verus! {

/// Statement that stores the one-way hash of `$pwd` as the password; the
/// plaintext never reaches the stored record.
pub const UPDATE_PASSWORD_QUERY: &'static str = "UPDATE config:bulog SET password = crypto::argon2::generate($pwd)";

/// Statement that compares `$pwd` against the stored password hash.
pub const VERIFY_PASSWORD_QUERY: &'static str = "RETURN crypto::argon2::compare((SELECT password FROM ONLY config:bulog).password, $pwd)";

/// Table of the configuration record.
pub const CONFIG_TABLE: &'static str = "config";

/// Fixed key of the one configuration record.
pub const CONFIG_KEY: &'static str = "bulog";

/// The blog's global configuration. `password` is write-only: whatever the
/// store holds, values read back carry it empty.
pub struct ConfigRecord {
    pub title: String,
    pub description: String,
    pub password: String,
}

/// Mathematical value of a `ConfigRecord`.
pub struct ConfigView {
    pub title: Seq<char>,
    pub description: Seq<char>,
    pub password: Seq<char>,
}

impl View for ConfigRecord {
    type V = ConfigView;

    open spec fn view(&self) -> ConfigView {
        ConfigView {
            title: self.title@,
            description: self.description@,
            password: self.password@,
        }
    }
}

/// A sparse update of a `ConfigRecord`: each field is either set or absent.
pub struct ConfigRecordOption {
    pub title: Option<String>,
    pub description: Option<String>,
    pub password: Option<String>,
}

/// Mathematical value of a `ConfigRecordOption`.
pub struct ConfigPatchView {
    pub title: Option<Seq<char>>,
    pub description: Option<Seq<char>>,
    pub password: Option<Seq<char>>,
}

/// The view of an optional string.
pub open spec fn opt_view(o: Option<String>) -> Option<Seq<char>> {
    match o {
        Some(s) => Some(s@),
        None => None,
    }
}

impl View for ConfigRecordOption {
    type V = ConfigPatchView;

    open spec fn view(&self) -> ConfigPatchView {
        ConfigPatchView {
            title: opt_view(self.title),
            description: opt_view(self.description),
            password: opt_view(self.password),
        }
    }
}

/// `new` where it is set, else `old`.
pub open spec fn pick<A>(new: Option<A>, old: A) -> A {
    match new {
        Some(v) => v,
        None => old,
    }
}

/// The stored record after the store merges `p` into `r`: each set field
/// replaces the stored one, each absent field keeps it.
pub open spec fn merge_config(r: ConfigView, p: ConfigPatchView) -> ConfigView {
    ConfigView {
        title: pick(p.title, r.title),
        description: pick(p.description, r.description),
        password: pick(p.password, r.password),
    }
}

/// What a read of the stored record `r` yields: everything but the password.
pub open spec fn read_config(r: ConfigView) -> ConfigView {
    ConfigView { title: r.title, description: r.description, password: Seq::empty() }
}

/// The record a fresh installation starts from.
pub open spec fn default_config() -> ConfigView {
    ConfigView {
        title: "bulog"@,
        description: "A sample blog program"@,
        password: Seq::empty(),
    }
}

impl Default for ConfigRecord {
    /// The configuration record of a blog that has just been set up.
    fn default() -> (r: ConfigRecord)
        ensures
            r@ == default_config(),
    {
        ConfigRecord {
            title: "bulog".to_owned(),
            description: "A sample blog program".to_owned(),
            password: String::new(),
        }
    }
}

impl ConfigRecord {
    /// The record as a read hands it out: the password is dropped.
    pub fn redacted(self) -> (r: ConfigRecord)
        ensures
            r@ == read_config(self@),
    {
        ConfigRecord { title: self.title, description: self.description, password: String::new() }
    }
}

impl ConfigRecordOption {
    /// A patch that sets nothing.
    pub fn empty() -> (p: ConfigRecordOption)
        ensures
            p.title is None,
            p.description is None,
            p.password is None,
    {
        ConfigRecordOption { title: None, description: None, password: None }
    }

    /// Splits off the password, which is hashed by its own statement and must
    /// never travel through the generic merge, from the rest of the patch.
    pub fn split_password(self) -> (r: (Option<String>, ConfigRecordOption))
        ensures
            opt_view(r.0) == self@.password,
            r.1@ == (ConfigPatchView { password: None, ..self@ }),
    {
        let ConfigRecordOption { title, description, password } = self;
        (password, ConfigRecordOption { title, description, password: None })
    }
}

/// The stored record after an update with `patch`: a set password is stored
/// as `hashed`, its one-way hash computed by the store, and the other set
/// fields are merged from the patch without its password.
pub open spec fn update_config_tx(stored: ConfigView, patch: ConfigPatchView, hashed: Seq<char>) -> ConfigView {
    let after_password = if patch.password is Some {
        ConfigView { password: hashed, ..stored }
    } else {
        stored
    };
    merge_config(after_password, ConfigPatchView { password: None, ..patch })
}

/// An update changes exactly the fields its patch sets: an absent field keeps
/// its stored value, a set one takes the patch's value (the password its hash).
pub proof fn lemma_update_changes_only_set(stored: ConfigView, patch: ConfigPatchView, hashed: Seq<char>)
    ensures
        patch.title is None ==> update_config_tx(stored, patch, hashed).title == stored.title,
        patch.description is None ==> update_config_tx(stored, patch, hashed).description
            == stored.description,
        patch.password is None ==> update_config_tx(stored, patch, hashed).password
            == stored.password,
        patch.title matches Some(t) ==> update_config_tx(stored, patch, hashed).title == t,
        patch.description matches Some(d) ==> update_config_tx(stored, patch, hashed).description
            == d,
        patch.password is Some ==> update_config_tx(stored, patch, hashed).password == hashed,
{
}

/// Whatever a patch set, reading the configuration back yields an empty
/// password.
pub proof fn lemma_password_never_read(stored: ConfigView, patch: ConfigPatchView, hashed: Seq<char>)
    ensures
        read_config(update_config_tx(stored, patch, hashed)).password == Seq::<char>::empty(),
        read_config(update_config_tx(stored, patch, hashed)).title == update_config_tx(
            stored,
            patch,
            hashed,
        ).title,
{
}

/// The result of reading the configuration: the record without its password,
/// or `Uninitialized` where the store holds none.
pub fn config_from_store(stored: Option<ConfigRecord>) -> (r: Result<ConfigRecord, AccessError>)
    ensures
        stored is None <==> r == Err::<ConfigRecord, AccessError>(AccessError::Uninitialized),
        stored matches Some(c) ==> r matches Ok(v) && v@ == read_config(c@),
{
    match stored {
        Some(c) => Ok(c.redacted()),
        None => Err(AccessError::Uninitialized),
    }
}

/// Whether a password check passed, given the store's answer to the
/// comparison; no answer counts as a mismatch.
pub fn password_matches(answer: Option<bool>) -> (r: bool)
    ensures
        r == (answer == Some(true)),
{
    match answer {
        Some(b) => b,
        None => false,
    }
}

} // verus!
