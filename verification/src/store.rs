//! Model of the locally persisted version marker: a single optional string,
//! read from disk once per run by the surrounding program and mutated only
//! through the decisions this component makes. `ensure_default` reports which
//! filesystem effects (directory creation, file write) the caller must
//! perform, so that a run performs at most one of each.

use vstd::prelude::*;
use vstd::string::StringExecFns;

verus! {

/// The value `ensure_default` yields for a given marker state.
pub open spec fn ensured_version(marker: Option<Seq<char>>, default: Seq<char>) -> Seq<char> {
    match marker {
        Some(m) => m,
        None => default,
    }
}

/// The marker state after `ensure_default`.
pub open spec fn ensured_marker(marker: Option<Seq<char>>, default: Seq<char>) -> Option<
    Seq<char>,
> {
    Some(ensured_version(marker, default))
}

/// Whether `ensure_default` writes a default marker (and creates its
/// directory): exactly when no marker exists yet.
pub open spec fn ensure_writes(marker: Option<Seq<char>>) -> bool {
    marker is None
}

/// The filesystem effects one store operation asks its caller to perform.
pub struct StoreEffect {
    pub create_dir: bool,
    pub write_file: bool,
}

/// The version marker as the run sees it: `None` before the first run on a
/// fresh machine, `Some` of the persisted string afterwards.
pub struct LocalVersionStore {
    marker: Option<String>,
}

impl LocalVersionStore {
    /// The marker's current content.
    pub closed spec fn marker(self) -> Option<Seq<char>> {
        match self.marker {
            Some(m) => Some(m@),
            None => None,
        }
    }

    /// Build the model from what a read of the marker file found.
    pub fn new(existing: Option<String>) -> (s: LocalVersionStore)
        ensures
            s.marker() == (match existing {
                Some(m) => Some(m@),
                None => None::<Seq<char>>,
            }),
    {
        LocalVersionStore { marker: existing }
    }

    /// The stored marker, if the file exists.
    pub fn read(&self) -> (r: Option<String>)
        ensures
            match r {
                Some(m) => self.marker() == Some(m@),
                None => self.marker() is None,
            },
    {
        match &self.marker {
            Some(m) => Some(m.clone()),
            None => None,
        }
    }

    /// If no marker exists, record `default` as the marker and ask the caller
    /// for one directory creation and one file write; if one exists, return
    /// its content unchanged and ask for no filesystem effect at all.
    pub fn ensure_default(&mut self, default: &str) -> (r: (String, StoreEffect))
        ensures
            final(self).marker() == ensured_marker(old(self).marker(), default@),
            r.0@ == ensured_version(old(self).marker(), default@),
            r.1.create_dir == ensure_writes(old(self).marker()),
            r.1.write_file == ensure_writes(old(self).marker()),
    {
        match &self.marker {
            Some(m) => {
                let value = m.clone();
                (value, StoreEffect { create_dir: false, write_file: false })
            },
            None => {
                let value = String::from_str(default);
                self.marker = Some(String::from_str(default));
                (value, StoreEffect { create_dir: true, write_file: true })
            },
        }
    }

    /// Overwrite the marker with `version`; the caller performs the one
    /// corresponding file write.
    pub fn write(&mut self, version: &str)
        ensures
            final(self).marker() == Some(version@),
    {
        self.marker = Some(String::from_str(version));
    }
}

/// Law: ensuring a default is idempotent. After one `ensure_default`, a second
/// call with the same default returns the same value and asks for no directory
/// creation and no file write — so two calls with no write in between perform
/// at most one directory creation and one file write in all.
pub proof fn lemma_ensure_default_idempotent(marker: Option<Seq<char>>, default: Seq<char>)
    ensures
        ensured_version(ensured_marker(marker, default), default) == ensured_version(
            marker,
            default,
        ),
        ensured_marker(ensured_marker(marker, default), default) == ensured_marker(
            marker,
            default,
        ),
        !ensure_writes(ensured_marker(marker, default)),
{
}

} // verus!
