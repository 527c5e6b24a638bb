//! The trash store: the pair of directories holding relocated entries and
//! their metadata records, resolved once per run from the user's home
//! directory and read-only afterwards.

use vstd::prelude::*;

verus! {

/// The `files` directory of the trash store under a home directory.
pub open spec fn files_root_chars(home: Seq<char>) -> Seq<char> {
    home + "/.local/share/Trash/files"@
}

/// The `info` directory of the trash store under a home directory.
pub open spec fn info_root_chars(home: Seq<char>) -> Seq<char> {
    home + "/.local/share/Trash/info"@
}

/// The two directories of the trash store.  Constructed once per run;
/// relocations share it read-only.
pub struct TrashStore {
    /// where relocated entries land
    pub files_root: String,
    /// where their `.trashinfo` records land
    pub info_root: String,
}

impl TrashStore {
    /// Both roots lie under the same home directory.
    pub open spec fn wf(self) -> bool {
        exists|home: Seq<char>|
            self.files_root@ == files_root_chars(home) && self.info_root@ == info_root_chars(home)
    }

    /// The store rooted under the home directory `home`.
    pub fn from_home(home: &str) -> (s: TrashStore)
        ensures
            s.files_root@ == files_root_chars(home@),
            s.info_root@ == info_root_chars(home@),
            s.wf(),
    {
        let mut files = home.to_owned();
        files.append("/.local/share/Trash/files");
        let mut info = home.to_owned();
        info.append("/.local/share/Trash/info");
        let s = TrashStore { files_root: files, info_root: info };
        proof {
            assert(s.files_root@ == files_root_chars(home@) && s.info_root@ == info_root_chars(
                home@,
            ));
        }
        s
    }
}

/// Relies on `dirs_next::home_dir`: the user's home directory, if the system
/// reports one.  A home path that is not Unicode is treated as absent.
#[verifier::external_body]
fn home_dir_string() -> (r: Option<String>) {
    dirs_next::home_dir().and_then(|p| p.to_str().map(|s| s.to_owned()))
}

/// Locates the trash store under the user's home directory.  Failure to
/// resolve a home directory is a fatal configuration error for the run, so
/// the caller gets no store to work with.
pub fn locate_store() -> (r: Option<TrashStore>)
    ensures
        r matches Some(s) ==> s.wf(),
{
    match home_dir_string() {
        Some(home) => Some(TrashStore::from_home(home.as_str())),
        None => None,
    }
}

} // verus!
