use vstd::prelude::*;
use crate::model::SessionId;
use crate::paths::{join, path_join};
use crate::text::{append_str, copy_string};

verus! {

/// Sessions stored as JSON files, one per session, in a directory.
pub struct FileSystemSessionRepository {
    storage_dir: String,
}

impl View for FileSystemSessionRepository {
    type V = Seq<char>;

    closed spec fn view(&self) -> Seq<char> {
        self.storage_dir@
    }
}

impl FileSystemSessionRepository {
    /// A repository over `storage_dir` (which the caller creates).
    pub fn new(storage_dir: String) -> (r: Self)
        ensures
            r@ == storage_dir@,
    {
        FileSystemSessionRepository { storage_dir }
    }

    /// The directory that holds the sessions.
    pub fn storage_dir(&self) -> (r: &String)
        ensures
            r@ == self@,
    {
        &self.storage_dir
    }

    /// The file of a session: `<id>.json` in the storage directory.
    pub fn get_path(&self, id: &SessionId) -> (r: String)
        ensures
            r@ == path_join(self@, id@ + ".json"@),
    {
        let mut name = copy_string(&id.value);
        append_str(&mut name, ".json");
        join(self.storage_dir.as_str(), name.as_str())
    }
}

} // verus!
