//! The storage location of the databases.
use vstd::prelude::*;
use crate::text::to_string_of;

verus! {

/// The directory of the databases: the snap data directory when the system runs as a snap,
/// `database` otherwise.
pub fn storage_dir(snap_data: Option<String>) -> (r: String)
    ensures
        r@ == match snap_data {
            Some(d) => d@,
            None => "database"@,
        },
{
    match snap_data {
        Some(d) => d,
        None => to_string_of("database"),
    }
}

/// The file name of the main database inside the storage directory.
pub const MAIN_DB_FILE: &'static str = "main.db";

} // verus!
