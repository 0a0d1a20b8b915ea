//! Migrations of the schema: each gets a directory of its own below the
//! migrations root, numbered by how many are there already.

use crate::files::{listing, DirectoryEntry};
use crate::migration::{
    allocate_migration, allocated, count_directories, count_subdirectories, MigrationDirectory,
};
use vstd::prelude::*;

verus! {

/// The directory that holds one subdirectory per migration.
pub const MIGRATIONS_ROOT: &'static str = "backend/prisma/migrations";

/// The number of the next migration, given the listing of the migrations
/// root: the number of subdirectories in it.
pub fn get_migration_number(entries: &Vec<DirectoryEntry>) -> (number: usize)
    ensures
        number == count_directories(listing(entries@)),
{
    count_subdirectories(entries)
}

/// The migration called `name`, the next one below a migrations root with
/// the listing `entries`. Its `up` and `down` files start out empty.
pub fn create(name: &str, entries: &Vec<DirectoryEntry>) -> (migration: MigrationDirectory)
    ensures
        migration@ == allocated(
            count_directories(listing(entries@)),
            name@,
            Seq::empty(),
            Seq::empty(),
        ),
{
    let migration_number = get_migration_number(entries);
    proof {
        reveal_strlit("");
        assert(""@ =~= Seq::<char>::empty());
    }
    allocate_migration(migration_number, name, "", "")
}

} // verus!
