//! Tables keyed by a member's name and descriptor.
//!
//! A linked class finds its methods, its instance-field ordinals and its
//! static slots by the pair (name, descriptor). A table is a
//! `hashbrown::HashMap`; what it holds is named by [`table_entries`], and the
//! few operations the linker and the interpreter need are stated over that
//! name.

use hashbrown::HashMap;
use vstd::prelude::*;

verus! {

/// A member's key as contracts see it: its name and its descriptor.
pub type MemberKey = (Seq<char>, Seq<char>);

/// A member's key as a table stores it.
pub type MemberName = (String, String);

/// A table from members to numbers, kept in a `hashbrown::HashMap`. The map
/// itself is hidden from the verifier; what is known of a table is what the
/// operations below state of [`table_entries`].
#[verifier::external_body]
pub struct MemberTable {
    map: HashMap<MemberName, usize>,
}

/// The entries of a table: for each key it holds, the number stored under it.
pub uninterp spec fn table_entries(table: MemberTable) -> Map<MemberKey, usize>;

/// `hashbrown::HashMap::new`: a table without entries.
#[verifier::external_body]
pub(crate) fn table_new() -> (fresh: MemberTable)
    ensures
        table_entries(fresh) =~= Map::empty(),
{
    MemberTable { map: HashMap::new() }
}

/// `hashbrown::HashMap::get`: the number stored under the key, if the table
/// holds the key.
#[verifier::external_body]
pub(crate) fn table_get(table: &MemberTable, key: &MemberName) -> (r: Option<usize>)
    ensures
        r == table_lookup(table_entries(*table), (key.0@, key.1@)),
{
    table.map.get(key).copied()
}

/// `hashbrown::HashMap::insert`: afterwards the key maps to `value` and every
/// other key is as before. Returns what the key mapped to before, if anything.
#[verifier::external_body]
pub(crate) fn table_insert(table: &mut MemberTable, key: MemberName, value: usize) -> (previous:
    Option<usize>)
    ensures
        table_entries(*final(table)) == table_entries(*old(table)).insert((key.0@, key.1@), value),
        previous == table_lookup(table_entries(*old(table)), (key.0@, key.1@)),
{
    table.map.insert(key, value)
}

/// `Clone` for `hashbrown::HashMap`: a table with the same entries.
#[verifier::external_body]
pub(crate) fn table_clone(table: &MemberTable) -> (copy: MemberTable)
    ensures
        table_entries(copy) == table_entries(*table),
{
    MemberTable { map: table.map.clone() }
}

/// What `entries` holds under `key`.
pub open spec fn table_lookup(entries: Map<MemberKey, usize>, key: MemberKey) -> Option<usize> {
    if entries.contains_key(key) {
        Some(entries[key])
    } else {
        None
    }
}


} // verus!
