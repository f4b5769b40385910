//! The transient executable: how its file is named and which permissions
//! it gets.

use vstd::prelude::*;
use vstd::string::*;
use crate::text::{decimal, decimal_injective, push_decimal};

verus! {

/// The permission bits of the transient executable: read, write and execute
/// for the owner, read and execute for everyone else.
pub const EXECUTABLE_MODE: u32 = 0o755;

/// The file name of the transient executable of the process with the given
/// id: a fixed prefix and the id in decimal.
pub open spec fn temp_name(process_id: u32) -> Seq<char> {
    "embedded_go_binary_"@ + decimal(process_id as nat)
}

/// Processes with different ids get different file names.
pub proof fn temp_names_differ(first: u32, second: u32)
    requires
        first != second,
    ensures
        temp_name(first) != temp_name(second),
{
    let prefix = "embedded_go_binary_"@;
    if temp_name(first) == temp_name(second) {
        assert(temp_name(first).skip(prefix.len() as int) =~= decimal(first as nat));
        assert(temp_name(second).skip(prefix.len() as int) =~= decimal(second as nat));
        decimal_injective(first as nat, second as nat);
    }
}

/// The file name of the transient executable of the process with the given
/// id, to be placed in the system's directory for temporary files.
pub fn temp_file_name(process_id: u32) -> (name: String)
    ensures
        name@ == temp_name(process_id),
{
    let mut name = String::from_str("embedded_go_binary_");
    push_decimal(&mut name, process_id as u64);
    name
}

} // verus!
