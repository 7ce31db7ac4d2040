//! A financial advisor's configuration, asked for and replaced by partition.
//!
//! The reference client names a partition by a number and the venue by a word;
//! sending the number would ask for a partition that does not exist.
use vstd::prelude::*;
use crate::text::{decimal, push_decimal};

verus! {

/// The command that asks for a partition by name.
pub const ASK_FOR_PARTITION: i32 = 5;

/// The command that replaces a partition with the document carried.
pub const REPLACE_PARTITION: i32 = 3;

/// The word the venue names a partition by, for the reference client's number:
/// groups, profiles, aliases.
pub open spec fn partition_word(fa_data_type: i32) -> Option<Seq<char>> {
    if fa_data_type == 1 {
        Some("Group"@)
    } else if fa_data_type == 2 {
        Some("Profile"@)
    } else if fa_data_type == 3 {
        Some("Aliases"@)
    } else {
        None
    }
}

/// The word the venue names a partition of an advisor's configuration by. A
/// number standing for nothing names nothing.
pub fn advisor_partition(fa_data_type: i32) -> (r: Option<&'static str>)
    ensures
        match partition_word(fa_data_type) {
            Some(word) => r matches Some(s) && s@ == word,
            None => r is None,
        },
{
    if fa_data_type == 1 {
        Some("Group")
    } else if fa_data_type == 2 {
        Some("Profile")
    } else if fa_data_type == 3 {
        Some("Aliases")
    } else {
        None
    }
}

/// The refusal of a number that names no partition.
pub open spec fn no_partition_message(fa_data_type: int) -> Seq<char> {
    "no advisor configuration is named by "@ + decimal(fa_data_type)
}

/// The refusal of a number that names no partition.
pub fn no_partition_refusal(fa_data_type: i32) -> (r: String)
    ensures
        r@ == no_partition_message(fa_data_type as int),
{
    let mut why = String::from_str("no advisor configuration is named by ");
    push_decimal(&mut why, fa_data_type as i64);
    why
}

} // verus!
