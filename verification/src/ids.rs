//! Platform identifiers and their encoding as signed database columns.

use vstd::prelude::*;

verus! {

/// Identifier of a user, global to the platform.
#[derive(Clone, Copy, Debug, PartialEq, Eq, Structural)]
pub struct UserId(pub u64);

/// Identifier of a role within a guild.
#[derive(Clone, Copy, Debug, PartialEq, Eq, Structural)]
pub struct RoleId(pub u64);

/// Identifier of a guild.
#[derive(Clone, Copy, Debug, PartialEq, Eq, Structural)]
pub struct GuildId(pub u64);

/// The signed 64-bit column value that stands for the identifier `id`:
/// the same 64 bits read as two's complement.
pub open spec fn column_of(id: u64) -> i64 {
    if id <= i64::MAX {
        id as i64
    } else {
        (id - 0x1_0000_0000_0000_0000) as i64
    }
}

/// The identifier that the column value `column` stands for.
pub open spec fn id_of(column: i64) -> u64 {
    if column >= 0 {
        column as u64
    } else {
        (column + 0x1_0000_0000_0000_0000) as u64
    }
}

/// Encodes an identifier for a signed 64-bit column without losing a bit.
pub fn to_column(id: u64) -> (column: i64)
    ensures
        column == column_of(id),
{
    let column: i64 = id as i64;
    assert(column == column_of(id)) by (bit_vector)
        requires
            column == id as i64,
    ;
    column
}

/// Decodes a signed 64-bit column back into the identifier it stands for.
pub fn from_column(column: i64) -> (id: u64)
    ensures
        id == id_of(column),
{
    let id: u64 = column as u64;
    assert(id == id_of(column)) by (bit_vector)
        requires
            id == column as u64,
    ;
    id
}

/// Encoding and then decoding gives the identifier back, for every 64-bit
/// identifier, also for those above the signed range.
pub proof fn lemma_id_round_trip(id: u64)
    ensures
        id_of(column_of(id)) == id,
{
}

/// Decoding and then encoding gives the column value back.
pub proof fn lemma_column_round_trip(column: i64)
    ensures
        column_of(id_of(column)) == column,
{
}

/// Two identifiers that differ are stored as columns that differ.
pub proof fn lemma_column_injective(a: u64, b: u64)
    ensures
        column_of(a) == column_of(b) <==> a == b,
{
    lemma_id_round_trip(a);
    lemma_id_round_trip(b);
}

} // verus!
