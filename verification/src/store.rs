//! The mapping store: one default role per user.
//!
//! The durable store is a table `user_roles(user_id, role_id)` of signed
//! 64-bit columns in which `user_id` is unique.  [`MappingStore`] is that
//! table held in memory, with the same two operations and the same
//! last-write-wins rule; its view is the map from user column to role column.

use vstd::prelude::*;
use crate::ids::{column_of, from_column, id_of, to_column, RoleId, UserId};

verus! {

/// Why a store operation failed.
#[derive(Clone, Copy, Debug, PartialEq, Eq, Structural)]
pub enum StoreError {
    /// The database could not be reached, read or written.
    Io,
    /// The database refused the row.
    Constraint,
}

/// One row of `user_roles`: a user and the default role bound to that user,
/// both in the column encoding of [`crate::ids`].
#[derive(Clone, Copy, Debug, PartialEq, Eq, Structural)]
pub struct UserRoleMapping {
    pub user_id: i64,
    pub role_id: i64,
}

impl UserRoleMapping {
    /// The row that binds `role` to `user`.
    pub open spec fn of(user: UserId, role: RoleId) -> UserRoleMapping {
        UserRoleMapping { user_id: column_of(user.0), role_id: column_of(role.0) }
    }

    /// Encodes the binding of `role` to `user` as a row.
    pub fn new(user: UserId, role: RoleId) -> (mapping: UserRoleMapping)
        ensures
            mapping == Self::of(user, role),
    {
        UserRoleMapping { user_id: to_column(user.0), role_id: to_column(role.0) }
    }

    /// The user this row belongs to.
    pub fn user(&self) -> (user: UserId)
        ensures
            user == UserId(id_of(self.user_id)),
    {
        UserId(from_column(self.user_id))
    }

    /// The role this row binds to its user.
    pub fn role(&self) -> (role: RoleId)
        ensures
            role == RoleId(id_of(self.role_id)),
    {
        RoleId(from_column(self.role_id))
    }
}

/// No two rows belong to the same user.
spec fn distinct_users(rows: Seq<UserRoleMapping>) -> bool {
    forall|i: int, j: int| 0 <= i < j < rows.len() ==> rows[i].user_id != rows[j].user_id
}

/// Some row belongs to `user_id`.
spec fn has_user(rows: Seq<UserRoleMapping>, user_id: i64) -> bool {
    exists|i: int| 0 <= i < rows.len() && rows[i].user_id == user_id
}

/// The map that a list of rows stands for; of two rows of one user the later
/// one counts.
spec fn table_of(rows: Seq<UserRoleMapping>) -> Map<i64, i64>
    decreases rows.len(),
{
    if rows.len() == 0 {
        Map::empty()
    } else {
        table_of(rows.drop_last()).insert(rows.last().user_id, rows.last().role_id)
    }
}

/// A user is in the table exactly if a row belongs to that user.
proof fn lemma_table_domain(rows: Seq<UserRoleMapping>, user_id: i64)
    ensures
        table_of(rows).dom().contains(user_id) <==> has_user(rows, user_id),
    decreases rows.len(),
{
    if rows.len() > 0 {
        let front = rows.drop_last();
        lemma_table_domain(front, user_id);
        if has_user(front, user_id) {
            let i = choose|i: int| 0 <= i < front.len() && front[i].user_id == user_id;
            assert(rows[i].user_id == user_id);
        }
        if rows.last().user_id == user_id {
            assert(rows[rows.len() - 1].user_id == user_id);
        }
        if has_user(rows, user_id) && rows.last().user_id != user_id {
            let i = choose|i: int| 0 <= i < rows.len() && rows[i].user_id == user_id;
            assert(front[i].user_id == user_id);
        }
    }
}

/// Where users are distinct, the table gives each row's user that row's role.
proof fn lemma_table_value(rows: Seq<UserRoleMapping>, i: int)
    requires
        distinct_users(rows),
        0 <= i < rows.len(),
    ensures
        table_of(rows).dom().contains(rows[i].user_id),
        table_of(rows)[rows[i].user_id] == rows[i].role_id,
    decreases rows.len(),
{
    if i < rows.len() - 1 {
        let front = rows.drop_last();
        assert(front[i] == rows[i]);
        lemma_table_value(front, i);
    }
}

/// Appending a row is an insertion into the table.
proof fn lemma_table_push(rows: Seq<UserRoleMapping>, mapping: UserRoleMapping)
    ensures
        table_of(rows.push(mapping)) == table_of(rows).insert(mapping.user_id, mapping.role_id),
{
    assert(rows.push(mapping).drop_last() =~= rows);
}

/// Replacing the row of a user by another row of the same user is an
/// insertion into the table.
proof fn lemma_table_update(rows: Seq<UserRoleMapping>, i: int, mapping: UserRoleMapping)
    requires
        distinct_users(rows),
        0 <= i < rows.len(),
        rows[i].user_id == mapping.user_id,
    ensures
        distinct_users(rows.update(i, mapping)),
        table_of(rows.update(i, mapping)) == table_of(rows).insert(
            mapping.user_id,
            mapping.role_id,
        ),
    decreases rows.len(),
{
    let changed = rows.update(i, mapping);
    let front = rows.drop_last();
    if i == rows.len() - 1 {
        assert(changed.drop_last() =~= front);
        assert(table_of(changed) =~= table_of(rows).insert(mapping.user_id, mapping.role_id));
    } else {
        assert(changed.drop_last() =~= front.update(i, mapping));
        assert(front[i] == rows[i]);
        lemma_table_update(front, i, mapping);
        assert(rows.last().user_id != mapping.user_id);
        assert(table_of(changed) =~= table_of(rows).insert(mapping.user_id, mapping.role_id));
    }
}

/// Where users are distinct, the table has as many entries as there are rows.
proof fn lemma_table_len(rows: Seq<UserRoleMapping>)
    requires
        distinct_users(rows),
    ensures
        table_of(rows).dom().finite(),
        table_of(rows).len() == rows.len(),
    decreases rows.len(),
{
    if rows.len() > 0 {
        let front = rows.drop_last();
        lemma_table_len(front);
        lemma_table_domain(front, rows.last().user_id);
        assert(!has_user(front, rows.last().user_id)) by {
            if has_user(front, rows.last().user_id) {
                let i = choose|i: int| 0 <= i < front.len() && front[i].user_id == rows.last().user_id;
                assert(rows[i].user_id == rows[rows.len() - 1].user_id);
            }
        }
    }
}

/// The table `user_roles`, held in memory.
pub struct MappingStore {
    rows: Vec<UserRoleMapping>,
}

impl View for MappingStore {
    type V = Map<i64, i64>;

    /// The role column bound to each user column.
    closed spec fn view(&self) -> Map<i64, i64> {
        table_of(self.rows@)
    }
}

impl MappingStore {
    #[verifier::type_invariant]
    spec fn unique_users(self) -> bool {
        distinct_users(self.rows@)
    }

    /// A store without any mapping.
    pub fn new() -> (store: MappingStore)
        ensures
            store@ == Map::<i64, i64>::empty(),
    {
        MappingStore { rows: Vec::new() }
    }

    /// The index of the row of `user_id`, if there is one.
    fn position(&self, user_id: i64) -> (found: Option<usize>)
        ensures
            match found {
                Some(i) => i < self.rows@.len() && self.rows@[i as int].user_id == user_id,
                None => !has_user(self.rows@, user_id),
            },
    {
        let mut i: usize = 0;
        while i < self.rows.len()
            invariant
                i <= self.rows@.len(),
                forall|k: int| 0 <= k < i ==> self.rows@[k].user_id != user_id,
            decreases self.rows@.len() - i,
        {
            if self.rows[i].user_id == user_id {
                return Some(i);
            }
            i = i + 1;
        }
        None
    }

    /// Binds `mapping.role_id` to `mapping.user_id`.  A mapping that the user
    /// already had is replaced: the last write wins, and the user never has
    /// two rows.
    pub fn upsert(&mut self, mapping: UserRoleMapping) -> (result: Result<(), StoreError>)
        ensures
            result is Ok,
            final(self)@ == old(self)@.insert(mapping.user_id, mapping.role_id),
    {
        proof {
            use_type_invariant(&*self);
        }
        let found = self.position(mapping.user_id);
        let mut rows: Vec<UserRoleMapping> = Vec::new();
        std::mem::swap(&mut rows, &mut self.rows);
        match found {
            Some(i) => {
                proof {
                    lemma_table_update(rows@, i as int, mapping);
                }
                rows.set(i, mapping);
            },
            None => {
                proof {
                    lemma_table_push(rows@, mapping);
                    assert(distinct_users(rows@.push(mapping))) by {
                        assert forall|k: int| 0 <= k < rows@.len() implies rows@[k].user_id
                            != mapping.user_id by {
                            if rows@[k].user_id == mapping.user_id {
                                assert(has_user(rows@, mapping.user_id));
                            }
                        }
                    }
                }
                rows.push(mapping);
            },
        }
        self.rows = rows;
        Ok(())
    }

    /// The role column bound to `user_id`, or `None` if the user has no
    /// mapping.
    pub fn lookup(&self, user_id: i64) -> (result: Result<Option<i64>, StoreError>)
        ensures
            result == Ok::<Option<i64>, StoreError>(self@.get(user_id)),
    {
        proof {
            use_type_invariant(self);
            lemma_table_domain(self.rows@, user_id);
        }
        match self.position(user_id) {
            Some(i) => {
                proof {
                    lemma_table_value(self.rows@, i as int);
                }
                Ok(Some(self.rows[i].role_id))
            },
            None => Ok(None),
        }
    }

    /// The number of users that have a mapping.
    pub fn len(&self) -> (n: usize)
        ensures
            self@.dom().finite(),
            n == self@.len(),
    {
        proof {
            use_type_invariant(self);
            lemma_table_len(self.rows@);
        }
        self.rows.len()
    }
}

/// Last write wins: after two writes for one user the store holds the second
/// role for that user and is the store that the second write alone gives.
pub proof fn lemma_upsert_last_write_wins(table: Map<i64, i64>, user_id: i64, first: i64, second: i64)
    ensures
        table.insert(user_id, first).insert(user_id, second).get(user_id) == Some(second),
        table.insert(user_id, first).insert(user_id, second) == table.insert(user_id, second),
{
    assert(table.insert(user_id, first).insert(user_id, second) =~= table.insert(user_id, second));
}

/// A write for one user leaves what every other user has.
pub proof fn lemma_upsert_keeps_others(table: Map<i64, i64>, user_id: i64, role_id: i64, other: i64)
    requires
        other != user_id,
    ensures
        table.insert(user_id, role_id).get(other) == table.get(other),
{
}

/// Last write wins for identifiers: whatever two roles are bound to a user in
/// turn, looking the user up gives a column that decodes to the second role.
pub proof fn lemma_rebinding_reads_back(table: Map<i64, i64>, user: UserId, first: RoleId, second: RoleId)
    ensures
        ({
            let a = UserRoleMapping::of(user, first);
            let b = UserRoleMapping::of(user, second);
            let after = table.insert(a.user_id, a.role_id).insert(b.user_id, b.role_id);
            &&& after.get(column_of(user.0)) matches Some(column)
            &&& RoleId(id_of(column)) == second
        }),
{
}

} // verus!
