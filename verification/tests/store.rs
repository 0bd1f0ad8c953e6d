use role_sync::ids::{RoleId, UserId};
use role_sync::store::{MappingStore, UserRoleMapping};

#[test]
fn new_store_is_empty() {
    let store = MappingStore::new();
    assert_eq!(store.len(), 0);
    assert_eq!(store.lookup(42), Ok(None));
}

#[test]
fn lookup_returns_what_was_written() {
    let mut store = MappingStore::new();
    assert_eq!(store.upsert(UserRoleMapping { user_id: 42, role_id: 7 }), Ok(()));
    assert_eq!(store.lookup(42), Ok(Some(7)));
    assert_eq!(store.len(), 1);
}

#[test]
fn lookup_of_unknown_user_is_none() {
    let mut store = MappingStore::new();
    assert_eq!(store.upsert(UserRoleMapping { user_id: 42, role_id: 7 }), Ok(()));
    assert_eq!(store.lookup(43), Ok(None));
    assert_eq!(store.lookup(7), Ok(None));
}

#[test]
fn second_upsert_replaces_first() {
    let mut store = MappingStore::new();
    assert_eq!(store.upsert(UserRoleMapping { user_id: 42, role_id: 7 }), Ok(()));
    assert_eq!(store.upsert(UserRoleMapping { user_id: 42, role_id: 9 }), Ok(()));
    assert_eq!(store.lookup(42), Ok(Some(9)));
    assert_eq!(store.len(), 1);
}

#[test]
fn upsert_of_same_role_twice_changes_nothing() {
    let mut store = MappingStore::new();
    assert_eq!(store.upsert(UserRoleMapping { user_id: 42, role_id: 7 }), Ok(()));
    assert_eq!(store.upsert(UserRoleMapping { user_id: 42, role_id: 7 }), Ok(()));
    assert_eq!(store.lookup(42), Ok(Some(7)));
    assert_eq!(store.len(), 1);
}

#[test]
fn upsert_leaves_other_users_alone() {
    let mut store = MappingStore::new();
    assert_eq!(store.upsert(UserRoleMapping { user_id: 1, role_id: 10 }), Ok(()));
    assert_eq!(store.upsert(UserRoleMapping { user_id: 2, role_id: 20 }), Ok(()));
    assert_eq!(store.upsert(UserRoleMapping { user_id: 3, role_id: 30 }), Ok(()));
    assert_eq!(store.upsert(UserRoleMapping { user_id: 2, role_id: 21 }), Ok(()));
    assert_eq!(store.lookup(1), Ok(Some(10)));
    assert_eq!(store.lookup(2), Ok(Some(21)));
    assert_eq!(store.lookup(3), Ok(Some(30)));
    assert_eq!(store.len(), 3);
}

#[test]
fn two_users_may_share_a_role() {
    let mut store = MappingStore::new();
    assert_eq!(store.upsert(UserRoleMapping { user_id: 1, role_id: 7 }), Ok(()));
    assert_eq!(store.upsert(UserRoleMapping { user_id: 2, role_id: 7 }), Ok(()));
    assert_eq!(store.lookup(1), Ok(Some(7)));
    assert_eq!(store.lookup(2), Ok(Some(7)));
    assert_eq!(store.len(), 2);
}

#[test]
fn negative_columns_are_ordinary_keys() {
    let mut store = MappingStore::new();
    assert_eq!(store.upsert(UserRoleMapping { user_id: -1, role_id: i64::MIN }), Ok(()));
    assert_eq!(store.lookup(-1), Ok(Some(i64::MIN)));
    assert_eq!(store.lookup(1), Ok(None));
}

#[test]
fn mapping_encodes_both_identifiers() {
    let mapping = UserRoleMapping::new(UserId(42), RoleId(7));
    assert_eq!(mapping, UserRoleMapping { user_id: 42, role_id: 7 });
    let large = UserRoleMapping::new(UserId(u64::MAX), RoleId(1u64 << 63));
    assert_eq!(large, UserRoleMapping { user_id: -1, role_id: i64::MIN });
}

#[test]
fn mapping_decodes_both_identifiers() {
    let mapping = UserRoleMapping { user_id: -1, role_id: 7 };
    assert_eq!(mapping.user(), UserId(u64::MAX));
    assert_eq!(mapping.role(), RoleId(7));
    let back = UserRoleMapping::new(UserId(u64::MAX - 3), RoleId(u64::MAX - 4));
    assert_eq!(back.user(), UserId(u64::MAX - 3));
    assert_eq!(back.role(), RoleId(u64::MAX - 4));
}

#[test]
fn rebinding_a_large_user_reads_back_the_second_role() {
    let user = UserId(u64::MAX - 1);
    let mut store = MappingStore::new();
    assert_eq!(store.upsert(UserRoleMapping::new(user, RoleId(5))), Ok(()));
    assert_eq!(store.upsert(UserRoleMapping::new(user, RoleId(u64::MAX))), Ok(()));
    let key = UserRoleMapping::new(user, RoleId(0)).user_id;
    let column = store.lookup(key).unwrap().unwrap();
    assert_eq!(UserRoleMapping { user_id: key, role_id: column }.role(), RoleId(u64::MAX));
    assert_eq!(store.len(), 1);
}
