use procedure_engine::access::{PermissionLevel, PermissionsMap};

#[test]
fn levels_are_ranked_lowest_first() {
    assert_eq!(PermissionLevel::NoAccess.rank_number(), 0);
    assert_eq!(PermissionLevel::Read.rank_number(), 1);
    assert_eq!(PermissionLevel::Execute.rank_number(), 2);
    assert_eq!(PermissionLevel::Write.rank_number(), 3);
}

#[test]
fn a_level_covers_itself_and_what_is_below() {
    let scale = [
        PermissionLevel::NoAccess,
        PermissionLevel::Read,
        PermissionLevel::Execute,
        PermissionLevel::Write,
    ];
    for (i, held) in scale.iter().enumerate() {
        for (j, required) in scale.iter().enumerate() {
            assert_eq!(held.at_least(*required), i >= j);
        }
    }
}

#[test]
fn absent_user_has_the_lowest_level() {
    let map = PermissionsMap::single("ann", PermissionLevel::Write);
    assert_eq!(map.get_user_permissions("bob"), PermissionLevel::NoAccess);
    assert_eq!(PermissionsMap::new().get_user_permissions("ann"), PermissionLevel::NoAccess);
}

#[test]
fn absent_user_is_denied_above_the_lowest_level() {
    let map = PermissionsMap::single("ann", PermissionLevel::Write);
    for required in [PermissionLevel::Read, PermissionLevel::Execute, PermissionLevel::Write] {
        let denied = map.require("bob", required).unwrap_err();
        assert_eq!(denied.user, "bob");
        assert_eq!(denied.required, required);
        assert_eq!(denied.held, PermissionLevel::NoAccess);
    }
    assert!(map.require("bob", PermissionLevel::NoAccess).is_ok());
}

#[test]
fn named_user_has_the_recorded_level() {
    let mut map = PermissionsMap::new();
    map.set("ann", PermissionLevel::Read);
    map.set("bob", PermissionLevel::Execute);
    assert_eq!(map.len(), 2);
    assert_eq!(map.get_user_permissions("ann"), PermissionLevel::Read);
    assert_eq!(map.get_user_permissions("bob"), PermissionLevel::Execute);
    assert!(map.require("ann", PermissionLevel::Read).is_ok());
    assert!(map.require("ann", PermissionLevel::Execute).is_err());
    assert!(map.require("bob", PermissionLevel::Read).is_ok());
    assert!(map.require("bob", PermissionLevel::Write).is_err());
}

#[test]
fn setting_a_level_again_replaces_it() {
    let mut map = PermissionsMap::single("ann", PermissionLevel::Read);
    map.set("ann", PermissionLevel::Write);
    assert_eq!(map.len(), 1);
    assert_eq!(map.get_user_permissions("ann"), PermissionLevel::Write);
    map.set("ann", PermissionLevel::NoAccess);
    assert_eq!(map.len(), 1);
    assert!(map.require("ann", PermissionLevel::Read).is_err());
}

#[test]
fn user_names_are_compared_whole() {
    let map = PermissionsMap::single("ann", PermissionLevel::Write);
    assert_eq!(map.get_user_permissions("an"), PermissionLevel::NoAccess);
    assert_eq!(map.get_user_permissions("anna"), PermissionLevel::NoAccess);
    assert_eq!(map.get_user_permissions(""), PermissionLevel::NoAccess);
}
