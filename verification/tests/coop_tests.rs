use setroot::coop::{
    clean_root_atom, process_create, process_lookup, property_name, set_root_atoms_plan,
    LookupStep, PropertyEnv, PropertyReply, ATOM_PIXMAP,
};
use setroot::err::BadScreenNumber;
use setroot::validate_screen_number;

fn reply_holding(p: u32) -> PropertyReply {
    PropertyReply {
        property_type: ATOM_PIXMAP,
        format: 32,
        length: 1,
        bytes_after: 0,
        first_value: p,
    }
}

#[test]
fn test_property_names() {
    assert_eq!("_XROOTPMAP_ID", property_name(0));
    assert_eq!("ESETROOT_PMAP_ID", property_name(1));
}

#[test]
fn test_clean_reclaims_stale_pixmap_once() {
    // Both properties hold the same superseded pixmap: the first cleanup
    // reclaims it, the second sees it already reclaimed and stays quiet.
    let mut killed = None;
    let reply = reply_holding(7);
    assert_eq!(Some(7), clean_root_atom(Some(&reply), &mut killed));
    assert_eq!(Some(7), killed);
    assert_eq!(None, clean_root_atom(Some(&reply), &mut killed));
    assert_eq!(Some(7), killed);
}

#[test]
fn test_clean_reclaims_two_distinct_pixmaps() {
    let mut killed = None;
    assert_eq!(Some(7), clean_root_atom(Some(&reply_holding(7)), &mut killed));
    assert_eq!(Some(9), clean_root_atom(Some(&reply_holding(9)), &mut killed));
    assert_eq!(Some(9), killed);
}

#[test]
fn test_clean_ignores_null_and_malformed_values() {
    let mut killed = None;
    // A null identifier is never targeted.
    assert_eq!(None, clean_root_atom(Some(&reply_holding(0)), &mut killed));
    // A failed read skips cleanup.
    assert_eq!(None, clean_root_atom(None, &mut killed));
    // A value of the wrong type, format, length or with a remainder is not
    // taken for a pixmap identifier.
    let mut bad = reply_holding(7);
    bad.property_type = 4;
    assert_eq!(None, clean_root_atom(Some(&bad), &mut killed));
    let mut bad = reply_holding(7);
    bad.format = 16;
    assert_eq!(None, clean_root_atom(Some(&bad), &mut killed));
    let mut bad = reply_holding(7);
    bad.length = 2;
    assert_eq!(None, clean_root_atom(Some(&bad), &mut killed));
    let mut bad = reply_holding(7);
    bad.bytes_after = 4;
    assert_eq!(None, clean_root_atom(Some(&bad), &mut killed));
    assert_eq!(None, killed);
}

#[test]
fn test_process_lookup() {
    assert_eq!(LookupStep::Abort, process_lookup(None));
    assert_eq!(LookupStep::NeedCreate, process_lookup(Some(0)));
    assert_eq!(LookupStep::NeedRead(41), process_lookup(Some(41)));
}

#[test]
fn test_process_create() {
    assert_eq!(None, process_create(None));
    assert_eq!(None, process_create(Some(0)));
    assert_eq!(Some(41), process_create(Some(41)));
}

#[test]
fn test_second_install_reclaims_once() {
    // After a first installation of pixmap 7, both properties exist and
    // hold 7.  A second pass installing 7 again reclaims the superseded
    // value exactly once and writes both properties.
    let env0 = PropertyEnv {
        lookup: Some(41),
        create: None,
        read: Some(reply_holding(7)),
    };
    let env1 = PropertyEnv {
        lookup: Some(42),
        create: None,
        read: Some(reply_holding(7)),
    };
    let (kills, writes) = set_root_atoms_plan(env0, env1);
    assert_eq!(vec![7], kills);
    assert_eq!(vec![41, 42], writes);
}

#[test]
fn test_pass_with_fresh_atoms_kills_nothing() {
    // Neither property exists yet: both atoms are created and written,
    // and nothing is reclaimed.
    let env0 = PropertyEnv { lookup: Some(0), create: Some(41), read: None };
    let env1 = PropertyEnv { lookup: Some(0), create: Some(42), read: None };
    let (kills, writes) = set_root_atoms_plan(env0, env1);
    assert!(kills.is_empty());
    assert_eq!(vec![41, 42], writes);
}

#[test]
fn test_pass_aborts_on_failed_lookup() {
    // A failed lookup abandons the pass before anything is written.
    let env0 = PropertyEnv { lookup: None, create: None, read: None };
    let env1 = PropertyEnv {
        lookup: Some(42),
        create: None,
        read: Some(reply_holding(7)),
    };
    let (kills, writes) = set_root_atoms_plan(env0, env1);
    assert!(kills.is_empty());
    assert!(writes.is_empty());
}

#[test]
fn test_pass_reclaims_two_distinct_stale_pixmaps() {
    let env0 = PropertyEnv {
        lookup: Some(41),
        create: None,
        read: Some(reply_holding(7)),
    };
    let env1 = PropertyEnv {
        lookup: Some(42),
        create: None,
        read: Some(reply_holding(9)),
    };
    let (kills, writes) = set_root_atoms_plan(env0, env1);
    assert_eq!(vec![7, 9], kills);
    assert_eq!(vec![41, 42], writes);
}

#[test]
fn test_validate_screen_number() {
    assert_eq!(Ok(0), validate_screen_number(0));
    assert_eq!(Ok(3), validate_screen_number(3));
    assert_eq!(Err(BadScreenNumber(-1)), validate_screen_number(-1));
}
