use libgit2::oid::{Oid, OidType};
use libgit2::oidarray::OidArray;

fn sha1_id(byte: u8) -> Oid {
    Oid {
        kind: 1,
        id: [byte; 32],
    }
}

#[test]
fn empty_owner_has_the_public_empty_state() {
    let array = OidArray::new();
    assert_eq!(array.count(), 0);
    assert!(array.ids().is_none());
}

#[test]
fn owned_ids_can_be_borrowed_mutated_and_detached() {
    let count = 2;
    let mut ids = Vec::new();
    for index in 0..count {
        ids.push(sha1_id(index as u8));
    }

    let mut array = OidArray::new();
    array.set_ids(Some(ids));
    assert_eq!(array.count(), 2);
    assert_eq!(
        array.ids().and_then(|ids| ids.get(1)).unwrap().oid_type(),
        Ok(OidType::Sha1)
    );

    {
        let ids = array.ids_mut().expect("the run is present");
        ids.get_mut(1).unwrap().set_oid_type(OidType::Sha256);
    }
    assert_eq!(
        array.ids().and_then(|ids| ids.get(1)).unwrap().oid_type(),
        Ok(OidType::Sha256)
    );

    let detached = array.take_ids().expect("the run is owned");
    assert_eq!(detached.len(), 2);
    assert_eq!(array.count(), 0);
    assert!(array.ids().is_none());
}

#[test]
fn replacing_the_run_returns_the_previous_one() {
    let mut array = OidArray::new();
    assert!(array.replace_ids(Some(vec![sha1_id(7)])).is_none());
    let previous = array.replace_ids(Some(vec![sha1_id(8), sha1_id(9)])).unwrap();
    assert_eq!(previous, vec![sha1_id(7)]);
    assert_eq!(array.count(), 2);
    assert_eq!(array.ids().unwrap()[0], sha1_id(8));

    array.set_ids(Some(Vec::new()));
    assert_eq!(array.count(), 0);
    assert_eq!(array.ids().map(|ids| ids.len()), Some(0));
    array.set_ids(None);
    assert!(array.ids().is_none());
}
