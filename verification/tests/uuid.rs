use crab_nbt::nbt::uuid::{uuid_from_str, UuidError};

#[test]
fn uuids() {
    assert_eq!(
        uuid_from_str("7c3be0c5-6abd-4fa5-b3f1-0634daa981df"),
        Ok([2084298949, 1790791589, -1276049868, -626425377])
    );
    assert_eq!(
        uuid_from_str("7c3be0c5-6abd-4fa5-b3f1-634daa981df"),
        Ok([2084298949, 1790791589, -1276049868, -626425377])
    );
    assert_eq!(
        uuid_from_str("7-c3be0c5-6abd4fa5b3f10634-daa981d-f"),
        Ok([7, -523958732, -1742929920, 15])
    );
    assert_eq!(
        uuid_from_str("7-c-3-be0c56abd4fa5-b3f10634daa981df"),
        Ok([7, 786435, 1336215092, -626425377])
    );
}

#[test]
fn invalid_uuids() {
    assert_eq!(
        uuid_from_str("7c3be0c56abd4fa5b3f10634daa981df"),
        Err(UuidError::NotEnoughDashes(0))
    );
    assert_eq!(uuid_from_str("1-2-3"), Err(UuidError::NotEnoughDashes(2)));
    assert_eq!(
        uuid_from_str("7c3be0c5-6abd-4fa5-b3f1-0634-daa981df"),
        Err(UuidError::StringTooBig)
    );
    assert_eq!(
        uuid_from_str("7c3be0c5-6abd-4fa5-b3f1-0634daa981df0"),
        Err(UuidError::StringTooBig)
    );
    assert!(matches!(
        uuid_from_str("-7c3be0c56abd-4fa5b3f1-0634daa9-81df"),
        Err(UuidError::ParseIntError(_))
    ));
    // five dashes
    assert_eq!(
        uuid_from_str("7--c3be0c56-abd4fa5b-3f10634d-aa981df"),
        Err(UuidError::StringTooBig)
    );
    // an empty group
    assert!(matches!(uuid_from_str("7--c3be0c56-abd4fa5b-3f10634d"), Err(UuidError::ParseIntError(_))));
    assert!(matches!(uuid_from_str("g-1-2-3-4"), Err(UuidError::ParseIntError(_))));
    // a group that is not ASCII
    assert!(matches!(uuid_from_str("1-2-3-4-\u{e9}"), Err(UuidError::ParseIntError(_))));
    assert!(matches!(uuid_from_str("\u{e9}-1-2-3-4"), Err(UuidError::ParseIntError(_))));
    assert_eq!(uuid_from_str("\u{e9}-1-2-3"), Err(UuidError::NotEnoughDashes(3)));
    // more than 36 bytes, though fewer characters
    assert_eq!(uuid_from_str("éééééééééééééééééééé"), Err(UuidError::StringTooBig));
}
