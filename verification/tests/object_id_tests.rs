use backend_utils::object_id::{string_id_to_obj_id, ObjectId};

#[test]
fn parses_lowercase_hex_and_round_trips() {
    let id = "0123456789abcdef01234567";
    let oid = string_id_to_obj_id(id).expect("24 lowercase hex digits must parse");
    assert_eq!(oid.to_hex(), id);
}

#[test]
fn parses_uppercase_hex_and_lowercases() {
    let oid = string_id_to_obj_id("0123456789ABCDEF01234567").expect("uppercase hex must parse");
    assert_eq!(oid.to_hex(), "0123456789abcdef01234567");
}

#[test]
fn rejects_wrong_length() {
    assert!(string_id_to_obj_id("").is_none());
    assert!(string_id_to_obj_id("0123456789abcdef0123456").is_none());
    assert!(string_id_to_obj_id("0123456789abcdef012345678").is_none());
}

#[test]
fn rejects_non_hex_characters() {
    assert!(string_id_to_obj_id("0123456789abcdef0123456g").is_none());
    assert!(string_id_to_obj_id("0123456789abcdef 1234567").is_none());
    assert!(string_id_to_obj_id("0123456789abcdef012345é7").is_none());
}

#[test]
fn clone_keeps_the_bytes() {
    let oid = string_id_to_obj_id("ffeeddccbbaa998877665544").unwrap();
    let copy = oid.clone();
    assert_eq!(copy.to_hex(), oid.to_hex());
}

#[test]
fn from_bytes_renders_those_bytes() {
    let oid = ObjectId::from_bytes(vec![
        0x01, 0x23, 0x45, 0x67, 0x89, 0xab, 0xcd, 0xef, 0x01, 0x23, 0x45, 0x67,
    ]);
    assert_eq!(oid.to_hex(), "0123456789abcdef01234567");

    let bson_oid = bson::oid::ObjectId::parse_str("5f1b2c3d4e5f6a7b8c9d0e1f").unwrap();
    let ours = ObjectId::from_bytes(bson_oid.bytes().to_vec());
    assert_eq!(ours.to_hex(), bson_oid.to_hex());
}

#[test]
fn agrees_with_bson_object_id() {
    for s in [
        "0123456789abcdef01234567",
        "ABCDEFABCDEFABCDEFABCDEF",
        "000000000000000000000000",
        "ffffffffffffffffffffffff",
        "0123456789abcdef0123456",
        "0123456789abcdef0123456z",
    ] {
        let ours = string_id_to_obj_id(s);
        let theirs = bson::oid::ObjectId::parse_str(s);
        assert_eq!(ours.is_some(), theirs.is_ok(), "disagreement on {:?}", s);
        if let (Some(a), Ok(b)) = (ours, theirs) {
            assert_eq!(a.to_hex(), b.to_hex());
        }
    }
}
