use chainx_cli::lookup::{resolve, Component, LookupError, LookupResult, Schema};
use chainx_cli::metadata::{decode, VersionedMetadata};
use chainx_cli::node::Node;
use chainx_cli::wire::DecodeError;

/// A pallet that has nothing but its name and its index.
fn bare_pallet_bytes(name: &str, index: u8) -> Vec<u8> {
    let mut bytes = vec![(name.len() as u8) << 2];
    bytes.extend_from_slice(name.as_bytes());
    // no storage, no calls, no event, no constants, no error
    bytes.extend_from_slice(&[0, 0, 0, 0, 0, index]);
    bytes
}

fn bare_pallet(name: &str, index: u32) -> Node {
    Node::Record(vec![
        Node::Text(name.to_string()),
        Node::Opt(None),
        Node::Opt(None),
        Node::Opt(None),
        Node::List(vec![]),
        Node::Opt(None),
        Node::Int(index),
    ])
}

/// Magic number, version 14, an empty type registry, the pallets System and
/// Balances, an extrinsic of type 0 and version 4 without extensions, and
/// the runtime type 0.
fn two_pallets() -> Vec<u8> {
    let mut bytes = vec![0x6d, 0x65, 0x74, 0x61, 14];
    bytes.push(0);
    bytes.push(2 << 2);
    bytes.extend_from_slice(&bare_pallet_bytes("System", 0));
    bytes.extend_from_slice(&bare_pallet_bytes("Balances", 1));
    bytes.extend_from_slice(&[0, 4, 0]);
    bytes.push(0);
    bytes
}

fn two_pallets_decoded() -> VersionedMetadata {
    VersionedMetadata::V14(Node::Record(vec![
        Node::Record(vec![Node::List(vec![])]),
        Node::List(vec![bare_pallet("System", 0), bare_pallet("Balances", 1)]),
        Node::Record(vec![Node::Int(0), Node::Int(4), Node::List(vec![])]),
        Node::Int(0),
    ]))
}

#[test]
fn two_pallets_decode_to_their_tree() {
    assert_eq!(decode(&two_pallets()), Ok(two_pallets_decoded()));
}

#[test]
fn resolve_gives_the_second_pallet_unchanged() {
    let metadata = decode(&two_pallets()).unwrap();
    let found = resolve(metadata, Some("Balances".to_string()));
    assert_eq!(
        found,
        Ok(LookupResult::Component(Component {
            schema: Schema::V14,
            record: bare_pallet("Balances", 1),
        }))
    );
}

#[test]
fn resolve_reports_a_missing_pallet_by_name() {
    let metadata = decode(&two_pallets()).unwrap();
    assert_eq!(
        resolve(metadata, Some("Staking".to_string())),
        Err(LookupError::NotFound("Staking".to_string()))
    );
}

#[test]
fn resolve_without_a_name_gives_everything() {
    let metadata = decode(&two_pallets()).unwrap();
    assert_eq!(resolve(metadata, None), Ok(LookupResult::Full(two_pallets_decoded())));
}

#[test]
fn a_name_length_beyond_the_buffer_is_truncated() {
    let mut bytes = two_pallets();
    // the length byte of the first pallet's name
    assert_eq!(bytes[7], 6 << 2);
    bytes[7] = 63 << 2;
    assert_eq!(decode(&bytes), Err(DecodeError::Truncated));
}

#[test]
fn every_proper_prefix_is_truncated() {
    let bytes = two_pallets();
    for k in 0..bytes.len() {
        assert_eq!(decode(&bytes[..k]), Err(DecodeError::Truncated), "cut at {}", k);
    }
    assert!(decode(&bytes).is_ok());
}

#[test]
fn bytes_behind_the_metadata_are_not_looked_at() {
    let mut bytes = two_pallets();
    bytes.extend_from_slice(&[0xff, 0xff, 0xff]);
    assert_eq!(decode(&bytes), Ok(two_pallets_decoded()));
}

#[test]
fn names_match_exactly() {
    for other in ["balances", "Balance", "Balances ", "BALANCES", "", "Balancess"] {
        let metadata = decode(&two_pallets()).unwrap();
        assert_eq!(
            resolve(metadata, Some(other.to_string())),
            Err(LookupError::NotFound(other.to_string()))
        );
    }
}

#[test]
fn the_first_of_two_pallets_of_one_name_is_given() {
    let metadata = VersionedMetadata::V14(Node::Record(vec![
        Node::Record(vec![Node::List(vec![])]),
        Node::List(vec![bare_pallet("Twin", 3), bare_pallet("Twin", 4)]),
        Node::Record(vec![Node::Int(0), Node::Int(4), Node::List(vec![])]),
        Node::Int(0),
    ]));
    assert_eq!(
        resolve(metadata, Some("Twin".to_string())),
        Ok(LookupResult::Component(Component { schema: Schema::V14, record: bare_pallet("Twin", 3) }))
    );
}

#[test]
fn resolve_gives_the_same_answer_each_time() {
    let first = resolve(decode(&two_pallets()).unwrap(), Some("System".to_string()));
    let second = resolve(decode(&two_pallets()).unwrap(), Some("System".to_string()));
    assert_eq!(first, second);
    assert!(first.is_ok());
}

#[test]
fn unknown_version_tags_are_unsupported() {
    for tag in [0u8, 1, 7, 8, 11, 15, 16, 100, 255] {
        let mut bytes = vec![0x6d, 0x65, 0x74, 0x61, tag];
        assert_eq!(decode(&bytes), Err(DecodeError::UnsupportedVersion));
        bytes.extend_from_slice(&two_pallets()[5..]);
        assert_eq!(decode(&bytes), Err(DecodeError::UnsupportedVersion));
        bytes.extend_from_slice(&[1, 2, 3]);
        assert_eq!(decode(&bytes), Err(DecodeError::UnsupportedVersion));
    }
}

#[test]
fn a_wrong_magic_number_is_refused() {
    let mut bytes = two_pallets();
    bytes[3] = 0x62;
    assert_eq!(decode(&bytes), Err(DecodeError::BadMagic));
    assert_eq!(decode(&[0x61, 0x74, 0x65, 0x6d, 14]), Err(DecodeError::BadMagic));
    assert_eq!(decode(&[0, 0, 0, 0]), Err(DecodeError::BadMagic));
}

#[test]
fn a_short_buffer_is_truncated_whatever_it_holds() {
    assert_eq!(decode(&[]), Err(DecodeError::Truncated));
    assert_eq!(decode(&[1, 2, 3]), Err(DecodeError::Truncated));
    assert_eq!(decode(&[0x6d, 0x65, 0x74, 0x61]), Err(DecodeError::Truncated));
}

#[test]
fn a_wrong_option_byte_is_malformed() {
    let mut bytes = two_pallets();
    // the byte that says whether System has storage
    assert_eq!(bytes[14], 0);
    bytes[14] = 2;
    assert_eq!(decode(&bytes), Err(DecodeError::Malformed));
}

#[test]
fn a_name_that_is_not_utf8_is_malformed() {
    let mut bytes = two_pallets();
    bytes[8] = 0xff;
    assert_eq!(decode(&bytes), Err(DecodeError::Malformed));
}

#[test]
fn a_name_in_utf8_is_decoded_to_its_characters() {
    let mut bytes = vec![0x6d, 0x65, 0x74, 0x61, 14, 0, 1 << 2];
    bytes.extend_from_slice(&bare_pallet_bytes("Bälänces€", 2));
    bytes.extend_from_slice(&[0, 4, 0, 0]);
    let found = resolve(decode(&bytes).unwrap(), Some("Bälänces€".to_string()));
    assert_eq!(
        found,
        Ok(LookupResult::Component(Component {
            schema: Schema::V14,
            record: bare_pallet("Bälänces€", 2),
        }))
    );
}

#[test]
fn a_number_written_wider_than_it_needs_is_malformed() {
    // the count of the type registry, zero, written in two bytes
    let bytes = vec![0x6d, 0x65, 0x74, 0x61, 14, 0x01, 0x00, 0, 0, 4, 0, 0];
    assert_eq!(decode(&bytes), Err(DecodeError::Malformed));
}

#[test]
fn components_left_encoded_are_reported() {
    let metadata = VersionedMetadata::V12(Node::Record(vec![
        Node::Raw(vec![0]),
        Node::Record(vec![Node::Int(4), Node::List(vec![])]),
    ]));
    assert_eq!(
        resolve(metadata, Some("System".to_string())),
        Err(LookupError::ComponentsNotDecoded)
    );
}

#[test]
fn a_name_left_encoded_before_a_match_is_reported() {
    let hidden = Node::Record(vec![Node::Raw(vec![4, 65])]);
    let metadata = VersionedMetadata::V13(Node::Record(vec![
        Node::List(vec![bare_pallet("First", 0), hidden, bare_pallet("Last", 2)]),
        Node::Record(vec![Node::Int(4), Node::List(vec![])]),
    ]));
    assert_eq!(
        resolve(metadata, Some("Last".to_string())),
        Err(LookupError::ComponentsNotDecoded)
    );
    let hidden = Node::Record(vec![Node::Raw(vec![4, 65])]);
    let metadata = VersionedMetadata::V13(Node::Record(vec![
        Node::List(vec![bare_pallet("First", 0), hidden, bare_pallet("Last", 2)]),
        Node::Record(vec![Node::Int(4), Node::List(vec![])]),
    ]));
    assert_eq!(
        resolve(metadata, Some("First".to_string())),
        Ok(LookupResult::Component(Component { schema: Schema::V13, record: bare_pallet("First", 0) }))
    );
}

#[test]
fn metadata_of_another_version_cannot_be_searched() {
    assert_eq!(
        resolve(VersionedMetadata::Unsupported(11), Some("System".to_string())),
        Err(LookupError::UnsupportedVersion)
    );
    assert_eq!(
        resolve(VersionedMetadata::Unsupported(11), None),
        Ok(LookupResult::Full(VersionedMetadata::Unsupported(11)))
    );
}

#[test]
fn a_component_has_its_name_and_metadata_its_version() {
    let metadata = decode(&two_pallets()).unwrap();
    assert_eq!(metadata.version(), 14);
    assert_eq!(VersionedMetadata::Unsupported(200).version(), 200);
    match resolve(metadata, Some("System".to_string())).unwrap() {
        LookupResult::Component(component) => {
            assert_eq!(component.name(), Some(&"System".to_string()));
        }
        LookupResult::Full(_) => unreachable!(),
    }
    let nameless = Component { schema: Schema::V12, record: Node::Record(vec![Node::Raw(vec![0])]) };
    assert_eq!(nameless.name(), None);
}
