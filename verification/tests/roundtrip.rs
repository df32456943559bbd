use chainx_cli::metadata::{decode, VersionedMetadata};
use chainx_cli::node::Node;
use chainx_cli::writer::encode;
use frame_metadata::decode_different::DecodeDifferent;
use frame_metadata::{v13, v14, RuntimeMetadata, RuntimeMetadataPrefixed};
use parity_scale_codec::{Compact, Decode, Encode};
use scale_info::meta_type;

fn producer_v14() -> RuntimeMetadataPrefixed {
    let pallet = v14::PalletMetadata {
        name: "Assets",
        storage: Some(v14::PalletStorageMetadata {
            prefix: "Assets",
            entries: vec![v14::StorageEntryMetadata {
                name: "Balance",
                modifier: v14::StorageEntryModifier::Default,
                ty: v14::StorageEntryType::Map {
                    hashers: vec![v14::StorageHasher::Identity],
                    key: meta_type::<[u16; 70000]>(),
                    value: meta_type::<(Vec<Option<bool>>, Compact<u128>, String)>(),
                },
                default: vec![7; 300],
                docs: vec!["Balances.", ""],
            }],
        }),
        calls: None,
        event: Some(v14::PalletEventMetadata { ty: meta_type::<Result<(), char>>() }),
        constants: vec![],
        error: None,
        index: 200,
    };
    let extrinsic = v14::ExtrinsicMetadata {
        ty: meta_type::<u8>(),
        version: 4,
        signed_extensions: vec![],
    };
    v14::RuntimeMetadataV14::new(vec![pallet], extrinsic, meta_type::<()>()).into()
}

#[test]
fn decoding_and_encoding_gives_the_producers_bytes_back() {
    let bytes = producer_v14().encode();
    let metadata = decode(&bytes).unwrap();
    assert_eq!(encode(&metadata), bytes);
}

#[test]
fn the_producer_decodes_what_the_encoder_writes() {
    let sample = producer_v14();
    let metadata = decode(&sample.encode()).unwrap();
    let written = encode(&metadata);
    let read = RuntimeMetadataPrefixed::decode(&mut &written[..]).unwrap();
    assert_eq!(read, sample);
}

#[test]
fn encoding_and_decoding_gives_the_value_back() {
    let module = Node::Record(vec![
        Node::Text("Tokens".to_string()),
        Node::Opt(Some(Box::new(Node::Record(vec![
            Node::Text("Tokens".to_string()),
            Node::List(vec![Node::Record(vec![
                Node::Text("Total".to_string()),
                Node::Variant(1, None),
                Node::Variant(
                    3,
                    Some(Box::new(Node::Record(vec![
                        Node::List(vec![Node::Text("u32".to_string())]),
                        Node::List(vec![Node::Variant(5, None)]),
                        Node::Text("Balance".to_string()),
                    ]))),
                ),
                Node::List(vec![Node::Int(0), Node::Int(255)]),
                Node::List(vec![]),
            ])]),
        ])))),
        Node::Opt(None),
        Node::Opt(Some(Box::new(Node::List(vec![])))),
        Node::List(vec![]),
        Node::List(vec![]),
        Node::Int(17),
    ]);
    let metadata = VersionedMetadata::V13(Node::Record(vec![
        Node::List(vec![module]),
        Node::Record(vec![Node::Int(4), Node::List(vec![Node::Text("CheckEra".to_string())])]),
    ]));
    let bytes = encode(&metadata);
    assert_eq!(decode(&bytes), Ok(metadata));
    let read = RuntimeMetadataPrefixed::decode(&mut &bytes[..]).unwrap();
    match read.1 {
        RuntimeMetadata::V13(v13) => match v13.modules {
            DecodeDifferent::Decoded(modules) => {
                assert_eq!(modules.len(), 1);
                assert_eq!(modules[0].name, DecodeDifferent::Decoded("Tokens".to_string()));
                assert_eq!(modules[0].index, 17);
                assert_eq!(
                    v13.extrinsic.signed_extensions,
                    vec![DecodeDifferent::Decoded("CheckEra".to_string())]
                );
            }
            _ => unreachable!(),
        },
        _ => unreachable!(),
    }
}

#[test]
fn a_part_left_encoded_is_written_as_it_is() {
    let metadata = VersionedMetadata::V12(Node::Record(vec![
        Node::Raw(vec![0]),
        Node::Record(vec![Node::Int(4), Node::Raw(vec![4, 4, 65])]),
    ]));
    assert_eq!(encode(&metadata), vec![0x6d, 0x65, 0x74, 0x61, 12, 0, 4, 4, 4, 65]);
    let decoded = VersionedMetadata::V12(Node::Record(vec![
        Node::List(vec![]),
        Node::Record(vec![Node::Int(4), Node::List(vec![Node::Text("A".to_string())])]),
    ]));
    assert_eq!(decode(&encode(&metadata)), Ok(decoded));
}

#[test]
fn unsupported_metadata_is_its_magic_number_and_tag() {
    assert_eq!(encode(&VersionedMetadata::Unsupported(9)), vec![0x6d, 0x65, 0x74, 0x61, 9]);
}

#[test]
fn compact_numbers_take_the_narrowest_width() {
    // the runtime type is the last field of version 14
    let with_type = |ty: u32| {
        VersionedMetadata::V14(Node::Record(vec![
            Node::Record(vec![Node::List(vec![])]),
            Node::List(vec![]),
            Node::Record(vec![Node::Int(0), Node::Int(4), Node::List(vec![])]),
            Node::Int(ty),
        ]))
    };
    let head = vec![0x6d, 0x65, 0x74, 0x61, 14, 0, 0, 0, 4, 0];
    let cases: Vec<(u32, Vec<u8>)> = vec![
        (0, vec![0x00]),
        (1, vec![0x04]),
        (63, vec![0xfc]),
        (64, vec![0x01, 0x01]),
        (16383, vec![0xfd, 0xff]),
        (16384, vec![0x02, 0x00, 0x01, 0x00]),
        (1073741823, vec![0xfe, 0xff, 0xff, 0xff]),
        (1073741824, vec![0x03, 0x00, 0x00, 0x00, 0x40]),
        (4294967295, vec![0x03, 0xff, 0xff, 0xff, 0xff]),
    ];
    for (ty, tail) in cases {
        let mut bytes = head.clone();
        bytes.extend_from_slice(&tail);
        assert_eq!(Compact(ty).encode(), tail);
        assert_eq!(encode(&with_type(ty)), bytes);
        assert_eq!(decode(&bytes), Ok(with_type(ty)));
    }
}

fn text(s: &str) -> Node {
    Node::Text(s.to_string())
}

fn registered(id: u32, path: &[&str], params: Vec<Node>, def: Node, docs: &[&str]) -> Node {
    Node::Record(vec![
        Node::Int(id),
        Node::Record(vec![
            Node::List(path.iter().map(|s| text(s)).collect()),
            Node::List(params),
            def,
            Node::List(docs.iter().map(|s| text(s)).collect()),
        ]),
    ])
}

fn some(node: Node) -> Node {
    Node::Opt(Some(Box::new(node)))
}

fn case(index: u8, node: Node) -> Node {
    Node::Variant(index, Some(Box::new(node)))
}

fn type_field(name: Option<&str>, ty: u32, named_type: Option<&str>, docs: &[&str]) -> Node {
    Node::Record(vec![
        Node::Opt(name.map(|s| Box::new(text(s)))),
        Node::Int(ty),
        Node::Opt(named_type.map(|s| Box::new(text(s)))),
        Node::List(docs.iter().map(|s| text(s)).collect()),
    ])
}

/// A registry that holds a type of every kind, written by hand.
fn every_kind_of_type() -> VersionedMetadata {
    let types = vec![
        registered(
            0,
            &["pallet", "Call"],
            vec![
                Node::Record(vec![text("T"), some(Node::Int(3))]),
                Node::Record(vec![text("I"), Node::Opt(None)]),
            ],
            case(
                0,
                Node::Record(vec![Node::List(vec![
                    type_field(Some("who"), 1, Some("T::AccountId"), &["The account."]),
                    type_field(None, 2, None, &[]),
                ])]),
            ),
            &["A call.", "Second line."],
        ),
        registered(
            1,
            &["Event"],
            vec![],
            case(
                1,
                Node::Record(vec![Node::List(vec![
                    Node::Record(vec![
                        text("Transferred"),
                        Node::List(vec![type_field(Some("amount"), 5, None, &[])]),
                        Node::Int(200),
                        Node::List(vec![text("Moved.")]),
                    ]),
                    Node::Record(vec![text("Nothing"), Node::List(vec![]), Node::Int(0), Node::List(vec![])]),
                ])]),
            ),
            &[],
        ),
        registered(2, &[], vec![], case(2, Node::Record(vec![Node::Int(70000)])), &[]),
        registered(3, &[], vec![], case(3, Node::Record(vec![Node::Int(4294967295), Node::Int(2)])), &[]),
        registered(4, &[], vec![], case(4, Node::List(vec![Node::Int(1), Node::Int(2)])), &[]),
        registered(5, &[], vec![], case(5, Node::Variant(14, None)), &[]),
        registered(6, &[], vec![], case(6, Node::Record(vec![Node::Int(5)])), &[]),
        registered(7, &[], vec![], case(7, Node::Record(vec![Node::Int(3), Node::Int(4)])), &[]),
        registered(8, &[], vec![], case(4, Node::List(vec![])), &[]),
        registered(9, &[], vec![], case(1, Node::Record(vec![Node::List(vec![])])), &[]),
    ];
    VersionedMetadata::V14(Node::Record(vec![
        Node::Record(vec![Node::List(types)]),
        Node::List(vec![]),
        Node::Record(vec![
            Node::Int(16384),
            Node::Int(4),
            Node::List(vec![Node::Record(vec![text("CheckTip"), Node::Int(64), Node::Int(1073741824)])]),
        ]),
        Node::Int(9),
    ]))
}

#[test]
fn the_producer_reads_every_kind_of_type_as_the_library_shows_it() {
    let bytes = encode(&every_kind_of_type());
    let read = RuntimeMetadataPrefixed::decode(&mut &bytes[..]).unwrap();
    assert_eq!(read.encode(), bytes);
    let expected = serde_json::to_string_pretty(&read).unwrap();
    let shown = chainx_cli::render(chainx_cli::LookupResult::Full(every_kind_of_type()));
    assert_eq!(shown, expected);
    assert_eq!(decode(&bytes), Ok(every_kind_of_type()));
    assert!(shown.contains("\"bitsequence\": {"));
    assert!(shown.contains("\"bit_store_type\": 3,"));
    assert!(shown.contains("\"bit_order_type\": 4"));
    assert!(shown.contains("\"primitive\": \"i256\""));
    assert!(shown.contains("\"typeName\": \"T::AccountId\""));
}

#[test]
fn every_primitive_and_hasher_has_the_producers_name() {
    for index in 0..15u8 {
        let metadata = VersionedMetadata::V14(Node::Record(vec![
            Node::Record(vec![Node::List(vec![registered(
                0,
                &[],
                vec![],
                case(5, Node::Variant(index, None)),
                &[],
            )])]),
            Node::List(vec![Node::Record(vec![
                text("P"),
                some(Node::Record(vec![
                    text("P"),
                    Node::List(vec![Node::Record(vec![
                        text("E"),
                        Node::Variant(index % 2, None),
                        case(
                            1,
                            Node::Record(vec![
                                Node::List(vec![Node::Variant(index % 7, None)]),
                                Node::Int(0),
                                Node::Int(0),
                            ]),
                        ),
                        Node::List(vec![]),
                        Node::List(vec![]),
                    ])]),
                ])),
                Node::Opt(None),
                Node::Opt(None),
                Node::List(vec![]),
                Node::Opt(None),
                Node::Int(0),
            ])]),
            Node::Record(vec![Node::Int(0), Node::Int(4), Node::List(vec![])]),
            Node::Int(0),
        ]));
        let bytes = encode(&metadata);
        let read = RuntimeMetadataPrefixed::decode(&mut &bytes[..]).unwrap();
        let expected = serde_json::to_string_pretty(&read).unwrap();
        assert_eq!(chainx_cli::render(chainx_cli::LookupResult::Full(metadata)), expected);
    }
}

#[test]
fn an_index_that_selects_no_case_is_malformed() {
    let metadata = VersionedMetadata::V14(Node::Record(vec![
        Node::Record(vec![Node::List(vec![registered(
            0,
            &[],
            vec![],
            case(5, Node::Variant(14, None)),
            &[],
        )])]),
        Node::List(vec![]),
        Node::Record(vec![Node::Int(0), Node::Int(4), Node::List(vec![])]),
        Node::Int(0),
    ]));
    let mut bytes = encode(&metadata);
    // the bytes: magic, tag, count of types, id, path, params, definition, primitive
    assert_eq!(&bytes[5..11], &[1 << 2, 0, 0, 0, 5, 14]);
    bytes[10] = 15;
    assert_eq!(decode(&bytes), Err(chainx_cli::DecodeError::Malformed));
    assert!(RuntimeMetadataPrefixed::decode(&mut &bytes[..]).is_err());
    bytes[10] = 14;
    bytes[9] = 8;
    assert_eq!(decode(&bytes), Err(chainx_cli::DecodeError::Malformed));
    assert!(RuntimeMetadataPrefixed::decode(&mut &bytes[..]).is_err());
}

#[test]
fn the_producer_refuses_what_the_library_refuses() {
    let good = producer_v14().encode();
    for k in 0..good.len() {
        assert!(decode(&good[..k]).is_err());
        assert!(RuntimeMetadataPrefixed::decode(&mut &good[..k]).is_err(), "cut at {}", k);
    }
    for at in 5..good.len() {
        for flip in [0x01u8, 0x80, 0xff] {
            let mut bytes = good.clone();
            bytes[at] ^= flip;
            let ours = decode(&bytes);
            let theirs = RuntimeMetadataPrefixed::decode(&mut &bytes[..]);
            assert_eq!(ours.is_ok(), theirs.is_ok(), "byte {} flipped by {}", at, flip);
            if let (Ok(ours), Ok(theirs)) = (ours, theirs) {
                assert_eq!(
                    chainx_cli::render(chainx_cli::LookupResult::Full(ours)),
                    serde_json::to_string_pretty(&theirs).unwrap()
                );
            }
        }
    }
}
