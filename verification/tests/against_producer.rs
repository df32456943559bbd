use std::collections::BTreeMap;

use chainx_cli::lookup::{resolve, LookupResult};
use chainx_cli::metadata::{decode, VersionedMetadata};
use chainx_cli::render::render;
use frame_metadata::decode_different::DecodeDifferent;
use frame_metadata::{v12, v13, v14, RuntimeMetadata, RuntimeMetadataPrefixed};
use parity_scale_codec::{Compact, Decode, Encode};
use scale_info::meta_type;

fn v14_sample() -> RuntimeMetadataPrefixed {
    let system = v14::PalletMetadata {
        name: "System",
        storage: Some(v14::PalletStorageMetadata {
            prefix: "System",
            entries: vec![
                v14::StorageEntryMetadata {
                    name: "Account",
                    modifier: v14::StorageEntryModifier::Default,
                    ty: v14::StorageEntryType::Map {
                        hashers: vec![
                            v14::StorageHasher::Blake2_128Concat,
                            v14::StorageHasher::Twox64Concat,
                        ],
                        key: meta_type::<(u32, [u8; 4])>(),
                        value: meta_type::<Option<Vec<u64>>>(),
                    },
                    default: vec![0, 1, 255],
                    docs: vec!["The \"full\" account\tinformation.", "line\\two\n"],
                },
                v14::StorageEntryMetadata {
                    name: "Number",
                    modifier: v14::StorageEntryModifier::Optional,
                    ty: v14::StorageEntryType::Plain(meta_type::<Compact<u32>>()),
                    default: vec![],
                    docs: vec![],
                },
            ],
        }),
        calls: Some(v14::PalletCallMetadata { ty: meta_type::<Result<u8, String>>() }),
        event: Some(v14::PalletEventMetadata { ty: meta_type::<BTreeMap<u16, bool>>() }),
        constants: vec![v14::PalletConstantMetadata {
            name: "BlockHashCount",
            ty: meta_type::<u32>(),
            value: vec![96, 9, 0, 0],
            docs: vec!["Maximum number of block number to block hash mappings to keep."],
        }],
        error: Some(v14::PalletErrorMetadata { ty: meta_type::<Option<i128>>() }),
        index: 0,
    };
    let balances = v14::PalletMetadata {
        name: "Balances",
        storage: None,
        calls: None,
        event: None,
        constants: vec![],
        error: None,
        index: 6,
    };
    let extrinsic = v14::ExtrinsicMetadata {
        ty: meta_type::<Vec<u8>>(),
        version: 4,
        signed_extensions: vec![v14::SignedExtensionMetadata {
            identifier: "CheckNonce",
            ty: meta_type::<Compact<u64>>(),
            additional_signed: meta_type::<()>(),
        }],
    };
    v14::RuntimeMetadataV14::new(vec![system, balances], extrinsic, meta_type::<char>()).into()
}

fn text(s: &str) -> DecodeDifferent<&'static str, String> {
    DecodeDifferent::Decoded(s.to_string())
}

fn texts(all: &[&str]) -> DecodeDifferent<&'static [&'static str], Vec<String>> {
    DecodeDifferent::Decoded(all.iter().map(|s| s.to_string()).collect())
}

fn v12_sample() -> RuntimeMetadataPrefixed {
    let system = v12::ModuleMetadata {
        name: text("System"),
        storage: Some(DecodeDifferent::Decoded(v12::StorageMetadata {
            prefix: text("System"),
            entries: DecodeDifferent::Decoded(vec![
                v12::StorageEntryMetadata {
                    name: text("Account"),
                    modifier: v12::StorageEntryModifier::Default,
                    ty: v12::StorageEntryType::Map {
                        hasher: v12::StorageHasher::Blake2_128Concat,
                        key: text("T::AccountId"),
                        value: text("AccountInfo<T::Index, T::AccountData>"),
                        unused: false,
                    },
                    default: DecodeDifferent::Decoded(vec![0, 0, 7]),
                    documentation: texts(&[" The full account information."]),
                },
                v12::StorageEntryMetadata {
                    name: text("Pair"),
                    modifier: v12::StorageEntryModifier::Optional,
                    ty: v12::StorageEntryType::DoubleMap {
                        hasher: v12::StorageHasher::Twox64Concat,
                        key1: text("u32"),
                        key2: text("u64"),
                        value: text("bool"),
                        key2_hasher: v12::StorageHasher::Identity,
                    },
                    default: DecodeDifferent::Decoded(vec![]),
                    documentation: texts(&[]),
                },
                v12::StorageEntryMetadata {
                    name: text("Plain"),
                    modifier: v12::StorageEntryModifier::Optional,
                    ty: v12::StorageEntryType::Plain(text("u128")),
                    default: DecodeDifferent::Decoded(vec![1]),
                    documentation: texts(&["a", "b"]),
                },
            ]),
        })),
        calls: Some(DecodeDifferent::Decoded(vec![v12::FunctionMetadata {
            name: text("remark"),
            arguments: DecodeDifferent::Decoded(vec![v12::FunctionArgumentMetadata {
                name: text("_remark"),
                ty: text("Vec<u8>"),
            }]),
            documentation: texts(&[" Make some on-chain remark."]),
        }])),
        event: Some(DecodeDifferent::Decoded(vec![v12::EventMetadata {
            name: text("ExtrinsicSuccess"),
            arguments: texts(&["DispatchInfo"]),
            documentation: texts(&[" An extrinsic completed successfully."]),
        }])),
        constants: DecodeDifferent::Decoded(vec![v12::ModuleConstantMetadata {
            name: text("BlockHashCount"),
            ty: text("T::BlockNumber"),
            value: DecodeDifferent::Decoded(vec![96, 9, 0, 0]),
            documentation: texts(&[]),
        }]),
        errors: DecodeDifferent::Decoded(vec![v12::ErrorMetadata {
            name: text("InvalidSpecName"),
            documentation: texts(&[" The name of specification does not match."]),
        }]),
        index: 0,
    };
    let balances = v12::ModuleMetadata {
        name: text("Balances"),
        storage: None,
        calls: None,
        event: None,
        constants: DecodeDifferent::Decoded(vec![]),
        errors: DecodeDifferent::Decoded(vec![]),
        index: 5,
    };
    RuntimeMetadataPrefixed(
        v12::META_RESERVED,
        RuntimeMetadata::V12(v12::RuntimeMetadataV12 {
            modules: DecodeDifferent::Decoded(vec![system, balances]),
            extrinsic: v12::ExtrinsicMetadata {
                version: 4,
                signed_extensions: vec![text("CheckSpecVersion"), text("CheckNonce")],
            },
        }),
    )
}

fn v13_sample() -> RuntimeMetadataPrefixed {
    let staking = v13::ModuleMetadata {
        name: text("Staking"),
        storage: Some(DecodeDifferent::Decoded(v13::StorageMetadata {
            prefix: text("Staking"),
            entries: DecodeDifferent::Decoded(vec![v13::StorageEntryMetadata {
                name: text("Ledger"),
                modifier: v13::StorageEntryModifier::Optional,
                ty: v13::StorageEntryType::NMap {
                    keys: texts(&["u32", "u64"]),
                    hashers: DecodeDifferent::Decoded(vec![
                        v13::StorageHasher::Blake2_128,
                        v13::StorageHasher::Twox256,
                    ]),
                    value: text("Ledger"),
                },
                default: DecodeDifferent::Decoded(vec![0]),
                documentation: texts(&[]),
            }]),
        })),
        calls: None,
        event: None,
        constants: DecodeDifferent::Decoded(vec![]),
        errors: DecodeDifferent::Decoded(vec![]),
        index: 9,
    };
    RuntimeMetadataPrefixed(
        v13::META_RESERVED,
        RuntimeMetadata::V13(v13::RuntimeMetadataV13 {
            modules: DecodeDifferent::Decoded(vec![staking]),
            extrinsic: v13::ExtrinsicMetadata { version: 4, signed_extensions: vec![] },
        }),
    )
}

#[test]
fn v14_full_rendering_is_the_producers() {
    let sample = v14_sample();
    let bytes = sample.encode();
    let expected = serde_json::to_string_pretty(&sample).unwrap();
    let metadata = decode(&bytes).unwrap();
    assert!(matches!(metadata, VersionedMetadata::V14(_)));
    let shown = render(resolve(metadata, None).unwrap());
    assert_eq!(shown, expected);
}

#[test]
fn v14_pallet_rendering_is_the_producers() {
    let sample = v14_sample();
    let bytes = sample.encode();
    let expected = match &sample.1 {
        RuntimeMetadata::V14(v14) => serde_json::to_string_pretty(&v14.pallets[0]).unwrap(),
        _ => unreachable!(),
    };
    let found = resolve(decode(&bytes).unwrap(), Some("System".to_string())).unwrap();
    assert!(matches!(found, LookupResult::Component(_)));
    assert_eq!(render(found), expected);
}

#[test]
fn v12_full_rendering_is_the_producers() {
    let sample = v12_sample();
    let bytes = sample.encode();
    let expected = serde_json::to_string_pretty(&sample).unwrap();
    let metadata = decode(&bytes).unwrap();
    assert!(matches!(metadata, VersionedMetadata::V12(_)));
    assert_eq!(render(resolve(metadata, None).unwrap()), expected);
}

#[test]
fn v12_module_rendering_is_the_producers() {
    let sample = v12_sample();
    let bytes = sample.encode();
    let expected = match &sample.1 {
        RuntimeMetadata::V12(v12) => match &v12.modules {
            DecodeDifferent::Decoded(modules) => serde_json::to_string_pretty(&modules[1]).unwrap(),
            _ => unreachable!(),
        },
        _ => unreachable!(),
    };
    let found = resolve(decode(&bytes).unwrap(), Some("Balances".to_string())).unwrap();
    assert_eq!(render(found), expected);
}

#[test]
fn v13_full_rendering_is_the_producers() {
    let sample = v13_sample();
    let bytes = sample.encode();
    let expected = serde_json::to_string_pretty(&sample).unwrap();
    let metadata = decode(&bytes).unwrap();
    assert!(matches!(metadata, VersionedMetadata::V13(_)));
    assert_eq!(render(resolve(metadata, None).unwrap()), expected);
}

fn agrees_with_the_producer(good: &[u8]) {
    for k in 0..good.len() {
        assert_eq!(decode(&good[..k]), Err(chainx_cli::DecodeError::Truncated), "cut at {}", k);
        assert!(RuntimeMetadataPrefixed::decode(&mut &good[..k]).is_err(), "cut at {}", k);
    }
    for at in 5..good.len() {
        for flip in [0x01u8, 0x02, 0x40, 0xff] {
            let mut bytes = good.to_vec();
            bytes[at] ^= flip;
            let ours = decode(&bytes);
            let theirs = RuntimeMetadataPrefixed::decode(&mut &bytes[..]);
            assert_eq!(ours.is_ok(), theirs.is_ok(), "byte {} flipped by {}", at, flip);
            if let (Ok(ours), Ok(theirs)) = (ours, theirs) {
                assert_eq!(chainx_cli::encode(&ours), theirs.encode());
                assert_eq!(
                    render(LookupResult::Full(ours)),
                    serde_json::to_string_pretty(&theirs).unwrap()
                );
            }
        }
    }
}

#[test]
fn v12_bytes_are_read_as_the_producer_reads_them() {
    agrees_with_the_producer(&v12_sample().encode());
}

#[test]
fn v13_bytes_are_read_as_the_producer_reads_them() {
    agrees_with_the_producer(&v13_sample().encode());
}

#[test]
fn v14_bytes_are_read_as_the_producer_reads_them() {
    agrees_with_the_producer(&v14_sample().encode());
}
