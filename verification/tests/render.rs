use chainx_cli::lookup::{Component, LookupResult, Schema};
use chainx_cli::metadata::VersionedMetadata;
use chainx_cli::node::Node;
use chainx_cli::render::render;

fn pallet_named(name: &str) -> LookupResult {
    LookupResult::Component(Component {
        schema: Schema::V14,
        record: Node::Record(vec![
            Node::Text(name.to_string()),
            Node::Opt(None),
            Node::Opt(Some(Box::new(Node::Record(vec![Node::Int(4294967295)])))),
            Node::Opt(None),
            Node::List(vec![]),
            Node::Opt(None),
            Node::Int(0),
        ]),
    })
}

fn shown_name(name: &str) -> String {
    let text = render(pallet_named(name));
    let line = text.lines().nth(1).unwrap();
    line.strip_prefix("  \"name\": ").unwrap().strip_suffix(",").unwrap().to_string()
}

#[test]
fn a_pallet_is_an_object_of_its_fields_in_order() {
    assert_eq!(
        render(pallet_named("Sudo")),
        "{\n  \"name\": \"Sudo\",\n  \"storage\": null,\n  \"calls\": {\n    \"ty\": 4294967295\n  },\n  \"event\": null,\n  \"constants\": [],\n  \"error\": null,\n  \"index\": 0\n}"
    );
}

#[test]
fn quotes_backslashes_and_control_characters_are_escaped() {
    assert_eq!(shown_name("plain"), "\"plain\"");
    assert_eq!(shown_name("a\"b"), "\"a\\\"b\"");
    assert_eq!(shown_name("a\\b"), "\"a\\\\b\"");
    assert_eq!(shown_name("\u{08}\u{0c}\n\r\t"), "\"\\b\\f\\n\\r\\t\"");
    assert_eq!(shown_name("\u{00}\u{01}\u{0b}\u{1f}"), "\"\\u0000\\u0001\\u000b\\u001f\"");
    assert_eq!(shown_name(" \u{7f}é€/'"), "\" \u{7f}é€/'\"");
    for name in ["a\"b", "\u{00}\u{1f}\\", "tab\there", "ünï", ""] {
        assert_eq!(shown_name(name), serde_json::to_string(name).unwrap());
    }
}

#[test]
fn numbers_stand_in_base_ten() {
    for index in [0u32, 7, 9, 10, 11, 99, 100, 101, 255] {
        let text = render(LookupResult::Component(Component {
            schema: Schema::V12,
            record: Node::Record(vec![
                Node::Text("M".to_string()),
                Node::Opt(None),
                Node::Opt(None),
                Node::Opt(None),
                Node::List(vec![]),
                Node::List(vec![]),
                Node::Int(index),
            ]),
        }));
        assert!(text.ends_with(&format!("  \"index\": {}\n}}", index)), "{}", text);
    }
}

#[test]
fn empty_fields_of_a_type_are_left_out() {
    let ty = |path: Vec<Node>, def: Node| {
        Node::Record(vec![
            Node::Int(0),
            Node::Record(vec![Node::List(path), Node::List(vec![]), def, Node::List(vec![])]),
        ])
    };
    let metadata = VersionedMetadata::V14(Node::Record(vec![
        Node::Record(vec![Node::List(vec![
            ty(vec![], Node::Variant(5, Some(Box::new(Node::Variant(3, None))))),
            ty(
                vec![Node::Text("Option".to_string())],
                Node::Variant(0, Some(Box::new(Node::Record(vec![Node::List(vec![])])))),
            ),
        ])]),
        Node::List(vec![]),
        Node::Record(vec![Node::Int(0), Node::Int(4), Node::List(vec![])]),
        Node::Int(1),
    ]));
    let text = render(LookupResult::Full(metadata));
    let expected = "[
  1635018093,
  {
    \"V14\": {
      \"types\": {
        \"types\": [
          {
            \"id\": 0,
            \"type\": {
              \"def\": {
                \"primitive\": \"u8\"
              }
            }
          },
          {
            \"id\": 0,
            \"type\": {
              \"path\": [
                \"Option\"
              ],
              \"def\": {
                \"composite\": {}
              }
            }
          }
        ]
      },
      \"pallets\": [],
      \"extrinsic\": {
        \"ty\": 0,
        \"version\": 4,
        \"signed_extensions\": []
      },
      \"ty\": 1
    }
  }
]";
    assert_eq!(text, expected);
}

#[test]
fn a_part_left_encoded_is_shown_as_its_bytes() {
    let text = render(LookupResult::Full(VersionedMetadata::V12(Node::Record(vec![
        Node::Raw(vec![8, 200]),
        Node::Record(vec![Node::Int(4), Node::Raw(vec![])]),
    ]))));
    let expected = "[
  1635018093,
  {
    \"V12\": {
      \"modules\": [
        8,
        200
      ],
      \"extrinsic\": {
        \"version\": 4,
        \"signed_extensions\": []
      }
    }
  }
]";
    assert_eq!(text, expected);
}

#[test]
fn unsupported_metadata_is_shown_under_its_tag() {
    assert_eq!(
        render(LookupResult::Full(VersionedMetadata::Unsupported(11))),
        "[\n  1635018093,\n  {\n    \"V11\": null\n  }\n]"
    );
    assert_eq!(
        render(LookupResult::Full(VersionedMetadata::Unsupported(255))),
        "[\n  1635018093,\n  {\n    \"V255\": null\n  }\n]"
    );
}

#[test]
fn a_value_that_has_not_the_layout_is_shown_as_null() {
    let text = render(LookupResult::Component(Component {
        schema: Schema::V13,
        record: Node::Record(vec![Node::Int(3), Node::Bool(true), Node::Variant(9, None)]),
    }));
    assert_eq!(text, "{\n  \"name\": null,\n  \"storage\": null,\n  \"calls\": null\n}");
    let text = render(LookupResult::Component(Component { schema: Schema::V13, record: Node::Int(3) }));
    assert_eq!(text, "null");
}
