use proton_cli::error::Error;
use proton_cli::manifest::{
    decode, decode_permission, decode_sequence, decode_user, encode, encode_permission,
    encode_sequence, encode_user, find_field, kind_by_name, Value,
};
use proton_cli::project_types::{Permission, PermissionEnum, Project, Sequence, User};
use rustc_serialize::json::Json;

fn text(s: &str) -> Value {
    Value::Text(s.to_string())
}

fn record(fields: Vec<(&str, Value)>) -> Value {
    Value::Record(fields.into_iter().map(|(name, v)| (name.to_string(), v)).collect())
}

fn manifest_value_of(json: Json) -> Value {
    match json {
        Json::Null => Value::Null,
        Json::Boolean(b) => Value::Bool(b),
        Json::U64(n) => Value::Number(n),
        Json::I64(n) => u64::try_from(n).map(Value::Number).unwrap_or(Value::Other),
        Json::F64(_) => Value::Other,
        Json::String(s) => Value::Text(s),
        Json::Array(items) => Value::List(items.into_iter().map(manifest_value_of).collect()),
        Json::Object(fields) => Value::Record(
            fields.into_iter().map(|(name, v)| (name, manifest_value_of(v))).collect(),
        ),
    }
}

fn manifest_json_of(value: Value) -> Json {
    match value {
        Value::Null | Value::Other => Json::Null,
        Value::Bool(b) => Json::Boolean(b),
        Value::Number(n) => Json::U64(n),
        Value::Text(s) => Json::String(s),
        Value::List(items) => Json::Array(items.into_iter().map(manifest_json_of).collect()),
        Value::Record(fields) => Json::Object(
            fields.into_iter().map(|(name, v)| (name, manifest_json_of(v))).collect(),
        ),
    }
}

fn manifest_project() -> Project {
    Project {
        name: "New \"Project\"\n".to_string(),
        users: vec![
            User {
                name: "root".to_string(),
                public_key: "-----BEGIN PUBLIC KEY-----\nabc\n-----END PUBLIC KEY-----\n"
                    .to_string(),
                permissions: vec![
                    Permission { which: PermissionEnum::GrantPerm, target: None },
                    Permission { which: PermissionEnum::EditProj, target: None },
                    Permission { which: PermissionEnum::EditSeq, target: Some("show1".to_string()) },
                    Permission {
                        which: PermissionEnum::EditSeqSec,
                        target: Some("show1,2".to_string()),
                    },
                ],
            },
            User { name: "Ålice".to_string(), public_key: "".to_string(), permissions: Vec::new() },
        ],
        sequences: vec![
            Sequence::new("show1", "seq_show1", "show1.ogg", 304, None, Some(3)),
            Sequence::new("", "", "", 0, Some(0), Some(u32::MAX)),
        ],
    }
}

#[test]
fn a_project_is_read_from_what_it_is_written_as() {
    for project in [
        manifest_project(),
        Project { name: "".to_string(), users: Vec::new(), sequences: Vec::new() },
    ] {
        assert_eq!(decode(&encode(&project)), Ok(project));
    }
}

#[test]
fn a_project_comes_back_from_its_json_text() {
    let project = manifest_project();
    let written = manifest_json_of(encode(&project)).pretty().to_string();
    let read = Json::from_str(&written).expect("JSON");
    assert_eq!(decode(&manifest_value_of(read)), Ok(project.clone()));
    let compact = manifest_json_of(encode(&project)).to_string();
    let read = Json::from_str(&compact).expect("JSON");
    assert_eq!(decode(&manifest_value_of(read)), Ok(project));
}

#[test]
fn a_manifest_is_read_from_json_as_it_was_always_written() {
    let written = r#"{
      "name": "New Project",
      "users": [
        {
          "name": "root",
          "public_key": "key",
          "permissions": [
            { "which": "Administrate", "target": null },
            { "which": "EditSeq", "target": "show1" },
            { "which": "EditProj" }
          ]
        }
      ],
      "sequences": [
        {
          "name": "show1",
          "directory_name": "seq_show1",
          "music_file_name": "show1.ogg",
          "music_duration_sec": 304,
          "frame_duration_ms": 50,
          "num_sections": 1
        }
      ]
    }"#;
    let project = decode(&manifest_value_of(Json::from_str(written).expect("JSON")))
        .expect("Error reading project");
    assert_eq!(
        project,
        Project {
            name: "New Project".to_string(),
            users: vec![User {
                name: "root".to_string(),
                public_key: "key".to_string(),
                permissions: vec![
                    Permission { which: PermissionEnum::GrantPerm, target: None },
                    Permission { which: PermissionEnum::EditSeq, target: Some("show1".to_string()) },
                    Permission { which: PermissionEnum::EditProj, target: None },
                ],
            }],
            sequences: vec![Sequence::new("show1", "seq_show1", "show1.ogg", 304, None, None)],
        }
    );
}

#[test]
fn a_project_is_written_field_by_field() {
    let project = Project {
        name: "P".to_string(),
        users: vec![User {
            name: "u".to_string(),
            public_key: "k".to_string(),
            permissions: vec![Permission {
                which: PermissionEnum::EditSeq,
                target: Some("s".to_string()),
            }],
        }],
        sequences: vec![Sequence::new("s", "d", "m", 1, Some(2), Some(3))],
    };
    let expected = record(vec![
        ("name", text("P")),
        (
            "users",
            Value::List(vec![record(vec![
                ("name", text("u")),
                ("public_key", text("k")),
                (
                    "permissions",
                    Value::List(vec![record(vec![("which", text("EditSeq")), ("target", text("s"))])]),
                ),
            ])]),
        ),
        (
            "sequences",
            Value::List(vec![record(vec![
                ("name", text("s")),
                ("directory_name", text("d")),
                ("music_file_name", text("m")),
                ("music_duration_sec", Value::Number(1)),
                ("frame_duration_ms", Value::Number(2)),
                ("num_sections", Value::Number(3)),
            ])]),
        ),
    ]);
    assert_eq!(encode(&project), expected);
    assert_eq!(
        encode_permission(&Permission { which: PermissionEnum::GrantPerm, target: None }),
        record(vec![("which", text("GrantPerm")), ("target", Value::Null)])
    );
    assert_eq!(
        encode_user(&project.users[0]),
        record(vec![
            ("name", text("u")),
            ("public_key", text("k")),
            (
                "permissions",
                Value::List(vec![record(vec![("which", text("EditSeq")), ("target", text("s"))])]),
            ),
        ])
    );
    assert_eq!(
        decode_sequence(&encode_sequence(&project.sequences[0])),
        Some(Sequence::new("s", "d", "m", 1, Some(2), Some(3)))
    );
}

#[test]
fn what_is_no_project_is_a_decoding_error() {
    let error = Err(Error::JsonDecode("the manifest does not hold a project".to_string()));
    let users = || ("users", Value::List(Vec::new()));
    let sequences = || ("sequences", Value::List(Vec::new()));
    let bad: Vec<Value> = vec![
        Value::Null,
        Value::Other,
        Value::Bool(true),
        Value::Number(1),
        text("project"),
        Value::List(Vec::new()),
        record(Vec::new()),
        record(vec![users(), sequences()]),
        record(vec![("name", text("p")), sequences()]),
        record(vec![("name", text("p")), users()]),
        record(vec![("name", Value::Number(1)), users(), sequences()]),
        record(vec![("name", Value::Null), users(), sequences()]),
        record(vec![("name", text("p")), ("users", Value::Null), sequences()]),
        record(vec![("name", text("p")), ("users", Value::List(vec![Value::Null])), sequences()]),
        record(vec![("name", text("p")), users(), ("sequences", Value::List(vec![text("s")]))]),
        // The first field of a name is the one that counts.
        record(vec![("name", Value::Null), ("name", text("p")), users(), sequences()]),
    ];
    for value in bad {
        assert_eq!(decode(&value), error, "{:?}", value);
    }
    assert_eq!(
        decode(&record(vec![sequences(), ("x", Value::Other), users(), ("name", text("p"))])),
        Ok(Project { name: "p".to_string(), users: Vec::new(), sequences: Vec::new() })
    );
}

#[test]
fn permissions_are_read_by_the_name_of_their_kind() {
    assert_eq!(kind_by_name("GrantPerm"), Some(PermissionEnum::GrantPerm));
    assert_eq!(kind_by_name("Administrate"), Some(PermissionEnum::GrantPerm));
    assert_eq!(kind_by_name("EditProj"), Some(PermissionEnum::EditProj));
    assert_eq!(kind_by_name("EditSeq"), Some(PermissionEnum::EditSeq));
    assert_eq!(kind_by_name("EditSeqSec"), Some(PermissionEnum::EditSeqSec));
    for bad in ["", "grantperm", "EditSeqSection", "Edit", " EditSeq"] {
        assert_eq!(kind_by_name(bad), None);
    }
    assert_eq!(
        decode_permission(&record(vec![("target", text("t")), ("which", text("EditSeq"))])),
        Some(Permission { which: PermissionEnum::EditSeq, target: Some("t".to_string()) })
    );
    assert_eq!(decode_permission(&record(vec![("which", text("Nothing"))])), None);
    assert_eq!(decode_permission(&record(vec![("target", Value::Null)])), None);
    assert_eq!(
        decode_permission(&record(vec![("which", text("EditSeq")), ("target", Value::Number(1))])),
        None
    );
    assert_eq!(decode_permission(&Value::Null), None);
}

#[test]
fn users_and_sequences_need_all_their_fields() {
    let permissions = || ("permissions", Value::List(Vec::new()));
    assert_eq!(
        decode_user(&record(vec![("name", text("n")), ("public_key", text("k")), permissions()])),
        Some(User { name: "n".to_string(), public_key: "k".to_string(), permissions: Vec::new() })
    );
    assert_eq!(decode_user(&record(vec![("name", text("n")), ("public_key", text("k"))])), None);
    assert_eq!(decode_user(&record(vec![("name", text("n")), permissions()])), None);
    assert_eq!(decode_user(&record(vec![("public_key", text("k")), permissions()])), None);
    assert_eq!(
        decode_user(&record(vec![
            ("name", text("n")),
            ("public_key", text("k")),
            ("permissions", Value::List(vec![record(Vec::new())])),
        ])),
        None
    );
    let sequence = |duration: Value| {
        record(vec![
            ("name", text("s")),
            ("directory_name", text("d")),
            ("music_file_name", text("m")),
            ("music_duration_sec", duration),
            ("frame_duration_ms", Value::Number(50)),
            ("num_sections", Value::Number(1)),
        ])
    };
    assert_eq!(
        decode_sequence(&sequence(Value::Number(4294967295))),
        Some(Sequence::new("s", "d", "m", 4294967295, None, None))
    );
    assert_eq!(decode_sequence(&sequence(Value::Number(4294967296))), None);
    assert_eq!(decode_sequence(&sequence(Value::Other)), None);
    assert_eq!(decode_sequence(&sequence(text("304"))), None);
    assert_eq!(decode_sequence(&record(vec![("name", text("s"))])), None);
}

#[test]
fn fields_are_found_by_name() {
    let fields =
        vec![("a".to_string(), Value::Number(1)), ("b".to_string(), Value::Null), ("a".to_string(), Value::Number(2))];
    assert_eq!(find_field(&fields, "a"), Some(&Value::Number(1)));
    assert_eq!(find_field(&fields, "b"), Some(&Value::Null));
    assert_eq!(find_field(&fields, "c"), None);
    assert_eq!(find_field(&Vec::new(), "a"), None);
}
