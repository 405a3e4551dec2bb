//! The manifest: the document that holds a project between two runs.
//!
//! A document is a tree of records, lists, texts and numbers. How such a
//! tree is written to a file and read from it is not decided here; this
//! module says which tree a project is written as, and which trees are read
//! as a project.

use vstd::prelude::*;
use vstd::string::StringExecFns;

use crate::error::{Error, ErrorView};
use crate::lookup::{first_index, is_first, lemma_first_index, lemma_first_index_at};
use crate::project_types::permissions::{Permission, PermissionEnum, PermissionView};
use crate::project_types::project::{sequence_views, user_views, Project, ProjectView};
use crate::project_types::sequence::{Sequence, SequenceView};
use crate::project_types::user::{permission_views, User, UserView};
use crate::text::text_eq;

verus! {

/// A document, or a part of one.
#[derive(Debug, PartialEq, Eq)]
pub enum Value {
    /// Nothing.
    Null,
    /// Yes or no.
    Bool(bool),
    /// A whole number that is not negative.
    Number(u64),
    /// A text.
    Text(String),
    /// Some values in a row.
    List(Vec<Value>),
    /// Some values, each under a name.
    Record(Vec<(String, Value)>),
    /// Anything else that a file may hold, such as a negative number or a
    /// fraction. No part of a project is written so.
    Other,
}

/// The fields called `name`.
pub open spec fn field_named(name: Seq<char>) -> spec_fn((String, Value)) -> bool {
    |f: (String, Value)| f.0@ == name
}

/// The value of the first of `fields` that is called `name`.
pub open spec fn field(fields: Seq<(String, Value)>, name: Seq<char>) -> Option<Value> {
    match first_index(fields, field_named(name)) {
        Some(i) => Some(fields[i].1),
        None => None,
    }
}

/// The text that a field holds. A field that is missing holds none.
pub open spec fn as_text(value: Option<Value>) -> Option<Seq<char>> {
    match value {
        Some(Value::Text(text)) => Some(text@),
        _ => None,
    }
}

/// The text that a field may hold or not. A field that is missing, or that
/// holds nothing, holds no text, which is in order.
pub open spec fn as_optional_text(value: Option<Value>) -> Option<Option<Seq<char>>> {
    match value {
        Some(Value::Text(text)) => Some(Some(text@)),
        Some(Value::Null) => Some(None),
        None => Some(None),
        _ => None,
    }
}

/// The `u32` that a field holds.
pub open spec fn as_u32(value: Option<Value>) -> Option<u32> {
    match value {
        Some(Value::Number(number)) => if number <= u32::MAX {
            Some(number as u32)
        } else {
            None
        },
        _ => None,
    }
}

/// The values that a field holds in a row.
pub open spec fn as_list(value: Option<Value>) -> Option<Seq<Value>> {
    match value {
        Some(Value::List(items)) => Some(items@),
        _ => None,
    }
}

/// The kind of permission that a text names. "Administrate" is another name
/// for the permission to grant permissions.
pub open spec fn kind_named(name: Seq<char>) -> Option<PermissionEnum> {
    if name == "GrantPerm"@ || name == "Administrate"@ {
        Some(PermissionEnum::GrantPerm)
    } else if name == "EditProj"@ {
        Some(PermissionEnum::EditProj)
    } else if name == "EditSeq"@ {
        Some(PermissionEnum::EditSeq)
    } else if name == "EditSeqSec"@ {
        Some(PermissionEnum::EditSeqSec)
    } else {
        None
    }
}

/// The permission that `value` is read as: a record of the kind, by name,
/// under `which`, and the target, if any, under `target`.
pub open spec fn decoded_permission(value: Value) -> Option<PermissionView> {
    match value {
        Value::Record(fields) => match (
            as_text(field(fields@, "which"@)),
            as_optional_text(field(fields@, "target"@)),
        ) {
            (Some(name), Some(target)) => match kind_named(name) {
                Some(which) => Some(PermissionView { which, target }),
                None => None,
            },
            _ => None,
        },
        _ => None,
    }
}

/// The permissions that `items` are read as, if each is read as one.
pub open spec fn decoded_permissions(items: Seq<Value>) -> Option<Seq<PermissionView>> {
    if forall|i: int| 0 <= i < items.len() ==> decoded_permission(#[trigger] items[i]) is Some {
        Some(Seq::new(items.len(), |i: int| decoded_permission(items[i])->0))
    } else {
        None
    }
}

/// The user that `value` is read as: a record of the texts `name` and
/// `public_key` and the list `permissions`.
pub open spec fn decoded_user(value: Value) -> Option<UserView> {
    match value {
        Value::Record(fields) => match (
            as_text(field(fields@, "name"@)),
            as_text(field(fields@, "public_key"@)),
            as_list(field(fields@, "permissions"@)),
        ) {
            (Some(name), Some(public_key), Some(items)) => match decoded_permissions(items) {
                Some(permissions) => Some(UserView { name, public_key, permissions }),
                None => None,
            },
            _ => None,
        },
        _ => None,
    }
}

/// The users that `items` are read as, if each is read as one.
pub open spec fn decoded_users(items: Seq<Value>) -> Option<Seq<UserView>> {
    if forall|i: int| 0 <= i < items.len() ==> decoded_user(#[trigger] items[i]) is Some {
        Some(Seq::new(items.len(), |i: int| decoded_user(items[i])->0))
    } else {
        None
    }
}

/// The sequence that `value` is read as: a record of the texts `name`,
/// `directory_name` and `music_file_name` and the numbers
/// `music_duration_sec`, `frame_duration_ms` and `num_sections`.
pub open spec fn decoded_sequence(value: Value) -> Option<SequenceView> {
    match value {
        Value::Record(fields) => match (
            as_text(field(fields@, "name"@)),
            as_text(field(fields@, "directory_name"@)),
            as_text(field(fields@, "music_file_name"@)),
            as_u32(field(fields@, "music_duration_sec"@)),
            as_u32(field(fields@, "frame_duration_ms"@)),
            as_u32(field(fields@, "num_sections"@)),
        ) {
            (
                Some(name),
                Some(directory_name),
                Some(music_file_name),
                Some(music_duration_sec),
                Some(frame_duration_ms),
                Some(num_sections),
            ) => Some(
                SequenceView {
                    name,
                    directory_name,
                    music_file_name,
                    music_duration_sec,
                    frame_duration_ms,
                    num_sections,
                },
            ),
            _ => None,
        },
        _ => None,
    }
}

/// The sequences that `items` are read as, if each is read as one.
pub open spec fn decoded_sequences(items: Seq<Value>) -> Option<Seq<SequenceView>> {
    if forall|i: int| 0 <= i < items.len() ==> decoded_sequence(#[trigger] items[i]) is Some {
        Some(Seq::new(items.len(), |i: int| decoded_sequence(items[i])->0))
    } else {
        None
    }
}

/// The project that `value` is read as: a record of the text `name` and the
/// lists `users` and `sequences`.
pub open spec fn decoded_project(value: Value) -> Option<ProjectView> {
    match value {
        Value::Record(fields) => match (
            as_text(field(fields@, "name"@)),
            as_list(field(fields@, "users"@)),
            as_list(field(fields@, "sequences"@)),
        ) {
            (Some(name), Some(users), Some(sequences)) => match (
                decoded_users(users),
                decoded_sequences(sequences),
            ) {
                (Some(users), Some(sequences)) => Some(ProjectView { name, users, sequences }),
                _ => None,
            },
            _ => None,
        },
        _ => None,
    }
}

/// The value of the first of `fields` that is called `name`.
pub fn find_field<'a>(fields: &'a Vec<(String, Value)>, name: &str) -> (found: Option<&'a Value>)
    ensures
        match found {
            Some(value) => field(fields@, name@) == Some(*value),
            None => field(fields@, name@) is None,
        },
{
    let wanted = name.to_owned();
    let mut i: usize = 0;
    while i < fields.len()
        invariant
            i <= fields.len(),
            wanted@ == name@,
            forall|j: int| 0 <= j < i ==> !field_named(name@)(#[trigger] fields@[j]),
        decreases fields.len() - i,
    {
        if fields[i].0 == wanted {
            proof {
                assert(is_first(fields@, field_named(name@), i as int));
                lemma_first_index_at(fields@, field_named(name@), i as int);
            }
            return Some(&fields[i].1);
        }
        i += 1;
    }
    proof {
        lemma_first_index(fields@, field_named(name@));
    }
    None
}

/// What is said of a document that is not read as a project.
pub fn malformed(what: &str) -> (e: Error)
    ensures
        e@ == ErrorView::JsonDecode(what@),
{
    Error::JsonDecode(String::from_str(what))
}

fn text_field(fields: &Vec<(String, Value)>, name: &str) -> (r: Option<String>)
    ensures
        match r {
            Some(text) => as_text(field(fields@, name@)) == Some(text@),
            None => as_text(field(fields@, name@)) is None,
        },
{
    match find_field(fields, name) {
        Some(Value::Text(text)) => Some(text.clone()),
        _ => None,
    }
}

fn u32_field(fields: &Vec<(String, Value)>, name: &str) -> (r: Option<u32>)
    ensures
        r == as_u32(field(fields@, name@)),
{
    match find_field(fields, name) {
        Some(Value::Number(number)) => if *number <= 0xffff_ffff {
            Some(*number as u32)
        } else {
            None
        },
        _ => None,
    }
}

fn list_field<'a>(fields: &'a Vec<(String, Value)>, name: &str) -> (r: Option<&'a Vec<Value>>)
    ensures
        match r {
            Some(items) => as_list(field(fields@, name@)) == Some(items@),
            None => as_list(field(fields@, name@)) is None,
        },
{
    match find_field(fields, name) {
        Some(Value::List(items)) => Some(items),
        _ => None,
    }
}

/// Reads the name of a kind of permission.
pub fn kind_by_name(name: &str) -> (kind: Option<PermissionEnum>)
    ensures
        kind == kind_named(name@),
{
    if text_eq(name, "GrantPerm") || text_eq(name, "Administrate") {
        Some(PermissionEnum::GrantPerm)
    } else if text_eq(name, "EditProj") {
        Some(PermissionEnum::EditProj)
    } else if text_eq(name, "EditSeq") {
        Some(PermissionEnum::EditSeq)
    } else if text_eq(name, "EditSeqSec") {
        Some(PermissionEnum::EditSeqSec)
    } else {
        None
    }
}

/// Reads a permission.
pub fn decode_permission(value: &Value) -> (r: Option<Permission>)
    ensures
        match r {
            Some(perm) => decoded_permission(*value) == Some(perm@),
            None => decoded_permission(*value) is None,
        },
{
    let fields = match value {
        Value::Record(fields) => fields,
        _ => {
            return None;
        },
    };
    let name = match text_field(fields, "which") {
        Some(name) => name,
        None => {
            return None;
        },
    };
    let target = match find_field(fields, "target") {
        Some(Value::Text(text)) => Some(text.clone()),
        Some(Value::Null) => None,
        None => None,
        _ => {
            return None;
        },
    };
    match kind_by_name(name.as_str()) {
        Some(which) => Some(Permission { which, target }),
        None => None,
    }
}

fn decode_permissions(items: &Vec<Value>) -> (r: Option<Vec<Permission>>)
    ensures
        match r {
            Some(list) => decoded_permissions(items@) == Some(permission_views(list@)),
            None => decoded_permissions(items@) is None,
        },
{
    let mut list: Vec<Permission> = Vec::new();
    let mut i: usize = 0;
    while i < items.len()
        invariant
            i <= items.len(),
            list@.len() == i,
            forall|j: int| 0 <= j < i ==> decoded_permission(#[trigger] items@[j]) == Some(list@[j]@),
        decreases items.len() - i,
    {
        match decode_permission(&items[i]) {
            Some(perm) => {
                list.push(perm);
            },
            None => {
                return None;
            },
        }
        i += 1;
    }
    assert(permission_views(list@) =~= decoded_permissions(items@)->0);
    Some(list)
}

/// Reads a user.
pub fn decode_user(value: &Value) -> (r: Option<User>)
    ensures
        match r {
            Some(user) => decoded_user(*value) == Some(user@),
            None => decoded_user(*value) is None,
        },
{
    let fields = match value {
        Value::Record(fields) => fields,
        _ => {
            return None;
        },
    };
    let name = match text_field(fields, "name") {
        Some(name) => name,
        None => {
            return None;
        },
    };
    let public_key = match text_field(fields, "public_key") {
        Some(public_key) => public_key,
        None => {
            return None;
        },
    };
    let items = match list_field(fields, "permissions") {
        Some(items) => items,
        None => {
            return None;
        },
    };
    match decode_permissions(items) {
        Some(permissions) => Some(User { name, public_key, permissions }),
        None => None,
    }
}

fn decode_users(items: &Vec<Value>) -> (r: Option<Vec<User>>)
    ensures
        match r {
            Some(list) => decoded_users(items@) == Some(user_views(list@)),
            None => decoded_users(items@) is None,
        },
{
    let mut list: Vec<User> = Vec::new();
    let mut i: usize = 0;
    while i < items.len()
        invariant
            i <= items.len(),
            list@.len() == i,
            forall|j: int| 0 <= j < i ==> decoded_user(#[trigger] items@[j]) == Some(list@[j]@),
        decreases items.len() - i,
    {
        match decode_user(&items[i]) {
            Some(user) => {
                list.push(user);
            },
            None => {
                return None;
            },
        }
        i += 1;
    }
    assert(user_views(list@) =~= decoded_users(items@)->0);
    Some(list)
}

/// Reads a sequence.
pub fn decode_sequence(value: &Value) -> (r: Option<Sequence>)
    ensures
        match r {
            Some(sequence) => decoded_sequence(*value) == Some(sequence@),
            None => decoded_sequence(*value) is None,
        },
{
    let fields = match value {
        Value::Record(fields) => fields,
        _ => {
            return None;
        },
    };
    let name = match text_field(fields, "name") {
        Some(name) => name,
        None => {
            return None;
        },
    };
    let directory_name = match text_field(fields, "directory_name") {
        Some(directory_name) => directory_name,
        None => {
            return None;
        },
    };
    let music_file_name = match text_field(fields, "music_file_name") {
        Some(music_file_name) => music_file_name,
        None => {
            return None;
        },
    };
    let music_duration_sec: u32 = match u32_field(fields, "music_duration_sec") {
        Some(number) => number,
        None => {
            return None;
        },
    };
    let frame_duration_ms: u32 = match u32_field(fields, "frame_duration_ms") {
        Some(number) => number,
        None => {
            return None;
        },
    };
    let num_sections: u32 = match u32_field(fields, "num_sections") {
        Some(number) => number,
        None => {
            return None;
        },
    };
    Some(
        Sequence {
            name,
            directory_name,
            music_file_name,
            music_duration_sec,
            frame_duration_ms,
            num_sections,
        },
    )
}

fn decode_sequences(items: &Vec<Value>) -> (r: Option<Vec<Sequence>>)
    ensures
        match r {
            Some(list) => decoded_sequences(items@) == Some(sequence_views(list@)),
            None => decoded_sequences(items@) is None,
        },
{
    let mut list: Vec<Sequence> = Vec::new();
    let mut i: usize = 0;
    while i < items.len()
        invariant
            i <= items.len(),
            list@.len() == i,
            forall|j: int|
                0 <= j < i ==> decoded_sequence(#[trigger] items@[j]) == Some(list@[j]@),
        decreases items.len() - i,
    {
        match decode_sequence(&items[i]) {
            Some(sequence) => {
                list.push(sequence);
            },
            None => {
                return None;
            },
        }
        i += 1;
    }
    assert(sequence_views(list@) =~= decoded_sequences(items@)->0);
    Some(list)
}

/// What is said of a document that is not read as a project.
pub open spec fn malformed_text() -> Seq<char> {
    "the manifest does not hold a project"@
}

/// Reads a project from a document. A document that is not read as a project
/// is a decoding error.
pub fn decode(value: &Value) -> (r: Result<Project, Error>)
    ensures
        match r {
            Ok(project) => decoded_project(*value) == Some(project@),
            Err(e) => decoded_project(*value) is None && e@ == ErrorView::JsonDecode(
                malformed_text(),
            ),
        },
{
    let fields = match value {
        Value::Record(fields) => fields,
        _ => {
            return Err(malformed("the manifest does not hold a project"));
        },
    };
    let name = match text_field(fields, "name") {
        Some(name) => name,
        None => {
            return Err(malformed("the manifest does not hold a project"));
        },
    };
    let user_items = match list_field(fields, "users") {
        Some(items) => items,
        None => {
            return Err(malformed("the manifest does not hold a project"));
        },
    };
    let sequence_items = match list_field(fields, "sequences") {
        Some(items) => items,
        None => {
            return Err(malformed("the manifest does not hold a project"));
        },
    };
    let users = match decode_users(user_items) {
        Some(users) => users,
        None => {
            return Err(malformed("the manifest does not hold a project"));
        },
    };
    let sequences = match decode_sequences(sequence_items) {
        Some(sequences) => sequences,
        None => {
            return Err(malformed("the manifest does not hold a project"));
        },
    };
    Ok(Project { name, users, sequences })
}

/// Whether `value` is the text `text`.
pub open spec fn holds_text(value: Value, text: Seq<char>) -> bool {
    value matches Value::Text(held) && held@ == text
}

/// Whether `value` is the number `number`.
pub open spec fn holds_number(value: Value, number: u32) -> bool {
    value matches Value::Number(held) && held == number
}

/// Whether `value` is what `perm` is written as: a record of the name of the
/// kind, under `which`, and then the target, or nothing, under `target`.
pub open spec fn encodes_permission(perm: PermissionView, value: Value) -> bool {
    value matches Value::Record(fields) && {
        &&& fields@.len() == 2
        &&& fields@[0].0@ == "which"@
        &&& holds_text(fields@[0].1, perm.which.name_text())
        &&& fields@[1].0@ == "target"@
        &&& match perm.target {
            Some(text) => holds_text(fields@[1].1, text),
            None => fields@[1].1 is Null,
        }
    }
}

/// Whether `items` are what `permissions` are written as, one for one.
pub open spec fn encodes_permissions(permissions: Seq<PermissionView>, items: Seq<Value>) -> bool {
    &&& items.len() == permissions.len()
    &&& forall|i: int|
        0 <= i < items.len() ==> encodes_permission(permissions[i], #[trigger] items[i])
}

/// Whether `value` is what `user` is written as: a record of the name, the
/// public key and the permissions, in this order.
pub open spec fn encodes_user(user: UserView, value: Value) -> bool {
    value matches Value::Record(fields) && {
        &&& fields@.len() == 3
        &&& fields@[0].0@ == "name"@
        &&& holds_text(fields@[0].1, user.name)
        &&& fields@[1].0@ == "public_key"@
        &&& holds_text(fields@[1].1, user.public_key)
        &&& fields@[2].0@ == "permissions"@
        &&& fields@[2].1 matches Value::List(items) && encodes_permissions(
            user.permissions,
            items@,
        )
    }
}

/// Whether `items` are what `users` are written as, one for one.
pub open spec fn encodes_users(users: Seq<UserView>, items: Seq<Value>) -> bool {
    &&& items.len() == users.len()
    &&& forall|i: int| 0 <= i < items.len() ==> encodes_user(users[i], #[trigger] items[i])
}

/// Whether `value` is what `sequence` is written as: a record of its six
/// fields, in the order in which the type declares them.
pub open spec fn encodes_sequence(sequence: SequenceView, value: Value) -> bool {
    value matches Value::Record(fields) && {
        &&& fields@.len() == 6
        &&& fields@[0].0@ == "name"@
        &&& holds_text(fields@[0].1, sequence.name)
        &&& fields@[1].0@ == "directory_name"@
        &&& holds_text(fields@[1].1, sequence.directory_name)
        &&& fields@[2].0@ == "music_file_name"@
        &&& holds_text(fields@[2].1, sequence.music_file_name)
        &&& fields@[3].0@ == "music_duration_sec"@
        &&& holds_number(fields@[3].1, sequence.music_duration_sec)
        &&& fields@[4].0@ == "frame_duration_ms"@
        &&& holds_number(fields@[4].1, sequence.frame_duration_ms)
        &&& fields@[5].0@ == "num_sections"@
        &&& holds_number(fields@[5].1, sequence.num_sections)
    }
}

/// Whether `items` are what `sequences` are written as, one for one.
pub open spec fn encodes_sequences(sequences: Seq<SequenceView>, items: Seq<Value>) -> bool {
    &&& items.len() == sequences.len()
    &&& forall|i: int|
        0 <= i < items.len() ==> encodes_sequence(sequences[i], #[trigger] items[i])
}

/// Whether `value` is what `project` is written as: a record of the name,
/// the users and the sequences, in this order.
pub open spec fn encodes_project(project: ProjectView, value: Value) -> bool {
    value matches Value::Record(fields) && {
        &&& fields@.len() == 3
        &&& fields@[0].0@ == "name"@
        &&& holds_text(fields@[0].1, project.name)
        &&& fields@[1].0@ == "users"@
        &&& fields@[1].1 matches Value::List(items) && encodes_users(project.users, items@)
        &&& fields@[2].0@ == "sequences"@
        &&& fields@[2].1 matches Value::List(items) && encodes_sequences(
            project.sequences,
            items@,
        )
    }
}

/// In a record whose fields before `i` have other names, the field at `i` is
/// the one that is found under its name.
pub proof fn lemma_field_at(fields: Seq<(String, Value)>, name: Seq<char>, i: int)
    requires
        0 <= i < fields.len(),
        fields[i].0@ == name,
        forall|j: int| 0 <= j < i ==> (#[trigger] fields[j]).0@ != name,
    ensures
        field(fields, name) == Some(fields[i].1),
{
    assert(is_first(fields, field_named(name), i));
    lemma_first_index_at(fields, field_named(name), i);
}

/// Each kind of permission is read from its own name.
pub proof fn lemma_kind_round_trip(which: PermissionEnum)
    ensures
        kind_named(which.name_text()) == Some(which),
{
    reveal_strlit("GrantPerm");
    reveal_strlit("Administrate");
    reveal_strlit("EditProj");
    reveal_strlit("EditSeq");
    reveal_strlit("EditSeqSec");
    assert("GrantPerm"@.len() == 9);
    assert("Administrate"@.len() == 12);
    assert("EditProj"@.len() == 8);
    assert("EditSeq"@.len() == 7);
    assert("EditSeqSec"@.len() == 10);
}

/// A permission is read from what it is written as.
pub proof fn lemma_permission_round_trip(perm: PermissionView, value: Value)
    requires
        encodes_permission(perm, value),
    ensures
        decoded_permission(value) == Some(perm),
{
    reveal_strlit("which");
    reveal_strlit("target");
    assert("which"@.len() == 5);
    assert("target"@.len() == 6);
    let fields = value->Record_0@;
    lemma_field_at(fields, "which"@, 0);
    lemma_field_at(fields, "target"@, 1);
    lemma_kind_round_trip(perm.which);
}

/// A user is read from what they are written as.
pub proof fn lemma_user_round_trip(user: UserView, value: Value)
    requires
        encodes_user(user, value),
    ensures
        decoded_user(value) == Some(user),
{
    reveal_strlit("name");
    reveal_strlit("public_key");
    reveal_strlit("permissions");
    assert("name"@.len() == 4);
    assert("public_key"@.len() == 10);
    assert("permissions"@.len() == 11);
    let fields = value->Record_0@;
    lemma_field_at(fields, "name"@, 0);
    lemma_field_at(fields, "public_key"@, 1);
    lemma_field_at(fields, "permissions"@, 2);
    let items = fields[2].1->List_0@;
    assert forall|i: int| 0 <= i < items.len() implies decoded_permission(#[trigger] items[i])
        == Some(user.permissions[i]) by {
        lemma_permission_round_trip(user.permissions[i], items[i]);
    }
    assert(decoded_permissions(items)->0 =~= user.permissions);
}

/// A sequence is read from what it is written as.
pub proof fn lemma_sequence_round_trip(sequence: SequenceView, value: Value)
    requires
        encodes_sequence(sequence, value),
    ensures
        decoded_sequence(value) == Some(sequence),
{
    reveal_strlit("name");
    reveal_strlit("directory_name");
    reveal_strlit("music_file_name");
    reveal_strlit("music_duration_sec");
    reveal_strlit("frame_duration_ms");
    reveal_strlit("num_sections");
    assert("name"@.len() == 4);
    assert("directory_name"@.len() == 14);
    assert("music_file_name"@.len() == 15);
    assert("music_duration_sec"@.len() == 18);
    assert("frame_duration_ms"@.len() == 17);
    assert("num_sections"@.len() == 12);
    let fields = value->Record_0@;
    lemma_field_at(fields, "name"@, 0);
    lemma_field_at(fields, "directory_name"@, 1);
    lemma_field_at(fields, "music_file_name"@, 2);
    lemma_field_at(fields, "music_duration_sec"@, 3);
    lemma_field_at(fields, "frame_duration_ms"@, 4);
    lemma_field_at(fields, "num_sections"@, 5);
}

/// A project is read from what it is written as: reading undoes writing.
pub proof fn law_decode_inverts_encode(project: ProjectView, value: Value)
    requires
        encodes_project(project, value),
    ensures
        decoded_project(value) == Some(project),
{
    reveal_strlit("name");
    reveal_strlit("users");
    reveal_strlit("sequences");
    assert("name"@.len() == 4);
    assert("users"@.len() == 5);
    assert("sequences"@.len() == 9);
    let fields = value->Record_0@;
    lemma_field_at(fields, "name"@, 0);
    lemma_field_at(fields, "users"@, 1);
    lemma_field_at(fields, "sequences"@, 2);
    let users = fields[1].1->List_0@;
    assert forall|i: int| 0 <= i < users.len() implies decoded_user(#[trigger] users[i]) == Some(
        project.users[i],
    ) by {
        lemma_user_round_trip(project.users[i], users[i]);
    }
    assert(decoded_users(users)->0 =~= project.users);
    let sequences = fields[2].1->List_0@;
    assert forall|i: int| 0 <= i < sequences.len() implies decoded_sequence(
        #[trigger] sequences[i],
    ) == Some(project.sequences[i]) by {
        lemma_sequence_round_trip(project.sequences[i], sequences[i]);
    }
    assert(decoded_sequences(sequences)->0 =~= project.sequences);
}

fn named(name: &str, value: Value) -> (f: (String, Value))
    ensures
        f.0@ == name@,
        f.1 == value,
{
    (String::from_str(name), value)
}

/// Writes a permission.
pub fn encode_permission(perm: &Permission) -> (value: Value)
    ensures
        encodes_permission(perm@, value),
{
    let mut fields: Vec<(String, Value)> = Vec::new();
    fields.push(named("which", Value::Text(String::from_str(perm.which.name()))));
    fields.push(
        named(
            "target",
            match &perm.target {
                Some(text) => Value::Text(text.clone()),
                None => Value::Null,
            },
        ),
    );
    Value::Record(fields)
}

/// Writes a user.
pub fn encode_user(user: &User) -> (value: Value)
    ensures
        encodes_user(user@, value),
{
    let mut items: Vec<Value> = Vec::new();
    let mut i: usize = 0;
    while i < user.permissions.len()
        invariant
            i <= user.permissions.len(),
            items@.len() == i,
            forall|j: int|
                0 <= j < i ==> encodes_permission(user.permissions@[j]@, #[trigger] items@[j]),
        decreases user.permissions.len() - i,
    {
        items.push(encode_permission(&user.permissions[i]));
        i += 1;
    }
    let mut fields: Vec<(String, Value)> = Vec::new();
    fields.push(named("name", Value::Text(user.name.clone())));
    fields.push(named("public_key", Value::Text(user.public_key.clone())));
    fields.push(named("permissions", Value::List(items)));
    Value::Record(fields)
}

/// Writes a sequence.
pub fn encode_sequence(sequence: &Sequence) -> (value: Value)
    ensures
        encodes_sequence(sequence@, value),
{
    let mut fields: Vec<(String, Value)> = Vec::new();
    fields.push(named("name", Value::Text(sequence.name.clone())));
    fields.push(named("directory_name", Value::Text(sequence.directory_name.clone())));
    fields.push(named("music_file_name", Value::Text(sequence.music_file_name.clone())));
    fields.push(named("music_duration_sec", Value::Number(sequence.music_duration_sec as u64)));
    fields.push(named("frame_duration_ms", Value::Number(sequence.frame_duration_ms as u64)));
    fields.push(named("num_sections", Value::Number(sequence.num_sections as u64)));
    Value::Record(fields)
}

/// Writes a project as a document. The document is read back as the same
/// project.
pub fn encode(project: &Project) -> (value: Value)
    ensures
        encodes_project(project@, value),
        decoded_project(value) == Some(project@),
{
    let mut users: Vec<Value> = Vec::new();
    let mut i: usize = 0;
    while i < project.users.len()
        invariant
            i <= project.users.len(),
            users@.len() == i,
            forall|j: int| 0 <= j < i ==> encodes_user(project.users@[j]@, #[trigger] users@[j]),
        decreases project.users.len() - i,
    {
        users.push(encode_user(&project.users[i]));
        i += 1;
    }
    let mut sequences: Vec<Value> = Vec::new();
    let mut k: usize = 0;
    while k < project.sequences.len()
        invariant
            k <= project.sequences.len(),
            sequences@.len() == k,
            forall|j: int|
                0 <= j < k ==> encodes_sequence(project.sequences@[j]@, #[trigger] sequences@[j]),
        decreases project.sequences.len() - k,
    {
        sequences.push(encode_sequence(&project.sequences[k]));
        k += 1;
    }
    let mut fields: Vec<(String, Value)> = Vec::new();
    fields.push(named("name", Value::Text(project.name.clone())));
    fields.push(named("users", Value::List(users)));
    fields.push(named("sequences", Value::List(sequences)));
    let value = Value::Record(fields);
    proof {
        law_decode_inverts_encode(project@, value);
    }
    value
}

} // verus!
