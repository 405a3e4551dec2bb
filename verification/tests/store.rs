use openssl::rsa::Rsa;
use proton_cli::error::Error;
use proton_cli::project_types::{Permission, PermissionEnum, Project, User};
use proton_cli::store::{Action, Change, Commit, Event, Stage, Transaction};
use proton_cli::user::id_user;

fn store_keys() -> (String, String) {
    let rsa = Rsa::generate(2048).expect("Error generating key");
    let private = String::from_utf8(rsa.private_key_to_pem().expect("private half")).expect("text");
    let public = String::from_utf8(rsa.public_key_to_pem().expect("public half")).expect("text");
    (private, public)
}

fn store_user(name: &str, key: &str, admin: bool) -> User {
    let permissions = if admin {
        vec![Permission { which: PermissionEnum::GrantPerm, target: None }]
    } else {
        Vec::new()
    };
    User { name: name.to_string(), public_key: key.to_string(), permissions }
}

fn store_project() -> Project {
    Project {
        name: "Stored".to_string(),
        users: vec![store_user("root", "root key", true), store_user("Bob", "bob key", false)],
        sequences: Vec::new(),
    }
}

/// What lies on disk and what was committed, for a transaction to work on.
struct StoreDisk {
    manifest: Option<Project>,
    commits: Vec<Commit>,
    fail_write: bool,
    fail_commit: bool,
}

/// Runs `change` against `disk` as a program around the library would.
fn store_run(change: Change, disk: &mut StoreDisk) -> Result<(), Error> {
    let (mut transaction, mut action) = Transaction::begin(change);
    loop {
        let event = match action {
            Action::Read => Event::Read(match &disk.manifest {
                Some(project) => Ok(project.clone()),
                None => Err(Error::Io("entity not found".to_string())),
            }),
            Action::Write(project) => Event::Written(if disk.fail_write {
                Err(Error::Io("disk full".to_string()))
            } else {
                disk.manifest = Some(project);
                Ok(())
            }),
            Action::Commit(commit) => Event::Committed(if disk.fail_commit {
                Err(Error::Git("no repository".to_string()))
            } else {
                disk.commits.push(commit);
                Ok(())
            }),
            Action::Finish(result) => {
                assert_eq!(transaction.stage, Stage::Finished);
                return result;
            },
        };
        action = transaction.step(event).expect("an event in turn");
    }
}

#[test]
fn granting_a_permission_ends_in_a_commit() {
    let (root_pem, root_pub) = store_keys();
    let (_alice_pem, alice_pub) = store_keys();
    let project = Project::empty(&root_pub).expect("Error initializing project");
    let mut disk =
        StoreDisk { manifest: Some(project.clone()), commits: Vec::new(), fail_write: false, fail_commit: false };

    let root = id_user(&root_pem, &project).expect("Error identifying user");
    let alice = User::new("Alice", &alice_pub).expect("Error creating user");
    assert_eq!(store_run(Change::AddUser { admin: root.clone(), user: alice }, &mut disk), Ok(()));

    let change = Change::SetPermission {
        admin: root,
        add: true,
        target_username: "Alice".to_string(),
        permission: PermissionEnum::EditProj,
        target: None,
    };
    assert_eq!(store_run(change, &mut disk), Ok(()));

    let stored = disk.manifest.expect("a manifest");
    assert_eq!(
        stored.find_user_by_name("Alice").expect("Alice").permissions,
        vec![Permission { which: PermissionEnum::EditProj, target: None }]
    );
    assert_eq!(stored.users.len(), 2);
    assert_eq!(
        disk.commits,
        vec![
            Commit {
                author_name: "root".to_string(),
                author_email: "proton@teslaworks.net".to_string(),
                message: "Adding Alice as new user".to_string(),
            },
            Commit {
                author_name: "root".to_string(),
                author_email: "proton@teslaworks.net".to_string(),
                message: "Admin 'root' granting permission 'EditProj' to/from user Alice"
                    .to_string(),
            },
        ]
    );
}

#[test]
fn a_change_that_is_refused_is_not_written() {
    let project = store_project();
    let mut disk =
        StoreDisk { manifest: Some(project.clone()), commits: Vec::new(), fail_write: false, fail_commit: false };
    let bob = project.users[1].clone();
    let root = project.users[0].clone();

    let refused = vec![
        (
            Change::RemoveUser { admin: bob.clone(), name: "root".to_string() },
            Error::UnauthorizedAction,
        ),
        (
            Change::AddUser { admin: bob.clone(), user: store_user("Eve", "eve key", false) },
            Error::UnauthorizedAction,
        ),
        (
            Change::AddUser { admin: root.clone(), user: store_user("Bob", "other key", false) },
            Error::DuplicateUser("other key".to_string(), "Bob".to_string()),
        ),
        (
            Change::RemoveUser { admin: root.clone(), name: "Nobody".to_string() },
            Error::UserNotFound,
        ),
        (
            Change::SetPermission {
                admin: root.clone(),
                add: true,
                target_username: "Bob".to_string(),
                permission: PermissionEnum::EditSeq,
                target: Some("nonexistent".to_string()),
            },
            Error::InvalidPermissionTarget,
        ),
        (
            Change::SetPermission {
                admin: root.clone(),
                add: false,
                target_username: "root".to_string(),
                permission: PermissionEnum::GrantPerm,
                target: None,
            },
            Error::UnauthorizedAction,
        ),
    ];
    for (change, error) in refused {
        assert_eq!(store_run(change, &mut disk), Err(error));
        assert_eq!(disk.manifest, Some(store_project()));
        assert!(disk.commits.is_empty());
    }
}

#[test]
fn a_manifest_that_cannot_be_read_ends_the_change() {
    let mut disk = StoreDisk { manifest: None, commits: Vec::new(), fail_write: false, fail_commit: false };
    let change = Change::RemoveUser { admin: store_user("root", "k", true), name: "Bob".to_string() };
    assert_eq!(store_run(change, &mut disk), Err(Error::Io("entity not found".to_string())));
    assert_eq!(disk.manifest, None);
    assert!(disk.commits.is_empty());
}

#[test]
fn a_write_that_fails_is_not_committed() {
    let mut disk =
        StoreDisk { manifest: Some(store_project()), commits: Vec::new(), fail_write: true, fail_commit: false };
    let change = Change::RemoveUser { admin: store_user("root", "k", true), name: "Bob".to_string() };
    assert_eq!(store_run(change, &mut disk), Err(Error::Io("disk full".to_string())));
    assert!(disk.commits.is_empty());
}

#[test]
fn a_commit_that_fails_fails_the_change() {
    let mut disk =
        StoreDisk { manifest: Some(store_project()), commits: Vec::new(), fail_write: false, fail_commit: true };
    let change = Change::RemoveUser { admin: store_user("root", "k", true), name: "Bob".to_string() };
    assert_eq!(store_run(change, &mut disk), Err(Error::Git("no repository".to_string())));
    // The manifest was written all the same: the caller is told by the error.
    assert_eq!(disk.manifest.expect("a manifest").users.len(), 1);
}

#[test]
fn the_steps_come_in_turn() {
    let change = Change::RemoveUser { admin: store_user("root", "k", true), name: "Bob".to_string() };
    let (mut transaction, action) = Transaction::begin(change);
    assert!(matches!(action, Action::Read));
    assert_eq!(transaction.stage, Stage::Reading);

    // Events out of turn change nothing.
    assert!(transaction.step(Event::Written(Ok(()))).is_none());
    assert!(transaction.step(Event::Committed(Ok(()))).is_none());
    assert_eq!(transaction.stage, Stage::Reading);

    let action = transaction.step(Event::Read(Ok(store_project()))).expect("in turn");
    match action {
        Action::Write(project) => assert_eq!(project.users, vec![store_user("root", "root key", true)]),
        other => panic!("{:?}", other),
    }
    assert_eq!(transaction.stage, Stage::Writing);
    assert!(transaction.step(Event::Read(Ok(store_project()))).is_none());
    assert!(transaction.step(Event::Committed(Ok(()))).is_none());

    let action = transaction.step(Event::Written(Ok(()))).expect("in turn");
    match action {
        Action::Commit(commit) => {
            assert_eq!(commit.author_name, "root");
            assert_eq!(commit.author_email, "proton@teslaworks.net");
            assert_eq!(commit.message, "Removing user Bob");
        },
        other => panic!("{:?}", other),
    }
    assert_eq!(transaction.stage, Stage::Committing);
    assert!(transaction.step(Event::Written(Ok(()))).is_none());

    let action = transaction.step(Event::Committed(Ok(()))).expect("in turn");
    assert!(matches!(action, Action::Finish(Ok(()))));
    assert_eq!(transaction.stage, Stage::Finished);
    assert!(transaction.step(Event::Committed(Ok(()))).is_none());
    assert!(transaction.step(Event::Read(Ok(store_project()))).is_none());
}

#[test]
fn commits_say_what_was_done() {
    let root = store_user("root", "k", true);
    let revoke = Change::SetPermission {
        admin: root.clone(),
        add: false,
        target_username: "Bob".to_string(),
        permission: PermissionEnum::EditSeqSec,
        target: Some("show1,2".to_string()),
    };
    assert_eq!(
        revoke.message(),
        "Admin 'root' revoking permission 'EditSeqSec(show1,2)' to/from user Bob"
    );
    assert_eq!(revoke.admin(), &root);
    let grant = Change::SetPermission {
        admin: store_user("Ann", "k", true),
        add: true,
        target_username: "Bob".to_string(),
        permission: PermissionEnum::GrantPerm,
        target: None,
    };
    assert_eq!(
        grant.commit(),
        Commit {
            author_name: "Ann".to_string(),
            author_email: "proton@teslaworks.net".to_string(),
            message: "Admin 'Ann' granting permission 'GrantPerm' to/from user Bob".to_string(),
        }
    );
    let add = Change::AddUser { admin: root.clone(), user: store_user("Eve", "e", false) };
    assert_eq!(add.message(), "Adding Eve as new user");
    let remove = Change::RemoveUser { admin: root, name: "Eve".to_string() };
    assert_eq!(remove.message(), "Removing user Eve");
}

#[test]
fn a_sequence_joins_by_the_hand_of_an_administrator() {
    let project = store_project();
    let add = |admin: &User, name: &str, directory: &str| Change::AddSequence {
        admin: admin.clone(),
        name: name.to_string(),
        directory_name: directory.to_string(),
        music_file_name: "Dissonance.ogg".to_string(),
        music_duration_sec: 304,
    };
    let root = project.users[0].clone();
    let bob = project.users[1].clone();
    let change = add(&root, "New_Sequence", "seq_New_Sequence");
    assert_eq!(change.message(), "Adding new sequence New_Sequence");
    let changed = change.apply(&project).expect("applying");
    assert_eq!(changed.sequences.len(), 1);
    assert_eq!(changed.sequences[0].name, "New_Sequence");
    assert_eq!(changed.sequences[0].directory_name, "seq_New_Sequence");
    assert_eq!(changed.sequences[0].music_file_name, "Dissonance.ogg");
    assert_eq!(changed.sequences[0].music_duration_sec, 304);
    assert_eq!(changed.sequences[0].frame_duration_ms, 50);
    assert_eq!(changed.sequences[0].num_sections, 1);
    assert_eq!(changed.users, project.users);
    assert_eq!(
        add(&bob, "New_Sequence", "seq_New_Sequence").apply(&project),
        Err(Error::UnauthorizedAction)
    );
    assert_eq!(
        add(&root, "New_Sequence", "elsewhere").apply(&changed),
        Err(Error::DuplicateSequence("New_Sequence".to_string()))
    );
    assert_eq!(
        add(&root, "Other", "seq_New_Sequence").apply(&changed),
        Err(Error::DuplicateSequence("Other".to_string()))
    );
}

#[test]
fn a_change_leaves_the_project_it_was_applied_to() {
    let project = store_project();
    let change = Change::AddUser {
        admin: project.users[0].clone(),
        user: store_user("Eve", "eve key", false),
    };
    let changed = change.apply(&project).expect("applying");
    assert_eq!(changed.users.len(), 3);
    assert_eq!(changed.users[2], store_user("Eve", "eve key", false));
    assert_eq!(project, store_project());
}
