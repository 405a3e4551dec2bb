use openssl::rsa::Rsa;
use proton_cli::error::Error;
use proton_cli::project_types::{Project, User};
use proton_cli::store::Change;
use proton_cli::user::{
    new_user, new_user_change, remove_user, remove_user_change, require_admin, validate_admin,
};

fn user_keys() -> (String, String) {
    let rsa = Rsa::generate(2048).expect("Error generating key");
    let private = String::from_utf8(rsa.private_key_to_pem().expect("private half")).expect("text");
    let public = String::from_utf8(rsa.public_key_to_pem().expect("public half")).expect("text");
    (private, public)
}

/// A new project, with root's private and public key.
fn user_setup() -> (Project, String, String) {
    let (root_pem, root_pub) = user_keys();
    let project = Project::empty(&root_pub).expect("Error initializing project");
    (project, root_pem, root_pub)
}

/// Tries to add the user to the project, and checks that they were added.
fn try_new_user(project: &Project, admin_key: &str, user_name: &str, pub_key: &str) -> Project {
    let changed = match new_user(admin_key, pub_key, user_name, project) {
        Ok(p) => p,
        Err(e) => panic!("{}", e.to_string()),
    };
    let expected =
        User { name: user_name.to_string(), public_key: pub_key.to_string(), permissions: Vec::new() };
    assert!(changed.user_exists(&expected));
    changed
}

#[test]
fn works_with_new_and_existing_protonfile() {
    let (project, root_pem, _root_pub) = user_setup();
    let (_a_pem, a_pub) = user_keys();
    let (_b_pem, b_pub) = user_keys();

    let project = try_new_user(&project, &root_pem, "Test User", &a_pub);
    let project = try_new_user(&project, &root_pem, "Test User 2", &b_pub);

    let names: Vec<&str> = project.users.iter().map(|u| u.name.as_str()).collect();
    assert_eq!(names, vec!["root", "Test User", "Test User 2"]);
}

#[test]
#[should_panic(expected = "SSL error")]
fn fails_with_invalid_admin_key_format() {
    let (project, _root_pem, root_pub) = user_setup();
    let (_a_pem, a_pub) = user_keys();

    // The public key is handed in where the private key belongs.
    try_new_user(&project, &root_pub, "Test User", &a_pub);
}

#[test]
#[should_panic(expected = "Unauthorized action")]
fn fails_with_admin_no_privileges() {
    let (project, root_pem, _root_pub) = user_setup();
    let (a_pem, a_pub) = user_keys();
    let (_b_pem, b_pub) = user_keys();

    // Add new user to project
    let project = match new_user(&root_pem, &a_pub, "userA", &project) {
        Ok(p) => p,
        Err(e) => panic!("{}", e.to_string()),
    };

    // Assert that user was added
    assert!(project.find_user_by_name("userA").is_some());

    // Create second user with first user as admin
    let _ = match new_user(&a_pem, &b_pub, "userB", &project) {
        Ok(p) => p,
        Err(e) => panic!("{}", e.to_string()),
    };
}

#[test]
#[should_panic(expected = "Public key is invalid")]
fn fails_with_non_pem_key() {
    let (project, root_pem, _root_pub) = user_setup();

    try_new_user(&project, &root_pem, "Test User", "not a public key at all");
}

#[test]
#[should_panic(expected = "Duplicate user")]
fn fails_with_duplicate_user_key() {
    let (project, root_pem, _root_pub) = user_setup();
    let (_a_pem, a_pub) = user_keys();

    let project = try_new_user(&project, &root_pem, "Test User 1", &a_pub);
    try_new_user(&project, &root_pem, "Test User 2", &a_pub);
}

#[test]
#[should_panic(expected = "Duplicate user")]
fn fails_with_duplicate_user_name() {
    let (project, root_pem, _root_pub) = user_setup();
    let (_a_pem, a_pub) = user_keys();
    let (_b_pem, b_pub) = user_keys();

    let project = try_new_user(&project, &root_pem, "Test User", &a_pub);
    try_new_user(&project, &root_pem, "Test User", &b_pub);
}

#[test]
fn works_with_valid_admin_key_and_name() {
    let (project, root_pem, _root_pub) = user_setup();
    let (_a_pem, a_pub) = user_keys();
    let name = "UserA";

    let with_user = try_new_user(&project, &root_pem, name, &a_pub);

    let without_user = remove_user(&root_pem, name, &with_user).expect("Error removing user");

    // Make sure user was removed
    assert!(without_user.find_user_by_name(name).is_none());
    assert_eq!(without_user, project);
}

#[test]
#[should_panic(expected = "Error removing user: Ssl")]
fn fails_with_bad_admin_key() {
    let (project, _root_pem, root_pub) = user_setup();
    match remove_user(&root_pub, "root", &project) {
        Ok(_) => (),
        Err(Error::Ssl(_)) => panic!("Error removing user: Ssl"),
        Err(e) => panic!("{}", e.to_string()),
    };
}

#[test]
#[should_panic(expected = "Error removing user: UnauthorizedAction")]
fn fails_with_unprivileged_admin_key() {
    let (project, root_pem, _root_pub) = user_setup();
    let (a_pem, a_pub) = user_keys();
    let project = try_new_user(&project, &root_pem, "UserA", &a_pub);
    match remove_user(&a_pem, "root", &project) {
        Ok(_) => (),
        Err(Error::UnauthorizedAction) => panic!("Error removing user: UnauthorizedAction"),
        Err(e) => panic!("{}", e.to_string()),
    };
}

#[test]
#[should_panic(expected = "Error removing user: UserNotFound")]
fn fails_with_unknown_name() {
    let (project, root_pem, _root_pub) = user_setup();
    match remove_user(&root_pem, "Nobody", &project) {
        Ok(_) => (),
        Err(Error::UserNotFound) => panic!("Error removing user: UserNotFound"),
        Err(e) => panic!("{}", e.to_string()),
    };
}

#[test]
fn each_refusal_has_its_own_error() {
    let (project, root_pem, root_pub) = user_setup();
    let (a_pem, a_pub) = user_keys();
    let (stranger_pem, _stranger_pub) = user_keys();

    assert_eq!(
        new_user(&root_pem, "no key", "UserA", &project),
        Err(Error::InvalidPublicKey("no key".to_string()))
    );
    assert_eq!(
        new_user(&root_pem, &root_pub, "UserA", &project),
        Err(Error::DuplicateUser(root_pub.clone(), "UserA".to_string()))
    );
    assert_eq!(
        new_user(&root_pem, &a_pub, "root", &project),
        Err(Error::DuplicateUser(a_pub.clone(), "root".to_string()))
    );
    assert_eq!(new_user(&stranger_pem, &a_pub, "UserA", &project), Err(Error::UserNotFound));

    let project = new_user(&root_pem, &a_pub, "UserA", &project).expect("Error adding user");
    let (_b_pem, b_pub) = user_keys();
    assert_eq!(new_user(&a_pem, &b_pub, "UserB", &project), Err(Error::UnauthorizedAction));
    assert_eq!(remove_user(&a_pem, "root", &project), Err(Error::UnauthorizedAction));
    assert_eq!(remove_user(&stranger_pem, "root", &project), Err(Error::UserNotFound));
    // An invalid admin key comes before an invalid public key.
    assert!(matches!(new_user("no key", "no key", "UserB", &project), Err(Error::Ssl(_))));
}

#[test]
fn only_administrators_pass_for_one() {
    let (project, root_pem, _root_pub) = user_setup();
    let (a_pem, a_pub) = user_keys();
    let project = new_user(&root_pem, &a_pub, "UserA", &project).expect("Error adding user");

    let admin = validate_admin(&root_pem, &project).expect("root is an administrator");
    assert_eq!(admin.name, "root");
    assert_eq!(validate_admin(&a_pem, &project), Err(Error::UnauthorizedAction));

    let plain = User { name: "P".to_string(), public_key: "k".to_string(), permissions: Vec::new() };
    assert_eq!(require_admin(plain), Err(Error::UnauthorizedAction));
    assert_eq!(require_admin(admin.clone()), Ok(admin));
}

#[test]
fn a_request_names_who_asks_and_what_for() {
    let (project, root_pem, _root_pub) = user_setup();
    let (a_pem, a_pub) = user_keys();
    let root = project.users[0].clone();

    match new_user_change(&root_pem, &a_pub, "UserA", &project).expect("a request") {
        Change::AddUser { admin, user } => {
            assert_eq!(admin, root);
            assert_eq!(
                user,
                User { name: "UserA".to_string(), public_key: a_pub.clone(), permissions: Vec::new() }
            );
        },
        other => panic!("{:?}", other),
    }
    match remove_user_change(&root_pem, "Nobody", &project).expect("a request") {
        Change::RemoveUser { admin, name } => {
            assert_eq!(admin, root);
            assert_eq!(name, "Nobody");
        },
        other => panic!("{:?}", other),
    }

    // A key that is no key is refused before anything is asked for.
    assert_eq!(
        new_user_change(&root_pem, "no key", "UserA", &project).err(),
        Some(Error::InvalidPublicKey("no key".to_string()))
    );
    // A name that is taken is seen when the request is applied.
    let taken = new_user_change(&root_pem, &a_pub, "root", &project).expect("a request");
    assert_eq!(taken.apply(&project), Err(Error::DuplicateUser(a_pub.clone(), "root".to_string())));

    let project = new_user(&root_pem, &a_pub, "UserA", &project).expect("Error adding user");
    let (_b_pem, b_pub) = user_keys();
    assert_eq!(
        new_user_change(&a_pem, &b_pub, "UserB", &project).err(),
        Some(Error::UnauthorizedAction)
    );
    assert_eq!(
        remove_user_change(&a_pem, "root", &project).err(),
        Some(Error::UnauthorizedAction)
    );
    let (stranger_pem, _stranger_pub) = user_keys();
    assert_eq!(
        remove_user_change(&stranger_pem, "root", &project).err(),
        Some(Error::UserNotFound)
    );
}
