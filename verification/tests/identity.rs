use openssl::rsa::Rsa;
use proton_cli::error::Error;
use proton_cli::project_types::{Project, User};
use proton_cli::user::{
    confirm_signature, find_signer, gather_verdicts, id_user, identity_challenge, judge, search,
};

/// A new RSA key: the private half and the public half, both in PEM form.
fn identity_keys() -> (String, String) {
    let rsa = Rsa::generate(2048).expect("Error generating key");
    let private = String::from_utf8(rsa.private_key_to_pem().expect("private half")).expect("text");
    let public = String::from_utf8(rsa.public_key_to_pem().expect("public half")).expect("text");
    (private, public)
}

fn identity_project(root_pub: &str) -> Project {
    Project::empty(root_pub).expect("Error initializing project")
}

#[test]
fn works_with_valid_keys() {
    let (_root_pem, root_pub) = identity_keys();
    let (a_pem, a_pub) = identity_keys();
    let project = identity_project(&root_pub);

    let name = "Test User".to_string();

    // Add new user to project
    let project = project.add_user(&name, &a_pub).expect("Error adding user");

    // Assert that user was added
    assert!(project.find_user_by_name(&name).is_some());

    // Identify user
    let user = id_user(&a_pem, &project).expect("Error identifying user");

    // Assert equality
    let u = User { name: name.to_string(), public_key: a_pub, permissions: Vec::new() };
    assert_eq!(user, u);
}

#[test]
#[should_panic(expected = "")]
fn id_user_fails_with_invalid_private_key() {
    let (_root_pem, root_pub) = identity_keys();
    let project = identity_project(&root_pub);
    match id_user("this is no key", &project) {
        Ok(_) => (),
        Err(e) => panic!("{}", e.to_string()),
    };
}

#[test]
fn invalid_private_key_is_an_ssl_error() {
    let (_root_pem, root_pub) = identity_keys();
    let project = identity_project(&root_pub);
    // A public key is no private key.
    let r = id_user(&root_pub, &project);
    assert!(matches!(r, Err(Error::Ssl(_))));
    assert!(r.unwrap_err().to_string().starts_with("SSL error"));
}

#[test]
fn unknown_private_key_is_user_not_found() {
    let (_root_pem, root_pub) = identity_keys();
    let (stranger_pem, _stranger_pub) = identity_keys();
    let project = identity_project(&root_pub);
    assert_eq!(id_user(&stranger_pem, &project), Err(Error::UserNotFound));
}

#[test]
fn nobody_is_found_in_a_project_without_users() {
    let (root_pem, _root_pub) = identity_keys();
    let project = Project { name: "Empty".to_string(), users: Vec::new(), sequences: Vec::new() };
    assert_eq!(id_user(&root_pem, &project), Err(Error::UserNotFound));
    assert_eq!(find_signer(&project, &[1, 2, 3]), Err(Error::UserNotFound));
}

#[test]
fn each_key_pair_identifies_its_own_user_only() {
    let (root_pem, root_pub) = identity_keys();
    let (a_pem, a_pub) = identity_keys();
    let (b_pem, b_pub) = identity_keys();
    let project = identity_project(&root_pub)
        .add_user("UserA", &a_pub)
        .expect("Error adding user")
        .add_user("UserB", &b_pub)
        .expect("Error adding user");

    assert_eq!(id_user(&root_pem, &project).expect("root").name, "root");
    assert_eq!(id_user(&a_pem, &project).expect("a").name, "UserA");
    assert_eq!(id_user(&b_pem, &project).expect("b").name, "UserB");

    // The same key gives the same user again.
    assert_eq!(id_user(&a_pem, &project).expect("a").public_key, a_pub);
}

#[test]
fn a_signature_is_confirmed_by_its_own_public_key_only() {
    let (a_pem, a_pub) = identity_keys();
    let (_b_pem, b_pub) = identity_keys();
    let project = Project {
        name: "Signed".to_string(),
        users: vec![
            User { name: "B".to_string(), public_key: b_pub.clone(), permissions: Vec::new() },
            User { name: "A".to_string(), public_key: a_pub.clone(), permissions: Vec::new() },
        ],
        sequences: Vec::new(),
    };
    let signer = id_user(&a_pem, &project).expect("Error identifying user");
    assert_eq!(signer.name, "A");

    // A signature that nobody made is confirmed by no key.
    assert_eq!(confirm_signature(&a_pub, &[0u8; 256]), Ok(false));
    assert_eq!(confirm_signature(&b_pub, &[0u8; 256]), Ok(false));
    assert_eq!(find_signer(&project, &[0u8; 256]), Err(Error::UserNotFound));
}

#[test]
fn a_stored_key_that_cannot_be_read_ends_the_search() {
    let (a_pem, a_pub) = identity_keys();
    let project = Project {
        name: "Broken".to_string(),
        users: vec![
            User { name: "Bad".to_string(), public_key: "no key".to_string(), permissions: Vec::new() },
            User { name: "A".to_string(), public_key: a_pub, permissions: Vec::new() },
        ],
        sequences: Vec::new(),
    };
    assert!(matches!(id_user(&a_pem, &project), Err(Error::Ssl(_))));
    assert!(confirm_signature("no key", &[1, 2, 3]).is_err());
}

#[test]
fn the_challenge_is_fixed() {
    assert_eq!(identity_challenge(), "Testing to find private/public key pair");
}

#[test]
fn judge_says_what_one_check_means() {
    let user = User { name: "A".to_string(), public_key: "key".to_string(), permissions: Vec::new() };
    let same = User { name: "A".to_string(), public_key: "key".to_string(), permissions: Vec::new() };
    assert_eq!(judge(&user, Ok(true)), Some(Ok(same)));
    assert_eq!(judge(&user, Ok(false)), None);
    assert_eq!(
        judge(&user, Err("bad key".to_string())),
        Some(Err(Error::Ssl("bad key".to_string())))
    );
}

fn identity_user(name: &str) -> User {
    User { name: name.to_string(), public_key: format!("key of {}", name), permissions: Vec::new() }
}

#[test]
fn the_first_verdict_that_is_not_a_no_decides() {
    let users = vec![identity_user("a"), identity_user("b"), identity_user("c")];
    let no = || Ok::<bool, String>(false);
    let yes = || Ok::<bool, String>(true);
    let failed = |text: &str| Err::<bool, String>(text.to_string());

    assert_eq!(search(&users, &vec![yes()]), Ok(identity_user("a")));
    assert_eq!(search(&users, &vec![no(), yes()]), Ok(identity_user("b")));
    assert_eq!(search(&users, &vec![no(), no(), yes()]), Ok(identity_user("c")));
    // What comes after the verdict that decides does not count.
    assert_eq!(search(&users, &vec![no(), yes(), yes()]), Ok(identity_user("b")));
    assert_eq!(search(&users, &vec![no(), yes(), failed("late")]), Ok(identity_user("b")));
    assert_eq!(
        search(&users, &vec![no(), failed("bad key"), yes()]),
        Err(Error::Ssl("bad key".to_string()))
    );
    assert_eq!(search(&users, &vec![failed("first")]), Err(Error::Ssl("first".to_string())));
    // Nobody signed where every verdict is a no.
    assert_eq!(search(&users, &vec![no(), no(), no()]), Err(Error::UserNotFound));
    assert_eq!(search(&users, &vec![no()]), Err(Error::UserNotFound));
    assert_eq!(search(&users, &Vec::new()), Err(Error::UserNotFound));
    assert_eq!(search(&Vec::new(), &Vec::new()), Err(Error::UserNotFound));
    // A verdict without a user identifies nobody.
    assert_eq!(search(&users, &vec![no(), no(), no(), yes()]), Err(Error::UserNotFound));
    assert_eq!(search(&Vec::new(), &vec![yes()]), Err(Error::UserNotFound));
    assert_eq!(search(&Vec::new(), &vec![failed("x")]), Err(Error::UserNotFound));
}

#[test]
fn verdicts_are_asked_for_up_to_the_one_that_decides() {
    let (a_pem, a_pub) = identity_keys();
    let (_b_pem, b_pub) = identity_keys();
    let user = |name: &str, key: &str| User {
        name: name.to_string(),
        public_key: key.to_string(),
        permissions: Vec::new(),
    };
    let project = Project {
        name: "Order".to_string(),
        users: vec![user("B", &b_pub), user("A", &a_pub), user("Bad", "no key"), user("B2", &b_pub)],
        sequences: Vec::new(),
    };
    // A signature that nobody made: every key up to the one that cannot be read says no.
    let verdicts = gather_verdicts(&project, &[0u8; 256]);
    assert_eq!(verdicts.len(), 3);
    assert_eq!(verdicts[0], Ok(false));
    assert_eq!(verdicts[1], Ok(false));
    assert!(verdicts[2].is_err());
    assert!(matches!(find_signer(&project, &[0u8; 256]), Err(Error::Ssl(_))));

    // The holder of A's key is A, though B stands before them.
    let found = id_user(&a_pem, &project).expect("Error identifying user");
    assert_eq!(found, user("A", &a_pub));
}
