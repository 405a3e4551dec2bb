//! Telling who a caller is from their private key, and the changes to the
//! list of users that only an administrator may make.
//!
//! A caller does not log in. They sign a fixed challenge with their private
//! key, and the first user of the project whose public key confirms the
//! signature is who they are.

use vstd::prelude::*;
use vstd::string::StringExecFns;

use crate::error::{Error, ErrorView};
use crate::keys::{
    confirms_md5,
    error_stack_text,
    fits_pem,
    is_public_key,
    md5_confirms,
    md5_signature,
    sign_md5,
    MAX_PEM_LEN,
};
use crate::lookup::{first_index, is_first, lemma_first_index, lemma_first_index_at};
use crate::project_types::project::{user_views, Project};
use crate::project_types::user::{User, UserView};
use crate::store::{Change, ChangeView};

verus! {

/// The text that every caller signs to show who they are.
pub open spec fn challenge_text() -> Seq<char> {
    "Testing to find private/public key pair"@
}

/// What is said of a key that is too long to be handed to the key library.
pub open spec fn too_long_text() -> Seq<char> {
    "key is too long"@
}

/// The bytes that `text` is handed to the key library as.
pub open spec fn utf8(text: Seq<char>) -> Seq<u8> {
    vstd::utf8::encode_utf8(text)
}

/// The signature of the challenge under `private_key`, where the key
/// library makes one.
pub open spec fn challenge_signature(private_key: Seq<char>) -> Option<Seq<u8>> {
    md5_signature(utf8(private_key), utf8(challenge_text()))
}

/// The key library's verdict on whether `signature` is a signature of the
/// challenge under `public_key`, where it reaches one.
pub open spec fn confirms(public_key: Seq<char>, signature: Seq<u8>) -> Option<bool> {
    md5_confirms(utf8(public_key), utf8(challenge_text()), signature)
}

/// Whether the key of each of the first `i` users was tried and does not
/// confirm `signature`.
pub open spec fn refused_before(users: Seq<UserView>, signature: Seq<u8>, i: int) -> bool {
    forall|j: int| 0 <= j < i ==> confirms((#[trigger] users[j]).public_key, signature) == Some(false)
}

/// Whether the user at `i` is the first whose key confirms `signature`, the
/// keys of all users before them having been tried and not confirming it.
pub open spec fn signed_by(users: Seq<UserView>, signature: Seq<u8>, i: int) -> bool {
    &&& 0 <= i < users.len()
    &&& refused_before(users, signature, i)
    &&& confirms(users[i].public_key, signature) == Some(true)
}

/// Whether the holder of `private_key` is the user at `i`: the challenge has
/// a signature under the private key, and the user at `i` is the first whose
/// public key confirms it.
pub open spec fn identified(private_key: Seq<char>, users: Seq<UserView>, i: int) -> bool {
    challenge_signature(private_key) matches Some(signature) && signed_by(users, signature, i)
}

/// Whether the holder of `private_key` is none of `users`: the challenge has
/// a signature under the private key, and no user's public key confirms it.
pub open spec fn stranger(private_key: Seq<char>, users: Seq<UserView>) -> bool {
    challenge_signature(private_key) matches Some(signature) && refused_before(
        users,
        signature,
        users.len() as int,
    )
}

/// A signature has one signer at most: the first whose key confirms it.
pub proof fn law_one_signer(users: Seq<UserView>, signature: Seq<u8>, i: int, k: int)
    requires
        signed_by(users, signature, i),
        signed_by(users, signature, k),
    ensures
        i == k,
{
    if i < k {
        assert(confirms(users[i].public_key, signature) == Some(false));
    }
    if k < i {
        assert(confirms(users[k].public_key, signature) == Some(false));
    }
}

/// A key holder is one user at most, and whoever is a user is no stranger.
pub proof fn law_one_identity(private_key: Seq<char>, users: Seq<UserView>, i: int, k: int)
    requires
        identified(private_key, users, i),
    ensures
        identified(private_key, users, k) ==> i == k,
        !stranger(private_key, users),
{
    let signature = challenge_signature(private_key)->0;
    if identified(private_key, users, k) {
        law_one_signer(users, signature, i, k);
    }
    if stranger(private_key, users) {
        assert(confirms(users[i].public_key, signature) == Some(false));
    }
}

/// The text that every caller signs to show who they are.
pub fn identity_challenge() -> (challenge: &'static str)
    ensures
        challenge@ == challenge_text(),
{
    "Testing to find private/public key pair"
}

/// What checking a signature against the key of `user` says about the
/// signer: `user` signed, where the key confirms the signature; nothing,
/// where it does not; and a failure of the key library is an error.
pub fn judge(user: &User, confirmed: Result<bool, String>) -> (verdict: Option<Result<User, Error>>)
    ensures
        match confirmed {
            Ok(true) => verdict matches Some(Ok(signer)) && signer@ == user@,
            Ok(false) => verdict is None,
            Err(text) => verdict matches Some(Err(e)) && e@ == ErrorView::Ssl(text@),
        },
{
    match confirmed {
        Ok(true) => Some(Ok(user.clone())),
        Ok(false) => None,
        Err(text) => Some(Err(Error::Ssl(text))),
    }
}

/// Asks the key library whether `signature` is a signature of the challenge
/// under `public_key`. A verdict that comes back is the key library's
/// verdict on the two. A key that the library cannot read, or that is too
/// long to hand to it, is an error, in words.
pub fn confirm_signature(public_key: &str, signature: &[u8]) -> (confirmed: Result<bool, String>)
    ensures
        confirmed matches Ok(verdict) ==> fits_pem(public_key@) && confirms(
            public_key@,
            signature@,
        ) == Some(verdict),
        !fits_pem(public_key@) ==> (confirmed matches Err(text) && text@ == too_long_text()),
{
    let key = public_key.as_bytes();
    if key.len() > MAX_PEM_LEN {
        return Err(String::from_str("key is too long"));
    }
    match confirms_md5(key, identity_challenge().as_bytes(), signature) {
        Ok(verdict) => Ok(verdict),
        Err(e) => Err(error_stack_text(&e)),
    }
}

/// A verdict as contracts see it: what the key library said of one key, or
/// the words of its error.
pub open spec fn verdict_view(verdict: Result<bool, String>) -> Result<bool, Seq<char>> {
    match verdict {
        Ok(confirmed) => Ok(confirmed),
        Err(text) => Err(text@),
    }
}

/// Verdicts as contracts see them, in the same order.
pub open spec fn verdict_views(verdicts: Seq<Result<bool, String>>) -> Seq<
    Result<bool, Seq<char>>,
> {
    verdicts.map_values(|verdict: Result<bool, String>| verdict_view(verdict))
}

/// The verdicts that end a search: every one but a plain no.
pub open spec fn settling() -> spec_fn(Result<bool, Seq<char>>) -> bool {
    |verdict: Result<bool, Seq<char>>| verdict != Ok::<bool, Seq<char>>(false)
}

/// Who signed, going by the verdicts on the users' keys, in the order of the
/// users: the first verdict that is not a plain no decides. The user whose
/// key confirmed the signature is the signer; an error of the key library
/// is the outcome where it comes first; and nobody signed where every
/// verdict is a no, or where there is no user for the verdict that decides.
pub open spec fn search_outcome(
    users: Seq<UserView>,
    verdicts: Seq<Result<bool, Seq<char>>>,
) -> Result<UserView, ErrorView> {
    match first_index(verdicts, settling()) {
        Some(i) => if i < users.len() {
            match verdicts[i] {
                Ok(_) => Ok(users[i]),
                Err(text) => Err(ErrorView::Ssl(text)),
            }
        } else {
            Err(ErrorView::UserNotFound)
        },
        None => Err(ErrorView::UserNotFound),
    }
}

/// The view of what a search came to.
pub open spec fn found_view(r: Result<User, Error>) -> Result<UserView, ErrorView> {
    match r {
        Ok(user) => Ok(user@),
        Err(e) => Err(e@),
    }
}

/// Decides who signed from the verdicts on the users' keys, `verdicts[i]`
/// being the verdict on the key of `users[i]`.
pub fn search(users: &Vec<User>, verdicts: &Vec<Result<bool, String>>) -> (r: Result<User, Error>)
    ensures
        found_view(r) == search_outcome(user_views(users@), verdict_views(verdicts@)),
{
    let ghost views = verdict_views(verdicts@);
    let mut i: usize = 0;
    while i < verdicts.len()
        invariant
            i <= verdicts.len(),
            views == verdict_views(verdicts@),
            forall|j: int| 0 <= j < i ==> !settling()(#[trigger] views[j]),
        decreases verdicts.len() - i,
    {
        let verdict: Result<bool, String> = match &verdicts[i] {
            Ok(confirmed) => Ok(*confirmed),
            Err(text) => Err(text.clone()),
        };
        assert(verdict_view(verdict) == views[i as int]);
        if i < users.len() {
            match judge(&users[i], verdict) {
                Some(outcome) => {
                    proof {
                        assert(is_first(views, settling(), i as int));
                        lemma_first_index_at(views, settling(), i as int);
                    }
                    return outcome;
                },
                None => {},
            }
        } else {
            match verdict {
                Ok(false) => {},
                _ => {
                    proof {
                        assert(is_first(views, settling(), i as int));
                        lemma_first_index_at(views, settling(), i as int);
                    }
                    return Err(Error::UserNotFound);
                },
            }
        }
        i += 1;
    }
    proof {
        lemma_first_index(views, settling());
    }
    Err(Error::UserNotFound)
}

/// Asks the key library for its verdict on the key of each user of
/// `project`, in order, up to the first verdict that is not a plain no.
pub fn gather_verdicts(project: &Project, signature: &[u8]) -> (verdicts: Vec<Result<bool, String>>)
    ensures
        verdicts@.len() <= project@.users.len(),
        forall|j: int|
            0 <= j < verdicts@.len() ==> match #[trigger] verdicts@[j] {
                Ok(verdict) => confirms(project@.users[j].public_key, signature@) == Some(verdict),
                Err(text) => !fits_pem(project@.users[j].public_key) ==> text@ == too_long_text(),
            },
        forall|j: int| 0 <= j < verdicts@.len() - 1 ==> #[trigger] verdicts@[j] == Ok::<
            bool,
            String,
        >(false),
        verdicts@.len() < project@.users.len() ==> verdicts@.len() > 0 && verdicts@[verdicts@.len()
            - 1] != Ok::<bool, String>(false),
        forall|j: int|
            0 <= j < verdicts@.len() && !fits_pem(project@.users[j].public_key)
                ==> #[trigger] verdicts@[j] is Err,
{
    let mut verdicts: Vec<Result<bool, String>> = Vec::new();
    let mut i: usize = 0;
    while i < project.users.len()
        invariant
            i <= project.users.len(),
            verdicts@.len() == i,
            forall|j: int|
                0 <= j < i ==> match #[trigger] verdicts@[j] {
                    Ok(verdict) => confirms(project@.users[j].public_key, signature@) == Some(
                        verdict,
                    ),
                    Err(text) => !fits_pem(project@.users[j].public_key) ==> text@
                        == too_long_text(),
                },
            forall|j: int| 0 <= j < i ==> #[trigger] verdicts@[j] == Ok::<bool, String>(false),
            forall|j: int|
                0 <= j < i && !fits_pem(project@.users[j].public_key) ==> #[trigger] verdicts@[j]
                    is Err,
        decreases project.users.len() - i,
    {
        let user = &project.users[i];
        assert(project@.users[i as int] == user@);
        let verdict = confirm_signature(user.public_key.as_str(), signature);
        let goes_on = match &verdict {
            Ok(false) => true,
            _ => false,
        };
        verdicts.push(verdict);
        if !goes_on {
            return verdicts;
        }
        i += 1;
    }
    verdicts
}

/// The first user of `project` whose public key confirms `signature` as a
/// signature of the challenge. The users are tried in the order of the
/// project.
///
/// A user is handed back only where their key confirms the signature and
/// the key of every user before them does not. No user is found only where
/// no user's key confirms it. A key that cannot be tried ends the search
/// with an error of the key library, the keys before it not confirming the
/// signature; of a key that is too long to be tried, the error says so.
pub fn find_signer(project: &Project, signature: &[u8]) -> (r: Result<User, Error>)
    ensures
        match r {
            Ok(user) => exists|i: int|
                signed_by(project@.users, signature@, i) && user@ == project@.users[i],
            Err(e) => if e@ == ErrorView::UserNotFound {
                refused_before(project@.users, signature@, project@.users.len() as int)
            } else {
                e@ is Ssl && exists|i: int|
                    0 <= i < project@.users.len() && refused_before(
                        project@.users,
                        signature@,
                        i,
                    ) && (!fits_pem(project@.users[i].public_key) ==> e@ == ErrorView::Ssl(
                        too_long_text(),
                    ))
            },
        },
        forall|i: int|
            signed_by(project@.users, signature@, i) ==> match r {
                Ok(user) => user@ == project@.users[i],
                Err(e) => e@ is Ssl,
            },
        project@.users.len() == 0 ==> (r matches Err(e) && e@ == ErrorView::UserNotFound),
        project@.users.len() > 0 && !fits_pem(project@.users[0].public_key) ==> (r matches Err(e)
            && e@ == ErrorView::Ssl(too_long_text())),
{
    let verdicts = gather_verdicts(project, signature);
    let r = search(&project.users, &verdicts);
    proof {
        let users = project@.users;
        let views = verdict_views(verdicts@);
        lemma_first_index(views, settling());
        let n = verdicts@.len() as int;
        assert forall|j: int| 0 <= j < n - 1 implies !settling()(#[trigger] views[j]) by {
            assert(verdicts@[j] == Ok::<bool, String>(false));
        }
        assert forall|j: int| 0 <= j < n - 1 implies confirms(
            (#[trigger] users[j]).public_key,
            signature@,
        ) == Some(false) by {
            assert(verdicts@[j] == Ok::<bool, String>(false));
        }
        assert(refused_before(users, signature@, n - 1));
        assert(found_view(r) == search_outcome(users, views));
        if n > 0 && settling()(views[n - 1]) {
            assert(views[n - 1] == verdict_view(verdicts@[n - 1]));
            assert(is_first(views, settling(), n - 1));
            lemma_first_index_at(views, settling(), n - 1);
            match verdicts@[n - 1] {
                Ok(verdict) => {
                    assert(verdict);
                    assert(signed_by(users, signature@, n - 1));
                    assert(r->Ok_0@ == users[n - 1]);
                },
                Err(text) => {
                    assert(r->Err_0@ == ErrorView::Ssl(text@));
                },
            }
        } else {
            if n > 0 {
                assert(views[n - 1] == verdict_view(verdicts@[n - 1]));
                assert(verdicts@[n - 1] == Ok::<bool, String>(false));
            }
            assert(n == users.len());
            assert forall|j: int| 0 <= j < n implies !settling()(#[trigger] views[j]) by {
                assert(verdicts@[j] == Ok::<bool, String>(false));
            }
            assert(first_index(views, settling()) is None);
            assert(r->Err_0@ == ErrorView::UserNotFound);
            assert forall|j: int| 0 <= j < n implies confirms(
                (#[trigger] users[j]).public_key,
                signature@,
            ) == Some(false) by {
                assert(verdicts@[j] == Ok::<bool, String>(false));
            }
            assert(refused_before(users, signature@, n));
        }
        assert forall|i: int| signed_by(users, signature@, i) implies match r {
            Ok(user) => user@ == users[i],
            Err(e) => e@ is Ssl,
        } by {
            if r is Ok {
                let k = choose|k: int| signed_by(users, signature@, k) && r->Ok_0@ == users[k];
                law_one_signer(users, signature@, i, k);
            } else if r->Err_0@ == ErrorView::UserNotFound {
                assert(confirms(users[i].public_key, signature@) == Some(false));
            }
        }
    }
    r
}

/// Who the holder of `private_key` is among the users of `project`.
///
/// The key library signs the challenge with the private key, an RSA key in
/// PEM form, and the signer is looked for as `find_signer` says. A user is
/// handed back only where they are identified by the key, and no user is
/// found only where the key is a stranger's. So whoever is identified by the
/// key is the user handed back, wherever they stand in the project, unless
/// the key library fails; no other user is, and they are never not found. A
/// stranger is never taken for a user. A key that the library cannot sign
/// with, or that is too long to hand to it, is an error of the key library,
/// which a caller can tell from finding no user.
pub fn id_user(private_key: &str, project: &Project) -> (r: Result<User, Error>)
    ensures
        match r {
            Ok(user) => exists|i: int|
                identified(private_key@, project@.users, i) && user@ == project@.users[i],
            Err(e) => if e@ == ErrorView::UserNotFound {
                stranger(private_key@, project@.users)
            } else {
                e@ is Ssl
            },
        },
        forall|i: int|
            identified(private_key@, project@.users, i) ==> match r {
                Ok(user) => user@ == project@.users[i],
                Err(e) => e@ is Ssl,
            },
        stranger(private_key@, project@.users) ==> (r matches Err(e) && (e@
            == ErrorView::UserNotFound || e@ is Ssl)),
        challenge_signature(private_key@) is None ==> (r matches Err(e) && e@ is Ssl),
        !fits_pem(private_key@) ==> (r matches Err(e) && e@ == ErrorView::Ssl(too_long_text())),
{
    proof {
        assert forall|i: int| identified(private_key@, project@.users, i) implies !stranger(
            private_key@,
            project@.users,
        ) && forall|k: int| identified(private_key@, project@.users, k) ==> i == k by {
            assert forall|k: int| identified(private_key@, project@.users, k) implies i == k by {
                law_one_identity(private_key@, project@.users, i, k);
            }
            law_one_identity(private_key@, project@.users, i, i);
        }
    }
    let key = private_key.as_bytes();
    if key.len() > MAX_PEM_LEN {
        return Err(Error::Ssl(String::from_str("key is too long")));
    }
    match sign_md5(key, identity_challenge().as_bytes()) {
        Ok(signature) => {
            let found = find_signer(project, signature.as_slice());
            proof {
                if found is Ok {
                    let user = found->Ok_0;
                    let i = choose|i: int|
                        signed_by(project@.users, signature@, i) && user@ == project@.users[i];
                    assert(identified(private_key@, project@.users, i));
                }
            }
            found
        },
        Err(e) => Err(Error::Ssl(error_stack_text(&e))),
    }
}

/// `user`, if they are an administrator.
pub fn require_admin(user: User) -> (r: Result<User, Error>)
    ensures
        match r {
            Ok(admin) => user@.is_admin() && admin == user,
            Err(e) => !user@.is_admin() && e@ == ErrorView::UnauthorizedAction,
        },
{
    if user.is_admin() {
        Ok(user)
    } else {
        Err(Error::UnauthorizedAction)
    }
}

/// Whether the holder of `private_key` is a user of the project, and that
/// user is an administrator or not, as `admin` says.
pub open spec fn identified_as(private_key: Seq<char>, users: Seq<UserView>, admin: bool) -> bool {
    exists|i: int| identified(private_key, users, i) && users[i].is_admin() == admin
}

/// Why the holder of `admin_key` is not let through as an administrator, if
/// `e` is why: they are a user but no administrator, or they are no user, or
/// the key library failed.
pub open spec fn turned_away(admin_key: Seq<char>, users: Seq<UserView>, e: ErrorView) -> bool {
    if e == ErrorView::UnauthorizedAction {
        identified_as(admin_key, users, false)
    } else if e == ErrorView::UserNotFound {
        stranger(admin_key, users)
    } else {
        e is Ssl
    }
}

/// The administrator of `project` who holds `admin_key`. Whoever is handed
/// back was identified by the key and is an administrator. A caller is
/// refused as unauthorized only where they were identified as a user who is
/// no administrator.
pub fn validate_admin(admin_key: &str, project: &Project) -> (r: Result<User, Error>)
    ensures
        match r {
            Ok(admin) => admin@.is_admin() && exists|i: int|
                identified(admin_key@, project@.users, i) && admin@ == project@.users[i],
            Err(e) => turned_away(admin_key@, project@.users, e@),
        },
        r is Ok ==> identified_as(admin_key@, project@.users, true),
        identified_as(admin_key@, project@.users, false) ==> (r matches Err(e) && (e@
            == ErrorView::UnauthorizedAction || e@ is Ssl)),
        !fits_pem(admin_key@) ==> (r matches Err(e) && e@ == ErrorView::Ssl(too_long_text())),
{
    match id_user(admin_key, project) {
        Ok(user) => {
            proof {
                let i = choose|i: int|
                    identified(admin_key@, project@.users, i) && user@ == project@.users[i];
                assert(identified_as(admin_key@, project@.users, user@.is_admin()));
            }
            require_admin(user)
        },
        Err(e) => Err(e),
    }
}

/// The request to let a new user called `name` join `project`, made by the
/// holder of `admin_key`.
///
/// The caller has to be identified as an administrator of `project`; one who
/// is identified as a user without that permission is refused as
/// unauthorized, and nothing else is. Then `public_key` has to be a key that
/// the key library reads as one. Whether the name and the key are free is
/// seen when the request is applied.
pub fn new_user_change(admin_key: &str, public_key: &str, name: &str, project: &Project) -> (r:
    Result<Change, Error>)
    ensures
        match r {
            Ok(change) => is_public_key(public_key@) && exists|i: int|
                identified(admin_key@, project@.users, i) && project@.users[i].is_admin()
                    && change@ == (ChangeView::AddUser {
                    admin: project@.users[i],
                    user: UserView {
                        name: name@,
                        public_key: public_key@,
                        permissions: Seq::empty(),
                    },
                }),
            Err(e) => turned_away(admin_key@, project@.users, e@) || (identified_as(
                admin_key@,
                project@.users,
                true,
            ) && e@ == ErrorView::InvalidPublicKey(public_key@)),
        },
        r matches Err(e) && e@ == ErrorView::UnauthorizedAction ==> identified_as(
            admin_key@,
            project@.users,
            false,
        ),
        identified_as(admin_key@, project@.users, false) ==> (r matches Err(e) && (e@
            == ErrorView::UnauthorizedAction || e@ is Ssl)),
        !fits_pem(admin_key@) ==> (r matches Err(e) && e@ == ErrorView::Ssl(too_long_text())),
        !fits_pem(public_key@) ==> r is Err,
{
    let admin = match validate_admin(admin_key, project) {
        Ok(admin) => admin,
        Err(e) => {
            return Err(e);
        },
    };
    match User::new(name, public_key) {
        Ok(user) => Ok(Change::AddUser { admin, user }),
        Err(e) => Err(e),
    }
}

/// The request to let the first user called `name` leave `project`, made by
/// the holder of `admin_key`.
///
/// The caller has to be identified as an administrator of `project`; one who
/// is identified as a user without that permission is refused as
/// unauthorized, and nothing else is. Whether there is such a user is seen
/// when the request is applied.
pub fn remove_user_change(admin_key: &str, name: &str, project: &Project) -> (r: Result<
    Change,
    Error,
>)
    ensures
        match r {
            Ok(change) => exists|i: int|
                identified(admin_key@, project@.users, i) && project@.users[i].is_admin()
                    && change@ == (ChangeView::RemoveUser {
                    admin: project@.users[i],
                    name: name@,
                }),
            Err(e) => turned_away(admin_key@, project@.users, e@),
        },
        identified_as(admin_key@, project@.users, false) ==> (r matches Err(e) && (e@
            == ErrorView::UnauthorizedAction || e@ is Ssl)),
        !fits_pem(admin_key@) ==> (r matches Err(e) && e@ == ErrorView::Ssl(too_long_text())),
{
    match validate_admin(admin_key, project) {
        Ok(admin) => Ok(Change::RemoveUser { admin, name: name.to_owned() }),
        Err(e) => Err(e),
    }
}

/// `project` with a new user called `name`, added on behalf of the holder of
/// `admin_key`.
///
/// The caller has to be identified as an administrator of `project`; one who
/// is identified as a user without that permission is refused as
/// unauthorized, and nothing else is. Then `public_key` has to be a key that
/// the key library reads as one; then neither the name nor the key may be
/// taken.
pub fn new_user(admin_key: &str, public_key: &str, name: &str, project: &Project) -> (r: Result<
    Project,
    Error,
>)
    ensures
        match r {
            Ok(changed) => identified_as(admin_key@, project@.users, true) && is_public_key(
                public_key@,
            ) && !project@.user_taken(name@, public_key@) && changed@ == project@.with_new_user(
                UserView { name: name@, public_key: public_key@, permissions: Seq::empty() },
            ),
            Err(e) => turned_away(admin_key@, project@.users, e@) || (identified_as(
                admin_key@,
                project@.users,
                true,
            ) && (e@ == ErrorView::InvalidPublicKey(public_key@) || (project@.user_taken(
                name@,
                public_key@,
            ) && e@ == ErrorView::DuplicateUser(public_key@, name@)))),
        },
        r matches Err(e) && e@ == ErrorView::UnauthorizedAction ==> identified_as(
            admin_key@,
            project@.users,
            false,
        ),
        identified_as(admin_key@, project@.users, false) ==> (r matches Err(e) && (e@
            == ErrorView::UnauthorizedAction || e@ is Ssl)),
        r matches Ok(changed) ==> (project@.wf() ==> changed@.wf()),
        !fits_pem(admin_key@) ==> (r matches Err(e) && e@ == ErrorView::Ssl(too_long_text())),
        !fits_pem(public_key@) ==> r is Err,
        project@.users.len() == 0 ==> r is Err,
{
    match new_user_change(admin_key, public_key, name, project) {
        Ok(change) => change.apply(project),
        Err(e) => Err(e),
    }
}

/// `project` without the first user called `name`, removed on behalf of the
/// holder of `admin_key`.
///
/// The caller has to be identified as an administrator of `project`; one who
/// is identified as a user without that permission is refused as
/// unauthorized, and nothing else is.
pub fn remove_user(admin_key: &str, name: &str, project: &Project) -> (r: Result<Project, Error>)
    ensures
        match r {
            Ok(changed) => identified_as(admin_key@, project@.users, true) && (project@.user_index(
                name@,
            ) matches Some(i) && changed@ == project@.without_user(i)),
            Err(e) => if e@ == ErrorView::UserNotFound {
                stranger(admin_key@, project@.users) || (identified_as(
                    admin_key@,
                    project@.users,
                    true,
                ) && project@.user_index(name@) is None)
            } else {
                turned_away(admin_key@, project@.users, e@)
            },
        },
        identified_as(admin_key@, project@.users, false) ==> (r matches Err(e) && (e@
            == ErrorView::UnauthorizedAction || e@ is Ssl)),
        r matches Ok(changed) ==> (project@.wf() ==> changed@.wf()),
        !fits_pem(admin_key@) ==> (r matches Err(e) && e@ == ErrorView::Ssl(too_long_text())),
        project@.users.len() == 0 ==> r is Err,
{
    match remove_user_change(admin_key, name, project) {
        Ok(change) => change.apply(project),
        Err(e) => Err(e),
    }
}

} // verus!
