//! The project: its users and its sequences, and the lookups and changes
//! that keep names and keys apart.

use vstd::prelude::*;

use crate::err_funcs::{duplicate_sequence, duplicate_user};
use crate::keys::{fits_pem, is_public_key};
use crate::error::{Error, ErrorView};
use crate::lookup::{first_index, is_first, lemma_first_index, lemma_first_index_at};
use crate::project_types::permissions::{Permission, PermissionEnum, PermissionView};
use crate::project_types::sequence::{Sequence, SequenceView};
use crate::project_types::user::{
    admin_permission,
    lemma_with_permission_wf,
    lemma_without_permission_wf,
    User,
    UserView,
};

verus! {

/// A project. This is what the project's manifest holds.
#[derive(Debug, PartialEq, Eq)]
pub struct Project {
    pub name: String,
    pub users: Vec<User>,
    pub sequences: Vec<Sequence>,
}

/// A project as contracts see it.
pub struct ProjectView {
    pub name: Seq<char>,
    pub users: Seq<UserView>,
    pub sequences: Seq<SequenceView>,
}

/// The views of a list of users, in the same order.
pub open spec fn user_views(users: Seq<User>) -> Seq<UserView> {
    users.map_values(|u: User| u@)
}

/// The views of a list of sequences, in the same order.
pub open spec fn sequence_views(sequences: Seq<Sequence>) -> Seq<SequenceView> {
    sequences.map_values(|s: Sequence| s@)
}

impl View for Project {
    type V = ProjectView;

    open spec fn view(&self) -> ProjectView {
        ProjectView {
            name: self.name@,
            users: user_views(self.users@),
            sequences: sequence_views(self.sequences@),
        }
    }
}

/// The users called `name`.
pub open spec fn named(name: Seq<char>) -> spec_fn(UserView) -> bool {
    |u: UserView| u.name == name
}

/// The users whose public key is `key`.
pub open spec fn keyed(key: Seq<char>) -> spec_fn(UserView) -> bool {
    |u: UserView| u.public_key == key
}

/// The sequences called `name`.
pub open spec fn sequence_named(name: Seq<char>) -> spec_fn(SequenceView) -> bool {
    |s: SequenceView| s.name == name
}

/// The sequences that have the name `name` or lie in the directory
/// `directory_name`.
pub open spec fn clashing(name: Seq<char>, directory_name: Seq<char>) -> spec_fn(
    SequenceView,
) -> bool {
    |s: SequenceView| s.name == name || s.directory_name == directory_name
}

/// The name of the user that a new project starts with.
pub open spec fn root_name() -> Seq<char> {
    "root"@
}

/// The name that a new project starts with.
pub open spec fn new_project_name() -> Seq<char> {
    "New Project"@
}

/// The permission to edit the project as a whole.
pub open spec fn edit_project_permission() -> PermissionView {
    PermissionView { which: PermissionEnum::EditProj, target: None }
}

impl ProjectView {
    /// The place of the first user called `name`.
    pub open spec fn user_index(self, name: Seq<char>) -> Option<int> {
        first_index(self.users, named(name))
    }

    /// The place of the first user whose public key is `key`.
    pub open spec fn key_index(self, key: Seq<char>) -> Option<int> {
        first_index(self.users, keyed(key))
    }

    /// The place of the first sequence called `name`.
    pub open spec fn sequence_index(self, name: Seq<char>) -> Option<int> {
        first_index(self.sequences, sequence_named(name))
    }

    /// The first sequence called `name`.
    pub open spec fn find_sequence(self, name: Seq<char>) -> Option<SequenceView> {
        match self.sequence_index(name) {
            Some(i) => Some(self.sequences[i]),
            None => None,
        }
    }

    /// Whether a user of the project has the name `name` or the public key
    /// `key`.
    pub open spec fn user_taken(self, name: Seq<char>, key: Seq<char>) -> bool {
        self.user_index(name) is Some || self.key_index(key) is Some
    }

    /// Whether a sequence of the project has the name `name` or lies in the
    /// directory `directory_name`.
    pub open spec fn sequence_taken(self, name: Seq<char>, directory_name: Seq<char>) -> bool {
        first_index(self.sequences, clashing(name, directory_name)) is Some
    }

    /// The project with `user` in place of the user at `i`.
    pub open spec fn with_user(self, i: int, user: UserView) -> ProjectView {
        ProjectView { users: self.users.update(i, user), ..self }
    }

    /// The project with `user` added after the users it has.
    pub open spec fn with_new_user(self, user: UserView) -> ProjectView {
        ProjectView { users: self.users.push(user), ..self }
    }

    /// The project without the user at `i`.
    pub open spec fn without_user(self, i: int) -> ProjectView {
        ProjectView { users: self.users.remove(i), ..self }
    }

    /// The project with `sequence` added after the sequences it has.
    pub open spec fn with_new_sequence(self, sequence: SequenceView) -> ProjectView {
        ProjectView { sequences: self.sequences.push(sequence), ..self }
    }

    /// A new project: `admin` is its only user, holding the permissions to
    /// grant permissions and to edit the project besides those they came
    /// with; it has no sequence yet.
    pub open spec fn bootstrap(admin: UserView) -> ProjectView {
        ProjectView {
            name: new_project_name(),
            users: seq![
                admin.with_permission(admin_permission()).with_permission(
                    edit_project_permission(),
                ),
            ],
            sequences: Seq::empty(),
        }
    }

    /// What a project has to keep: no two users share a name or a public
    /// key, no user holds a permission twice, and no two sequences share a
    /// name or a directory.
    pub open spec fn wf(self) -> bool {
        &&& forall|i: int, j: int|
            0 <= i < j < self.users.len() ==> {
                &&& (#[trigger] self.users[i]).name != (#[trigger] self.users[j]).name
                &&& self.users[i].public_key != self.users[j].public_key
            }
        &&& forall|i: int| 0 <= i < self.users.len() ==> (#[trigger] self.users[i]).wf()
        &&& forall|i: int, j: int|
            0 <= i < j < self.sequences.len() ==> {
                &&& (#[trigger] self.sequences[i]).name != (#[trigger] self.sequences[j]).name
                &&& self.sequences[i].directory_name != self.sequences[j].directory_name
            }
    }
}

/// A project that keeps what it has to keeps it when one user gets another
/// list of permissions, with no permission twice.
pub proof fn lemma_update_user_wf(project: ProjectView, i: int, user: UserView)
    requires
        project.wf(),
        0 <= i < project.users.len(),
        user.name == project.users[i].name,
        user.public_key == project.users[i].public_key,
        user.wf(),
    ensures
        project.with_user(i, user).wf(),
{
    let after = project.with_user(i, user);
    assert forall|a: int, b: int| 0 <= a < b < after.users.len() implies {
        &&& (#[trigger] after.users[a]).name != (#[trigger] after.users[b]).name
        &&& after.users[a].public_key != after.users[b].public_key
    } by {
        assert(after.users[a].name == project.users[a].name);
        assert(after.users[b].name == project.users[b].name);
        assert(after.users[a].public_key == project.users[a].public_key);
        assert(after.users[b].public_key == project.users[b].public_key);
    }
}

/// A project that keeps what it has to keeps it when a user joins whose name
/// and key no user has.
pub proof fn lemma_new_user_wf(project: ProjectView, user: UserView)
    requires
        project.wf(),
        user.wf(),
        !project.user_taken(user.name, user.public_key),
    ensures
        project.with_new_user(user).wf(),
{
    lemma_first_index(project.users, named(user.name));
    lemma_first_index(project.users, keyed(user.public_key));
    let after = project.with_new_user(user);
    assert forall|a: int, b: int| 0 <= a < b < after.users.len() implies {
        &&& (#[trigger] after.users[a]).name != (#[trigger] after.users[b]).name
        &&& after.users[a].public_key != after.users[b].public_key
    } by {
        assert(after.users[a] == project.users[a]);
        if b < project.users.len() {
            assert(after.users[b] == project.users[b]);
        } else {
            assert(!named(user.name)(project.users[a]));
            assert(!keyed(user.public_key)(project.users[a]));
        }
    }
    assert forall|a: int| 0 <= a < after.users.len() implies (#[trigger] after.users[a]).wf() by {
        if a < project.users.len() {
            assert(after.users[a] == project.users[a]);
        }
    }
}

/// A project that keeps what it has to keeps it when a user leaves.
pub proof fn lemma_without_user_wf(project: ProjectView, i: int)
    requires
        project.wf(),
        0 <= i < project.users.len(),
    ensures
        project.without_user(i).wf(),
{
    let after = project.without_user(i);
    assert forall|a: int| 0 <= a < after.users.len() implies #[trigger] after.users[a] == project.users[if a < i { a } else { a + 1 }] by {}
    assert forall|a: int, b: int| 0 <= a < b < after.users.len() implies {
        &&& (#[trigger] after.users[a]).name != (#[trigger] after.users[b]).name
        &&& after.users[a].public_key != after.users[b].public_key
    } by {
        let a0 = if a < i { a } else { a + 1 };
        let b0 = if b < i { b } else { b + 1 };
        assert(after.users[a] == project.users[a0]);
        assert(after.users[b] == project.users[b0]);
    }
    assert forall|a: int| 0 <= a < after.users.len() implies (#[trigger] after.users[a]).wf() by {
        let a0 = if a < i { a } else { a + 1 };
        assert(after.users[a] == project.users[a0]);
    }
}

/// A project that keeps what it has to keeps it when a sequence joins whose
/// name and directory no sequence has.
pub proof fn lemma_new_sequence_wf(project: ProjectView, sequence: SequenceView)
    requires
        project.wf(),
        !project.sequence_taken(sequence.name, sequence.directory_name),
    ensures
        project.with_new_sequence(sequence).wf(),
{
    lemma_first_index(project.sequences, clashing(sequence.name, sequence.directory_name));
    let after = project.with_new_sequence(sequence);
    assert forall|a: int, b: int| 0 <= a < b < after.sequences.len() implies {
        &&& (#[trigger] after.sequences[a]).name != (#[trigger] after.sequences[b]).name
        &&& after.sequences[a].directory_name != after.sequences[b].directory_name
    } by {
        assert(after.sequences[a] == project.sequences[a]);
        if b < project.sequences.len() {
            assert(after.sequences[b] == project.sequences[b]);
        } else {
            assert(!clashing(sequence.name, sequence.directory_name)(project.sequences[a]));
        }
    }
}

fn users_clone(list: &Vec<User>) -> (copy: Vec<User>)
    ensures
        user_views(copy@) == user_views(list@),
{
    let mut copy: Vec<User> = Vec::new();
    let mut i: usize = 0;
    while i < list.len()
        invariant
            i <= list.len(),
            user_views(copy@) == user_views(list@.take(i as int)),
        decreases list.len() - i,
    {
        let ghost views = user_views(copy@);
        copy.push(list[i].clone());
        assert(user_views(copy@) =~= views.push(list@[i as int]@));
        assert(user_views(list@.take(i + 1)) =~= views.push(list@[i as int]@));
        i += 1;
    }
    assert(list@.take(i as int) =~= list@);
    copy
}

fn sequences_clone(list: &Vec<Sequence>) -> (copy: Vec<Sequence>)
    ensures
        copy@ == list@,
{
    let mut copy: Vec<Sequence> = Vec::new();
    let mut i: usize = 0;
    while i < list.len()
        invariant
            i <= list.len(),
            copy@ == list@.take(i as int),
        decreases list.len() - i,
    {
        copy.push(list[i].clone());
        assert(copy@ =~= list@.take(i + 1));
        i += 1;
    }
    assert(list@.take(i as int) =~= list@);
    copy
}

impl Clone for Project {
    fn clone(&self) -> (copy: Project)
        ensures
            copy@ == self@,
    {
        Project {
            name: self.name.clone(),
            users: users_clone(&self.users),
            sequences: sequences_clone(&self.sequences),
        }
    }
}

impl Project {
    /// A new project whose only user is the administrator "root", with
    /// `admin_pub_key` for public key. A project is made only of a key that
    /// the key library read as one (see `User::new`).
    pub fn empty(admin_pub_key: &str) -> (r: Result<Project, Error>)
        ensures
            match r {
                Ok(project) => is_public_key(admin_pub_key@) && project@ == ProjectView::bootstrap(
                    UserView {
                        name: root_name(),
                        public_key: admin_pub_key@,
                        permissions: Seq::empty(),
                    },
                ) && project@.wf(),
                Err(e) => e@ == ErrorView::InvalidPublicKey(admin_pub_key@),
            },
            !fits_pem(admin_pub_key@) ==> r is Err,
    {
        match User::new("root", admin_pub_key) {
            Ok(admin) => Ok(Project::bootstrap(admin)),
            Err(e) => Err(e),
        }
    }

    /// A new project with `admin` for its only user and no sequence. `admin`
    /// is given the permissions to grant permissions and to edit the project.
    pub fn bootstrap(admin: User) -> (project: Project)
        ensures
            project@ == ProjectView::bootstrap(admin@),
            admin@.wf() ==> project@.wf(),
    {
        let mut admin = admin;
        let ghost before = admin@;
        admin.add_permission(Permission { which: PermissionEnum::GrantPerm, target: None });
        let ghost between = admin@;
        admin.add_permission(Permission { which: PermissionEnum::EditProj, target: None });
        proof {
            if before.wf() {
                lemma_with_permission_wf(before, admin_permission());
                lemma_with_permission_wf(between, edit_project_permission());
            }
        }
        let mut users: Vec<User> = Vec::new();
        users.push(admin);
        let project = Project {
            name: "New Project".to_owned(),
            users,
            sequences: Vec::new(),
        };
        assert(project@.users =~= ProjectView::bootstrap(before).users);
        assert(project@.sequences =~= Seq::empty());
        project
    }

    /// The first sequence called `name`.
    pub fn find_sequence_by_name(&self, name: &str) -> (found: Option<&Sequence>)
        ensures
            match found {
                Some(sequence) => self@.sequence_index(name@) matches Some(i) && *sequence
                    == self.sequences@[i],
                None => self@.sequence_index(name@) is None,
            },
            found matches Some(sequence) ==> self@.find_sequence(name@) == Some(sequence@),
            found is None ==> self@.find_sequence(name@) is None,
    {
        let wanted = name.to_owned();
        let mut i: usize = 0;
        while i < self.sequences.len()
            invariant
                i <= self.sequences.len(),
                wanted@ == name@,
                forall|j: int| 0 <= j < i ==> !sequence_named(name@)(#[trigger] self@.sequences[j]),
            decreases self.sequences.len() - i,
        {
            if self.sequences[i].name == wanted {
                proof {
                    assert(is_first(self@.sequences, sequence_named(name@), i as int));
                    lemma_first_index_at(self@.sequences, sequence_named(name@), i as int);
                }
                return Some(&self.sequences[i]);
            }
            i += 1;
        }
        proof {
            lemma_first_index(self@.sequences, sequence_named(name@));
        }
        None
    }

    /// The first user whose public key is `pub_key`.
    pub fn find_user_by_public_key(&self, pub_key: &str) -> (found: Option<&User>)
        ensures
            match found {
                Some(user) => self@.key_index(pub_key@) matches Some(i) && *user == self.users@[i],
                None => self@.key_index(pub_key@) is None,
            },
    {
        let wanted = pub_key.to_owned();
        let mut i: usize = 0;
        while i < self.users.len()
            invariant
                i <= self.users.len(),
                wanted@ == pub_key@,
                forall|j: int| 0 <= j < i ==> !keyed(pub_key@)(#[trigger] self@.users[j]),
            decreases self.users.len() - i,
        {
            if self.users[i].public_key == wanted {
                proof {
                    assert(is_first(self@.users, keyed(pub_key@), i as int));
                    lemma_first_index_at(self@.users, keyed(pub_key@), i as int);
                }
                return Some(&self.users[i]);
            }
            i += 1;
        }
        proof {
            lemma_first_index(self@.users, keyed(pub_key@));
        }
        None
    }

    /// Where the first user called `name` stands in the list of users.
    pub fn user_position(&self, name: &str) -> (found: Option<usize>)
        ensures
            match found {
                Some(i) => self@.user_index(name@) == Some(i as int) && i < self.users.len(),
                None => self@.user_index(name@) is None,
            },
    {
        let wanted = name.to_owned();
        let mut i: usize = 0;
        while i < self.users.len()
            invariant
                i <= self.users.len(),
                wanted@ == name@,
                forall|j: int| 0 <= j < i ==> !named(name@)(#[trigger] self@.users[j]),
            decreases self.users.len() - i,
        {
            if self.users[i].name == wanted {
                proof {
                    assert(is_first(self@.users, named(name@), i as int));
                    lemma_first_index_at(self@.users, named(name@), i as int);
                }
                return Some(i);
            }
            i += 1;
        }
        proof {
            lemma_first_index(self@.users, named(name@));
        }
        None
    }

    /// The first user called `name`.
    pub fn find_user_by_name(&self, name: &str) -> (found: Option<&User>)
        ensures
            match found {
                Some(user) => self@.user_index(name@) matches Some(i) && *user == self.users@[i],
                None => self@.user_index(name@) is None,
            },
    {
        match self.user_position(name) {
            Some(i) => Some(&self.users[i]),
            None => None,
        }
    }

    /// Whether `user`, with this name, this key and these permissions, is a
    /// user of the project.
    pub fn user_exists(&self, user: &User) -> (exists: bool)
        ensures
            exists == self@.users.contains(user@),
    {
        let mut i: usize = 0;
        while i < self.users.len()
            invariant
                i <= self.users.len(),
                forall|j: int| 0 <= j < i ==> self@.users[j] != user@,
            decreases self.users.len() - i,
        {
            if *user == self.users[i] {
                assert(self@.users[i as int] == user@);
                return true;
            }
            i += 1;
        }
        false
    }

    /// The project with `user` added after the users it has. A user whose
    /// name or public key is taken is refused.
    pub fn insert_user(&self, user: User) -> (r: Result<Project, Error>)
        ensures
            match r {
                Ok(project) => !self@.user_taken(user@.name, user@.public_key) && project@
                    == self@.with_new_user(user@),
                Err(e) => self@.user_taken(user@.name, user@.public_key) && e@
                    == ErrorView::DuplicateUser(user@.public_key, user@.name),
            },
            r matches Ok(project) ==> (self@.wf() && user@.wf() ==> project@.wf()),
    {
        if self.find_user_by_name(user.name.as_str()).is_some() || self.find_user_by_public_key(
            user.public_key.as_str(),
        ).is_some() {
            Err(duplicate_user(user.public_key.as_str(), user.name.as_str()))
        } else {
            let mut new_project = self.clone();
            let ghost added = user@;
            new_project.users.push(user);
            proof {
                assert(new_project@.users =~= self@.users.push(added));
                if self@.wf() && added.wf() {
                    lemma_new_user_wf(self@, added);
                }
            }
            Ok(new_project)
        }
    }

    /// The project with a new user, called `name`, with the public key
    /// `pub_key` and no permission, added after the users it has. The key is
    /// looked at first: a user joins only with a key that the key library
    /// read as one (see `User::new`). Then a name or a key that is taken is
    /// refused.
    pub fn add_user(&self, name: &str, pub_key: &str) -> (r: Result<Project, Error>)
        ensures
            match r {
                Ok(project) => is_public_key(pub_key@) && !self@.user_taken(name@, pub_key@)
                    && project@ == self@.with_new_user(
                    UserView { name: name@, public_key: pub_key@, permissions: Seq::empty() },
                ),
                Err(e) => e@ == ErrorView::InvalidPublicKey(pub_key@) || (self@.user_taken(
                    name@,
                    pub_key@,
                ) && e@ == ErrorView::DuplicateUser(pub_key@, name@)),
            },
            r matches Ok(project) ==> (self@.wf() ==> project@.wf()),
            !fits_pem(pub_key@) ==> (r matches Err(e) && e@ == ErrorView::InvalidPublicKey(
                pub_key@,
            )),
    {
        match User::new(name, pub_key) {
            Ok(user) => self.insert_user(user),
            Err(e) => Err(e),
        }
    }

    /// The project without the first user called `name`.
    pub fn remove_user(&self, name: &str) -> (r: Result<Project, Error>)
        ensures
            match self@.user_index(name@) {
                Some(i) => r matches Ok(project) && project@ == self@.without_user(i),
                None => r matches Err(e) && e@ == ErrorView::UserNotFound,
            },
            r matches Ok(project) ==> (self@.wf() ==> project@.wf()),
    {
        match self.user_position(name) {
            Some(i) => {
                let mut new_project = self.clone();
                new_project.users.remove(i);
                proof {
                    assert(new_project@.users =~= self@.users.remove(i as int));
                    if self@.wf() {
                        lemma_without_user_wf(self@, i as int);
                    }
                }
                Ok(new_project)
            },
            None => Err(Error::UserNotFound),
        }
    }

    /// The project with a new sequence added after the sequences it has. The
    /// sequence gets the default frame duration and number of sections. A
    /// name or a directory that another sequence has is refused.
    pub fn add_sequence(
        &self,
        name: &str,
        directory_name: &str,
        music_file_name: &str,
        music_duration_sec: u32,
    ) -> (r: Result<Project, Error>)
        ensures
            match r {
                Ok(project) => !self@.sequence_taken(name@, directory_name@) && project@
                    == self@.with_new_sequence(
                    SequenceView {
                        name: name@,
                        directory_name: directory_name@,
                        music_file_name: music_file_name@,
                        music_duration_sec,
                        frame_duration_ms: crate::project_types::sequence::DEFAULT_FRAME_DURATION_MS,
                        num_sections: crate::project_types::sequence::DEFAULT_NUM_SECTIONS,
                    },
                ),
                Err(e) => self@.sequence_taken(name@, directory_name@) && e@
                    == ErrorView::DuplicateSequence(name@),
            },
            r matches Ok(project) ==> (self@.wf() ==> project@.wf()),
    {
        let sequence = Sequence::new(
            name,
            directory_name,
            music_file_name,
            music_duration_sec,
            None,
            None,
        );
        let wanted_name = name.to_owned();
        let wanted_directory = directory_name.to_owned();
        let ghost clash = clashing(name@, directory_name@);
        let mut i: usize = 0;
        while i < self.sequences.len()
            invariant
                i <= self.sequences.len(),
                wanted_name@ == name@,
                wanted_directory@ == directory_name@,
                clash == clashing(name@, directory_name@),
                forall|j: int| 0 <= j < i ==> !clash(#[trigger] self@.sequences[j]),
            decreases self.sequences.len() - i,
        {
            if self.sequences[i].name == wanted_name || self.sequences[i].directory_name
                == wanted_directory {
                proof {
                    assert(is_first(self@.sequences, clash, i as int));
                    lemma_first_index_at(self@.sequences, clash, i as int);
                }
                return Err(duplicate_sequence(name));
            }
            i += 1;
        }
        proof {
            lemma_first_index(self@.sequences, clash);
        }
        let mut new_project = self.clone();
        let ghost added = sequence@;
        new_project.sequences.push(sequence);
        proof {
            assert(new_project@.sequences =~= self@.sequences.push(added));
            if self@.wf() {
                lemma_new_sequence_wf(self@, added);
            }
        }
        Ok(new_project)
    }

    /// Gives the first user called `name` the permission `perm`, or takes it
    /// from them. Giving what the user holds and taking what the user does
    /// not hold change nothing.
    pub fn set_user_permission(&mut self, name: &str, perm: Permission, add: bool) -> (r: Result<
        (),
        Error,
    >)
        ensures
            match old(self)@.user_index(name@) {
                Some(i) => r is Ok && final(self)@ == old(self)@.with_user(
                    i,
                    if add {
                        old(self)@.users[i].with_permission(perm@)
                    } else {
                        old(self)@.users[i].without_permission(perm@)
                    },
                ),
                None => r matches Err(e) && e@ == ErrorView::UserNotFound && final(self)@ == old(
                    self,
                )@,
            },
            old(self)@.wf() ==> final(self)@.wf(),
    {
        match self.user_position(name) {
            Some(i) => {
                let mut user = self.users[i].clone();
                let ghost before = user@;
                if add {
                    user.add_permission(perm);
                } else {
                    user.remove_permission(perm);
                }
                let ghost after = user@;
                self.users.set(i, user);
                proof {
                    assert(self@.users =~= old(self)@.users.update(i as int, after));
                    if old(self)@.wf() {
                        assert(before == old(self)@.users[i as int]);
                        lemma_with_permission_wf(before, perm@);
                        lemma_without_permission_wf(before, perm@);
                        lemma_update_user_wf(old(self)@, i as int, after);
                    }
                }
                Ok(())
            },
            None => Err(Error::UserNotFound),
        }
    }
}

} // verus!
