//! One change to the project's manifest, from reading it to recording it.
//!
//! The manifest lies in a file that is kept under version control. A change
//! goes through three steps that only the outside can do: read the manifest,
//! write it back, and commit it. What to do between them is decided here:
//! `Transaction::step` takes what the last step came to and says what to do
//! next. A change that is refused is never written, and a change is only
//! done when its commit is.

use vstd::prelude::*;
use vstd::string::StringExecFns;

use crate::error::{Error, ErrorView};
use crate::permissions::{outcome_view, permission_change, set_permission};
use crate::project_types::permissions::PermissionEnum;
use crate::project_types::project::{Project, ProjectView};
use crate::project_types::sequence::{
    SequenceView,
    DEFAULT_FRAME_DURATION_MS,
    DEFAULT_NUM_SECTIONS,
};
use crate::project_types::user::{User, UserView};
use crate::text::{join, opt_text, opt_text_clone};

verus! {

/// A change to the project that an administrator asks for. `admin` is who
/// asks, as they were identified from their private key.
#[derive(Debug)]
pub enum Change {
    /// `user` joins the project.
    AddUser { admin: User, user: User },
    /// The first user called `name` leaves the project.
    RemoveUser { admin: User, name: String },
    /// A sequence joins the project.
    AddSequence {
        admin: User,
        name: String,
        directory_name: String,
        music_file_name: String,
        music_duration_sec: u32,
    },
    /// The user called `target_username` is given a permission, or it is
    /// taken from them.
    SetPermission {
        admin: User,
        add: bool,
        target_username: String,
        permission: PermissionEnum,
        target: Option<String>,
    },
}

/// A change as contracts see it.
pub enum ChangeView {
    AddUser { admin: UserView, user: UserView },
    RemoveUser { admin: UserView, name: Seq<char> },
    AddSequence {
        admin: UserView,
        name: Seq<char>,
        directory_name: Seq<char>,
        music_file_name: Seq<char>,
        music_duration_sec: u32,
    },
    SetPermission {
        admin: UserView,
        add: bool,
        target_username: Seq<char>,
        permission: PermissionEnum,
        target: Option<Seq<char>>,
    },
}

impl View for Change {
    type V = ChangeView;

    open spec fn view(&self) -> ChangeView {
        match *self {
            Change::AddUser { admin, user } => ChangeView::AddUser { admin: admin@, user: user@ },
            Change::RemoveUser { admin, name } => ChangeView::RemoveUser {
                admin: admin@,
                name: name@,
            },
            Change::AddSequence {
                admin,
                name,
                directory_name,
                music_file_name,
                music_duration_sec,
            } => ChangeView::AddSequence {
                admin: admin@,
                name: name@,
                directory_name: directory_name@,
                music_file_name: music_file_name@,
                music_duration_sec,
            },
            Change::SetPermission {
                admin,
                add,
                target_username,
                permission,
                target,
            } => ChangeView::SetPermission {
                admin: admin@,
                add,
                target_username: target_username@,
                permission,
                target: opt_text(target),
            },
        }
    }
}

/// Who made a commit, and what the commit says.
#[derive(Debug, PartialEq, Eq)]
pub struct Commit {
    pub author_name: String,
    pub author_email: String,
    pub message: String,
}

/// A commit as contracts see it.
pub struct CommitView {
    pub author_name: Seq<char>,
    pub author_email: Seq<char>,
    pub message: Seq<char>,
}

impl View for Commit {
    type V = CommitView;

    open spec fn view(&self) -> CommitView {
        CommitView {
            author_name: self.author_name@,
            author_email: self.author_email@,
            message: self.message@,
        }
    }
}

/// The address under which every commit is made.
pub open spec fn author_email_text() -> Seq<char> {
    "proton@teslaworks.net"@
}

/// How a permission is named in a commit: its kind and, in brackets, its
/// target, where it has one.
pub open spec fn permission_text(which: PermissionEnum, target: Option<Seq<char>>) -> Seq<char> {
    match target {
        Some(text) => which.name_text() + "("@ + text + ")"@,
        None => which.name_text(),
    }
}

impl ChangeView {
    /// Who asks for the change.
    pub open spec fn admin(self) -> UserView {
        match self {
            ChangeView::AddUser { admin, .. } => admin,
            ChangeView::RemoveUser { admin, .. } => admin,
            ChangeView::AddSequence { admin, .. } => admin,
            ChangeView::SetPermission { admin, .. } => admin,
        }
    }

    /// The project after the change, or why the change is refused. Whoever
    /// asks has to be an administrator. A new user may not have a name or a
    /// key that is taken; a user who is to leave has to exist; a new sequence
    /// may not have a name or a directory that is taken, and gets the default
    /// frame duration and number of sections; a permission changes as
    /// `permission_change` says.
    pub open spec fn applied(self, project: ProjectView) -> Result<ProjectView, ErrorView> {
        match self {
            ChangeView::AddUser { admin, user } => if !admin.is_admin() {
                Err(ErrorView::UnauthorizedAction)
            } else if project.user_taken(user.name, user.public_key) {
                Err(ErrorView::DuplicateUser(user.public_key, user.name))
            } else {
                Ok(project.with_new_user(user))
            },
            ChangeView::RemoveUser { admin, name } => if !admin.is_admin() {
                Err(ErrorView::UnauthorizedAction)
            } else {
                match project.user_index(name) {
                    Some(i) => Ok(project.without_user(i)),
                    None => Err(ErrorView::UserNotFound),
                }
            },
            ChangeView::AddSequence {
                admin,
                name,
                directory_name,
                music_file_name,
                music_duration_sec,
            } => if !admin.is_admin() {
                Err(ErrorView::UnauthorizedAction)
            } else if project.sequence_taken(name, directory_name) {
                Err(ErrorView::DuplicateSequence(name))
            } else {
                Ok(
                    project.with_new_sequence(
                        SequenceView {
                            name,
                            directory_name,
                            music_file_name,
                            music_duration_sec,
                            frame_duration_ms: DEFAULT_FRAME_DURATION_MS,
                            num_sections: DEFAULT_NUM_SECTIONS,
                        },
                    ),
                )
            },
            ChangeView::SetPermission {
                admin,
                add,
                target_username,
                permission,
                target,
            } => permission_change(admin, add, target_username, permission, target, project),
        }
    }

    /// What the commit of the change says: what was done, and to whom.
    pub open spec fn message(self) -> Seq<char> {
        match self {
            ChangeView::AddUser { user, .. } => "Adding "@ + user.name + " as new user"@,
            ChangeView::RemoveUser { name, .. } => "Removing user "@ + name,
            ChangeView::AddSequence { name, .. } => "Adding new sequence "@ + name,
            ChangeView::SetPermission { admin, add, target_username, permission, target } => {
                "Admin '"@ + admin.name + "' "@ + (if add {
                    "granting"@
                } else {
                    "revoking"@
                }) + " permission '"@ + permission_text(permission, target) + "' to/from user "@
                    + target_username
            },
        }
    }

    /// The commit that records the change: made in the name of whoever asked
    /// for it.
    pub open spec fn commit(self) -> CommitView {
        CommitView {
            author_name: self.admin().name,
            author_email: author_email_text(),
            message: self.message(),
        }
    }
}

impl Change {
    /// Who asks for the change.
    pub fn admin(&self) -> (admin: &User)
        ensures
            admin@ == self@.admin(),
    {
        match self {
            Change::AddUser { admin, .. } => admin,
            Change::RemoveUser { admin, .. } => admin,
            Change::AddSequence { admin, .. } => admin,
            Change::SetPermission { admin, .. } => admin,
        }
    }

    /// `project` after the change, or why the change is refused. `project`
    /// itself is left as it was.
    pub fn apply(&self, project: &Project) -> (r: Result<Project, Error>)
        ensures
            outcome_view(r) == self@.applied(project@),
            r matches Ok(changed) ==> (project@.wf() && (self@ matches ChangeView::AddUser {
                user,
                ..
            } ==> user.wf()) ==> changed@.wf()),
    {
        match self {
            Change::AddUser { admin, user } => {
                if !admin.is_admin() {
                    return Err(Error::UnauthorizedAction);
                }
                project.insert_user(user.clone())
            },
            Change::RemoveUser { admin, name } => {
                if !admin.is_admin() {
                    return Err(Error::UnauthorizedAction);
                }
                project.remove_user(name.as_str())
            },
            Change::AddSequence {
                admin,
                name,
                directory_name,
                music_file_name,
                music_duration_sec,
            } => {
                if !admin.is_admin() {
                    return Err(Error::UnauthorizedAction);
                }
                project.add_sequence(
                    name.as_str(),
                    directory_name.as_str(),
                    music_file_name.as_str(),
                    *music_duration_sec,
                )
            },
            Change::SetPermission { admin, add, target_username, permission, target } => {
                set_permission(
                    admin,
                    *add,
                    target_username.as_str(),
                    *permission,
                    opt_text_clone(target),
                    project,
                )
            },
        }
    }

    /// What the commit of the change says.
    pub fn message(&self) -> (message: String)
        ensures
            message@ == self@.message(),
    {
        match self {
            Change::AddUser { user, .. } => {
                let mut message = join("Adding ", user.name.as_str());
                message.append(" as new user");
                message
            },
            Change::RemoveUser { name, .. } => join("Removing user ", name.as_str()),
            Change::AddSequence { name, .. } => join("Adding new sequence ", name.as_str()),
            Change::SetPermission { admin, add, target_username, permission, target } => {
                let mut message = join("Admin '", admin.name.as_str());
                message.append("' ");
                message.append(
                    if *add {
                        "granting"
                    } else {
                        "revoking"
                    },
                );
                message.append(" permission '");
                let ghost before = message@;
                message.append(permission.name());
                match target {
                    Some(text) => {
                        message.append("(");
                        message.append(text.as_str());
                        message.append(")");
                    },
                    None => {},
                }
                assert(message@ =~= before + permission_text(*permission, opt_text(*target)));
                message.append("' to/from user ");
                message.append(target_username.as_str());
                message
            },
        }
    }

    /// The commit that records the change.
    pub fn commit(&self) -> (commit: Commit)
        ensures
            commit@ == self@.commit(),
    {
        Commit {
            author_name: self.admin().name.clone(),
            author_email: String::from_str("proton@teslaworks.net"),
            message: self.message(),
        }
    }
}

/// How far a change has come.
#[derive(Clone, Copy, Debug, PartialEq, Eq, Structural)]
pub enum Stage {
    /// The manifest is being read.
    Reading,
    /// The changed manifest is being written.
    Writing,
    /// The written manifest is being committed.
    Committing,
    /// Nothing is left to do.
    Finished,
}

/// What a step outside the library came to.
#[derive(Debug)]
pub enum Event {
    /// The manifest was read, or could not be.
    Read(Result<Project, Error>),
    /// The manifest was written, or could not be.
    Written(Result<(), Error>),
    /// The manifest was committed, or could not be.
    Committed(Result<(), Error>),
}

/// An event as contracts see it.
pub enum EventView {
    Read(Result<ProjectView, ErrorView>),
    Written(Result<(), ErrorView>),
    Committed(Result<(), ErrorView>),
}

/// The view of what a step without a result came to.
pub open spec fn done_view(r: Result<(), Error>) -> Result<(), ErrorView> {
    match r {
        Ok(()) => Ok(()),
        Err(e) => Err(e@),
    }
}

impl View for Event {
    type V = EventView;

    open spec fn view(&self) -> EventView {
        match *self {
            Event::Read(r) => EventView::Read(outcome_view(r)),
            Event::Written(r) => EventView::Written(done_view(r)),
            Event::Committed(r) => EventView::Committed(done_view(r)),
        }
    }
}

/// What is to be done next, outside the library.
#[derive(Debug)]
pub enum Action {
    /// Read the manifest.
    Read,
    /// Write this project to the manifest, in place of what it holds.
    Write(Project),
    /// Commit the manifest with this author and message.
    Commit(Commit),
    /// Nothing more: the change is done, or it failed and this is why.
    Finish(Result<(), Error>),
}

/// An action as contracts see it.
pub enum ActionView {
    Read,
    Write(ProjectView),
    Commit(CommitView),
    Finish(Result<(), ErrorView>),
}

impl View for Action {
    type V = ActionView;

    open spec fn view(&self) -> ActionView {
        match *self {
            Action::Read => ActionView::Read,
            Action::Write(project) => ActionView::Write(project@),
            Action::Commit(commit) => ActionView::Commit(commit@),
            Action::Finish(r) => ActionView::Finish(done_view(r)),
        }
    }
}

/// A change on its way into the manifest.
#[derive(Debug)]
pub struct Transaction {
    pub change: Change,
    pub stage: Stage,
}

/// Where a change at `stage` goes on `event`, and what is to be done then;
/// nothing where the event is not the one that the stage waits for.
///
/// A manifest that cannot be read, a change that is refused, a manifest that
/// cannot be written and a commit that cannot be made each end the change
/// with their error. A change that is refused is never written. The change
/// is done when the commit is.
pub open spec fn next(change: ChangeView, stage: Stage, event: EventView) -> Option<
    (Stage, ActionView),
> {
    match (stage, event) {
        (Stage::Reading, EventView::Read(Ok(project))) => match change.applied(project) {
            Ok(changed) => Some((Stage::Writing, ActionView::Write(changed))),
            Err(e) => Some((Stage::Finished, ActionView::Finish(Err(e)))),
        },
        (Stage::Reading, EventView::Read(Err(e))) => Some(
            (Stage::Finished, ActionView::Finish(Err(e))),
        ),
        (Stage::Writing, EventView::Written(Ok(()))) => Some(
            (Stage::Committing, ActionView::Commit(change.commit())),
        ),
        (Stage::Writing, EventView::Written(Err(e))) => Some(
            (Stage::Finished, ActionView::Finish(Err(e))),
        ),
        (Stage::Committing, EventView::Committed(r)) => Some(
            (Stage::Finished, ActionView::Finish(r)),
        ),
        _ => None,
    }
}

impl Transaction {
    /// Starts on `change`: the first thing to do is to read the manifest.
    pub fn begin(change: Change) -> (started: (Transaction, Action))
        ensures
            started.0.change == change,
            started.0.stage == Stage::Reading,
            started.1@ == ActionView::Read,
    {
        (Transaction { change, stage: Stage::Reading }, Action::Read)
    }

    /// Takes what the last action came to and says what to do next. An event
    /// that the transaction does not wait for changes nothing and is
    /// answered with `None`.
    pub fn step(&mut self, event: Event) -> (action: Option<Action>)
        ensures
            final(self).change == old(self).change,
            match next(old(self).change@, old(self).stage, event@) {
                Some((stage, expected)) => final(self).stage == stage && (action matches Some(a)
                    && a@ == expected),
                None => final(self).stage == old(self).stage && action is None,
            },
    {
        match (self.stage, event) {
            (Stage::Reading, Event::Read(Ok(project))) => match self.change.apply(&project) {
                Ok(changed) => {
                    self.stage = Stage::Writing;
                    Some(Action::Write(changed))
                },
                Err(e) => {
                    self.stage = Stage::Finished;
                    Some(Action::Finish(Err(e)))
                },
            },
            (Stage::Reading, Event::Read(Err(e))) => {
                self.stage = Stage::Finished;
                Some(Action::Finish(Err(e)))
            },
            (Stage::Writing, Event::Written(Ok(()))) => {
                self.stage = Stage::Committing;
                Some(Action::Commit(self.change.commit()))
            },
            (Stage::Writing, Event::Written(Err(e))) => {
                self.stage = Stage::Finished;
                Some(Action::Finish(Err(e)))
            },
            (Stage::Committing, Event::Committed(r)) => {
                self.stage = Stage::Finished;
                Some(Action::Finish(r))
            },
            _ => None,
        }
    }
}

} // verus!
