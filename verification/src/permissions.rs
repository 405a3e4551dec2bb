//! Who may give and take which permission, and what a project looks like
//! after one was given or taken.

use vstd::prelude::*;
use vstd::string::StringExecFns;

use crate::error::{Error, ErrorView};
use crate::lookup::{is_first, lemma_first_index, lemma_first_index_at};
use crate::project_types::permissions::{
    target_is_valid,
    Permission,
    PermissionEnum,
    PermissionView,
};
use crate::project_types::project::{named, Project, ProjectView};
use crate::project_types::user::{lemma_filter_out_absent, other_than, User, UserView};
use crate::text::{opt_text, text_eq};

verus! {

impl PermissionEnum {
    /// The name of the kind.
    pub open spec fn name_text(self) -> Seq<char> {
        match self {
            PermissionEnum::GrantPerm => "GrantPerm"@,
            PermissionEnum::EditProj => "EditProj"@,
            PermissionEnum::EditSeq => "EditSeq"@,
            PermissionEnum::EditSeqSec => "EditSeqSec"@,
        }
    }

    /// The name of the kind.
    pub fn name(&self) -> (name: &'static str)
        ensures
            name@ == self.name_text(),
    {
        match self {
            PermissionEnum::GrantPerm => "GrantPerm",
            PermissionEnum::EditProj => "EditProj",
            PermissionEnum::EditSeq => "EditSeq",
            PermissionEnum::EditSeqSec => "EditSeqSec",
        }
    }
}

/// The names of the kinds of permission, one for each kind.
pub fn get_permissions() -> (names: Vec<String>)
    ensures
        names@.len() == 4,
        names@[0]@ == PermissionEnum::GrantPerm.name_text(),
        names@[1]@ == PermissionEnum::EditProj.name_text(),
        names@[2]@ == PermissionEnum::EditSeq.name_text(),
        names@[3]@ == PermissionEnum::EditSeqSec.name_text(),
{
    let mut names: Vec<String> = Vec::new();
    names.push(String::from_str(PermissionEnum::GrantPerm.name()));
    names.push(String::from_str(PermissionEnum::EditProj.name()));
    names.push(String::from_str(PermissionEnum::EditSeq.name()));
    names.push(String::from_str(PermissionEnum::EditSeqSec.name()));
    names
}

/// What comes of a request by `actor` to give the user called `target_user`
/// the permission of kind `which` on `target` (`add`), or to take it from
/// them (not `add`).
///
/// Only an administrator may ask, and never for themselves. Then the user
/// has to exist, and the target has to be one that the kind may have in
/// `project`. A permission that the user holds is not given again; one that
/// the user does not hold is taken without complaint, and nothing changes.
pub open spec fn permission_change(
    actor: UserView,
    add: bool,
    target_user: Seq<char>,
    which: PermissionEnum,
    target: Option<Seq<char>>,
    project: ProjectView,
) -> Result<ProjectView, ErrorView> {
    if !actor.is_admin() || target_user == actor.name {
        Err(ErrorView::UnauthorizedAction)
    } else {
        match project.user_index(target_user) {
            None => Err(ErrorView::UserNotFound),
            Some(i) => {
                let perm = PermissionView { which, target };
                let user = project.users[i];
                if !target_is_valid(which, target, project) {
                    Err(ErrorView::InvalidPermissionTarget)
                } else if !add {
                    Ok(project.with_user(i, user.without_permission(perm)))
                } else if user.has_permission(perm) {
                    Err(ErrorView::PermissionAlreadyExists)
                } else {
                    Ok(project.with_user(i, user.with_permission(perm)))
                }
            },
        }
    }
}

/// The view of what a change of a project came to.
pub open spec fn outcome_view(r: Result<Project, Error>) -> Result<ProjectView, ErrorView> {
    match r {
        Ok(project) => Ok(project@),
        Err(e) => Err(e@),
    }
}

/// Gives the user called `target_username` a permission, or takes it from
/// them, on behalf of `auth_user`, and hands back the project as it is
/// afterwards. `project` itself is left as it was.
///
/// The request is refused as unauthorized unless `auth_user` holds the
/// permission to grant permissions, and also where they ask for themselves,
/// whatever else is asked.
pub fn set_permission(
    auth_user: &User,
    add: bool,
    target_username: &str,
    permission: PermissionEnum,
    target: Option<String>,
    project: &Project,
) -> (r: Result<Project, Error>)
    ensures
        outcome_view(r) == permission_change(
            auth_user@,
            add,
            target_username@,
            permission,
            opt_text(target),
            project@,
        ),
        !auth_user@.is_admin() ==> (r matches Err(e) && e@ == ErrorView::UnauthorizedAction),
        target_username@ == auth_user@.name ==> (r matches Err(e) && e@
            == ErrorView::UnauthorizedAction),
        r matches Ok(changed) ==> (project@.wf() ==> changed@.wf()),
{
    if !auth_user.is_admin() {
        return Err(Error::UnauthorizedAction);
    }
    if text_eq(target_username, auth_user.name.as_str()) {
        return Err(Error::UnauthorizedAction);
    }
    let i: usize = match project.user_position(target_username) {
        Some(i) => i,
        None => {
            return Err(Error::UserNotFound);
        },
    };
    let perm = match Permission::new(permission, target, project) {
        Ok(perm) => perm,
        Err(e) => {
            return Err(e);
        },
    };
    if add && project.users[i].has_permission(&perm) {
        return Err(Error::PermissionAlreadyExists);
    }
    let mut changed = project.clone();
    match changed.set_user_permission(target_username, perm, add) {
        Ok(()) => Ok(changed),
        Err(e) => Err(e),
    }
}

/// A user keeps their place in the project when their permissions change.
pub proof fn lemma_user_index_kept(project: ProjectView, i: int, user: UserView, name: Seq<char>)
    requires
        0 <= i < project.users.len(),
        user.name == project.users[i].name,
    ensures
        project.with_user(i, user).user_index(name) == project.user_index(name),
{
    let after = project.with_user(i, user);
    lemma_first_index(project.users, named(name));
    match project.user_index(name) {
        Some(k) => {
            assert forall|j: int| 0 <= j < k implies !named(name)(#[trigger] after.users[j]) by {
                assert(!named(name)(project.users[j]));
            }
            assert(is_first(after.users, named(name), k));
            lemma_first_index_at(after.users, named(name), k);
        },
        None => {
            assert forall|j: int| 0 <= j < after.users.len() implies !named(name)(
                #[trigger] after.users[j],
            ) by {
                assert(!named(name)(project.users[j]));
            }
            lemma_first_index(after.users, named(name));
        },
    }
}

/// Taking from a user a permission that they do not hold succeeds, where the
/// request is one that may be made at all, and leaves the project, and so the
/// user's permissions, as they were.
pub proof fn law_removal_of_absent_permission(
    actor: UserView,
    target_user: Seq<char>,
    which: PermissionEnum,
    target: Option<Seq<char>>,
    project: ProjectView,
)
    requires
        actor.is_admin(),
        target_user != actor.name,
        target_is_valid(which, target, project),
        project.user_index(target_user) matches Some(i) && !project.users[i].has_permission(
            PermissionView { which, target },
        ),
    ensures
        permission_change(actor, false, target_user, which, target, project) == Ok::<
            ProjectView,
            ErrorView,
        >(project),
{
    let i = project.user_index(target_user)->0;
    lemma_first_index(project.users, named(target_user));
    let perm = PermissionView { which, target };
    lemma_filter_out_absent(project.users[i].permissions, perm);
    assert(project.users[i].without_permission(perm) == project.users[i]);
    assert(project.users.update(i, project.users[i]) =~= project.users);
}

/// Giving a user a permission that they do not hold, and then taking it from
/// them again, leaves the project, and so the user's permissions, as they
/// were before the two.
pub proof fn law_add_then_remove(
    actor: UserView,
    target_user: Seq<char>,
    which: PermissionEnum,
    target: Option<Seq<char>>,
    project: ProjectView,
)
    requires
        actor.is_admin(),
        target_user != actor.name,
        target_is_valid(which, target, project),
        project.user_index(target_user) matches Some(i) && !project.users[i].has_permission(
            PermissionView { which, target },
        ),
    ensures
        permission_change(actor, true, target_user, which, target, project) matches Ok(granted)
            && permission_change(actor, false, target_user, which, target, granted) == Ok::<
            ProjectView,
            ErrorView,
        >(project),
{
    let i = project.user_index(target_user)->0;
    lemma_first_index(project.users, named(target_user));
    let perm = PermissionView { which, target };
    let user = project.users[i];
    let granted = project.with_user(i, user.with_permission(perm));
    lemma_user_index_kept(project, i, user.with_permission(perm), target_user);
    assert(granted.sequences == project.sequences);
    lemma_target_validity_kept(which, target, project, granted);
    user.permissions.lemma_filter_push(perm, other_than(perm));
    lemma_filter_out_absent(user.permissions, perm);
    assert(granted.users[i].without_permission(perm) == user);
    assert(granted.users.update(i, user) =~= project.users);
}

/// Whether a target is valid is a matter of the project's sequences alone.
pub proof fn lemma_target_validity_kept(
    which: PermissionEnum,
    target: Option<Seq<char>>,
    before: ProjectView,
    after: ProjectView,
)
    requires
        before.sequences == after.sequences,
    ensures
        target_is_valid(which, target, before) == target_is_valid(which, target, after),
{
}

} // verus!
