//! Permissions: what a user may do, and to which part of the project.

use vstd::prelude::*;
use vstd::std_specs::cmp::PartialEqSpecImpl;

use vstd::slice::slice_subrange;
use vstd::string::StrSliceExecFns;

use crate::error::{Error, ErrorView};
use crate::project_types::project::{Project, ProjectView};
use crate::text::{
    chars_of,
    find_split,
    lemma_two_fields_at,
    opt_text,
    opt_text_clone,
    opt_text_eq,
    parse_u32,
    parsed_u32,
    two_fields,
};

verus! {

/// The kinds of permission a user can hold.
#[derive(Clone, Copy, Debug, PartialEq, Eq, Structural)]
pub enum PermissionEnum {
    /// May grant and revoke permissions: the mark of an administrator.
    GrantPerm,
    /// May edit the project as a whole.
    EditProj,
    /// May edit one sequence, named by the target.
    EditSeq,
    /// May edit one section of one sequence, named by the target.
    EditSeqSec,
}

/// A permission of some kind, together with what it applies to.
#[derive(Debug, Eq)]
pub struct Permission {
    pub which: PermissionEnum,
    pub target: Option<String>,
}

/// A permission as contracts see it.
pub struct PermissionView {
    pub which: PermissionEnum,
    pub target: Option<Seq<char>>,
}

impl View for Permission {
    type V = PermissionView;

    open spec fn view(&self) -> PermissionView {
        PermissionView { which: self.which, target: opt_text(self.target) }
    }
}

impl PartialEq for Permission {
    fn eq(&self, other: &Permission) -> (same: bool) {
        self.which == other.which && opt_text_eq(&self.target, &other.target)
    }
}

impl PartialEqSpecImpl for Permission {
    open spec fn obeys_eq_spec() -> bool {
        true
    }

    open spec fn eq_spec(&self, other: &Permission) -> bool {
        self@ == other@
    }
}

/// Whether `target` names a section of a sequence of `project`: the name of
/// the sequence, a comma, and the number of the section in decimal, counted
/// from 1. Where several sequences have the name, the first one counts.
pub open spec fn section_target_is_valid(target: Seq<char>, project: ProjectView) -> bool {
    match two_fields(target) {
        Some((name, number)) => match parsed_u32(number) {
            Some(section) => match project.find_sequence(name) {
                Some(sequence) => sequence.has_section(section),
                None => false,
            },
            None => false,
        },
        None => false,
    }
}

/// Whether a permission of kind `which` may have `target` in `project`.
/// Granting permissions and editing the project take no target; editing a
/// sequence takes the name of a sequence of the project; editing a section
/// takes a sequence of the project and one of its sections.
pub open spec fn target_is_valid(
    which: PermissionEnum,
    target: Option<Seq<char>>,
    project: ProjectView,
) -> bool {
    match which {
        PermissionEnum::GrantPerm => target is None,
        PermissionEnum::EditProj => target is None,
        PermissionEnum::EditSeq => match target {
            Some(name) => project.find_sequence(name) is Some,
            None => false,
        },
        PermissionEnum::EditSeqSec => match target {
            Some(text) => section_target_is_valid(text, project),
            None => false,
        },
    }
}

impl Permission {
    /// The permission of kind `which_enum` on `t`, if `t` is a target that
    /// this kind may have in `project`.
    pub fn new(which_enum: PermissionEnum, t: Option<String>, project: &Project) -> (r: Result<
        Permission,
        Error,
    >)
        ensures
            match r {
                Ok(perm) => target_is_valid(which_enum, opt_text(t), project@) && perm@ == (
                PermissionView { which: which_enum, target: opt_text(t) }),
                Err(e) => !target_is_valid(which_enum, opt_text(t), project@) && e@
                    == ErrorView::InvalidPermissionTarget,
            },
    {
        match Permission::validate_permission(&which_enum, &t, project) {
            Ok(()) => Ok(Permission { which: which_enum, target: t }),
            Err(e) => Err(e),
        }
    }

    /// Checks that `target` is a target that a permission of kind
    /// `permission` may have in `project`.
    pub fn validate_permission(
        permission: &PermissionEnum,
        target: &Option<String>,
        project: &Project,
    ) -> (r: Result<(), Error>)
        ensures
            match r {
                Ok(()) => target_is_valid(*permission, opt_text(*target), project@),
                Err(e) => !target_is_valid(*permission, opt_text(*target), project@) && e@
                    == ErrorView::InvalidPermissionTarget,
            },
    {
        let valid = match permission {
            PermissionEnum::GrantPerm => target.is_none(),
            PermissionEnum::EditProj => target.is_none(),
            PermissionEnum::EditSeq => match target {
                Some(name) => project.find_sequence_by_name(name.as_str()).is_some(),
                None => false,
            },
            PermissionEnum::EditSeqSec => match target {
                Some(text) => {
                    let text = text.as_str();
                    let chars = chars_of(text);
                    match find_split(chars.as_slice()) {
                        Some(comma) => {
                            proof {
                                lemma_two_fields_at(text@, comma as int);
                            }
                            let name = text.substring_char(0, comma);
                            let number = slice_subrange(
                                chars.as_slice(),
                                comma + 1,
                                chars.len(),
                            );
                            match parse_u32(number) {
                                Some(section) => match project.find_sequence_by_name(name) {
                                    Some(sequence) => section > 0 && section
                                        <= sequence.num_sections,
                                    None => false,
                                },
                                None => false,
                            }
                        },
                        None => false,
                    }
                },
                None => false,
            },
        };
        if valid {
            Ok(())
        } else {
            Err(Error::InvalidPermissionTarget)
        }
    }
}

impl Clone for Permission {
    fn clone(&self) -> (copy: Permission)
        ensures
            copy == *self,
    {
        Permission { which: self.which, target: opt_text_clone(&self.target) }
    }
}

} // verus!
