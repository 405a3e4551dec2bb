//! Identity and permission rules for a lighting-show project.
//!
//! A project is one value: its users, each with a public key and a list of
//! permissions, and its sequences. Every change is a function from the
//! project as it stands to the project as it will be, so a change that is
//! refused leaves nothing half done.

pub mod dao;
pub mod err_funcs;
pub mod error;
pub mod keys;
pub mod lookup;
pub mod manifest;
pub mod permissions;
pub mod project_types;
pub mod sequence;
pub mod store;
pub mod text;
pub mod user;

pub use dao::ConnectionConfig;
pub use error::{Error, ErrorView};
pub use manifest::Value;
pub use permissions::{get_permissions, set_permission};
pub use project_types::{
    Permission,
    PermissionEnum,
    PermissionView,
    Project,
    ProjectView,
    Sequence,
    SequenceSection,
    SequenceView,
    User,
    UserView,
};
pub use sequence::validate_file_type;
pub use store::{Action, Change, Commit, Event, Stage, Transaction};
pub use user::{id_user, new_user, remove_user};
