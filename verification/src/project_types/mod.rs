//! The entities a project is made of.

pub mod permissions;
pub mod project;
pub mod sequence;
pub mod sequence_section;
pub mod user;

pub use self::permissions::{Permission, PermissionEnum, PermissionView};
pub use self::project::{Project, ProjectView};
pub use self::sequence::{Sequence, SequenceView};
pub use self::sequence_section::SequenceSection;
pub use self::user::{User, UserView};
