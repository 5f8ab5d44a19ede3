//! An in-memory directory of users and groups, for code that must be testable
//! without touching the operating system's password and group databases.

pub mod directory;
pub mod interface;
pub mod laws;
pub mod record;
mod table;

pub use directory::DirectoryView;
pub use directory::MockUsers;
pub use interface::Users;
pub use record::Group;
pub use record::GroupView;
pub use record::User;
pub use record::UserView;
