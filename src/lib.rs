//! Entity identifiers typed by the kind of entity they name, and a small
//! validated entity built on them.

pub mod error;
pub mod id;
pub mod registered_user;
pub mod text;

pub use error::Error;
pub use id::{Id, UnixTime};
pub use registered_user::RegisteredUser;
