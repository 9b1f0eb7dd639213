//! Basic-Authentication credential codec and directory matcher.
//!
//! The library encodes a `(username, password)` pair into the wire form
//! `base64(username):base64(password)`, decodes an `Authorization` header
//! value of the form `Basic <payload>` back into a candidate credential,
//! and checks the candidate against a directory of known users.

pub mod b64;
pub mod codec;
pub mod directory;
pub mod outcome;
pub mod text;

pub use codec::{decode_header, Auth, User, UserView};
pub use directory::authenticate;
pub use outcome::{error_status, AuthError, Status};
