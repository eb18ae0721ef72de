//! Records the service sends.
use vstd::prelude::*;

verus! {

/// The error envelope the service sends with a failure response.
#[derive(Debug, Default)]
pub struct ApiError {
    pub msg: String,
    pub code: String,
    /// A hint about re-authorization (for example an expired token).
    pub auth: Option<String>,
}

/// A user's home folder.
#[derive(Debug, Default)]
pub struct Folder {
    pub id: String,
    pub path: String,
    pub size: usize,
}

/// Access protocols enabled for a user.
#[derive(Debug, Default)]
pub struct Protocols {
    pub ftp: bool,
    pub rsync: bool,
    pub webdav: bool,
    pub scp: bool,
    pub cifs: bool,
    pub git: bool,
}

/// Account information of a user.
#[derive(Debug, Default)]
pub struct User {
    pub account: String,
    pub encrypted: bool,
    pub descr: String,
    pub is_owner: bool,
    pub email: String,
    pub email_verified: bool,
    pub language: String,
    pub protocols: Protocols,
    pub is_admin: bool,
    pub alias: String,
    pub home: String,
    pub home_id: String,
    pub folder: Folder,
}

} // verus!
