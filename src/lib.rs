//! Client core for the HiDrive cloud-storage HTTP API: query parameters, request
//! descriptions for each endpoint, token caching, response classification, download
//! accounting and the notification session.

pub mod dispatch;
pub mod error;
pub mod hidrive;
pub mod identifier;
pub mod notify;
pub mod params;
pub mod ranges;
pub mod request;
pub mod response;
pub mod text;
pub mod token;
pub mod transfer;
pub mod types;

pub use dispatch::{Dispatch, StatusAction};
pub use error::ClientError;
pub use hidrive::{HiDrive, HiDriveFiles, HiDrivePermission, HiDriveUser};
pub use identifier::Identifier;
pub use notify::{Frame, FrameOutcome, NotificationSession, SessionState};
pub use params::Params;
pub use request::{Method, Request};
pub use token::{TokenCache, TokenDecision, TokenGrant};
pub use transfer::{Download, StreamEnd};
pub use types::{ApiError, Folder, Protocols, User};
