//! Watches a directory for screenshots that have been fully written, uploads
//! each one to a file-hosting service, and reports the returned link.
//!
//! The library holds the decisions of that pipeline: the run configuration,
//! the event filter, the preparation and outcome of one upload, what is done
//! on completion, and the watch loop's state machine. File reads, HTTP,
//! clipboard and notifications are performed by the caller, which hands the
//! results back as plain values.

pub mod config;

pub use config::{AppConfig, ConfigError, initialize};
pub mod event;

pub use event::{AccessMode, Action, FsEventKind, RawFsEvent, classify};
pub mod upload;

pub use upload::{
    DEFAULT_FILE_NAME, MAX_FILE_SIZE_BYTES, MULTIPART_CONTENT_TYPE, UPLOAD_FIELD, UPLOAD_ROUTE,
    HttpReply, UploadRequest, UploadResult, file_name_of, prepare_upload, upload_outcome,
    upload_url,
};
pub mod completion;
pub mod driver;

pub use completion::{Completion, NOTIFY_BODY_PREFIX, NOTIFY_SUMMARY, complete};
pub use driver::{DriverState, DriverStep, WatchInput, step};
