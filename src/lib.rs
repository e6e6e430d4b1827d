//! Dumps a MySQL database with `mysqldump` and uploads the dump to a
//! Google Cloud Storage bucket, naming the object by the capture time.
//!
//! The library holds the decisions: which settings are required, which
//! arguments the dump tool receives, what becomes of its output, and the
//! exact request that carries the dump. Running the tool, reading the
//! environment and speaking HTTP are left to the caller.

mod clock;
mod config;
mod dump;
mod text;
mod upload;

pub use clock::{representable, MAX_EPOCH_SECS, MIN_EPOCH_SECS};
pub use text::{decimal_digits, decimal_text, digit_char};
pub use config::{first_missing, missing_value_is_refused, EnvVar, Settings, SqlConfig, StorageTarget};
pub use dump::{dump_args, object_name_of, reports, diagnose_exit, Diagnostic, DumpOutcome, Dumper, SqlDump};
pub use upload::{bearer_of, storage_uri_of, GcsClient, UploadRequest};
