use vstd::prelude::*;
use vstd::string::*;
use vstd::utf8::*;

use crate::clock::{epoch_text, now_epoch_secs, representable};
use crate::config::SqlConfig;
use crate::text::{decimal_text, decode_utf8};

verus! {

/// The dump tool's standard output and the instant the tool finished.
pub struct SqlDump {
    /// Seconds since the Unix epoch.
    pub timestamp: i64,
    pub sql: Vec<u8>,
}

/// What is reported when the dump tool exits unsuccessfully.
#[derive(Debug)]
pub enum Diagnostic {
    /// The tool's standard error, as text.
    Failed(String),
    /// The tool's standard error was not valid UTF-8.
    Undecodable(std::str::Utf8Error),
}

/// The outcome of one run of the dump tool: the payload to upload, which
/// is kept whatever the exit status, and the diagnostic to report, if any.
pub struct DumpOutcome {
    pub dump: SqlDump,
    pub diagnostic: Option<Diagnostic>,
}

/// `d` is the report owed for a run that exited with `success` and wrote
/// `stderr` to standard error: nothing after a success, the error text after
/// a failure, or notice that the error stream could not be decoded.
pub open spec fn reports(success: bool, stderr: Seq<u8>, d: Option<Diagnostic>) -> bool {
    if success {
        d is None
    } else if valid_utf8(stderr) {
        d matches Some(Diagnostic::Failed(t)) && encode_utf8(t@) == stderr
    } else {
        d matches Some(Diagnostic::Undecodable(_))
    }
}

/// The name under which a dump taken at `timestamp` is stored.
pub open spec fn object_name_of(timestamp: int) -> Seq<char> {
    decimal_text(timestamp) + ".sql"@
}

impl SqlDump {
    /// The timestamp is one that chrono can represent.
    pub open spec fn wf(&self) -> bool {
        representable(self.timestamp as int)
    }

    /// A dump of `sql` taken at `timestamp` seconds since the Unix epoch.
    pub fn new(timestamp: i64, sql: Vec<u8>) -> (r: SqlDump)
        requires
            representable(timestamp as int),
        ensures
            r.wf(),
            r.timestamp == timestamp,
            r.sql@ == sql@,
    {
        SqlDump { timestamp, sql }
    }

    /// The payload as text, or the decoding error when the payload is not
    /// valid UTF-8; nothing is ever dropped or replaced, as the text's
    /// encoding is the payload itself.
    pub fn text(&self) -> (r: Result<&str, std::str::Utf8Error>)
        ensures
            r is Ok <==> valid_utf8(self.sql@),
            r matches Ok(s) ==> s.spec_bytes() == self.sql@,
    {
        decode_utf8(self.sql.as_slice())
    }

    /// The payload as text. Only a payload that is valid UTF-8 has one:
    /// callers test `text` first.
    pub fn to_str(&self) -> (r: &str)
        requires
            valid_utf8(self.sql@),
        ensures
            r.spec_bytes() == self.sql@,
    {
        match self.text() {
            Ok(s) => s,
            Err(_) => {
                proof {
                    assert(false);
                }
                ""
            },
        }
    }

    /// The remote object name: the capture time in seconds since the Unix
    /// epoch, followed by `.sql`.
    pub fn object_name(&self) -> (r: String)
        requires
            self.wf(),
        ensures
            r@ == object_name_of(self.timestamp as int),
    {
        let mut name = epoch_text(self.timestamp);
        name.append(".sql");
        name
    }

    /// Records a finished run of the dump tool: the payload is `stdout` as it
    /// came, whether or not the run succeeded, stamped with the current time,
    /// and the diagnostic is the one owed for the exit status and `stderr`.
    pub fn capture(success: bool, stdout: Vec<u8>, stderr: &[u8]) -> (r: DumpOutcome)
        ensures
            r.dump.wf(),
            r.dump.sql@ == stdout@,
            reports(success, stderr@, r.diagnostic),
    {
        let timestamp = now_epoch_secs();
        let diagnostic = diagnose_exit(success, stderr);
        DumpOutcome { dump: SqlDump::new(timestamp, stdout), diagnostic }
    }
}

/// The diagnostic owed for a run that exited with `success` and wrote
/// `stderr`.
pub fn diagnose_exit(success: bool, stderr: &[u8]) -> (r: Option<Diagnostic>)
    ensures
        reports(success, stderr@, r),
{
    if success {
        None
    } else {
        match decode_utf8(stderr) {
            Ok(text) => Some(Diagnostic::Failed(text.to_owned())),
            Err(e) => Some(Diagnostic::Undecodable(e)),
        }
    }
}

/// Runs the dump tool against one database.
pub struct Dumper {
    pub config: SqlConfig,
}

/// The dump tool's arguments for `c`, in order: host, port, user, password,
/// database.
pub open spec fn dump_args(c: SqlConfig) -> Seq<Seq<char>> {
    seq![
        "-h"@ + c.host@,
        "-P"@ + c.port@,
        "-u"@ + c.user@,
        "-p"@ + c.password@,
        c.database@,
    ]
}

/// `flag` followed by `value`.
fn flag_arg(flag: &str, value: &String) -> (r: String)
    ensures
        r@ == flag@ + value@,
{
    let mut arg = flag.to_owned();
    arg.append(value.as_str());
    arg
}

impl Dumper {
    pub fn new(config: SqlConfig) -> (r: Dumper)
        ensures
            r.config == config,
    {
        Dumper { config }
    }

    /// The arguments handed to the dump tool.
    pub fn build_args(&self) -> (r: [String; 5])
        ensures
            r@.map_values(|a: String| a@) == dump_args(self.config),
    {
        let host = flag_arg("-h", &self.config.host);
        let port = flag_arg("-P", &self.config.port);
        let user = flag_arg("-u", &self.config.user);
        let pass = flag_arg("-p", &self.config.password);
        let db = self.config.database.clone();
        let r = [host, port, user, pass, db];
        assert(r@.map_values(|a: String| a@) =~= dump_args(self.config));
        r
    }
}

} // verus!
