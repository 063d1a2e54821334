//! What is written to the logging service: entries, what they are made of,
//! and the request that carries a batch of them.

use crate::clock::unix_elapsed;
use crate::json::{
    json_debug, json_into_object, json_map_debug, json_members, json_text, json_to_string,
};
use crate::labels::Labels;
use std::time::Duration;
use vstd::prelude::*;

verus! {

/// The resource that log entries come from.
#[derive(Debug, PartialEq, Eq)]
pub struct MonitoredResource {
    /// The kind of resource, such as a virtual machine.
    pub resource_type: String,
    /// What tells this resource from others of its kind.
    pub labels: Labels,
}

impl Clone for MonitoredResource {
    fn clone(&self) -> (copy: MonitoredResource)
        ensures
            copy.resource_type == self.resource_type,
            copy.labels@ == self.labels@,
    {
        MonitoredResource { resource_type: self.resource_type.clone(), labels: self.labels.clone() }
    }
}

/// Where in the source an entry was written.
#[derive(Clone, Debug, PartialEq, Eq)]
pub struct LogEntrySourceLocation {
    pub file: String,
    pub line: i64,
    pub function: String,
}

/// The longer operation that an entry belongs to.
#[derive(Clone, Debug, PartialEq, Eq)]
pub struct LogEntryOperation {
    pub id: String,
    pub producer: String,
    pub first: bool,
    pub last: bool,
}

/// The HTTP request that an entry is about, as the logging service takes
/// it.
#[derive(Clone, Debug, PartialEq, Eq)]
pub struct HttpRequest {
    pub request_method: String,
    pub request_url: String,
    pub request_size: i64,
    pub status: i32,
    pub response_size: i64,
    pub user_agent: String,
    pub remote_ip: String,
    pub server_ip: String,
    pub referer: String,
    pub latency: Option<Duration>,
    pub cache_lookup: bool,
    pub cache_hit: bool,
    pub cache_validated_with_origin_server: bool,
    pub cache_fill_bytes: i64,
    pub protocol: String,
}

/// A point in time as the logging service takes it: seconds since the
/// epoch and nanoseconds within the second.
#[derive(Clone, Copy, Debug, PartialEq, Eq)]
pub struct Timestamp {
    seconds: i64,
    nanos: i32,
}

/// What `prost_types::Duration::try_from` makes of the `std::time::Duration`
/// of `secs` seconds and `nanos` nanoseconds, where `nanos` is less than a
/// second: the same two numbers, or nothing if the seconds do not fit an
/// `i64`.
pub open spec fn proto_duration(secs: u64, nanos: u32) -> Option<(i64, i32)> {
    if secs <= i64::MAX {
        Some((secs as i64, nanos as i32))
    } else {
        None
    }
}

/// Makes a `std::time::Duration` with `Duration::new` and converts it with
/// `prost_types::Duration::try_from`, which keeps the seconds and the
/// nanoseconds as they are and fails where the seconds do not fit an `i64`.
#[verifier::external_body]
fn to_proto_duration(secs: u64, nanos: u32) -> (parts: Option<(i64, i32)>)
    requires
        nanos < 1_000_000_000,
    ensures
        parts == proto_duration(secs, nanos),
{
    match prost_types::Duration::try_from(Duration::new(secs, nanos)) {
        Ok(duration) => Some((duration.seconds, duration.nanos)),
        Err(_) => None,
    }
}

impl Timestamp {
    pub closed spec fn spec_seconds(&self) -> i64 {
        self.seconds
    }

    pub closed spec fn spec_nanos(&self) -> i32 {
        self.nanos
    }

    /// Seconds since the epoch.
    #[verifier::when_used_as_spec(spec_seconds)]
    pub fn seconds(&self) -> (seconds: i64)
        ensures
            seconds == self.spec_seconds(),
    {
        self.seconds
    }

    /// Nanoseconds within the second.
    #[verifier::when_used_as_spec(spec_nanos)]
    pub fn nanos(&self) -> (nanos: i32)
        ensures
            nanos == self.spec_nanos(),
    {
        self.nanos
    }

    /// The time `secs` seconds and `nanos` nanoseconds after the epoch.
    /// There is none if the nanoseconds make a second or more, or if the
    /// seconds do not fit.
    pub fn from_elapsed(secs: u64, nanos: u32) -> (time: Option<Timestamp>)
        ensures
            time is Some <==> secs <= i64::MAX && nanos < 1_000_000_000,
            time matches Some(t) ==> t.spec_seconds() == secs && t.spec_nanos() == nanos,
    {
        if nanos >= 1_000_000_000 {
            return None;
        }
        match to_proto_duration(secs, nanos) {
            Some((seconds, nanos)) => Some(Timestamp { seconds, nanos }),
            None => None,
        }
    }

    /// The time the system clock shows. There is none if the clock stands
    /// before the epoch or too far after it.
    pub fn now() -> (time: Option<Timestamp>)
        ensures
            time matches Some(t) ==> 0 <= t.spec_seconds() && 0 <= t.spec_nanos() < 1_000_000_000,
    {
        match unix_elapsed() {
            Some((secs, nanos)) => Timestamp::from_elapsed(secs, nanos),
            None => None,
        }
    }
}

/// What an entry says.
#[derive(Debug, PartialEq)]
pub enum Payload {
    Text(String),
    Json(serde_json::Map<String, serde_json::Value>),
}

impl Payload {
    /// Whether this is the payload for the JSON value `json`: the members
    /// of an object as they are, and for any other value the text of its
    /// compact JSON.
    pub open spec fn carries(self, json: serde_json::Value) -> bool {
        match json_members(json) {
            Some(map) => self == Payload::Json(map),
            None => self matches Payload::Text(text) && text@ == json_text(json),
        }
    }

    /// The payload as the console shows it: a text as it is, an object as
    /// it is written for debugging.
    pub open spec fn console_text(self) -> Seq<char> {
        match self {
            Payload::Text(said) => said@,
            Payload::Json(map) => json_debug(map),
        }
    }

    /// The payload for what a JSON value turned out to be: the members of
    /// an object are the payload as they are, the text of any other value is
    /// a text payload.
    pub fn from_object_or_text(
        parts: Result<serde_json::Map<String, serde_json::Value>, String>,
    ) -> (payload: Payload)
        ensures
            payload == match parts {
                Ok(map) => Payload::Json(map),
                Err(text) => Payload::Text(text),
            },
    {
        match parts {
            Ok(map) => Payload::Json(map),
            Err(text) => Payload::Text(text),
        }
    }

    /// The payload for a JSON value: an object as it is, any other value
    /// as the text of its JSON.
    pub fn from_json(json: serde_json::Value) -> (payload: Payload)
        ensures
            payload.carries(json),
    {
        match json_into_object(json) {
            Ok(map) => Payload::from_object_or_text(Ok(map)),
            Err(other) => Payload::from_object_or_text(Err(json_to_string(&other))),
        }
    }

    /// The payload as text for the console: a text as it is, an object as
    /// it is written for debugging.
    pub fn into_text(self) -> (text: String)
        ensures
            text@ == self.console_text(),
            self matches Payload::Text(said) ==> text == said,
    {
        match self {
            Payload::Text(said) => said,
            Payload::Json(map) => json_map_debug(&map),
        }
    }
}

/// How severe the event of an entry is.
#[derive(Clone, Copy, Debug, PartialEq, Eq)]
pub enum LogSeverity {
    /// The log entry has no assigned severity level.
    Default,
    /// Debug or trace information.
    Debug,
    /// Routine information, such as ongoing status or performance.
    Info,
    /// Normal but significant events, such as start up, shut down, or a
    /// configuration change.
    Notice,
    /// Warning events might cause problems.
    Warning,
    /// Error events are likely to cause problems.
    Error,
    /// Critical events cause more severe problems or outages.
    Critical,
    /// A person must take an action immediately.
    Alert,
    /// One or more systems are unusable.
    Emergency,
}

impl LogSeverity {
    /// The number that stands for this severity on the wire.
    pub open spec fn spec_code(self) -> i32 {
        match self {
            LogSeverity::Default => 0,
            LogSeverity::Debug => 100,
            LogSeverity::Info => 200,
            LogSeverity::Notice => 300,
            LogSeverity::Warning => 400,
            LogSeverity::Error => 500,
            LogSeverity::Critical => 600,
            LogSeverity::Alert => 700,
            LogSeverity::Emergency => 800,
        }
    }

    #[verifier::when_used_as_spec(spec_code)]
    pub fn code(self) -> (code: i32)
        ensures
            code == self.spec_code(),
    {
        match self {
            LogSeverity::Default => 0,
            LogSeverity::Debug => 100,
            LogSeverity::Info => 200,
            LogSeverity::Notice => 300,
            LogSeverity::Warning => 400,
            LogSeverity::Error => 500,
            LogSeverity::Critical => 600,
            LogSeverity::Alert => 700,
            LogSeverity::Emergency => 800,
        }
    }
}

/// One log entry.
#[derive(Debug, PartialEq)]
pub struct LogEntry {
    pub timestamp: Timestamp,
    pub severity: LogSeverity,
    pub labels: Labels,
    pub source_code_entry: LogEntrySourceLocation,
    pub payload: Payload,
    pub operation: Option<LogEntryOperation>,
    pub http_request: Option<HttpRequest>,
}

/// A batch of entries for one log of one project.
#[derive(Debug, PartialEq)]
pub struct Log {
    pub project_id: &'static str,
    pub log_name: &'static str,
    pub resource: Option<MonitoredResource>,
    pub labels: Labels,
    pub entries: Vec<LogEntry>,
}

/// The request that writes a batch of entries.
#[derive(Debug, PartialEq)]
pub struct WriteLogEntries {
    /// The full name of the log.
    pub log_name: String,
    pub resource: Option<MonitoredResource>,
    pub labels: Labels,
    pub entries: Vec<LogEntry>,
    /// Whether the entries that are in order are written although others
    /// are not.
    pub partial_success: bool,
    /// Whether the request is only checked, not carried out.
    pub dry_run: bool,
}

/// The full name of the log `log_name` of the project `project_id`.
pub open spec fn log_path(project_id: Seq<char>, log_name: Seq<char>) -> Seq<char> {
    "projects/"@ + project_id + "/logs/"@ + log_name
}

/// The request that writes `log`: its entries, resource and labels as they
/// are, under the full name of the log; entries that are in order are
/// written although others are not, and the request is carried out.
pub fn write_log_request(log: Log) -> (request: WriteLogEntries)
    ensures
        request.log_name@ == log_path(log.project_id@, log.log_name@),
        request.resource == log.resource,
        request.labels == log.labels,
        request.entries == log.entries,
        request.partial_success,
        !request.dry_run,
{
    let mut log_name = "projects/".to_owned();
    log_name.append(log.project_id);
    log_name.append("/logs/");
    log_name.append(log.log_name);
    WriteLogEntries {
        log_name,
        resource: log.resource,
        labels: log.labels,
        entries: log.entries,
        partial_success: true,
        dry_run: false,
    }
}

} // verus!
