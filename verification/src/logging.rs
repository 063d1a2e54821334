//! The logger: what a caller says of a request and of its context, how an
//! entry is built from that, and where a finished entry goes.

use crate::clock::{rfc3339_millis, to_rfc3339_millis, utc_now, Instant};
use crate::google::logging::{
    HttpRequest as WireRequest, Log, LogEntry, LogEntryOperation, LogEntrySourceLocation,
    LogSeverity, MonitoredResource, Payload, Timestamp,
};
use crate::labels::{as_map, distinct, merged, put, Labels, Pair};
use crate::text::{
    decimal, i64_to_string, join, joined, pad_right, padded, replace_char, replaced,
};
use std::time::Duration;
use vstd::prelude::*;

verus! {

/// What a header of a request holds.
#[derive(Clone, Debug, PartialEq, Eq)]
pub enum HeaderText {
    /// The request has no such header.
    Missing,
    /// The header holds what is no visible text.
    Unreadable,
    /// The header holds this text.
    Text(String),
}

impl HeaderText {
    /// The text of the header; none where it is missing or unreadable.
    pub open spec fn text(self) -> Seq<char> {
        match self {
            HeaderText::Text(text) => text@,
            _ => Seq::empty(),
        }
    }

    /// Takes the text of the header.
    pub fn into_text(self) -> (text: String)
        ensures
            text@ == self.text(),
    {
        match self {
            HeaderText::Text(text) => text,
            _ => String::new(),
        }
    }
}

/// What is read from an incoming request to describe it in a log entry.
#[derive(Clone, Debug, PartialEq, Eq)]
pub struct RequestHead {
    /// The request method, such as `GET`.
    pub method: String,
    /// The address that was requested.
    pub uri: String,
    /// The least number of bytes that the body will have.
    pub body_size_hint: u64,
    /// The `User-Agent` header.
    pub user_agent: HeaderText,
    /// The `Referer` header.
    pub referer: HeaderText,
    /// The protocol version, as it is written for debugging.
    pub version: String,
}

/// An HTTP request as the caller of the logger describes it.
#[derive(Clone, Debug, PartialEq, Eq)]
pub struct HttpRequest {
    /// The request method. Examples: `"GET"`, `"HEAD"`, `"PUT"`, `"POST"`.
    pub request_method: String,
    /// The scheme (http, https), the host name, the path and the query
    /// portion of the URL that was requested.
    pub request_url: String,
    /// The size of the HTTP request message in bytes, including the request
    /// headers and the request body.
    pub request_size: i64,
    /// The user agent sent by the client.
    pub user_agent: String,
    /// The IP address (IPv4 or IPv6) of the client that issued the HTTP
    /// request.
    pub remote_ip: Option<String>,
    /// The referer URL of the request.
    pub referer: String,
    /// The request processing latency on the server, from the time the
    /// request was received until the response was sent.
    pub latency: Option<Duration>,
    /// Protocol used for the request. Examples: "HTTP/1.1", "HTTP/2".
    pub protocol: String,
}

/// The signed number with the same 64 bits as `n`.
pub open spec fn reinterpret(n: u64) -> i64 {
    if n <= i64::MAX {
        n as i64
    } else {
        (n - 0x1_0000_0000_0000_0000) as i64
    }
}

/// Computes [`reinterpret`].
pub fn reinterpret_u64(n: u64) -> (signed: i64)
    ensures
        signed == reinterpret(n),
{
    if n <= 0x7fff_ffff_ffff_ffff {
        n as i64
    } else {
        let above: u64 = n - 0x8000_0000_0000_0000;
        above as i64 + i64::MIN
    }
}

impl From<RequestHead> for HttpRequest {
    /// Describes an incoming request: method, address and protocol as they
    /// are; the size hint of the body as the size; the two headers as text,
    /// empty where they are missing or unreadable; no client address and no
    /// latency.
    fn from(item: RequestHead) -> (request: HttpRequest)
        ensures
            request.request_method == item.method,
            request.request_url == item.uri,
            request.request_size == reinterpret(item.body_size_hint),
            request.user_agent@ == item.user_agent.text(),
            request.remote_ip is None,
            request.referer@ == item.referer.text(),
            request.latency is None,
            request.protocol == item.version,
    {
        HttpRequest {
            request_method: item.method,
            request_url: item.uri,
            request_size: reinterpret_u64(item.body_size_hint),
            user_agent: item.user_agent.into_text(),
            remote_ip: None,
            referer: item.referer.into_text(),
            latency: None,
            protocol: item.version,
        }
    }
}

impl vstd::std_specs::convert::FromSpecImpl<RequestHead> for HttpRequest {
    open spec fn obeys_from_spec() -> bool {
        false
    }

    open spec fn from_spec(item: RequestHead) -> HttpRequest {
        arbitrary()
    }
}

impl HttpRequest {
    /// The same request, with its latency set.
    pub fn with_latency(self, latency: Duration) -> (request: HttpRequest)
        ensures
            request == (HttpRequest { latency: Some(latency), ..self }),
    {
        let mut request = self;
        request.latency = Some(latency);
        request
    }

    /// The same request, with the client's address set.
    pub fn with_ip(self, ip: String) -> (request: HttpRequest)
        ensures
            request == (HttpRequest { remote_ip: Some(ip), ..self }),
    {
        let mut request = self;
        request.remote_ip = Some(ip);
        request
    }

    /// The client's address as it is written to the log: empty where none
    /// is known.
    pub open spec fn remote_ip_text(self) -> Seq<char> {
        match self.remote_ip {
            Some(ip) => ip@,
            None => Seq::empty(),
        }
    }

    /// Whether `wire` is this request as the logging service takes it:
    /// what the caller said, an empty client address where none is known,
    /// and nothing of the response or the cache.
    pub open spec fn written_as(self, wire: WireRequest) -> bool {
        &&& wire.request_method == self.request_method
        &&& wire.request_url == self.request_url
        &&& wire.request_size == self.request_size
        &&& wire.status == 0
        &&& wire.response_size == 0
        &&& wire.user_agent == self.user_agent
        &&& wire.remote_ip@ == self.remote_ip_text()
        &&& wire.server_ip@.len() == 0
        &&& wire.referer == self.referer
        &&& wire.latency == self.latency
        &&& !wire.cache_lookup
        &&& !wire.cache_hit
        &&& !wire.cache_validated_with_origin_server
        &&& wire.cache_fill_bytes == 0
        &&& wire.protocol == self.protocol
    }

    /// Turns the request into what the logging service takes.
    pub fn into_wire(self) -> (wire: WireRequest)
        ensures
            self.written_as(wire),
    {
        WireRequest {
            request_method: self.request_method,
            request_url: self.request_url,
            request_size: self.request_size,
            status: 0,
            response_size: 0,
            user_agent: self.user_agent,
            remote_ip: match self.remote_ip {
                Some(ip) => ip,
                None => String::new(),
            },
            server_ip: String::new(),
            referer: self.referer,
            latency: self.latency,
            cache_lookup: false,
            cache_hit: false,
            cache_validated_with_origin_server: false,
            cache_fill_bytes: 0,
            protocol: self.protocol,
        }
    }
}

/// The mathematical content of a [`LogContext`].
pub struct ContextModel {
    /// The request that the entries are about.
    pub request: Option<WireRequest>,
    /// The operation that the entries belong to.
    pub operation: Option<String>,
    /// The labels of the entries, in the order their names first came.
    pub labels: Seq<Pair>,
}

impl ContextModel {
    /// The context in which nothing is known.
    pub open spec fn empty() -> ContextModel {
        ContextModel { request: None, operation: None, labels: Seq::empty() }
    }

    /// Whether no label name occurs twice, as in every context.
    pub open spec fn wf(self) -> bool {
        distinct(self.labels)
    }

    /// The labels as a map from names to values.
    pub open spec fn label_map(self) -> Map<Seq<char>, Seq<char>> {
        as_map(self.labels)
    }

    /// This context with what `other` knows laid over it: the request and
    /// the operation of `other` where it has them, and its labels put into
    /// these.
    pub open spec fn overlaid(self, other: ContextModel) -> ContextModel {
        ContextModel {
            request: if other.request is Some {
                other.request
            } else {
                self.request
            },
            operation: if other.operation is Some {
                other.operation
            } else {
                self.operation
            },
            labels: merged(self.labels, other.labels),
        }
    }
}

/// What is known where an entry is written: the request, the operation and
/// the labels that entries written there share.
#[derive(Clone, Debug, Default, PartialEq, Eq)]
pub struct LogContext {
    request: Option<WireRequest>,
    operation: Option<String>,
    labels: Labels,
}

impl View for LogContext {
    type V = ContextModel;

    closed spec fn view(&self) -> ContextModel {
        ContextModel { request: self.request, operation: self.operation, labels: self.labels@ }
    }
}

impl LogContext {
    /// The context in which nothing is known.
    pub fn new() -> (context: LogContext)
        ensures
            context@ == ContextModel::empty(),
            context@.wf(),
    {
        LogContext { request: None, operation: None, labels: Labels::new() }
    }

    /// The same context with the label `label` set to `value`: a name that
    /// was there keeps its place and gets the new value, a new name comes
    /// last, and no name occurs twice.
    pub fn label(self, label: String, value: String) -> (context: LogContext)
        ensures
            context@ == (ContextModel { labels: put(self@.labels, label@, value@), ..self@ }),
            self@.wf(),
            context@.wf(),
            context@.label_map() == self@.label_map().insert(label@, value@),
    {
        proof {
            use_type_invariant(&self.labels);
        }
        let mut context = self;
        context.labels.insert(label, value);
        context
    }

    /// The same context, about `request`.
    pub fn request(self, request: HttpRequest) -> (context: LogContext)
        ensures
            context@.request matches Some(wire) && request.written_as(wire),
            context@.operation == self@.operation,
            context@.labels == self@.labels,
            context@.wf(),
    {
        proof {
            use_type_invariant(&self.labels);
        }
        let mut context = self;
        context.request = Some(request.into_wire());
        context
    }

    /// This context with `context` laid over it. The labels are the union
    /// of both, and where both have a name, the value of `context` wins.
    pub fn with(self, context: LogContext) -> (both: LogContext)
        ensures
            both@ == self@.overlaid(context@),
            self@.wf(),
            context@.wf(),
            both@.wf(),
            both@.label_map() == self@.label_map().union_prefer_right(context@.label_map()),
    {
        proof {
            use_type_invariant(&self.labels);
            use_type_invariant(&context.labels);
        }
        let mut both = self;
        match context.request {
            Some(request) => {
                both.request = Some(request);
            },
            None => {},
        }
        match context.operation {
            Some(operation) => {
                both.operation = Some(operation);
            },
            None => {},
        }
        both.labels.extend(context.labels);
        both
    }
}

/// Whether logging to the service is switched on by `setting`: only the
/// word `true` does it.
pub open spec fn switched_on(setting: Option<&str>) -> bool {
    setting matches Some(word) && word@ == "true"@
}

/// The mathematical content of a [`Logger`].
pub struct LoggerModel {
    pub project_id: &'static str,
    pub log_name: &'static str,
    /// The resource that the entries come from, once it has been described.
    pub resource: Option<MonitoredResource>,
    /// Whether entries go to the service; if not, they are printed.
    pub enabled: bool,
    /// The entries that wait to be written, oldest first.
    pub queue: Seq<LogEntry>,
}

/// The logger of a process: where its entries go and those that wait to be
/// written.
#[derive(Debug)]
pub struct Logger {
    project_id: &'static str,
    log_name: &'static str,
    resource: Option<MonitoredResource>,
    enabled: bool,
    queue: Vec<LogEntry>,
}

impl View for Logger {
    type V = LoggerModel;

    closed spec fn view(&self) -> LoggerModel {
        LoggerModel {
            project_id: self.project_id,
            log_name: self.log_name,
            resource: self.resource,
            enabled: self.enabled,
            queue: self.queue@,
        }
    }
}

/// Sets up the logger for the log `log_name` of the project `project_id`.
/// Entries go to the service if `setting` is the word `true`; nothing is
/// queued and no resource is described yet.
pub fn initialize_logger(
    project_id: &'static str,
    log_name: &'static str,
    setting: Option<&str>,
) -> (logger: Logger)
    ensures
        logger@ == (LoggerModel {
            project_id,
            log_name,
            resource: None,
            enabled: switched_on(setting),
            queue: Seq::empty(),
        }),
{
    let enabled = match setting {
        Some(word) => word.to_owned() == "true".to_owned(),
        None => false,
    };
    Logger { project_id, log_name, resource: None, enabled, queue: Vec::new() }
}

/// The labels of a resource: its instance, its project and its zone.
pub open spec fn resource_labels(
    instance_id: Seq<char>,
    project_id: Seq<char>,
    zone: Seq<char>,
) -> Seq<Pair> {
    put(
        put(put(Seq::empty(), "instance_id"@, instance_id), "project_id"@, project_id),
        "zone"@,
        zone,
    )
}

/// Describes the resource that this process runs on: its kind, and as
/// labels its instance, its project and its zone.
pub fn describe_current_resource(
    resource_type: String,
    instance_id: String,
    project_id: String,
    zone: String,
) -> (resource: MonitoredResource)
    ensures
        resource.resource_type == resource_type,
        resource.labels@ == resource_labels(instance_id@, project_id@, zone@),
{
    let mut labels = Labels::new();
    labels.insert("instance_id".to_owned(), instance_id);
    labels.insert("project_id".to_owned(), project_id);
    labels.insert("zone".to_owned(), zone);
    MonitoredResource { resource_type, labels }
}

impl Logger {
    /// Whether entries go to the service.
    pub fn is_enabled(&self) -> (enabled: bool)
        ensures
            enabled == self@.enabled,
    {
        self.enabled
    }

    /// How many entries wait to be written.
    pub fn pending(&self) -> (n: usize)
        ensures
            n == self@.queue.len(),
    {
        self.queue.len()
    }

    /// Records the resource that the entries come from. A resource is
    /// recorded once: if one is there already, it stays and `resource` is
    /// handed back.
    pub fn set_resource(&mut self, resource: MonitoredResource) -> (refused: Result<
        (),
        MonitoredResource,
    >)
        ensures
            old(self)@.resource is None ==> refused is Ok && final(self)@ == (LoggerModel {
                resource: Some(resource),
                ..old(self)@
            }),
            old(self)@.resource is Some ==> refused == Err::<(), MonitoredResource>(resource)
                && final(self)@ == old(self)@,
    {
        if self.resource.is_some() {
            Err(resource)
        } else {
            self.resource = Some(resource);
            Ok(())
        }
    }

    /// Puts `entry` at the end of the queue.
    pub fn push(&mut self, entry: LogEntry)
        ensures
            final(self)@ == (LoggerModel { queue: old(self)@.queue.push(entry), ..old(self)@ }),
    {
        self.queue.push(entry);
    }

    /// Takes all that waits in the queue as one batch for the service, with
    /// no labels of its own; the queue is empty afterwards.
    pub fn flush(&mut self) -> (log: Log)
        ensures
            final(self)@ == (LoggerModel { queue: Seq::empty(), ..old(self)@ }),
            log.project_id == old(self)@.project_id,
            log.log_name == old(self)@.log_name,
            log.entries@ == old(self)@.queue,
            log.labels@.len() == 0,
            match old(self)@.resource {
                Some(resource) => log.resource matches Some(copy) && copy.resource_type
                    == resource.resource_type && copy.labels@ == resource.labels@,
                None => log.resource is None,
            },
    {
        let mut entries: Vec<LogEntry> = Vec::new();
        std::mem::swap(&mut self.queue, &mut entries);
        let resource = match &self.resource {
            Some(resource) => Some(resource.clone()),
            None => None,
        };
        Log {
            project_id: self.project_id,
            log_name: self.log_name,
            resource,
            labels: Labels::new(),
            entries,
        }
    }
}

/// The mathematical content of a [`LogBuilder`].
pub struct BuilderModel {
    pub context: ContextModel,
    pub time: Timestamp,
    pub severity: LogSeverity,
    pub file: &'static str,
    pub fn_name: &'static str,
    pub line: i64,
    pub operation_first: bool,
    pub operation_last: bool,
}

/// One label as the console shows it.
pub open spec fn label_text(label: Pair) -> Seq<char> {
    "["@ + label.0 + " = "@ + label.1 + "]"@
}

/// The place in the source as the console shows it: the file and the line,
/// filled up to 29 characters.
pub open spec fn place_text(file: Seq<char>, line: i64) -> Seq<char> {
    padded(file + ":"@ + decimal(line as int), 29)
}

/// What the console shows for one entry: the place and the function, then
/// the time in brackets, the labels, an arrow and the text, in which every
/// line after the first is set off.
pub open spec fn console_text(
    file: Seq<char>,
    line: i64,
    fn_name: Seq<char>,
    time: Seq<char>,
    labels: Seq<Pair>,
    text: Seq<char>,
) -> Seq<char> {
    place_text(file, line) + " | "@ + fn_name + "\n["@ + time + "]"@ + joined(
        labels.map_values(|label: Pair| label_text(label)),
        " "@,
    ) + " -> "@ + replaced(text, '\n', "\n>   "@) + "\n"@
}

impl BuilderModel {
    /// Whether `entry` is the entry that this builder makes of `payload`:
    /// time, severity and place as the builder was given them, labels and
    /// request from its context, and an operation if the context has one.
    pub open spec fn builds(self, payload: Payload, entry: LogEntry) -> bool {
        &&& entry.timestamp == self.time
        &&& entry.severity == self.severity
        &&& entry.labels@ == self.context.labels
        &&& entry.source_code_entry.file@ == self.file@
        &&& entry.source_code_entry.line == self.line
        &&& entry.source_code_entry.function@ == self.fn_name@
        &&& entry.payload == payload
        &&& entry.http_request == self.context.request
        &&& match self.context.operation {
            Some(id) => entry.operation matches Some(operation) && operation.id == id
                && operation.producer@.len() == 0 && operation.first == self.operation_first
                && operation.last == self.operation_last,
            None => entry.operation is None,
        }
    }

    /// What the console shows for this builder's entry with the text
    /// `text`, written at `time`.
    pub open spec fn shows(self, time: Seq<char>, text: Seq<char>) -> Seq<char> {
        console_text(self.file@, self.line, self.fn_name@, time, self.context.labels, text)
    }
}

impl LoggerModel {
    /// Whether `after` is this logger with one more entry at the end of its
    /// queue, the one that `builder` makes of `payload`.
    pub open spec fn queued(self, after: LoggerModel, builder: BuilderModel, payload: Payload) -> bool {
        &&& after.queue.len() == self.queue.len() + 1
        &&& after == (LoggerModel { queue: self.queue.push(after.queue.last()), ..self })
        &&& builder.builds(payload, after.queue.last())
    }
}

/// What became of a finished entry.
#[derive(Debug, PartialEq, Eq)]
pub enum Emission {
    /// It waits in the queue of the logger.
    Queued,
    /// It is this line, which the console is to show.
    Console(String),
    /// It was to be shown, but the clock gave no time to show it with.
    Untimed,
}

impl BuilderModel {
    /// Whether `line` shows this builder's entry with the text `text`,
    /// written at a time that the clock can show.
    pub open spec fn printed(self, text: Seq<char>, line: Seq<char>) -> bool {
        exists|at: Instant| #[trigger]
            rfc3339_millis(at.secs, at.nanos) matches Some(time) && line == self.shows(time, text)
    }

    /// Whether `emission` is what becomes of this builder's entry with
    /// `payload` at a logger that does not write to the service: a line for
    /// the console, or nothing where the clock gave no time.
    pub open spec fn shown(self, payload: Payload, emission: Emission) -> bool {
        match emission {
            Emission::Console(line) => self.printed(payload.console_text(), line@),
            Emission::Untimed => true,
            Emission::Queued => false,
        }
    }
}

/// A log entry in the making.
#[derive(Debug)]
pub struct LogBuilder {
    context: LogContext,
    time: Timestamp,
    severity: LogSeverity,
    file: &'static str,
    fn_name: &'static str,
    line: i64,
    operation_first: bool,
    operation_last: bool,
}

impl View for LogBuilder {
    type V = BuilderModel;

    closed spec fn view(&self) -> BuilderModel {
        BuilderModel {
            context: self.context@,
            time: self.time,
            severity: self.severity,
            file: self.file,
            fn_name: self.fn_name,
            line: self.line,
            operation_first: self.operation_first,
            operation_last: self.operation_last,
        }
    }
}

impl LogBuilder {
    /// Begins an entry of `severity`, written at `time` on line `line` of
    /// `file` in the function `fn_name`, in an empty context.
    pub fn at(
        time: Timestamp,
        severity: LogSeverity,
        line: i64,
        file: &'static str,
        fn_name: &'static str,
    ) -> (builder: LogBuilder)
        ensures
            builder@ == (BuilderModel {
                context: ContextModel::empty(),
                time,
                severity,
                file,
                fn_name,
                line,
                operation_first: false,
                operation_last: false,
            }),
    {
        LogBuilder {
            context: LogContext::new(),
            time,
            severity,
            file,
            line,
            fn_name,
            operation_first: false,
            operation_last: false,
        }
    }

    /// Begins an entry as [`LogBuilder::at`] does, at the time the system
    /// clock shows. There is none if the clock shows no time that an entry
    /// can carry.
    pub fn new(severity: LogSeverity, line: i64, file: &'static str, fn_name: &'static str) -> (made:
        Option<LogBuilder>)
        ensures
            made matches Some(builder) ==> builder@ == (BuilderModel {
                context: ContextModel::empty(),
                time: builder@.time,
                severity,
                file,
                fn_name,
                line,
                operation_first: false,
                operation_last: false,
            }) && 0 <= builder@.time.spec_seconds() && 0 <= builder@.time.spec_nanos()
                < 1_000_000_000,
    {
        match Timestamp::now() {
            Some(time) => Some(LogBuilder::at(time, severity, line, file, fn_name)),
            None => None,
        }
    }

    /// The same entry in the context `log_context`, which replaces the one
    /// it had.
    pub fn context(self, log_context: LogContext) -> (builder: LogBuilder)
        ensures
            builder@ == (BuilderModel { context: log_context@, ..self@ }),
            builder@.context.wf(),
    {
        proof {
            use_type_invariant(&log_context.labels);
        }
        let mut builder = self;
        builder.context = log_context;
        builder
    }

    /// The same entry with the label `label` set to `value`.
    pub fn label(self, label: String, value: String) -> (builder: LogBuilder)
        ensures
            builder@ == (BuilderModel {
                context: ContextModel {
                    labels: put(self@.context.labels, label@, value@),
                    ..self@.context
                },
                ..self@
            }),
            builder@.context.wf(),
            builder@.context.label_map() == self@.context.label_map().insert(label@, value@),
    {
        let LogBuilder {
            context,
            time,
            severity,
            file,
            fn_name,
            line,
            operation_first,
            operation_last,
        } = self;
        LogBuilder {
            context: context.label(label, value),
            time,
            severity,
            file,
            fn_name,
            line,
            operation_first,
            operation_last,
        }
    }

    /// The same entry, about `request`.
    pub fn request(self, request: HttpRequest) -> (builder: LogBuilder)
        ensures
            builder@.context.request matches Some(wire) && request.written_as(wire),
            builder@ == (BuilderModel {
                context: ContextModel { request: builder@.context.request, ..self@.context },
                ..self@
            }),
            builder@.context.wf(),
    {
        let LogBuilder {
            context,
            time,
            severity,
            file,
            fn_name,
            line,
            operation_first,
            operation_last,
        } = self;
        LogBuilder {
            context: context.request(request),
            time,
            severity,
            file,
            fn_name,
            line,
            operation_first,
            operation_last,
        }
    }

    /// The finished entry with `payload`.
    pub fn entry(self, payload: Payload) -> (entry: LogEntry)
        ensures
            self@.builds(payload, entry),
    {
        let operation = match self.context.operation {
            Some(id) => Some(
                LogEntryOperation {
                    id,
                    producer: String::new(),
                    first: self.operation_first,
                    last: self.operation_last,
                },
            ),
            None => None,
        };
        LogEntry {
            timestamp: self.time,
            severity: self.severity,
            labels: self.context.labels,
            source_code_entry: LogEntrySourceLocation {
                file: self.file.to_owned(),
                line: self.line,
                function: self.fn_name.to_owned(),
            },
            payload,
            http_request: self.context.request,
            operation,
        }
    }

    /// What the console shows for this entry with the text `text`, written
    /// at `time`.
    pub fn console_line(&self, time: &str, text: &str) -> (shown: String)
        ensures
            shown@ == self@.shows(time@, text@),
    {
        let mut place = self.file.to_owned();
        place.append(":");
        place.append(i64_to_string(self.line).as_str());
        let mut shown = pad_right(place, 29);
        shown.append(" | ");
        shown.append(self.fn_name);
        shown.append("\n[");
        shown.append(time);
        shown.append("]");
        shown.append(render_labels(&self.context.labels).as_str());
        shown.append(" -> ");
        shown.append(replace_char(text, '\n', "\n>   ").as_str());
        shown.append("\n");
        shown
    }

    /// Finishes the entry with `payload` and sends it on its way. Where the
    /// logger writes to the service, the entry is put at the end of its
    /// queue; where it does not, the queue is left alone and the result is
    /// what the console is to show, with the time of the system clock.
    fn build_and_push(self, payload: Payload, logger: &mut Logger) -> (emission: Emission)
        ensures
            old(logger)@.enabled ==> emission == Emission::Queued && old(logger)@.queued(
                final(logger)@,
                self@,
                payload,
            ),
            !old(logger)@.enabled ==> final(logger)@ == old(logger)@ && self@.shown(
                payload,
                emission,
            ),
    {
        if logger.is_enabled() {
            let entry = self.entry(payload);
            logger.push(entry);
            Emission::Queued
        } else {
            let text = payload.into_text();
            let now = match utc_now() {
                Some(now) => now,
                None => {
                    return Emission::Untimed;
                },
            };
            match to_rfc3339_millis(now) {
                Some(time) => {
                    let line = self.console_line(time.as_str(), text.as_str());
                    assert(rfc3339_millis(now.secs, now.nanos) == Some(time@));
                    assert(self@.printed(payload.console_text(), line@));
                    Emission::Console(line)
                },
                None => Emission::Untimed,
            }
        }
    }

    /// Finishes the entry with the text `text` and sends it on its way:
    /// into the queue of a logger that writes to the service, else as what
    /// the console is to show.
    pub fn send_text(self, text: String, logger: &mut Logger) -> (emission: Emission)
        ensures
            old(logger)@.enabled ==> emission == Emission::Queued && old(logger)@.queued(
                final(logger)@,
                self@,
                Payload::Text(text),
            ),
            !old(logger)@.enabled ==> final(logger)@ == old(logger)@ && self@.shown(
                Payload::Text(text),
                emission,
            ),
    {
        self.build_and_push(Payload::Text(text), logger)
    }

    /// Finishes the entry with the JSON value `json` and sends it on its
    /// way as [`LogBuilder::send_text`] does. An object is the payload as
    /// it is; any other value is a text payload, the text of its JSON.
    pub fn send_json(self, json: serde_json::Value, logger: &mut Logger) -> (emission: Emission)
        ensures
            exists|payload: Payload| #[trigger]
                payload.carries(json) && {
                    &&& old(logger)@.enabled ==> emission == Emission::Queued && old(
                        logger,
                    )@.queued(final(logger)@, self@, payload)
                    &&& !old(logger)@.enabled ==> final(logger)@ == old(logger)@ && self@.shown(
                        payload,
                        emission,
                    )
                },
    {
        let payload = Payload::from_json(json);
        self.build_and_push(payload, logger)
    }
}

/// The labels as the console shows them: each in brackets, a space between
/// each two.
pub fn render_labels(labels: &Labels) -> (shown: String)
    ensures
        shown@ == joined(labels@.map_values(|label: Pair| label_text(label)), " "@),
{
    let entries = labels.entries();
    let mut parts: Vec<String> = Vec::new();
    let mut i: usize = 0;
    while i < entries.len()
        invariant
            i <= entries.len(),
            entries@.map_values(|entry: (String, String)| (entry.0@, entry.1@)) == labels@,
            parts@.map_values(|part: String| part@) == labels@.map_values(
                |label: Pair| label_text(label),
            ).take(i as int),
        decreases entries.len() - i,
    {
        let mut part = "[".to_owned();
        part.append(entries[i].0.as_str());
        part.append(" = ");
        part.append(entries[i].1.as_str());
        part.append("]");
        let ghost before = parts@.map_values(|part: String| part@);
        parts.push(part);
        proof {
            let shown = labels@.map_values(|label: Pair| label_text(label));
            assert(labels@[i as int] == (entries@[i as int].0@, entries@[i as int].1@));
            assert(parts@.map_values(|part: String| part@) =~= before.push(shown[i as int]));
            assert(shown.take(i + 1) =~= shown.take(i as int).push(shown[i as int]));
        }
        i = i + 1;
    }
    proof {
        let shown = labels@.map_values(|label: Pair| label_text(label));
        assert(shown.take(i as int) =~= shown);
    }
    join(&parts, " ")
}

} // verus!
