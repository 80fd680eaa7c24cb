//! The analytics sink. A sink is either active, aimed at a time-series
//! endpoint, or a no-op; the mode is fixed at construction. Every operation
//! here computes what must leave the process — a telemetry point, a console
//! log line — and hands it back as plain data; the caller performs the actual
//! sends and prints. In no-op mode no operation yields a point, so nothing is
//! ever sent.

use vstd::prelude::*;

use crate::text::spec_u64_string;
use crate::text::u64_to_string;

verus! {

/// Severity of a log message.
#[derive(Clone, Copy, Debug, PartialEq, Eq, Structural)]
pub enum LogLevel {
    Info,
    Warn,
    Error,
}

/// The wire name of a log level.
pub open spec fn spec_level_str(level: LogLevel) -> Seq<char> {
    match level {
        LogLevel::Info => "info"@,
        LogLevel::Warn => "warn"@,
        LogLevel::Error => "error"@,
    }
}

/// The ANSI color prefix a level is printed with: green for info, red for
/// warnings, yellow for errors.
pub open spec fn spec_ansi_code(level: LogLevel) -> Seq<char> {
    match level {
        LogLevel::Info => "\x1b[32m"@,
        LogLevel::Warn => "\x1b[31m"@,
        LogLevel::Error => "\x1b[33m"@,
    }
}

impl LogLevel {
    /// The wire name of this level.
    pub fn as_str(&self) -> (r: &'static str)
        ensures
            r@ == spec_level_str(*self),
    {
        match self {
            LogLevel::Info => "info",
            LogLevel::Error => "error",
            LogLevel::Warn => "warn",
        }
    }

    /// The ANSI color prefix this level is printed with.
    pub fn ansi_code(&self) -> (r: &'static str)
        ensures
            r@ == spec_ansi_code(*self),
    {
        match self {
            LogLevel::Error => "\x1b[33m",
            LogLevel::Warn => "\x1b[31m",
            _ => "\x1b[32m",
        }
    }
}

/// Why a sink could not be constructed: the telemetry endpoint takes a host
/// and a database together, and exactly one of them was given.
#[derive(Debug, PartialEq, Eq, Structural)]
pub enum AnalyticsClientError {
    MissingHost,
    MissingDatabase,
}

impl AnalyticsClientError {
    /// A human-readable description of the failure.
    pub fn message(&self) -> (r: String)
        ensures
            *self is MissingHost ==> r@ == "missing host"@,
            *self is MissingDatabase ==> r@ == "missing database"@,
    {
        match self {
            AnalyticsClientError::MissingHost => String::from_str("missing host"),
            AnalyticsClientError::MissingDatabase => String::from_str("missing database"),
        }
    }
}

/// One tag on a telemetry point.
pub struct Tag {
    pub key: String,
    pub value: String,
}

/// The value a telemetry point carries.
pub enum PointValue {
    Int(i32),
    Text(String),
}

/// One telemetry point, ready to be stamped with the send time and written to
/// the time-series backend by the caller.
pub struct Point {
    pub measurement: String,
    pub value: PointValue,
    pub tags: Vec<Tag>,
}

/// The point that reports the observed number of guilds: a `guild_count`
/// gauge tagged with the bot identifier and the shard.
pub open spec fn is_guild_count_point(pt: Point, identifier: String, count: int, shard_id: nat) -> bool {
    &&& pt.measurement@ == "guild_count"@
    &&& pt.value == PointValue::Int(count as i32)
    &&& pt.tags@.len() == 2
    &&& pt.tags@[0].key@ == "bot"@
    &&& pt.tags@[0].value == identifier
    &&& pt.tags@[1].key@ == "shard_id"@
    &&& pt.tags@[1].value@ == spec_u64_string(shard_id)
}

/// The point that reports one command invocation: a `use` counter increment
/// tagged with the bot identifier and the guild.
pub open spec fn is_usage_point(pt: Point, identifier: String, guild_id: nat) -> bool {
    &&& pt.measurement@ == "use"@
    &&& pt.value == PointValue::Int(1)
    &&& pt.tags@.len() == 2
    &&& pt.tags@[0].key@ == "bot"@
    &&& pt.tags@[0].value == identifier
    &&& pt.tags@[1].key@ == "guild"@
    &&& pt.tags@[1].value@ == spec_u64_string(guild_id)
}

/// The point that makes one log message durable: a `log` measurement whose
/// value is the message, tagged with the bot identifier and the level.
pub open spec fn is_log_point(pt: Point, identifier: String, level: LogLevel, message: Seq<char>) -> bool {
    &&& pt.measurement@ == "log"@
    &&& pt.value matches PointValue::Text(v) && v@ == message
    &&& pt.tags@.len() == 2
    &&& pt.tags@[0].key@ == "bot"@
    &&& pt.tags@[0].value == identifier
    &&& pt.tags@[1].key@ == "level"@
    &&& pt.tags@[1].value@ == spec_level_str(level)
}

/// The time-series endpoint an active sink writes to.
pub struct InfluxTarget {
    pub host: String,
    pub database: String,
}

/// The analytics sink: active with an endpoint, or a no-op with no endpoint.
/// The identifier tags every point and is never empty.
pub struct AnalyticsClient {
    pub target: Option<InfluxTarget>,
    pub identifier: String,
}

/// One console line with the telemetry point that mirrors it. The line embeds
/// the timestamp `time` that was read from the clock when it was built.
pub struct LogOutput {
    pub time: String,
    pub line: String,
    pub point: Option<Point>,
}

/// The console rendering of a log message: the timestamp and the colored
/// level inside brackets, then the message.
pub open spec fn spec_log_line(ts: Seq<char>, level: LogLevel, message: Seq<char>) -> Seq<char> {
    "["@ + ts + " "@ + spec_ansi_code(level) + spec_level_str(level) + "\x1b[0m] "@ + message
}

/// Renders one log message for the console, exactly as `spec_log_line`
/// describes.
pub fn format_log_line(ts: &str, level: LogLevel, message: &str) -> (r: String)
    ensures
        r@ == spec_log_line(ts@, level, message@),
{
    let mut s = String::from_str("[");
    s.append(ts);
    s.append(" ");
    s.append(level.ansi_code());
    s.append(level.as_str());
    s.append("\x1b[0m] ");
    s.append(message);
    proof {
        assert(s@ =~= spec_log_line(ts@, level, message@));
    }
    s
}

/// Relies on `chrono::Utc::now` and its text rendering: the current UTC
/// wall-clock time as a string. Nothing is promised of the value; it depends
/// on the clock alone.
#[verifier::external_body]
fn now_utc_string() -> String {
    chrono::Utc::now().to_string()
}

impl AnalyticsClient {
    /// The sink is well formed when its identifier tag is non-empty.
    pub open spec fn wf(&self) -> bool {
        self.identifier@.len() > 0
    }

    /// Whether the sink writes to a backend at all.
    pub open spec fn is_active(&self) -> bool {
        self.target is Some
    }

    /// Builds a sink from the optional endpoint configuration. Host and
    /// database must be given together: exactly one of them present is
    /// rejected by naming the absent half; neither present yields the no-op
    /// sink; both present yield the active sink.
    pub fn new(host: Option<String>, database: Option<String>, identifier: &String) -> (r: Result<
        AnalyticsClient,
        AnalyticsClientError,
    >)
        requires
            identifier@.len() > 0,
        ensures
            (host is None && database is Some) <==> r == Err::<
                AnalyticsClient,
                AnalyticsClientError,
            >(AnalyticsClientError::MissingHost),
            (host is Some && database is None) <==> r == Err::<
                AnalyticsClient,
                AnalyticsClientError,
            >(AnalyticsClientError::MissingDatabase),
            r is Ok <==> (host is Some <==> database is Some),
            r matches Ok(c) ==> c.wf() && c.identifier == identifier,
            r matches Ok(c) ==> (c.is_active() <==> host is Some),
            host matches Some(h) ==> database matches Some(d) ==> r matches Ok(c) ==> (
            c.target matches Some(t) && t.host == h && t.database == d),
    {
        if host.is_some() && database.is_none() {
            return Err(AnalyticsClientError::MissingDatabase);
        }
        if host.is_none() && database.is_some() {
            return Err(AnalyticsClientError::MissingHost);
        }
        match (host, database) {
            (Some(h), Some(d)) => Ok(
                AnalyticsClient {
                    target: Some(InfluxTarget { host: h, database: d }),
                    identifier: identifier.clone(),
                },
            ),
            _ => Ok(AnalyticsClient { target: None, identifier: identifier.clone() }),
        }
    }

    /// The `guild_count` gauge for the observed number of guilds. An active
    /// sink yields exactly the guild-count point; the no-op sink yields
    /// nothing to send and the operation succeeds with that.
    pub fn update_guilds(&self, count: usize, shard_id: u32) -> (r: Option<Point>)
        requires
            count <= 0x7fff_ffff,
        ensures
            !self.is_active() ==> r is None,
            self.is_active() ==> (r matches Some(pt) && is_guild_count_point(
                pt,
                self.identifier,
                count as int,
                shard_id as nat,
            )),
    {
        if self.target.is_none() {
            return None;
        }
        let mut tags: Vec<Tag> = Vec::new();
        tags.push(Tag { key: String::from_str("bot"), value: self.identifier.clone() });
        tags.push(Tag { key: String::from_str("shard_id"), value: u64_to_string(shard_id as u64) });
        Some(
            Point {
                measurement: String::from_str("guild_count"),
                value: PointValue::Int(count as i32),
                tags,
            },
        )
    }

    /// The `use` counter increment for one command invocation. The channel is
    /// accepted for the caller's benefit but is not written to the backend.
    /// An active sink yields exactly the usage point; the no-op sink yields
    /// nothing to send.
    pub fn update_usage(&self, guild_id: u64, _channel_id: u64) -> (r: Option<Point>)
        ensures
            !self.is_active() ==> r is None,
            self.is_active() ==> (r matches Some(pt) && is_usage_point(
                pt,
                self.identifier,
                guild_id as nat,
            )),
    {
        if self.target.is_none() {
            return None;
        }
        let mut tags: Vec<Tag> = Vec::new();
        tags.push(Tag { key: String::from_str("bot"), value: self.identifier.clone() });
        tags.push(Tag { key: String::from_str("guild"), value: u64_to_string(guild_id) });
        Some(
            Point {
                measurement: String::from_str("use"),
                value: PointValue::Int(1),
                tags,
            },
        )
    }

    /// The guild-rename report. No rename measurement is part of the backend
    /// schema, so the operation accepts its arguments, yields nothing to
    /// send, and succeeds with that.
    pub fn update_guild_name(&self, _guild_id: u64, _name: &str) -> (r: Option<Point>)
        ensures
            r is None,
    {
        None
    }

    fn log_generic(&self, message: &str, level: LogLevel) -> (r: LogOutput)
        ensures
            r.line@ == spec_log_line(r.time@, level, message@),
            !self.is_active() ==> r.point is None,
            self.is_active() ==> (r.point matches Some(pt) && is_log_point(
                pt,
                self.identifier,
                level,
                message@,
            )),
    {
        let time = now_utc_string();
        let line = format_log_line(time.as_str(), level, message);
        let point = if self.target.is_some() {
            let mut tags: Vec<Tag> = Vec::new();
            tags.push(Tag { key: String::from_str("bot"), value: self.identifier.clone() });
            tags.push(Tag { key: String::from_str("level"), value: String::from_str(level.as_str()) });
            Some(
                Point {
                    measurement: String::from_str("log"),
                    value: PointValue::Text(String::from_str(message)),
                    tags,
                },
            )
        } else {
            None
        };
        LogOutput { time, line, point }
    }

    /// A log message at info level: the colored console line, and the `log`
    /// point when the sink is active.
    pub fn info(&self, message: &str) -> (r: LogOutput)
        ensures
            r.line@ == spec_log_line(r.time@, LogLevel::Info, message@),
            !self.is_active() ==> r.point is None,
            self.is_active() ==> (r.point matches Some(pt) && is_log_point(
                pt,
                self.identifier,
                LogLevel::Info,
                message@,
            )),
    {
        self.log_generic(message, LogLevel::Info)
    }

    /// A log message at warn level: the colored console line, and the `log`
    /// point when the sink is active.
    pub fn warn(&self, message: &str) -> (r: LogOutput)
        ensures
            r.line@ == spec_log_line(r.time@, LogLevel::Warn, message@),
            !self.is_active() ==> r.point is None,
            self.is_active() ==> (r.point matches Some(pt) && is_log_point(
                pt,
                self.identifier,
                LogLevel::Warn,
                message@,
            )),
    {
        self.log_generic(message, LogLevel::Warn)
    }

    /// A log message at error level: the colored console line, and the `log`
    /// point when the sink is active.
    pub fn error(&self, message: &str) -> (r: LogOutput)
        ensures
            r.line@ == spec_log_line(r.time@, LogLevel::Error, message@),
            !self.is_active() ==> r.point is None,
            self.is_active() ==> (r.point matches Some(pt) && is_log_point(
                pt,
                self.identifier,
                LogLevel::Error,
                message@,
            )),
    {
        self.log_generic(message, LogLevel::Error)
    }
}

/// A framework error as the router sees it: a startup failure, a failure
/// inside one command's execution, or anything else, each carried with the
/// framework's own rendering of the underlying error.
pub enum FrameworkFault {
    Setup { message: String },
    Command { command_name: String, message: String },
    Other { message: String },
}

/// What the caller must do with one framework error: log `log_message` at
/// `level` (and make it durable through the sink), abort the process when
/// `fatal`, and hand the error to the framework's default renderer when
/// `run_default_handler`.
pub struct ErrorRoute {
    pub level: LogLevel,
    pub log_message: String,
    pub fatal: bool,
    pub run_default_handler: bool,
}

/// Classifies one framework error. A setup failure is fatal and logged as an
/// error; a command failure is expected, logged as a warning with the command
/// name, and goes no further; anything else is logged as an error and then
/// handed to the framework's default renderer.
pub fn on_error(fault: &FrameworkFault) -> (r: ErrorRoute)
    ensures
        fault matches FrameworkFault::Setup { message } ==> (r.level is Error && r.fatal
            && !r.run_default_handler && r.log_message@ == "failed to start bot: "@ + message@),
        fault matches FrameworkFault::Command { command_name, message } ==> (r.level is Warn
            && !r.fatal && !r.run_default_handler && r.log_message@ == "Error in command `"@
            + command_name@ + "`: "@ + message@),
        fault matches FrameworkFault::Other { message } ==> (r.level is Error && !r.fatal
            && r.run_default_handler && r.log_message@ == "unknown error: "@ + message@),
{
    match fault {
        FrameworkFault::Setup { message } => {
            let log_message = String::from_str("failed to start bot: ").concat(message.as_str());
            ErrorRoute {
                level: LogLevel::Error,
                log_message,
                fatal: true,
                run_default_handler: false,
            }
        },
        FrameworkFault::Command { command_name, message } => {
            let mut log_message = String::from_str("Error in command `");
            log_message.append(command_name.as_str());
            log_message.append("`: ");
            log_message.append(message.as_str());
            proof {
                assert(log_message@ =~= "Error in command `"@ + command_name@ + "`: "@ + message@);
            }
            ErrorRoute {
                level: LogLevel::Warn,
                log_message,
                fatal: false,
                run_default_handler: false,
            }
        },
        FrameworkFault::Other { message } => {
            let log_message = String::from_str("unknown error: ").concat(message.as_str());
            ErrorRoute {
                level: LogLevel::Error,
                log_message,
                fatal: false,
                run_default_handler: true,
            }
        },
    }
}

/// The error-level message logged when the framework's default renderer
/// itself fails while handling an error.
pub fn handler_failure_message(inner: &str) -> (r: String)
    ensures
        r@ == "Error while handling error: "@ + inner@,
{
    String::from_str("Error while handling error: ").concat(inner)
}

} // verus!
