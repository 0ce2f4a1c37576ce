//! The QEMU Machine Protocol (QMP): the JSON values it exchanges, the
//! messages sent, and how replies are read. The socket itself is driven by
//! the caller.

use vstd::prelude::*;
use crate::paths::{exists_answer, probe_exists};
use crate::text::{str_eq, to_owned_string};

verus! {

/// A JSON value as QMP exchanges it. Numbers that are not `i64` integers
/// (fractions, or integers above `i64::MAX`) are kept only as `OtherNumber`:
/// nothing here reads them.
#[derive(Debug)]
pub enum JsonValue {
    Null,
    Bool(bool),
    Int(i64),
    OtherNumber,
    Str(String),
    Array(Vec<JsonValue>),
    /// Member names and values in order (same length; names distinct).
    Object(Vec<String>, Vec<JsonValue>),
}

/// `i` is the first member name in `keys` equal to `key`.
pub open spec fn first_member(keys: Seq<String>, key: Seq<char>, i: int) -> bool {
    0 <= i < keys.len() && keys[i]@ == key && forall|j: int| 0 <= j < i ==> keys[j]@ != key
}

/// `Value::get`: the member named `key` of an object; `None` for a missing
/// member or a value that is not an object.
pub open spec fn json_get(v: JsonValue, key: Seq<char>) -> Option<JsonValue> {
    match v {
        JsonValue::Object(keys, vals) => if exists|i: int| first_member(keys@, key, i) {
            let i = choose|i: int| first_member(keys@, key, i);
            if i < vals@.len() {
                Some(vals@[i])
            } else {
                None
            }
        } else {
            None
        },
        _ => None,
    }
}

/// `Value::as_str`.
pub open spec fn json_str(v: Option<JsonValue>) -> Option<Seq<char>> {
    match v {
        Some(JsonValue::Str(s)) => Some(s@),
        _ => None,
    }
}

/// `Value::as_i64`.
pub open spec fn json_i64(v: Option<JsonValue>) -> Option<i64> {
    match v {
        Some(JsonValue::Int(n)) => Some(n),
        _ => None,
    }
}

/// The member of an optional value named `key` (`and_then(|r| r.get(key))`).
pub open spec fn json_path(v: Option<JsonValue>, key: Seq<char>) -> Option<JsonValue> {
    match v {
        Some(x) => json_get(x, key),
        None => None,
    }
}

impl JsonValue {
    /// The member named `key`, when this is an object that has one.
    #[verifier::loop_isolation(false)]
    pub fn get(&self, key: &str) -> (res: Option<&JsonValue>)
        ensures
            match res {
                Some(r) => json_get(*self, key@) == Some(*r),
                None => json_get(*self, key@) is None,
            },
    {
        match self {
            JsonValue::Object(keys, vals) => {
                let mut i: usize = 0;
                while i < keys.len()
                    invariant
                        i <= keys@.len(),
                        forall|j: int| 0 <= j < i ==> keys@[j]@ != key@,
                    decreases keys@.len() - i,
                {
                    if str_eq(keys[i].as_str(), key) {
                        proof {
                            let k = choose|k: int| first_member(keys@, key@, k);
                            assert(first_member(keys@, key@, i as int));
                            assert(k == i) by {
                                if k < i {
                                    assert(keys@[k]@ != key@);
                                } else if k > i {
                                    assert(keys@[i as int]@ != key@);
                                }
                            }
                        }
                        if i < vals.len() {
                            return Some(&vals[i]);
                        } else {
                            return None;
                        }
                    }
                    i = i + 1;
                }
                None
            },
            _ => None,
        }
    }

    /// The text of a string value.
    pub fn as_str(&self) -> (res: Option<&String>)
        ensures
            match res {
                Some(s) => json_str(Some(*self)) == Some(s@),
                None => json_str(Some(*self)) is None,
            },
    {
        match self {
            JsonValue::Str(s) => Some(s),
            _ => None,
        }
    }

    /// The value of an `i64` number.
    pub fn as_i64(&self) -> (res: Option<i64>)
        ensures
            res == json_i64(Some(*self)),
    {
        match self {
            JsonValue::Int(n) => Some(*n),
            _ => None,
        }
    }

    /// A string value.
    pub fn string(s: &str) -> (res: JsonValue)
        ensures
            res matches JsonValue::Str(t) && t@ == s@,
    {
        JsonValue::Str(to_owned_string(s))
    }
}

/// Errors that can occur while talking to a running QEMU.
#[derive(Debug)]
pub enum QmpError {
    /// Could not connect to the QMP socket.
    ConnectionFailed,
    /// JSON parse error or malformed QMP response.
    ParseError,
    /// QEMU rejected the command or returned an error.
    CommandFailed(String),
}

/// CPU usage stats reported by QMP.
#[derive(Debug, Clone)]
pub struct CpuStats {
    pub usage_percent: u32,
}

/// RAM (balloon) stats reported by QMP.
#[derive(Debug, Clone)]
pub struct BalloonStats {
    pub actual_mb: u32,
    pub total_mb: u32,
}

/// What a line read after sending a command means.
#[derive(Debug)]
pub enum ReplyStep {
    /// An asynchronous event: keep reading.
    Skip,
    /// QEMU rejected the command.
    Failed(QmpError),
    /// The command's reply.
    Done,
}

/// The meaning of a reply line: an `event` member marks an asynchronous
/// event; an `error` member a failure, whose message is its `desc` text or
/// "unknown error"; anything else is the reply.
pub open spec fn step_of(v: JsonValue) -> Option<Option<Seq<char>>> {
    if json_get(v, "event"@) is Some {
        None
    } else if json_get(v, "error"@) is Some {
        Some(Some(match json_str(json_path(json_get(v, "error"@), "desc"@)) {
            Some(d) => d,
            None => "unknown error"@,
        }))
    } else {
        Some(None)
    }
}

/// The view of a reply step: `None` to keep reading, `Some(Some(msg))` for
/// a failure, `Some(None)` for the reply.
pub open spec fn step_view(s: ReplyStep) -> Option<Option<Seq<char>>> {
    match s {
        ReplyStep::Skip => None,
        ReplyStep::Failed(QmpError::CommandFailed(m)) => Some(Some(m@)),
        ReplyStep::Failed(_) => Some(Some(Seq::empty())),
        ReplyStep::Done => Some(None),
    }
}

/// Classifies a line read after a command.
pub fn classify_reply(v: &JsonValue) -> (res: ReplyStep)
    ensures
        step_view(res) == step_of(*v),
        res matches ReplyStep::Failed(e) ==> e is CommandFailed,
{
    if v.get("event").is_some() {
        return ReplyStep::Skip;
    }
    match v.get("error") {
        Some(err) => {
            let msg = match err.get("desc") {
                Some(d) => match d.as_str() {
                    Some(s) => s.clone(),
                    None => to_owned_string("unknown error"),
                },
                None => to_owned_string("unknown error"),
            };
            ReplyStep::Failed(QmpError::CommandFailed(msg))
        },
        None => ReplyStep::Done,
    }
}

/// The view of a message object: its members' names and values.
pub open spec fn members(v: JsonValue) -> Seq<(Seq<char>, JsonValue)> {
    match v {
        JsonValue::Object(k, v) => Seq::new(k@.len(), |i: int| (k@[i]@, v@[i])),
        _ => Seq::empty(),
    }
}

/// The message that runs QMP command `command`.
pub fn command_message(command: &str, args: Option<JsonValue>) -> (res: JsonValue)
    ensures
        res matches JsonValue::Object(k, v) && k@.len() == v@.len(),
        members(res).len() == if args is Some { 2int } else { 1int },
        members(res)[0].0 == "execute"@,
        members(res)[0].1 matches JsonValue::Str(s) && s@ == command@,
        args matches Some(a) ==> members(res)[1] == ("arguments"@, a),
{
    let mut keys: Vec<String> = Vec::new();
    let mut vals: Vec<JsonValue> = Vec::new();
    keys.push(to_owned_string("execute"));
    vals.push(JsonValue::string(command));
    match args {
        Some(a) => {
            keys.push(to_owned_string("arguments"));
            vals.push(a);
        },
        None => {},
    }
    JsonValue::Object(keys, vals)
}

/// The message that enters command mode: `{"execute": "qmp_capabilities"}`.
pub fn capabilities_message() -> (res: JsonValue)
    ensures
        res matches JsonValue::Object(k, v) && k@.len() == v@.len(),
        members(res).len() == 1,
        members(res)[0].0 == "execute"@,
        members(res)[0].1 matches JsonValue::Str(s) && s@ == "qmp_capabilities"@,
{
    command_message("qmp_capabilities", None)
}

/// The arguments of `screendump`: `{"filename": filename}`.
pub fn screendump_args(filename: &str) -> (res: JsonValue)
    ensures
        res matches JsonValue::Object(k, v) && k@.len() == v@.len(),
        members(res).len() == 1,
        members(res)[0].0 == "filename"@,
        members(res)[0].1 matches JsonValue::Str(s) && s@ == filename@,
{
    let mut keys: Vec<String> = Vec::new();
    let mut vals: Vec<JsonValue> = Vec::new();
    keys.push(to_owned_string("filename"));
    vals.push(JsonValue::string(filename));
    JsonValue::Object(keys, vals)
}

/// The run state in a `query-status` reply: `return.status`, or "unknown".
pub open spec fn status_of(resp: JsonValue) -> Seq<char> {
    match json_str(json_path(json_get(resp, "return"@), "status"@)) {
        Some(s) => s,
        None => "unknown"@,
    }
}

/// Integer division rounding toward zero (Rust's `/` on signed integers).
pub open spec fn trunc_div(a: int, b: int) -> int {
    if a >= 0 {
        a / b
    } else {
        -((-a) / b)
    }
}

/// The balloon size in MB in a `query-balloon` reply: `return.actual` bytes
/// (0 when absent) divided by 1 MiB, converted with `as u32`.
pub open spec fn balloon_mb_of(resp: JsonValue) -> u32 {
    let bytes: i64 = match json_i64(json_path(json_get(resp, "return"@), "actual"@)) {
        Some(n) => n,
        None => 0,
    };
    trunc_div(bytes as int, 1_048_576) as u32
}

/// The run state ("running", "paused", ...) reported by a `query-status`
/// reply.
pub fn status_from_reply(resp: &JsonValue) -> (res: String)
    ensures
        res@ == status_of(*resp),
{
    let st = match resp.get("return") {
        Some(r) => match r.get("status") {
            Some(s) => s.as_str(),
            None => None,
        },
        None => None,
    };
    match st {
        Some(s) => s.clone(),
        None => to_owned_string("unknown"),
    }
}

/// CPU usage from a `query-cpus-fast` reply. QMP does not report usage:
/// always 0%.
pub fn cpu_from_reply(_resp: &JsonValue) -> (res: CpuStats)
    ensures
        res.usage_percent == 0,
{
    CpuStats { usage_percent: 0 }
}

/// RAM stats from a `query-balloon` reply: the balloon size in MB, used as
/// both the actual and the total figure.
pub fn balloon_from_reply(resp: &JsonValue) -> (res: BalloonStats)
    ensures
        res.actual_mb == balloon_mb_of(*resp),
        res.total_mb == balloon_mb_of(*resp),
{
    let bytes: i64 = match resp.get("return") {
        Some(r) => match r.get("actual") {
            Some(a) => match a.as_i64() {
                Some(n) => n,
                None => 0,
            },
            None => 0,
        },
        None => 0,
    };
    let wide: i128 = bytes as i128;
    let q: i128 = if wide >= 0 {
        wide / 1_048_576
    } else {
        -((-wide) / 1_048_576)
    };
    let mb: i64 = q as i64;
    let actual_mb: u32 = mb as u32;
    proof {
        assert(q == trunc_div(bytes as int, 1_048_576));
    }
    BalloonStats { actual_mb, total_mb: actual_mb }
}

/// `res` is the outcome of connecting to `path` when the existence probe
/// answered `exists`: a client for `path`, or `ConnectionFailed` exactly
/// when nothing exists there.
pub open spec fn connect_outcome_is(res: Result<QmpClient, QmpError>, path: Seq<char>, exists: bool) -> bool {
    if exists {
        res matches Ok(c) && c@ == path
    } else {
        res matches Err(QmpError::ConnectionFailed)
    }
}

/// QMP client for the Unix socket of one QEMU instance.
pub struct QmpClient {
    socket_path: String,
}

impl View for QmpClient {
    type V = Seq<char>;

    /// The socket path.
    closed spec fn view(&self) -> Seq<char> {
        self.socket_path@
    }
}

impl QmpClient {
    /// A client for the QMP socket at `socket_path`, through `connect_if`
    /// with whether something exists at that path.
    pub fn connect(socket_path: String) -> (res: Result<Self, QmpError>)
        ensures
            exists|exists: bool| #[trigger] connect_outcome_is(res, socket_path@, exists),
            exists|exists: bool| #[trigger] exists_answer(socket_path@, exists) && connect_outcome_is(res, socket_path@, exists),
    {
        let exists = probe_exists(socket_path.as_str());
        let res = Self::connect_if(socket_path, exists);
        assert(connect_outcome_is(res, socket_path@, exists));
        res
    }

    /// The client once the socket path was probed: a client for
    /// `socket_path` when something exists there (no connection is opened
    /// yet), `ConnectionFailed` otherwise.
    pub fn connect_if(socket_path: String, exists: bool) -> (res: Result<Self, QmpError>)
        ensures
            connect_outcome_is(res, socket_path@, exists),
    {
        if !exists {
            return Err(QmpError::ConnectionFailed);
        }
        Ok(QmpClient { socket_path })
    }

    /// Path of the QMP socket.
    pub fn socket_path(&self) -> (res: &String)
        ensures
            res@ == self@,
    {
        &self.socket_path
    }
}


/// `m` is the message that runs `command` with `args`.
pub open spec fn runs_command(m: JsonValue, command: Seq<char>, args: Option<JsonValue>) -> bool {
    &&& (m matches JsonValue::Object(k, v) && k@.len() == v@.len())
    &&& members(m).len() == (if args is Some { 2int } else { 1int })
    &&& members(m)[0].0 == "execute"@
    &&& (members(m)[0].1 matches JsonValue::Str(s) && s@ == command)
    &&& (args matches Some(a) ==> members(m)[1] == ("arguments"@, a))
}

/// `a` is the argument object `{"filename": filename}`.
pub open spec fn filename_args(a: JsonValue, filename: Seq<char>) -> bool {
    &&& (a matches JsonValue::Object(k, v) && k@.len() == v@.len())
    &&& members(a).len() == 1
    &&& members(a)[0].0 == "filename"@
    &&& (members(a)[0].1 matches JsonValue::Str(s) && s@ == filename)
}

/// What is asked of QEMU.
#[derive(Clone, Copy, Debug, PartialEq, Eq, Structural)]
pub enum QmpQuery {
    /// `query-status`: the run state.
    Status,
    /// `query-cpus-fast`: CPU usage.
    Cpu,
    /// `query-balloon`: RAM usage.
    Balloon,
    /// `screendump`: write the screen to a file.
    Screendump,
    /// `quit`: shut QEMU down.
    Quit,
}

/// A QMP command to run over the socket (one exchange: greeting,
/// capabilities, command, reply), and what is asked with it.
#[derive(Debug)]
pub struct QmpRequest {
    pub query: QmpQuery,
    pub message: JsonValue,
}

/// What the reply to a request says.
#[derive(Debug)]
pub enum QmpAnswer {
    Status(String),
    Cpu(CpuStats),
    Balloon(BalloonStats),
    /// The command ran.
    Done,
}

impl QmpClient {
    /// The `query-status` request: the VM run state.
    pub fn query_status(&self) -> (res: QmpRequest)
        ensures
            res.query == QmpQuery::Status,
            runs_command(res.message, "query-status"@, None),
    {
        QmpRequest { query: QmpQuery::Status, message: command_message("query-status", None) }
    }

    /// The `query-cpus-fast` request: CPU usage.
    pub fn query_cpu(&self) -> (res: QmpRequest)
        ensures
            res.query == QmpQuery::Cpu,
            runs_command(res.message, "query-cpus-fast"@, None),
    {
        QmpRequest { query: QmpQuery::Cpu, message: command_message("query-cpus-fast", None) }
    }

    /// The `query-balloon` request: RAM usage through the balloon driver.
    pub fn query_balloon(&self) -> (res: QmpRequest)
        ensures
            res.query == QmpQuery::Balloon,
            runs_command(res.message, "query-balloon"@, None),
    {
        QmpRequest { query: QmpQuery::Balloon, message: command_message("query-balloon", None) }
    }

    /// The `screendump` request: the VM screen written to `filename`.
    pub fn screendump(&self, filename: &str) -> (res: QmpRequest)
        ensures
            res.query == QmpQuery::Screendump,
            exists|a: JsonValue| filename_args(a, filename@) && runs_command(res.message, "screendump"@, Some(a)),
    {
        let args = screendump_args(filename);
        let ghost a = args;
        let message = command_message("screendump", Some(args));
        assert(filename_args(a, filename@) && runs_command(message, "screendump"@, Some(a)));
        QmpRequest { query: QmpQuery::Screendump, message }
    }

    /// The `quit` request: QEMU shuts down.
    pub fn quit(&self) -> (res: QmpRequest)
        ensures
            res.query == QmpQuery::Quit,
            runs_command(res.message, "quit"@, None),
    {
        QmpRequest { query: QmpQuery::Quit, message: command_message("quit", None) }
    }
}

/// The answer a reply gives to `query`.
pub open spec fn answer_of(query: QmpQuery, reply: JsonValue, a: QmpAnswer) -> bool {
    match query {
        QmpQuery::Status => a matches QmpAnswer::Status(s) && s@ == status_of(reply),
        QmpQuery::Cpu => a matches QmpAnswer::Cpu(c) && c.usage_percent == 0,
        QmpQuery::Balloon => a matches QmpAnswer::Balloon(b) && b.actual_mb == balloon_mb_of(reply) && b.total_mb
            == balloon_mb_of(reply),
        QmpQuery::Screendump => a is Done,
        QmpQuery::Quit => a is Done,
    }
}

impl QmpRequest {
    /// What the exchange's outcome means for this request: a failed
    /// exchange keeps its error; a reply gives the run state, the CPU
    /// usage, the balloon size, or nothing for `screendump` and `quit`.
    pub fn answer(&self, outcome: Result<JsonValue, QmpError>) -> (res: Result<QmpAnswer, QmpError>)
        ensures
            match outcome {
                Err(e) => res == Err::<QmpAnswer, QmpError>(e),
                Ok(v) => res matches Ok(a) && answer_of(self.query, v, a),
            },
    {
        match outcome {
            Err(e) => Err(e),
            Ok(v) => match self.query {
                QmpQuery::Status => Ok(QmpAnswer::Status(status_from_reply(&v))),
                QmpQuery::Cpu => Ok(QmpAnswer::Cpu(cpu_from_reply(&v))),
                QmpQuery::Balloon => Ok(QmpAnswer::Balloon(balloon_from_reply(&v))),
                QmpQuery::Screendump => Ok(QmpAnswer::Done),
                QmpQuery::Quit => Ok(QmpAnswer::Done),
            },
        }
    }
}

} // verus!
