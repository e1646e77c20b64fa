//! The native call surface, modelled.
//!
//! The native client library is reached through a fixed set of entry
//! points (handle allocation, attribute get/set, attach, session
//! begin/end, statement prepare/execute/release, diagnostic retrieval)
//! together with the numeric constants those entry points expect. This
//! module declares the constants, the structured error value every
//! failing call is translated into, and an executable model of the
//! native layer: a call-recording [`Oci`] value that hands back scripted
//! status codes, so that the layers above can be verified against every
//! outcome the native library may produce.

use vstd::prelude::*;

verus! {

/// Native handle-type codes (environment = 1 through transaction = 10).
#[derive(Clone, Copy, Debug)]
pub enum OCIHandleType {
    Environment,
    Error,
    Service,
    Statement,
    Bind,
    Define,
    Describe,
    Server,
    Session,
    Transaction,
}

impl OCIHandleType {
    /// The numeric code the native layer expects for this handle type.
    pub open spec fn spec_code(self) -> u32 {
        match self {
            OCIHandleType::Environment => 1,
            OCIHandleType::Error => 2,
            OCIHandleType::Service => 3,
            OCIHandleType::Statement => 4,
            OCIHandleType::Bind => 5,
            OCIHandleType::Define => 6,
            OCIHandleType::Describe => 7,
            OCIHandleType::Server => 8,
            OCIHandleType::Session => 9,
            OCIHandleType::Transaction => 10,
        }
    }

    pub fn code(&self) -> (r: u32)
        ensures
            r == self.spec_code(),
    {
        match self {
            OCIHandleType::Environment => 1,
            OCIHandleType::Error => 2,
            OCIHandleType::Service => 3,
            OCIHandleType::Statement => 4,
            OCIHandleType::Bind => 5,
            OCIHandleType::Define => 6,
            OCIHandleType::Describe => 7,
            OCIHandleType::Server => 8,
            OCIHandleType::Session => 9,
            OCIHandleType::Transaction => 10,
        }
    }
}

/// Environment-creation and call mode flags.
#[derive(Clone, Copy, Debug)]
pub enum OCIMode {
    /// The default value: non-UTF-16 encoding, no special behaviour.
    Default,
    /// Threaded environment: internal native structures are guarded
    /// against concurrent access.
    Threaded,
    /// Object features enabled.
    Object,
    /// Publish-subscribe notifications enabled.
    Events,
    /// Suppresses the dynamic environment callback routine.
    NoUcb,
    /// No mutual-exclusion locking; all calls on the environment must
    /// be serialized by the caller.
    NoMutex,
    /// Suppresses character-set validation.
    SuppressNLSValidation,
    /// Turns national-character literal replacement on.
    NcharLiteralReplaceOn,
    /// Turns national-character literal replacement off.
    NcharLiteralReplaceOff,
    /// Enables character-set validation.
    EnableNLSValidation,
}

impl OCIMode {
    /// The numeric flag value the native layer expects for this mode.
    pub open spec fn spec_code(self) -> u32 {
        match self {
            OCIMode::Default => 0x00000000,
            OCIMode::Threaded => 0x00000001,
            OCIMode::Object => 0x00000002,
            OCIMode::Events => 0x00000004,
            OCIMode::NoUcb => 0x00000040,
            OCIMode::NoMutex => 0x00000080,
            OCIMode::SuppressNLSValidation => 0x00100000,
            OCIMode::NcharLiteralReplaceOn => 0x00400000,
            OCIMode::NcharLiteralReplaceOff => 0x00800000,
            OCIMode::EnableNLSValidation => 0x01000000,
        }
    }

    pub fn code(&self) -> (r: u32)
        ensures
            r == self.spec_code(),
    {
        match self {
            OCIMode::Default => 0x00000000,
            OCIMode::Threaded => 0x00000001,
            OCIMode::Object => 0x00000002,
            OCIMode::Events => 0x00000004,
            OCIMode::NoUcb => 0x00000040,
            OCIMode::NoMutex => 0x00000080,
            OCIMode::SuppressNLSValidation => 0x00100000,
            OCIMode::NcharLiteralReplaceOn => 0x00400000,
            OCIMode::NcharLiteralReplaceOff => 0x00800000,
            OCIMode::EnableNLSValidation => 0x01000000,
        }
    }
}

/// Credential kinds for beginning a session.
#[derive(Clone, Copy, Debug)]
pub enum OCICredentialsType {
    /// Password-based database authentication.
    Rdbms,
    /// Credentials established externally.
    External,
}

impl OCICredentialsType {
    pub open spec fn spec_code(self) -> u32 {
        match self {
            OCICredentialsType::Rdbms => 1,
            OCICredentialsType::External => 2,
        }
    }

    pub fn code(&self) -> (r: u32)
        ensures
            r == self.spec_code(),
    {
        match self {
            OCICredentialsType::Rdbms => 1,
            OCICredentialsType::External => 2,
        }
    }
}

/// Authentication mode flags for beginning or ending a session.
#[derive(Clone, Copy, Debug)]
pub enum OCIAuthMode {
    Default,
    Migrate,
    Sysdba,
    Sysoper,
    PrelimAuth,
    StmtCache,
}

impl OCIAuthMode {
    pub open spec fn spec_code(self) -> u32 {
        match self {
            OCIAuthMode::Default => 0x00000000,
            OCIAuthMode::Migrate => 0x00000001,
            OCIAuthMode::Sysdba => 0x00000002,
            OCIAuthMode::Sysoper => 0x00000004,
            OCIAuthMode::PrelimAuth => 0x00000008,
            OCIAuthMode::StmtCache => 0x00000040,
        }
    }

    pub fn code(&self) -> (r: u32)
        ensures
            r == self.spec_code(),
    {
        match self {
            OCIAuthMode::Default => 0x00000000,
            OCIAuthMode::Migrate => 0x00000001,
            OCIAuthMode::Sysdba => 0x00000002,
            OCIAuthMode::Sysoper => 0x00000004,
            OCIAuthMode::PrelimAuth => 0x00000008,
            OCIAuthMode::StmtCache => 0x00000040,
        }
    }
}

/// Attribute codes for the attribute get/set calls.
#[derive(Clone, Copy, Debug)]
pub enum OCIAttribute {
    /// The server-context attribute of a service context.
    Server,
    /// The authenticated-session attribute of a service context.
    Session,
    /// The user name to authenticate with; carries an explicit length.
    Username,
    /// The password to authenticate with; carries an explicit length.
    Password,
}

impl OCIAttribute {
    pub open spec fn spec_code(self) -> u32 {
        match self {
            OCIAttribute::Server => 6,
            OCIAttribute::Session => 7,
            OCIAttribute::Username => 22,
            OCIAttribute::Password => 23,
        }
    }

    pub fn code(&self) -> (r: u32)
        ensures
            r == self.spec_code(),
    {
        match self {
            OCIAttribute::Server => 6,
            OCIAttribute::Session => 7,
            OCIAttribute::Username => 22,
            OCIAttribute::Password => 23,
        }
    }
}

/// How a translated status code is classified.
#[derive(Clone, Copy, Debug, PartialEq, Eq, Structural)]
pub enum ErrorKind {
    /// Status 100: the call found no data.
    NoData,
    /// Status -2: a handle passed to the call was invalid.
    InvalidHandle,
    /// Status 99: the call needs more data.
    NeedData,
    /// Status -3123: an earlier call is still executing.
    StillExecuting,
    /// Status -1 with a diagnostic record available.
    DiagnosedError,
    /// Status -1 with no error handle to consult.
    UndiagnosedError,
    /// Status 1: the call succeeded but left diagnostic information.
    SuccessWithInfo,
    /// Any status code outside the defined sentinels: a contract
    /// violation by the native layer, unrecoverable for the caller.
    UnexpectedCode,
}

/// A structured, immutable error value: the native numeric code, a
/// human-readable message (from native diagnostics when available),
/// and a tag naming the operation that failed.
#[derive(Clone, Debug)]
pub struct OracleError {
    pub kind: ErrorKind,
    pub code: i32,
    pub message: String,
    pub location: String,
}

/// The mathematical value of an [`OracleError`].
pub ghost struct ErrView {
    pub kind: ErrorKind,
    pub code: i32,
    pub message: Seq<char>,
    pub location: Seq<char>,
}

impl View for OracleError {
    type V = ErrView;

    open spec fn view(&self) -> ErrView {
        ErrView {
            kind: self.kind,
            code: self.code,
            message: self.message@,
            location: self.location@,
        }
    }
}

impl OracleError {
    /// A one-word description of the error family.
    pub fn description(&self) -> (r: &'static str)
        ensures
            r@ == "Oracle error"@,
    {
        "Oracle error"
    }
}

/// What translating a raw status code yields: `None` for success,
/// otherwise the exact structured error. `diag` is the diagnostic
/// record (code and message) consulted for the two codes that carry
/// one — it is ignored for every other code.
pub open spec fn spec_check_error(
    code: i32,
    diag: Option<(i32, Seq<char>)>,
    location: Seq<char>,
) -> Option<ErrView> {
    if code == 0 {
        None
    } else if code == 100 {
        Some(ErrView { kind: ErrorKind::NoData, code: 100, message: "No data"@, location })
    } else if code == -2 {
        Some(
            ErrView {
                kind: ErrorKind::InvalidHandle,
                code: -2i32,
                message: "Invalid handle"@,
                location,
            },
        )
    } else if code == 99 {
        Some(ErrView { kind: ErrorKind::NeedData, code: 99, message: "Need data"@, location })
    } else if code == -3123 {
        Some(
            ErrView {
                kind: ErrorKind::StillExecuting,
                code: -3123i32,
                message: "Still executing"@,
                location,
            },
        )
    } else if code == -1 {
        match diag {
            Some((c, m)) => Some(
                ErrView { kind: ErrorKind::DiagnosedError, code: c, message: m, location },
            ),
            None => Some(
                ErrView {
                    kind: ErrorKind::UndiagnosedError,
                    code: -1i32,
                    message: "Error with no details"@,
                    location,
                },
            ),
        }
    } else if code == 1 {
        match diag {
            Some((c, m)) => Some(
                ErrView { kind: ErrorKind::SuccessWithInfo, code: c, message: m, location },
            ),
            None => Some(
                ErrView {
                    kind: ErrorKind::SuccessWithInfo,
                    code: 1,
                    message: "Success with info"@,
                    location,
                },
            ),
        }
    } else {
        Some(
            ErrView {
                kind: ErrorKind::UnexpectedCode,
                code,
                message: "Unknown return code"@,
                location,
            },
        )
    }
}

/// An owned environment-handle token.
#[derive(Debug)]
pub struct OCIEnv {
    pub raw: usize,
}

/// An owned error-handle token, child of an environment.
#[derive(Debug)]
pub struct OCIError {
    pub raw: usize,
}

/// An owned service-context-handle token.
#[derive(Debug)]
pub struct OCISvcCtx {
    pub raw: usize,
}

/// An owned server-handle token.
#[derive(Debug)]
pub struct OCIServer {
    pub raw: usize,
}

/// An owned session-handle token.
#[derive(Debug)]
pub struct OCISession {
    pub raw: usize,
}

/// An owned statement-handle token.
#[derive(Debug)]
pub struct OCIStmt {
    pub raw: usize,
}

/// The value handed to an attribute-set call: either another handle
/// (linking it into the target) or a text value such as a user name.
#[derive(Debug)]
pub enum AttrValue {
    Handle(usize),
    Text(String),
}

/// The mathematical value of an [`AttrValue`].
pub ghost enum AttrValueView {
    Handle(int),
    Text(Seq<char>),
}

impl View for AttrValue {
    type V = AttrValueView;

    open spec fn view(&self) -> AttrValueView {
        match self {
            AttrValue::Handle(h) => AttrValueView::Handle(*h as int),
            AttrValue::Text(s) => AttrValueView::Text(s@),
        }
    }
}

/// One native entry-point invocation, with every argument the native
/// layer would see. Handle arguments are recorded as their tokens.
#[derive(Debug)]
pub enum NativeOp {
    EnvNlsCreate { mode: u32, handle: usize },
    HandleAlloc { parent: usize, htype: u32, handle: usize },
    ServerAttach { server: usize, error: usize, db: String, mode: u32 },
    AttrSet { target: usize, htype: u32, value: AttrValue, size: u32, attr: u32, error: usize },
    SessionBegin { service: usize, error: usize, session: usize, credentials: u32, mode: u32 },
    SessionEnd { service: usize, error: usize, session: usize, mode: u32 },
    ServerDetach { server: usize, error: usize, mode: u32 },
    HandleFree { handle: usize, htype: u32 },
    StmtPrepare2 {
        service: usize,
        error: usize,
        text: String,
        key: String,
        handle: usize,
        syntax: u32,
        mode: u32,
    },
    StmtExecute { service: usize, stmt: usize, error: usize, iters: u32, rowoff: u32, mode: u32 },
    StmtRelease { stmt: usize, error: usize, key: String, mode: u32 },
    ParamGet { stmt: usize, htype: u32, error: usize, position: u32, handle: usize },
    AttrGet { target: usize, dtype: u32, attr: u32, error: usize },
    ErrorGet { error: usize, recordno: u32 },
}

/// The mathematical value of a [`NativeOp`].
pub ghost enum OpView {
    EnvNlsCreate { mode: u32, handle: int },
    HandleAlloc { parent: int, htype: u32, handle: int },
    ServerAttach { server: int, error: int, db: Seq<char>, mode: u32 },
    AttrSet { target: int, htype: u32, value: AttrValueView, size: u32, attr: u32, error: int },
    SessionBegin { service: int, error: int, session: int, credentials: u32, mode: u32 },
    SessionEnd { service: int, error: int, session: int, mode: u32 },
    ServerDetach { server: int, error: int, mode: u32 },
    HandleFree { handle: int, htype: u32 },
    StmtPrepare2 {
        service: int,
        error: int,
        text: Seq<char>,
        key: Seq<char>,
        handle: int,
        syntax: u32,
        mode: u32,
    },
    StmtExecute { service: int, stmt: int, error: int, iters: u32, rowoff: u32, mode: u32 },
    StmtRelease { stmt: int, error: int, key: Seq<char>, mode: u32 },
    ParamGet { stmt: int, htype: u32, error: int, position: u32, handle: int },
    AttrGet { target: int, dtype: u32, attr: u32, error: int },
    ErrorGet { error: int, recordno: u32 },
}

impl View for NativeOp {
    type V = OpView;

    open spec fn view(&self) -> OpView {
        match self {
            NativeOp::EnvNlsCreate { mode, handle } => OpView::EnvNlsCreate {
                mode: *mode,
                handle: *handle as int,
            },
            NativeOp::HandleAlloc { parent, htype, handle } => OpView::HandleAlloc {
                parent: *parent as int,
                htype: *htype,
                handle: *handle as int,
            },
            NativeOp::ServerAttach { server, error, db, mode } => OpView::ServerAttach {
                server: *server as int,
                error: *error as int,
                db: db@,
                mode: *mode,
            },
            NativeOp::AttrSet { target, htype, value, size, attr, error } => OpView::AttrSet {
                target: *target as int,
                htype: *htype,
                value: value@,
                size: *size,
                attr: *attr,
                error: *error as int,
            },
            NativeOp::SessionBegin { service, error, session, credentials, mode } => {
                OpView::SessionBegin {
                    service: *service as int,
                    error: *error as int,
                    session: *session as int,
                    credentials: *credentials,
                    mode: *mode,
                }
            },
            NativeOp::SessionEnd { service, error, session, mode } => OpView::SessionEnd {
                service: *service as int,
                error: *error as int,
                session: *session as int,
                mode: *mode,
            },
            NativeOp::ServerDetach { server, error, mode } => OpView::ServerDetach {
                server: *server as int,
                error: *error as int,
                mode: *mode,
            },
            NativeOp::HandleFree { handle, htype } => OpView::HandleFree {
                handle: *handle as int,
                htype: *htype,
            },
            NativeOp::StmtPrepare2 { service, error, text, key, handle, syntax, mode } => {
                OpView::StmtPrepare2 {
                    service: *service as int,
                    error: *error as int,
                    text: text@,
                    key: key@,
                    handle: *handle as int,
                    syntax: *syntax,
                    mode: *mode,
                }
            },
            NativeOp::StmtExecute { service, stmt, error, iters, rowoff, mode } => {
                OpView::StmtExecute {
                    service: *service as int,
                    stmt: *stmt as int,
                    error: *error as int,
                    iters: *iters,
                    rowoff: *rowoff,
                    mode: *mode,
                }
            },
            NativeOp::StmtRelease { stmt, error, key, mode } => OpView::StmtRelease {
                stmt: *stmt as int,
                error: *error as int,
                key: key@,
                mode: *mode,
            },
            NativeOp::ParamGet { stmt, htype, error, position, handle } => OpView::ParamGet {
                stmt: *stmt as int,
                htype: *htype,
                error: *error as int,
                position: *position,
                handle: *handle as int,
            },
            NativeOp::AttrGet { target, dtype, attr, error } => OpView::AttrGet {
                target: *target as int,
                dtype: *dtype,
                attr: *attr,
                error: *error as int,
            },
            NativeOp::ErrorGet { error, recordno } => OpView::ErrorGet {
                error: *error as int,
                recordno: *recordno,
            },
        }
    }
}

/// One recorded call: the invocation and the status the native layer
/// answered it with.
#[derive(Debug)]
pub struct CallRecord {
    pub op: NativeOp,
    pub status: i32,
}

/// The mathematical value of a [`CallRecord`].
pub ghost struct CallView {
    pub op: OpView,
    pub status: i32,
}

impl View for CallRecord {
    type V = CallView;

    open spec fn view(&self) -> CallView {
        CallView { op: self.op@, status: self.status }
    }
}

/// The executable model of the native layer: a call-recording test
/// double. Every entry point appends its invocation to `log` and
/// answers with the scripted status for that position (`0`, success,
/// once the script is exhausted). The diagnostic record returned by
/// the error-retrieval call is `(diag_code, diag_message)`; the size
/// answered by the attribute-get call is `attr_size`.
#[derive(Debug)]
pub struct Oci {
    pub log: Vec<CallRecord>,
    pub script: Vec<i32>,
    pub diag_code: i32,
    pub diag_message: String,
    pub attr_size: u32,
}

/// The mathematical value of an [`Oci`].
pub ghost struct OciModel {
    pub log: Seq<CallView>,
    pub script: Seq<i32>,
    pub diag_code: i32,
    pub diag_message: Seq<char>,
    pub attr_size: u32,
}

/// The view of a call log.
pub open spec fn log_view(l: Seq<CallRecord>) -> Seq<CallView> {
    l.map_values(|r: CallRecord| r@)
}

impl View for Oci {
    type V = OciModel;

    open spec fn view(&self) -> OciModel {
        OciModel {
            log: log_view(self.log@),
            script: self.script@,
            diag_code: self.diag_code,
            diag_message: self.diag_message@,
            attr_size: self.attr_size,
        }
    }
}

/// Appending a record commutes with taking the log's view.
pub proof fn lemma_log_view_push(l: Seq<CallRecord>, r: CallRecord)
    ensures
        log_view(l.push(r)) == log_view(l).push(r@),
{
    assert(log_view(l.push(r)) =~= log_view(l).push(r@));
}

/// The status the native layer will answer call number `i` with.
pub open spec fn spec_status_at(o: OciModel, i: int) -> i32 {
    if 0 <= i < o.script.len() {
        o.script[i]
    } else {
        0i32
    }
}

/// The status the next call will be answered with.
pub open spec fn spec_next_status(o: OciModel) -> i32 {
    spec_status_at(o, o.log.len() as int)
}

/// The model after `d` further calls have been recorded.
pub open spec fn with_calls(o: OciModel, d: Seq<CallView>) -> OciModel {
    OciModel { log: o.log + d, ..o }
}

/// Everything but the log is left alone by every call.
pub open spec fn config_unchanged(pre: OciModel, post: OciModel) -> bool {
    &&& post.script == pre.script
    &&& post.diag_code == pre.diag_code
    &&& post.diag_message == pre.diag_message
    &&& post.attr_size == pre.attr_size
}

impl Oci {
    /// A fresh native layer that answers every call with success.
    pub fn new() -> (r: Oci)
        ensures
            r@.log == Seq::<CallView>::empty(),
            r@.script == Seq::<i32>::empty(),
            r@.diag_code == 0i32,
            r@.diag_message == Seq::<char>::empty(),
            r@.attr_size == 0u32,
    {
        Oci {
            log: Vec::new(),
            script: Vec::new(),
            diag_code: 0,
            diag_message: String::new(),
            attr_size: 0,
        }
    }

    /// A fresh native layer that answers call number `i` with
    /// `script[i]` (success once the script runs out).
    pub fn with_script(script: Vec<i32>) -> (r: Oci)
        ensures
            r@.log == Seq::<CallView>::empty(),
            r@.script == script@,
            r@.diag_code == 0i32,
            r@.diag_message == Seq::<char>::empty(),
            r@.attr_size == 0u32,
    {
        Oci { log: Vec::new(), script, diag_code: 0, diag_message: String::new(), attr_size: 0 }
    }

    /// Sets the diagnostic record that the error-retrieval call answers.
    pub fn set_diagnostic(&mut self, code: i32, message: String)
        ensures
            final(self)@ == (OciModel { diag_code: code, diag_message: message@, ..old(self)@ }),
    {
        self.diag_code = code;
        self.diag_message = message;
    }

    /// The status the next call will be answered with.
    pub fn scripted_status(&self) -> (r: i32)
        ensures
            r == spec_next_status(self@),
    {
        let i: usize = self.log.len();
        if i < self.script.len() {
            self.script[i]
        } else {
            0
        }
    }

    /// How many calls have been recorded.
    pub fn call_count(&self) -> (r: usize)
        ensures
            r == self@.log.len(),
    {
        self.log.len()
    }
}

/// One planned native call: the invocation that will be recorded, the
/// error-handle token the diagnostic retrieval would use (where the
/// entry point is given one), and the location tag errors carry.
pub ghost struct PlanStep {
    pub op: OpView,
    pub errh: Option<int>,
    pub location: Seq<char>,
}

/// The error-handle token the translation layer consults: present only
/// for the two status codes that carry a diagnostic record, and only
/// where the call was given an error handle.
pub open spec fn spec_diag_token(status: i32, errh: Option<int>) -> Option<int> {
    if status == -1 || status == 1 {
        errh
    } else {
        None::<int>
    }
}

/// The records one planned call appends: its own, and the diagnostic
/// retrieval where the status asks for one.
pub open spec fn step_delta(o: OciModel, s: PlanStep) -> Seq<CallView> {
    let st = spec_next_status(o);
    let rec = CallView { op: s.op, status: st };
    match spec_diag_token(st, s.errh) {
        Some(e) => seq![
            rec,
            CallView {
                op: OpView::ErrorGet { error: e, recordno: 1 },
                status: spec_status_at(o, o.log.len() as int + 1),
            },
        ],
        None => seq![rec],
    }
}

/// The outcome of one planned call: `None` for success, otherwise the
/// translated error.
pub open spec fn step_err(o: OciModel, s: PlanStep) -> Option<ErrView> {
    let st = spec_next_status(o);
    match spec_diag_token(st, s.errh) {
        Some(e) => spec_check_error(st, Some((o.diag_code, o.diag_message)), s.location),
        None => spec_check_error(st, None::<(i32, Seq<char>)>, s.location),
    }
}

/// The records a sequence of planned calls appends when run until its
/// first failure (inclusive): the plan aborts there.
pub open spec fn run_delta(o: OciModel, plan: Seq<PlanStep>) -> Seq<CallView>
    decreases plan.len(),
{
    if plan.len() == 0 {
        Seq::<CallView>::empty()
    } else {
        let d = step_delta(o, plan[0]);
        if spec_next_status(o) == 0 {
            d + run_delta(with_calls(o, d), plan.skip(1))
        } else {
            d
        }
    }
}

/// The outcome of running a sequence of planned calls: `None` when
/// every call succeeded, otherwise the first failure's error.
pub open spec fn run_err(o: OciModel, plan: Seq<PlanStep>) -> Option<ErrView>
    decreases plan.len(),
{
    if plan.len() == 0 {
        None::<ErrView>
    } else if spec_next_status(o) == 0 {
        run_err(with_calls(o, step_delta(o, plan[0])), plan.skip(1))
    } else {
        step_err(o, plan[0])
    }
}

/// How many planned calls succeed before the first failure (the plan's
/// length when none fails).
pub open spec fn run_stop(o: OciModel, plan: Seq<PlanStep>) -> int
    decreases plan.len(),
{
    if plan.len() == 0 {
        0
    } else if spec_next_status(o) == 0 {
        1 + run_stop(with_calls(o, step_delta(o, plan[0])), plan.skip(1))
    } else {
        0
    }
}

/// The success code translates to no error, and each other defined
/// sentinel code translates to exactly its canned classification,
/// whatever diagnostic record is at hand and wherever the call was
/// made.
pub proof fn lemma_sentinel_classification(diag: Option<(i32, Seq<char>)>, loc: Seq<char>)
    ensures
        spec_check_error(0i32, diag, loc) is None,
        spec_check_error(100i32, diag, loc) == Some(
            ErrView { kind: ErrorKind::NoData, code: 100i32, message: "No data"@, location: loc },
        ),
        spec_check_error(-2i32, diag, loc) == Some(
            ErrView {
                kind: ErrorKind::InvalidHandle,
                code: -2i32,
                message: "Invalid handle"@,
                location: loc,
            },
        ),
        spec_check_error(99i32, diag, loc) == Some(
            ErrView { kind: ErrorKind::NeedData, code: 99i32, message: "Need data"@, location: loc },
        ),
        spec_check_error(-3123i32, diag, loc) == Some(
            ErrView {
                kind: ErrorKind::StillExecuting,
                code: -3123i32,
                message: "Still executing"@,
                location: loc,
            },
        ),
{
}

/// The no-data code is classified without consulting any diagnostic
/// record: whatever record is at hand, the translation is the same
/// canned no-data error.
pub proof fn lemma_no_data_ignores_diagnostics(
    d1: Option<(i32, Seq<char>)>,
    d2: Option<(i32, Seq<char>)>,
    loc: Seq<char>,
)
    ensures
        spec_check_error(100i32, d1, loc) == spec_check_error(100i32, d2, loc),
        spec_check_error(100i32, d1, loc) == Some(
            ErrView { kind: ErrorKind::NoData, code: 100i32, message: "No data"@, location: loc },
        ),
{
}

/// A record of a call that allocated a handle and succeeded.
pub open spec fn is_successful_alloc(r: CallView) -> bool {
    r.status == 0i32 && (r.op matches OpView::EnvNlsCreate { .. } || r.op matches OpView::HandleAlloc { .. })
}

/// The token an allocating record handed out.
pub open spec fn allocated_token(r: CallView) -> int {
    match r.op {
        OpView::EnvNlsCreate { handle, .. } => handle,
        OpView::HandleAlloc { handle, .. } => handle,
        _ => 0,
    }
}

/// Whether a record frees the given token.
pub open spec fn frees_token(r: CallView, token: int) -> bool {
    match r.op {
        OpView::HandleFree { handle, .. } => handle == token,
        _ => false,
    }
}

/// No handle allocated inside the log segment leaks from it: every
/// successful allocation is followed, within the segment, by a free
/// of the token it handed out.
pub open spec fn segment_leak_free(d: Seq<CallView>) -> bool {
    forall|i: int|
        0 <= i < d.len() && is_successful_alloc(#[trigger] d[i]) ==> exists|j: int|
            i < j < d.len() && frees_token(#[trigger] d[j], allocated_token(d[i]))
}

/// Appending nothing leaves the model alone.
pub proof fn lemma_with_calls_empty(o: OciModel)
    ensures
        with_calls(o, Seq::<CallView>::empty()) == o,
{
    assert(o.log + Seq::<CallView>::empty() =~= o.log);
}

/// Recording two deltas in turn records their concatenation.
pub proof fn lemma_with_calls_app(o: OciModel, d1: Seq<CallView>, d2: Seq<CallView>)
    ensures
        with_calls(with_calls(o, d1), d2) == with_calls(o, d1 + d2),
{
    assert((o.log + d1) + d2 =~= o.log + (d1 + d2));
}

/// Running a concatenated plan runs the first part, and the second
/// only where the first ran to completion.
pub proof fn lemma_run_append(o: OciModel, p1: Seq<PlanStep>, p2: Seq<PlanStep>)
    ensures
        run_stop(o, p1) == p1.len() ==> {
            let d1 = run_delta(o, p1);
            &&& run_delta(o, p1 + p2) == d1 + run_delta(with_calls(o, d1), p2)
            &&& run_err(o, p1 + p2) == run_err(with_calls(o, d1), p2)
            &&& run_stop(o, p1 + p2) == p1.len() + run_stop(with_calls(o, d1), p2)
        },
        run_stop(o, p1) < p1.len() ==> {
            &&& run_delta(o, p1 + p2) == run_delta(o, p1)
            &&& run_err(o, p1 + p2) == run_err(o, p1)
            &&& run_stop(o, p1 + p2) == run_stop(o, p1)
        },
    decreases p1.len(),
{
    lemma_run_stop_bounds(o, p1);
    if p1.len() == 0 {
        assert(p1 + p2 =~= p2);
        lemma_with_calls_empty(o);
        assert(run_delta(o, p1) =~= Seq::<CallView>::empty());
        assert(Seq::<CallView>::empty() + run_delta(o, p2) =~= run_delta(o, p2));
    } else {
        assert((p1 + p2)[0] == p1[0]);
        assert((p1 + p2).len() > 0);
        if spec_next_status(o) == 0 {
            let d0 = step_delta(o, p1[0]);
            let o1 = with_calls(o, d0);
            lemma_run_append(o1, p1.skip(1), p2);
            lemma_run_stop_bounds(o1, p1.skip(1));
            assert(p1.skip(1) + p2 =~= (p1 + p2).skip(1));
            let dr = run_delta(o1, p1.skip(1));
            lemma_with_calls_app(o, d0, dr);
            if run_stop(o1, p1.skip(1)) == p1.skip(1).len() {
                assert(d0 + (dr + run_delta(with_calls(o1, dr), p2)) =~= (d0 + dr) + run_delta(
                    with_calls(o1, dr),
                    p2,
                ));
            }
        }
    }
}

/// The number of successful calls never exceeds the plan's length.
pub proof fn lemma_run_stop_bounds(o: OciModel, plan: Seq<PlanStep>)
    ensures
        0 <= run_stop(o, plan) <= plan.len(),
    decreases plan.len(),
{
    if plan.len() > 0 && spec_next_status(o) == 0 {
        lemma_run_stop_bounds(with_calls(o, step_delta(o, plan[0])), plan.skip(1));
    }
}

/// Running a one-step plan is taking that one step.
pub proof fn lemma_run_singleton(o: OciModel, p: PlanStep)
    ensures
        run_delta(o, seq![p]) == step_delta(o, p),
        run_err(o, seq![p]) == step_err(o, p),
        run_stop(o, seq![p]) == (if spec_next_status(o) == 0i32 {
            1int
        } else {
            0int
        }),
{
    reveal_with_fuel(run_delta, 2);
    reveal_with_fuel(run_err, 2);
    reveal_with_fuel(run_stop, 2);
    assert(seq![p].skip(1) =~= Seq::<PlanStep>::empty());
    if spec_next_status(o) == 0i32 {
        assert(step_delta(o, p) + Seq::<CallView>::empty() =~= step_delta(o, p));
    }
}

/// A run that completed its plan recorded exactly one call per step.
pub proof fn lemma_run_complete_len(o: OciModel, plan: Seq<PlanStep>)
    requires
        run_stop(o, plan) == plan.len(),
    ensures
        run_delta(o, plan).len() == plan.len(),
    decreases plan.len(),
{
    if plan.len() > 0 {
        if spec_next_status(o) == 0i32 {
            let o1 = with_calls(o, step_delta(o, plan[0]));
            lemma_run_stop_bounds(o1, plan.skip(1));
            lemma_run_complete_len(o1, plan.skip(1));
        }
    }
}

/// A successful run never ends on an error, and an exhausted run is
/// successful: the two ways of saying a plan ran to completion agree.
pub proof fn lemma_run_err_stop(o: OciModel, plan: Seq<PlanStep>)
    ensures
        run_err(o, plan) is None <==> run_stop(o, plan) == plan.len(),
    decreases plan.len(),
{
    if plan.len() > 0 {
        if spec_next_status(o) == 0i32 {
            lemma_run_err_stop(with_calls(o, step_delta(o, plan[0])), plan.skip(1));
        } else {
            lemma_run_stop_bounds(o, plan);
        }
    }
}

/// After one more successful call, the straight-line protocol facts
/// advance by one step: `oi` is the model before the call, `of` after.
pub proof fn lemma_step_ok(pre: OciModel, plan: Seq<PlanStep>, i: int, oi: OciModel, of: OciModel)
    requires
        0 <= i < plan.len(),
        oi == with_calls(pre, run_delta(pre, plan.take(i))),
        run_stop(pre, plan.take(i)) == i,
        run_err(pre, plan.take(i)) is None,
        of.log == oi.log + step_delta(oi, plan[i]),
        config_unchanged(oi, of),
        spec_next_status(oi) == 0i32,
    ensures
        of == with_calls(pre, run_delta(pre, plan.take(i + 1))),
        run_stop(pre, plan.take(i + 1)) == i + 1,
        run_err(pre, plan.take(i + 1)) is None,
        of.log.len() == oi.log.len() + 1,
        run_delta(pre, plan.take(i + 1)) == run_delta(pre, plan.take(i)) + step_delta(
            oi,
            plan[i],
        ),
        step_delta(oi, plan[i]) == seq![
            CallView { op: plan[i].op, status: spec_next_status(oi) },
        ],
{
    assert(plan.take(i + 1) =~= plan.take(i) + seq![plan[i]]);
    lemma_run_append(pre, plan.take(i), seq![plan[i]]);
    lemma_run_singleton(oi, plan[i]);
    assert(of.log =~= with_calls(pre, run_delta(pre, plan.take(i + 1))).log);
}

/// A failing call ends the whole plan there: the run's records are the
/// successful prefix plus the failing call's own, and the run's error
/// is that call's.
pub proof fn lemma_step_fail(
    pre: OciModel,
    plan: Seq<PlanStep>,
    i: int,
    oi: OciModel,
    of: OciModel,
    e: ErrView,
)
    requires
        0 <= i < plan.len(),
        oi == with_calls(pre, run_delta(pre, plan.take(i))),
        run_stop(pre, plan.take(i)) == i,
        run_err(pre, plan.take(i)) is None,
        of.log == oi.log + step_delta(oi, plan[i]),
        config_unchanged(oi, of),
        spec_next_status(oi) != 0i32,
        step_err(oi, plan[i]) == Some(e),
    ensures
        of == with_calls(pre, run_delta(pre, plan)),
        run_stop(pre, plan) == i,
        run_err(pre, plan) == Some(e),
{
    assert(plan =~= plan.take(i) + plan.skip(i));
    lemma_run_append(pre, plan.take(i), plan.skip(i));
    assert(plan.skip(i)[0] == plan[i]);
    assert(of.log =~= with_calls(pre, run_delta(pre, plan)).log);
}

/// One call of a teardown sequence: releasing a statement under its
/// key, ending a session, detaching a server, or freeing a handle.
#[derive(Debug)]
pub enum TeardownStep {
    StmtRelease { stmt: usize, error: usize, key: String },
    SessionEnd { service: usize, error: usize, session: usize },
    ServerDetach { server: usize, error: usize },
    HandleFree { handle: usize, htype: OCIHandleType },
}

/// The planned call a teardown step makes.
pub open spec fn teardown_step_plan(t: TeardownStep) -> PlanStep {
    match t {
        TeardownStep::StmtRelease { stmt, error, key } => plan_stmt_release(
            stmt as int,
            error as int,
            key@,
        ),
        TeardownStep::SessionEnd { service, error, session } => plan_session_end(
            service as int,
            error as int,
            session as int,
        ),
        TeardownStep::ServerDetach { server, error } => plan_server_detach(
            server as int,
            error as int,
        ),
        TeardownStep::HandleFree { handle, htype } => plan_handle_free(
            handle as int,
            htype.spec_code(),
        ),
    }
}

/// The plan a whole teardown sequence makes.
pub open spec fn teardown_plan_of(s: Seq<TeardownStep>) -> Seq<PlanStep> {
    s.map_values(|t: TeardownStep| teardown_step_plan(t))
}

/// Issues the given teardown calls in order, stopping at the first
/// failure and returning its error: a failed release is fatal, and
/// nothing after it is attempted.
pub fn run_teardown(oci: &mut Oci, steps: &Vec<TeardownStep>) -> (r: Result<(), OracleError>)
    ensures
        config_unchanged(old(oci)@, final(oci)@),
        final(oci)@.log == old(oci)@.log + run_delta(old(oci)@, teardown_plan_of(steps@)),
        err_of(r) == run_err(old(oci)@, teardown_plan_of(steps@)),
{
    let ghost pre = oci@;
    let ghost plan = teardown_plan_of(steps@);
    let mut i: usize = 0;
    while i < steps.len()
        invariant
            i <= steps.len(),
            pre == old(oci)@,
            plan == teardown_plan_of(steps@),
            plan.len() == steps@.len(),
            config_unchanged(pre, oci@),
            oci@ == with_calls(pre, run_delta(pre, plan.take(i as int))),
            run_stop(pre, plan.take(i as int)) == i,
            run_err(pre, plan.take(i as int)) is None,
        decreases steps.len() - i,
    {
        let ghost oi = oci@;
        let res = match &steps[i] {
            TeardownStep::StmtRelease { stmt, error, key } => {
                let sth = OCIStmt { raw: *stmt };
                let errh = OCIError { raw: *error };
                oci_stmt_release(oci, &sth, &errh, key)
            },
            TeardownStep::SessionEnd { service, error, session } => {
                let svc = OCISvcCtx { raw: *service };
                let errh = OCIError { raw: *error };
                let sess = OCISession { raw: *session };
                oci_session_end(oci, &svc, &errh, &sess)
            },
            TeardownStep::ServerDetach { server, error } => {
                let srv = OCIServer { raw: *server };
                let errh = OCIError { raw: *error };
                oci_server_detach(oci, &srv, &errh)
            },
            TeardownStep::HandleFree { handle, htype } => oci_handle_free(oci, *handle, *htype),
        };
        proof {
            assert(plan[i as int] == teardown_step_plan(steps@[i as int]));
            assert(plan.take(i as int + 1) =~= plan.take(i as int) + seq![plan[i as int]]);
            lemma_run_append(pre, plan.take(i as int), seq![plan[i as int]]);
            lemma_run_singleton(oi, plan[i as int]);
        }
        match res {
            Ok(_) => {
                proof {
                    assert(oci@.log =~= with_calls(pre, run_delta(pre, plan.take(i as int + 1))).log);
                    assert(oci@ == with_calls(pre, run_delta(pre, plan.take(i as int + 1))));
                }
                i = i + 1;
            },
            Err(e) => {
                proof {
                    assert(plan =~= plan.take(i as int) + plan.skip(i as int));
                    lemma_run_append(pre, plan.take(i as int), plan.skip(i as int));
                    assert(plan.skip(i as int)[0] == plan[i as int]);
                    assert(oci@.log =~= pre.log + run_delta(pre, plan));
                }
                return Err(e);
            },
        }
    }
    proof {
        assert(plan.take(steps@.len() as int) =~= plan);
    }
    Ok(())
}

/// The error a `Result` carries, as a mathematical value.
pub open spec fn err_of<T>(r: Result<T, OracleError>) -> Option<ErrView> {
    match r {
        Ok(_) => None::<ErrView>,
        Err(e) => Some(e@),
    }
}

/// The error an `Option` carries, as a mathematical value.
pub open spec fn opt_err_view(r: Option<OracleError>) -> Option<ErrView> {
    match r {
        None => None::<ErrView>,
        Some(e) => Some(e@),
    }
}

/// The error-handle token an optional handle argument carries.
pub open spec fn spec_errh_of(h: Option<&OCIError>) -> Option<int> {
    match h {
        Some(e) => Some(e.raw as int),
        None => None::<int>,
    }
}

pub open spec fn plan_env_nls_create(handle: int, mode: u32) -> PlanStep {
    PlanStep {
        op: OpView::EnvNlsCreate { mode, handle },
        errh: None::<int>,
        location: "ffi::oci_env_nls_create"@,
    }
}

pub open spec fn plan_handle_alloc(handle: int, parent: int, htype: u32) -> PlanStep {
    PlanStep {
        op: OpView::HandleAlloc { parent, htype, handle },
        errh: None::<int>,
        location: "ffi::oci_handle_alloc"@,
    }
}

pub open spec fn plan_server_attach(server: int, error: int, db: Seq<char>, mode: u32) -> PlanStep {
    PlanStep {
        op: OpView::ServerAttach { server, error, db, mode },
        errh: Some(error),
        location: "ffi::oci_server_attach"@,
    }
}

/// The explicit length an attribute-set call carries: the value's
/// length for the two text attributes that require one (user name and
/// password), zero for every other attribute.
pub open spec fn spec_attr_size(attr: u32, value: AttrValueView) -> u32 {
    if attr == 22 || attr == 23 {
        match value {
            AttrValueView::Text(t) => t.len() as u32,
            AttrValueView::Handle(_) => 0u32,
        }
    } else {
        0u32
    }
}

pub open spec fn plan_attr_set(
    target: int,
    htype: u32,
    value: AttrValueView,
    attr: u32,
    error: int,
) -> PlanStep {
    PlanStep {
        op: OpView::AttrSet { target, htype, value, size: spec_attr_size(attr, value), attr, error },
        errh: Some(error),
        location: "ffi::oci_attr_set"@,
    }
}

pub open spec fn plan_session_begin(
    service: int,
    error: int,
    session: int,
    credentials: u32,
    mode: u32,
) -> PlanStep {
    PlanStep {
        op: OpView::SessionBegin { service, error, session, credentials, mode },
        errh: Some(error),
        location: "ffi::oci_session_begin"@,
    }
}

pub open spec fn plan_session_end(service: int, error: int, session: int) -> PlanStep {
    PlanStep {
        op: OpView::SessionEnd { service, error, session, mode: 0u32 },
        errh: Some(error),
        location: "ffi::oci_session_end"@,
    }
}

pub open spec fn plan_server_detach(server: int, error: int) -> PlanStep {
    PlanStep {
        op: OpView::ServerDetach { server, error, mode: 0u32 },
        errh: Some(error),
        location: "ffi::oci_server_detach"@,
    }
}

pub open spec fn plan_handle_free(handle: int, htype: u32) -> PlanStep {
    PlanStep {
        op: OpView::HandleFree { handle, htype },
        errh: None::<int>,
        location: "ffi::oci_handle_free"@,
    }
}

pub open spec fn plan_stmt_prepare2(
    handle: int,
    service: int,
    error: int,
    text: Seq<char>,
    key: Seq<char>,
) -> PlanStep {
    PlanStep {
        op: OpView::StmtPrepare2 {
            service,
            error,
            text,
            key,
            handle,
            syntax: 1u32,
            mode: 0u32,
        },
        errh: Some(error),
        location: "ffi::oci_stmt_prepare2"@,
    }
}

pub open spec fn plan_stmt_execute(service: int, stmt: int, error: int) -> PlanStep {
    PlanStep {
        op: OpView::StmtExecute { service, stmt, error, iters: 0u32, rowoff: 0u32, mode: 0u32 },
        errh: Some(error),
        location: "ffi::oci_stmt_execute"@,
    }
}

pub open spec fn plan_stmt_release(stmt: int, error: int, key: Seq<char>) -> PlanStep {
    PlanStep {
        op: OpView::StmtRelease { stmt, error, key, mode: 0u32 },
        errh: Some(error),
        location: "ffi::oci_stmt_release"@,
    }
}

pub open spec fn plan_param_get(handle: int, stmt: int, error: int, position: u32) -> PlanStep {
    PlanStep {
        op: OpView::ParamGet { stmt, htype: 4u32, error, position, handle },
        errh: Some(error),
        location: "ffi::oci_param_get"@,
    }
}

pub open spec fn plan_attr_get(target: int, attr: u32, error: int) -> PlanStep {
    PlanStep {
        op: OpView::AttrGet { target, dtype: 53u32, attr, error },
        errh: Some(error),
        location: "ffi::oci_attr_get"@,
    }
}

/// Retrieves the first diagnostic record from the native layer through
/// an error handle: the recorded code and message, tagged with the
/// failing operation's location. The call itself is recorded; its own
/// status is not consulted.
pub fn oci_error_get(oci: &mut Oci, error_handle: &OCIError, location: &str) -> (r: OracleError)
    ensures
        config_unchanged(old(oci)@, final(oci)@),
        final(oci)@.log == old(oci)@.log.push(
            CallView {
                op: OpView::ErrorGet { error: error_handle.raw as int, recordno: 1 },
                status: spec_next_status(old(oci)@),
            },
        ),
        r@ == (ErrView {
            kind: ErrorKind::DiagnosedError,
            code: old(oci)@.diag_code,
            message: old(oci)@.diag_message,
            location: location@,
        }),
{
    let status = oci.scripted_status();
    let rec = CallRecord {
        op: NativeOp::ErrorGet { error: error_handle.raw, recordno: 1 },
        status,
    };
    proof {
        lemma_log_view_push(oci.log@, rec);
    }
    oci.log.push(rec);
    OracleError {
        kind: ErrorKind::DiagnosedError,
        code: oci.diag_code,
        message: oci.diag_message.clone(),
        location: location.to_owned(),
    }
}

/// Translates a raw native status code into `None` (success) or the
/// structured error [`spec_check_error`] prescribes. The two codes
/// that carry a diagnostic record consult it through the error handle
/// when one is supplied; every other code ignores the handle.
pub fn check_error(
    oci: &mut Oci,
    code: i32,
    error_handle: Option<&OCIError>,
    location: &str,
) -> (r: Option<OracleError>)
    ensures
        config_unchanged(old(oci)@, final(oci)@),
        ({
            let tok = spec_diag_token(code, spec_errh_of(error_handle));
            match tok {
                Some(e) => {
                    &&& final(oci)@.log == old(oci)@.log.push(
                        CallView {
                            op: OpView::ErrorGet { error: e, recordno: 1 },
                            status: spec_next_status(old(oci)@),
                        },
                    )
                    &&& opt_err_view(r) == spec_check_error(
                        code,
                        Some((old(oci)@.diag_code, old(oci)@.diag_message)),
                        location@,
                    )
                },
                None => {
                    &&& final(oci)@.log == old(oci)@.log
                    &&& opt_err_view(r) == spec_check_error(
                        code,
                        None::<(i32, Seq<char>)>,
                        location@,
                    )
                },
            }
        }),
{
    match code {
        0 => None,
        100 => Some(
            OracleError {
                kind: ErrorKind::NoData,
                code: 100,
                message: "No data".to_owned(),
                location: location.to_owned(),
            },
        ),
        -2 => Some(
            OracleError {
                kind: ErrorKind::InvalidHandle,
                code: -2,
                message: "Invalid handle".to_owned(),
                location: location.to_owned(),
            },
        ),
        99 => Some(
            OracleError {
                kind: ErrorKind::NeedData,
                code: 99,
                message: "Need data".to_owned(),
                location: location.to_owned(),
            },
        ),
        -3123 => Some(
            OracleError {
                kind: ErrorKind::StillExecuting,
                code: -3123,
                message: "Still executing".to_owned(),
                location: location.to_owned(),
            },
        ),
        -1 => match error_handle {
            Some(handle) => Some(oci_error_get(oci, handle, location)),
            None => Some(
                OracleError {
                    kind: ErrorKind::UndiagnosedError,
                    code: -1,
                    message: "Error with no details".to_owned(),
                    location: location.to_owned(),
                },
            ),
        },
        1 => match error_handle {
            Some(handle) => {
                let e = oci_error_get(oci, handle, location);
                Some(
                    OracleError {
                        kind: ErrorKind::SuccessWithInfo,
                        code: e.code,
                        message: e.message,
                        location: e.location,
                    },
                )
            },
            None => Some(
                OracleError {
                    kind: ErrorKind::SuccessWithInfo,
                    code: 1,
                    message: "Success with info".to_owned(),
                    location: location.to_owned(),
                },
            ),
        },
        _ => Some(
            OracleError {
                kind: ErrorKind::UnexpectedCode,
                code,
                message: "Unknown return code".to_owned(),
                location: location.to_owned(),
            },
        ),
    }
}

/// Creates and initializes a native environment handle. The returned
/// token is the allocating call's position in the log.
pub fn oci_env_nls_create(oci: &mut Oci, mode: OCIMode) -> (r: Result<OCIEnv, OracleError>)
    ensures
        config_unchanged(old(oci)@, final(oci)@),
        final(oci)@.log == old(oci)@.log + step_delta(
            old(oci)@,
            plan_env_nls_create(old(oci)@.log.len() as int, mode.spec_code()),
        ),
        err_of(r) == step_err(
            old(oci)@,
            plan_env_nls_create(old(oci)@.log.len() as int, mode.spec_code()),
        ),
        r matches Ok(h) ==> h.raw == old(oci)@.log.len(),
{
    let ghost pre = oci@;
    let status = oci.scripted_status();
    let handle: usize = oci.log.len();
    let rec = CallRecord { op: NativeOp::EnvNlsCreate { mode: mode.code(), handle }, status };
    proof {
        lemma_log_view_push(oci.log@, rec);
    }
    oci.log.push(rec);
    let out = match check_error(oci, status, None, "ffi::oci_env_nls_create") {
        None => Ok(OCIEnv { raw: handle }),
        Some(err) => Err(err),
    };
    proof {
        assert(oci@.log =~= pre.log + step_delta(
            pre,
            plan_env_nls_create(pre.log.len() as int, mode.spec_code()),
        ));
    }
    out
}

/// Allocates a native handle of the given type as a child of the
/// environment. The returned token is the allocating call's position
/// in the log; the caller wraps it in the matching typed token.
pub fn oci_handle_alloc(oci: &mut Oci, envh: &OCIEnv, htype: OCIHandleType) -> (r: Result<
    usize,
    OracleError,
>)
    ensures
        config_unchanged(old(oci)@, final(oci)@),
        final(oci)@.log == old(oci)@.log + step_delta(
            old(oci)@,
            plan_handle_alloc(old(oci)@.log.len() as int, envh.raw as int, htype.spec_code()),
        ),
        err_of(r) == step_err(
            old(oci)@,
            plan_handle_alloc(old(oci)@.log.len() as int, envh.raw as int, htype.spec_code()),
        ),
        r matches Ok(h) ==> h == old(oci)@.log.len(),
{
    let ghost pre = oci@;
    let status = oci.scripted_status();
    let handle: usize = oci.log.len();
    let rec = CallRecord {
        op: NativeOp::HandleAlloc { parent: envh.raw, htype: htype.code(), handle },
        status,
    };
    proof {
        lemma_log_view_push(oci.log@, rec);
    }
    oci.log.push(rec);
    let out = match check_error(oci, status, None, "ffi::oci_handle_alloc") {
        None => Ok(handle),
        Some(err) => Err(err),
    };
    proof {
        assert(oci@.log =~= pre.log + step_delta(
            pre,
            plan_handle_alloc(pre.log.len() as int, envh.raw as int, htype.spec_code()),
        ));
    }
    out
}

/// Attaches the server handle to the named database target.
pub fn oci_server_attach(
    oci: &mut Oci,
    server_handle: &OCIServer,
    error_handle: &OCIError,
    db: String,
    mode: OCIMode,
) -> (r: Result<(), OracleError>)
    ensures
        config_unchanged(old(oci)@, final(oci)@),
        final(oci)@.log == old(oci)@.log + step_delta(
            old(oci)@,
            plan_server_attach(
                server_handle.raw as int,
                error_handle.raw as int,
                db@,
                mode.spec_code(),
            ),
        ),
        err_of(r) == step_err(
            old(oci)@,
            plan_server_attach(
                server_handle.raw as int,
                error_handle.raw as int,
                db@,
                mode.spec_code(),
            ),
        ),
{
    let ghost pre = oci@;
    let ghost dbv = db@;
    let status = oci.scripted_status();
    let rec = CallRecord {
        op: NativeOp::ServerAttach {
            server: server_handle.raw,
            error: error_handle.raw,
            db,
            mode: mode.code(),
        },
        status,
    };
    proof {
        lemma_log_view_push(oci.log@, rec);
    }
    oci.log.push(rec);
    let out = match check_error(oci, status, Some(error_handle), "ffi::oci_server_attach") {
        None => Ok(()),
        Some(err) => Err(err),
    };
    proof {
        assert(oci@.log =~= pre.log + step_delta(
            pre,
            plan_server_attach(
                server_handle.raw as int,
                error_handle.raw as int,
                dbv,
                mode.spec_code(),
            ),
        ));
    }
    out
}

/// Sets an attribute on a handle: a handle value to link it in, or a
/// text value. The user-name and password attributes carry the text's
/// explicit length; every other attribute passes zero.
pub fn oci_attr_set(
    oci: &mut Oci,
    handle: usize,
    htype: OCIHandleType,
    value: AttrValue,
    attr_type: OCIAttribute,
    error_handle: &OCIError,
) -> (r: Result<(), OracleError>)
    requires
        value@ matches AttrValueView::Text(t) ==> t.len() <= u32::MAX,
    ensures
        config_unchanged(old(oci)@, final(oci)@),
        final(oci)@.log == old(oci)@.log + step_delta(
            old(oci)@,
            plan_attr_set(
                handle as int,
                htype.spec_code(),
                value@,
                attr_type.spec_code(),
                error_handle.raw as int,
            ),
        ),
        err_of(r) == step_err(
            old(oci)@,
            plan_attr_set(
                handle as int,
                htype.spec_code(),
                value@,
                attr_type.spec_code(),
                error_handle.raw as int,
            ),
        ),
{
    let ghost pre = oci@;
    let ghost valuev = value@;
    let status = oci.scripted_status();
    let size: u32 = match (&attr_type, &value) {
        (OCIAttribute::Username, AttrValue::Text(t)) => t.as_str().unicode_len() as u32,
        (OCIAttribute::Password, AttrValue::Text(t)) => t.as_str().unicode_len() as u32,
        _ => 0,
    };
    let rec = CallRecord {
        op: NativeOp::AttrSet {
            target: handle,
            htype: htype.code(),
            value,
            size,
            attr: attr_type.code(),
            error: error_handle.raw,
        },
        status,
    };
    proof {
        lemma_log_view_push(oci.log@, rec);
    }
    oci.log.push(rec);
    let out = match check_error(oci, status, Some(error_handle), "ffi::oci_attr_set") {
        None => Ok(()),
        Some(err) => Err(err),
    };
    proof {
        assert(oci@.log =~= pre.log + step_delta(
            pre,
            plan_attr_set(
                handle as int,
                htype.spec_code(),
                valuev,
                attr_type.spec_code(),
                error_handle.raw as int,
            ),
        ));
    }
    out
}

/// Begins a session against the service context, authenticating the
/// session handle with the given credential kind.
pub fn oci_session_begin(
    oci: &mut Oci,
    service_handle: &OCISvcCtx,
    error_handle: &OCIError,
    session_handle: &OCISession,
    credentials_type: OCICredentialsType,
    mode: OCIAuthMode,
) -> (r: Result<(), OracleError>)
    ensures
        config_unchanged(old(oci)@, final(oci)@),
        final(oci)@.log == old(oci)@.log + step_delta(
            old(oci)@,
            plan_session_begin(
                service_handle.raw as int,
                error_handle.raw as int,
                session_handle.raw as int,
                credentials_type.spec_code(),
                mode.spec_code(),
            ),
        ),
        err_of(r) == step_err(
            old(oci)@,
            plan_session_begin(
                service_handle.raw as int,
                error_handle.raw as int,
                session_handle.raw as int,
                credentials_type.spec_code(),
                mode.spec_code(),
            ),
        ),
{
    let ghost pre = oci@;
    let status = oci.scripted_status();
    let rec = CallRecord {
        op: NativeOp::SessionBegin {
            service: service_handle.raw,
            error: error_handle.raw,
            session: session_handle.raw,
            credentials: credentials_type.code(),
            mode: mode.code(),
        },
        status,
    };
    proof {
        lemma_log_view_push(oci.log@, rec);
    }
    oci.log.push(rec);
    let out = match check_error(oci, status, Some(error_handle), "ffi::oci_session_begin") {
        None => Ok(()),
        Some(err) => Err(err),
    };
    proof {
        assert(oci@.log =~= pre.log + step_delta(
            pre,
            plan_session_begin(
                service_handle.raw as int,
                error_handle.raw as int,
                session_handle.raw as int,
                credentials_type.spec_code(),
                mode.spec_code(),
            ),
        ));
    }
    out
}

/// Ends the session that was begun against the service context.
pub fn oci_session_end(
    oci: &mut Oci,
    service_handle: &OCISvcCtx,
    error_handle: &OCIError,
    session_handle: &OCISession,
) -> (r: Result<(), OracleError>)
    ensures
        config_unchanged(old(oci)@, final(oci)@),
        final(oci)@.log == old(oci)@.log + step_delta(
            old(oci)@,
            plan_session_end(
                service_handle.raw as int,
                error_handle.raw as int,
                session_handle.raw as int,
            ),
        ),
        err_of(r) == step_err(
            old(oci)@,
            plan_session_end(
                service_handle.raw as int,
                error_handle.raw as int,
                session_handle.raw as int,
            ),
        ),
{
    let ghost pre = oci@;
    let status = oci.scripted_status();
    let rec = CallRecord {
        op: NativeOp::SessionEnd {
            service: service_handle.raw,
            error: error_handle.raw,
            session: session_handle.raw,
            mode: 0,
        },
        status,
    };
    proof {
        lemma_log_view_push(oci.log@, rec);
    }
    oci.log.push(rec);
    let out = match check_error(oci, status, Some(error_handle), "ffi::oci_session_end") {
        None => Ok(()),
        Some(err) => Err(err),
    };
    proof {
        assert(oci@.log =~= pre.log + step_delta(
            pre,
            plan_session_end(
                service_handle.raw as int,
                error_handle.raw as int,
                session_handle.raw as int,
            ),
        ));
    }
    out
}

/// Detaches the server handle from its database target.
pub fn oci_server_detach(
    oci: &mut Oci,
    server_handle: &OCIServer,
    error_handle: &OCIError,
) -> (r: Result<(), OracleError>)
    ensures
        config_unchanged(old(oci)@, final(oci)@),
        final(oci)@.log == old(oci)@.log + step_delta(
            old(oci)@,
            plan_server_detach(server_handle.raw as int, error_handle.raw as int),
        ),
        err_of(r) == step_err(
            old(oci)@,
            plan_server_detach(server_handle.raw as int, error_handle.raw as int),
        ),
{
    let ghost pre = oci@;
    let status = oci.scripted_status();
    let rec = CallRecord {
        op: NativeOp::ServerDetach {
            server: server_handle.raw,
            error: error_handle.raw,
            mode: 0,
        },
        status,
    };
    proof {
        lemma_log_view_push(oci.log@, rec);
    }
    oci.log.push(rec);
    let out = match check_error(oci, status, Some(error_handle), "ffi::oci_server_detach") {
        None => Ok(()),
        Some(err) => Err(err),
    };
    proof {
        assert(oci@.log =~= pre.log + step_delta(
            pre,
            plan_server_detach(server_handle.raw as int, error_handle.raw as int),
        ));
    }
    out
}

/// Frees a native handle of the given type.
pub fn oci_handle_free(oci: &mut Oci, handle: usize, htype: OCIHandleType) -> (r: Result<
    (),
    OracleError,
>)
    ensures
        config_unchanged(old(oci)@, final(oci)@),
        final(oci)@.log == old(oci)@.log + step_delta(
            old(oci)@,
            plan_handle_free(handle as int, htype.spec_code()),
        ),
        err_of(r) == step_err(old(oci)@, plan_handle_free(handle as int, htype.spec_code())),
{
    let ghost pre = oci@;
    let status = oci.scripted_status();
    let rec = CallRecord { op: NativeOp::HandleFree { handle, htype: htype.code() }, status };
    proof {
        lemma_log_view_push(oci.log@, rec);
    }
    oci.log.push(rec);
    let out = match check_error(oci, status, None, "ffi::oci_handle_free") {
        None => Ok(()),
        Some(err) => Err(err),
    };
    proof {
        assert(oci@.log =~= pre.log + step_delta(
            pre,
            plan_handle_free(handle as int, htype.spec_code()),
        ));
    }
    out
}

/// Prepares a statement from its text, filing it in the statement
/// cache under the given key. The returned token is the call's
/// position in the log.
pub fn oci_stmt_prepare2(
    oci: &mut Oci,
    service_handle: &OCISvcCtx,
    error_handle: &OCIError,
    stmt_text: &String,
    stmt_hash: &String,
) -> (r: Result<OCIStmt, OracleError>)
    ensures
        config_unchanged(old(oci)@, final(oci)@),
        final(oci)@.log == old(oci)@.log + step_delta(
            old(oci)@,
            plan_stmt_prepare2(
                old(oci)@.log.len() as int,
                service_handle.raw as int,
                error_handle.raw as int,
                stmt_text@,
                stmt_hash@,
            ),
        ),
        err_of(r) == step_err(
            old(oci)@,
            plan_stmt_prepare2(
                old(oci)@.log.len() as int,
                service_handle.raw as int,
                error_handle.raw as int,
                stmt_text@,
                stmt_hash@,
            ),
        ),
        r matches Ok(h) ==> h.raw == old(oci)@.log.len(),
{
    let ghost pre = oci@;
    let status = oci.scripted_status();
    let handle: usize = oci.log.len();
    let rec = CallRecord {
        op: NativeOp::StmtPrepare2 {
            service: service_handle.raw,
            error: error_handle.raw,
            text: stmt_text.clone(),
            key: stmt_hash.clone(),
            handle,
            syntax: 1,
            mode: 0,
        },
        status,
    };
    proof {
        lemma_log_view_push(oci.log@, rec);
    }
    oci.log.push(rec);
    let out = match check_error(oci, status, Some(error_handle), "ffi::oci_stmt_prepare2") {
        None => Ok(OCIStmt { raw: handle }),
        Some(err) => Err(err),
    };
    proof {
        assert(oci@.log =~= pre.log + step_delta(
            pre,
            plan_stmt_prepare2(
                pre.log.len() as int,
                service_handle.raw as int,
                error_handle.raw as int,
                stmt_text@,
                stmt_hash@,
            ),
        ));
    }
    out
}

/// Executes a prepared statement with an iteration count of zero rows.
pub fn oci_stmt_execute(
    oci: &mut Oci,
    service_handle: &OCISvcCtx,
    stmt_handle: &OCIStmt,
    error_handle: &OCIError,
) -> (r: Result<(), OracleError>)
    ensures
        config_unchanged(old(oci)@, final(oci)@),
        final(oci)@.log == old(oci)@.log + step_delta(
            old(oci)@,
            plan_stmt_execute(
                service_handle.raw as int,
                stmt_handle.raw as int,
                error_handle.raw as int,
            ),
        ),
        err_of(r) == step_err(
            old(oci)@,
            plan_stmt_execute(
                service_handle.raw as int,
                stmt_handle.raw as int,
                error_handle.raw as int,
            ),
        ),
{
    let ghost pre = oci@;
    let status = oci.scripted_status();
    let rec = CallRecord {
        op: NativeOp::StmtExecute {
            service: service_handle.raw,
            stmt: stmt_handle.raw,
            error: error_handle.raw,
            iters: 0,
            rowoff: 0,
            mode: 0,
        },
        status,
    };
    proof {
        lemma_log_view_push(oci.log@, rec);
    }
    oci.log.push(rec);
    let out = match check_error(oci, status, Some(error_handle), "ffi::oci_stmt_execute") {
        None => Ok(()),
        Some(err) => Err(err),
    };
    proof {
        assert(oci@.log =~= pre.log + step_delta(
            pre,
            plan_stmt_execute(
                service_handle.raw as int,
                stmt_handle.raw as int,
                error_handle.raw as int,
            ),
        ));
    }
    out
}

/// Releases a prepared statement back to the statement cache under the
/// key it was prepared with.
pub fn oci_stmt_release(
    oci: &mut Oci,
    stmt_handle: &OCIStmt,
    error_handle: &OCIError,
    stmt_hash: &String,
) -> (r: Result<(), OracleError>)
    ensures
        config_unchanged(old(oci)@, final(oci)@),
        final(oci)@.log == old(oci)@.log + step_delta(
            old(oci)@,
            plan_stmt_release(stmt_handle.raw as int, error_handle.raw as int, stmt_hash@),
        ),
        err_of(r) == step_err(
            old(oci)@,
            plan_stmt_release(stmt_handle.raw as int, error_handle.raw as int, stmt_hash@),
        ),
{
    let ghost pre = oci@;
    let status = oci.scripted_status();
    let rec = CallRecord {
        op: NativeOp::StmtRelease {
            stmt: stmt_handle.raw,
            error: error_handle.raw,
            key: stmt_hash.clone(),
            mode: 0,
        },
        status,
    };
    proof {
        lemma_log_view_push(oci.log@, rec);
    }
    oci.log.push(rec);
    let out = match check_error(oci, status, Some(error_handle), "ffi::oci_stmt_release") {
        None => Ok(()),
        Some(err) => Err(err),
    };
    proof {
        assert(oci@.log =~= pre.log + step_delta(
            pre,
            plan_stmt_release(stmt_handle.raw as int, error_handle.raw as int, stmt_hash@),
        ));
    }
    out
}

/// Gets a parameter descriptor of a prepared statement by position.
/// The returned token is the call's position in the log.
pub fn oci_param_get(
    oci: &mut Oci,
    stmt_handle: &OCIStmt,
    error_handle: &OCIError,
    position: u32,
) -> (r: Result<usize, OracleError>)
    ensures
        config_unchanged(old(oci)@, final(oci)@),
        final(oci)@.log == old(oci)@.log + step_delta(
            old(oci)@,
            plan_param_get(
                old(oci)@.log.len() as int,
                stmt_handle.raw as int,
                error_handle.raw as int,
                position,
            ),
        ),
        err_of(r) == step_err(
            old(oci)@,
            plan_param_get(
                old(oci)@.log.len() as int,
                stmt_handle.raw as int,
                error_handle.raw as int,
                position,
            ),
        ),
        r matches Ok(h) ==> h == old(oci)@.log.len(),
{
    let ghost pre = oci@;
    let status = oci.scripted_status();
    let handle: usize = oci.log.len();
    let rec = CallRecord {
        op: NativeOp::ParamGet {
            stmt: stmt_handle.raw,
            htype: 4,
            error: error_handle.raw,
            position,
            handle,
        },
        status,
    };
    proof {
        lemma_log_view_push(oci.log@, rec);
    }
    oci.log.push(rec);
    let out = match check_error(oci, status, Some(error_handle), "ffi::oci_param_get") {
        None => Ok(handle),
        Some(err) => Err(err),
    };
    proof {
        assert(oci@.log =~= pre.log + step_delta(
            pre,
            plan_param_get(
                pre.log.len() as int,
                stmt_handle.raw as int,
                error_handle.raw as int,
                position,
            ),
        ));
    }
    out
}

/// Reads an attribute of a parameter descriptor: the attribute's
/// value token and its size, as the native layer answers them.
pub fn oci_attr_get(
    oci: &mut Oci,
    attr_handle: usize,
    error_handle: &OCIError,
    attr_type: OCIAttribute,
) -> (r: Result<(usize, u32), OracleError>)
    ensures
        config_unchanged(old(oci)@, final(oci)@),
        final(oci)@.log == old(oci)@.log + step_delta(
            old(oci)@,
            plan_attr_get(attr_handle as int, attr_type.spec_code(), error_handle.raw as int),
        ),
        err_of(r) == step_err(
            old(oci)@,
            plan_attr_get(attr_handle as int, attr_type.spec_code(), error_handle.raw as int),
        ),
        r matches Ok(v) ==> v.0 == 0usize && v.1 == old(oci)@.attr_size,
{
    let ghost pre = oci@;
    let status = oci.scripted_status();
    let rec = CallRecord {
        op: NativeOp::AttrGet {
            target: attr_handle,
            dtype: 53,
            attr: attr_type.code(),
            error: error_handle.raw,
        },
        status,
    };
    proof {
        lemma_log_view_push(oci.log@, rec);
    }
    oci.log.push(rec);
    let size = oci.attr_size;
    let out = match check_error(oci, status, Some(error_handle), "ffi::oci_attr_get") {
        None => Ok((0usize, size)),
        Some(err) => Err(err),
    };
    proof {
        assert(oci@.log =~= pre.log + step_delta(
            pre,
            plan_attr_get(attr_handle as int, attr_type.spec_code(), error_handle.raw as int),
        ));
    }
    out
}

} // verus!
