//! The connectivity orchestrator.
//!
//! The workflow needs the platform utility at five points: the
//! radio-enabled query, the first status query, registering the profile,
//! the connect command, and the verifying status query.  The library
//! cannot spawn processes, so the orchestrator is written as a stepped
//! flow: every decision between two utility invocations is taken by
//! [`WiFi::connect_advance`], which consumes the outcome of the last
//! invocation as a [`ConnectEvent`] and answers with the next
//! [`ConnectAction`].  The surrounding application performs each action
//! and feeds the outcome back until the action is [`ConnectAction::Finish`].
//!
//! The whole transition function is mirrored at the specification level
//! by [`advance_model`], and the orchestrator's laws are proved of it.

use vstd::prelude::*;
use crate::profile::render_profile;
use crate::profile::rendered_profile;
use crate::text::str_contains;
use crate::text::text_contains;

verus! {

/// Lower-level interface-capability errors, wrapped by
/// [`WifiConnectionError::Other`].
pub enum WifiError {
    /// The wireless radio/interface is not enabled.
    WifiDisabled,
    /// The interface query itself failed; carries the OS's description.
    IoError(String),
}

/// Specification-level shape of [`WifiError`].
pub enum WifiErrorView {
    WifiDisabled,
    IoError(Seq<char>),
}

impl View for WifiError {
    type V = WifiErrorView;

    open spec fn view(&self) -> WifiErrorView {
        match self {
            WifiError::WifiDisabled => WifiErrorView::WifiDisabled,
            WifiError::IoError(s) => WifiErrorView::IoError(s@),
        }
    }
}

/// The errors a connect or disconnect attempt can end with.  A connect
/// attempt that runs every command and still finds the network absent is
/// not an error: it is the normal `Ok(false)` outcome.
pub enum WifiConnectionError {
    /// Registration of the profile with the OS failed at the
    /// process-spawn level.
    AddNetworkProfileFailed,
    /// The connect command could not be spawned; carries the OS's
    /// description.
    FailedToConnect(String),
    /// The disconnect command could not be spawned; carries the OS's
    /// description.
    FailedToDisconnect(String),
    /// A lower-level interface-capability failure.
    Other { kind: WifiError },
}

/// Specification-level shape of [`WifiConnectionError`].
pub enum ConnectionErrorView {
    AddNetworkProfileFailed,
    FailedToConnect(Seq<char>),
    FailedToDisconnect(Seq<char>),
    Other { kind: WifiErrorView },
}

impl View for WifiConnectionError {
    type V = ConnectionErrorView;

    open spec fn view(&self) -> ConnectionErrorView {
        match self {
            WifiConnectionError::AddNetworkProfileFailed => ConnectionErrorView::AddNetworkProfileFailed,
            WifiConnectionError::FailedToConnect(s) => ConnectionErrorView::FailedToConnect(s@),
            WifiConnectionError::FailedToDisconnect(s) => ConnectionErrorView::FailedToDisconnect(s@),
            WifiConnectionError::Other { kind } => ConnectionErrorView::Other { kind: kind@ },
        }
    }
}

/// The network the handle is currently associated with.  It is recorded
/// only after the verifying status query has confirmed the network
/// present; it is never set speculatively.
pub struct Connection {
    pub ssid: String,
}

/// The wireless handle: it owns the in-memory connection record.
pub struct WiFi {
    pub connection: Option<Connection>,
}

impl View for WiFi {
    type V = Option<Seq<char>>;

    /// The recorded SSID, if any.
    open spec fn view(&self) -> Option<Seq<char>> {
        match &self.connection {
            Option::Some(c) => Option::Some(c.ssid@),
            Option::None => Option::None,
        }
    }
}

impl WiFi {
    /// A handle with no connection recorded yet.
    pub fn new() -> (r: WiFi)
        ensures
            r@ is None,
    {
        WiFi { connection: Option::None }
    }
}

/// Where a connect attempt stands: which utility outcome it waits for.
#[derive(Clone, Copy, Debug, PartialEq, Eq, Structural)]
pub enum ConnectPhase {
    /// Waiting for the radio-enabled query.
    AwaitRadio,
    /// Waiting for the first status query.
    AwaitStatus,
    /// Waiting for the profile to be staged and registered.
    AwaitProfileAdd,
    /// Waiting for the connect command to be issued.
    AwaitConnectCmd,
    /// Waiting for the verifying status query.
    AwaitVerify,
    /// The attempt is over.
    Done,
}

/// One connect attempt in progress.
pub struct ConnectFlow {
    pub ssid: String,
    pub password: String,
    pub phase: ConnectPhase,
}

/// Specification-level shape of [`ConnectFlow`].
pub struct FlowView {
    pub ssid: Seq<char>,
    pub password: Seq<char>,
    pub phase: ConnectPhase,
}

impl View for ConnectFlow {
    type V = FlowView;

    open spec fn view(&self) -> FlowView {
        FlowView { ssid: self.ssid@, password: self.password@, phase: self.phase }
    }
}

/// The outcome of one utility invocation, handed back to the flow.
pub enum ConnectEvent {
    /// Outcome of the radio-enabled query.
    RadioQuery(Result<bool, WifiError>),
    /// Captured output of the first status query.
    Status(String),
    /// The transient profile file could not be written; carries the
    /// error the staging layer reports.
    ProfileWriteFailed(WifiConnectionError),
    /// The add-profile command could not be spawned.
    ProfileAddSpawnFailed,
    /// The profile was staged and the add-profile command spawned; its
    /// output is not inspected further.
    ProfileAdded,
    /// The connect command was spawned; its exit status is not inspected
    /// further.
    ConnectIssued,
    /// The connect command could not be spawned; carries the OS's
    /// description.
    ConnectSpawnFailed(String),
    /// Captured output of the verifying status query.
    VerifyStatus(String),
}

/// Specification-level shape of [`ConnectEvent`].
pub enum EventView {
    RadioQuery(Result<bool, WifiErrorView>),
    Status(Seq<char>),
    ProfileWriteFailed(ConnectionErrorView),
    ProfileAddSpawnFailed,
    ProfileAdded,
    ConnectIssued,
    ConnectSpawnFailed(Seq<char>),
    VerifyStatus(Seq<char>),
}

impl View for ConnectEvent {
    type V = EventView;

    open spec fn view(&self) -> EventView {
        match self {
            ConnectEvent::RadioQuery(r) => EventView::RadioQuery(
                match r {
                    Result::Ok(b) => Result::Ok(*b),
                    Result::Err(e) => Result::Err(e@),
                },
            ),
            ConnectEvent::Status(out) => EventView::Status(out@),
            ConnectEvent::ProfileWriteFailed(e) => EventView::ProfileWriteFailed(e@),
            ConnectEvent::ProfileAddSpawnFailed => EventView::ProfileAddSpawnFailed,
            ConnectEvent::ProfileAdded => EventView::ProfileAdded,
            ConnectEvent::ConnectIssued => EventView::ConnectIssued,
            ConnectEvent::ConnectSpawnFailed(s) => EventView::ConnectSpawnFailed(s@),
            ConnectEvent::VerifyStatus(out) => EventView::VerifyStatus(out@),
        }
    }
}

/// What the flow asks the surrounding application to do next.
pub enum ConnectAction {
    /// Run the radio-enabled query and report its outcome.
    QueryRadio,
    /// Run the status query and hand back its captured output.
    QueryStatus,
    /// Write this rendered profile document to a transient file, run the
    /// add-profile command on that file, and release the file.
    AddProfile(String),
    /// Run the connect command for this network name.
    IssueConnect(String),
    /// Run the status query again and hand back its captured output.
    QueryVerify,
    /// The attempt is over with this result.
    Finish(Result<bool, WifiConnectionError>),
}

/// Specification-level shape of [`ConnectAction`].
pub enum ActionView {
    QueryRadio,
    QueryStatus,
    AddProfile(Seq<char>),
    IssueConnect(Seq<char>),
    QueryVerify,
    Finish(Result<bool, ConnectionErrorView>),
}

impl View for ConnectAction {
    type V = ActionView;

    open spec fn view(&self) -> ActionView {
        match self {
            ConnectAction::QueryRadio => ActionView::QueryRadio,
            ConnectAction::QueryStatus => ActionView::QueryStatus,
            ConnectAction::AddProfile(s) => ActionView::AddProfile(s@),
            ConnectAction::IssueConnect(s) => ActionView::IssueConnect(s@),
            ConnectAction::QueryVerify => ActionView::QueryVerify,
            ConnectAction::Finish(r) => ActionView::Finish(
                match r {
                    Result::Ok(b) => Result::Ok(*b),
                    Result::Err(e) => Result::Err(e@),
                },
            ),
        }
    }
}

/// Which events a flow in the given phase is prepared to consume: the
/// outcome of exactly the action it last asked for.
pub open spec fn phase_expects(phase: ConnectPhase, e: EventView) -> bool {
    match (phase, e) {
        (ConnectPhase::AwaitRadio, EventView::RadioQuery(_)) => true,
        (ConnectPhase::AwaitStatus, EventView::Status(_)) => true,
        (ConnectPhase::AwaitProfileAdd, EventView::ProfileWriteFailed(_)) => true,
        (ConnectPhase::AwaitProfileAdd, EventView::ProfileAddSpawnFailed) => true,
        (ConnectPhase::AwaitProfileAdd, EventView::ProfileAdded) => true,
        (ConnectPhase::AwaitConnectCmd, EventView::ConnectIssued) => true,
        (ConnectPhase::AwaitConnectCmd, EventView::ConnectSpawnFailed(_)) => true,
        (ConnectPhase::AwaitVerify, EventView::VerifyStatus(_)) => true,
        _ => false,
    }
}

/// The whole decision logic of one connect step: from the recorded
/// connection, the flow and the event to the new record, the new flow
/// and the next action.
pub open spec fn advance_model(conn: Option<Seq<char>>, f: FlowView, e: EventView) -> (
    Option<Seq<char>>,
    FlowView,
    ActionView,
) {
    let stay = f;
    let done = FlowView { ssid: f.ssid, password: f.password, phase: ConnectPhase::Done };
    match (f.phase, e) {
        (ConnectPhase::AwaitRadio, EventView::RadioQuery(r)) => match r {
            Result::Err(err) => (
                conn,
                done,
                ActionView::Finish(Result::Err(ConnectionErrorView::Other { kind: err })),
            ),
            Result::Ok(false) => (
                conn,
                done,
                ActionView::Finish(
                    Result::Err(
                        ConnectionErrorView::Other { kind: WifiErrorView::WifiDisabled },
                    ),
                ),
            ),
            Result::Ok(true) => (
                conn,
                FlowView { ssid: f.ssid, password: f.password, phase: ConnectPhase::AwaitStatus },
                ActionView::QueryStatus,
            ),
        },
        (ConnectPhase::AwaitStatus, EventView::Status(out)) => if text_contains(out, f.ssid) {
            (conn, done, ActionView::Finish(Result::Ok(true)))
        } else {
            (
                conn,
                FlowView {
                    ssid: f.ssid,
                    password: f.password,
                    phase: ConnectPhase::AwaitProfileAdd,
                },
                ActionView::AddProfile(rendered_profile(f.ssid, f.password)),
            )
        },
        (ConnectPhase::AwaitProfileAdd, EventView::ProfileWriteFailed(err)) => (
            conn,
            done,
            ActionView::Finish(Result::Err(err)),
        ),
        (ConnectPhase::AwaitProfileAdd, EventView::ProfileAddSpawnFailed) => (
            conn,
            done,
            ActionView::Finish(Result::Err(ConnectionErrorView::AddNetworkProfileFailed)),
        ),
        (ConnectPhase::AwaitProfileAdd, EventView::ProfileAdded) => (
            conn,
            FlowView { ssid: f.ssid, password: f.password, phase: ConnectPhase::AwaitConnectCmd },
            ActionView::IssueConnect(f.ssid),
        ),
        (ConnectPhase::AwaitConnectCmd, EventView::ConnectSpawnFailed(detail)) => (
            conn,
            done,
            ActionView::Finish(Result::Err(ConnectionErrorView::FailedToConnect(detail))),
        ),
        (ConnectPhase::AwaitConnectCmd, EventView::ConnectIssued) => (
            conn,
            FlowView { ssid: f.ssid, password: f.password, phase: ConnectPhase::AwaitVerify },
            ActionView::QueryVerify,
        ),
        (ConnectPhase::AwaitVerify, EventView::VerifyStatus(out)) => if text_contains(
            out,
            f.ssid,
        ) {
            (Option::Some(f.ssid), done, ActionView::Finish(Result::Ok(true)))
        } else {
            (conn, done, ActionView::Finish(Result::Ok(false)))
        },
        _ => (conn, stay, ActionView::Finish(Result::Ok(false))),
    }
}

impl ConnectFlow {
    /// Begins a connect attempt for the given network name and
    /// passphrase.  The paired action, always the radio query, is the
    /// first thing to perform.
    pub fn new(ssid: &str, password: &str) -> (r: (ConnectFlow, ConnectAction))
        ensures
            r.0@ == (FlowView { ssid: ssid@, password: password@, phase: ConnectPhase::AwaitRadio }),
            r.1@ == ActionView::QueryRadio,
    {
        let flow = ConnectFlow {
            ssid: String::from_str(ssid),
            password: String::from_str(password),
            phase: ConnectPhase::AwaitRadio,
        };
        (flow, ConnectAction::QueryRadio)
    }
}

impl WiFi {
    /// Advances a connect attempt by one step: consumes the outcome of
    /// the action performed last and answers with the next action,
    /// exactly as [`advance_model`] describes.
    pub fn connect_advance(&mut self, flow: &mut ConnectFlow, event: ConnectEvent) -> (action:
        ConnectAction)
        requires
            phase_expects(old(flow)@.phase, event@),
        ensures
            final(self)@ == advance_model(old(self)@, old(flow)@, event@).0,
            final(flow)@ == advance_model(old(self)@, old(flow)@, event@).1,
            action@ == advance_model(old(self)@, old(flow)@, event@).2,
    {
        match (flow.phase, event) {
            (ConnectPhase::AwaitRadio, ConnectEvent::RadioQuery(r)) => match r {
                Result::Err(err) => {
                    flow.phase = ConnectPhase::Done;
                    ConnectAction::Finish(
                        Result::Err(WifiConnectionError::Other { kind: err }),
                    )
                },
                Result::Ok(false) => {
                    flow.phase = ConnectPhase::Done;
                    ConnectAction::Finish(
                        Result::Err(
                            WifiConnectionError::Other { kind: WifiError::WifiDisabled },
                        ),
                    )
                },
                Result::Ok(true) => {
                    flow.phase = ConnectPhase::AwaitStatus;
                    ConnectAction::QueryStatus
                },
            },
            (ConnectPhase::AwaitStatus, ConnectEvent::Status(out)) => {
                if str_contains(out.as_str(), flow.ssid.as_str()) {
                    flow.phase = ConnectPhase::Done;
                    ConnectAction::Finish(Result::Ok(true))
                } else {
                    flow.phase = ConnectPhase::AwaitProfileAdd;
                    let content = render_profile(flow.ssid.as_str(), flow.password.as_str());
                    ConnectAction::AddProfile(content)
                }
            },
            (ConnectPhase::AwaitProfileAdd, ConnectEvent::ProfileWriteFailed(err)) => {
                flow.phase = ConnectPhase::Done;
                ConnectAction::Finish(Result::Err(err))
            },
            (ConnectPhase::AwaitProfileAdd, ConnectEvent::ProfileAddSpawnFailed) => {
                flow.phase = ConnectPhase::Done;
                ConnectAction::Finish(Result::Err(WifiConnectionError::AddNetworkProfileFailed))
            },
            (ConnectPhase::AwaitProfileAdd, ConnectEvent::ProfileAdded) => {
                flow.phase = ConnectPhase::AwaitConnectCmd;
                ConnectAction::IssueConnect(flow.ssid.clone())
            },
            (ConnectPhase::AwaitConnectCmd, ConnectEvent::ConnectSpawnFailed(detail)) => {
                flow.phase = ConnectPhase::Done;
                ConnectAction::Finish(Result::Err(WifiConnectionError::FailedToConnect(detail)))
            },
            (ConnectPhase::AwaitConnectCmd, ConnectEvent::ConnectIssued) => {
                flow.phase = ConnectPhase::AwaitVerify;
                ConnectAction::QueryVerify
            },
            (ConnectPhase::AwaitVerify, ConnectEvent::VerifyStatus(out)) => {
                flow.phase = ConnectPhase::Done;
                if str_contains(out.as_str(), flow.ssid.as_str()) {
                    self.connection = Option::Some(Connection { ssid: flow.ssid.clone() });
                    ConnectAction::Finish(Result::Ok(true))
                } else {
                    ConnectAction::Finish(Result::Ok(false))
                }
            },
            _ => unreached(),
        }
    }
}

/// The argument of the connect command: `name=` followed by the network
/// name.
pub fn connect_name_argument(ssid: &str) -> (r: String)
    ensures
        r@ == "name="@ + ssid@,
{
    let mut arg = String::from_str("name=");
    arg.append(ssid);
    arg
}

/// The argument of the add-profile command: `filename=` followed by the
/// path of the staged profile file.
pub fn profile_filename_argument(path: &str) -> (r: String)
    ensures
        r@ == "filename="@ + path@,
{
    let mut arg = String::from_str("filename=");
    arg.append(path);
    arg
}

/// Success keyword looked for in the disconnect command's captured
/// output.
pub open spec fn disconnect_keyword() -> Seq<char> {
    "disconnect"@
}

impl WiFi {
    /// Decides the outcome of a disconnect attempt.  `outcome` is the
    /// captured output of the disconnect command, or the OS's description
    /// where the command could not be spawned.  Success is exactly the
    /// presence of the expected keyword in the output; the connection
    /// record is left unchanged either way.
    pub fn disconnect(&self, outcome: Result<String, String>) -> (r: Result<
        bool,
        WifiConnectionError,
    >)
        ensures
            match outcome {
                Result::Ok(out) => r == Result::<bool, WifiConnectionError>::Ok(
                    text_contains(out@, disconnect_keyword()),
                ),
                Result::Err(detail) => r == Result::<bool, WifiConnectionError>::Err(
                    WifiConnectionError::FailedToDisconnect(detail),
                ),
            },
    {
        match outcome {
            Result::Ok(out) => Result::Ok(str_contains(out.as_str(), "disconnect")),
            Result::Err(detail) => Result::Err(WifiConnectionError::FailedToDisconnect(detail)),
        }
    }
}

/// Law: a network already present in the first status output ends the
/// attempt at once with `Ok(true)`.  The connection record is untouched,
/// and neither step asks for a profile registration or a connect
/// command.
pub proof fn lemma_connect_short_circuit(conn: Option<Seq<char>>, f: FlowView, out: Seq<char>)
    requires
        f.phase == ConnectPhase::AwaitRadio,
        text_contains(out, f.ssid),
    ensures
        ({
            let s1 = advance_model(conn, f, EventView::RadioQuery(Result::Ok(true)));
            let s2 = advance_model(s1.0, s1.1, EventView::Status(out));
            &&& s1.2 == ActionView::QueryStatus
            &&& s2.2 == ActionView::Finish(Result::<bool, ConnectionErrorView>::Ok(true))
            &&& s2.0 == conn
            &&& s2.1.phase == ConnectPhase::Done
        }),
{
}

/// Law: a network absent from the first status output and present in the
/// verifying one is connected.  The full flow asks for the profile, the
/// connect command and the verification in that order, ends with
/// `Ok(true)`, and the connection record then holds exactly that SSID.
pub proof fn lemma_connect_records_ssid(
    conn: Option<Seq<char>>,
    f: FlowView,
    first: Seq<char>,
    second: Seq<char>,
)
    requires
        f.phase == ConnectPhase::AwaitRadio,
        !text_contains(first, f.ssid),
        text_contains(second, f.ssid),
    ensures
        ({
            let s1 = advance_model(conn, f, EventView::RadioQuery(Result::Ok(true)));
            let s2 = advance_model(s1.0, s1.1, EventView::Status(first));
            let s3 = advance_model(s2.0, s2.1, EventView::ProfileAdded);
            let s4 = advance_model(s3.0, s3.1, EventView::ConnectIssued);
            let s5 = advance_model(s4.0, s4.1, EventView::VerifyStatus(second));
            &&& s2.2 == ActionView::AddProfile(rendered_profile(f.ssid, f.password))
            &&& s3.2 == ActionView::IssueConnect(f.ssid)
            &&& s4.2 == ActionView::QueryVerify
            &&& s5.2 == ActionView::Finish(Result::<bool, ConnectionErrorView>::Ok(true))
            &&& s5.0 == Option::Some(f.ssid)
        }),
{
}

/// Law: a network absent from the first status output and still absent
/// from the verifying one leaves the attempt with the normal `Ok(false)`
/// outcome, not an error, and the connection record exactly as it was.
pub proof fn lemma_connect_unverified_is_false(
    conn: Option<Seq<char>>,
    f: FlowView,
    first: Seq<char>,
    second: Seq<char>,
)
    requires
        f.phase == ConnectPhase::AwaitRadio,
        !text_contains(first, f.ssid),
        !text_contains(second, f.ssid),
    ensures
        ({
            let s1 = advance_model(conn, f, EventView::RadioQuery(Result::Ok(true)));
            let s2 = advance_model(s1.0, s1.1, EventView::Status(first));
            let s3 = advance_model(s2.0, s2.1, EventView::ProfileAdded);
            let s4 = advance_model(s3.0, s3.1, EventView::ConnectIssued);
            let s5 = advance_model(s4.0, s4.1, EventView::VerifyStatus(second));
            &&& s5.2 == ActionView::Finish(Result::<bool, ConnectionErrorView>::Ok(false))
            &&& s5.0 == conn
            &&& s5.1.phase == ConnectPhase::Done
        }),
{
}

/// Law: a disabled radio stops the attempt before any side effect.  The
/// one step ends with the `WifiDisabled` error wrapped in `Other`, the
/// record is untouched, and no profile or connect command is asked for.
pub proof fn lemma_connect_disabled_radio(conn: Option<Seq<char>>, f: FlowView)
    requires
        f.phase == ConnectPhase::AwaitRadio,
    ensures
        ({
            let s1 = advance_model(conn, f, EventView::RadioQuery(Result::Ok(false)));
            &&& s1.2 == ActionView::Finish(
                Result::<bool, ConnectionErrorView>::Err(
                    ConnectionErrorView::Other { kind: WifiErrorView::WifiDisabled },
                ),
            )
            &&& s1.0 == conn
            &&& s1.1.phase == ConnectPhase::Done
        }),
{
}

/// Law: the connection record is only ever written at the verification
/// step, and only to an SSID that the status output handed in by that
/// very event confirms present.
pub proof fn lemma_record_only_on_confirmation(
    conn: Option<Seq<char>>,
    f: FlowView,
    e: EventView,
)
    ensures
        ({
            let stepped = advance_model(conn, f, e);
            stepped.0 != conn ==> {
                &&& f.phase == ConnectPhase::AwaitVerify
                &&& e matches EventView::VerifyStatus(out) && text_contains(out, f.ssid)
                &&& stepped.0 == Option::Some(f.ssid)
            }
        }),
{
}

/// The connection state checker: a plain substring match of the network
/// name against the raw status output.  A name that happens to occur in
/// another field of the output (another network's name, a descriptor)
/// therefore counts as a match; that looseness is deliberate.
pub fn is_connected_to(ssid: &str, status_output: &str) -> (r: bool)
    ensures
        r == text_contains(status_output@, ssid@),
{
    str_contains(status_output, ssid)
}

} // verus!
