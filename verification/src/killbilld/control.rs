//! The control server's rules: who may ask what, and what a connection does next.
//!
//! A connection sends one command and gets one reply, or subscribes and gets a
//! stream of events. Two layers guard the daemon: the socket file's mode, and the
//! peer's user id, which every command but the read-only queries needs to be zero.
//! The check runs before the request reaches the core, which checks again.

use crate::killbilld::responder::{LogLevel, LogLine, LogLineView};
use crate::proto::protocol;
use crate::proto::protocol::{Command, CommandView, ProtocolError, Reply, ReplyView};
use crate::text;
use vstd::prelude::*;

verus! {

/// The credentials of a connected control client.
#[derive(Debug, Clone, Copy, PartialEq, Eq, Structural)]
pub struct PeerCred {
    pub uid: u32,
    pub pid: i32,
    pub gid: u32,
}

impl PeerCred {
    /// The daemon itself (used for `armed_at_boot`): always trusted.
    pub fn system() -> (r: Self)
        ensures
            r == (PeerCred { uid: 0, pid: 0, gid: 0 }),
    {
        PeerCred { uid: 0, pid: 0, gid: 0 }
    }

    /// A peer whose credentials could not be read: never trusted.
    pub fn untrusted() -> (r: Self)
        ensures
            r == (PeerCred { uid: u32::MAX, pid: 0, gid: u32::MAX }),
            r.uid != 0,
    {
        PeerCred { uid: u32::MAX, pid: 0, gid: u32::MAX }
    }

    #[must_use]
    pub fn is_root(&self) -> (r: bool)
        ensures
            r == (self.uid == 0),
    {
        self.uid == 0
    }
}

/// Whether this peer may send this command.
pub open spec fn is_authorized(cmd: CommandView, peer: PeerCred) -> bool {
    cmd.read_only() || peer.uid == 0
}

/// Whether this peer may send this command.
pub fn authorized(cmd: &Command, peer: &PeerCred) -> (r: bool)
    ensures
        r == is_authorized(cmd@, *peer),
{
    !cmd.requires_root() || peer.is_root()
}

/// Most control connections alive at once.
pub const MAX_CONNECTIONS: usize = 32;

/// Depth of one subscriber's event queue before events are dropped for it.
pub const SUBSCRIBER_QUEUE: usize = 256;

/// How many control connections are alive.
#[derive(Debug, Clone, Copy, PartialEq, Eq, Structural)]
pub struct ConnectionCount {
    pub live: usize,
}

impl ConnectionCount {
    /// The cap is kept.
    pub open spec fn wf(self) -> bool {
        self.live <= MAX_CONNECTIONS
    }

    pub fn new() -> (r: Self)
        ensures
            r.live == 0,
            r.wf(),
    {
        ConnectionCount { live: 0 }
    }

    /// Takes a slot for a new connection, if there is one.
    pub fn acquire(&mut self) -> (r: bool)
        requires
            old(self).wf(),
        ensures
            final(self).wf(),
            r == (old(self).live < MAX_CONNECTIONS),
            final(self).live == old(self).live + (if r {
                1int
            } else {
                0int
            }),
    {
        if self.live < MAX_CONNECTIONS {
            self.live += 1;
            true
        } else {
            false
        }
    }

    /// Gives back the slot of a connection that has ended.
    pub fn release(&mut self)
        requires
            old(self).wf(),
        ensures
            final(self).wf(),
            final(self).live == (if old(self).live > 0 {
                old(self).live - 1
            } else {
                0
            }),
    {
        if self.live > 0 {
            self.live -= 1;
        }
    }
}

/// The reply to a connection over the cap.
pub fn too_many_connections() -> (r: Reply)
    ensures
        r@ == ReplyView::Error("too many control connections; try again"@),
{
    Reply::Error("too many control connections; try again".to_owned())
}

/// The reply when the core is gone.
pub fn shutting_down() -> (r: Reply)
    ensures
        r@ == ReplyView::Error("daemon is shutting down"@),
{
    Reply::Error("daemon is shutting down".to_owned())
}

/// The reply when the core dropped a request.
pub fn request_dropped() -> (r: Reply)
    ensures
        r@ == ReplyView::Error("daemon dropped the request"@),
{
    Reply::Error("daemon dropped the request".to_owned())
}

/// The reply when the core dropped a subscription.
pub fn subscription_dropped() -> (r: Reply)
    ensures
        r@ == ReplyView::Error("daemon dropped the subscription"@),
{
    Reply::Error("daemon dropped the subscription".to_owned())
}

/// The reply in place of one that no frame can hold.
pub fn reply_too_large() -> (r: Reply)
    ensures
        r@ == ReplyView::Error(
            "the reply is too large to send over the control socket; narrow the request"@,
        ),
{
    Reply::Error(
        "the reply is too large to send over the control socket; narrow the request".to_owned(),
    )
}

/// What the first read on a connection gave.
#[derive(Debug, Clone, PartialEq, Eq)]
pub enum Request {
    /// The client closed without sending anything.
    Closed,
    /// The bytes were no command; the reason.
    Bad(String),
    /// A command.
    Sent(Command),
}

/// What a connection does with its request.
#[derive(Debug, Clone, PartialEq, Eq)]
pub enum ConnectionStep {
    /// Nothing more.
    Close,
    /// Send this and close.
    Answer(Reply),
    /// Write this to the log, send the reply and close.
    Deny { line: LogLine, reply: Reply },
    /// Ask the core for a subscription.
    Subscribe,
    /// Hand the command to the core and send its reply.
    Forward(Command),
}

/// What a [`ConnectionStep`] holds.
pub enum ConnectionStepView {
    Close,
    Answer(ReplyView),
    Deny { line: LogLineView, reply: ReplyView },
    Subscribe,
    Forward(CommandView),
}

impl View for ConnectionStep {
    type V = ConnectionStepView;

    open spec fn view(&self) -> ConnectionStepView {
        match self {
            ConnectionStep::Close => ConnectionStepView::Close,
            ConnectionStep::Answer(r) => ConnectionStepView::Answer(r@),
            ConnectionStep::Deny { line, reply } => ConnectionStepView::Deny {
                line: line@,
                reply: reply@,
            },
            ConnectionStep::Subscribe => ConnectionStepView::Subscribe,
            ConnectionStep::Forward(c) => ConnectionStepView::Forward(c@),
        }
    }
}

/// What the log says of a command that was denied before it reached the core.
pub open spec fn denial(peer: PeerCred) -> LogLineView {
    LogLineView::plain(
        LogLevel::Warn,
        "denied a privileged control command from a non-root peer"@,
    ).with("peer_uid"@, text::decimal(peer.uid as nat)).with(
        "peer_pid"@,
        text::signed(peer.pid as int),
    )
}

/// What a connection does with a command from this peer.
pub open spec fn command_step(cmd: CommandView, peer: PeerCred) -> ConnectionStepView {
    if !is_authorized(cmd, peer) {
        ConnectionStepView::Deny {
            line: denial(peer),
            reply: ReplyView::Error(
                "permission denied: this command requires uid 0 (peer uid "@ + text::decimal(
                    peer.uid as nat,
                ) + ")"@,
            ),
        }
    } else if cmd is Subscribe {
        ConnectionStepView::Subscribe
    } else {
        ConnectionStepView::Forward(cmd)
    }
}

/// What a connection does with its request. A denied command never reaches the core.
pub fn serve_connection(request: Request, peer: &PeerCred) -> (r: ConnectionStep)
    ensures
        r@ == match request {
            Request::Closed => ConnectionStepView::Close,
            Request::Bad(e) => ConnectionStepView::Answer(ReplyView::Error("bad request: "@ + e@)),
            Request::Sent(cmd) => command_step(cmd@, *peer),
        },
{
    match request {
        Request::Closed => ConnectionStep::Close,
        Request::Bad(e) => ConnectionStep::Answer(
            Reply::Error("bad request: ".to_owned().concat(e.as_str())),
        ),
        Request::Sent(cmd) => {
            if !authorized(&cmd, peer) {
                let line = LogLine::plain(
                    LogLevel::Warn,
                    "denied a privileged control command from a non-root peer".to_owned(),
                ).with("peer_uid", text::decimal_text(peer.uid as u64)).with(
                    "peer_pid",
                    text::signed_text(peer.pid),
                );
                let reply = Reply::Error(
                    "permission denied: this command requires uid 0 (peer uid ".to_owned().concat(
                        text::decimal_text(peer.uid as u64).as_str(),
                    ).concat(")"),
                );
                return ConnectionStep::Deny { line, reply };
            }
            match cmd {
                Command::Subscribe => ConnectionStep::Subscribe,
                _ => ConnectionStep::Forward(cmd),
            }
        },
    }
}

/// A peer that is not root gets no privileged command past its connection: nothing but the
/// read-only queries is forwarded, and no subscription is asked for. What is denied is logged and
/// answered with an error.
pub proof fn only_queries_pass_without_root(cmd: CommandView, peer: PeerCred)
    requires
        peer.uid != 0,
    ensures
        match command_step(cmd, peer) {
            ConnectionStepView::Forward(c) => c == cmd && c.read_only(),
            ConnectionStepView::Deny { line, reply } => !cmd.read_only() && line == denial(peer)
                && reply is Error,
            _ => false,
        },
{
}

/// The frame for a reply, or for the error that takes its place when the reply is
/// too large for a frame.
pub fn reply_frame(body: &[u8], fallback: &[u8]) -> (r: Result<Vec<u8>, ProtocolError>)
    ensures
        body@.len() <= protocol::MAX_BODY_LEN ==> (r matches Ok(f) && f@ == protocol::frame_of(
            body@,
        )),
        body@.len() > protocol::MAX_BODY_LEN && fallback@.len() <= protocol::MAX_BODY_LEN
            ==> (r matches Ok(f) && f@ == protocol::frame_of(fallback@)),
        body@.len() > protocol::MAX_BODY_LEN && fallback@.len() > protocol::MAX_BODY_LEN ==> r
            == Err::<Vec<u8>, ProtocolError>(
            ProtocolError::FrameTooLarge { len: fallback@.len() as usize },
        ),
{
    match protocol::encode(body) {
        Ok(frame) => Ok(frame),
        Err(_) => protocol::encode(fallback),
    }
}

/// Whether a subscription was accepted: events follow only after a plain success.
pub fn subscription_accepted(ack: &Reply) -> (r: bool)
    ensures
        r == (ack@ is Done),
{
    match ack {
        Reply::Done => true,
        _ => false,
    }
}

/// What stands at the socket path, links not followed.
#[derive(Debug, Clone, PartialEq, Eq)]
pub enum PathState {
    Missing,
    /// It could not be examined; the reason.
    Unreadable(String),
    Socket,
    NotSocket,
}

/// What a probe connect to the socket at the path gave.
#[derive(Debug, Clone, PartialEq, Eq)]
pub enum ProbeOutcome {
    /// Something accepted the connection.
    Connected,
    /// Nothing is listening.
    Refused,
    /// Anything else; the reason.
    Failed(String),
}

/// The kind of a refusal to bind.
#[derive(Debug, Clone, Copy, PartialEq, Eq, Structural)]
pub enum RefusalKind {
    AlreadyExists,
    AddrInUse,
    Unreadable,
    UnsafeDirectory,
}

/// Why the socket is not bound.
#[derive(Debug, Clone, PartialEq, Eq)]
pub struct BindRefusal {
    pub kind: RefusalKind,
    pub message: String,
}

/// What a [`BindRefusal`] holds.
pub struct BindRefusalView {
    pub kind: RefusalKind,
    pub message: Seq<char>,
}

impl View for BindRefusal {
    type V = BindRefusalView;

    open spec fn view(&self) -> BindRefusalView {
        BindRefusalView { kind: self.kind, message: self.message@ }
    }
}

/// What to do about the socket path before binding.
#[derive(Debug, Clone, PartialEq, Eq)]
pub enum PathStep {
    /// Nothing is there: bind.
    Bind,
    /// A socket is there: probe it.
    Probe,
    /// Unlink the leftover socket, then bind.
    RemoveStale,
    /// Do not start.
    Refuse(BindRefusal),
}

/// What a [`PathStep`] holds.
pub enum PathStepView {
    Bind,
    Probe,
    RemoveStale,
    Refuse(BindRefusalView),
}

impl View for PathStep {
    type V = PathStepView;

    open spec fn view(&self) -> PathStepView {
        match self {
            PathStep::Bind => PathStepView::Bind,
            PathStep::Probe => PathStepView::Probe,
            PathStep::RemoveStale => PathStepView::RemoveStale,
            PathStep::Refuse(r) => PathStepView::Refuse(r@),
        }
    }
}

/// What is known of the directory that the socket is to stand in.
#[derive(Debug, Clone, PartialEq, Eq)]
pub enum DirectoryState {
    /// Its owner and its mode bits.
    Found { uid: u32, mode: u32 },
    /// It could not be examined; the reason.
    Unreadable(String),
}

/// Whether someone other than root can write to a directory with this owner and mode: others,
/// the group, or an owner that is not root.
pub open spec fn others_can_write(uid: u32, mode: u32) -> bool {
    mode / 2 % 2 == 1 || mode / 16 % 2 == 1 || (uid != 0 && mode / 128 % 2 == 1)
}

/// Whether the socket may stand in a directory. Who may talk to the daemon is a filesystem
/// question, so it is refused where someone other than root could put another socket in its
/// place.
pub fn ensure_directory_is_safe(directory: &str, found: &DirectoryState) -> (r: Result<
    (),
    BindRefusal,
>)
    ensures
        match *found {
            DirectoryState::Found { uid, mode } => {
                &&& r is Ok <==> !others_can_write(uid, mode)
                &&& r matches Err(e) ==> e@ == (BindRefusalView {
                    kind: RefusalKind::UnsafeDirectory,
                    message: directory@
                        + " is writable by non-root users — refusing to put the control socket there"@,
                })
            },
            DirectoryState::Unreadable(why) => r matches Err(e) && e@ == (BindRefusalView {
                kind: RefusalKind::Unreadable,
                message: why@,
            }),
        },
{
    match found {
        DirectoryState::Found { uid, mode } => {
            if *mode / 2 % 2 == 1 || *mode / 16 % 2 == 1 || (*uid != 0 && *mode / 128 % 2 == 1) {
                Err(
                    BindRefusal {
                        kind: RefusalKind::UnsafeDirectory,
                        message: directory.to_owned().concat(
                            " is writable by non-root users — refusing to put the control socket there",
                        ),
                    },
                )
            } else {
                Ok(())
            }
        },
        DirectoryState::Unreadable(why) => Err(
            BindRefusal { kind: RefusalKind::Unreadable, message: why.clone() },
        ),
    }
}

/// What is done about what stands at the socket path.
pub open spec fn path_step(path: Seq<char>, found: PathState) -> PathStepView {
    match found {
        PathState::Missing => PathStepView::Bind,
        PathState::Socket => PathStepView::Probe,
        PathState::Unreadable(e) => PathStepView::Refuse(
            BindRefusalView { kind: RefusalKind::Unreadable, message: e@ },
        ),
        PathState::NotSocket => PathStepView::Refuse(
            BindRefusalView {
                kind: RefusalKind::AlreadyExists,
                message: path + " already exists and is not a socket — refusing to touch it"@,
            },
        ),
    }
}

/// What is done once a socket at the path was probed.
pub open spec fn probed_step(path: Seq<char>, outcome: ProbeOutcome) -> PathStepView {
    match outcome {
        ProbeOutcome::Refused => PathStepView::RemoveStale,
        ProbeOutcome::Connected => PathStepView::Refuse(
            BindRefusalView {
                kind: RefusalKind::AddrInUse,
                message: "another killbilld is already listening at "@ + path
                    + " — refusing to start a second instance"@,
            },
        ),
        ProbeOutcome::Failed(e) => PathStepView::Refuse(
            BindRefusalView {
                kind: RefusalKind::AddrInUse,
                message: "a socket already exists at "@ + path + " and probing it failed ("@ + e@
                    + ") — refusing to start rather than unlink a socket that may be in use"@,
            },
        ),
    }
}

/// Make sure nothing important is at `path`: nothing there is fine, a socket is to
/// be probed, anything else is refused and left alone.
pub fn ensure_path_is_free(path: &str, found: &PathState) -> (r: PathStep)
    ensures
        r@ == path_step(path@, *found),
{
    match found {
        PathState::Missing => PathStep::Bind,
        PathState::Socket => PathStep::Probe,
        PathState::Unreadable(e) => PathStep::Refuse(
            BindRefusal { kind: RefusalKind::Unreadable, message: e.clone() },
        ),
        PathState::NotSocket => PathStep::Refuse(
            BindRefusal {
                kind: RefusalKind::AlreadyExists,
                message: path.to_owned().concat(
                    " already exists and is not a socket — refusing to touch it",
                ),
            },
        ),
    }
}

/// What the probe of a socket at `path` means. It is unlinked only when nothing is
/// listening; every other outcome is ambiguous, and the daemon does not start.
pub fn after_probe(path: &str, outcome: &ProbeOutcome) -> (r: PathStep)
    ensures
        r@ == probed_step(path@, *outcome),
{
    match outcome {
        ProbeOutcome::Refused => PathStep::RemoveStale,
        ProbeOutcome::Connected => PathStep::Refuse(
            BindRefusal {
                kind: RefusalKind::AddrInUse,
                message: "another killbilld is already listening at ".to_owned().concat(
                    path,
                ).concat(" — refusing to start a second instance"),
            },
        ),
        ProbeOutcome::Failed(e) => PathStep::Refuse(
            BindRefusal {
                kind: RefusalKind::AddrInUse,
                message: "a socket already exists at ".to_owned().concat(path).concat(
                    " and probing it failed (",
                ).concat(e.as_str()).concat(
                    ") — refusing to start rather than unlink a socket that may be in use",
                ),
            },
        ),
    }
}

/// Whether the socket path is unlinked on shutdown: only a socket is, so that a
/// mistyped path deletes no file.
pub fn remove_socket(found: &PathState) -> (r: bool)
    ensures
        r == (found is Socket),
{
    match found {
        PathState::Socket => true,
        _ => false,
    }
}

/// A socket path is taken only where that harms nothing: it is bound where nothing stands there, and
/// cleared where a socket stands there that nobody listens on. A live daemon, a file, and whatever
/// could not be examined are left alone, and the refusal says why.
pub proof fn only_a_dead_socket_is_cleared(path: Seq<char>, found: PathState, outcome: ProbeOutcome)
    ensures
        path_step(path, found) is Bind <==> found is Missing,
        path_step(path, found) is Probe <==> found is Socket,
        !(path_step(path, found) is RemoveStale),
        probed_step(path, outcome) is RemoveStale <==> outcome is Refused,
        !(outcome is Refused) ==> probed_step(path, outcome) is Refuse,
        found is NotSocket ==> (path_step(path, found) matches PathStepView::Refuse(r) && r.kind
            == RefusalKind::AlreadyExists && path.is_prefix_of(r.message)),
        outcome is Connected ==> (probed_step(path, outcome) matches PathStepView::Refuse(r)
            && r.kind == RefusalKind::AddrInUse && text::shows(r.message, path)),
        outcome matches ProbeOutcome::Failed(e) ==> (probed_step(path, outcome) matches
            PathStepView::Refuse(r) && text::shows(r.message, e@)),
{
    let a = " already exists and is not a socket — refusing to touch it"@;
    assert(path =~= (path + a).subrange(0, path.len() as int));
    let head = "another killbilld is already listening at "@;
    text::what_is_added_shows(head, path, Seq::empty());
    text::what_shows_stays(head + path, path, " — refusing to start a second instance"@);
    if let ProbeOutcome::Failed(e) = outcome {
        let front = "a socket already exists at "@ + path + " and probing it failed ("@;
        text::what_is_added_shows(front, e@, Seq::empty());
        text::what_shows_stays(
            front + e@,
            e@,
            ") — refusing to start rather than unlink a socket that may be in use"@,
        );
    }
}

/// A directory is safe exactly where neither its group nor others may write to it, and its owner may
/// not either unless that is root.
pub proof fn a_safe_directory_is_roots_alone(uid: u32, mode: u32)
    ensures
        others_can_write(uid, mode) <==> mode & 0o022 != 0 || (uid != 0 && mode & 0o200 != 0),
{
    assert(mode / 2 % 2 == 1 <==> mode & 0o002 != 0) by (bit_vector);
    assert(mode / 16 % 2 == 1 <==> mode & 0o020 != 0) by (bit_vector);
    assert(mode / 128 % 2 == 1 <==> mode & 0o200 != 0) by (bit_vector);
    assert(mode & 0o022 != 0 <==> mode & 0o002 != 0 || mode & 0o020 != 0) by (bit_vector);
}

/// Who may send what: root anything, anyone else the three queries that change nothing and show
/// nothing that is not public.
pub proof fn root_alone_may_do_more_than_ask(cmd: &Command, peer: PeerCred)
    ensures
        is_authorized(cmd@, peer) <==> peer.uid == 0 || cmd is GetStatus || cmd is ListDevices
            || cmd is WhitelistList,
        MAX_CONNECTIONS == 32,
        SUBSCRIBER_QUEUE == 256,
{
}

/// What root sends reaches the core as it was sent, and a subscription as a subscription.
pub proof fn root_is_let_through(cmd: CommandView, peer: PeerCred)
    requires
        peer.uid == 0,
    ensures
        cmd is Subscribe ==> command_step(cmd, peer) is Subscribe,
        !(cmd is Subscribe) ==> command_step(cmd, peer) == ConnectionStepView::Forward(cmd),
{
}

} // verus!
