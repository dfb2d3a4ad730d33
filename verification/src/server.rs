//! The server's decisions: the INIT handshake, the steady-state
//! treatment of one frame, and the connection's life cycle.
//!
//! The process boundary performs the reads, writes, mounting, and
//! task spawning; everything it must decide — what the handshake
//! replies, how a frame is answered, when the loop retries, stops, or
//! fails — is a function here with an exact contract.

use crate::context::send_error_reply;
use crate::context::spec_parse_err;
use crate::context::FuseContext;
use crate::context::ProtocolVersion;
use crate::decode::DecodeError;
use crate::errno::Errno;
use crate::errno::EAGAIN;
use crate::errno::EINVAL;
use crate::errno::ENODEV;
use crate::errno::ENOSYS;
use crate::fs::FileSystem;
use crate::kernel::fuse_in_header;
use crate::kernel::fuse_init_in;
use crate::kernel::fuse_init_out;
use crate::kernel::FUSE_INIT;
use crate::kernel::FUSE_KERNEL_MINOR_VERSION;
use crate::kernel::FUSE_KERNEL_VERSION;
use crate::abi::FuseAbiData;
use crate::ops::opcode_is_known;
use crate::ops::opcode_known;
use crate::ops::spec_body_err;
use crate::ops::Operation;
use crate::reply::ReplyInit;
use crate::write::FuseWrite;
use vstd::prelude::*;

verus! {

broadcast use vstd::slice::group_slice_axioms;

/// Buffer alignment: one page.
pub const PAGE_SIZE: usize = 4096;

/// How many background requests the kernel may queue; also the pool
/// capacity.
pub const MAX_BACKGROUND: u16 = 10;

/// The congestion threshold advertised to the kernel.
pub const CONGESTION_THRESHOLD: u16 = 10;

/// The largest write body advertised to the kernel.
pub const MAX_WRITE_SIZE: u32 = 128 * 1024;

/// Per-request buffer capacity: the largest write body plus header
/// slack.
pub const BUFFER_SIZE: usize = 128 * 1024 + 512;

/// Timestamp granularity advertised to the kernel, in nanoseconds.
pub const TIME_GRAN: u32 = 1;

/// How many reader tasks the process boundary runs.
pub const WORKER_COUNT: usize = 16;

/// The recognized configuration of a server.
#[derive(Debug, Clone, Copy, PartialEq, Eq, Structural)]
pub struct ServerConfig {
    /// Buffer alignment.
    pub page_size: usize,
    /// Pool capacity; advertised to the kernel.
    pub max_background: u16,
    /// Largest write body; advertised to the kernel.
    pub max_write: u32,
    /// Per-request buffer capacity.
    pub buffer_size: usize,
    /// Reader tasks.
    pub worker_count: usize,
    /// Capability flags to advertise.
    pub init_flags: u32,
}

impl Default for ServerConfig {
    fn default() -> (c: Self)
        ensures
            c == (ServerConfig {
                page_size: PAGE_SIZE,
                max_background: MAX_BACKGROUND,
                max_write: MAX_WRITE_SIZE,
                buffer_size: BUFFER_SIZE,
                worker_count: WORKER_COUNT,
                init_flags: 0u32,
            }),
    {
        ServerConfig {
            page_size: PAGE_SIZE,
            max_background: MAX_BACKGROUND,
            max_write: MAX_WRITE_SIZE,
            buffer_size: BUFFER_SIZE,
            worker_count: WORKER_COUNT,
            init_flags: 0,
        }
    }
}

/// The builder of a server: the mount point and the filesystem that
/// will serve it.
#[derive(Debug)]
pub struct ServerBuilder<F> {
    mount_point: String,
    fs: F,
}

impl<F> ServerBuilder<F> {
    /// The mount point the server will attach to.
    pub closed spec fn spec_mount_point(&self) -> Seq<char> {
        self.mount_point@
    }

    /// The filesystem the server will drive.
    pub closed spec fn spec_fs(&self) -> F {
        self.fs
    }

    /// Starts building a server for `fs` at `mount_point`.
    pub fn new(mount_point: String, fs: F) -> (b: Self)
        ensures
            b.spec_mount_point() == mount_point@,
    {
        ServerBuilder { mount_point, fs }
    }

    /// Hands the mount point and the filesystem back to the process
    /// boundary that mounts and runs the loop.
    pub fn into_parts(self) -> (r: (String, F))
        ensures
            r.0@ == self.spec_mount_point(),
            r.1 == self.spec_fs(),
    {
        let ServerBuilder { mount_point, fs } = self;
        (mount_point, fs)
    }
}

/// The life cycle of one connection.
#[derive(Debug, Clone, Copy, PartialEq, Eq, Structural)]
pub enum ConnState {
    /// No connection: before mounting, or after a clean unmount.
    Closed,
    /// Mounted; the INIT handshake has not finished.
    Connected,
    /// Serving requests.
    Ready,
    /// A fatal I/O or protocol error ended the session.
    Poisoned,
}

/// What happened to a connection.
#[derive(Debug, Clone, Copy, PartialEq, Eq, Structural)]
pub enum ConnEvent {
    /// The device was opened and mounted.
    Opened,
    /// The INIT handshake completed.
    HandshakeDone,
    /// One steady-state frame was received and handled.
    FrameProcessed,
    /// A read from the device failed with this OS error.
    ReadFailed(i32),
}

/// The connection's next state after an event.
pub open spec fn spec_conn_step(s: ConnState, e: ConnEvent) -> ConnState {
    match (s, e) {
        (ConnState::Closed, ConnEvent::Opened) => ConnState::Connected,
        (ConnState::Connected, ConnEvent::HandshakeDone) => ConnState::Ready,
        (ConnState::Ready, ConnEvent::FrameProcessed) => ConnState::Ready,
        (ConnState::Ready, ConnEvent::ReadFailed(errno)) => if errno == ENODEV {
            ConnState::Closed
        } else if errno == EAGAIN {
            ConnState::Ready
        } else {
            ConnState::Poisoned
        },
        _ => ConnState::Poisoned,
    }
}

/// Advances the connection's life cycle by one event: reads that fail
/// with `ENODEV` close the connection cleanly, `EAGAIN` keeps it
/// serving, any other failure or out-of-order event poisons it.
pub fn conn_step(s: ConnState, e: ConnEvent) -> (r: ConnState)
    ensures
        r == spec_conn_step(s, e),
{
    match (s, e) {
        (ConnState::Closed, ConnEvent::Opened) => ConnState::Connected,
        (ConnState::Connected, ConnEvent::HandshakeDone) => ConnState::Ready,
        (ConnState::Ready, ConnEvent::FrameProcessed) => ConnState::Ready,
        (ConnState::Ready, ConnEvent::ReadFailed(errno)) => {
            if errno == ENODEV {
                ConnState::Closed
            } else if errno == EAGAIN {
                ConnState::Ready
            } else {
                ConnState::Poisoned
            }
        },
        _ => ConnState::Poisoned,
    }
}

/// What the steady-state loop does next.
#[derive(Debug, Clone, Copy, PartialEq, Eq, Structural)]
pub enum LoopAction {
    /// Retry the read.
    Retry,
    /// The mount was torn down: stop cleanly.
    Shutdown,
    /// An unrecoverable OS error: fail.
    Fatal,
}

/// The loop's reaction to a failed read from the device: `ENODEV`
/// means the mount was torn down and the loop stops cleanly, `EAGAIN`
/// is retried, anything else is fatal.
pub fn action_for_read_error(errno: i32) -> (r: LoopAction)
    ensures
        errno == ENODEV ==> r == LoopAction::Shutdown,
        errno == EAGAIN ==> r == LoopAction::Retry,
        errno != ENODEV && errno != EAGAIN ==> r == LoopAction::Fatal,
{
    if errno == ENODEV {
        LoopAction::Shutdown
    } else if errno == EAGAIN {
        LoopAction::Retry
    } else {
        LoopAction::Fatal
    }
}

/// The INIT reply this runtime negotiates for a client: its own
/// protocol version, the client's readahead, and the configured flags
/// and limits.
pub open spec fn spec_init_reply_record(client: fuse_init_in, config: ServerConfig) -> fuse_init_out {
    fuse_init_out {
        major: FUSE_KERNEL_VERSION,
        minor: FUSE_KERNEL_MINOR_VERSION,
        max_readahead: client.max_readahead,
        flags: config.init_flags,
        max_background: config.max_background,
        congestion_threshold: CONGESTION_THRESHOLD,
        max_write: config.max_write,
        time_gran: TIME_GRAN,
        max_pages: 0,
        padding: 0,
        unused0: 0,
        unused1: 0,
        unused2: 0,
        unused3: 0,
        unused4: 0,
        unused5: 0,
        unused6: 0,
        unused7: 0,
    }
}

/// The error of a failed handshake.
#[derive(Debug, Clone, Copy, PartialEq, Eq, Structural)]
pub enum InitError {
    /// The first frame does not parse; the session is unrecoverable.
    Malformed(DecodeError),
    /// The first frame is not a `FUSE_INIT` request.
    NotInit,
    /// Sending the reply failed with this OS error.
    Io(i32),
}

/// Performs the INIT handshake on the first frame read from the
/// device.
///
/// When the frame is a `FUSE_INIT` request, exactly the negotiated
/// reply of [`spec_init_reply_record`] goes out and the client's
/// protocol version comes back. A frame that does not parse, or whose
/// operation is not INIT, changes nothing and is reported; the session
/// is then unrecoverable.
pub fn init_handshake<W: FuseWrite>(writer: &mut W, buf: &[u8], config: &ServerConfig) -> (r:
    Result<ProtocolVersion, InitError>)
    ensures
        match r {
            Ok(proto) => {
                let h = fuse_in_header::of_wire(buf@.take(fuse_in_header::wire_size() as int));
                let client = fuse_init_in::of_wire(
                    buf@.skip(fuse_in_header::wire_size() as int).take(
                        fuse_init_in::wire_size() as int,
                    ),
                );
                &&& spec_parse_err(buf@) is None
                &&& h.opcode == FUSE_INIT
                &&& proto == (ProtocolVersion { major: client.major, minor: client.minor })
                &&& final(writer).sent() == old(writer).sent().push(
                    crate::context::spec_reply_frame(
                        h.unique,
                        0,
                        spec_init_reply_record(client, *config).as_wire(),
                    ),
                )
            },
            Err(InitError::Malformed(e)) => {
                &&& spec_parse_err(buf@) == Some(e)
                &&& final(writer).sent() == old(writer).sent()
            },
            Err(InitError::NotInit) => {
                &&& spec_parse_err(buf@) is None
                &&& fuse_in_header::of_wire(
                    buf@.take(fuse_in_header::wire_size() as int),
                ).opcode != FUSE_INIT
                &&& final(writer).sent() == old(writer).sent()
            },
            Err(InitError::Io(_)) => {
                &&& spec_parse_err(buf@) is None
                &&& fuse_in_header::of_wire(
                    buf@.take(fuse_in_header::wire_size() as int),
                ).opcode == FUSE_INIT
                &&& final(writer).sent() == old(writer).sent()
            },
        },
{
    let own_proto = ProtocolVersion {
        major: FUSE_KERNEL_VERSION,
        minor: FUSE_KERNEL_MINOR_VERSION,
    };
    let (cx, op) = match FuseContext::new(buf, own_proto) {
        Ok(parsed) => parsed,
        Err(e) => {
            return Err(InitError::Malformed(e));
        },
    };
    match op {
        Operation::Init(init) => {
            let client_major: u32 = init.major();
            let client_minor: u32 = init.minor();
            let mut reply = ReplyInit::default();
            reply.major(FUSE_KERNEL_VERSION);
            reply.minor(FUSE_KERNEL_MINOR_VERSION);
            reply.max_readahead(init.max_readahead());
            reply.flags(config.init_flags);
            reply.max_background(config.max_background);
            reply.congestion_threshold(CONGESTION_THRESHOLD);
            reply.max_write(config.max_write);
            reply.time_gran(TIME_GRAN);
            reply.max_pages(0);
            proof {
                fuse_init_out::lemma_wire_len(reply.spec_out());
            }
            match cx.reply(writer, &init, reply) {
                Ok(()) => Ok(ProtocolVersion { major: client_major, minor: client_minor }),
                Err(e) => Err(InitError::Io(e)),
            }
        },
        _ => Err(InitError::NotInit),
    }
}

/// The error of a frame that cannot be answered.
#[derive(Debug, Clone, Copy, PartialEq, Eq, Structural)]
pub enum ProcessError {
    /// The frame contradicts the protocol — shorter than a header, or
    /// its declared length disagrees with what was read. The kernel
    /// and the runtime disagree; the session is unrecoverable.
    BadFrame(DecodeError),
    /// Sending a reply failed with this OS error.
    Io(i32),
}

/// Handles one steady-state frame: parses it, dispatches a well-formed
/// request to the filesystem, answers an unknown opcode with `ENOSYS`
/// and a malformed body with `EINVAL`, and reports a frame whose
/// header cannot be trusted.
pub fn process_frame<W: FuseWrite, F: FileSystem>(
    fs: &F,
    writer: &mut W,
    buf: &[u8],
    proto: ProtocolVersion,
) -> (r: Result<(), ProcessError>)
    ensures
        r matches Err(ProcessError::BadFrame(_)) ==> buf@.len() < fuse_in_header::wire_size()
            || fuse_in_header::of_wire(buf@.take(fuse_in_header::wire_size() as int)).len as int
            != buf@.len() as int,
        buf@.len() < fuse_in_header::wire_size() ==> r == Err::<(), ProcessError>(
            ProcessError::BadFrame(DecodeError::NotEnough),
        ) && final(writer).sent() == old(writer).sent(),
        buf@.len() >= fuse_in_header::wire_size() ==> {
            let h = fuse_in_header::of_wire(buf@.take(fuse_in_header::wire_size() as int));
            let rest = buf@.skip(fuse_in_header::wire_size() as int);
            &&& (h.len as int != buf@.len() as int ==> r == Err::<(), ProcessError>(
                ProcessError::BadFrame(DecodeError::InvalidValue),
            ) && final(writer).sent() == old(writer).sent())
            &&& (h.len as int == buf@.len() as int && !opcode_known(h.opcode) ==> match r {
                Ok(()) => final(writer).sent() == old(writer).sent().push(
                    crate::context::spec_reply_frame(
                        h.unique,
                        crate::context::spec_neg_errno(ENOSYS),
                        Seq::empty(),
                    ),
                ),
                Err(ProcessError::Io(_)) => final(writer).sent() == old(writer).sent(),
                Err(ProcessError::BadFrame(_)) => false,
            })
            &&& (h.len as int == buf@.len() as int && opcode_known(h.opcode) && spec_body_err(
                h.opcode,
                rest,
            ) is Some ==> match r {
                Ok(()) => final(writer).sent() == old(writer).sent().push(
                    crate::context::spec_reply_frame(
                        h.unique,
                        crate::context::spec_neg_errno(EINVAL),
                        Seq::empty(),
                    ),
                ),
                Err(ProcessError::Io(_)) => final(writer).sent() == old(writer).sent(),
                Err(ProcessError::BadFrame(_)) => false,
            })
        },
{
    let blen: usize = buf.len();
    if blen < 40 {
        proof {
            assert(fuse_in_header::wire_size() == 40);
        }
        return Err(ProcessError::BadFrame(DecodeError::NotEnough));
    }
    let header = fuse_in_header::read_wire(buf, 0);
    proof {
        assert(buf@.subrange(0, fuse_in_header::wire_size() as int) =~= buf@.take(
            fuse_in_header::wire_size() as int,
        ));
    }
    if header.len as usize != blen {
        return Err(ProcessError::BadFrame(DecodeError::InvalidValue));
    }
    if !opcode_is_known(header.opcode) {
        return match send_error_reply(writer, header.unique, Errno::new(ENOSYS)) {
            Ok(()) => Ok(()),
            Err(e) => Err(ProcessError::Io(e)),
        };
    }
    match FuseContext::new(buf, proto) {
        Ok((cx, op)) => match fs.dispatch(writer, cx, op) {
            Ok(()) => Ok(()),
            Err(e) => Err(ProcessError::Io(e)),
        },
        Err(_) => match send_error_reply(writer, header.unique, Errno::new(EINVAL)) {
            Ok(()) => Ok(()),
            Err(e) => Err(ProcessError::Io(e)),
        },
    }
}

} // verus!
