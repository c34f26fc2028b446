//! The queue handle and the system calls it prepares.
//!
//! Nothing here enters the kernel. Each operation of a [`MessageQueue`]
//! returns a value that says exactly which system call to make and with
//! which arguments; once the call has been made, `complete` on that value
//! turns what the kernel answered into the operation's result.

use vstd::prelude::*;
use libc::c_int;
use libc::c_long;
use libc::size_t;
use libc::ssize_t;
use crate::flags::NewMessageQueueFlags;
use crate::flags::SendReceiveFlags;

verus! {

/// Capacity in bytes of the text part of a message buffer, and so the
/// longest payload a message can carry.
pub const BUFFER_SIZE: usize = 2048;

/// The key that asks the kernel for a fresh queue no other key leads to.
pub const IPC_PRIVATE: i32 = 0;

/// What a system call returns when it failed.
pub const FAILED: c_int = -1;

/// The commands of the control call.
#[derive(Clone, Copy, Debug, PartialEq, Eq, Structural)]
pub enum QueueOperation {
    /// Destroy the queue for every process.
    Remove,
    /// Write the queue's settings.
    SetStatus,
    /// Read the queue's settings.
    Status,
}

impl QueueOperation {
    /// The number the kernel knows the command by.
    pub open spec fn spec_code(&self) -> c_int {
        match self {
            QueueOperation::Remove => 0,
            QueueOperation::SetStatus => 1,
            QueueOperation::Status => 2,
        }
    }

    /// The number the kernel knows the command by.
    #[verifier::when_used_as_spec(spec_code)]
    pub fn code(&self) -> (r: c_int)
        ensures
            r == self.code(),
    {
        match self {
            QueueOperation::Remove => 0,
            QueueOperation::SetStatus => 1,
            QueueOperation::Status => 2,
        }
    }
}

/// A failure the operating system reported, with the status it gave.
#[derive(Clone, Copy, Debug, PartialEq, Eq, Structural)]
pub struct OsError {
    pub errno: c_int,
}

/// A payload that is too long to be sent, with its length.
#[derive(Clone, Copy, Debug, PartialEq, Eq, Structural)]
pub struct PayloadTooLarge {
    pub len: usize,
}

/// The fixed-layout message that the kernel reads on a send and fills on a
/// receive.
#[derive(Clone, Copy, Debug)]
pub struct MsgBuf {
    pub mtype: c_long,
    pub mtext: [u8; BUFFER_SIZE],
}

/// A payload followed by zeros up to the capacity of a message buffer.
pub open spec fn padded(payload: Seq<u8>) -> Seq<u8> {
    Seq::new(BUFFER_SIZE as nat, |i: int| if i < payload.len() { payload[i] } else { 0u8 })
}

/// An open queue: the owner of one kernel-assigned queue identifier.
///
/// A handle comes only from a completed [`GetCall`], and [`MessageQueue::remove`]
/// takes it away, so a queue that this process destroyed cannot be used again
/// through the handle that destroyed it.
#[derive(Debug)]
pub struct MessageQueue {
    msqid: c_int,
}

/// The call that opens a queue: `msgget(key, msgflg)`.
#[derive(Debug)]
pub struct GetCall {
    pub key: i32,
    pub msgflg: c_int,
}

/// The call that sends a message: `msgsnd(msqid, &buffer, msgsz, msgflg)`.
#[derive(Debug)]
pub struct SendCall {
    pub msqid: c_int,
    pub buffer: MsgBuf,
    pub msgsz: size_t,
    pub msgflg: c_int,
}

/// The call that receives a message: `msgrcv(msqid, &mut buffer, msgsz,
/// msgtyp, msgflg)`. The kernel writes the message to `buffer`.
#[derive(Debug)]
pub struct ReceiveCall {
    pub msqid: c_int,
    pub buffer: MsgBuf,
    pub msgsz: size_t,
    pub msgtyp: c_long,
    pub msgflg: c_int,
}

/// The call that controls a queue: `msgctl(msqid, cmd, null)`.
#[derive(Debug)]
pub struct ControlCall {
    pub msqid: c_int,
    pub cmd: c_int,
}

impl MessageQueue {
    /// The identifier the kernel assigned to the queue.
    pub closed spec fn spec_msqid(&self) -> c_int {
        self.msqid
    }

    #[verifier::type_invariant]
    spec fn bound(self) -> bool {
        self.msqid != FAILED
    }

    /// The identifier the kernel assigned to the queue. It is never the value
    /// that stands for a failed call.
    #[verifier::when_used_as_spec(spec_msqid)]
    pub fn msqid(&self) -> (r: c_int)
        ensures
            r == self.msqid(),
            r != FAILED,
    {
        proof {
            use_type_invariant(self);
        }
        self.msqid
    }

    /// Prepares the call that opens the queue with key `id`, creating it as
    /// `flags` say. Every key is accepted; `IPC_PRIVATE` asks for a fresh queue.
    pub fn new(id: i32, flags: NewMessageQueueFlags) -> (call: GetCall)
        ensures
            call.key == id,
            call.msgflg == flags.bits(),
    {
        GetCall { key: id, msgflg: flags.bits() }
    }

    /// Prepares the call that sends `message` with the tag `msg_type`.
    ///
    /// A message longer than `BUFFER_SIZE` is rejected and no call is prepared.
    /// Otherwise the buffer starts with the message and is zero from there on,
    /// and the call's size is the message's length, so the padding is not sent.
    pub fn send(&self, msg_type: i32, message: &[u8], flags: SendReceiveFlags) -> (r: Result<
        SendCall,
        PayloadTooLarge,
    >)
        ensures
            message@.len() > BUFFER_SIZE ==> r == Err::<SendCall, PayloadTooLarge>(
                PayloadTooLarge { len: message@.len() as usize },
            ),
            message@.len() <= BUFFER_SIZE ==> r is Ok && r->Ok_0.sends(
                self.msqid(),
                msg_type,
                message@,
                flags.bits(),
            ),
    {
        if message.len() > BUFFER_SIZE {
            return Err(PayloadTooLarge { len: message.len() });
        }
        let mut mtext = [0u8; BUFFER_SIZE];
        let mut i: usize = 0;
        while i < message.len()
            invariant
                i <= message@.len() <= BUFFER_SIZE,
                forall|j: int| 0 <= j < i ==> mtext@[j] == message@[j],
                forall|j: int| i <= j < BUFFER_SIZE ==> mtext@[j] == 0u8,
            decreases message@.len() - i,
        {
            mtext[i] = message[i];
            i += 1;
        }
        assert(mtext@ =~= padded(message@));
        Ok(
            SendCall {
                msqid: self.msqid,
                buffer: MsgBuf { mtype: msg_type as c_long, mtext },
                msgsz: message.len(),
                msgflg: flags.bits(),
            },
        )
    }

    /// Prepares the call that receives one message chosen by `msg_type`: zero
    /// for the oldest message, a positive tag for the oldest message with
    /// that tag, a negative one for the oldest message of the lowest tag up to
    /// its absolute value. The filter reaches the kernel with its sign. The
    /// buffer for the message is empty and has room for the longest message.
    pub fn receive(&self, msg_type: i32, flags: SendReceiveFlags) -> (call: ReceiveCall)
        ensures
            call.receives(self.msqid(), msg_type, flags.bits()),
    {
        let mtext = [0u8; BUFFER_SIZE];
        assert(mtext@ =~= padded(Seq::empty()));
        ReceiveCall {
            msqid: self.msqid,
            buffer: MsgBuf { mtype: 0, mtext },
            msgsz: BUFFER_SIZE,
            msgtyp: msg_type as c_long,
            msgflg: flags.bits(),
        }
    }

    /// Gives up the handle and prepares the call that destroys the queue for
    /// every process.
    pub fn remove(self) -> (call: ControlCall)
        ensures
            call.msqid == self.msqid(),
            call.cmd == QueueOperation::Remove.code(),
    {
        ControlCall { msqid: self.msqid, cmd: QueueOperation::Remove.code() }
    }
}

impl GetCall {
    /// The handle for the identifier the kernel returned, or the failure it
    /// reported.
    pub fn complete(self, ret: c_int, errno: c_int) -> (r: Result<MessageQueue, OsError>)
        ensures
            ret == FAILED ==> r == Err::<MessageQueue, OsError>(OsError { errno }),
            ret != FAILED ==> r is Ok && r->Ok_0.msqid() == ret,
    {
        if ret == FAILED {
            Err(OsError { errno })
        } else {
            Ok(MessageQueue { msqid: ret })
        }
    }
}

impl SendCall {
    /// Whether this is the call that sends `payload` with the tag `msg_type`
    /// to the queue `msqid` under the flags `msgflg`: the buffer starts with
    /// the payload and is zero from there on, and the size is the payload's.
    pub open spec fn sends(
        self,
        msqid: c_int,
        msg_type: i32,
        payload: Seq<u8>,
        msgflg: c_int,
    ) -> bool {
        &&& self.msqid == msqid
        &&& self.buffer.mtype == msg_type
        &&& self.buffer.mtext@ == padded(payload)
        &&& self.msgsz == payload.len()
        &&& self.msgflg == msgflg
    }

    /// Whether a receive that returned `ret` and left `buffer` was given the
    /// message of this call: as many bytes as were sent, the same bytes, and
    /// the same tag. What the buffer holds behind the message is open.
    pub open spec fn delivered_as(self, ret: ssize_t, buffer: MsgBuf) -> bool {
        &&& ret == self.msgsz
        &&& buffer.mtype == self.buffer.mtype
        &&& buffer.mtext@.subrange(0, ret as int) == self.buffer.mtext@.subrange(0, ret as int)
    }

    /// Success, or the failure the kernel reported.
    pub fn complete(self, ret: c_int, errno: c_int) -> (r: Result<(), OsError>)
        ensures
            r is Ok <==> ret != FAILED,
            r is Err ==> r == Err::<(), OsError>(OsError { errno }),
    {
        if ret == FAILED {
            Err(OsError { errno })
        } else {
            Ok(())
        }
    }
}

impl ReceiveCall {
    /// Whether this is the call that receives from the queue `msqid` the
    /// message that the filter `msg_type` selects, under the flags `msgflg`:
    /// the buffer is all zero and its whole text may be written.
    pub open spec fn receives(self, msqid: c_int, msg_type: i32, msgflg: c_int) -> bool {
        &&& self.msqid == msqid
        &&& self.buffer.mtype == 0
        &&& self.buffer.mtext@ == padded(Seq::empty())
        &&& self.msgsz == BUFFER_SIZE
        &&& self.msgtyp == msg_type
        &&& self.msgflg == msgflg
    }

    /// The message in the buffer after the kernel wrote `size` bytes of text
    /// to it: the tag, and exactly those bytes.
    pub open spec fn message(self, size: int) -> (i32, Seq<u8>) {
        (self.buffer.mtype as i32, self.buffer.mtext@.subrange(0, size))
    }

    /// The message the kernel delivered, or the failure it reported.
    ///
    /// `ret` is what the call returned, and the buffer is as the kernel left
    /// it. On success the payload is the first `ret` bytes of the buffer's
    /// text, no more, and the tag is the buffer's.
    pub fn complete(self, ret: ssize_t, errno: c_int) -> (r: Result<(i32, Vec<u8>), OsError>)
        requires
            FAILED <= ret <= BUFFER_SIZE,
        ensures
            ret == FAILED ==> r == Err::<(i32, Vec<u8>), OsError>(OsError { errno }),
            ret != FAILED ==> r is Ok && (r->Ok_0.0, r->Ok_0.1@) == self.message(ret as int),
    {
        if ret == FAILED as ssize_t {
            return Err(OsError { errno });
        }
        let size: usize = ret as usize;
        let mut result: Vec<u8> = Vec::new();
        let mut i: usize = 0;
        while i < size
            invariant
                i <= size <= BUFFER_SIZE,
                result@ == self.buffer.mtext@.subrange(0, i as int),
            decreases size - i,
        {
            result.push(self.buffer.mtext[i]);
            i += 1;
        }
        Ok((#[verifier::truncate] (self.buffer.mtype as i32), result))
    }
}

impl ControlCall {
    /// Success, or the failure the kernel reported.
    pub fn complete(self, ret: c_int, errno: c_int) -> (r: Result<(), OsError>)
        ensures
            r is Ok <==> ret != FAILED,
            r is Err ==> r == Err::<(), OsError>(OsError { errno }),
    {
        if ret == FAILED {
            Err(OsError { errno })
        } else {
            Ok(())
        }
    }
}

/// A message that is sent and then delivered comes back as it was: for every
/// payload that fits and every positive tag, a receive whose buffer the kernel
/// filled with the message of the send call holds that tag and that payload,
/// byte for byte and without the padding.
pub proof fn lemma_round_trip(
    sent: SendCall,
    received: ReceiveCall,
    ret: ssize_t,
    msqid: c_int,
    msg_type: i32,
    payload: Seq<u8>,
    msgflg: c_int,
)
    requires
        payload.len() <= BUFFER_SIZE,
        msg_type > 0,
        sent.sends(msqid, msg_type, payload, msgflg),
        sent.delivered_as(ret, received.buffer),
    ensures
        FAILED < ret <= BUFFER_SIZE,
        received.message(ret as int) == (msg_type, payload),
{
    let wide: c_long = msg_type as c_long;
    assert(wide as i32 == msg_type) by (bit_vector)
        requires
            wide == msg_type as c_long,
    ;
    assert(padded(payload).subrange(0, ret as int) =~= payload);
}

} // verus!
