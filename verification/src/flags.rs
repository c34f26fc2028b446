//! Bit sets handed to the kernel with each call.
//!
//! A set of flags is an integer in which every option owns one bit. The
//! integer is what the kernel reads, so each named option carries exactly
//! the value the kernel expects, and a set never holds a bit that has no
//! name.

use vstd::prelude::*;
use libc::c_int;

verus! {

/// Create the queue when none has the key yet.
pub const IPC_CREAT: c_int = 0o1000;

/// Fail when a queue with the key already exists.
pub const IPC_EXCL: c_int = 0o2000;

/// The owner may receive.
pub const USER_READ: c_int = 0o400;

/// The owner may send.
pub const USER_WRITE: c_int = 0o200;

/// The owner's execute bit.
pub const USER_EXECUTE: c_int = 0o100;

/// The group may receive.
pub const GROUP_READ: c_int = 0o040;

/// The group may send.
pub const GROUP_WRITE: c_int = 0o020;

/// The group's execute bit.
pub const GROUP_EXECUTE: c_int = 0o010;

/// Everyone else may receive.
pub const OTHER_READ: c_int = 0o004;

/// Everyone else may send.
pub const OTHER_WRITE: c_int = 0o002;

/// The execute bit of everyone else.
pub const OTHER_EXECUTE: c_int = 0o001;

/// All three owner bits.
pub const USER_RWX: c_int = 0o700;

/// All three group bits.
pub const GROUP_RWX: c_int = 0o070;

/// All three bits of everyone else.
pub const OTHER_RWX: c_int = 0o007;

/// Every bit a set of creation flags may hold.
pub const CREATION_BITS: c_int = 0o3777;

/// Return at once with an error where the call would have to wait.
pub const IPC_NOWAIT: c_int = 0o04000;

/// Cut a message that is longer than the buffer instead of failing.
pub const MSG_NOERROR: c_int = 0o10000;

/// Every bit a set of send and receive flags may hold.
pub const TRANSFER_BITS: c_int = 0o14000;

/// Whether every bit of `part` is set in `whole`.
pub open spec fn includes(whole: c_int, part: c_int) -> bool {
    whole & part == part
}

proof fn lemma_creation_bits()
    by (bit_vector)
    ensures
        includes(CREATION_BITS, 0),
        includes(CREATION_BITS, IPC_CREAT),
        includes(CREATION_BITS, IPC_EXCL),
        includes(CREATION_BITS, USER_READ),
        includes(CREATION_BITS, USER_WRITE),
        includes(CREATION_BITS, USER_EXECUTE),
        includes(CREATION_BITS, GROUP_READ),
        includes(CREATION_BITS, GROUP_WRITE),
        includes(CREATION_BITS, GROUP_EXECUTE),
        includes(CREATION_BITS, OTHER_READ),
        includes(CREATION_BITS, OTHER_WRITE),
        includes(CREATION_BITS, OTHER_EXECUTE),
        includes(CREATION_BITS, USER_RWX),
        includes(CREATION_BITS, GROUP_RWX),
        includes(CREATION_BITS, OTHER_RWX),
        includes(CREATION_BITS, CREATION_BITS),
        IPC_CREAT | USER_RWX == 0o1700,
{
}

proof fn lemma_transfer_bits()
    by (bit_vector)
    ensures
        includes(TRANSFER_BITS, 0),
        includes(TRANSFER_BITS, IPC_NOWAIT),
        includes(TRANSFER_BITS, MSG_NOERROR),
        includes(TRANSFER_BITS, TRANSFER_BITS),
{
}

proof fn lemma_union_included(a: c_int, b: c_int, known: c_int)
    by (bit_vector)
    requires
        includes(known, a),
        includes(known, b),
    ensures
        includes(known, a | b),
{
}

proof fn lemma_truncated_included(bits: c_int, known: c_int)
    by (bit_vector)
    ensures
        includes(known, bits & known),
{
}

/// Options for opening a queue: whether it may or must be created, and the
/// nine permission bits it is created with.
#[derive(Clone, Copy, Debug, PartialEq, Eq, Structural)]
pub struct NewMessageQueueFlags {
    bits: c_int,
}

impl NewMessageQueueFlags {
    /// The integer the kernel is given for this set.
    pub closed spec fn spec_bits(&self) -> c_int {
        self.bits
    }

    #[verifier::type_invariant]
    spec fn named_bits_only(self) -> bool {
        includes(CREATION_BITS, self.bits)
    }

    /// The integer the kernel is given for this set. It holds named bits only.
    #[verifier::when_used_as_spec(spec_bits)]
    pub fn bits(&self) -> (r: c_int)
        ensures
            r == self.bits(),
            includes(CREATION_BITS, r),
    {
        proof {
            use_type_invariant(self);
        }
        self.bits
    }

    /// The set without any option.
    pub fn empty() -> (r: Self)
        ensures
            r.bits() == 0,
    {
        proof {
            lemma_creation_bits();
        }
        NewMessageQueueFlags { bits: 0 }
    }

    /// The set of every option.
    pub fn all() -> (r: Self)
        ensures
            r.bits() == CREATION_BITS,
    {
        proof {
            lemma_creation_bits();
        }
        NewMessageQueueFlags { bits: CREATION_BITS }
    }

    /// The set for an integer, where the integer holds named bits only.
    pub fn from_bits(bits: c_int) -> (r: Option<Self>)
        ensures
            r is Some <==> includes(CREATION_BITS, bits),
            r matches Some(flags) ==> flags.bits() == bits,
    {
        if CREATION_BITS & bits == bits {
            Some(NewMessageQueueFlags { bits })
        } else {
            None
        }
    }

    /// The set of the named bits of an integer; its other bits are dropped.
    pub fn from_bits_truncate(bits: c_int) -> (r: Self)
        ensures
            r.bits() == bits & CREATION_BITS,
    {
        proof {
            lemma_truncated_included(bits, CREATION_BITS);
        }
        NewMessageQueueFlags { bits: bits & CREATION_BITS }
    }

    /// Create the queue when none has the key yet.
    pub fn ipc_creat() -> (r: Self)
        ensures
            r.bits() == IPC_CREAT,
    {
        proof {
            lemma_creation_bits();
        }
        NewMessageQueueFlags { bits: IPC_CREAT }
    }

    /// Fail when a queue with the key already exists.
    pub fn ipc_excl() -> (r: Self)
        ensures
            r.bits() == IPC_EXCL,
    {
        proof {
            lemma_creation_bits();
        }
        NewMessageQueueFlags { bits: IPC_EXCL }
    }

    /// The owner may receive.
    pub fn user_read() -> (r: Self)
        ensures
            r.bits() == USER_READ,
    {
        proof {
            lemma_creation_bits();
        }
        NewMessageQueueFlags { bits: USER_READ }
    }

    /// The owner may send.
    pub fn user_write() -> (r: Self)
        ensures
            r.bits() == USER_WRITE,
    {
        proof {
            lemma_creation_bits();
        }
        NewMessageQueueFlags { bits: USER_WRITE }
    }

    /// The owner's execute bit.
    pub fn user_execute() -> (r: Self)
        ensures
            r.bits() == USER_EXECUTE,
    {
        proof {
            lemma_creation_bits();
        }
        NewMessageQueueFlags { bits: USER_EXECUTE }
    }

    /// The group may receive.
    pub fn group_read() -> (r: Self)
        ensures
            r.bits() == GROUP_READ,
    {
        proof {
            lemma_creation_bits();
        }
        NewMessageQueueFlags { bits: GROUP_READ }
    }

    /// The group may send.
    pub fn group_write() -> (r: Self)
        ensures
            r.bits() == GROUP_WRITE,
    {
        proof {
            lemma_creation_bits();
        }
        NewMessageQueueFlags { bits: GROUP_WRITE }
    }

    /// The group's execute bit.
    pub fn group_execute() -> (r: Self)
        ensures
            r.bits() == GROUP_EXECUTE,
    {
        proof {
            lemma_creation_bits();
        }
        NewMessageQueueFlags { bits: GROUP_EXECUTE }
    }

    /// Everyone else may receive.
    pub fn other_read() -> (r: Self)
        ensures
            r.bits() == OTHER_READ,
    {
        proof {
            lemma_creation_bits();
        }
        NewMessageQueueFlags { bits: OTHER_READ }
    }

    /// Everyone else may send.
    pub fn other_write() -> (r: Self)
        ensures
            r.bits() == OTHER_WRITE,
    {
        proof {
            lemma_creation_bits();
        }
        NewMessageQueueFlags { bits: OTHER_WRITE }
    }

    /// The execute bit of everyone else.
    pub fn other_execute() -> (r: Self)
        ensures
            r.bits() == OTHER_EXECUTE,
    {
        proof {
            lemma_creation_bits();
        }
        NewMessageQueueFlags { bits: OTHER_EXECUTE }
    }

    /// All three owner bits.
    pub fn user_rwx() -> (r: Self)
        ensures
            r.bits() == USER_RWX,
    {
        proof {
            lemma_creation_bits();
        }
        NewMessageQueueFlags { bits: USER_RWX }
    }

    /// All three group bits.
    pub fn group_rwx() -> (r: Self)
        ensures
            r.bits() == GROUP_RWX,
    {
        proof {
            lemma_creation_bits();
        }
        NewMessageQueueFlags { bits: GROUP_RWX }
    }

    /// All three bits of everyone else.
    pub fn other_rwx() -> (r: Self)
        ensures
            r.bits() == OTHER_RWX,
    {
        proof {
            lemma_creation_bits();
        }
        NewMessageQueueFlags { bits: OTHER_RWX }
    }

    /// Whether the set holds no option.
    pub fn is_empty(&self) -> (r: bool)
        ensures
            r <==> self.bits() == 0,
    {
        self.bits == 0
    }

    /// Whether every option of `other` is in this set.
    pub fn contains(&self, other: Self) -> (r: bool)
        ensures
            r <==> includes(self.bits(), other.bits()),
    {
        self.bits & other.bits == other.bits
    }

    /// The options of this set together with those of `other`.
    pub fn union(self, other: Self) -> (r: Self)
        ensures
            r.bits() == self.bits() | other.bits(),
    {
        proof {
            use_type_invariant(self);
            use_type_invariant(other);
            lemma_union_included(self.bits, other.bits, CREATION_BITS);
        }
        NewMessageQueueFlags { bits: self.bits | other.bits }
    }
}

impl Default for NewMessageQueueFlags {
    /// Create the queue if it is missing, with every permission for its owner
    /// and none for anyone else.
    fn default() -> (r: Self)
        ensures
            r.bits() == IPC_CREAT | USER_RWX,
            r.bits() == 0o1700,
    {
        proof {
            lemma_creation_bits();
        }
        NewMessageQueueFlags::ipc_creat().union(NewMessageQueueFlags::user_rwx())
    }
}

/// Options for one send or receive: whether the call may wait, and whether a
/// message too long for the buffer may be cut.
#[derive(Clone, Copy, Debug, PartialEq, Eq, Structural)]
pub struct SendReceiveFlags {
    bits: c_int,
}

impl SendReceiveFlags {
    /// The integer the kernel is given for this set.
    pub closed spec fn spec_bits(&self) -> c_int {
        self.bits
    }

    #[verifier::type_invariant]
    spec fn named_bits_only(self) -> bool {
        includes(TRANSFER_BITS, self.bits)
    }

    /// The integer the kernel is given for this set. It holds named bits only.
    #[verifier::when_used_as_spec(spec_bits)]
    pub fn bits(&self) -> (r: c_int)
        ensures
            r == self.bits(),
            includes(TRANSFER_BITS, r),
    {
        proof {
            use_type_invariant(self);
        }
        self.bits
    }

    /// The set without any option: the call waits and a long message fails.
    pub fn empty() -> (r: Self)
        ensures
            r.bits() == 0,
    {
        proof {
            lemma_transfer_bits();
        }
        SendReceiveFlags { bits: 0 }
    }

    /// The set of both options.
    pub fn all() -> (r: Self)
        ensures
            r.bits() == TRANSFER_BITS,
    {
        proof {
            lemma_transfer_bits();
        }
        SendReceiveFlags { bits: TRANSFER_BITS }
    }

    /// The set for an integer, where the integer holds named bits only.
    pub fn from_bits(bits: c_int) -> (r: Option<Self>)
        ensures
            r is Some <==> includes(TRANSFER_BITS, bits),
            r matches Some(flags) ==> flags.bits() == bits,
    {
        if TRANSFER_BITS & bits == bits {
            Some(SendReceiveFlags { bits })
        } else {
            None
        }
    }

    /// The set of the named bits of an integer; its other bits are dropped.
    pub fn from_bits_truncate(bits: c_int) -> (r: Self)
        ensures
            r.bits() == bits & TRANSFER_BITS,
    {
        proof {
            lemma_truncated_included(bits, TRANSFER_BITS);
        }
        SendReceiveFlags { bits: bits & TRANSFER_BITS }
    }

    /// Return at once with an error where the call would have to wait.
    pub fn ipc_nowait() -> (r: Self)
        ensures
            r.bits() == IPC_NOWAIT,
    {
        proof {
            lemma_transfer_bits();
        }
        SendReceiveFlags { bits: IPC_NOWAIT }
    }

    /// Cut a message that is longer than the buffer instead of failing.
    pub fn msg_noerror() -> (r: Self)
        ensures
            r.bits() == MSG_NOERROR,
    {
        proof {
            lemma_transfer_bits();
        }
        SendReceiveFlags { bits: MSG_NOERROR }
    }

    /// Whether the set holds no option.
    pub fn is_empty(&self) -> (r: bool)
        ensures
            r <==> self.bits() == 0,
    {
        self.bits == 0
    }

    /// Whether every option of `other` is in this set.
    pub fn contains(&self, other: Self) -> (r: bool)
        ensures
            r <==> includes(self.bits(), other.bits()),
    {
        self.bits & other.bits == other.bits
    }

    /// The options of this set together with those of `other`.
    pub fn union(self, other: Self) -> (r: Self)
        ensures
            r.bits() == self.bits() | other.bits(),
    {
        proof {
            use_type_invariant(self);
            use_type_invariant(other);
            lemma_union_included(self.bits, other.bits, TRANSFER_BITS);
        }
        SendReceiveFlags { bits: self.bits | other.bits }
    }
}

impl Default for SendReceiveFlags {
    /// No option: the call waits and a long message fails.
    fn default() -> (r: Self)
        ensures
            r.bits() == 0,
    {
        SendReceiveFlags::empty()
    }
}

} // verus!
