//! The decisions of the command-line front end.
//!
//! The front end is invoked as `<prog> <command> <id> [<data>]`. The
//! functions here take the arguments as bytes and say what to do with them;
//! reading the arguments, entering the kernel and printing are left to the
//! program around them.
//!
//! Whatever is wrong with the arguments is found before the kernel is asked
//! for anything: a misused front end makes no system call and so creates no
//! queue.

use vstd::prelude::*;
use vstd::string::is_ascii;
use libc::c_int;
use crate::flags::NewMessageQueueFlags;
use crate::flags::SendReceiveFlags;
use crate::queue::ControlCall;
use crate::queue::GetCall;
use crate::queue::MessageQueue;
use crate::queue::OsError;
use crate::queue::QueueOperation;
use crate::queue::ReceiveCall;
use crate::queue::SendCall;
use crate::queue::BUFFER_SIZE;
use crate::queue::FAILED;

verus! {

/// A misuse of the front end: what can be wrong with its arguments.
#[derive(Clone, Copy, Debug, PartialEq, Eq, Structural)]
pub enum Violation {
    /// The queue identifier is no hexadecimal number of 32 bits.
    BadHexValue,
    /// The queue identifier is below zero.
    NegativeQueueId,
    /// `send` was given no data, or more than the data.
    NeedData,
    /// `receive` was given more than the identifier.
    TooManyArguments,
    /// The command is none of `send`, `receive` and `remove`.
    UnknownCommand,
    /// The data is longer than a message may be.
    PayloadTooLarge,
}

impl Violation {
    /// The words that tell the user what was wrong.
    pub fn message(&self) -> (text: &'static str)
        ensures
            text@ == match self {
                Violation::BadHexValue => "Bad hex value!"@,
                Violation::NegativeQueueId => "Queue ID needs to be more than 0"@,
                Violation::NeedData => "Need data to send command"@,
                Violation::TooManyArguments => "Too many arguments"@,
                Violation::UnknownCommand => "Unknown command"@,
                Violation::PayloadTooLarge => "Data is longer than a message may be"@,
            },
    {
        match self {
            Violation::BadHexValue => "Bad hex value!",
            Violation::NegativeQueueId => "Queue ID needs to be more than 0",
            Violation::NeedData => "Need data to send command",
            Violation::TooManyArguments => "Too many arguments",
            Violation::UnknownCommand => "Unknown command",
            Violation::PayloadTooLarge => "Data is longer than a message may be",
        }
    }
}

/// What the front end can be asked to do with a queue.
#[derive(Clone, Copy, Debug, PartialEq, Eq, Structural)]
pub enum Command {
    /// Send the data as a message of type 1.
    Send,
    /// Receive the oldest message and print it.
    Receive,
    /// Destroy the queue.
    Remove,
}

/// The value of a hexadecimal digit, for the bytes that are one.
pub open spec fn digit_value(c: u8) -> Option<int> {
    if '0' as u8 <= c <= '9' as u8 {
        Some(c - '0' as u8)
    } else if 'a' as u8 <= c <= 'f' as u8 {
        Some(c - 'a' as u8 + 10)
    } else if 'A' as u8 <= c <= 'F' as u8 {
        Some(c - 'A' as u8 + 10)
    } else {
        None
    }
}

/// Whether every byte is a hexadecimal digit.
pub open spec fn all_digits(digits: Seq<u8>) -> bool {
    forall|i: int| 0 <= i < digits.len() ==> (#[trigger] digit_value(digits[i])) is Some
}

/// The number that hexadecimal digits spell, the first digit counting most.
pub open spec fn magnitude(digits: Seq<u8>) -> int
    decreases digits.len(),
{
    if digits.len() == 0 {
        0
    } else {
        16 * magnitude(digits.drop_last()) + digit_value(digits.last()).unwrap()
    }
}

/// The number that a text spells: one sign at most, then one hexadecimal digit
/// at least, and nothing else.
pub open spec fn signed_value(text: Seq<u8>) -> Option<int> {
    let signed = text.len() > 0 && (text[0] == '+' as u8 || text[0] == '-' as u8);
    let digits = if signed {
        text.skip(1)
    } else {
        text
    };
    if digits.len() == 0 || !all_digits(digits) {
        None
    } else if signed && text[0] == '-' as u8 {
        Some(-magnitude(digits))
    } else {
        Some(magnitude(digits))
    }
}

/// A text without its leading `0x` or `0X`, where something follows the prefix.
pub open spec fn unprefixed(text: Seq<u8>) -> Seq<u8> {
    if text.len() >= 3 && text[0] == '0' as u8 && (text[1] == 'x' as u8 || text[1] == 'X' as u8) {
        text.skip(2)
    } else {
        text
    }
}

/// The queue identifier that an argument names: the hexadecimal number it
/// spells, with or without prefix, where that number fits 32 bits and is not
/// negative.
pub open spec fn queue_id(text: Seq<u8>) -> Result<i32, Violation> {
    match signed_value(unprefixed(text)) {
        None => Err(Violation::BadHexValue),
        Some(value) => if value < i32::MIN || value > i32::MAX {
            Err(Violation::BadHexValue)
        } else if value < 0 {
            Err(Violation::NegativeQueueId)
        } else {
            Ok(value as i32)
        },
    }
}

/// Digits that start with given digits spell no smaller number.
proof fn lemma_magnitude_grows(digits: Seq<u8>, n: int)
    requires
        0 <= n <= digits.len(),
        all_digits(digits),
    ensures
        0 <= magnitude(digits.take(n)) <= magnitude(digits),
    decreases digits.len(),
{
    if digits.len() == 0 {
        assert(digits.take(n) =~= digits);
    } else if n == digits.len() {
        assert(digits.take(n) =~= digits);
        assert(digit_value(digits[digits.len() - 1]) is Some);
        lemma_magnitude_grows(digits.drop_last(), n - 1);
    } else {
        assert(digit_value(digits[digits.len() - 1]) is Some);
        assert forall|i: int| 0 <= i < digits.drop_last().len() implies (#[trigger] digit_value(
            digits.drop_last()[i],
        )) is Some by {
            assert(digit_value(digits[i]) is Some);
        }
        lemma_magnitude_grows(digits.drop_last(), n);
        assert(digits.drop_last().take(n) =~= digits.take(n));
    }
}

/// The value of a byte as a hexadecimal digit.
fn hex_digit(c: u8) -> (r: Option<u8>)
    ensures
        r is Some <==> digit_value(c) is Some,
        r matches Some(d) ==> digit_value(c) == Some(d as int) && d < 16,
{
    if c >= '0' as u8 && c <= '9' as u8 {
        Some(c - '0' as u8)
    } else if c >= 'a' as u8 && c <= 'f' as u8 {
        Some(c - 'a' as u8 + 10)
    } else if c >= 'A' as u8 && c <= 'F' as u8 {
        Some(c - 'A' as u8 + 10)
    } else {
        None
    }
}

/// Reads the queue identifier that an argument names.
pub fn parse_queue_id(text: &[u8]) -> (r: Result<i32, Violation>)
    ensures
        r == queue_id(text@),
{
    let len = text.len();
    let prefixed = len >= 3 && text[0] == '0' as u8 && (text[1] == 'x' as u8 || text[1]
        == 'X' as u8);
    let begin: usize = if prefixed {
        2
    } else {
        0
    };
    let ghost body = unprefixed(text@);
    assert(body =~= text@.skip(begin as int));
    let signed = begin < len && (text[begin] == '+' as u8 || text[begin] == '-' as u8);
    let negative = signed && text[begin] == '-' as u8;
    let first: usize = if signed {
        begin + 1
    } else {
        begin
    };
    let ghost digits = text@.skip(first as int);
    assert(digits =~= if signed {
        body.skip(1)
    } else {
        body
    });
    if first == len {
        return Err(Violation::BadHexValue);
    }
    assert(signed_value(body) == if !all_digits(digits) {
        None
    } else if negative {
        Some(-magnitude(digits))
    } else {
        Some(magnitude(digits))
    });
    let mut value: i64 = 0;
    let mut i: usize = first;
    while i < len
        invariant
            first <= i <= len == text@.len(),
            digits == text@.skip(first as int),
            signed_value(unprefixed(text@)) == if !all_digits(digits) {
                None
            } else if negative {
                Some(-magnitude(digits))
            } else {
                Some(magnitude(digits))
            },
            all_digits(digits.take(i - first)),
            value == magnitude(digits.take(i - first)),
            0 <= value <= 0x8000_0000,
        decreases len - i,
    {
        let ghost seen = digits.take(i - first);
        let ghost more = digits.take(i + 1 - first);
        assert(more.drop_last() =~= seen);
        assert(more.last() == text@[i as int]);
        match hex_digit(text[i]) {
            None => {
                assert(!all_digits(digits)) by {
                    assert(digit_value(digits[i - first]) is None);
                }
                return Err(Violation::BadHexValue);
            },
            Some(d) => {
                assert forall|j: int| 0 <= j < more.len() implies (#[trigger] digit_value(
                    more[j],
                )) is Some by {
                    if j < seen.len() {
                        assert(digit_value(seen[j]) is Some);
                    }
                }
                value = value * 16 + d as i64;
                if value > 0x8000_0000 {
                    proof {
                        if all_digits(digits) {
                            lemma_magnitude_grows(digits, i + 1 - first);
                        }
                    }
                    return Err(Violation::BadHexValue);
                }
            },
        }
        i += 1;
    }
    assert(digits.take(len - first) =~= digits);
    if negative {
        if value == 0 {
            Ok(0)
        } else {
            Err(Violation::NegativeQueueId)
        }
    } else if value > 0x7fff_ffff {
        Err(Violation::BadHexValue)
    } else {
        Ok(value as i32)
    }
}

/// The bytes of a text of ASCII characters.
pub open spec fn ascii(text: Seq<char>) -> Seq<u8> {
    Seq::new(text.len(), |i: int| text[i] as u8)
}

/// The command that a word names when the front end was given `count`
/// arguments in all, the program's name among them. `send` takes the
/// identifier and the data, `receive` the identifier alone.
pub open spec fn command(word: Seq<u8>, count: int) -> Result<Command, Violation> {
    if word == ascii("send"@) {
        if count == 4 {
            Ok(Command::Send)
        } else {
            Err(Violation::NeedData)
        }
    } else if word == ascii("receive"@) {
        if count == 3 {
            Ok(Command::Receive)
        } else {
            Err(Violation::TooManyArguments)
        }
    } else if word == ascii("remove"@) {
        Ok(Command::Remove)
    } else {
        Err(Violation::UnknownCommand)
    }
}

/// Whether a word is a given name, byte for byte.
fn spells(word: &[u8], name: &str) -> (r: bool)
    requires
        is_ascii(name),
    ensures
        r <==> word@ == ascii(name@),
{
    broadcast use vstd::string::is_ascii_spec_bytes;

    let letters = name.as_bytes();
    if word.len() != letters.len() {
        return false;
    }
    let mut i: usize = 0;
    while i < word.len()
        invariant
            i <= word@.len() == letters@.len(),
            letters@ == ascii(name@),
            forall|j: int| 0 <= j < i ==> word@[j] == letters@[j],
        decreases word@.len() - i,
    {
        if word[i] != letters[i] {
            return false;
        }
        i += 1;
    }
    assert(word@ =~= letters@);
    true
}

/// Reads the command that a word names when the front end was given `count`
/// arguments in all.
pub fn parse_command(word: &[u8], count: usize) -> (r: Result<Command, Violation>)
    ensures
        r == command(word@, count as int),
{
    proof {
        reveal_strlit("send");
        reveal_strlit("receive");
        reveal_strlit("remove");
    }
    if spells(word, "send") {
        if count == 4 {
            Ok(Command::Send)
        } else {
            Err(Violation::NeedData)
        }
    } else if spells(word, "receive") {
        if count == 3 {
            Ok(Command::Receive)
        } else {
            Err(Violation::TooManyArguments)
        }
    } else if spells(word, "remove") {
        Ok(Command::Remove)
    } else {
        Err(Violation::UnknownCommand)
    }
}

/// An invocation with nothing wrong in its arguments: the call that opens
/// the queue, and what is to be done once it is open.
#[derive(Debug)]
pub struct Invocation {
    open: GetCall,
    command: Command,
    data: Vec<u8>,
}

/// What the front end does first.
#[derive(Debug)]
pub enum Start {
    /// Print the usage line and leave without an error.
    Usage,
    /// Open the queue.
    Open(Invocation),
}

/// The call that the front end makes on the open queue.
#[derive(Debug)]
pub enum Operation {
    Send(SendCall),
    Receive(ReceiveCall),
    Remove(ControlCall),
}

/// The arguments as bytes, the program's name first.
pub open spec fn words(args: &Vec<Vec<u8>>) -> Seq<Seq<u8>> {
    Seq::new(args@.len(), |i: int| args@[i]@)
}

/// The data that the arguments hold: the last of four where the command is
/// `send`, nothing for the other commands.
pub open spec fn data(args: Seq<Seq<u8>>) -> Seq<u8> {
    if command(args[1], args.len() as int) == Ok::<Command, Violation>(Command::Send) {
        args[3]
    } else {
        Seq::empty()
    }
}

/// What three arguments or more ask for: the queue and the command, or the
/// first thing wrong with them. The identifier is judged first, then the
/// command with the number of arguments, then the length of the data.
pub open spec fn request(args: Seq<Seq<u8>>) -> Result<(i32, Command), Violation> {
    match queue_id(args[2]) {
        Err(violation) => Err(violation),
        Ok(id) => match command(args[1], args.len() as int) {
            Err(violation) => Err(violation),
            Ok(command) => if data(args).len() > BUFFER_SIZE {
                Err(Violation::PayloadTooLarge)
            } else {
                Ok((id, command))
            },
        },
    }
}

/// The flags the front end opens its queue with: create it if it is missing,
/// for its owner alone.
pub open spec fn opening_flags() -> c_int {
    0o1700
}

/// Decides what the front end does first, from all its arguments, the
/// program's name among them.
///
/// With fewer than two arguments after the name it prints its usage. Else it
/// opens the queue that the second of them names, but only where nothing is
/// wrong with the arguments: a bad identifier, an unknown command, a wrong
/// number of arguments for the command and data too long to send are each
/// reported here, before the kernel is asked for anything.
pub fn start(args: &Vec<Vec<u8>>) -> (r: Result<Start, Violation>)
    ensures
        args@.len() < 3 ==> r == Ok::<Start, Violation>(Start::Usage),
        args@.len() >= 3 ==> match request(words(args)) {
            Err(violation) => r == Err::<Start, Violation>(violation),
            Ok((id, command)) => {
                &&& r matches Ok(Start::Open(invocation))
                &&& invocation.open_call() == (GetCall { key: id, msgflg: opening_flags() })
                &&& invocation.command() == command
                &&& invocation.payload() == data(words(args))
            },
        },
{
    let count = args.len();
    if count < 3 {
        return Ok(Start::Usage);
    }
    let id = match parse_queue_id(args[2].as_slice()) {
        Ok(id) => id,
        Err(violation) => {
            return Err(violation);
        },
    };
    let command = match parse_command(args[1].as_slice(), count) {
        Ok(command) => command,
        Err(violation) => {
            return Err(violation);
        },
    };
    let mut data: Vec<u8> = Vec::new();
    if let Command::Send = command {
        let given = &args[3];
        if given.len() > BUFFER_SIZE {
            return Err(Violation::PayloadTooLarge);
        }
        let mut i: usize = 0;
        while i < given.len()
            invariant
                i <= given@.len(),
                data@ == given@.take(i as int),
            decreases given@.len() - i,
        {
            data.push(given[i]);
            i += 1;
        }
        assert(data@ =~= given@);
    }
    let open = MessageQueue::new(id, NewMessageQueueFlags::default());
    Ok(Start::Open(Invocation { open, command, data }))
}

impl Invocation {
    /// The call that opens the queue.
    pub closed spec fn spec_open_call(&self) -> &GetCall {
        &self.open
    }

    /// What is to be done with the open queue.
    pub closed spec fn spec_command(&self) -> Command {
        self.command
    }

    /// The data to send; empty where the command is not `send`.
    pub closed spec fn payload(&self) -> Seq<u8> {
        self.data@
    }

    #[verifier::type_invariant]
    spec fn sendable(self) -> bool {
        self.data@.len() <= BUFFER_SIZE
    }

    /// The call that opens the queue.
    #[verifier::when_used_as_spec(spec_open_call)]
    pub fn open_call(&self) -> (call: &GetCall)
        ensures
            call == self.open_call(),
    {
        &self.open
    }

    /// What is to be done with the open queue.
    #[verifier::when_used_as_spec(spec_command)]
    pub fn command(&self) -> (command: Command)
        ensures
            command == self.command(),
    {
        self.command
    }

    /// Decides what the front end does once the kernel has answered the call
    /// that opens the queue.
    ///
    /// Where that call failed, the front end gives up with the status the
    /// kernel reported. On an open queue `send` sends the data as a message
    /// of type 1, `receive` asks for the oldest message of any type, `remove`
    /// destroys the queue; all of them with no flag set.
    pub fn opened(self, ret: c_int, errno: c_int) -> (r: Result<Operation, OsError>)
        ensures
            ret == FAILED ==> r == Err::<Operation, OsError>(OsError { errno }),
            ret != FAILED ==> match self.command() {
                Command::Send => r matches Ok(Operation::Send(call)) && call.sends(
                    ret,
                    1,
                    self.payload(),
                    0,
                ),
                Command::Receive => r matches Ok(Operation::Receive(call)) && call.receives(
                    ret,
                    0,
                    0,
                ),
                Command::Remove => r == Ok::<Operation, OsError>(
                    Operation::Remove(
                        ControlCall { msqid: ret, cmd: QueueOperation::Remove.code() },
                    ),
                ),
            },
    {
        proof {
            use_type_invariant(&self);
        }
        let queue = match self.open.complete(ret, errno) {
            Ok(queue) => queue,
            Err(error) => {
                return Err(error);
            },
        };
        match self.command {
            Command::Send => match queue.send(1, self.data.as_slice(), SendReceiveFlags::default()) {
                Ok(call) => Ok(Operation::Send(call)),
                Err(_) => unreached(),
            },
            Command::Receive => Ok(
                Operation::Receive(queue.receive(0, SendReceiveFlags::default())),
            ),
            Command::Remove => Ok(Operation::Remove(queue.remove())),
        }
    }
}

} // verus!
