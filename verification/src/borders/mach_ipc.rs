//! Mach IPC framing and connection state for `JankyBorders`.
//!
//! `JankyBorders` registers the bootstrap service `git.felix.borders`. A
//! message carries the arguments exactly like command-line arguments: each
//! one followed by a NUL byte, and one more NUL byte at the end, for example
//! `active_color=0xffff0000\0width=4.0\0\0`.

use vstd::prelude::*;

verus! {

/// The null Mach port.
pub const MACH_PORT_NULL: u32 = 0;

/// `JankyBorders` bootstrap service name.
pub const BS_NAME: &'static str = "git.felix.borders";

/// The arguments, each as UTF-8 bytes followed by a NUL byte.
pub open spec fn frames(args: Seq<Seq<char>>) -> Seq<u8>
    decreases args.len(),
{
    if args.len() == 0 {
        seq![]
    } else {
        frames(args.drop_last()) + vstd::utf8::encode_utf8(args.last()) + seq![0u8]
    }
}

/// The message body for `args`: the framed arguments and a final NUL byte.
pub open spec fn message_spec(args: Seq<Seq<char>>) -> Seq<u8> {
    frames(args) + seq![0u8]
}

/// The views of a sequence of strings.
pub open spec fn arg_views(s: Seq<&str>) -> Seq<Seq<char>> {
    s.map_values(|x: &str| x@)
}

/// Builds the message body that carries `args`.
pub fn encode_message(args: &[&str]) -> (r: Vec<u8>)
    ensures
        r@ == message_spec(arg_views(args@)),
{
    let mut message: Vec<u8> = Vec::new();
    let mut i: usize = 0;
    while i < args.len()
        invariant
            i <= args@.len(),
            message@ == frames(arg_views(args@).subrange(0, i as int)),
        decreases args@.len() - i,
    {
        let bytes = args[i].as_bytes();
        let ghost before = message@;
        let mut j: usize = 0;
        while j < bytes.len()
            invariant
                j <= bytes@.len(),
                message@ == before + bytes@.subrange(0, j as int),
            decreases bytes@.len() - j,
        {
            message.push(bytes[j]);
            assert(message@ =~= before + bytes@.subrange(0, j as int + 1));
            j = j + 1;
        }
        message.push(0u8);
        proof {
            let s = arg_views(args@).subrange(0, i as int + 1);
            assert(s.drop_last() =~= arg_views(args@).subrange(0, i as int));
            assert(s.last() == args@[i as int]@);
            assert(bytes@.subrange(0, bytes@.len() as int) =~= bytes@);
            assert(message@ =~= frames(s));
        }
        i = i + 1;
    }
    message.push(0u8);
    assert(arg_views(args@).subrange(0, args@.len() as int) =~= arg_views(args@));
    message
}

/// A connection to the `JankyBorders` service port.
#[derive(Debug, Clone, Copy)]
pub struct JankyConnection {
    /// The service port found through the bootstrap server.
    pub port: u32,
}

impl JankyConnection {
    /// Checks if the connection is still valid.
    pub fn is_valid(&self) -> (r: bool)
        ensures
            r == (self.port != MACH_PORT_NULL),
    {
        self.port != MACH_PORT_NULL
    }
}

/// What to transmit: the destination port and the message body.
pub struct Transmission {
    /// The destination port.
    pub port: u32,
    /// The message body.
    pub message: Vec<u8>,
}

/// The cached connection to `JankyBorders`, if any.
pub struct ConnectionSlot {
    /// The connection found at the last lookup.
    pub connection: Option<JankyConnection>,
}

impl ConnectionSlot {
    /// A slot holding the result of a service lookup.
    pub fn new(found: Option<JankyConnection>) -> (r: Self)
        ensures
            r.connection == found,
    {
        ConnectionSlot { connection: found }
    }

    /// Whether the slot holds a usable connection.
    pub open spec fn connected(&self) -> bool {
        self.connection matches Some(c) && c.port != MACH_PORT_NULL
    }
}

/// Checks if `JankyBorders` is accepting Mach IPC connections.
pub fn is_connected(slot: &ConnectionSlot) -> (r: bool)
    ensures
        r == slot.connected(),
{
    match slot.connection {
        Some(c) => c.is_valid(),
        None => false,
    }
}

/// Replaces the cached connection with the result of a new lookup.
///
/// Returns whether a connection was found.
pub fn reconnect(slot: &mut ConnectionSlot, found: Option<JankyConnection>) -> (r: bool)
    ensures
        final(slot).connection == found,
        r == found is Some,
{
    slot.connection = found;
    found.is_some()
}

/// Drops the cached connection, forcing a reconnect on next send.
pub fn invalidate(slot: &mut ConnectionSlot)
    ensures
        final(slot).connection is None,
{
    slot.connection = None;
}

/// Establishes a connection to `JankyBorders`: a cached connection is kept;
/// without one, the result of a new service lookup, `found`, is cached.
///
/// Returns whether a connection is now established.
pub fn connect(slot: &mut ConnectionSlot, found: Option<JankyConnection>) -> (r: bool)
    ensures
        old(slot).connection is Some ==> final(slot).connection == old(slot).connection && r,
        old(slot).connection is None ==> final(slot).connection == found && r == found is Some,
{
    if slot.connection.is_some() {
        true
    } else {
        slot.connection = found;
        found.is_some()
    }
}

/// The transmission that sends `args` over the cached connection.
///
/// `None` when no usable connection is cached.
pub fn send(slot: &ConnectionSlot, args: &[&str]) -> (r: Option<Transmission>)
    ensures
        r is Some == slot.connected(),
        r matches Some(t) ==> t.port == slot.connection->0.port && t.message@ == message_spec(
            arg_views(args@),
        ),
{
    if is_connected(slot) {
        let port = match slot.connection {
            Some(c) => c.port,
            None => MACH_PORT_NULL,
        };
        Some(Transmission { port, message: encode_message(args) })
    } else {
        None
    }
}

/// How the first transmission of a send ended.
pub enum FirstAttempt {
    /// The message was delivered over the cached connection.
    Delivered,
    /// Nothing was delivered (no usable connection was cached, or the
    /// transmission failed); holds the result of the one service lookup
    /// made afterwards.
    Failed(Option<JankyConnection>),
}

/// What a send does after its first transmission.
pub enum SendStep {
    /// The message was delivered; nothing more is sent.
    Done,
    /// Transmit this once more; its outcome is the outcome of the send.
    Retry(Transmission),
    /// No connection could be found again; the send failed.
    GiveUp,
}

/// Decides the rest of a send of `args` after its first transmission.
///
/// A delivered message ends the send and leaves the cached connection as it
/// was. After a failure the lookup result replaces the cached connection,
/// and the whole message is transmitted once more to the port found, when
/// the lookup found a usable one; otherwise the send gives up.
pub fn next_send_step(slot: &mut ConnectionSlot, args: &[&str], first: FirstAttempt) -> (r: SendStep)
    ensures
        first is Delivered ==> final(slot).connection == old(slot).connection && r is Done,
        first matches FirstAttempt::Failed(found) ==> {
            &&& final(slot).connection == found
            &&& r is Retry <==> (found matches Some(c) && c.port != MACH_PORT_NULL)
            &&& !(r is Done)
            &&& r matches SendStep::Retry(t) ==> t.port == found->0.port && t.message@
                == message_spec(arg_views(args@))
        },
{
    match first {
        FirstAttempt::Delivered => SendStep::Done,
        FirstAttempt::Failed(found) => {
            reconnect(slot, found);
            match send(slot, args) {
                Some(t) => SendStep::Retry(t),
                None => SendStep::GiveUp,
            }
        },
    }
}

/// The transmission that sends a single `key=value` argument.
pub fn send_one(slot: &ConnectionSlot, arg: &str) -> (r: Option<Transmission>)
    ensures
        r is Some == slot.connected(),
        r matches Some(t) ==> t.port == slot.connection->0.port && t.message@ == message_spec(
            seq![arg@],
        ),
{
    let args = [arg];
    let r = send(slot, &args);
    assert(arg_views(args@) =~= seq![arg@]);
    r
}

/// The transmission that sends several arguments in one message.
pub fn send_batch(slot: &ConnectionSlot, args: &[String]) -> (r: Option<Transmission>)
    ensures
        r is Some == slot.connected(),
        r matches Some(t) ==> t.port == slot.connection->0.port && t.message@ == message_spec(
            args@.map_values(|s: String| s@),
        ),
{
    let mut refs: Vec<&str> = Vec::new();
    let mut i: usize = 0;
    while i < args.len()
        invariant
            i <= args@.len(),
            refs@.len() == i,
            forall|j: int| 0 <= j < i ==> (#[trigger] refs@[j])@ == args@[j]@,
        decreases args@.len() - i,
    {
        refs.push(args[i].as_str());
        i = i + 1;
    }
    let r = send(slot, refs.as_slice());
    assert(arg_views(refs@) =~= args@.map_values(|s: String| s@));
    r
}

} // verus!

verus! {

/// Every message is non-empty and ends with a NUL byte.
pub proof fn law_message_ends_with_nul(args: Seq<Seq<char>>)
    ensures
        message_spec(args).len() >= 1,
        message_spec(args).last() == 0u8,
{
}

/// A message without arguments is a single NUL byte.
pub proof fn law_empty_message()
    ensures
        message_spec(Seq::<Seq<char>>::empty()) == seq![0u8],
{
    assert(message_spec(Seq::<Seq<char>>::empty()) =~= seq![0u8]);
}

} // verus!
