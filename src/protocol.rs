use vstd::prelude::*;
use vstd::string::StrSliceExecFns;
use vstd::string::StringSliceAdditionalSpecFns;

use crate::endpoint::{Datagram, Endpoint};
use crate::json::{
    doc_texts, doc_uints, json_accepts, parse_document, text_member, text_members, uint_member,
    uint_members,
};

verus! {

/// How many copies of the acknowledgment a successful retarget sends.
pub const ACK_BURST: usize = 10;

/// The caller of `updateTarget` supplies the port above this modulus; the
/// configured default port supplies the rest.
pub const PORT_BASE_MODULUS: u16 = 10000;

/// The acknowledgment document of a successful retarget.
pub const ACK_DOCUMENT: &'static str = "{\"type\":\"updateTarget\",\"success\":true}";

pub const TYPE_UPDATE_TARGET: &'static str = "updateTarget";

pub const TYPE_UDP_PING: &'static str = "udpPing";

/// What one inbound control datagram asks for, in the abstract.
pub ghost enum CommandView {
    UpdateTarget { port: u16, host: Seq<u8> },
    Ping { reply_to: Seq<u8> },
    Ignore,
    Drop,
}

/// What one inbound control datagram asks for.
#[derive(Clone, Debug)]
pub enum Command {
    /// Retarget telemetry to `host` at `port`, the effective port already
    /// computed; answer with the acknowledgment burst.
    UpdateTarget { port: u16, host: Vec<u8> },
    /// Send the current time to the address written in `reply_to`.
    Ping { reply_to: Vec<u8> },
    /// A document with no string `type`, or one of an unknown type.
    Ignore,
    /// A datagram that is not a document, or lacks a field its type needs.
    Drop,
}

impl View for Command {
    type V = CommandView;

    open spec fn view(&self) -> CommandView {
        match self {
            Command::UpdateTarget { port, host } => CommandView::UpdateTarget { port: *port, host: host@ },
            Command::Ping { reply_to } => CommandView::Ping { reply_to: reply_to@ },
            Command::Ignore => CommandView::Ignore,
            Command::Drop => CommandView::Drop,
        }
    }
}

/// The port to use for a retarget: the base plus the low four digits of the
/// configured default port, when that fits a port number.
pub open spec fn effective_port_spec(base: u64, default_port: u16) -> Option<u16> {
    let p = base + default_port % PORT_BASE_MODULUS;
    if p <= u16::MAX {
        Some(p as u16)
    } else {
        None
    }
}

/// The command that a document with the given string and integer members
/// stands for.
pub open spec fn command_of(
    texts: Map<Seq<char>, Seq<u8>>,
    uints: Map<Seq<char>, u64>,
    default_port: u16,
) -> CommandView {
    if !texts.contains_key("type"@) {
        CommandView::Ignore
    } else if texts["type"@] == TYPE_UPDATE_TARGET.spec_bytes() {
        if uints.contains_key("target_port_base"@) && texts.contains_key("target"@)
            && effective_port_spec(uints["target_port_base"@], default_port) is Some {
            CommandView::UpdateTarget {
                port: effective_port_spec(uints["target_port_base"@], default_port)->0,
                host: texts["target"@],
            }
        } else {
            CommandView::Drop
        }
    } else if texts["type"@] == TYPE_UDP_PING.spec_bytes() {
        if texts.contains_key("replyTo"@) {
            CommandView::Ping { reply_to: texts["replyTo"@] }
        } else {
            CommandView::Drop
        }
    } else {
        CommandView::Ignore
    }
}

/// The eight bytes of `n`, most significant first.
pub open spec fn be_bytes(n: u64) -> Seq<u8> {
    seq![
        (n >> 56u64) as u8,
        (n >> 48u64) as u8,
        (n >> 40u64) as u8,
        (n >> 32u64) as u8,
        (n >> 24u64) as u8,
        (n >> 16u64) as u8,
        (n >> 8u64) as u8,
        n as u8,
    ]
}

pub open spec fn ack_payload() -> Seq<u8> {
    ACK_DOCUMENT.spec_bytes()
}

/// Effective port of a retarget, `None` when it would not fit a port number.
pub fn effective_port(base: u64, default_port: u16) -> (r: Option<u16>)
    ensures
        r == effective_port_spec(base, default_port),
{
    let low = default_port % PORT_BASE_MODULUS;
    if base <= (u16::MAX - low) as u64 {
        Some((base + low as u64) as u16)
    } else {
        None
    }
}

/// Whether two byte strings are equal.
pub fn bytes_equal(a: &[u8], b: &[u8]) -> (r: bool)
    ensures
        r == (a@ == b@),
{
    if a.len() != b.len() {
        return false;
    }
    let mut i: usize = 0;
    while i < a.len()
        invariant
            a@.len() == b@.len(),
            i <= a@.len(),
            a@.subrange(0, i as int) == b@.subrange(0, i as int),
        decreases a@.len() - i,
    {
        if a[i] != b[i] {
            assert(a@.subrange(0, i as int + 1)[i as int] != b@.subrange(0, i as int + 1)[i as int]);
            assert(a@[i as int] != b@[i as int]);
            return false;
        }
        assert(a@.subrange(0, i as int + 1) =~= a@.subrange(0, i as int).push(a@[i as int]));
        assert(b@.subrange(0, i as int + 1) =~= b@.subrange(0, i as int).push(b@[i as int]));
        i = i + 1;
    }
    assert(a@ =~= a@.subrange(0, a@.len() as int));
    assert(b@ =~= b@.subrange(0, b@.len() as int));
    true
}

/// The command that a parsed document stands for, given the configured
/// default target port.
pub fn command_from_document(doc: &serde_json::Value, default_port: u16) -> (r: Command)
    ensures
        r@ == command_of(text_members(*doc), uint_members(*doc), default_port),
{
    let kind = match text_member(doc, "type") {
        Some(k) => k,
        None => return Command::Ignore,
    };
    let update_tag = TYPE_UPDATE_TARGET.as_bytes_vec();
    let ping_tag = TYPE_UDP_PING.as_bytes_vec();
    if bytes_equal(kind.as_slice(), update_tag.as_slice()) {
        let base = match uint_member(doc, "target_port_base") {
            Some(b) => b,
            None => return Command::Drop,
        };
        let host = match text_member(doc, "target") {
            Some(h) => h,
            None => return Command::Drop,
        };
        match effective_port(base, default_port) {
            Some(port) => Command::UpdateTarget { port, host },
            None => Command::Drop,
        }
    } else if bytes_equal(kind.as_slice(), ping_tag.as_slice()) {
        match text_member(doc, "replyTo") {
            Some(reply_to) => Command::Ping { reply_to },
            None => Command::Drop,
        }
    } else {
        Command::Ignore
    }
}

/// Parses an inbound datagram and decides what it asks for. A datagram that
/// is not a JSON document is dropped; otherwise the command is the one that
/// the parsed document stands for.
pub fn decode_command(datagram: &[u8], default_port: u16) -> (r: Command)
    ensures
        !json_accepts(datagram@) ==> r@ == CommandView::Drop,
        json_accepts(datagram@) ==> r@ == command_of(
            doc_texts(datagram@),
            doc_uints(datagram@),
            default_port,
        ),
{
    match parse_document(datagram) {
        Some(doc) => command_from_document(&doc, default_port),
        None => Command::Drop,
    }
}

/// The eight bytes of `n`, most significant first.
pub fn be_bytes_of(n: u64) -> (r: Vec<u8>)
    ensures
        r@ == be_bytes(n),
{
    let r = vec![
        (n >> 56u64) as u8,
        (n >> 48u64) as u8,
        (n >> 40u64) as u8,
        (n >> 32u64) as u8,
        (n >> 24u64) as u8,
        (n >> 16u64) as u8,
        (n >> 8u64) as u8,
        n as u8,
    ];
    assert(r@ =~= be_bytes(n));
    r
}

/// What handling one command does: the telemetry target afterwards, and the
/// datagrams to send, in order.
#[derive(Clone, Debug)]
pub struct Reaction {
    pub target: Endpoint,
    pub sends: Vec<Datagram>,
}

/// The datagrams of a reaction, each as its destination and payload bytes.
pub open spec fn sends_view(sends: Seq<Datagram>) -> Seq<(Endpoint, Seq<u8>)> {
    sends.map_values(|d: Datagram| (d.dest, d.payload@))
}

/// The decimal digits of `n`, without leading zeros.
pub open spec fn decimal(n: nat) -> Seq<u8>
    decreases n,
{
    if n < 10 {
        seq![(48 + n) as u8]
    } else {
        decimal(n / 10).push((48 + n % 10) as u8)
    }
}

/// The socket address text that a command names: for a retarget, the host
/// followed by `:` and the effective port; for a ping, its reply address;
/// none for the other commands.
pub open spec fn address_text_of(cmd: CommandView) -> Option<Seq<u8>> {
    match cmd {
        CommandView::UpdateTarget { port, host } => Some(host + seq![58u8] + decimal(port as nat)),
        CommandView::Ping { reply_to } => Some(reply_to),
        _ => None,
    }
}

/// Appends the decimal digits of `n`.
fn push_decimal(out: &mut Vec<u8>, n: u16)
    ensures
        final(out)@ == old(out)@ + decimal(n as nat),
    decreases n,
{
    if n >= 10 {
        push_decimal(out, n / 10);
    }
    let digit: u8 = 48u8 + (n % 10) as u8;
    out.push(digit);
    assert(final(out)@ =~= old(out)@ + decimal(n as nat));
}

/// The socket address text that a command names, see `address_text_of`.
pub fn address_text(cmd: &Command) -> (r: Option<Vec<u8>>)
    ensures
        r.is_some() == address_text_of(cmd@).is_some(),
        r matches Some(t) ==> t@ == address_text_of(cmd@)->0,
{
    match cmd {
        Command::UpdateTarget { port, host } => {
            let mut out = host.clone();
            out.push(58u8);
            push_decimal(&mut out, *port);
            assert(out@ =~= host@ + seq![58u8] + decimal(*port as nat));
            Some(out)
        },
        Command::Ping { reply_to } => Some(reply_to.clone()),
        _ => None,
    }
}

/// The outcome of handling a command.
///
/// `resolved` is the socket address that `address_text` of the command
/// reads as, `None` when that text is not a valid socket address.
/// `source` is where the datagram came from, `current` the telemetry target
/// before it, and `now_micros` the wall-clock time in microseconds.
pub open spec fn reaction_of(
    cmd: CommandView,
    resolved: Option<Endpoint>,
    source: Endpoint,
    current: Endpoint,
    now_micros: u64,
) -> (Endpoint, Seq<(Endpoint, Seq<u8>)>) {
    match (cmd, resolved) {
        (CommandView::UpdateTarget { .. }, Some(e)) => (
            e,
            Seq::new(ACK_BURST as nat, |i: int| (source, ack_payload())),
        ),
        (CommandView::Ping { .. }, Some(e)) => (current, seq![(e, be_bytes(now_micros))]),
        _ => (current, Seq::empty()),
    }
}

/// Handles one decoded command: see `reaction_of`.
pub fn react(
    cmd: &Command,
    resolved: Option<Endpoint>,
    source: Endpoint,
    current: Endpoint,
    now_micros: u64,
) -> (r: Reaction)
    ensures
        (r.target, sends_view(r.sends@)) == reaction_of(cmd@, resolved, source, current, now_micros),
{
    match (cmd, resolved) {
        (Command::UpdateTarget { .. }, Some(e)) => {
            let mut sends: Vec<Datagram> = Vec::new();
            let mut i: usize = 0;
            while i < ACK_BURST
                invariant
                    i <= ACK_BURST,
                    sends_view(sends@) =~= Seq::new(i as nat, |j: int| (source, ack_payload())),
                decreases ACK_BURST - i,
            {
                let payload = ACK_DOCUMENT.as_bytes_vec();
                let ghost before = sends@;
                sends.push(Datagram { dest: source, payload });
                assert(sends_view(sends@) =~= sends_view(before).push((source, ack_payload())));
                i = i + 1;
            }
            Reaction { target: e, sends }
        },
        (Command::Ping { .. }, Some(e)) => {
            let payload = be_bytes_of(now_micros);
            let sends = vec![Datagram { dest: e, payload }];
            assert(sends_view(sends@) =~= seq![(e, be_bytes(now_micros))]);
            Reaction { target: current, sends }
        },
        _ => {
            let sends: Vec<Datagram> = Vec::new();
            assert(sends_view(sends@) =~= Seq::empty());
            Reaction { target: current, sends }
        },
    }
}

/// The number that eight bytes stand for, most significant first.
pub open spec fn be_value(b: Seq<u8>) -> u64 {
    (b[0] as u64) << 56u64 | (b[1] as u64) << 48u64 | (b[2] as u64) << 40u64 | (b[3] as u64)
        << 32u64 | (b[4] as u64) << 24u64 | (b[5] as u64) << 16u64 | (b[6] as u64) << 8u64
        | (b[7] as u64)
}

/// A ping reply read back as a big-endian integer is the time it was made
/// from.
pub proof fn lemma_ping_reply_reads_back(now_micros: u64)
    ensures
        be_bytes(now_micros).len() == 8,
        be_value(be_bytes(now_micros)) == now_micros,
{
    let n = now_micros;
    assert((((n >> 56u64) as u8) as u64) << 56u64 | (((n >> 48u64) as u8) as u64) << 48u64 | (((n
        >> 40u64) as u8) as u64) << 40u64 | (((n >> 32u64) as u8) as u64) << 32u64 | (((n >> 24u64)
        as u8) as u64) << 24u64 | (((n >> 16u64) as u8) as u64) << 16u64 | (((n >> 8u64) as u8)
        as u64) << 8u64 | ((n as u8) as u64) == n) by (bit_vector);
}

/// A datagram whose `type` is missing or is neither `updateTarget` nor
/// `udpPing` changes nothing and sends nothing, whatever else it holds.
pub proof fn lemma_unknown_type_is_inert(
    texts: Map<Seq<char>, Seq<u8>>,
    uints: Map<Seq<char>, u64>,
    default_port: u16,
    resolved: Option<Endpoint>,
    source: Endpoint,
    current: Endpoint,
    now_micros: u64,
)
    requires
        texts.contains_key("type"@) ==> texts["type"@] != TYPE_UPDATE_TARGET.spec_bytes()
            && texts["type"@] != TYPE_UDP_PING.spec_bytes(),
    ensures
        reaction_of(command_of(texts, uints, default_port), resolved, source, current, now_micros)
            == (current, Seq::<(Endpoint, Seq<u8>)>::empty()),
{
}

/// A retarget whose `target_port_base` is not an integer, or whose address
/// does not resolve, keeps the current target and sends no acknowledgment.
pub proof fn lemma_invalid_retarget_is_inert(
    texts: Map<Seq<char>, Seq<u8>>,
    uints: Map<Seq<char>, u64>,
    default_port: u16,
    resolved: Option<Endpoint>,
    source: Endpoint,
    current: Endpoint,
    now_micros: u64,
)
    requires
        texts.contains_key("type"@),
        texts["type"@] == TYPE_UPDATE_TARGET.spec_bytes(),
        !uints.contains_key("target_port_base"@) || resolved is None,
    ensures
        reaction_of(command_of(texts, uints, default_port), resolved, source, current, now_micros)
            == (current, Seq::<(Endpoint, Seq<u8>)>::empty()),
{
}

} // verus!
