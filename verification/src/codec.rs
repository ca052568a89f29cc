//! The protocol codec: decodes a UDP payload into the message shape the
//! engine reads, and encodes an outbound signal into wire bytes. Both
//! directions go through `rosc`, the OSC implementation, behind trusted
//! wrappers whose contracts pin the outcome as a function of the inputs.
use vstd::prelude::*;

use crate::mapper::DecimalValue;
use rust_decimal::prelude::ToPrimitive;

verus! {

/// One decoded message argument, reduced to what the engine reads: a boolean,
/// or anything else.
#[derive(Clone, Copy, Debug, PartialEq, Eq, Structural)]
pub enum WireArg {
    Bool(bool),
    Other,
}

/// A decoded inbound message: its address and its arguments in wire order.
#[derive(Clone, Debug, PartialEq, Eq)]
pub struct WireMessage {
    pub addr: String,
    pub args: Vec<WireArg>,
}

/// The mathematical shape of a decoded message.
pub struct WireMessageView {
    pub addr: Seq<char>,
    pub args: Seq<WireArg>,
}

impl View for WireMessage {
    type V = WireMessageView;

    open spec fn view(&self) -> WireMessageView {
        WireMessageView { addr: self.addr@, args: self.args@ }
    }
}

/// A decoded inbound packet: a single message, or a bundle. Bundles are
/// accepted but carry nothing the engine acts on; they are informational.
#[derive(Clone, Debug, PartialEq, Eq)]
pub enum Inbound {
    Message(WireMessage),
    Bundle,
}

/// The mathematical shape of a decoded packet.
pub enum InboundView {
    Message(WireMessageView),
    Bundle,
}

impl View for Inbound {
    type V = InboundView;

    open spec fn view(&self) -> InboundView {
        match self {
            Inbound::Message(m) => InboundView::Message(m@),
            Inbound::Bundle => InboundView::Bundle,
        }
    }
}

/// What decoding yields on a given datagram: a function of the bytes alone.
/// `None` stands for a malformed payload.
pub uninterp spec fn decoded_wire(data: Seq<u8>) -> Option<InboundView>;

/// Relies on `rosc::decoder::decode_udp`: decodes one OSC packet from a
/// datagram. The outcome is a function of the bytes alone; a malformed payload
/// yields an error rather than a panic. Each decoded argument is reduced to
/// the shape the engine reads: a boolean, or anything else.
#[verifier::external_body]
fn decode_wire(data: &[u8]) -> (r: Option<Inbound>)
    ensures
        r is Some <==> decoded_wire(data@) is Some,
        r matches Some(p) ==> decoded_wire(data@) == Some(p@),
{
    match rosc::decoder::decode_udp(data) {
        Ok((_, rosc::OscPacket::Message(m))) => {
            let args = m.args.iter().map(|a| match a {
                rosc::OscType::Bool(b) => WireArg::Bool(*b),
                _ => WireArg::Other,
            }).collect();
            Some(Inbound::Message(WireMessage { addr: m.addr, args }))
        }
        Ok((_, rosc::OscPacket::Bundle(_))) => Some(Inbound::Bundle),
        Err(_) => None,
    }
}

/// Decodes one datagram, or reports a malformed payload with `None`. Decoding
/// never panics, so one bad datagram costs nothing but itself: the caller
/// drops it and goes on with the next.
pub fn decode_datagram(data: &[u8]) -> (r: Option<Inbound>)
    ensures
        r is Some <==> decoded_wire(data@) is Some,
        r matches Some(p) ==> decoded_wire(data@) == Some(p@),
{
    decode_wire(data)
}

/// An outbound reply: a destination address and the exact decimal value to
/// carry there as the message's one float argument.
#[derive(Clone, Debug, PartialEq, Eq)]
pub struct OutboundSignal {
    pub address: String,
    pub value: DecimalValue,
}

/// The mathematical shape of an outbound reply: the address and the value in
/// hundredths.
pub struct SignalView {
    pub addr: Seq<char>,
    pub centis: int,
}

impl View for OutboundSignal {
    type V = SignalView;

    open spec fn view(&self) -> SignalView {
        SignalView { addr: self.address@, centis: self.value@ }
    }
}

/// The wire bytes of a single OSC message holding one float argument: a
/// function of the address and the value alone.
pub uninterp spec fn float_message_wire(addr: Seq<char>, centis: int) -> Seq<u8>;

/// Relies on `rosc::encoder::encode` and `rust_decimal::Decimal` (`new` and
/// `to_f32`): builds the wire bytes of a single OSC message whose one
/// argument is the value `centis / 100`, narrowed to single precision at this
/// boundary. The bytes are a function of the address and the value alone. In
/// rosc's source, encoding a message into a byte vector cannot fail, and in
/// rust_decimal's source `to_f32` always yields a value (scale 2 is far below
/// the maximum `new` accepts), so the call always returns `Some`.
#[verifier::external_body]
fn encode_float_message(addr: &String, centis: i64) -> (r: Option<Vec<u8>>)
    ensures
        r is Some,
        r matches Some(v) ==> v@ == float_message_wire(addr@, centis as int),
{
    let value = rust_decimal::Decimal::new(centis, 2);
    let arg = match value.to_f32() {
        Some(f) => rosc::OscType::Float(f),
        None => return None,
    };
    let packet = rosc::OscPacket::Message(rosc::OscMessage {
        addr: addr.clone(),
        args: vec![arg],
    });
    match rosc::encoder::encode(&packet) {
        Ok(bytes) => Some(bytes),
        Err(_) => None,
    }
}

/// Encodes an outbound signal into the bytes to put on the wire. Encoding has
/// no failure path: every address and every representable value encodes.
pub fn encode_signal(signal: &OutboundSignal) -> (r: Vec<u8>)
    ensures
        r@ == float_message_wire(signal.address@, signal.value@),
{
    let encoded = encode_float_message(&signal.address, signal.value.centis);
    encoded.unwrap()
}

} // verus!
