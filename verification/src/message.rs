//! Published messages and the liveness beacon.
//!
//! A message is a topic and a payload, both text. After a completed pass
//! one message is published under a fixed topic; its payload is the time of
//! completion, in whole seconds since the Unix epoch, in decimal.

use vstd::prelude::*;

verus! {

/// The delivery guarantee that the publish capability is asked for.
#[derive(Clone, Copy, Debug, PartialEq, Eq, Structural)]
pub enum Delivery {
    /// The message reaches the receiver once or more often: it may be
    /// delivered again, and is never dropped silently.
    AtLeastOnce,
}

/// A topic and a payload, ready for the publish capability.
#[derive(Clone, Debug, PartialEq, Eq)]
pub struct PublishedMessage {
    pub topic: String,
    pub payload: String,
    pub delivery: Delivery,
}

/// A message as a mathematical value.
pub struct MessageView {
    pub topic: Seq<char>,
    pub payload: Seq<char>,
    pub delivery: Delivery,
}

impl View for PublishedMessage {
    type V = MessageView;

    open spec fn view(&self) -> MessageView {
        MessageView { topic: self.topic@, payload: self.payload@, delivery: self.delivery }
    }
}

/// The character of the decimal digit `d`.
pub open spec fn digit_char(d: nat) -> char
    recommends
        d < 10,
{
    ('0' as nat + d) as char
}

/// The decimal numeral of `n`: most significant digit first, without
/// leading zeros, and `0` for zero.
pub open spec fn decimal(n: nat) -> Seq<char>
    decreases n,
{
    if n < 10 {
        seq![digit_char(n)]
    } else {
        decimal(n / 10).push(digit_char(n % 10))
    }
}

/// The message that signals a pass completed at `secs` seconds since the
/// Unix epoch.
pub open spec fn liveness(secs: u64) -> MessageView {
    MessageView {
        topic: "meters/solis/online"@,
        payload: decimal(secs as nat),
        delivery: Delivery::AtLeastOnce,
    }
}

/// Appends the decimal numeral of `n` to `out`.
pub fn push_decimal(out: &mut String, n: u64)
    ensures
        final(out)@ == old(out)@ + decimal(n as nat),
    decreases n,
{
    if n >= 10 {
        push_decimal(out, n / 10);
    }
    let d: u8 = (n % 10) as u8;
    out.push(('0' as u8 + d) as char);
}

/// Builds the liveness message for a pass that completed at `secs` seconds
/// since the Unix epoch.
pub fn liveness_message(secs: u64) -> (m: PublishedMessage)
    ensures
        m@ == liveness(secs),
{
    let mut payload = String::new();
    push_decimal(&mut payload, secs);
    PublishedMessage {
        topic: "meters/solis/online".to_owned(),
        payload,
        delivery: Delivery::AtLeastOnce,
    }
}

} // verus!
