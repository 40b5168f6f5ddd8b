//! What the converter's consumer does with a delivery.

use vstd::prelude::*;

verus! {

/// The acknowledgement of a delivery.
#[derive(Debug, Clone, Copy, PartialEq, Eq)]
pub struct Ack {
    pub delivery_tag: u64,
    /// Whether all deliveries up to this one are acknowledged.
    pub multiple: bool,
}

/// The consumer's settings.
#[derive(Debug, Clone, Copy)]
pub struct ConsumerSettings {
    /// `true`: the broker acknowledges automatically and nothing is sent;
    /// `false`: each delivery is acknowledged by the consumer.
    pub no_ack: bool,
}

impl ConsumerSettings {
    /// Settings with the given acknowledgement mode.
    pub fn new(no_ack: bool) -> (s: ConsumerSettings)
        ensures
            s.no_ack == no_ack,
    {
        ConsumerSettings { no_ack }
    }

    /// The acknowledgement to send for the delivery `delivery_tag`: that
    /// delivery alone, and only when acknowledging by hand.
    pub fn ack_for(&self, delivery_tag: u64) -> (a: Option<Ack>)
        ensures
            match a {
                Some(ack) => !self.no_ack && ack.delivery_tag == delivery_tag && !ack.multiple,
                None => self.no_ack,
            },
    {
        if !self.no_ack {
            Some(Ack { delivery_tag, multiple: false })
        } else {
            None
        }
    }
}

} // verus!
