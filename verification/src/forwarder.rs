use vstd::prelude::*;

verus! {

/// Transport-only relay of activated command ids to the presentation
/// layer's inbound event channel.
///
/// The forwarder records every payload it delivers, verbatim and in
/// activation order; it never filters, deduplicates or interprets one.
/// The shell performs the actual channel emission with the recorded
/// payload; interpretation of what a command id means belongs wholly
/// to the presentation layer.
pub struct EventForwarder {
    sent: Vec<String>,
}

impl EventForwarder {
    /// The payloads delivered so far, oldest first.
    pub closed spec fn delivered(self) -> Seq<String> {
        self.sent@
    }

    /// A fresh forwarder that has delivered nothing.
    pub fn new() -> (f: EventForwarder)
        ensures
            f.delivered() == Seq::<String>::empty(),
    {
        EventForwarder { sent: Vec::new() }
    }

    /// Delivers one activation: the payload is appended, unmodified,
    /// after everything delivered before it.
    pub fn forward(&mut self, payload: String)
        ensures
            final(self).delivered() == old(self).delivered().push(payload),
    {
        self.sent.push(payload);
    }

    /// Delivers a sequence of activations: exactly one message per
    /// activation, in activation order, each payload unmodified.
    pub fn forward_all(&mut self, payloads: &Vec<String>)
        ensures
            final(self).delivered() == old(self).delivered() + payloads@,
    {
        let mut i: usize = 0;
        while i < payloads.len()
            invariant
                i <= payloads@.len(),
                self.delivered() == old(self).delivered() + payloads@.subrange(0, i as int),
            decreases payloads@.len() - i,
        {
            let payload = payloads[i].clone();
            proof {
                assert(payloads@.subrange(0, i + 1) =~= payloads@.subrange(0, i as int).push(
                    payloads@[i as int],
                ));
                assert(old(self).delivered() + payloads@.subrange(0, i + 1) =~= (old(
                    self,
                ).delivered() + payloads@.subrange(0, i as int)).push(payloads@[i as int]));
            }
            self.sent.push(payload);
            i = i + 1;
        }
        proof {
            assert(payloads@.subrange(0, payloads@.len() as int) =~= payloads@);
        }
    }

    /// How many messages have been delivered.
    pub fn delivered_count(&self) -> (n: usize)
        ensures
            n == self.delivered().len(),
    {
        self.sent.len()
    }

    /// Read access to the delivery record, oldest first.
    pub fn delivered_log(&self) -> (log: &Vec<String>)
        ensures
            log@ == self.delivered(),
    {
        &self.sent
    }
}

} // verus!
