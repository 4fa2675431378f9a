//! A scripted in-memory transport, for exercising the driver without
//! hardware.
use vstd::prelude::*;

use crate::ExchangeRecord;
use crate::Transport;

verus! {

/// One scripted outcome for the next exchange: the five octets the simulated
/// device clocks back, or a transport failure of the given kind.
enum MockStep {
    Reply([u8; 5]),
    Fail(embedded_hal::spi::ErrorKind),
}

/// A transport that replays a script, one step per exchange, and records
/// every frame it was asked to send.  Once the script is exhausted, each
/// exchange succeeds and echoes the request back.
pub struct MockTransport {
    script: Vec<MockStep>,
    sent: Vec<[u8; 5]>,
    log: Ghost<Seq<ExchangeRecord>>,
}

impl MockTransport {
    /// The frames clocked out through this transport so far, oldest first.
    pub closed spec fn spec_sent(&self) -> Seq<Seq<u8>> {
        self.sent@.map_values(|f: [u8; 5]| f@)
    }

    /// A transport with an empty script and an empty record.
    pub fn new() -> (r: MockTransport)
        ensures
            r.history() == Seq::<ExchangeRecord>::empty(),
            r.spec_sent() == Seq::<Seq<u8>>::empty(),
    {
        let r = MockTransport { script: Vec::new(), sent: Vec::new(), log: Ghost(Seq::empty()) };
        proof {
            assert(r.spec_sent() =~= Seq::<Seq<u8>>::empty());
        }
        r
    }

    /// Append a successful exchange to the script, whose reply is `reply`.
    pub fn push_reply(&mut self, reply: [u8; 5])
        ensures
            final(self).history() == old(self).history(),
            final(self).spec_sent() == old(self).spec_sent(),
    {
        self.script.push(MockStep::Reply(reply));
    }

    /// Append a failed exchange to the script, reported with `kind`.
    pub fn push_failure(&mut self, kind: embedded_hal::spi::ErrorKind)
        ensures
            final(self).history() == old(self).history(),
            final(self).spec_sent() == old(self).spec_sent(),
    {
        self.script.push(MockStep::Fail(kind));
    }

    /// How many frames were clocked out so far.
    pub fn sent_count(&self) -> (r: usize)
        ensures
            r == self.spec_sent().len(),
    {
        self.sent.len()
    }

    /// The `i`th frame clocked out, oldest first, or `None` past the end.
    pub fn sent_frame(&self, i: usize) -> (r: Option<[u8; 5]>)
        ensures
            i < self.spec_sent().len() ==> (r matches Some(f) && f@ == self.spec_sent()[i as int]),
            i >= self.spec_sent().len() ==> r is None,
    {
        if i < self.sent.len() {
            Some(self.sent[i])
        } else {
            None
        }
    }
}

impl Transport for MockTransport {
    closed spec fn history(&self) -> Seq<ExchangeRecord> {
        self.log@
    }

    fn exchange(&mut self, buffer: &mut [u8; 5]) -> (r: Result<(), embedded_hal::spi::ErrorKind>)
    {
        self.sent.push(*buffer);

        let step = if self.script.len() > 0 {
            Some(self.script.remove(0))
        } else {
            None
        };

        match step {
            Some(MockStep::Reply(reply)) => {
                *buffer = reply;
                self.log = Ghost(
                    self.log@.push(
                        (ExchangeRecord { sent: old(buffer)@, recv: buffer@, ok: true }),
                    ),
                );
                Ok(())
            },
            Some(MockStep::Fail(kind)) => {
                self.log = Ghost(
                    self.log@.push(
                        (ExchangeRecord { sent: old(buffer)@, recv: buffer@, ok: false }),
                    ),
                );
                Err(kind)
            },
            None => {
                self.log = Ghost(
                    self.log@.push(
                        (ExchangeRecord { sent: old(buffer)@, recv: buffer@, ok: true }),
                    ),
                );
                Ok(())
            },
        }
    }
}

} // verus!
