//! Register-access driver for the TMC4671 motor-control IC.
//!
//! The device is reached over a full-duplex synchronous serial bus: every
//! register operation is one five-octet frame clocked out while an equal
//! number of octets is clocked in.  The [`spi`] module holds the frame codec;
//! this module holds the transaction engine, which builds a frame, exchanges
//! it through a caller-supplied transport, and decodes the reply.
use vstd::prelude::*;

pub mod mock;
pub mod spi;

use crate::spi::Datagram;

verus! {

/// Relies on `embedded_hal::spi::ErrorKind`: the transport's failure
/// classification.  The driver carries it opaquely for diagnostics and never
/// interprets it.
#[verifier::external_type_specification]
#[verifier::external_body]
pub struct ExErrorKind(embedded_hal::spi::ErrorKind);

/// A failed register operation: either the transport reported a bus fault,
/// or the reply buffer could not be decoded into a frame.
#[derive(Debug)]
pub enum Tmc4671Error {
    ParseError,
    CommunicationError(embedded_hal::spi::ErrorKind),
}

/// One full-duplex exchange as the contracts see it: the octets clocked out,
/// the octets clocked in during the same exchange, and whether the transport
/// reported success.
pub struct ExchangeRecord {
    pub sent: Seq<u8>,
    pub recv: Seq<u8>,
    pub ok: bool,
}

/// The transport capability the driver consumes: a fallible in-place
/// full-duplex exchange of a five-octet buffer.  Every octet clocked out
/// corresponds to one octet clocked in, so request and reply occupy the same
/// buffer; on failure the transport reports its own failure classification
/// and the buffer's final contents are unspecified.
pub trait Transport {
    /// The exchanges this transport has performed, in order.  Implementors
    /// override this; the default stands only so that unverified transports
    /// outside the library can implement the trait without ghost state.
    open spec fn history(&self) -> Seq<ExchangeRecord> {
        Seq::empty()
    }

    /// Exchange the buffer's octets with the device, in place.  Exactly one
    /// exchange is recorded, whatever the outcome; nothing is promised of
    /// the octets received.
    fn exchange(&mut self, buffer: &mut [u8; 5]) -> (r: Result<
        (),
        embedded_hal::spi::ErrorKind,
    >)
        ensures
            final(self).history() == old(self).history().push(
                (ExchangeRecord { sent: old(buffer)@, recv: final(buffer)@, ok: r is Ok }),
            ),
    ;
}

/// Exactly one exchange separates history `h1` from `h0`, and its outgoing
/// octets were `sent`.
pub open spec fn exchanged(
    h0: Seq<ExchangeRecord>,
    h1: Seq<ExchangeRecord>,
    sent: Seq<u8>,
) -> bool {
    &&& h1.len() == h0.len() + 1
    &&& h1.drop_last() == h0
    &&& h1.last().sent == sent
    &&& h1.last().recv.len() == 5
}

/// The outcome `get_chip_info` promises.  The first exchange writes the
/// selector's code to the selector register; if and only if that succeeds, a
/// second exchange reads the data register, and the decoded payload of its
/// reply is the result.  A transport failure ends the call at once.
pub open spec fn chip_info_post(
    h0: Seq<ExchangeRecord>,
    h1: Seq<ExchangeRecord>,
    info: spi::constants::CHIP_INFO_ADDRESS,
    r: Result<u32, Tmc4671Error>,
) -> bool {
    &&& h1.len() > h0.len()
    &&& h1[h0.len() as int].sent == spi::write_request(
        spi::registers::CHIPINFO_ADDR,
        info.spec_code(),
    ).spec_bytes()
    &&& if !h1[h0.len() as int].ok {
        &&& h1.len() == h0.len() + 1
        &&& h1.drop_last() == h0
        &&& r matches Err(e) && e is CommunicationError
    } else {
        &&& h1.len() == h0.len() + 2
        &&& h1.subrange(0, h0.len() as int) == h0
        &&& h1.last().sent == spi::read_request(spi::registers::CHIPINFO_DATA).spec_bytes()
        &&& (r is Ok <==> h1.last().ok)
        &&& (r matches Ok(value) ==> value == Datagram::spec_parse(h1.last().recv).data)
        &&& (r matches Err(e) ==> e is CommunicationError)
    }
}

/// The transaction engine: owns the transport for its lifetime and performs
/// exactly one exchange per register operation.
pub struct Tmc4671<SPI: Transport> {
    spi_device: SPI,
}

impl<SPI: Transport> Tmc4671<SPI> {
    /// The exchanges performed so far through the owned transport.
    pub closed spec fn history(&self) -> Seq<ExchangeRecord> {
        self.spi_device.history()
    }

    pub fn new(spi_device: SPI) -> (r: Self)
        ensures
            r.history() == spi_device.history(),
    {
        Tmc4671 { spi_device }
    }

    /// Give the owned transport back, consuming the engine.
    pub fn release(self) -> (r: SPI)
        ensures
            r.history() == self.history(),
    {
        self.spi_device
    }
}

impl<SPI: Transport> Tmc4671<SPI> {
    /// Read the selected chip-identification field: write the selector's
    /// code into the selector register, then read the data register.  The
    /// two steps are not atomic; nothing prevents another transaction on the
    /// same device from changing the selector in between.
    pub fn get_chip_info(&mut self, info: spi::constants::CHIP_INFO_ADDRESS) -> (r: Result<
        u32,
        Tmc4671Error,
    >)
        ensures
            chip_info_post(old(self).history(), final(self).history(), info, r),
    {
        let ghost h0 = self.history();
        match self.write_register(spi::registers::CHIPINFO_ADDR, info.code()) {
            Ok(()) => {},
            Err(e) => {
                return Err(e);
            },
        }
        let ghost hmid = self.history();
        let r = self.read_register(spi::registers::CHIPINFO_DATA);
        proof {
            let h1 = self.history();
            assert(h1.drop_last() == hmid);
            assert(h1.subrange(0, h0.len() as int) =~= h0) by {
                assert forall|i: int| 0 <= i < h0.len() implies h1[i] == h0[i] by {
                    assert(hmid.drop_last()[i] == hmid[i]);
                    assert(h1.drop_last()[i] == h1[i]);
                }
            }
            assert(h1[h0.len() as int] == hmid.last()) by {
                assert(h1.drop_last()[h0.len() as int] == h1[h0.len() as int]);
            }
        }
        r
    }
}

impl<SPI: Transport> Tmc4671<SPI> {
    /// Read a register: one exchange whose outgoing octets encode a read
    /// request with a zero payload, answered by the payload of the decoded
    /// reply.
    pub fn read_register(&mut self, register: u8) -> (r: Result<u32, Tmc4671Error>)
        requires
            register < spi::ADDR_WRITE_BIT,
        ensures
            exchanged(
                old(self).history(),
                final(self).history(),
                spi::read_request(register).spec_bytes(),
            ),
            r is Ok <==> final(self).history().last().ok,
            r matches Ok(value) ==> value == Datagram::spec_parse(
                final(self).history().last().recv,
            ).data,
            r matches Err(e) ==> e is CommunicationError,
    {
        let datagram = Datagram { write_not_read: false, address: register, data: 0x00_00_00_00 };

        let received_datagram = match self.transfer_datagram(datagram) {
            Ok(d) => d,
            Err(e) => {
                return Err(e);
            },
        };

        Ok(received_datagram.data)
    }

    /// The shared primitive: encode the datagram, exchange it through the
    /// transport, and decode what came back.  A transport failure is
    /// reported as a communication error and ends the call; a full five-byte
    /// exchange always decodes, so no other error can come out.  The reply
    /// is correlated to the request by call order alone: the decoded reply's
    /// address is not checked against the request's.
    fn transfer_datagram(&mut self, datagram: Datagram) -> (r: Result<Datagram, Tmc4671Error>)
        requires
            datagram.wf(),
        ensures
            exchanged(old(self).history(), final(self).history(), datagram.spec_bytes()),
            r is Ok <==> final(self).history().last().ok,
            r matches Ok(d) ==> d == Datagram::spec_parse(final(self).history().last().recv),
            r matches Err(e) ==> e is CommunicationError,
    {
        let mut buffer = datagram.bytes();

        let exchange_result = self.spi_device.exchange(&mut buffer);
        proof {
            assert(self.history().drop_last() =~= old(self).history());
        }
        match exchange_result {
            Ok(()) => {},
            Err(err) => {
                return Err(Tmc4671Error::CommunicationError(err));
            },
        }

        match Datagram::parse(buffer.as_slice()) {
            Ok(received_datagram) => Ok(received_datagram),
            Err(_err) => Err(Tmc4671Error::ParseError),
        }
    }

    /// Write a register: one exchange whose outgoing octets encode a write
    /// request carrying `data`.  Success depends on the transport alone; the
    /// reply's payload is device-dependent and is discarded undecoded.
    pub fn write_register(&mut self, register: u8, data: u32) -> (r: Result<(), Tmc4671Error>)
        requires
            register < spi::ADDR_WRITE_BIT,
        ensures
            exchanged(
                old(self).history(),
                final(self).history(),
                spi::write_request(register, data).spec_bytes(),
            ),
            r is Ok <==> final(self).history().last().ok,
            r matches Err(e) ==> e is CommunicationError,
    {
        let datagram = Datagram { write_not_read: true, address: register, data };

        let _received_datagram = match self.transfer_datagram(datagram) {
            Ok(d) => d,
            Err(e) => {
                return Err(e);
            },
        };

        Ok(())
    }
}

} // verus!
