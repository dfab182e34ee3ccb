//! The fields of an NTP packet that the peer logic reads and writes, with the
//! Kiss-o'-Death classification and the construction of poll requests.
use crate::time_types::{NtpDuration, NtpTimestamp, PollInterval};
use vstd::prelude::*;

verus! {

/// Reference id of a packet that names no time source ("XNON").
pub const REFERENCE_NONE: u32 = 0x584E_4F4E;

/// Kiss code "DENY": access denied by the server.
pub const KISS_DENY: u32 = 0x4445_4E59;

/// Kiss code "RATE": the client polls too often.
pub const KISS_RATE: u32 = 0x5241_5445;

/// Kiss code "RSTR": access restricted by the server.
pub const KISS_RSTR: u32 = 0x5253_5452;

/// Relies on `rand::random::<u64>`: a value drawn from the thread-local
/// generator; nothing is known of it.
#[verifier::external_body]
fn random_u64() -> (r: u64) {
    rand::random::<u64>()
}

/// The identity of a time source: four ASCII characters or an IPv4 address.
#[derive(Debug, Clone, Copy, PartialEq, Eq, Hash, Structural)]
pub struct ReferenceId(pub u32);

impl ReferenceId {
    pub fn from_int(value: u32) -> (r: ReferenceId)
        ensures
            r.0 == value,
    {
        ReferenceId(value)
    }

    pub fn to_int(self) -> (r: u32)
        ensures
            r == self.0,
    {
        self.0
    }

    /// The reference id that names no source.
    pub fn none() -> (r: ReferenceId)
        ensures
            r.0 == REFERENCE_NONE,
    {
        ReferenceId(REFERENCE_NONE)
    }

    pub fn kiss_deny() -> (r: ReferenceId)
        ensures
            r.0 == KISS_DENY,
    {
        ReferenceId(KISS_DENY)
    }

    pub fn kiss_rate() -> (r: ReferenceId)
        ensures
            r.0 == KISS_RATE,
    {
        ReferenceId(KISS_RATE)
    }

    pub fn kiss_rstr() -> (r: ReferenceId)
        ensures
            r.0 == KISS_RSTR,
    {
        ReferenceId(KISS_RSTR)
    }
}

/// Warning of an impending leap second, or of a clock that was never set.
#[derive(Debug, Clone, Copy, PartialEq, Eq, Hash, Structural)]
pub enum NtpLeapIndicator {
    NoWarning,
    Leap61,
    Leap59,
    Unknown,
}

impl NtpLeapIndicator {
    /// Whether the sender's clock has ever been synchronized.
    pub fn is_synchronized(self) -> (r: bool)
        ensures
            r == !(self is Unknown),
    {
        match self {
            NtpLeapIndicator::Unknown => false,
            _ => true,
        }
    }
}

/// The role that the sender of a packet plays in the association.
#[derive(Debug, Clone, Copy, PartialEq, Eq, Hash, Structural)]
pub enum NtpAssociationMode {
    Reserved,
    SymmetricActive,
    SymmetricPassive,
    Client,
    Server,
    Broadcast,
    Control,
    Private,
}

/// What a response must echo to be taken as the answer to our request.
#[derive(Debug, Clone, Copy, PartialEq, Eq, Hash, Structural)]
pub struct RequestIdentifier {
    pub expected_origin_timestamp: NtpTimestamp,
}

/// The header fields of an NTP packet.
#[derive(Debug, Clone, Copy, PartialEq, Eq, Hash, Structural)]
pub struct NtpPacket {
    pub leap: NtpLeapIndicator,
    pub mode: NtpAssociationMode,
    pub stratum: u8,
    pub poll: i8,
    pub precision: i8,
    pub root_delay: NtpDuration,
    pub root_dispersion: NtpDuration,
    pub reference_id: ReferenceId,
    pub reference_timestamp: NtpTimestamp,
    pub origin_timestamp: NtpTimestamp,
    pub receive_timestamp: NtpTimestamp,
    pub transmit_timestamp: NtpTimestamp,
}

/// A client packet with every field at its zero value.
pub open spec fn blank_packet() -> NtpPacket {
    NtpPacket {
        leap: NtpLeapIndicator::NoWarning,
        mode: NtpAssociationMode::Client,
        stratum: 0,
        poll: 0,
        precision: 0,
        root_delay: NtpDuration { duration: 0 },
        root_dispersion: NtpDuration { duration: 0 },
        reference_id: ReferenceId(0),
        reference_timestamp: NtpTimestamp { timestamp: 0 },
        origin_timestamp: NtpTimestamp { timestamp: 0 },
        receive_timestamp: NtpTimestamp { timestamp: 0 },
        transmit_timestamp: NtpTimestamp { timestamp: 0 },
    }
}

/// The request a client sends to poll a server.
pub open spec fn poll_packet(poll_interval: PollInterval, transmit: NtpTimestamp) -> NtpPacket {
    NtpPacket {
        leap: NtpLeapIndicator::Unknown,
        mode: NtpAssociationMode::Client,
        poll: poll_interval.0,
        reference_id: ReferenceId(REFERENCE_NONE),
        transmit_timestamp: transmit,
        ..blank_packet()
    }
}

impl NtpPacket {
    /// A client packet with every field at its zero value.
    pub fn test() -> (r: NtpPacket)
        ensures
            r == blank_packet(),
    {
        NtpPacket {
            leap: NtpLeapIndicator::NoWarning,
            mode: NtpAssociationMode::Client,
            stratum: 0,
            poll: 0,
            precision: 0,
            root_delay: NtpDuration::zero(),
            root_dispersion: NtpDuration::zero(),
            reference_id: ReferenceId(0),
            reference_timestamp: NtpTimestamp::from_fixed_int(0),
            origin_timestamp: NtpTimestamp::from_fixed_int(0),
            receive_timestamp: NtpTimestamp::from_fixed_int(0),
            transmit_timestamp: NtpTimestamp::from_fixed_int(0),
        }
    }

    /// The poll request carrying the given transmit timestamp, and the
    /// identifier that its answer must echo.
    pub fn poll_message_with(poll_interval: PollInterval, transmit: NtpTimestamp) -> (r: (
        NtpPacket,
        RequestIdentifier,
    ))
        ensures
            r.0 == poll_packet(poll_interval, transmit),
            r.1.expected_origin_timestamp == transmit,
    {
        let mut packet = NtpPacket::test();
        packet.leap = NtpLeapIndicator::Unknown;
        packet.poll = poll_interval.0;
        packet.reference_id = ReferenceId::none();
        packet.transmit_timestamp = transmit;
        (packet, RequestIdentifier { expected_origin_timestamp: transmit })
    }

    /// A poll request with a freshly drawn random transmit timestamp, which
    /// serves as the identifier of the request.
    pub fn poll_message(poll_interval: PollInterval) -> (r: (NtpPacket, RequestIdentifier))
        ensures
            r.0 == poll_packet(poll_interval, r.0.transmit_timestamp),
            r.1.expected_origin_timestamp == r.0.transmit_timestamp,
    {
        let transmit = NtpTimestamp::from_fixed_int(random_u64());
        NtpPacket::poll_message_with(poll_interval, transmit)
    }

    /// Whether this packet answers the request with the given identifier.
    pub fn valid_server_response(&self, identifier: RequestIdentifier) -> (r: bool)
        ensures
            r == (self.origin_timestamp == identifier.expected_origin_timestamp),
    {
        self.origin_timestamp.timestamp == identifier.expected_origin_timestamp.timestamp
    }

    /// A Kiss-o'-Death packet: stratum 0, with a kiss code as reference id.
    pub fn is_kiss(&self) -> (r: bool)
        ensures
            r == (self.stratum == 0),
    {
        self.stratum == 0
    }

    pub fn is_kiss_deny(&self) -> (r: bool)
        ensures
            r == (self.stratum == 0 && self.reference_id.0 == KISS_DENY),
    {
        self.is_kiss() && self.reference_id.0 == KISS_DENY
    }

    pub fn is_kiss_rate(&self) -> (r: bool)
        ensures
            r == (self.stratum == 0 && self.reference_id.0 == KISS_RATE),
    {
        self.is_kiss() && self.reference_id.0 == KISS_RATE
    }

    pub fn is_kiss_rstr(&self) -> (r: bool)
        ensures
            r == (self.stratum == 0 && self.reference_id.0 == KISS_RSTR),
    {
        self.is_kiss() && self.reference_id.0 == KISS_RSTR
    }

    pub fn stratum(&self) -> (r: u8)
        ensures
            r == self.stratum,
    {
        self.stratum
    }

    pub fn mode(&self) -> (r: NtpAssociationMode)
        ensures
            r == self.mode,
    {
        self.mode
    }

    pub fn leap(&self) -> (r: NtpLeapIndicator)
        ensures
            r == self.leap,
    {
        self.leap
    }

    pub fn reference_id(&self) -> (r: ReferenceId)
        ensures
            r == self.reference_id,
    {
        self.reference_id
    }

    pub fn root_delay(&self) -> (r: NtpDuration)
        ensures
            r == self.root_delay,
    {
        self.root_delay
    }

    pub fn root_dispersion(&self) -> (r: NtpDuration)
        ensures
            r == self.root_dispersion,
    {
        self.root_dispersion
    }

    pub fn receive_timestamp(&self) -> (r: NtpTimestamp)
        ensures
            r == self.receive_timestamp,
    {
        self.receive_timestamp
    }

    pub fn transmit_timestamp(&self) -> (r: NtpTimestamp)
        ensures
            r == self.transmit_timestamp,
    {
        self.transmit_timestamp
    }

    pub fn set_stratum(&mut self, stratum: u8)
        ensures
            *final(self) == (NtpPacket { stratum, ..*old(self) }),
    {
        self.stratum = stratum;
    }

    pub fn set_mode(&mut self, mode: NtpAssociationMode)
        ensures
            *final(self) == (NtpPacket { mode, ..*old(self) }),
    {
        self.mode = mode;
    }

    pub fn set_leap(&mut self, leap: NtpLeapIndicator)
        ensures
            *final(self) == (NtpPacket { leap, ..*old(self) }),
    {
        self.leap = leap;
    }

    pub fn set_precision(&mut self, precision: i8)
        ensures
            *final(self) == (NtpPacket { precision, ..*old(self) }),
    {
        self.precision = precision;
    }

    pub fn set_reference_id(&mut self, reference_id: ReferenceId)
        ensures
            *final(self) == (NtpPacket { reference_id, ..*old(self) }),
    {
        self.reference_id = reference_id;
    }

    pub fn set_root_delay(&mut self, root_delay: NtpDuration)
        ensures
            *final(self) == (NtpPacket { root_delay, ..*old(self) }),
    {
        self.root_delay = root_delay;
    }

    pub fn set_root_dispersion(&mut self, root_dispersion: NtpDuration)
        ensures
            *final(self) == (NtpPacket { root_dispersion, ..*old(self) }),
    {
        self.root_dispersion = root_dispersion;
    }

    pub fn set_origin_timestamp(&mut self, origin_timestamp: NtpTimestamp)
        ensures
            *final(self) == (NtpPacket { origin_timestamp, ..*old(self) }),
    {
        self.origin_timestamp = origin_timestamp;
    }

    pub fn set_receive_timestamp(&mut self, receive_timestamp: NtpTimestamp)
        ensures
            *final(self) == (NtpPacket { receive_timestamp, ..*old(self) }),
    {
        self.receive_timestamp = receive_timestamp;
    }

    pub fn set_transmit_timestamp(&mut self, transmit_timestamp: NtpTimestamp)
        ensures
            *final(self) == (NtpPacket { transmit_timestamp, ..*old(self) }),
    {
        self.transmit_timestamp = transmit_timestamp;
    }
}

} // verus!
