//! What the server does with each chunk of bytes a device sends.
use vstd::prelude::*;
use crate::parser::codec8e::hex_encode;
use crate::parser::models::AvlData;
use crate::parser::FrameError;
use crate::parser::TeltonikaParser;

verus! {

/// The reply to an accepted IMEI handshake: the single byte `1`.
pub open spec fn imei_ack() -> Seq<u8> {
    seq![1u8]
}

/// The reply to a stored data packet: its number of records as a 4-byte
/// big-endian integer.
pub open spec fn avl_ack(number_of_data: u8) -> Seq<u8> {
    seq![0u8, 0u8, 0u8, number_of_data]
}

/// What the connection handler is to do after one chunk of bytes.
pub enum ClientAction {
    /// Close the connection; for a frame of another codec or with
    /// undecodable records, `reason` says why.
    Close { reason: Option<FrameError> },
    /// Send `ack`: the device's IMEI was accepted.
    AcknowledgeImei { ack: Vec<u8> },
    /// Store `data` with `raw_hex` (the chunk as lowercase hexadecimal) under
    /// the session's IMEI, notify the API, then send `ack`.
    StoreAvl { data: AvlData, raw_hex: String, ack: Vec<u8> },
    /// Do nothing and wait for more bytes.
    Wait,
}

/// The state of one device connection: the IMEI it announced, empty until
/// the handshake.
pub struct ClientSession {
    pub imei: String,
}

impl ClientSession {
    /// A connection that has not yet sent its IMEI.
    pub fn new() -> (s: Self)
        ensures
            s.imei@ == Seq::<char>::empty(),
    {
        ClientSession { imei: String::new() }
    }

    /// Decides what to do with one decoded frame. An invalid frame closes the
    /// connection; a handshake sets the session's IMEI and is acknowledged
    /// with one byte; a data packet with records is stored and acknowledged
    /// with its record count; a data packet without records closes the
    /// connection. Only a handshake changes the session.
    pub fn handle_frame(&mut self, frame: TeltonikaParser, raw_hex: String) -> (a: ClientAction)
        ensures
            frame.invalid ==> (a matches ClientAction::Close { reason } && reason == frame.error)
                && final(self).imei@ == old(self).imei@,
            !frame.invalid && frame.is_imei ==> match frame.imei {
                Some(i) => final(self).imei@ == i@ && (a matches ClientAction::AcknowledgeImei { ack }
                    && ack@ == imei_ack()),
                None => a is Wait && final(self).imei@ == old(self).imei@,
            },
            !frame.invalid && !frame.is_imei ==> final(self).imei@ == old(self).imei@ && match frame.avl_data {
                Some(d) => if d.records.len() == 0 {
                    a matches ClientAction::Close { reason } && reason is None
                } else {
                    (a matches ClientAction::StoreAvl { data, raw_hex: r, ack } && data@ == d@
                        && r@ == raw_hex@ && ack@ == avl_ack(d.number_of_data))
                },
                None => a is Wait,
            },
    {
        if frame.invalid {
            return ClientAction::Close { reason: frame.error };
        }
        if frame.is_imei {
            match frame.imei {
                Some(i) => {
                    self.imei = i;
                    ClientAction::AcknowledgeImei { ack: vec![1u8] }
                },
                None => ClientAction::Wait,
            }
        } else {
            match frame.avl_data {
                Some(data) => {
                    if data.records.len() == 0 {
                        ClientAction::Close { reason: None }
                    } else {
                        let n = data.number_of_data;
                        let ack = vec![0u8, 0u8, 0u8, n];
                        assert(ack@ =~= avl_ack(n));
                        ClientAction::StoreAvl { data, raw_hex, ack }
                    }
                },
                None => ClientAction::Wait,
            }
        }
    }

    /// Decodes a chunk of received bytes and decides what to do with it, as
    /// [`ClientSession::handle_frame`] does with the decoded frame; the bytes
    /// are kept, as hexadecimal text, with the records to store.
    pub fn handle_data(&mut self, bytes: Vec<u8>) -> (a: ClientAction)
        ensures
            crate::parser::packet(bytes@).invalid ==> (a matches ClientAction::Close { reason } && reason
                == crate::parser::packet(bytes@).error) && final(self).imei@ == old(self).imei@,
            crate::parser::packet(bytes@).is_imei ==> (a matches ClientAction::AcknowledgeImei { ack }
                && ack@ == imei_ack() && crate::parser::packet(bytes@).imei == Some(final(self).imei@)),
            crate::parser::packet(bytes@).avl_data matches Some(d) ==> final(self).imei@ == old(self).imei@ && if d.records.len()
                == 0 {
                a matches ClientAction::Close { reason } && reason is None
            } else {
                a matches ClientAction::StoreAvl { data, raw_hex, ack } && data@ == d && raw_hex@
                    == crate::text::hex_lower(bytes@) && ack@ == avl_ack(d.number_of_data)
            },
    {
        let ghost b = bytes@;
        let raw_hex = hex_encode(&bytes);
        let frame = TeltonikaParser::new(bytes);
        proof {
            crate::parser::laws::lemma_packet_kinds(b);
        }
        self.handle_frame(frame, raw_hex)
    }
}

/// The acknowledgement of a data packet is its record count written as a
/// 4-byte big-endian number: reading it back gives the count.
pub proof fn lemma_avl_ack_encodes_count(number_of_data: u8)
    ensures
        avl_ack(number_of_data).len() == 4,
        crate::parser::reader::be_uint(avl_ack(number_of_data)) == number_of_data,
{
    let a = avl_ack(number_of_data);
    assert(a.drop_last() =~= seq![0u8, 0u8, 0u8]);
    assert(a.drop_last().drop_last() =~= seq![0u8, 0u8]);
    assert(a.drop_last().drop_last().drop_last() =~= seq![0u8]);
    assert(a.drop_last().drop_last().drop_last().drop_last() =~= Seq::<u8>::empty());
    reveal_with_fuel(crate::parser::reader::be_uint, 5);
}

} // verus!
