//! Decoding of the frames a Teltonika device sends over TCP: the IMEI
//! handshake and AVL data packets.
pub mod codec8e;
pub mod io_elements;
pub mod laws;
pub mod models;
pub mod reader;

use vstd::prelude::*;
use crate::parser::models as m;
use crate::parser::models::AvlData;
use crate::parser::reader::ByteReader;

verus! {

/// The codec id of Codec 8 Extended, the only codec this server decodes.
pub const CODEC_8_EXTENDED: u8 = 142u8;

/// `String::from_utf8`: the bytes as a string when they are valid UTF-8.
#[verifier::external_body]
fn utf8_string(bytes: Vec<u8>) -> (r: Option<String>)
    ensures
        r is Some <==> vstd::utf8::valid_utf8(bytes@),
        r matches Some(s) ==> s@ == vstd::utf8::decode_utf8(bytes@),
{
    String::from_utf8(bytes).ok()
}

/// Why a frame that is not too short was found invalid.
#[derive(Clone, Copy, Debug, PartialEq, Eq, Structural)]
pub enum FrameError {
    /// The frame's codec is not Codec 8 Extended.
    UnsupportedCodec(u8),
    /// The frame's records do not decode.
    Records(crate::parser::codec8e::ParseError),
}

/// What one received frame turned out to be.
pub struct TeltonikaParser {
    /// The frame is the IMEI handshake.
    pub is_imei: bool,
    /// The IMEI, for a handshake frame.
    pub imei: Option<String>,
    /// The decoded AVL packet, for a data frame.
    pub avl_data: Option<AvlData>,
    /// The frame is neither: too short, of another codec, or undecodable.
    pub invalid: bool,
    /// For a frame of another codec or with undecodable records, why.
    pub error: Option<FrameError>,
}

/// The mathematical content of a [`TeltonikaParser`].
pub struct PacketView {
    pub is_imei: bool,
    pub imei: Option<Seq<char>>,
    pub avl_data: Option<m::AvlDataView>,
    pub invalid: bool,
    pub error: Option<FrameError>,
}

impl View for TeltonikaParser {
    type V = PacketView;

    open spec fn view(&self) -> PacketView {
        PacketView {
            is_imei: self.is_imei,
            imei: match self.imei {
                Some(s) => Some(s@),
                None => None,
            },
            avl_data: match self.avl_data {
                Some(a) => Some(a@),
                None => None,
            },
            invalid: self.invalid,
            error: self.error,
        }
    }
}

/// The frame has the shape of the IMEI handshake: a non-zero 2-byte length
/// followed by exactly that many bytes.
pub open spec fn imei_frame(buf: Seq<u8>) -> bool {
    &&& buf.len() >= 2
    &&& crate::parser::reader::be_uint(buf.take(2)) > 0
    &&& buf.len() == crate::parser::reader::be_uint(buf.take(2)) + 2
}

/// A frame that is neither a handshake nor a decodable data packet, with
/// the reason found for it, if any.
pub open spec fn invalid_packet(error: Option<FrameError>) -> PacketView {
    PacketView { is_imei: false, imei: None, avl_data: None, invalid: true, error }
}

/// How a received frame is understood. A handshake-shaped frame whose IMEI
/// bytes are valid UTF-8 is the handshake. Otherwise the frame is a data
/// packet: a 4-byte data length (not checked), the codec id, the number of
/// records, then the records. Frames shorter than that header, of another
/// codec than Codec 8 Extended, or whose records do not decode are invalid.
pub open spec fn packet(buf: Seq<u8>) -> PacketView {
    if imei_frame(buf) && vstd::utf8::valid_utf8(buf.skip(2)) {
        PacketView {
            is_imei: true,
            imei: Some(vstd::utf8::decode_utf8(buf.skip(2))),
            avl_data: None,
            invalid: false,
            error: None,
        }
    } else if buf.len() < 8 {
        invalid_packet(None)
    } else if buf[4] != CODEC_8_EXTENDED {
        invalid_packet(Some(FrameError::UnsupportedCodec(buf[4])))
    } else {
        match crate::parser::codec8e::records(buf.skip(6), buf[5] as nat) {
            Ok((rs, _)) => PacketView {
                is_imei: false,
                imei: None,
                avl_data: Some(m::AvlDataView { codec_id: buf[4], number_of_data: buf[5], records: rs }),
                invalid: false,
                error: None,
            },
            Err(e) => invalid_packet(Some(FrameError::Records(e))),
        }
    }
}

impl TeltonikaParser {
    fn invalid(error: Option<FrameError>) -> (p: Self)
        ensures
            p@ == invalid_packet(error),
    {
        TeltonikaParser { is_imei: false, imei: None, avl_data: None, invalid: true, error }
    }

    /// Classifies and decodes one received frame.
    pub fn new(buf: Vec<u8>) -> (p: Self)
        ensures
            p@ == packet(buf@),
    {
        let ghost b = buf@;
        let mut reader = ByteReader::new(buf);
        if reader.remaining() >= 2 {
            let imei_len = reader.get_u16();
            if imei_len > 0 && reader.remaining() == imei_len as usize {
                let imei_bytes = reader.copy_to_vec(imei_len as usize);
                assert(b.skip(2).take(imei_len as int) =~= b.skip(2));
                if let Some(imei) = utf8_string(imei_bytes) {
                    return TeltonikaParser {
                        is_imei: true,
                        imei: Some(imei),
                        avl_data: None,
                        invalid: false,
                        error: None,
                    };
                }
            }
        }
        let mut reader = ByteReader::new(reader.into_inner());
        if reader.remaining() < 8 {
            return Self::invalid(None);
        }
        let _data_length = reader.get_i32();
        let codec_id = reader.get_u8();
        let number_of_data = reader.get_u8();
        assert(reader@ =~= b.skip(6));
        if codec_id != CODEC_8_EXTENDED {
            return Self::invalid(Some(FrameError::UnsupportedCodec(codec_id)));
        }
        match crate::parser::codec8e::parse(&mut reader, number_of_data) {
            Ok(records) => TeltonikaParser {
                is_imei: false,
                imei: None,
                avl_data: Some(AvlData { codec_id, number_of_data, records }),
                invalid: false,
                error: None,
            },
            Err(e) => Self::invalid(Some(FrameError::Records(e))),
        }
    }
}

} // verus!
