//! The decoded content of AVL packets.
use vstd::prelude::*;

verus! {

/// The position block of an AVL record. Longitude and latitude are kept as
/// the device sends them: signed integers in units of 10^-7 degree.
#[derive(Clone, Copy, Debug, PartialEq, Eq, Structural)]
pub struct TeltonikaGps {
    pub longitude: i32,
    pub latitude: i32,
    pub altitude: i16,
    pub angle: i16,
    pub satellites: u8,
    pub speed: i16,
}

/// One IO element with a 1-, 2-, 4- or variable-byte value, described by the
/// IO definition table: `value` is its value as text (decimal digits for
/// numbers, lowercase hexadecimal for raw bytes), `dimension` its unit and
/// `value_human` the name of its value; both are empty when unknown.
#[derive(Debug)]
pub struct IoElement {
    pub id: u16,
    pub label: String,
    pub value: String,
    pub dimension: String,
    pub value_human: String,
}

/// The mathematical content of an [`IoElement`].
pub struct IoElementView {
    pub id: u16,
    pub label: Seq<char>,
    pub value: Seq<char>,
    pub dimension: Seq<char>,
    pub value_human: Seq<char>,
}

impl View for IoElement {
    type V = IoElementView;

    open spec fn view(&self) -> IoElementView {
        IoElementView {
            id: self.id,
            label: self.label@,
            value: self.value@,
            dimension: self.dimension@,
            value_human: self.value_human@,
        }
    }
}

/// One 8-byte IO element: its id and the 64 bits of its IEEE-754 double
/// value, most significant bit first as sent.
#[derive(Clone, Copy, Debug, PartialEq, Eq, Structural)]
pub struct IoDouble {
    pub id: u16,
    pub bits: u64,
}

/// The IO elements of a record, grouped by the width of their values.
#[derive(Debug)]
pub struct IoGroup {
    pub n1: Vec<IoElement>,
    pub n2: Vec<IoElement>,
    pub n4: Vec<IoElement>,
    pub n8: Vec<IoDouble>,
    pub nx: Vec<IoElement>,
}

/// The mathematical content of an [`IoGroup`].
pub struct IoGroupView {
    pub n1: Seq<IoElementView>,
    pub n2: Seq<IoElementView>,
    pub n4: Seq<IoElementView>,
    pub n8: Seq<IoDouble>,
    pub nx: Seq<IoElementView>,
}

/// The views of a sequence of IO elements.
pub open spec fn elements_view(v: Seq<IoElement>) -> Seq<IoElementView> {
    v.map_values(|e: IoElement| e@)
}

impl View for IoGroup {
    type V = IoGroupView;

    open spec fn view(&self) -> IoGroupView {
        IoGroupView {
            n1: elements_view(self.n1@),
            n2: elements_view(self.n2@),
            n4: elements_view(self.n4@),
            n8: self.n8@,
            nx: elements_view(self.nx@),
        }
    }
}

/// One AVL record. `timestamp` counts milliseconds since 1970-01-01 00:00 UTC.
#[derive(Debug)]
pub struct AvlRecord {
    pub timestamp: i64,
    pub priority: u8,
    pub gps: TeltonikaGps,
    pub event_id: u16,
    pub io_groups: IoGroup,
    pub properties_count: u16,
}

/// The mathematical content of an [`AvlRecord`].
pub struct AvlRecordView {
    pub timestamp: i64,
    pub priority: u8,
    pub gps: TeltonikaGps,
    pub event_id: u16,
    pub io_groups: IoGroupView,
    pub properties_count: u16,
}

impl View for AvlRecord {
    type V = AvlRecordView;

    open spec fn view(&self) -> AvlRecordView {
        AvlRecordView {
            timestamp: self.timestamp,
            priority: self.priority,
            gps: self.gps,
            event_id: self.event_id,
            io_groups: self.io_groups@,
            properties_count: self.properties_count,
        }
    }
}

/// The views of a sequence of records.
pub open spec fn records_view(v: Seq<AvlRecord>) -> Seq<AvlRecordView> {
    v.map_values(|r: AvlRecord| r@)
}

/// The AVL content of one data packet.
#[derive(Debug)]
pub struct AvlData {
    pub codec_id: u8,
    pub number_of_data: u8,
    pub records: Vec<AvlRecord>,
}

/// The mathematical content of an [`AvlData`].
pub struct AvlDataView {
    pub codec_id: u8,
    pub number_of_data: u8,
    pub records: Seq<AvlRecordView>,
}

impl View for AvlData {
    type V = AvlDataView;

    open spec fn view(&self) -> AvlDataView {
        AvlDataView {
            codec_id: self.codec_id,
            number_of_data: self.number_of_data,
            records: records_view(self.records@),
        }
    }
}

} // verus!
