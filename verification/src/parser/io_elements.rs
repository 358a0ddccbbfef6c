//! The table of known IO element ids: their labels, units and value names.
use std::collections::HashMap;
use vstd::prelude::*;

verus! {

broadcast use vstd::std_specs::hash::group_hash_axioms;

/// What the server knows of one IO element id: a human-readable label, an
/// optional unit, and optionally names for some of its values.
pub struct IoElementDefinition {
    pub label: &'static str,
    pub dimension: Option<&'static str>,
    pub values: Option<HashMap<i64, &'static str>>,
}

/// The mathematical content of an [`IoElementDefinition`].
pub struct DefinitionView {
    pub label: Seq<char>,
    pub dimension: Option<Seq<char>>,
    pub values: Option<Map<i64, Seq<char>>>,
}

/// A value table with its names taken as character sequences.
pub open spec fn values_view(m: Map<i64, &'static str>) -> Map<i64, Seq<char>> {
    m.map_values(|s: &'static str| s@)
}

impl View for IoElementDefinition {
    type V = DefinitionView;

    open spec fn view(&self) -> DefinitionView {
        DefinitionView {
            label: self.label@,
            dimension: match self.dimension {
                Some(d) => Some(d@),
                None => None,
            },
            values: match self.values {
                Some(v) => Some(values_view(v@)),
                None => None,
            },
        }
    }
}

/// The view of an optional definition.
pub open spec fn definition_view(d: Option<IoElementDefinition>) -> Option<DefinitionView> {
    match d {
        Some(d) => Some(d@),
        None => None,
    }
}

/// A known id's entry.
pub open spec fn def(
    label: Seq<char>,
    dimension: Option<Seq<char>>,
    values: Option<Map<i64, Seq<char>>>,
) -> Option<DefinitionView> {
    Some(DefinitionView { label, dimension, values })
}

/// The table of IO element definitions, by id; `None` for an id the server
/// does not know.
#[verifier::opaque]
pub open spec fn io_definition(id: u16) -> Option<DefinitionView> {
    match id {
        1 => def(
            "Digital Input 1"@,
            None,
            Some(map![0 => "0"@, 1 => "1"@]),
        ),
        4 => def("Pulse counter DIN1"@, None, None),
        9 => def("Analog Input 1"@, Some("V"@), None),
        10 => def(
            "SD Status"@,
            None,
            Some(map![0 => "Not present"@, 1 => "Present"@]),
        ),
        11 => def("SIM ICCID1 number"@, None, None),
        12 => def("Fuel Used GPS"@, None, None),
        13 => def("Average Fuel Use"@, Some("L / 100 km"@), None),
        14 => def("SIM ICCID2 number"@, None, None),
        15 => def("Eco Score"@, None, None),
        16 => def("Total Odometer"@, Some("m"@), None),
        17 => def("Axis X"@, Some("mg"@), None),
        18 => def("Axis Y"@, Some("mg"@), None),
        19 => def("Axis Z"@, Some("mg"@), None),
        20 => def("BLE 2 Battery Voltage"@, Some("%"@), None),
        21 => def(
            "GSM Signal"@,
            None,
            Some(map![1 => "1"@, 2 => "2"@, 3 => "3"@, 4 => "4"@, 5 => "5"@]),
        ),
        22 => def("BLE 3 Battery Voltage"@, Some("%"@), None),
        23 => def("BLE 4 Battery Voltage"@, Some("%"@), None),
        24 => def("Speed"@, Some("km/h"@), None),
        25 => def("BLE 1 Temperature"@, Some("C"@), None),
        26 => def("BLE 2 Temperature"@, Some("C"@), None),
        27 => def("BLE 3 Temperature"@, Some("C"@), None),
        28 => def("BLE 4 Temperature"@, Some("C"@), None),
        29 => def("BLE 1 Battery Voltage"@, Some("%"@), None),
        30 => def("Number of DTC"@, None, None),
        31 => def("Calculated engine load value"@, Some("%"@), None),
        32 => def("Engine coolant temperature"@, Some("C"@), None),
        33 => def("Short term fuel trim 1"@, Some("%"@), None),
        34 => def("Fuel pressure"@, Some("kPa"@), None),
        35 => def("Intake manifold absolute pressure"@, Some("kPa"@), None),
        36 => def("Engine RPM"@, Some("rpm"@), None),
        37 => def("Vehicle speed"@, Some("km/h"@), None),
        38 => def("Timing advance"@, Some("O"@), None),
        39 => def("Intake air temperature"@, Some("C"@), None),
        40 => def("MAF air flow rate"@, Some("g/sec, *0.01"@), None),
        41 => def("Throttle position"@, Some("%"@), None),
        42 => def("Run time since engine start"@, Some("s"@), None),
        43 => def("Distance traveled MIL on"@, Some("Km"@), None),
        44 => def("Relative fuel rail pressure"@, Some("kPa*0.1"@), None),
        45 => def("Direct fuel rail pressure"@, Some("kPa*0.1"@), None),
        46 => def("Commanded EGR"@, Some("%"@), None),
        47 => def("EGR error"@, Some("%"@), None),
        48 => def("Fuel level"@, Some("%"@), None),
        49 => def("Distance traveled since codes cleared"@, Some("Km"@), None),
        50 => def("Barometric pressure"@, Some("kPa"@), None),
        51 => def("Control module voltage"@, Some("mV"@), None),
        52 => def("Absolute load value"@, Some("%"@), None),
        53 => def("Ambient air temperature"@, Some("C"@), None),
        54 => def("Time run with MIL on"@, Some("min"@), None),
        55 => def("Time since trouble codes cleared"@, Some("min"@), None),
        56 => def("Absolute fuel rail pressure"@, Some("kPa*10"@), None),
        57 => def("Hybrid battery pack remaining life"@, Some("%"@), None),
        58 => def("Engine oil temperature"@, Some("C"@), None),
        59 => def("Fuel injection timing"@, Some("O, *0.01"@), None),
        60 => def("Engine fuel rate"@, Some("L/h, *100"@), None),
        66 => def("Ext Voltage"@, Some("mV"@), None),
        67 => def("Internal Battery Voltage"@, Some("mV"@), None),
        68 => def("Internal Battery Current"@, Some("mA"@), None),
        69 => def(
            "GNSS Status"@,
            None,
            Some(map![0 => "OFF"@, 1 => "ON with fix"@, 2 => "ON without fix"@, 3 => "In sleep state"@]),
        ),
        70 => def("PCB temperature"@, Some("deg C"@), None),
        80 => def(
            "Data Mode"@,
            None,
            Some(map![0 => "Home On Stop"@, 1 => "Home On Moving"@, 2 => "Roaming On Stop"@, 3 => "Roaming On Moving"@, 4 => "Unknown On Stop"@, 5 => "Unknown On Moving"@]),
        ),
        86 => def("BLE 1 Humidity"@, Some("%RH"@), None),
        104 => def("BLE 2 Humidity"@, Some("%RH"@), None),
        106 => def("BLE 3 Humidity"@, Some("%RH"@), None),
        108 => def("BLE 4 Humidity"@, Some("%RH"@), None),
        113 => def("Internal Battery level"@, Some("%"@), None),
        175 => def("Auto geofence"@, None, None),
        179 => def("Digital Output"@, None, None),
        181 => def("PDOP"@, Some("m"@), None),
        182 => def("HDOP"@, Some("m"@), None),
        199 => def("Trip Odometer"@, Some("m"@), None),
        200 => def(
            "Sleep Mode"@,
            None,
            Some(map![0 => "No Sleep"@, 1 => "GPS Sleep"@, 2 => "Deep Sleep"@]),
        ),
        205 => def("GSM Cell ID"@, None, None),
        206 => def("GSM Area Code"@, None, None),
        237 => def("Network Type"@, None, None),
        238 => def("User ID"@, None, None),
        239 => def(
            "Ignition"@,
            None,
            Some(map![0 => "No"@, 1 => "Yes"@]),
        ),
        240 => def(
            "Movement"@,
            None,
            Some(map![0 => "No"@, 1 => "Yes"@]),
        ),
        241 => def("GSM Operator"@, None, None),
        243 => def("Green Driving Event Duration"@, Some("ms"@), None),
        246 => def(
            "Towing Detection"@,
            None,
            Some(map![1 => "Towing detected"@]),
        ),
        247 => def(
            "Crash Detection"@,
            None,
            Some(map![1 => "Crash Detected"@, 2 => "Crash Trace Record"@, 3 => "Crash trace record(calibrated)"@]),
        ),
        249 => def(
            "Jamming Detection"@,
            None,
            Some(map![0 => "Jamming Ended"@, 1 => "Jamming Detected"@]),
        ),
        250 => def(
            "Trip Event"@,
            None,
            Some(map![0 => "Trip Ended"@, 1 => "Trip Started"@, 2 => "Business Status"@, 3 => "Private Status"@, 4 => "Custom Statuses"@, 5 => "Custom Statuses"@, 6 => "Custom Statuses"@, 7 => "Custom Statuses"@, 8 => "Custom Statuses"@, 9 => "Custom Statuses"@]),
        ),
        251 => def(
            "Idling Event"@,
            None,
            Some(map![0 => "Idling ended event"@, 1 => "Idling started event"@]),
        ),
        252 => def(
            "Unplug Event"@,
            None,
            Some(map![1 => "Send when unplug event happens"@]),
        ),
        253 => def(
            "Green Driving Type"@,
            None,
            Some(map![1 => "Acceleration"@, 2 => "Braking"@, 3 => "Cornering"@]),
        ),
        254 => def("Eco driving value"@, Some("G/rad"@), None),
        255 => def("Overspeeding Event"@, Some("km/h"@), None),
        256 => def("VIN"@, None, None),
        281 => def("fault codes"@, None, None),
        303 => def("Instant Movement"@, None, None),
        358 => def("Custom scenario 1"@, None, None),
        359 => def("Custom scenario 2"@, None, None),
        360 => def("Custom scenario 3"@, None, None),
        641 => def("ICCID"@, None, None),
        800 => def("External Voltage"@, Some("mV"@), None),
        841 => def("Digital Output 1 Overcurrent"@, None, None),
        1148 => def("Connectivity quality"@, Some("dBm"@), None),
        1429 => def("Crash average vector"@, Some("mG"@), None),
        1432 => def("Crash max vector"@, Some("mG"@), None),
        257 => def("Crash trace data"@, None, None),
        383 => def("Accel calibration"@, None, None),
        386 => def("Time from last gnss fix"@, Some("seconds"@), None),
        449 => def("Ignition On Counter"@, Some("seconds"@), None),
        13266 => def("Current log file"@, None, None),
        13267 => def("Max log file count"@, None, None),
        _ => None,
    }
}

/// Looks up the definition of IO element `id` in the table.
pub fn get_io_element_definition(id: u16) -> (r: Option<IoElementDefinition>)
    ensures
        definition_view(r) == io_definition(id),
{
    reveal(io_definition);
    match id {
        1 => {
            let mut values = HashMap::new();
            values.insert(0, "0");
            values.insert(1, "1");
            assert(values_view(values@) =~= map![0 => "0"@, 1 => "1"@]);
            Some(IoElementDefinition { label: "Digital Input 1", dimension: None, values: Some(values) })
        }
        4 => Some(IoElementDefinition { label: "Pulse counter DIN1", dimension: None, values: None }),
        9 => Some(IoElementDefinition { label: "Analog Input 1", dimension: Some("V"), values: None }),
        10 => {
            let mut values = HashMap::new();
            values.insert(0, "Not present");
            values.insert(1, "Present");
            assert(values_view(values@) =~= map![0 => "Not present"@, 1 => "Present"@]);
            Some(IoElementDefinition { label: "SD Status", dimension: None, values: Some(values) })
        }
        11 => Some(IoElementDefinition { label: "SIM ICCID1 number", dimension: None, values: None }),
        12 => Some(IoElementDefinition { label: "Fuel Used GPS", dimension: None, values: None }),
        13 => Some(IoElementDefinition { label: "Average Fuel Use", dimension: Some("L / 100 km"), values: None }),
        14 => Some(IoElementDefinition { label: "SIM ICCID2 number", dimension: None, values: None }),
        15 => Some(IoElementDefinition { label: "Eco Score", dimension: None, values: None }),
        16 => Some(IoElementDefinition { label: "Total Odometer", dimension: Some("m"), values: None }),
        17 => Some(IoElementDefinition { label: "Axis X", dimension: Some("mg"), values: None }),
        18 => Some(IoElementDefinition { label: "Axis Y", dimension: Some("mg"), values: None }),
        19 => Some(IoElementDefinition { label: "Axis Z", dimension: Some("mg"), values: None }),
        20 => Some(IoElementDefinition { label: "BLE 2 Battery Voltage", dimension: Some("%"), values: None }),
        21 => {
            let mut values = HashMap::new();
            values.insert(1, "1");
            values.insert(2, "2");
            values.insert(3, "3");
            values.insert(4, "4");
            values.insert(5, "5");
            assert(values_view(values@) =~= map![1 => "1"@, 2 => "2"@, 3 => "3"@, 4 => "4"@, 5 => "5"@]);
            Some(IoElementDefinition { label: "GSM Signal", dimension: None, values: Some(values) })
        }
        22 => Some(IoElementDefinition { label: "BLE 3 Battery Voltage", dimension: Some("%"), values: None }),
        23 => Some(IoElementDefinition { label: "BLE 4 Battery Voltage", dimension: Some("%"), values: None }),
        24 => Some(IoElementDefinition { label: "Speed", dimension: Some("km/h"), values: None }),
        25 => Some(IoElementDefinition { label: "BLE 1 Temperature", dimension: Some("C"), values: None }),
        26 => Some(IoElementDefinition { label: "BLE 2 Temperature", dimension: Some("C"), values: None }),
        27 => Some(IoElementDefinition { label: "BLE 3 Temperature", dimension: Some("C"), values: None }),
        28 => Some(IoElementDefinition { label: "BLE 4 Temperature", dimension: Some("C"), values: None }),
        29 => Some(IoElementDefinition { label: "BLE 1 Battery Voltage", dimension: Some("%"), values: None }),
        30 => Some(IoElementDefinition { label: "Number of DTC", dimension: None, values: None }),
        31 => Some(IoElementDefinition { label: "Calculated engine load value", dimension: Some("%"), values: None }),
        32 => Some(IoElementDefinition { label: "Engine coolant temperature", dimension: Some("C"), values: None }),
        33 => Some(IoElementDefinition { label: "Short term fuel trim 1", dimension: Some("%"), values: None }),
        34 => Some(IoElementDefinition { label: "Fuel pressure", dimension: Some("kPa"), values: None }),
        35 => Some(IoElementDefinition { label: "Intake manifold absolute pressure", dimension: Some("kPa"), values: None }),
        36 => Some(IoElementDefinition { label: "Engine RPM", dimension: Some("rpm"), values: None }),
        37 => Some(IoElementDefinition { label: "Vehicle speed", dimension: Some("km/h"), values: None }),
        38 => Some(IoElementDefinition { label: "Timing advance", dimension: Some("O"), values: None }),
        39 => Some(IoElementDefinition { label: "Intake air temperature", dimension: Some("C"), values: None }),
        40 => Some(IoElementDefinition { label: "MAF air flow rate", dimension: Some("g/sec, *0.01"), values: None }),
        41 => Some(IoElementDefinition { label: "Throttle position", dimension: Some("%"), values: None }),
        42 => Some(IoElementDefinition { label: "Run time since engine start", dimension: Some("s"), values: None }),
        43 => Some(IoElementDefinition { label: "Distance traveled MIL on", dimension: Some("Km"), values: None }),
        44 => Some(IoElementDefinition { label: "Relative fuel rail pressure", dimension: Some("kPa*0.1"), values: None }),
        45 => Some(IoElementDefinition { label: "Direct fuel rail pressure", dimension: Some("kPa*0.1"), values: None }),
        46 => Some(IoElementDefinition { label: "Commanded EGR", dimension: Some("%"), values: None }),
        47 => Some(IoElementDefinition { label: "EGR error", dimension: Some("%"), values: None }),
        48 => Some(IoElementDefinition { label: "Fuel level", dimension: Some("%"), values: None }),
        49 => Some(IoElementDefinition { label: "Distance traveled since codes cleared", dimension: Some("Km"), values: None }),
        50 => Some(IoElementDefinition { label: "Barometric pressure", dimension: Some("kPa"), values: None }),
        51 => Some(IoElementDefinition { label: "Control module voltage", dimension: Some("mV"), values: None }),
        52 => Some(IoElementDefinition { label: "Absolute load value", dimension: Some("%"), values: None }),
        53 => Some(IoElementDefinition { label: "Ambient air temperature", dimension: Some("C"), values: None }),
        54 => Some(IoElementDefinition { label: "Time run with MIL on", dimension: Some("min"), values: None }),
        55 => Some(IoElementDefinition { label: "Time since trouble codes cleared", dimension: Some("min"), values: None }),
        56 => Some(IoElementDefinition { label: "Absolute fuel rail pressure", dimension: Some("kPa*10"), values: None }),
        57 => Some(IoElementDefinition { label: "Hybrid battery pack remaining life", dimension: Some("%"), values: None }),
        58 => Some(IoElementDefinition { label: "Engine oil temperature", dimension: Some("C"), values: None }),
        59 => Some(IoElementDefinition { label: "Fuel injection timing", dimension: Some("O, *0.01"), values: None }),
        60 => Some(IoElementDefinition { label: "Engine fuel rate", dimension: Some("L/h, *100"), values: None }),
        66 => Some(IoElementDefinition { label: "Ext Voltage", dimension: Some("mV"), values: None }),
        67 => Some(IoElementDefinition { label: "Internal Battery Voltage", dimension: Some("mV"), values: None }),
        68 => Some(IoElementDefinition { label: "Internal Battery Current", dimension: Some("mA"), values: None }),
        69 => {
            let mut values = HashMap::new();
            values.insert(0, "OFF");
            values.insert(1, "ON with fix");
            values.insert(2, "ON without fix");
            values.insert(3, "In sleep state");
            assert(values_view(values@) =~= map![0 => "OFF"@, 1 => "ON with fix"@, 2 => "ON without fix"@, 3 => "In sleep state"@]);
            Some(IoElementDefinition { label: "GNSS Status", dimension: None, values: Some(values) })
        }
        70 => Some(IoElementDefinition { label: "PCB temperature", dimension: Some("deg C"), values: None }),
        80 => {
            let mut values = HashMap::new();
            values.insert(0, "Home On Stop");
            values.insert(1, "Home On Moving");
            values.insert(2, "Roaming On Stop");
            values.insert(3, "Roaming On Moving");
            values.insert(4, "Unknown On Stop");
            values.insert(5, "Unknown On Moving");
            assert(values_view(values@) =~= map![0 => "Home On Stop"@, 1 => "Home On Moving"@, 2 => "Roaming On Stop"@, 3 => "Roaming On Moving"@, 4 => "Unknown On Stop"@, 5 => "Unknown On Moving"@]);
            Some(IoElementDefinition { label: "Data Mode", dimension: None, values: Some(values) })
        }
        86 => Some(IoElementDefinition { label: "BLE 1 Humidity", dimension: Some("%RH"), values: None }),
        104 => Some(IoElementDefinition { label: "BLE 2 Humidity", dimension: Some("%RH"), values: None }),
        106 => Some(IoElementDefinition { label: "BLE 3 Humidity", dimension: Some("%RH"), values: None }),
        108 => Some(IoElementDefinition { label: "BLE 4 Humidity", dimension: Some("%RH"), values: None }),
        113 => Some(IoElementDefinition { label: "Internal Battery level", dimension: Some("%"), values: None }),
        175 => Some(IoElementDefinition { label: "Auto geofence", dimension: None, values: None }),
        179 => Some(IoElementDefinition { label: "Digital Output", dimension: None, values: None }),
        181 => Some(IoElementDefinition { label: "PDOP", dimension: Some("m"), values: None }),
        182 => Some(IoElementDefinition { label: "HDOP", dimension: Some("m"), values: None }),
        199 => Some(IoElementDefinition { label: "Trip Odometer", dimension: Some("m"), values: None }),
        200 => {
            let mut values = HashMap::new();
            values.insert(0, "No Sleep");
            values.insert(1, "GPS Sleep");
            values.insert(2, "Deep Sleep");
            assert(values_view(values@) =~= map![0 => "No Sleep"@, 1 => "GPS Sleep"@, 2 => "Deep Sleep"@]);
            Some(IoElementDefinition { label: "Sleep Mode", dimension: None, values: Some(values) })
        }
        205 => Some(IoElementDefinition { label: "GSM Cell ID", dimension: None, values: None }),
        206 => Some(IoElementDefinition { label: "GSM Area Code", dimension: None, values: None }),
        237 => Some(IoElementDefinition { label: "Network Type", dimension: None, values: None }),
        238 => Some(IoElementDefinition { label: "User ID", dimension: None, values: None }),
        239 => {
            let mut values = HashMap::new();
            values.insert(0, "No");
            values.insert(1, "Yes");
            assert(values_view(values@) =~= map![0 => "No"@, 1 => "Yes"@]);
            Some(IoElementDefinition { label: "Ignition", dimension: None, values: Some(values) })
        }
        240 => {
            let mut values = HashMap::new();
            values.insert(0, "No");
            values.insert(1, "Yes");
            assert(values_view(values@) =~= map![0 => "No"@, 1 => "Yes"@]);
            Some(IoElementDefinition { label: "Movement", dimension: None, values: Some(values) })
        }
        241 => Some(IoElementDefinition { label: "GSM Operator", dimension: None, values: None }),
        243 => Some(IoElementDefinition { label: "Green Driving Event Duration", dimension: Some("ms"), values: None }),
        246 => {
            let mut values = HashMap::new();
            values.insert(1, "Towing detected");
            assert(values_view(values@) =~= map![1 => "Towing detected"@]);
            Some(IoElementDefinition { label: "Towing Detection", dimension: None, values: Some(values) })
        }
        247 => {
            let mut values = HashMap::new();
            values.insert(1, "Crash Detected");
            values.insert(2, "Crash Trace Record");
            values.insert(3, "Crash trace record(calibrated)");
            assert(values_view(values@) =~= map![1 => "Crash Detected"@, 2 => "Crash Trace Record"@, 3 => "Crash trace record(calibrated)"@]);
            Some(IoElementDefinition { label: "Crash Detection", dimension: None, values: Some(values) })
        }
        249 => {
            let mut values = HashMap::new();
            values.insert(0, "Jamming Ended");
            values.insert(1, "Jamming Detected");
            assert(values_view(values@) =~= map![0 => "Jamming Ended"@, 1 => "Jamming Detected"@]);
            Some(IoElementDefinition { label: "Jamming Detection", dimension: None, values: Some(values) })
        }
        250 => {
            let mut values = HashMap::new();
            values.insert(0, "Trip Ended");
            values.insert(1, "Trip Started");
            values.insert(2, "Business Status");
            values.insert(3, "Private Status");
            values.insert(4, "Custom Statuses");
            values.insert(5, "Custom Statuses");
            values.insert(6, "Custom Statuses");
            values.insert(7, "Custom Statuses");
            values.insert(8, "Custom Statuses");
            values.insert(9, "Custom Statuses");
            assert(values_view(values@) =~= map![0 => "Trip Ended"@, 1 => "Trip Started"@, 2 => "Business Status"@, 3 => "Private Status"@, 4 => "Custom Statuses"@, 5 => "Custom Statuses"@, 6 => "Custom Statuses"@, 7 => "Custom Statuses"@, 8 => "Custom Statuses"@, 9 => "Custom Statuses"@]);
            Some(IoElementDefinition { label: "Trip Event", dimension: None, values: Some(values) })
        }
        251 => {
            let mut values = HashMap::new();
            values.insert(0, "Idling ended event");
            values.insert(1, "Idling started event");
            assert(values_view(values@) =~= map![0 => "Idling ended event"@, 1 => "Idling started event"@]);
            Some(IoElementDefinition { label: "Idling Event", dimension: None, values: Some(values) })
        }
        252 => {
            let mut values = HashMap::new();
            values.insert(1, "Send when unplug event happens");
            assert(values_view(values@) =~= map![1 => "Send when unplug event happens"@]);
            Some(IoElementDefinition { label: "Unplug Event", dimension: None, values: Some(values) })
        }
        253 => {
            let mut values = HashMap::new();
            values.insert(1, "Acceleration");
            values.insert(2, "Braking");
            values.insert(3, "Cornering");
            assert(values_view(values@) =~= map![1 => "Acceleration"@, 2 => "Braking"@, 3 => "Cornering"@]);
            Some(IoElementDefinition { label: "Green Driving Type", dimension: None, values: Some(values) })
        }
        254 => Some(IoElementDefinition { label: "Eco driving value", dimension: Some("G/rad"), values: None }),
        255 => Some(IoElementDefinition { label: "Overspeeding Event", dimension: Some("km/h"), values: None }),
        256 => Some(IoElementDefinition { label: "VIN", dimension: None, values: None }),
        281 => Some(IoElementDefinition { label: "fault codes", dimension: None, values: None }),
        303 => Some(IoElementDefinition { label: "Instant Movement", dimension: None, values: None }),
        358 => Some(IoElementDefinition { label: "Custom scenario 1", dimension: None, values: None }),
        359 => Some(IoElementDefinition { label: "Custom scenario 2", dimension: None, values: None }),
        360 => Some(IoElementDefinition { label: "Custom scenario 3", dimension: None, values: None }),
        641 => Some(IoElementDefinition { label: "ICCID", dimension: None, values: None }),
        800 => Some(IoElementDefinition { label: "External Voltage", dimension: Some("mV"), values: None }),
        841 => Some(IoElementDefinition { label: "Digital Output 1 Overcurrent", dimension: None, values: None }),
        1148 => Some(IoElementDefinition { label: "Connectivity quality", dimension: Some("dBm"), values: None }),
        1429 => Some(IoElementDefinition { label: "Crash average vector", dimension: Some("mG"), values: None }),
        1432 => Some(IoElementDefinition { label: "Crash max vector", dimension: Some("mG"), values: None }),
        257 => Some(IoElementDefinition { label: "Crash trace data", dimension: None, values: None }),
        383 => Some(IoElementDefinition { label: "Accel calibration", dimension: None, values: None }),
        386 => Some(IoElementDefinition { label: "Time from last gnss fix", dimension: Some("seconds"), values: None }),
        449 => Some(IoElementDefinition { label: "Ignition On Counter", dimension: Some("seconds"), values: None }),
        13266 => Some(IoElementDefinition { label: "Current log file", dimension: None, values: None }),
        13267 => Some(IoElementDefinition { label: "Max log file count", dimension: None, values: None }),
        _ => None,
    }
}


/// The character of `l` at position `i`, or `'\0'` past its ends.
pub open spec fn char_at(l: Seq<char>, i: int) -> char {
    if 0 <= i < l.len() {
        l[i]
    } else {
        '\0'
    }
}

/// A label's length with its first, fifth, tenth and last characters,
/// which together tell apart all labels of the table.
pub open spec fn label_key(l: Seq<char>) -> (nat, char, char, char, char) {
    (l.len(), char_at(l, 0), char_at(l, 4), char_at(l, 9), char_at(l, l.len() - 1))
}

/// The id whose label has the key `k` (0 for a key of no label).
pub open spec fn id_of_label_key(k: (nat, char, char, char, char)) -> u16 {
    if k == (15nat, 'D', 't', 'n', '1') {
        1
    } else if k == (18nat, 'P', 'e', 'n', '1') {
        4
    } else if k == (14nat, 'A', 'o', 'p', '1') {
        9
    } else if k == (9nat, 'S', 't', '\0', 's') {
        10
    } else if k == (17nat, 'S', 'I', '1', 'r') {
        11
    } else if k == (13nat, 'F', ' ', ' ', 'S') {
        12
    } else if k == (16nat, 'A', 'a', 'u', 'e') {
        13
    } else if k == (17nat, 'S', 'I', '2', 'r') {
        14
    } else if k == (9nat, 'E', 'S', '\0', 'e') {
        15
    } else if k == (14nat, 'T', 'l', 'm', 'r') {
        16
    } else if k == (6nat, 'A', ' ', '\0', 'X') {
        17
    } else if k == (6nat, 'A', ' ', '\0', 'Y') {
        18
    } else if k == (6nat, 'A', ' ', '\0', 'Z') {
        19
    } else if k == (21nat, 'B', '2', 't', 'e') {
        20
    } else if k == (10nat, 'G', 'S', 'l', 'l') {
        21
    } else if k == (21nat, 'B', '3', 't', 'e') {
        22
    } else if k == (21nat, 'B', '4', 't', 'e') {
        23
    } else if k == (5nat, 'S', 'd', '\0', 'd') {
        24
    } else if k == (17nat, 'B', '1', 'p', 'e') {
        25
    } else if k == (17nat, 'B', '2', 'p', 'e') {
        26
    } else if k == (17nat, 'B', '3', 'p', 'e') {
        27
    } else if k == (17nat, 'B', '4', 'p', 'e') {
        28
    } else if k == (21nat, 'B', '1', 't', 'e') {
        29
    } else if k == (13nat, 'N', 'e', ' ', 'C') {
        30
    } else if k == (28nat, 'C', 'u', 'd', 'e') {
        31
    } else if k == (26nat, 'E', 'n', 'o', 'e') {
        32
    } else if k == (22nat, 'S', 't', 'm', '1') {
        33
    } else if k == (13nat, 'F', ' ', 's', 'e') {
        34
    } else if k == (33nat, 'I', 'k', 'n', 'e') {
        35
    } else if k == (10nat, 'E', 'n', 'M', 'M') {
        36
    } else if k == (13nat, 'V', 'c', 'p', 'd') {
        37
    } else if k == (14nat, 'T', 'n', 'v', 'e') {
        38
    } else if k == (22nat, 'I', 'k', 'r', 'e') {
        39
    } else if k == (17nat, 'M', 'a', 'l', 'e') {
        40
    } else if k == (17nat, 'T', 't', 'p', 'n') {
        41
    } else if k == (27nat, 'R', 't', 's', 't') {
        42
    } else if k == (24nat, 'D', 'a', 't', 'n') {
        43
    } else if k == (27nat, 'R', 't', 'f', 'e') {
        44
    } else if k == (25nat, 'D', 'c', 'e', 'e') {
        45
    } else if k == (13nat, 'C', 'a', ' ', 'R') {
        46
    } else if k == (9nat, 'E', 'e', '\0', 'r') {
        47
    } else if k == (10nat, 'F', ' ', 'l', 'l') {
        48
    } else if k == (37nat, 'D', 'a', 't', 'd') {
        49
    } else if k == (19nat, 'B', 'm', 'c', 'e') {
        50
    } else if k == (22nat, 'C', 'r', 'o', 'e') {
        51
    } else if k == (19nat, 'A', 'l', 'l', 'e') {
        52
    } else if k == (23nat, 'A', 'e', 'i', 'e') {
        53
    } else if k == (20nat, 'T', ' ', 'w', 'n') {
        54
    } else if k == (32nat, 'T', ' ', 'e', 'd') {
        55
    } else if k == (27nat, 'A', 'l', 'f', 'e') {
        56
    } else if k == (34nat, 'H', 'i', 't', 'e') {
        57
    } else if k == (22nat, 'E', 'n', 'l', 'e') {
        58
    } else if k == (21nat, 'F', ' ', 'c', 'g') {
        59
    } else if k == (16nat, 'E', 'n', 'e', 'e') {
        60
    } else if k == (11nat, 'E', 'V', 'g', 'e') {
        66
    } else if k == (24nat, 'I', 'r', 'B', 'e') {
        67
    } else if k == (24nat, 'I', 'r', 'B', 't') {
        68
    } else if k == (11nat, 'G', ' ', 'u', 's') {
        69
    } else if k == (15nat, 'P', 't', 'r', 'e') {
        70
    } else if k == (9nat, 'D', ' ', '\0', 'e') {
        80
    } else if k == (14nat, 'B', '1', 'i', 'y') {
        86
    } else if k == (14nat, 'B', '2', 'i', 'y') {
        104
    } else if k == (14nat, 'B', '3', 'i', 'y') {
        106
    } else if k == (14nat, 'B', '4', 'i', 'y') {
        108
    } else if k == (22nat, 'I', 'r', 'B', 'l') {
        113
    } else if k == (13nat, 'A', ' ', 'e', 'e') {
        175
    } else if k == (14nat, 'D', 't', 'u', 't') {
        179
    } else if k == (4nat, 'P', '\0', '\0', 'P') {
        181
    } else if k == (4nat, 'H', '\0', '\0', 'P') {
        182
    } else if k == (13nat, 'T', ' ', 'e', 'r') {
        199
    } else if k == (10nat, 'S', 'p', 'e', 'e') {
        200
    } else if k == (11nat, 'G', 'C', 'I', 'D') {
        205
    } else if k == (13nat, 'G', 'A', 'C', 'e') {
        206
    } else if k == (12nat, 'N', 'o', 'y', 'e') {
        237
    } else if k == (7nat, 'U', ' ', '\0', 'D') {
        238
    } else if k == (8nat, 'I', 't', '\0', 'n') {
        239
    } else if k == (8nat, 'M', 'm', '\0', 't') {
        240
    } else if k == (12nat, 'G', 'O', 't', 'r') {
        241
    } else if k == (28nat, 'G', 'n', 'v', 'n') {
        243
    } else if k == (16nat, 'T', 'n', 't', 'n') {
        246
    } else if k == (15nat, 'C', 'h', 'e', 'n') {
        247
    } else if k == (17nat, 'J', 'i', 'e', 'n') {
        249
    } else if k == (10nat, 'T', ' ', 't', 't') {
        250
    } else if k == (12nat, 'I', 'n', 'e', 't') {
        251
    } else if k == (12nat, 'U', 'u', 'e', 't') {
        252
    } else if k == (18nat, 'G', 'n', 'v', 'e') {
        253
    } else if k == (17nat, 'E', 'd', 'n', 'e') {
        254
    } else if k == (18nat, 'O', 's', 'i', 't') {
        255
    } else if k == (3nat, 'V', '\0', '\0', 'N') {
        256
    } else if k == (11nat, 'f', 't', 'e', 's') {
        281
    } else if k == (16nat, 'I', 'a', 'o', 't') {
        303
    } else if k == (17nat, 'C', 'o', 'e', '1') {
        358
    } else if k == (17nat, 'C', 'o', 'e', '2') {
        359
    } else if k == (17nat, 'C', 'o', 'e', '3') {
        360
    } else if k == (5nat, 'I', 'D', '\0', 'D') {
        641
    } else if k == (16nat, 'E', 'r', 'V', 'e') {
        800
    } else if k == (28nat, 'D', 't', 'u', 't') {
        841
    } else if k == (20nat, 'C', 'e', 'i', 'y') {
        1148
    } else if k == (20nat, 'C', 'h', 'r', 'r') {
        1429
    } else if k == (16nat, 'C', 'h', ' ', 'r') {
        1432
    } else if k == (16nat, 'C', 'h', 'c', 'a') {
        257
    } else if k == (17nat, 'A', 'l', 'i', 'n') {
        383
    } else if k == (23nat, 'T', ' ', ' ', 'x') {
        386
    } else if k == (19nat, 'I', 't', 'O', 'r') {
        449
    } else if k == (16nat, 'C', 'e', 'o', 'e') {
        13266
    } else if k == (18nat, 'M', 'l', 'i', 't') {
        13267
    } else {
        0
    }
}

/// Facts about each entry of the definition table: its label is not empty
/// and is told apart from all others by its key, its unit is not empty, and
/// its value table names at least one value, each with a non-empty name.
pub proof fn lemma_entry_facts(id: u16)
    ensures
        io_definition(id) matches Some(d) ==> {
            &&& id_of_label_key(label_key(d.label)) == id
            &&& d.label.len() > 0
            &&& d.dimension matches Some(x) ==> x.len() > 0
            &&& d.values matches Some(m) ==> {
                &&& exists|k: i64| m.contains_key(k)
                &&& forall|k: i64| m.contains_key(k) ==> #[trigger] m[k].len() > 0
            }
        },
{
    reveal(io_definition);
    match id {
        1 => {
            reveal_strlit("Digital Input 1");
            reveal_strlit("0");
            reveal_strlit("1");
            assert(io_definition(id).unwrap().values.unwrap().contains_key(0));
        },
        4 => {
            reveal_strlit("Pulse counter DIN1");
        },
        9 => {
            reveal_strlit("Analog Input 1");
            reveal_strlit("V");
        },
        10 => {
            reveal_strlit("SD Status");
            reveal_strlit("Not present");
            reveal_strlit("Present");
            assert(io_definition(id).unwrap().values.unwrap().contains_key(0));
        },
        11 => {
            reveal_strlit("SIM ICCID1 number");
        },
        12 => {
            reveal_strlit("Fuel Used GPS");
        },
        13 => {
            reveal_strlit("Average Fuel Use");
            reveal_strlit("L / 100 km");
        },
        14 => {
            reveal_strlit("SIM ICCID2 number");
        },
        15 => {
            reveal_strlit("Eco Score");
        },
        16 => {
            reveal_strlit("Total Odometer");
            reveal_strlit("m");
        },
        17 => {
            reveal_strlit("Axis X");
            reveal_strlit("mg");
        },
        18 => {
            reveal_strlit("Axis Y");
            reveal_strlit("mg");
        },
        19 => {
            reveal_strlit("Axis Z");
            reveal_strlit("mg");
        },
        20 => {
            reveal_strlit("BLE 2 Battery Voltage");
            reveal_strlit("%");
        },
        21 => {
            reveal_strlit("GSM Signal");
            reveal_strlit("1");
            reveal_strlit("2");
            reveal_strlit("3");
            reveal_strlit("4");
            reveal_strlit("5");
            assert(io_definition(id).unwrap().values.unwrap().contains_key(1));
        },
        22 => {
            reveal_strlit("BLE 3 Battery Voltage");
            reveal_strlit("%");
        },
        23 => {
            reveal_strlit("BLE 4 Battery Voltage");
            reveal_strlit("%");
        },
        24 => {
            reveal_strlit("Speed");
            reveal_strlit("km/h");
        },
        25 => {
            reveal_strlit("BLE 1 Temperature");
            reveal_strlit("C");
        },
        26 => {
            reveal_strlit("BLE 2 Temperature");
            reveal_strlit("C");
        },
        27 => {
            reveal_strlit("BLE 3 Temperature");
            reveal_strlit("C");
        },
        28 => {
            reveal_strlit("BLE 4 Temperature");
            reveal_strlit("C");
        },
        29 => {
            reveal_strlit("BLE 1 Battery Voltage");
            reveal_strlit("%");
        },
        30 => {
            reveal_strlit("Number of DTC");
        },
        31 => {
            reveal_strlit("Calculated engine load value");
            reveal_strlit("%");
        },
        32 => {
            reveal_strlit("Engine coolant temperature");
            reveal_strlit("C");
        },
        33 => {
            reveal_strlit("Short term fuel trim 1");
            reveal_strlit("%");
        },
        34 => {
            reveal_strlit("Fuel pressure");
            reveal_strlit("kPa");
        },
        35 => {
            reveal_strlit("Intake manifold absolute pressure");
            reveal_strlit("kPa");
        },
        36 => {
            reveal_strlit("Engine RPM");
            reveal_strlit("rpm");
        },
        37 => {
            reveal_strlit("Vehicle speed");
            reveal_strlit("km/h");
        },
        38 => {
            reveal_strlit("Timing advance");
            reveal_strlit("O");
        },
        39 => {
            reveal_strlit("Intake air temperature");
            reveal_strlit("C");
        },
        40 => {
            reveal_strlit("MAF air flow rate");
            reveal_strlit("g/sec, *0.01");
        },
        41 => {
            reveal_strlit("Throttle position");
            reveal_strlit("%");
        },
        42 => {
            reveal_strlit("Run time since engine start");
            reveal_strlit("s");
        },
        43 => {
            reveal_strlit("Distance traveled MIL on");
            reveal_strlit("Km");
        },
        44 => {
            reveal_strlit("Relative fuel rail pressure");
            reveal_strlit("kPa*0.1");
        },
        45 => {
            reveal_strlit("Direct fuel rail pressure");
            reveal_strlit("kPa*0.1");
        },
        46 => {
            reveal_strlit("Commanded EGR");
            reveal_strlit("%");
        },
        47 => {
            reveal_strlit("EGR error");
            reveal_strlit("%");
        },
        48 => {
            reveal_strlit("Fuel level");
            reveal_strlit("%");
        },
        49 => {
            reveal_strlit("Distance traveled since codes cleared");
            reveal_strlit("Km");
        },
        50 => {
            reveal_strlit("Barometric pressure");
            reveal_strlit("kPa");
        },
        51 => {
            reveal_strlit("Control module voltage");
            reveal_strlit("mV");
        },
        52 => {
            reveal_strlit("Absolute load value");
            reveal_strlit("%");
        },
        53 => {
            reveal_strlit("Ambient air temperature");
            reveal_strlit("C");
        },
        54 => {
            reveal_strlit("Time run with MIL on");
            reveal_strlit("min");
        },
        55 => {
            reveal_strlit("Time since trouble codes cleared");
            reveal_strlit("min");
        },
        56 => {
            reveal_strlit("Absolute fuel rail pressure");
            reveal_strlit("kPa*10");
        },
        57 => {
            reveal_strlit("Hybrid battery pack remaining life");
            reveal_strlit("%");
        },
        58 => {
            reveal_strlit("Engine oil temperature");
            reveal_strlit("C");
        },
        59 => {
            reveal_strlit("Fuel injection timing");
            reveal_strlit("O, *0.01");
        },
        60 => {
            reveal_strlit("Engine fuel rate");
            reveal_strlit("L/h, *100");
        },
        66 => {
            reveal_strlit("Ext Voltage");
            reveal_strlit("mV");
        },
        67 => {
            reveal_strlit("Internal Battery Voltage");
            reveal_strlit("mV");
        },
        68 => {
            reveal_strlit("Internal Battery Current");
            reveal_strlit("mA");
        },
        69 => {
            reveal_strlit("GNSS Status");
            reveal_strlit("OFF");
            reveal_strlit("ON with fix");
            reveal_strlit("ON without fix");
            reveal_strlit("In sleep state");
            assert(io_definition(id).unwrap().values.unwrap().contains_key(0));
        },
        70 => {
            reveal_strlit("PCB temperature");
            reveal_strlit("deg C");
        },
        80 => {
            reveal_strlit("Data Mode");
            reveal_strlit("Home On Stop");
            reveal_strlit("Home On Moving");
            reveal_strlit("Roaming On Stop");
            reveal_strlit("Roaming On Moving");
            reveal_strlit("Unknown On Stop");
            reveal_strlit("Unknown On Moving");
            assert(io_definition(id).unwrap().values.unwrap().contains_key(0));
        },
        86 => {
            reveal_strlit("BLE 1 Humidity");
            reveal_strlit("%RH");
        },
        104 => {
            reveal_strlit("BLE 2 Humidity");
            reveal_strlit("%RH");
        },
        106 => {
            reveal_strlit("BLE 3 Humidity");
            reveal_strlit("%RH");
        },
        108 => {
            reveal_strlit("BLE 4 Humidity");
            reveal_strlit("%RH");
        },
        113 => {
            reveal_strlit("Internal Battery level");
            reveal_strlit("%");
        },
        175 => {
            reveal_strlit("Auto geofence");
        },
        179 => {
            reveal_strlit("Digital Output");
        },
        181 => {
            reveal_strlit("PDOP");
            reveal_strlit("m");
        },
        182 => {
            reveal_strlit("HDOP");
            reveal_strlit("m");
        },
        199 => {
            reveal_strlit("Trip Odometer");
            reveal_strlit("m");
        },
        200 => {
            reveal_strlit("Sleep Mode");
            reveal_strlit("No Sleep");
            reveal_strlit("GPS Sleep");
            reveal_strlit("Deep Sleep");
            assert(io_definition(id).unwrap().values.unwrap().contains_key(0));
        },
        205 => {
            reveal_strlit("GSM Cell ID");
        },
        206 => {
            reveal_strlit("GSM Area Code");
        },
        237 => {
            reveal_strlit("Network Type");
        },
        238 => {
            reveal_strlit("User ID");
        },
        239 => {
            reveal_strlit("Ignition");
            reveal_strlit("No");
            reveal_strlit("Yes");
            assert(io_definition(id).unwrap().values.unwrap().contains_key(0));
        },
        240 => {
            reveal_strlit("Movement");
            reveal_strlit("No");
            reveal_strlit("Yes");
            assert(io_definition(id).unwrap().values.unwrap().contains_key(0));
        },
        241 => {
            reveal_strlit("GSM Operator");
        },
        243 => {
            reveal_strlit("Green Driving Event Duration");
            reveal_strlit("ms");
        },
        246 => {
            reveal_strlit("Towing Detection");
            reveal_strlit("Towing detected");
            assert(io_definition(id).unwrap().values.unwrap().contains_key(1));
        },
        247 => {
            reveal_strlit("Crash Detection");
            reveal_strlit("Crash Detected");
            reveal_strlit("Crash Trace Record");
            reveal_strlit("Crash trace record(calibrated)");
            assert(io_definition(id).unwrap().values.unwrap().contains_key(1));
        },
        249 => {
            reveal_strlit("Jamming Detection");
            reveal_strlit("Jamming Ended");
            reveal_strlit("Jamming Detected");
            assert(io_definition(id).unwrap().values.unwrap().contains_key(0));
        },
        250 => {
            reveal_strlit("Trip Event");
            reveal_strlit("Trip Ended");
            reveal_strlit("Trip Started");
            reveal_strlit("Business Status");
            reveal_strlit("Private Status");
            reveal_strlit("Custom Statuses");
            assert(io_definition(id).unwrap().values.unwrap().contains_key(0));
        },
        251 => {
            reveal_strlit("Idling Event");
            reveal_strlit("Idling ended event");
            reveal_strlit("Idling started event");
            assert(io_definition(id).unwrap().values.unwrap().contains_key(0));
        },
        252 => {
            reveal_strlit("Unplug Event");
            reveal_strlit("Send when unplug event happens");
            assert(io_definition(id).unwrap().values.unwrap().contains_key(1));
        },
        253 => {
            reveal_strlit("Green Driving Type");
            reveal_strlit("Acceleration");
            reveal_strlit("Braking");
            reveal_strlit("Cornering");
            assert(io_definition(id).unwrap().values.unwrap().contains_key(1));
        },
        254 => {
            reveal_strlit("Eco driving value");
            reveal_strlit("G/rad");
        },
        255 => {
            reveal_strlit("Overspeeding Event");
            reveal_strlit("km/h");
        },
        256 => {
            reveal_strlit("VIN");
        },
        281 => {
            reveal_strlit("fault codes");
        },
        303 => {
            reveal_strlit("Instant Movement");
        },
        358 => {
            reveal_strlit("Custom scenario 1");
        },
        359 => {
            reveal_strlit("Custom scenario 2");
        },
        360 => {
            reveal_strlit("Custom scenario 3");
        },
        641 => {
            reveal_strlit("ICCID");
        },
        800 => {
            reveal_strlit("External Voltage");
            reveal_strlit("mV");
        },
        841 => {
            reveal_strlit("Digital Output 1 Overcurrent");
        },
        1148 => {
            reveal_strlit("Connectivity quality");
            reveal_strlit("dBm");
        },
        1429 => {
            reveal_strlit("Crash average vector");
            reveal_strlit("mG");
        },
        1432 => {
            reveal_strlit("Crash max vector");
            reveal_strlit("mG");
        },
        257 => {
            reveal_strlit("Crash trace data");
        },
        383 => {
            reveal_strlit("Accel calibration");
        },
        386 => {
            reveal_strlit("Time from last gnss fix");
            reveal_strlit("seconds");
        },
        449 => {
            reveal_strlit("Ignition On Counter");
            reveal_strlit("seconds");
        },
        13266 => {
            reveal_strlit("Current log file");
        },
        13267 => {
            reveal_strlit("Max log file count");
        },
        _ => {},
    }
}

} // verus!
