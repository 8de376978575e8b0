//! The typed snapshot of the printer's reported state.
//!
//! A `RawPrinter` is decoded as a whole from one response body: either every
//! required field was present and well typed, or no snapshot is produced at
//! all. Only the axis coordinates and the storage slots may be absent.
//!
//! The printer reports temperatures, heights and speeds as binary floating
//! point numbers. The snapshot stores each of them as the bit pattern of an
//! IEEE 754 double-precision number (a `u64`), so that a reading is carried
//! through unchanged and two snapshots of the same report are equal.

use vstd::prelude::*;

verus! {

/// One temperature reading: the measured value and the requested value,
/// each as double-precision bits.
#[derive(Clone, Copy, PartialEq, Eq, Structural, Debug)]
pub struct Temp {
    pub actual: u64,
    pub target: u64,
}

/// The nozzle and bed temperature readings.
#[derive(Clone, Copy, PartialEq, Eq, Structural, Debug)]
pub struct PrinterTemperature {
    pub nozzle: Temp,
    pub bed: Temp,
}

/// Whether an SD card is inserted and ready.
#[derive(Clone, Copy, PartialEq, Eq, Structural, Debug)]
pub struct PrinterSd {
    pub ready: bool,
}

/// The operational flags the printer reports, plus its link state string.
#[derive(Clone, Debug)]
pub struct PrinterFlags {
    pub operational: bool,
    pub paused: bool,
    pub printing: bool,
    pub cancelling: bool,
    pub pausing: bool,
    pub sd_ready: bool,
    pub error: bool,
    pub ready: bool,
    pub closed_or_error: bool,
    pub finished: bool,
    pub prepared: bool,
    pub link_state: String,
}

/// The printer's state: a short human-readable text and the flags.
#[derive(Clone, Debug)]
pub struct PrinterState {
    pub text: String,
    pub flags: PrinterFlags,
}

/// Live sensor and process readings. The axis coordinates may be absent.
#[derive(Clone, Debug)]
pub struct PrinterTelemetry {
    pub bed_temp: u64,
    pub nozzle_temp: u64,
    pub material: String,
    pub z_height: u64,
    pub print_speed: u64,
    pub axis_x: Option<u64>,
    pub axis_y: Option<u64>,
    pub axis_z: Option<u64>,
}

/// Free and total space of one storage slot, in bytes.
#[derive(Clone, Copy, PartialEq, Eq, Structural, Debug)]
pub struct PrinterStorageInfo {
    pub free_space: u64,
    pub total_space: u64,
}

/// The storage slots the printer reports; either slot may be absent.
#[derive(Clone, Copy, PartialEq, Eq, Structural, Debug)]
pub struct PrinterStorage {
    pub local: Option<PrinterStorageInfo>,
    pub sd_card: Option<PrinterStorageInfo>,
}

/// One decoded, internally consistent copy of the printer's reported state.
#[derive(Clone, Debug)]
pub struct RawPrinter {
    pub temperature: PrinterTemperature,
    pub sd: PrinterSd,
    pub state: PrinterState,
    pub telemetry: PrinterTelemetry,
    pub storage: PrinterStorage,
}

/// The mathematical value of a [`PrinterFlags`]: the same fields, with the
/// link state as a character sequence.
pub ghost struct FlagsModel {
    pub operational: bool,
    pub paused: bool,
    pub printing: bool,
    pub cancelling: bool,
    pub pausing: bool,
    pub sd_ready: bool,
    pub error: bool,
    pub ready: bool,
    pub closed_or_error: bool,
    pub finished: bool,
    pub prepared: bool,
    pub link_state: Seq<char>,
}

/// The mathematical value of a [`PrinterState`].
pub ghost struct StateModel {
    pub text: Seq<char>,
    pub flags: FlagsModel,
}

/// The mathematical value of a [`PrinterTelemetry`].
pub ghost struct TelemetryModel {
    pub bed_temp: u64,
    pub nozzle_temp: u64,
    pub material: Seq<char>,
    pub z_height: u64,
    pub print_speed: u64,
    pub axis_x: Option<u64>,
    pub axis_y: Option<u64>,
    pub axis_z: Option<u64>,
}

/// The mathematical value of a [`RawPrinter`]: every field of the
/// snapshot, with strings as character sequences. The all-integer parts
/// are their own model.
pub ghost struct SnapshotModel {
    pub temperature: PrinterTemperature,
    pub sd: PrinterSd,
    pub state: StateModel,
    pub telemetry: TelemetryModel,
    pub storage: PrinterStorage,
}

impl PrinterFlags {
    pub open spec fn model(self) -> FlagsModel {
        FlagsModel {
            operational: self.operational,
            paused: self.paused,
            printing: self.printing,
            cancelling: self.cancelling,
            pausing: self.pausing,
            sd_ready: self.sd_ready,
            error: self.error,
            ready: self.ready,
            closed_or_error: self.closed_or_error,
            finished: self.finished,
            prepared: self.prepared,
            link_state: self.link_state@,
        }
    }
}

impl PrinterState {
    pub open spec fn model(self) -> StateModel {
        StateModel { text: self.text@, flags: self.flags.model() }
    }
}

impl PrinterTelemetry {
    pub open spec fn model(self) -> TelemetryModel {
        TelemetryModel {
            bed_temp: self.bed_temp,
            nozzle_temp: self.nozzle_temp,
            material: self.material@,
            z_height: self.z_height,
            print_speed: self.print_speed,
            axis_x: self.axis_x,
            axis_y: self.axis_y,
            axis_z: self.axis_z,
        }
    }
}

impl RawPrinter {
    pub open spec fn model(self) -> SnapshotModel {
        SnapshotModel {
            temperature: self.temperature,
            sd: self.sd,
            state: self.state.model(),
            telemetry: self.telemetry.model(),
            storage: self.storage,
        }
    }

    pub fn get_paused(&self) -> (r: bool)
        ensures
            r == self.state.flags.paused,
    {
        self.state.flags.paused
    }

    pub fn get_operational(&self) -> (r: bool)
        ensures
            r == self.state.flags.operational,
    {
        self.state.flags.operational
    }

    pub fn get_printing(&self) -> (r: bool)
        ensures
            r == self.state.flags.printing,
    {
        self.state.flags.printing
    }

    pub fn get_cancelling(&self) -> (r: bool)
        ensures
            r == self.state.flags.cancelling,
    {
        self.state.flags.cancelling
    }

    pub fn get_pausing(&self) -> (r: bool)
        ensures
            r == self.state.flags.pausing,
    {
        self.state.flags.pausing
    }

    pub fn get_ready(&self) -> (r: bool)
        ensures
            r == self.state.flags.ready,
    {
        self.state.flags.ready
    }

    pub fn get_sd_ready(&self) -> (r: bool)
        ensures
            r == self.state.flags.sd_ready,
    {
        self.state.flags.sd_ready
    }

    pub fn get_error(&self) -> (r: bool)
        ensures
            r == self.state.flags.error,
    {
        self.state.flags.error
    }

    pub fn get_closed_or_error(&self) -> (r: bool)
        ensures
            r == self.state.flags.closed_or_error,
    {
        self.state.flags.closed_or_error
    }

    pub fn get_finished(&self) -> (r: bool)
        ensures
            r == self.state.flags.finished,
    {
        self.state.flags.finished
    }

    pub fn get_prepared(&self) -> (r: bool)
        ensures
            r == self.state.flags.prepared,
    {
        self.state.flags.prepared
    }

    pub fn get_link_state(&self) -> (r: &str)
        ensures
            r@ == self.state.flags.link_state@,
    {
        self.state.flags.link_state.as_str()
    }

    pub fn get_state_text(&self) -> (r: &str)
        ensures
            r@ == self.state.text@,
    {
        self.state.text.as_str()
    }

    /// The measured bed temperature, as double-precision bits.
    pub fn get_bed_temp(&self) -> (r: u64)
        ensures
            r == self.telemetry.bed_temp,
    {
        self.telemetry.bed_temp
    }

    /// The requested bed temperature, as double-precision bits.
    pub fn get_target_bed_temp(&self) -> (r: u64)
        ensures
            r == self.temperature.bed.target,
    {
        self.temperature.bed.target
    }

    /// The measured nozzle temperature, as double-precision bits.
    pub fn get_nozzle_temp(&self) -> (r: u64)
        ensures
            r == self.telemetry.nozzle_temp,
    {
        self.telemetry.nozzle_temp
    }

    /// The requested nozzle temperature, as double-precision bits.
    pub fn get_target_nozzle_temp(&self) -> (r: u64)
        ensures
            r == self.temperature.nozzle.target,
    {
        self.temperature.nozzle.target
    }

    pub fn get_material_telemetry(&self) -> (r: &str)
        ensures
            r@ == self.telemetry.material@,
    {
        self.telemetry.material.as_str()
    }

    /// The reported height of the Z axis, as double-precision bits.
    pub fn get_z_height_telemetry(&self) -> (r: u64)
        ensures
            r == self.telemetry.z_height,
    {
        self.telemetry.z_height
    }

    /// The reported print speed, as double-precision bits.
    pub fn get_print_speed_telemetry(&self) -> (r: u64)
        ensures
            r == self.telemetry.print_speed,
    {
        self.telemetry.print_speed
    }

    /// The reported X coordinate, as double-precision bits, if present.
    pub fn get_axis_x_telemetry(&self) -> (r: Option<u64>)
        ensures
            r == self.telemetry.axis_x,
    {
        self.telemetry.axis_x
    }

    /// The reported Y coordinate, as double-precision bits, if present.
    pub fn get_axis_y_telemetry(&self) -> (r: Option<u64>)
        ensures
            r == self.telemetry.axis_y,
    {
        self.telemetry.axis_y
    }

    /// The reported Z coordinate, as double-precision bits, if present.
    pub fn get_axis_z_telemetry(&self) -> (r: Option<u64>)
        ensures
            r == self.telemetry.axis_z,
    {
        self.telemetry.axis_z
    }

    pub fn get_local_storage_space(&self) -> (r: Option<&PrinterStorageInfo>)
        ensures
            match r {
                Some(info) => self.storage.local == Some(*info),
                None => self.storage.local is None,
            },
    {
        self.storage.local.as_ref()
    }

    pub fn get_sd_storage_space(&self) -> (r: Option<&PrinterStorageInfo>)
        ensures
            match r {
                Some(info) => self.storage.sd_card == Some(*info),
                None => self.storage.sd_card is None,
            },
    {
        self.storage.sd_card.as_ref()
    }
}

} // verus!
