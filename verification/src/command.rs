//! The command set of the UC8253 controller.
use vstd::prelude::*;
use crate::action::{actions_view, copy_bytes, Action, ActionView};

verus! {

/// A command of the controller; each is sent as a one-byte register code.
#[derive(Clone, Copy, PartialEq, Eq, Structural, Debug)]
pub enum Command {
    PanelSetting,
    PowerSetting,
    PowerOff,
    PowerOffSequenceSettings,
    PowerOn,
    PowerOnMeasure,
    BoosterSoftStart,
    DeepSleep,
    DisplayStartTransmission1,
    DataStop,
    DisplayRefresh,
    DisplayStartTransmission2,
    AutoSequence,
    VCOMLut,
    W2WLut,
    KW2Lut,
    W2KLut,
    K2KLut,
    LutOption,
    PLLControl,
    TemperatureSensorCalibration,
    TemperatureSensorSelection,
    TemperatureSensorWrite,
    TemperatureSensorRead,
    PanelBreakCheck,
    VCOMAndDataIntervalSetting,
    LowPowerDetection,
    TCONSetting,
    ResolutionSetting,
    GateSourceStartSetting,
    Revision,
    GetStatus,
    CyclicRedundancyCheck,
    AutoMeasurementVCOM,
    VCOMDCSetting,
    PartialWindow,
    PartialIn,
    PartialOut,
    ProgramMode,
    ActiveProgramming,
    CascadeSetting,
    PowerSaving,
    LVDVoltageSelect,
    ForceTemperature,
    ReadVCOMValue,
    ReadOTP,
}

impl Command {
    /// The register code of the command, as the controller's datasheet numbers it.
    pub open spec fn code(self) -> u8 {
        match self {
            Command::PanelSetting => 0x00,
            Command::PowerSetting => 0x01,
            Command::PowerOff => 0x02,
            Command::PowerOffSequenceSettings => 0x03,
            Command::PowerOn => 0x04,
            Command::PowerOnMeasure => 0x05,
            Command::BoosterSoftStart => 0x06,
            Command::DeepSleep => 0x07,
            Command::DisplayStartTransmission1 => 0x10,
            Command::DataStop => 0x11,
            Command::DisplayRefresh => 0x12,
            Command::DisplayStartTransmission2 => 0x13,
            Command::AutoSequence => 0x17,
            Command::VCOMLut => 0x20,
            Command::W2WLut => 0x21,
            Command::KW2Lut => 0x22,
            Command::W2KLut => 0x23,
            Command::K2KLut => 0x24,
            Command::LutOption => 0x2A,
            Command::PLLControl => 0x30,
            Command::TemperatureSensorCalibration => 0x40,
            Command::TemperatureSensorSelection => 0x41,
            Command::TemperatureSensorWrite => 0x42,
            Command::TemperatureSensorRead => 0x43,
            Command::PanelBreakCheck => 0x44,
            Command::VCOMAndDataIntervalSetting => 0x50,
            Command::LowPowerDetection => 0x51,
            Command::TCONSetting => 0x60,
            Command::ResolutionSetting => 0x61,
            Command::GateSourceStartSetting => 0x65,
            Command::Revision => 0x70,
            Command::GetStatus => 0x71,
            Command::CyclicRedundancyCheck => 0x72,
            Command::AutoMeasurementVCOM => 0x80,
            Command::VCOMDCSetting => 0x82,
            Command::PartialWindow => 0x90,
            Command::PartialIn => 0x91,
            Command::PartialOut => 0x92,
            Command::ProgramMode => 0xA0,
            Command::ActiveProgramming => 0xA1,
            Command::CascadeSetting => 0xE0,
            Command::PowerSaving => 0xE3,
            Command::LVDVoltageSelect => 0xE4,
            Command::ForceTemperature => 0xE5,
            Command::ReadVCOMValue => 0x81,
            Command::ReadOTP => 0xA2,
        }
    }

    /// The register code that is written on the bus for this command.
    pub fn register(&self) -> (r: u8)
        ensures
            r == self.code(),
    {
        match self {
            Command::PanelSetting => 0x00,
            Command::PowerSetting => 0x01,
            Command::PowerOff => 0x02,
            Command::PowerOffSequenceSettings => 0x03,
            Command::PowerOn => 0x04,
            Command::PowerOnMeasure => 0x05,
            Command::BoosterSoftStart => 0x06,
            Command::DeepSleep => 0x07,
            Command::DisplayStartTransmission1 => 0x10,
            Command::DataStop => 0x11,
            Command::DisplayRefresh => 0x12,
            Command::DisplayStartTransmission2 => 0x13,
            Command::AutoSequence => 0x17,
            Command::VCOMLut => 0x20,
            Command::W2WLut => 0x21,
            Command::KW2Lut => 0x22,
            Command::W2KLut => 0x23,
            Command::K2KLut => 0x24,
            Command::LutOption => 0x2A,
            Command::PLLControl => 0x30,
            Command::TemperatureSensorCalibration => 0x40,
            Command::TemperatureSensorSelection => 0x41,
            Command::TemperatureSensorWrite => 0x42,
            Command::TemperatureSensorRead => 0x43,
            Command::PanelBreakCheck => 0x44,
            Command::VCOMAndDataIntervalSetting => 0x50,
            Command::LowPowerDetection => 0x51,
            Command::TCONSetting => 0x60,
            Command::ResolutionSetting => 0x61,
            Command::GateSourceStartSetting => 0x65,
            Command::Revision => 0x70,
            Command::GetStatus => 0x71,
            Command::CyclicRedundancyCheck => 0x72,
            Command::AutoMeasurementVCOM => 0x80,
            Command::VCOMDCSetting => 0x82,
            Command::PartialWindow => 0x90,
            Command::PartialIn => 0x91,
            Command::PartialOut => 0x92,
            Command::ProgramMode => 0xA0,
            Command::ActiveProgramming => 0xA1,
            Command::CascadeSetting => 0xE0,
            Command::PowerSaving => 0xE3,
            Command::LVDVoltageSelect => 0xE4,
            Command::ForceTemperature => 0xE5,
            Command::ReadVCOMValue => 0x81,
            Command::ReadOTP => 0xA2,
        }
    }
}

impl Command {
    /// The actions that send the command alone: the data/command pin goes low, then the
    /// register code is written on the bus.
    pub open spec fn send_steps(self) -> Seq<ActionView> {
        seq![ActionView::DcLow, ActionView::SpiWrite(seq![self.code()])]
    }

    /// The actions that send the command followed by `data`: the command as `send_steps`
    /// sends it, then, only when there is data, the data/command pin goes high and the data is
    /// written on the bus.
    pub open spec fn send_with_data_steps(self, data: Seq<u8>) -> Seq<ActionView> {
        if data.len() == 0 {
            self.send_steps()
        } else {
            self.send_steps() + seq![ActionView::DcHigh, ActionView::SpiWrite(data)]
        }
    }

    /// The actions that send the command alone.
    pub fn send_plan(&self) -> (plan: Vec<Action>)
        ensures
            actions_view(plan@) == self.send_steps(),
    {
        let mut code: Vec<u8> = Vec::new();
        code.push(self.register());
        let mut plan: Vec<Action> = Vec::new();
        plan.push(Action::DcLow);
        plan.push(Action::SpiWrite(code));
        assert(actions_view(plan@) =~= self.send_steps());
        plan
    }

    /// The actions that send the command followed by `data`.
    pub fn send_with_data_plan(&self, data: &[u8]) -> (plan: Vec<Action>)
        ensures
            actions_view(plan@) == self.send_with_data_steps(data@),
    {
        let mut plan = self.send_plan();
        if data.len() != 0 {
            plan.push(Action::DcHigh);
            plan.push(Action::SpiWrite(copy_bytes(data)));
            assert(actions_view(plan@) =~= self.send_with_data_steps(data@));
        }
        plan
    }
}

/// No two commands share a register code, so the controller can tell every command apart.
pub proof fn lemma_register_codes_distinct(a: Command, b: Command)
    requires
        a.code() == b.code(),
    ensures
        a == b,
{
}

} // verus!
