use uc8253::action::Action;
use uc8253::command::Command;
use uc8253::error::{CommandError, Error};

fn all_commands() -> Vec<Command> {
    vec![
        Command::PanelSetting,
        Command::PowerSetting,
        Command::PowerOff,
        Command::PowerOffSequenceSettings,
        Command::PowerOn,
        Command::PowerOnMeasure,
        Command::BoosterSoftStart,
        Command::DeepSleep,
        Command::DisplayStartTransmission1,
        Command::DataStop,
        Command::DisplayRefresh,
        Command::DisplayStartTransmission2,
        Command::AutoSequence,
        Command::VCOMLut,
        Command::W2WLut,
        Command::KW2Lut,
        Command::W2KLut,
        Command::K2KLut,
        Command::LutOption,
        Command::PLLControl,
        Command::TemperatureSensorCalibration,
        Command::TemperatureSensorSelection,
        Command::TemperatureSensorWrite,
        Command::TemperatureSensorRead,
        Command::PanelBreakCheck,
        Command::VCOMAndDataIntervalSetting,
        Command::LowPowerDetection,
        Command::TCONSetting,
        Command::ResolutionSetting,
        Command::GateSourceStartSetting,
        Command::Revision,
        Command::GetStatus,
        Command::CyclicRedundancyCheck,
        Command::AutoMeasurementVCOM,
        Command::VCOMDCSetting,
        Command::PartialWindow,
        Command::PartialIn,
        Command::PartialOut,
        Command::ProgramMode,
        Command::ActiveProgramming,
        Command::CascadeSetting,
        Command::PowerSaving,
        Command::LVDVoltageSelect,
        Command::ForceTemperature,
        Command::ReadVCOMValue,
        Command::ReadOTP,
    ]
}

#[test]
fn register_codes_follow_the_datasheet() {
    assert_eq!(Command::PanelSetting.register(), 0x00);
    assert_eq!(Command::PowerOn.register(), 0x04);
    assert_eq!(Command::DeepSleep.register(), 0x07);
    assert_eq!(Command::DisplayStartTransmission1.register(), 0x10);
    assert_eq!(Command::DisplayRefresh.register(), 0x12);
    assert_eq!(Command::DisplayStartTransmission2.register(), 0x13);
    assert_eq!(Command::LutOption.register(), 0x2A);
    assert_eq!(Command::VCOMAndDataIntervalSetting.register(), 0x50);
    assert_eq!(Command::GateSourceStartSetting.register(), 0x65);
    assert_eq!(Command::AutoMeasurementVCOM.register(), 0x80);
    assert_eq!(Command::ReadVCOMValue.register(), 0x81);
    assert_eq!(Command::VCOMDCSetting.register(), 0x82);
    assert_eq!(Command::ReadOTP.register(), 0xA2);
    assert_eq!(Command::CascadeSetting.register(), 0xE0);
    assert_eq!(Command::ForceTemperature.register(), 0xE5);
}

#[test]
fn register_codes_are_distinct() {
    let commands = all_commands();
    assert_eq!(commands.len(), 46);
    for (i, a) in commands.iter().enumerate() {
        for (j, b) in commands.iter().enumerate() {
            if i != j {
                assert_ne!(a.register(), b.register());
            }
        }
    }
}

#[test]
fn command_alone_is_pin_low_then_code() {
    assert_eq!(
        Command::PowerOn.send_plan(),
        vec![Action::DcLow, Action::SpiWrite(vec![0x04])]
    );
}

#[test]
fn command_with_data_sends_data_after_pin_high() {
    assert_eq!(
        Command::ForceTemperature.send_with_data_plan(&[0x5F, 0x01]),
        vec![
            Action::DcLow,
            Action::SpiWrite(vec![0xE5]),
            Action::DcHigh,
            Action::SpiWrite(vec![0x5F, 0x01]),
        ]
    );
}

#[test]
fn command_with_empty_data_sends_command_only() {
    assert_eq!(
        Command::DataStop.send_with_data_plan(&[]),
        vec![Action::DcLow, Action::SpiWrite(vec![0x11])]
    );
}

#[test]
fn command_error_becomes_driver_error_of_the_same_part() {
    let spi: Error<u8, u16, u32, u64> = CommandError::<u8, u16>::SPI(7).to_error();
    assert!(matches!(spi, Error::SPI(7)));
    let dc: Error<u8, u16, u32, u64> = CommandError::<u8, u16>::DC(9).to_error();
    assert!(matches!(dc, Error::DC(9)));
    let via_from: Error<u8, u16, (), ()> = Error::from(CommandError::<u8, u16>::DC(3));
    assert!(matches!(via_from, Error::DC(3)));
}
