//! Laws of the driver, stated with the datasheet's literal values: what each command's code is,
//! which actions every operation performs in what order, and where each pixel lives in a frame.
use vstd::prelude::*;
use crate::action::ActionView;
use crate::command::Command;
use crate::display::{
    blank_frame, frame_with_pixels, Pixel, busy_block_steps, fast_refresh_init_steps, full_refresh_init_steps, init_steps,
    partial_refresh_init_steps, reset_steps, send_steps, send_with_data_steps, soft_reset_steps,
    turn_off_steps, update_display_steps, write_framebuffer_steps, RefreshMode,
};
use crate::error::{command_error_as_error, CommandError, Error};
use crate::frame::{frame_with_pixel, in_bounds, is_frame, pixel_index, pixel_on};

verus! {

/// Every command's register code is the value the controller's datasheet gives it.
pub proof fn law_register_codes(c: Command)
    ensures
        c.code() == match c {
            Command::PanelSetting => 0x00u8,
            Command::PowerSetting => 0x01u8,
            Command::PowerOff => 0x02u8,
            Command::PowerOffSequenceSettings => 0x03u8,
            Command::PowerOn => 0x04u8,
            Command::PowerOnMeasure => 0x05u8,
            Command::BoosterSoftStart => 0x06u8,
            Command::DeepSleep => 0x07u8,
            Command::DisplayStartTransmission1 => 0x10u8,
            Command::DataStop => 0x11u8,
            Command::DisplayRefresh => 0x12u8,
            Command::DisplayStartTransmission2 => 0x13u8,
            Command::AutoSequence => 0x17u8,
            Command::VCOMLut => 0x20u8,
            Command::W2WLut => 0x21u8,
            Command::KW2Lut => 0x22u8,
            Command::W2KLut => 0x23u8,
            Command::K2KLut => 0x24u8,
            Command::LutOption => 0x2Au8,
            Command::PLLControl => 0x30u8,
            Command::TemperatureSensorCalibration => 0x40u8,
            Command::TemperatureSensorSelection => 0x41u8,
            Command::TemperatureSensorWrite => 0x42u8,
            Command::TemperatureSensorRead => 0x43u8,
            Command::PanelBreakCheck => 0x44u8,
            Command::VCOMAndDataIntervalSetting => 0x50u8,
            Command::LowPowerDetection => 0x51u8,
            Command::TCONSetting => 0x60u8,
            Command::ResolutionSetting => 0x61u8,
            Command::GateSourceStartSetting => 0x65u8,
            Command::Revision => 0x70u8,
            Command::GetStatus => 0x71u8,
            Command::CyclicRedundancyCheck => 0x72u8,
            Command::AutoMeasurementVCOM => 0x80u8,
            Command::VCOMDCSetting => 0x82u8,
            Command::PartialWindow => 0x90u8,
            Command::PartialIn => 0x91u8,
            Command::PartialOut => 0x92u8,
            Command::ProgramMode => 0xA0u8,
            Command::ActiveProgramming => 0xA1u8,
            Command::CascadeSetting => 0xE0u8,
            Command::PowerSaving => 0xE3u8,
            Command::LVDVoltageSelect => 0xE4u8,
            Command::ForceTemperature => 0xE5u8,
            Command::ReadVCOMValue => 0x81u8,
            Command::ReadOTP => 0xA2u8,
        },
{
}

/// A command alone is the data/command pin going low, then one byte, the command's code, on the
/// bus.
pub proof fn law_command_alone(c: Command)
    ensures
        c.send_steps() == seq![ActionView::DcLow, ActionView::SpiWrite(seq![c.code()])],
{
}

/// A command with data is the command alone, then, whatever the data's length and bytes, the
/// data/command pin going high and all of the data on the bus; with no data it is the command
/// alone.
pub proof fn law_command_with_data(c: Command, data: Seq<u8>)
    ensures
        data.len() > 0 ==> c.send_with_data_steps(data) == seq![
            ActionView::DcLow,
            ActionView::SpiWrite(seq![c.code()]),
            ActionView::DcHigh,
            ActionView::SpiWrite(data),
        ],
        data.len() == 0 ==> c.send_with_data_steps(data) == seq![
            ActionView::DcLow,
            ActionView::SpiWrite(seq![c.code()]),
        ],
{
    if data.len() > 0 {
        assert(c.send_with_data_steps(data) =~= seq![
            ActionView::DcLow,
            ActionView::SpiWrite(seq![c.code()]),
            ActionView::DcHigh,
            ActionView::SpiWrite(data),
        ]);
    }
}

/// The driver waits until the panel is not busy before every command it sends, whatever the
/// command.
pub proof fn law_driver_waits_before_sending(c: Command, data: Seq<u8>)
    ensures
        busy_block_steps() == seq![ActionView::WaitForBusyHigh],
        send_steps(c) == seq![
            ActionView::WaitForBusyHigh,
            ActionView::DcLow,
            ActionView::SpiWrite(seq![c.code()]),
        ],
        data.len() > 0 ==> send_with_data_steps(c, data) == seq![
            ActionView::WaitForBusyHigh,
            ActionView::DcLow,
            ActionView::SpiWrite(seq![c.code()]),
            ActionView::DcHigh,
            ActionView::SpiWrite(data),
        ],
        data.len() == 0 ==> send_with_data_steps(c, data) == seq![
            ActionView::WaitForBusyHigh,
            ActionView::DcLow,
            ActionView::SpiWrite(seq![c.code()]),
        ],
{
    law_command_with_data(c, data);
    assert(send_steps(c) =~= seq![
        ActionView::WaitForBusyHigh,
        ActionView::DcLow,
        ActionView::SpiWrite(seq![c.code()]),
    ]);
    if data.len() > 0 {
        assert(send_with_data_steps(c, data) =~= seq![
            ActionView::WaitForBusyHigh,
            ActionView::DcLow,
            ActionView::SpiWrite(seq![c.code()]),
            ActionView::DcHigh,
            ActionView::SpiWrite(data),
        ]);
    } else {
        assert(send_with_data_steps(c, data) =~= seq![
            ActionView::WaitForBusyHigh,
            ActionView::DcLow,
            ActionView::SpiWrite(seq![c.code()]),
        ]);
    }
}

/// Writing the frames sends, after waiting for the panel, the previous frame after command 0x10
/// and then the frame being drawn, unchanged, after command 0x13.
pub proof fn law_write_framebuffer(old_frame: Seq<u8>, new_frame: Seq<u8>)
    requires
        old_frame.len() > 0,
        new_frame.len() > 0,
    ensures
        write_framebuffer_steps(old_frame, new_frame) == seq![
            ActionView::WaitForBusyHigh,
            ActionView::DcLow,
            ActionView::SpiWrite(seq![0x10u8]),
            ActionView::DcHigh,
            ActionView::SpiWrite(old_frame),
            ActionView::DcLow,
            ActionView::SpiWrite(seq![0x13u8]),
            ActionView::DcHigh,
            ActionView::SpiWrite(new_frame),
        ],
{
    law_command_with_data(Command::DisplayStartTransmission1, old_frame);
    law_command_with_data(Command::DisplayStartTransmission2, new_frame);
    assert(write_framebuffer_steps(old_frame, new_frame) =~= seq![
        ActionView::WaitForBusyHigh,
        ActionView::DcLow,
        ActionView::SpiWrite(seq![0x10u8]),
        ActionView::DcHigh,
        ActionView::SpiWrite(old_frame),
        ActionView::DcLow,
        ActionView::SpiWrite(seq![0x13u8]),
        ActionView::DcHigh,
        ActionView::SpiWrite(new_frame),
    ]);
}

/// The hardware reset drives the reset pin low for 10 ms, then high, then waits 10 ms.
pub proof fn law_reset()
    ensures
        reset_steps() == seq![
            ActionView::ResetLow,
            ActionView::DelayMs(10),
            ActionView::ResetHigh,
            ActionView::DelayMs(10),
        ],
{
}

/// Setting up for full refreshes: power on (0x04), wait, then 0x97 to the VCOM and data interval
/// register (0x50).
pub proof fn law_full_refresh_init()
    ensures
        full_refresh_init_steps() == seq![
            ActionView::WaitForBusyHigh,
            ActionView::DcLow,
            ActionView::SpiWrite(seq![0x04u8]),
            ActionView::WaitForBusyHigh,
            ActionView::WaitForBusyHigh,
            ActionView::DcLow,
            ActionView::SpiWrite(seq![0x50u8]),
            ActionView::DcHigh,
            ActionView::SpiWrite(seq![0x97u8]),
        ],
{
    law_driver_waits_before_sending(Command::PowerOn, seq![]);
    law_driver_waits_before_sending(Command::VCOMAndDataIntervalSetting, seq![0x97u8]);
    assert(full_refresh_init_steps() =~= seq![
        ActionView::WaitForBusyHigh,
        ActionView::DcLow,
        ActionView::SpiWrite(seq![0x04u8]),
        ActionView::WaitForBusyHigh,
        ActionView::WaitForBusyHigh,
        ActionView::DcLow,
        ActionView::SpiWrite(seq![0x50u8]),
        ActionView::DcHigh,
        ActionView::SpiWrite(seq![0x97u8]),
    ]);
}

/// Setting up for fast refreshes: power on (0x04), wait, then 0x02 to the cascade setting (0xE0)
/// and 0x5F to the forced temperature (0xE5).
pub proof fn law_fast_refresh_init()
    ensures
        fast_refresh_init_steps() == seq![
            ActionView::WaitForBusyHigh,
            ActionView::DcLow,
            ActionView::SpiWrite(seq![0x04u8]),
            ActionView::WaitForBusyHigh,
            ActionView::WaitForBusyHigh,
            ActionView::DcLow,
            ActionView::SpiWrite(seq![0xE0u8]),
            ActionView::DcHigh,
            ActionView::SpiWrite(seq![0x02u8]),
            ActionView::WaitForBusyHigh,
            ActionView::DcLow,
            ActionView::SpiWrite(seq![0xE5u8]),
            ActionView::DcHigh,
            ActionView::SpiWrite(seq![0x5Fu8]),
        ],
{
    law_driver_waits_before_sending(Command::PowerOn, seq![]);
    law_driver_waits_before_sending(Command::CascadeSetting, seq![0x02u8]);
    law_driver_waits_before_sending(Command::ForceTemperature, seq![0x5Fu8]);
    assert(fast_refresh_init_steps() =~= seq![
        ActionView::WaitForBusyHigh,
        ActionView::DcLow,
        ActionView::SpiWrite(seq![0x04u8]),
        ActionView::WaitForBusyHigh,
        ActionView::WaitForBusyHigh,
        ActionView::DcLow,
        ActionView::SpiWrite(seq![0xE0u8]),
        ActionView::DcHigh,
        ActionView::SpiWrite(seq![0x02u8]),
        ActionView::WaitForBusyHigh,
        ActionView::DcLow,
        ActionView::SpiWrite(seq![0xE5u8]),
        ActionView::DcHigh,
        ActionView::SpiWrite(seq![0x5Fu8]),
    ]);
}

/// Setting up for partial refreshes: power on (0x04), wait, then 0x02 to the cascade setting
/// (0xE0), 0x6E to the forced temperature (0xE5) and 0xD7 to the VCOM and data interval register
/// (0x50).
pub proof fn law_partial_refresh_init()
    ensures
        partial_refresh_init_steps() == seq![
            ActionView::WaitForBusyHigh,
            ActionView::DcLow,
            ActionView::SpiWrite(seq![0x04u8]),
            ActionView::WaitForBusyHigh,
            ActionView::WaitForBusyHigh,
            ActionView::DcLow,
            ActionView::SpiWrite(seq![0xE0u8]),
            ActionView::DcHigh,
            ActionView::SpiWrite(seq![0x02u8]),
            ActionView::WaitForBusyHigh,
            ActionView::DcLow,
            ActionView::SpiWrite(seq![0xE5u8]),
            ActionView::DcHigh,
            ActionView::SpiWrite(seq![0x6Eu8]),
            ActionView::WaitForBusyHigh,
            ActionView::DcLow,
            ActionView::SpiWrite(seq![0x50u8]),
            ActionView::DcHigh,
            ActionView::SpiWrite(seq![0xD7u8]),
        ],
{
    law_driver_waits_before_sending(Command::PowerOn, seq![]);
    law_driver_waits_before_sending(Command::CascadeSetting, seq![0x02u8]);
    law_driver_waits_before_sending(Command::ForceTemperature, seq![0x6Eu8]);
    law_driver_waits_before_sending(Command::VCOMAndDataIntervalSetting, seq![0xD7u8]);
    assert(partial_refresh_init_steps() =~= seq![
        ActionView::WaitForBusyHigh,
        ActionView::DcLow,
        ActionView::SpiWrite(seq![0x04u8]),
        ActionView::WaitForBusyHigh,
        ActionView::WaitForBusyHigh,
        ActionView::DcLow,
        ActionView::SpiWrite(seq![0xE0u8]),
        ActionView::DcHigh,
        ActionView::SpiWrite(seq![0x02u8]),
        ActionView::WaitForBusyHigh,
        ActionView::DcLow,
        ActionView::SpiWrite(seq![0xE5u8]),
        ActionView::DcHigh,
        ActionView::SpiWrite(seq![0x6Eu8]),
        ActionView::WaitForBusyHigh,
        ActionView::DcLow,
        ActionView::SpiWrite(seq![0x50u8]),
        ActionView::DcHigh,
        ActionView::SpiWrite(seq![0xD7u8]),
    ]);
}

/// Every set-up starts with the hardware reset (reset low, 10 ms, reset high, 10 ms) and
/// continues with the set-up of its refresh mode.
pub proof fn law_init(mode: RefreshMode)
    ensures
        init_steps(mode).subrange(0, 4) == seq![
            ActionView::ResetLow,
            ActionView::DelayMs(10),
            ActionView::ResetHigh,
            ActionView::DelayMs(10),
        ],
        init_steps(mode).subrange(4, init_steps(mode).len() as int) == match mode {
            RefreshMode::Full => full_refresh_init_steps(),
            RefreshMode::Fast => fast_refresh_init_steps(),
            RefreshMode::Partial => partial_refresh_init_steps(),
        },
{
    law_reset();
    let rest = match mode {
        RefreshMode::Full => full_refresh_init_steps(),
        RefreshMode::Fast => fast_refresh_init_steps(),
        RefreshMode::Partial => partial_refresh_init_steps(),
    };
    assert(init_steps(mode).subrange(0, 4) =~= reset_steps());
    assert(init_steps(mode).subrange(4, init_steps(mode).len() as int) =~= rest);
}

/// Showing the written frame: wait, the refresh command (0x12), then 1 ms.
pub proof fn law_update_display()
    ensures
        update_display_steps() == seq![
            ActionView::WaitForBusyHigh,
            ActionView::DcLow,
            ActionView::SpiWrite(seq![0x12u8]),
            ActionView::DelayMs(1),
        ],
{
    law_driver_waits_before_sending(Command::DisplayRefresh, seq![]);
    assert(update_display_steps() =~= seq![
        ActionView::WaitForBusyHigh,
        ActionView::DcLow,
        ActionView::SpiWrite(seq![0x12u8]),
        ActionView::DelayMs(1),
    ]);
}

/// Turning off: power off (0x02), deep sleep (0x07) with its check code 0xA5, then the
/// data/command pin low.
pub proof fn law_turn_off()
    ensures
        turn_off_steps() == seq![
            ActionView::WaitForBusyHigh,
            ActionView::DcLow,
            ActionView::SpiWrite(seq![0x02u8]),
            ActionView::WaitForBusyHigh,
            ActionView::DcLow,
            ActionView::SpiWrite(seq![0x07u8]),
            ActionView::DcHigh,
            ActionView::SpiWrite(seq![0xA5u8]),
            ActionView::DcLow,
        ],
{
    law_driver_waits_before_sending(Command::PowerOff, seq![]);
    law_driver_waits_before_sending(Command::DeepSleep, seq![0xA5u8]);
    assert(turn_off_steps() =~= seq![
        ActionView::WaitForBusyHigh,
        ActionView::DcLow,
        ActionView::SpiWrite(seq![0x02u8]),
        ActionView::WaitForBusyHigh,
        ActionView::DcLow,
        ActionView::SpiWrite(seq![0x07u8]),
        ActionView::DcHigh,
        ActionView::SpiWrite(seq![0xA5u8]),
        ActionView::DcLow,
    ]);
}

/// The soft reset writes 1 to the panel setting register (0x00).
pub proof fn law_soft_reset()
    ensures
        soft_reset_steps() == seq![
            ActionView::WaitForBusyHigh,
            ActionView::DcLow,
            ActionView::SpiWrite(seq![0x00u8]),
            ActionView::DcHigh,
            ActionView::SpiWrite(seq![0x01u8]),
        ],
{
    law_driver_waits_before_sending(Command::PanelSetting, seq![0x01u8]);
}

/// Pixel `(x, y)` of the panel is bit `(x + 240 y) % 8`, counted from the most significant bit,
/// of byte `(x + 240 y) / 8`.
pub proof fn law_pixel_layout(frame: Seq<u8>, x: int, y: int)
    ensures
        pixel_index(x, y) == x + 240 * y,
        in_bounds(x, y) <==> (0 <= x < 240 && 0 <= y < 416),
        is_frame(frame) <==> frame.len() == 12480,
        pixel_on(frame, x, y) == (frame[(x + 240 * y) / 8] & (0x80u8 >> (((x + 240 * y) % 8) as u8))
            != 0),
{
}

/// Drawing pixel `(x, y)` of the panel sets (or clears) its bit in byte `(x + 240 y) / 8` and
/// leaves every other byte as it was; drawing outside the panel changes nothing.
pub proof fn law_draw_pixel_bytes(frame: Seq<u8>, x: int, y: int, on: bool, j: int)
    requires
        frame.len() == 12480,
        0 <= j < 12480,
    ensures
        frame_with_pixel(frame, x, y, on).len() == 12480,
        (0 <= x < 240 && 0 <= y < 416 && j == (x + 240 * y) / 8) ==> frame_with_pixel(
            frame,
            x,
            y,
            on,
        )[j] == (if on {
            frame[j] | (0x80u8 >> (((x + 240 * y) % 8) as u8))
        } else {
            frame[j] & !(0x80u8 >> (((x + 240 * y) % 8) as u8))
        }),
        !(0 <= x < 240 && 0 <= y < 416 && j == (x + 240 * y) / 8) ==> frame_with_pixel(
            frame,
            x,
            y,
            on,
        )[j] == frame[j],
{
    if 0 <= x < 240 && 0 <= y < 416 {
        assert(0 <= (x + 240 * y) / 8 < 12480);
    }
}

/// A new driver's frames are 12480 zero bytes: every pixel off.
pub proof fn law_blank_frame()
    ensures
        blank_frame().len() == 12480,
        forall|i: int| 0 <= i < 12480 ==> #[trigger] blank_frame()[i] == 0u8,
{
}

/// Drawing a list of pixels draws them in order, first to last: drawing nothing leaves the
/// frame, and drawing a list with one more pixel at its end draws that pixel last.
pub proof fn law_draw_list_order(frame: Seq<u8>, pixels: Seq<Pixel>, p: Pixel)
    ensures
        frame_with_pixels(frame, Seq::<Pixel>::empty()) == frame,
        frame_with_pixels(frame, pixels.push(p)) == frame_with_pixel(
            frame_with_pixels(frame, pixels),
            p.x as int,
            p.y as int,
            p.on,
        ),
{
    assert(pixels.push(p).drop_last() =~= pixels);
}

/// A failed command becomes a driver error of the same part, with the same payload.
pub proof fn law_command_error<SPIError, DCError, RSTError, BSYError>(
    e: CommandError<SPIError, DCError>,
)
    ensures
        match e {
            CommandError::SPI(s) => command_error_as_error::<SPIError, DCError, RSTError, BSYError>(
                e,
            ) == Error::<SPIError, DCError, RSTError, BSYError>::SPI(s),
            CommandError::DC(d) => command_error_as_error::<SPIError, DCError, RSTError, BSYError>(
                e,
            ) == Error::<SPIError, DCError, RSTError, BSYError>::DC(d),
        },
{
}

} // verus!
