//! The driver: the panel's hardware handles, its two frames, and the action plans of its
//! operations.
use vstd::prelude::*;
use crate::action::{actions_view, append_actions, Action, ActionView, Sequence, Step};
use crate::command::Command;
use crate::error::Error;
use crate::frame::{
    draw_pixel, frame_with_pixel, in_bounds, is_frame, lemma_draw_then_read,
    lemma_pixels_determine_frame, lemma_zero_frame_is_blank, pixel_on, Buffer,
};
use crate::PIXELS_ARRAY;

verus! {

/// Marks a driver whose panel has been set up by `init`: only then can frames be written.
pub struct Initialized;

/// Marks a driver whose panel is not set up: freshly made, or turned off.
pub struct NotInitialized;

/// How the panel refreshes: the whole panel, quickly, or in part.
#[derive(Debug, Copy, Clone, Eq, PartialEq, Structural)]
pub enum RefreshMode {
    Full,
    Fast,
    Partial,
}

/// A pixel to draw: its column, its row, and whether it is on (black).
#[derive(Debug, Copy, Clone, Eq, PartialEq, Structural)]
pub struct Pixel {
    pub x: i32,
    pub y: i32,
    pub on: bool,
}

/// The frame `frame` after drawing `pixels` one after the other.
pub open spec fn frame_with_pixels(frame: Seq<u8>, pixels: Seq<Pixel>) -> Seq<u8>
    decreases pixels.len(),
{
    if pixels.len() == 0 {
        frame
    } else {
        let last = pixels.last();
        frame_with_pixel(
            frame_with_pixels(frame, pixels.drop_last()),
            last.x as int,
            last.y as int,
            last.on,
        )
    }
}

/// The colour that the last pixel of `pixels` at `(x, y)` gives that position, if any pixel of
/// `pixels` is there.
pub open spec fn last_colour_at(pixels: Seq<Pixel>, x: int, y: int) -> Option<bool>
    decreases pixels.len(),
{
    if pixels.len() == 0 {
        None
    } else {
        let p = pixels.last();
        if p.x as int == x && p.y as int == y {
            Some(p.on)
        } else {
            last_colour_at(pixels.drop_last(), x, y)
        }
    }
}

/// After drawing a list of pixels, each pixel of the panel has the colour of the last pixel of
/// the list drawn there, or its former colour when the list draws nothing there; the frame keeps
/// the size of the panel.
pub proof fn lemma_draw_list_then_read(frame: Seq<u8>, pixels: Seq<Pixel>, x: int, y: int)
    requires
        is_frame(frame),
        in_bounds(x, y),
    ensures
        is_frame(frame_with_pixels(frame, pixels)),
        pixel_on(frame_with_pixels(frame, pixels), x, y) == match last_colour_at(pixels, x, y) {
            Some(c) => c,
            None => pixel_on(frame, x, y),
        },
    decreases pixels.len(),
{
    if pixels.len() > 0 {
        lemma_draw_list_then_read(frame, pixels.drop_last(), x, y);
        let p = pixels.last();
        lemma_draw_then_read(
            frame_with_pixels(frame, pixels.drop_last()),
            p.x as int,
            p.y as int,
            p.on,
            x,
            y,
        );
    }
}

/// Drawing the same list of pixels twice gives the same frame as drawing it once.
pub proof fn lemma_draw_list_twice(frame: Seq<u8>, pixels: Seq<Pixel>)
    requires
        is_frame(frame),
    ensures
        frame_with_pixels(frame_with_pixels(frame, pixels), pixels) == frame_with_pixels(
            frame,
            pixels,
        ),
{
    let once = frame_with_pixels(frame, pixels);
    let twice = frame_with_pixels(once, pixels);
    lemma_draw_list_then_read(frame, pixels, 0, 0);
    lemma_draw_list_then_read(once, pixels, 0, 0);
    assert forall|x: int, y: int| in_bounds(x, y) implies #[trigger] pixel_on(twice, x, y)
        == pixel_on(once, x, y) by {
        lemma_draw_list_then_read(frame, pixels, x, y);
        lemma_draw_list_then_read(once, pixels, x, y);
    }
    lemma_pixels_determine_frame(twice, once);
}

/// The frame with every pixel off.
pub open spec fn blank_frame() -> Seq<u8> {
    Seq::new(PIXELS_ARRAY as nat, |i: int| 0u8)
}

/// In the blank frame every pixel of the panel is off.
pub proof fn lemma_blank_frame_all_off(x: int, y: int)
    requires
        in_bounds(x, y),
    ensures
        is_frame(blank_frame()),
        !pixel_on(blank_frame(), x, y),
{
    lemma_zero_frame_is_blank(blank_frame(), x, y);
}

/// Waiting for the panel, then sending a command alone.
pub open spec fn send_steps(command: Command) -> Seq<ActionView> {
    busy_block_steps() + command.send_steps()
}

/// Waiting for the panel, then sending a command with its data.
pub open spec fn send_with_data_steps(command: Command, data: Seq<u8>) -> Seq<ActionView> {
    busy_block_steps() + command.send_with_data_steps(data)
}

/// Waiting until the panel is not busy.
pub open spec fn busy_block_steps() -> Seq<ActionView> {
    seq![ActionView::WaitForBusyHigh]
}

/// The hardware reset: reset low, 10 ms, reset high, 10 ms.
pub open spec fn reset_steps() -> Seq<ActionView> {
    seq![
        ActionView::ResetLow,
        ActionView::DelayMs(10),
        ActionView::ResetHigh,
        ActionView::DelayMs(10),
    ]
}

/// Setting the panel up for full refreshes.
pub open spec fn full_refresh_init_steps() -> Seq<ActionView> {
    send_steps(Command::PowerOn) + busy_block_steps() + send_with_data_steps(
        Command::VCOMAndDataIntervalSetting,
        seq![0x97u8],
    )
}

/// Setting the panel up for fast refreshes.
pub open spec fn fast_refresh_init_steps() -> Seq<ActionView> {
    send_steps(Command::PowerOn) + busy_block_steps() + send_with_data_steps(
        Command::CascadeSetting,
        seq![0x02u8],
    ) + send_with_data_steps(Command::ForceTemperature, seq![0x5Fu8])
}

/// Setting the panel up for partial refreshes.
pub open spec fn partial_refresh_init_steps() -> Seq<ActionView> {
    send_steps(Command::PowerOn) + busy_block_steps() + send_with_data_steps(
        Command::CascadeSetting,
        seq![0x02u8],
    ) + send_with_data_steps(Command::ForceTemperature, seq![0x6Eu8]) + send_with_data_steps(
        Command::VCOMAndDataIntervalSetting,
        seq![0xD7u8],
    )
}

/// Setting the panel up: a hardware reset, then the set-up of the refresh mode.
pub open spec fn init_steps(mode: RefreshMode) -> Seq<ActionView> {
    reset_steps() + match mode {
        RefreshMode::Full => full_refresh_init_steps(),
        RefreshMode::Fast => fast_refresh_init_steps(),
        RefreshMode::Partial => partial_refresh_init_steps(),
    }
}

/// Writing both frames to the panel: after waiting for it, the previous frame goes with the
/// first transmission command and the new frame with the second.
pub open spec fn write_framebuffer_steps(old_frame: Seq<u8>, new_frame: Seq<u8>) -> Seq<
    ActionView,
> {
    busy_block_steps() + Command::DisplayStartTransmission1.send_with_data_steps(old_frame)
        + Command::DisplayStartTransmission2.send_with_data_steps(new_frame)
}

/// Showing the written frame: the refresh command, then 1 ms.
pub open spec fn update_display_steps() -> Seq<ActionView> {
    send_steps(Command::DisplayRefresh) + seq![ActionView::DelayMs(1)]
}

/// Turning the panel off: power off, deep sleep, and the data/command pin low so that no
/// current leaks.
pub open spec fn turn_off_steps() -> Seq<ActionView> {
    send_steps(Command::PowerOff) + send_with_data_steps(Command::DeepSleep, seq![0xA5u8])
        + seq![ActionView::DcLow]
}

/// The soft reset: the panel setting register written with 1.
pub open spec fn soft_reset_steps() -> Seq<ActionView> {
    send_with_data_steps(Command::PanelSetting, seq![0x01u8])
}

/// The actions that wait until the panel is not busy.
pub fn busy_block_plan() -> (plan: Vec<Action>)
    ensures
        actions_view(plan@) == busy_block_steps(),
{
    let mut plan: Vec<Action> = Vec::new();
    plan.push(Action::WaitForBusyHigh);
    assert(actions_view(plan@) =~= busy_block_steps());
    plan
}

/// The actions that wait for the panel, then send `command` alone.
pub fn send_plan(command: Command) -> (plan: Vec<Action>)
    ensures
        actions_view(plan@) == send_steps(command),
{
    let mut plan = busy_block_plan();
    append_actions(&mut plan, command.send_plan());
    plan
}

/// The actions that wait for the panel, then send `command` with `data`.
pub fn send_with_data_plan(command: Command, data: &[u8]) -> (plan: Vec<Action>)
    ensures
        actions_view(plan@) == send_with_data_steps(command, data@),
{
    let mut plan = busy_block_plan();
    append_actions(&mut plan, command.send_with_data_plan(data));
    plan
}

/// The actions of the hardware reset.
pub fn reset_plan() -> (plan: Vec<Action>)
    ensures
        actions_view(plan@) == reset_steps(),
{
    let mut plan: Vec<Action> = Vec::new();
    plan.push(Action::ResetLow);
    plan.push(Action::DelayMs(10));
    plan.push(Action::ResetHigh);
    plan.push(Action::DelayMs(10));
    assert(actions_view(plan@) =~= reset_steps());
    plan
}

/// The actions that set the panel up for full refreshes.
pub fn full_refresh_init_plan() -> (plan: Vec<Action>)
    ensures
        actions_view(plan@) == full_refresh_init_steps(),
{
    let mut plan = send_plan(Command::PowerOn);
    append_actions(&mut plan, busy_block_plan());
    let data: [u8; 1] = [0x97];
    append_actions(&mut plan, send_with_data_plan(Command::VCOMAndDataIntervalSetting, &data));
    assert(data@ =~= seq![0x97u8]);
    plan
}

/// The actions that set the panel up for fast refreshes.
pub fn fast_refresh_init_plan() -> (plan: Vec<Action>)
    ensures
        actions_view(plan@) == fast_refresh_init_steps(),
{
    let mut plan = send_plan(Command::PowerOn);
    append_actions(&mut plan, busy_block_plan());
    let cascade: [u8; 1] = [0x02];
    append_actions(&mut plan, send_with_data_plan(Command::CascadeSetting, &cascade));
    let temperature: [u8; 1] = [0x5F];
    append_actions(&mut plan, send_with_data_plan(Command::ForceTemperature, &temperature));
    assert(cascade@ =~= seq![0x02u8]);
    assert(temperature@ =~= seq![0x5Fu8]);
    plan
}

/// The actions that set the panel up for partial refreshes.
pub fn partial_refresh_init_plan() -> (plan: Vec<Action>)
    ensures
        actions_view(plan@) == partial_refresh_init_steps(),
{
    let mut plan = send_plan(Command::PowerOn);
    append_actions(&mut plan, busy_block_plan());
    let cascade: [u8; 1] = [0x02];
    append_actions(&mut plan, send_with_data_plan(Command::CascadeSetting, &cascade));
    let temperature: [u8; 1] = [0x6E];
    append_actions(&mut plan, send_with_data_plan(Command::ForceTemperature, &temperature));
    let vcom: [u8; 1] = [0xD7];
    append_actions(&mut plan, send_with_data_plan(Command::VCOMAndDataIntervalSetting, &vcom));
    assert(cascade@ =~= seq![0x02u8]);
    assert(temperature@ =~= seq![0x6Eu8]);
    assert(vcom@ =~= seq![0xD7u8]);
    plan
}

/// The actions that set the panel up in refresh mode `mode`.
pub fn init_plan(mode: RefreshMode) -> (plan: Vec<Action>)
    ensures
        actions_view(plan@) == init_steps(mode),
{
    let mut plan = reset_plan();
    match mode {
        RefreshMode::Full => append_actions(&mut plan, full_refresh_init_plan()),
        RefreshMode::Fast => append_actions(&mut plan, fast_refresh_init_plan()),
        RefreshMode::Partial => append_actions(&mut plan, partial_refresh_init_plan()),
    }
    plan
}

/// The actions that show the written frame.
pub fn update_display_plan() -> (plan: Vec<Action>)
    ensures
        actions_view(plan@) == update_display_steps(),
{
    let mut plan = send_plan(Command::DisplayRefresh);
    let ghost before = plan@;
    plan.push(Action::DelayMs(1));
    assert(actions_view(plan@) =~= actions_view(before) + seq![ActionView::DelayMs(1)]);
    plan
}

/// The actions that turn the panel off.
pub fn turn_off_plan() -> (plan: Vec<Action>)
    ensures
        actions_view(plan@) == turn_off_steps(),
{
    let mut plan = send_plan(Command::PowerOff);
    let sleep: [u8; 1] = [0xA5];
    append_actions(&mut plan, send_with_data_plan(Command::DeepSleep, &sleep));
    assert(sleep@ =~= seq![0xA5u8]);
    let ghost before = plan@;
    plan.push(Action::DcLow);
    assert(actions_view(plan@) =~= actions_view(before) + seq![ActionView::DcLow]);
    plan
}

/// The actions of the soft reset.
pub fn soft_reset_plan() -> (plan: Vec<Action>)
    ensures
        actions_view(plan@) == soft_reset_steps(),
{
    let setting: [u8; 1] = [0x01];
    let plan = send_with_data_plan(Command::PanelSetting, &setting);
    assert(setting@ =~= seq![0x01u8]);
    plan
}

/// The UC8253 driver: the bus, the pins and the delay of the panel, the frame last written to
/// the panel, and the frame being drawn. `S` says whether the panel is set up.
pub struct UC8253<SPI, DC, RST, BSY, DLY, S> {
    interface: SPI,
    old_buffer: Buffer,
    new_buffer: Buffer,
    dc: DC,
    reset: RST,
    busy: BSY,
    delay: DLY,
    state: S,
}

/// The frames of a driver both have the size of the panel.
pub open spec fn frames_have_panel_size<SPI, DC, RST, BSY, DLY, S>(
    d: UC8253<SPI, DC, RST, BSY, DLY, S>,
) -> bool {
    is_frame(d.old_frame()) && is_frame(d.new_frame())
}

impl<SPI, DC, RST, BSY, DLY, S> UC8253<SPI, DC, RST, BSY, DLY, S> {
    /// The frame last written to the panel.
    pub closed spec fn old_frame(&self) -> Seq<u8> {
        self.old_buffer@
    }

    /// The frame being drawn, to be written next.
    pub closed spec fn new_frame(&self) -> Seq<u8> {
        self.new_buffer@
    }

    /// The bus, the data/command pin, the reset pin, the busy pin and the delay.
    pub closed spec fn parts(&self) -> (SPI, DC, RST, BSY, DLY) {
        (self.interface, self.dc, self.reset, self.busy, self.delay)
    }

    /// Both frames have the size of the panel.
    pub fn frame_sizes(&self)
        ensures
            frames_have_panel_size(*self),
    {
        self.old_buffer.size_check();
        self.new_buffer.size_check();
    }

    /// The bytes of the frame being drawn.
    pub fn frame(&self) -> (v: Vec<u8>)
        ensures
            v@ == self.new_frame(),
            frames_have_panel_size(*self),
    {
        self.frame_sizes();
        self.new_buffer.bytes()
    }

    /// The bytes of the frame last written to the panel.
    pub fn previous_frame(&self) -> (v: Vec<u8>)
        ensures
            v@ == self.old_frame(),
            frames_have_panel_size(*self),
    {
        self.frame_sizes();
        self.old_buffer.bytes()
    }

    /// Mutable access to the bus, the pins and the delay, for carrying out actions; the frames
    /// stay as they are.
    pub fn hardware(&mut self) -> (h: (&mut SPI, &mut DC, &mut RST, &mut BSY, &mut DLY))
        ensures
            (*h.0, *h.1, *h.2, *h.3, *h.4) == old(self).parts(),
            final(self).parts() == (*final(h.0), *final(h.1), *final(h.2), *final(h.3), *final(h.4)),
            final(self).old_frame() == old(self).old_frame(),
            final(self).new_frame() == old(self).new_frame(),
            frames_have_panel_size(*old(self)),
    {
        self.frame_sizes();
        (&mut self.interface, &mut self.dc, &mut self.reset, &mut self.busy, &mut self.delay)
    }

    /// The bus and the pins, leaving the delay and the frames.
    fn into_handles(self) -> (h: (SPI, DC, RST, BSY))
        ensures
            h == (self.parts().0, self.parts().1, self.parts().2, self.parts().3),
    {
        (self.interface, self.dc, self.reset, self.busy)
    }

    /// Begins turning the panel off. The driver comes back, marked as not set up, only once
    /// every action of `turn_off_steps` has succeeded.
    pub fn turn_off(self) -> (r: Run<SPI, DC, RST, BSY, DLY, S, NotInitialized>)
        ensures
            r.remaining() == turn_off_steps(),
            r.parts() == self.parts(),
            r.old_frame() == self.old_frame(),
            r.new_frame() == self.new_frame(),
            frames_have_panel_size(self),
    {
        self.frame_sizes();
        Run { display: self, sequence: Sequence::new(turn_off_plan()), target: NotInitialized }
    }
}

impl<SPI, DC, RST, BSY, DLY> UC8253<SPI, DC, RST, BSY, DLY, NotInitialized> {
    /// Acquires the bus, the pins and the delay of the panel and performs a hardware reset:
    /// the driver, with both frames blank, comes out of the returned run once every action of
    /// `reset_steps` has succeeded.
    pub fn new(interface: SPI, dc: DC, reset: RST, busy: BSY, delay: DLY) -> (r: Run<
        SPI,
        DC,
        RST,
        BSY,
        DLY,
        NotInitialized,
        NotInitialized,
    >)
        ensures
            r.remaining() == reset_steps(),
            r.parts() == (interface, dc, reset, busy, delay),
            r.old_frame() == blank_frame(),
            r.new_frame() == blank_frame(),
    {
        let display = Self {
            interface,
            old_buffer: Buffer::new(),
            new_buffer: Buffer::new(),
            dc,
            reset,
            busy,
            delay,
            state: NotInitialized,
        };
        Run { display, sequence: Sequence::new(reset_plan()), target: NotInitialized }
    }

    /// Gives back the bus and the pins; this never fails.
    pub fn release<SPIError, DCError, RSTError, BSYError>(self) -> (r: Result<
        (SPI, DC, RST, BSY),
        Error<SPIError, DCError, RSTError, BSYError>,
    >)
        ensures
            r == Ok::<(SPI, DC, RST, BSY), Error<SPIError, DCError, RSTError, BSYError>>(
                (self.parts().0, self.parts().1, self.parts().2, self.parts().3),
            ),
    {
        Ok(self.into_handles())
    }

    /// Begins setting the panel up in refresh mode `refresh_mode`. The driver comes back,
    /// marked as set up, only once every action of `init_steps(refresh_mode)` has succeeded.
    pub fn init(self, refresh_mode: RefreshMode) -> (r: Run<
        SPI,
        DC,
        RST,
        BSY,
        DLY,
        NotInitialized,
        Initialized,
    >)
        ensures
            r.remaining() == init_steps(refresh_mode),
            r.parts() == self.parts(),
            r.old_frame() == self.old_frame(),
            r.new_frame() == self.new_frame(),
            frames_have_panel_size(self),
    {
        self.frame_sizes();
        Run { display: self, sequence: Sequence::new(init_plan(refresh_mode)), target: Initialized }
    }
}

impl<SPI, DC, RST, BSY, DLY> UC8253<SPI, DC, RST, BSY, DLY, Initialized> {
    /// Begins releasing the bus and the pins: the panel is turned off first, and the handles
    /// come back only once every action of `turn_off_steps` has succeeded.
    pub fn release(self) -> (r: Release<SPI, DC, RST, BSY, DLY>)
        ensures
            r.remaining() == turn_off_steps(),
            r.parts() == self.parts(),
            frames_have_panel_size(self),
    {
        Release { run: self.turn_off() }
    }

    /// Begins writing both frames to the panel: the previous frame, then the frame being drawn.
    /// The frame sent becomes the previous frame only once every action has succeeded.
    pub fn write_framebuffer(&self) -> (w: FrameWrite)
        ensures
            w.remaining() == write_framebuffer_steps(self.old_frame(), self.new_frame()),
            w.sent_frame() == self.new_frame(),
            frames_have_panel_size(*self),
    {
        self.frame_sizes();
        let mut plan = busy_block_plan();
        let old_bytes = self.old_buffer.bytes();
        append_actions(
            &mut plan,
            Command::DisplayStartTransmission1.send_with_data_plan(old_bytes.as_slice()),
        );
        let new_bytes = self.new_buffer.bytes();
        append_actions(
            &mut plan,
            Command::DisplayStartTransmission2.send_with_data_plan(new_bytes.as_slice()),
        );
        FrameWrite { sequence: Sequence::new(plan), sent: self.new_buffer.duplicate() }
    }

    /// Takes the outcome of the frame write's action carried out last (`Ok(())` before the first
    /// one). After a failure the write is over with that failure and the driver is unchanged;
    /// after a success the next action is handed out, or, when none is left, the write is over
    /// without error and the frame sent becomes the previous frame.
    pub fn write_framebuffer_next<E>(&mut self, write: FrameWrite, outcome: Result<(), E>) -> (step:
        WriteStep<E>)
        ensures
            final(self).parts() == old(self).parts(),
            final(self).new_frame() == old(self).new_frame(),
            frames_have_panel_size(*old(self)),
            frames_have_panel_size(*final(self)),
            match outcome {
                Err(e) => {
                    &&& step == WriteStep::<E>::Finished(Err(e))
                    &&& final(self).old_frame() == old(self).old_frame()
                },
                Ok(_) => if write.remaining().len() == 0 {
                    &&& step == WriteStep::<E>::Finished(Ok(()))
                    &&& final(self).old_frame() == write.sent_frame()
                } else {
                    &&& step is Perform
                    &&& step->Perform_0@ == write.remaining()[0]
                    &&& step->Perform_1.remaining() == write.remaining().drop_first()
                    &&& step->Perform_1.sent_frame() == write.sent_frame()
                    &&& final(self).old_frame() == old(self).old_frame()
                },
            },
    {
        self.frame_sizes();
        let FrameWrite { sequence, sent } = write;
        sent.size_check();
        match sequence.next(outcome) {
            Step::Perform(action, rest) => WriteStep::Perform(action, FrameWrite { sequence: rest, sent }),
            Step::Finished(Err(e)) => WriteStep::Finished(Err(e)),
            Step::Finished(Ok(())) => {
                self.old_buffer = sent;
                WriteStep::Finished(Ok(()))
            },
        }
    }

    /// Draws pixel `(x, y)` with colour `on`; a pixel outside the panel is left out without
    /// error.
    pub fn draw_pixel(&mut self, x: i32, y: i32, on: bool)
        ensures
            final(self).new_frame() == frame_with_pixel(old(self).new_frame(), x as int, y as int, on),
            final(self).old_frame() == old(self).old_frame(),
            final(self).parts() == old(self).parts(),
            frames_have_panel_size(*old(self)),
            frames_have_panel_size(*final(self)),
    {
        self.frame_sizes();
        draw_pixel(&mut self.new_buffer, x, y, on);
        self.frame_sizes();
    }

    /// Draws `pixels` one after the other; pixels outside the panel are left out, and this
    /// never fails.
    pub fn draw_iter<SPIError, DCError, RSTError, BSYError>(&mut self, pixels: &[Pixel]) -> (r:
        Result<(), Error<SPIError, DCError, RSTError, BSYError>>)
        ensures
            r is Ok,
            final(self).new_frame() == frame_with_pixels(old(self).new_frame(), pixels@),
            final(self).old_frame() == old(self).old_frame(),
            final(self).parts() == old(self).parts(),
            frames_have_panel_size(*old(self)),
            frames_have_panel_size(*final(self)),
    {
        self.frame_sizes();
        let mut i: usize = 0;
        while i < pixels.len()
            invariant
                i <= pixels@.len(),
                self.new_frame() == frame_with_pixels(old(self).new_frame(), pixels@.subrange(0, i as int)),
                self.old_frame() == old(self).old_frame(),
                self.parts() == old(self).parts(),
            decreases pixels@.len() - i,
        {
            let p = pixels[i];
            self.draw_pixel(p.x, p.y, p.on);
            proof {
                let next = pixels@.subrange(0, i + 1);
                assert(next.drop_last() =~= pixels@.subrange(0, i as int));
                assert(next.last() == p);
            }
            i = i + 1;
        }
        assert(pixels@.subrange(0, pixels@.len() as int) =~= pixels@);
        self.frame_sizes();
        Ok(())
    }
}

/// Releasing the bus and the pins of a set-up panel: turning it off, then handing the handles
/// back.
pub struct Release<SPI, DC, RST, BSY, DLY> {
    run: Run<SPI, DC, RST, BSY, DLY, Initialized, NotInitialized>,
}

/// What the executor is to do next while releasing.
pub enum ReleaseStep<SPI, DC, RST, BSY, DLY, E> {
    /// Carry out this action, then hand its outcome to the rest of the release.
    Perform(Action, Release<SPI, DC, RST, BSY, DLY>),
    /// The release is over: the bus and the pins, or the error of the first action that failed.
    Finished(Result<(SPI, DC, RST, BSY), E>),
}

impl<SPI, DC, RST, BSY, DLY> Release<SPI, DC, RST, BSY, DLY> {
    /// The actions still to be carried out, in order.
    pub closed spec fn remaining(&self) -> Seq<ActionView> {
        self.run.remaining()
    }

    /// The handles of the driver being released.
    pub closed spec fn parts(&self) -> (SPI, DC, RST, BSY, DLY) {
        self.run.parts()
    }

    /// Mutable access to the bus, the pins and the delay, for carrying out actions.
    pub fn hardware(&mut self) -> (h: (&mut SPI, &mut DC, &mut RST, &mut BSY, &mut DLY))
        ensures
            (*h.0, *h.1, *h.2, *h.3, *h.4) == old(self).parts(),
            final(self).parts() == (*final(h.0), *final(h.1), *final(h.2), *final(h.3), *final(h.4)),
            final(self).remaining() == old(self).remaining(),
    {
        self.run.hardware()
    }

    /// Takes the outcome of the action carried out last (`Ok(())` before the first one). After a
    /// failure the release is over with that failure; after a success the next action is handed
    /// out, or, when none is left, the bus and the pins come back.
    pub fn next<E>(self, outcome: Result<(), E>) -> (step: ReleaseStep<SPI, DC, RST, BSY, DLY, E>)
        ensures
            match outcome {
                Err(e) => step == ReleaseStep::<SPI, DC, RST, BSY, DLY, E>::Finished(Err(e)),
                Ok(_) => if self.remaining().len() == 0 {
                    step == ReleaseStep::<SPI, DC, RST, BSY, DLY, E>::Finished(
                        Ok((self.parts().0, self.parts().1, self.parts().2, self.parts().3)),
                    )
                } else {
                    &&& step is Perform
                    &&& step->Perform_0@ == self.remaining()[0]
                    &&& step->Perform_1.remaining() == self.remaining().drop_first()
                    &&& step->Perform_1.parts() == self.parts()
                },
            },
    {
        match self.run.next(outcome) {
            RunStep::Perform(action, rest) => ReleaseStep::Perform(action, Release { run: rest }),
            RunStep::Failed(e) => ReleaseStep::Finished(Err(e)),
            RunStep::Done(display) => ReleaseStep::Finished(Ok(display.into_handles())),
        }
    }
}

/// An operation that changes what the driver may do: it holds the driver while its actions are
/// carried out, and gives the driver back, in state `T`, only when all of them have succeeded.
pub struct Run<SPI, DC, RST, BSY, DLY, S, T> {
    display: UC8253<SPI, DC, RST, BSY, DLY, S>,
    sequence: Sequence,
    target: T,
}

/// What the executor is to do next in a run.
pub enum RunStep<SPI, DC, RST, BSY, DLY, S, T, E> {
    /// Carry out this action, then hand its outcome to the rest of the run.
    Perform(Action, Run<SPI, DC, RST, BSY, DLY, S, T>),
    /// Every action succeeded: here is the driver.
    Done(UC8253<SPI, DC, RST, BSY, DLY, T>),
    /// This action's error ended the run; the driver is given up with it.
    Failed(E),
}

impl<SPI, DC, RST, BSY, DLY, S, T> Run<SPI, DC, RST, BSY, DLY, S, T> {
    /// The actions still to be carried out, in order.
    pub closed spec fn remaining(&self) -> Seq<ActionView> {
        self.sequence.remaining()
    }

    /// The handles of the driver being run.
    pub closed spec fn parts(&self) -> (SPI, DC, RST, BSY, DLY) {
        self.display.parts()
    }

    /// The previous frame of the driver being run.
    pub closed spec fn old_frame(&self) -> Seq<u8> {
        self.display.old_frame()
    }

    /// The frame being drawn of the driver being run.
    pub closed spec fn new_frame(&self) -> Seq<u8> {
        self.display.new_frame()
    }

    /// Mutable access to the bus, the pins and the delay, for carrying out actions.
    pub fn hardware(&mut self) -> (h: (&mut SPI, &mut DC, &mut RST, &mut BSY, &mut DLY))
        ensures
            (*h.0, *h.1, *h.2, *h.3, *h.4) == old(self).parts(),
            final(self).parts() == (*final(h.0), *final(h.1), *final(h.2), *final(h.3), *final(h.4)),
            final(self).old_frame() == old(self).old_frame(),
            final(self).new_frame() == old(self).new_frame(),
            final(self).remaining() == old(self).remaining(),
    {
        self.display.hardware()
    }

    /// Takes the outcome of the action carried out last (`Ok(())` before the first one). After a
    /// failure the run is over with that failure; after a success the next action is handed
    /// out, or, when none is left, the driver comes back in state `T` with its handles and
    /// frames.
    pub fn next<E>(self, outcome: Result<(), E>) -> (step: RunStep<SPI, DC, RST, BSY, DLY, S, T, E>)
        ensures
            match outcome {
                Err(e) => step == RunStep::<SPI, DC, RST, BSY, DLY, S, T, E>::Failed(e),
                Ok(_) => if self.remaining().len() == 0 {
                    &&& step is Done
                    &&& step->Done_0.parts() == self.parts()
                    &&& step->Done_0.old_frame() == self.old_frame()
                    &&& step->Done_0.new_frame() == self.new_frame()
                    &&& frames_have_panel_size(step->Done_0)
                } else {
                    &&& step is Perform
                    &&& step->Perform_0@ == self.remaining()[0]
                    &&& step->Perform_1.remaining() == self.remaining().drop_first()
                    &&& step->Perform_1.parts() == self.parts()
                    &&& step->Perform_1.old_frame() == self.old_frame()
                    &&& step->Perform_1.new_frame() == self.new_frame()
                },
            },
    {
        let Run { display, sequence, target } = self;
        match sequence.next(outcome) {
            Step::Perform(action, rest) => RunStep::Perform(
                action,
                Run { display, sequence: rest, target },
            ),
            Step::Finished(Err(e)) => RunStep::Failed(e),
            Step::Finished(Ok(())) => {
                display.frame_sizes();
                RunStep::Done(
                    UC8253 {
                        interface: display.interface,
                        old_buffer: display.old_buffer,
                        new_buffer: display.new_buffer,
                        dc: display.dc,
                        reset: display.reset,
                        busy: display.busy,
                        delay: display.delay,
                        state: target,
                    },
                )
            },
        }
    }
}

/// Writing both frames to the panel: the actions still to be carried out, and the frame being
/// sent, which becomes the previous frame once all actions have succeeded.
pub struct FrameWrite {
    sequence: Sequence,
    sent: Buffer,
}

/// What the executor is to do next in a frame write.
pub enum WriteStep<E> {
    /// Carry out this action, then hand its outcome to `write_framebuffer_next`.
    Perform(Action, FrameWrite),
    /// The write is over, with this result.
    Finished(Result<(), E>),
}

impl FrameWrite {
    /// The actions still to be carried out, in order.
    pub closed spec fn remaining(&self) -> Seq<ActionView> {
        self.sequence.remaining()
    }

    /// The frame being sent.
    pub closed spec fn sent_frame(&self) -> Seq<u8> {
        self.sent@
    }
}

} // verus!
