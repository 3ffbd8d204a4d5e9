use uc8253::action::{Action, Sequence, Step};
use uc8253::display::{
    busy_block_plan, init_plan, reset_plan, send_plan, send_with_data_plan, soft_reset_plan,
    turn_off_plan, update_display_plan, Initialized, NotInitialized, RefreshMode, ReleaseStep, Run,
    RunStep, WriteStep, UC8253,
};
use uc8253::command::Command;
use uc8253::error::Error;

fn wait() -> Action {
    Action::WaitForBusyHigh
}

fn command(code: u8) -> Vec<Action> {
    vec![Action::DcLow, Action::SpiWrite(vec![code])]
}

fn with_data(code: u8, data: u8) -> Vec<Action> {
    vec![
        Action::DcLow,
        Action::SpiWrite(vec![code]),
        Action::DcHigh,
        Action::SpiWrite(vec![data]),
    ]
}

fn reset() -> Vec<Action> {
    vec![
        Action::ResetLow,
        Action::DelayMs(10),
        Action::ResetHigh,
        Action::DelayMs(10),
    ]
}

fn concat(parts: Vec<Vec<Action>>) -> Vec<Action> {
    parts.into_iter().flatten().collect()
}

/// Carries a run out with every action succeeding; returns the actions and the driver.
fn finish<A, B, C, D, E, S, T>(
    run: Run<A, B, C, D, E, S, T>,
) -> (Vec<Action>, UC8253<A, B, C, D, E, T>) {
    let mut run = run;
    let mut done = Vec::new();
    loop {
        match run.next::<()>(Ok(())) {
            RunStep::Perform(action, rest) => {
                done.push(action);
                run = rest;
            }
            RunStep::Done(d) => return (done, d),
            RunStep::Failed(_) => panic!("no action fails here"),
        }
    }
}

fn acquired(h: u8) -> UC8253<u8, u8, u8, u8, u8, NotInitialized> {
    finish(UC8253::new(h, h, h, h, h)).1
}

fn set_up() -> UC8253<u8, u8, u8, u8, u8, Initialized> {
    finish(acquired(0).init(RefreshMode::Full)).1
}

/// Carries a frame write out; the action at position `fail_at`, if any, fails.
fn write(
    d: &mut UC8253<u8, u8, u8, u8, u8, Initialized>,
    fail_at: Option<usize>,
) -> (Vec<Action>, Result<(), &'static str>) {
    let mut w = d.write_framebuffer();
    let mut done = Vec::new();
    let mut outcome = Ok(());
    loop {
        match d.write_framebuffer_next(w, outcome) {
            WriteStep::Perform(action, rest) => {
                outcome = if Some(done.len()) == fail_at { Err("bus error") } else { Ok(()) };
                done.push(action);
                w = rest;
            }
            WriteStep::Finished(r) => return (done, r),
        }
    }
}

#[test]
fn busy_block_waits_for_busy_high() {
    assert_eq!(busy_block_plan(), vec![wait()]);
}

#[test]
fn hardware_reset_toggles_reset_pin_with_delays() {
    assert_eq!(reset_plan(), reset());
}

#[test]
fn driver_send_waits_then_sends() {
    assert_eq!(
        send_plan(Command::DisplayRefresh),
        concat(vec![vec![wait()], command(0x12)])
    );
    assert_eq!(
        send_with_data_plan(Command::DeepSleep, &[0xA5]),
        concat(vec![vec![wait()], with_data(0x07, 0xA5)])
    );
}

#[test]
fn init_full_refresh() {
    let expected = concat(vec![
        reset(),
        vec![wait()],
        command(0x04),
        vec![wait()],
        vec![wait()],
        with_data(0x50, 0x97),
    ]);
    assert_eq!(init_plan(RefreshMode::Full), expected);
}

#[test]
fn init_fast_refresh() {
    let expected = concat(vec![
        reset(),
        vec![wait()],
        command(0x04),
        vec![wait()],
        vec![wait()],
        with_data(0xE0, 0x02),
        vec![wait()],
        with_data(0xE5, 0x5F),
    ]);
    assert_eq!(init_plan(RefreshMode::Fast), expected);
}

#[test]
fn init_partial_refresh() {
    let expected = concat(vec![
        reset(),
        vec![wait()],
        command(0x04),
        vec![wait()],
        vec![wait()],
        with_data(0xE0, 0x02),
        vec![wait()],
        with_data(0xE5, 0x6E),
        vec![wait()],
        with_data(0x50, 0xD7),
    ]);
    assert_eq!(init_plan(RefreshMode::Partial), expected);
}

#[test]
fn update_display_refreshes_then_waits_one_millisecond() {
    assert_eq!(
        update_display_plan(),
        concat(vec![vec![wait()], command(0x12), vec![Action::DelayMs(1)]])
    );
}

#[test]
fn turn_off_powers_off_sleeps_and_lowers_dc() {
    assert_eq!(
        turn_off_plan(),
        concat(vec![
            vec![wait()],
            command(0x02),
            vec![wait()],
            with_data(0x07, 0xA5),
            vec![Action::DcLow],
        ])
    );
}

#[test]
fn soft_reset_writes_panel_setting() {
    assert_eq!(
        soft_reset_plan(),
        concat(vec![vec![wait()], with_data(0x00, 0x01)])
    );
}

#[test]
fn new_performs_a_hardware_reset() {
    let (done, d) = finish(UC8253::new(1u8, 2u8, 3u8, 4u8, 5u8));
    assert_eq!(done, reset());
    assert!(d.frame().iter().all(|b| *b == 0));
}

#[test]
fn failed_reset_gives_the_error_and_no_driver() {
    let mut run = UC8253::new(1u8, 2u8, 3u8, 4u8, 5u8);
    let mut outcome: Result<(), Error<(), (), &str, ()>> = Ok(());
    let mut count = 0;
    loop {
        match run.next(outcome) {
            RunStep::Perform(_, rest) => {
                count += 1;
                outcome = Err(Error::RST("stuck"));
                run = rest;
            }
            RunStep::Done(_) => panic!("a failed reset must not give a driver"),
            RunStep::Failed(e) => {
                assert!(matches!(e, Error::RST("stuck")));
                break;
            }
        }
    }
    assert_eq!(count, 1);
}

#[test]
fn init_hands_out_its_plan_then_the_set_up_driver() {
    let (done, d) = finish(acquired(7).init(RefreshMode::Partial));
    assert_eq!(done, init_plan(RefreshMode::Partial));
    match d.turn_off().next::<()>(Ok(())) {
        RunStep::Perform(action, _) => assert_eq!(action, Action::WaitForBusyHigh),
        _ => panic!("turning off starts with an action"),
    }
}

#[test]
fn failed_init_gives_the_error_and_no_driver() {
    let mut run = acquired(0).init(RefreshMode::Fast);
    let mut outcome: Result<(), Error<(), &str, (), ()>> = Ok(());
    let mut done = Vec::new();
    let result = loop {
        match run.next(outcome) {
            RunStep::Perform(action, rest) => {
                outcome = if action == Action::DcHigh { Err(Error::DC("pin")) } else { Ok(()) };
                done.push(action);
                run = rest;
            }
            RunStep::Done(_) => panic!("a failed set-up must not give a set-up driver"),
            RunStep::Failed(e) => break e,
        }
    };
    assert!(matches!(result, Error::DC("pin")));
    assert_eq!(done.last(), Some(&Action::DcHigh));
    assert_eq!(done.len(), reset().len() + 1 + 2 + 1 + 1 + 3);
}

#[test]
fn write_framebuffer_sends_previous_then_new_frame() {
    let mut d = set_up();
    d.draw_pixel(0, 0, true);
    let old = vec![0u8; 12480];
    let mut new = vec![0u8; 12480];
    new[0] = 0x80;
    let expected = vec![
        wait(),
        Action::DcLow,
        Action::SpiWrite(vec![0x10]),
        Action::DcHigh,
        Action::SpiWrite(old),
        Action::DcLow,
        Action::SpiWrite(vec![0x13]),
        Action::DcHigh,
        Action::SpiWrite(new.clone()),
    ];
    let (done, result) = write(&mut d, None);
    assert_eq!(done, expected);
    assert!(result.is_ok());
    assert_eq!(d.previous_frame(), new);
    assert_eq!(d.frame(), new);
    let (again, result) = write(&mut d, None);
    assert!(result.is_ok());
    assert_eq!(again[4], Action::SpiWrite(new.clone()));
    assert_eq!(again[8], Action::SpiWrite(new));
}

#[test]
fn failed_write_keeps_the_previous_frame() {
    let mut d = set_up();
    d.draw_pixel(1, 0, true);
    let (done, result) = write(&mut d, Some(6));
    assert_eq!(result, Err("bus error"));
    assert_eq!(done.len(), 7);
    assert!(d.previous_frame().iter().all(|b| *b == 0));
    assert_eq!(d.frame()[0], 0x40);
}

#[test]
fn frame_sent_becomes_previous_even_if_drawing_went_on() {
    let mut d = set_up();
    d.draw_pixel(0, 0, true);
    let mut w = d.write_framebuffer();
    let mut outcome: Result<(), ()> = Ok(());
    let mut drawn = false;
    loop {
        match d.write_framebuffer_next(w, outcome) {
            WriteStep::Perform(_, rest) => {
                if !drawn {
                    d.draw_pixel(1, 0, true);
                    drawn = true;
                }
                outcome = Ok(());
                w = rest;
            }
            WriteStep::Finished(r) => {
                assert!(r.is_ok());
                break;
            }
        }
    }
    assert_eq!(d.previous_frame()[0], 0x80);
    assert_eq!(d.frame()[0], 0xC0);
}

#[test]
fn release_gives_back_the_handles() {
    let (_, d) = finish(UC8253::new(1u8, 2u16, 3u32, 4u64, 5i8));
    match d.release::<(), (), (), ()>() {
        Ok(parts) => assert_eq!(parts, (1u8, 2u16, 3u32, 4u64)),
        Err(_) => panic!("release failed"),
    }
}

#[test]
fn set_up_and_turned_off_driver_keeps_handles_and_frames() {
    let (_, d) = finish(UC8253::new(1u8, 2u8, 3u8, 4u8, 5u8));
    let (_, mut d) = finish(d.init(RefreshMode::Full));
    d.draw_pixel(3, 4, true);
    let frame = d.frame();
    let (done, d) = finish(d.turn_off());
    assert_eq!(done, turn_off_plan());
    assert_eq!(d.frame(), frame);
    match d.release::<(), (), (), ()>() {
        Ok(parts) => assert_eq!(parts, (1, 2, 3, 4)),
        Err(_) => panic!("release failed"),
    }
}

#[test]
fn hardware_access_reaches_the_handles() {
    let mut d = acquired(0);
    {
        let (spi, dc, rst, busy, delay) = d.hardware();
        assert_eq!((*spi, *dc, *rst, *busy, *delay), (0, 0, 0, 0, 0));
        *spi = 10;
        *busy = 40;
    }
    match d.release::<(), (), (), ()>() {
        Ok(parts) => assert_eq!(parts, (10, 0, 0, 40)),
        Err(_) => panic!("release failed"),
    }
}

#[test]
fn run_hardware_access_reaches_the_handles() {
    let mut run = UC8253::new(1u8, 2u8, 3u8, 4u8, 5u8);
    {
        let (_, _, rst, _, delay) = run.hardware();
        assert_eq!((*rst, *delay), (3, 5));
        *rst = 30;
    }
    let (_, d) = finish(run);
    match d.release::<(), (), (), ()>() {
        Ok(parts) => assert_eq!(parts, (1, 2, 30, 4)),
        Err(_) => panic!("release failed"),
    }
}

#[test]
fn sequence_hands_out_every_action_in_order() {
    let plan = init_plan(RefreshMode::Full);
    let expected = init_plan(RefreshMode::Full);
    let mut seq = Sequence::new(plan);
    let mut done = Vec::new();
    let result: Result<(), Error<(), (), (), ()>> = loop {
        match seq.next::<Error<(), (), (), ()>>(Ok(())) {
            Step::Perform(action, rest) => {
                done.push(action);
                seq = rest;
            }
            Step::Finished(r) => break r,
        }
    };
    assert!(result.is_ok());
    assert_eq!(done, expected);
}

#[test]
fn sequence_stops_at_the_first_failure() {
    let mut seq = Sequence::new(reset_plan());
    let mut done = Vec::new();
    let mut outcome: Result<(), Error<(), (), &str, ()>> = Ok(());
    let result = loop {
        match seq.next(outcome) {
            Step::Perform(action, rest) => {
                outcome = if action == Action::ResetHigh {
                    Err(Error::RST("pin stuck"))
                } else {
                    Ok(())
                };
                done.push(action);
                seq = rest;
            }
            Step::Finished(r) => break r,
        }
    };
    assert!(matches!(result, Err(Error::RST("pin stuck"))));
    assert_eq!(
        done,
        vec![Action::ResetLow, Action::DelayMs(10), Action::ResetHigh]
    );
}

#[test]
fn empty_sequence_finishes_without_error() {
    let seq = Sequence::new(Vec::new());
    assert!(matches!(seq.next::<()>(Ok(())), Step::Finished(Ok(()))));
}

#[test]
fn releasing_a_set_up_panel_turns_it_off_then_gives_back_the_handles() {
    let (_, d) = finish(UC8253::new(1u8, 2u8, 3u8, 4u8, 5u8));
    let (_, d) = finish(d.init(RefreshMode::Fast));
    let mut release = d.release();
    let mut done = Vec::new();
    let result = loop {
        match release.next::<Error<(), (), (), ()>>(Ok(())) {
            ReleaseStep::Perform(action, rest) => {
                done.push(action);
                release = rest;
            }
            ReleaseStep::Finished(r) => break r,
        }
    };
    assert_eq!(done, turn_off_plan());
    match result {
        Ok(parts) => assert_eq!(parts, (1, 2, 3, 4)),
        Err(_) => panic!("no action failed"),
    }
}

#[test]
fn releasing_a_set_up_panel_fails_with_the_turn_off_error() {
    let mut release = set_up().release();
    let mut done = Vec::new();
    let mut outcome: Result<(), Error<&str, (), (), ()>> = Ok(());
    let result = loop {
        match release.next(outcome) {
            ReleaseStep::Perform(action, rest) => {
                outcome = if action == Action::SpiWrite(vec![0x07]) {
                    Err(Error::SPI("bus"))
                } else {
                    Ok(())
                };
                done.push(action);
                release = rest;
            }
            ReleaseStep::Finished(r) => break r,
        }
    };
    assert!(matches!(result, Err(Error::SPI("bus"))));
    assert_eq!(done.len(), 6);
    assert_eq!(done.last(), Some(&Action::SpiWrite(vec![0x07])));
}
