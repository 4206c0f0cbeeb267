use std::collections::VecDeque;

use toyunda_player::control::{step, Action, Driver, Fault, Phase, Response, Stage};
use toyunda_player::engine::{EngineOption, EventToken};
use toyunda_player::input::{InputEvent, Key};
use toyunda_player::property::{flag_text, Property, PropertyError, PropertyValue, Speed};
use toyunda_player::render::FrameTarget;
use toyunda_player::window::FullscreenMode;

/// A host and an engine that live in memory and do what they are asked.
struct Stand {
    input: VecDeque<InputEvent>,
    events: VecDeque<EventToken>,
    paused: bool,
    speed: Option<Speed>,
    flags: u32,
    size: (u32, u32),
    fail_init: bool,
    fail_draw_on_frame: Option<usize>,
    pause_reads_as_text: bool,
    drawn: usize,
    log: Vec<Action>,
}

impl Stand {
    fn new() -> Stand {
        Stand {
            input: VecDeque::new(),
            events: VecDeque::new(),
            paused: false,
            speed: None,
            flags: 0x0000_0022,
            size: (960, 540),
            fail_init: false,
            fail_draw_on_frame: None,
            pause_reads_as_text: true,
            drawn: 0,
            log: Vec::new(),
        }
    }

    fn perform(&mut self, action: Action) -> Response {
        self.log.push(action);
        match action {
            Action::InitEngine => {
                if self.fail_init {
                    Response::Failed(-2)
                } else {
                    Response::Completed
                }
            }
            Action::PollInput => Response::Input(self.input.pop_front()),
            Action::ReadPause => {
                if self.pause_reads_as_text {
                    Response::Property(PropertyValue::Text(String::from(flag_text(self.paused))))
                } else {
                    Response::Property(PropertyValue::Flag(self.paused))
                }
            }
            Action::WritePause(flag) => {
                self.paused = flag;
                Response::Completed
            }
            Action::WriteSpeed(speed) => {
                self.speed = Some(speed);
                Response::Completed
            }
            Action::ReadWindowFlags => Response::WindowFlags(self.flags),
            Action::SetFullscreen(mode) => {
                self.flags = (self.flags & !0x1001) | mode.bits();
                Response::Completed
            }
            Action::FetchEvent => Response::Event(self.events.pop_front()),
            Action::QueryWindowSize => Response::WindowSize(self.size.0, self.size.1),
            Action::Draw(_) => {
                self.drawn += 1;
                if self.fail_draw_on_frame == Some(self.drawn) {
                    Response::Failed(-20)
                } else {
                    Response::Completed
                }
            }
            _ => Response::Completed,
        }
    }

    fn count(&self, wanted: Action) -> usize {
        self.log.iter().filter(|action| **action == wanted).count()
    }

    fn position(&self, wanted: Action) -> Option<usize> {
        self.log.iter().position(|action| *action == wanted)
    }
}

/// Runs the machine against the stand until it asks to leave, or until
/// `frames` frames were presented. Returns the action it stopped at.
fn play(driver: &mut Driver, first: Action, stand: &mut Stand, frames: usize) -> Action {
    let mut action: Action = first;
    let mut presented: usize = 0;
    let mut steps: usize = 0;
    loop {
        match action {
            Action::Exit | Action::Abort(_) => return action,
            _ => {}
        }
        let response: Response = stand.perform(action);
        action = driver.advance(&response);
        if let Some(Action::Present) = stand.log.last() {
            presented += 1;
            if presented == frames {
                return action;
            }
        }
        steps += 1;
        assert!(steps < 100_000, "the loop stalled");
    }
}

fn key_down(key: Key) -> InputEvent {
    InputEvent::KeyDown { key, repeat: false }
}

fn repeated(key: Key) -> InputEvent {
    InputEvent::KeyDown { key, repeat: true }
}

/// A machine brought to the start of its first frame.
fn running() -> Driver {
    let (mut driver, _) = Driver::start(String::from("song.mkv"), false);
    for _ in 0..5 {
        driver.advance(&Response::Completed);
    }
    assert_eq!(driver.stage(), Stage::Poll);
    driver
}

#[test]
fn start_asks_for_the_engine() {
    let (driver, first) = Driver::start(String::from("song.mkv"), false);
    assert_eq!(first, Action::InitEngine);
    assert_eq!(driver.stage(), Stage::Init);
    assert_eq!(driver.phase(), Phase::Starting);
    assert_eq!(driver.media(), "song.mkv");
    assert!(!driver.invert());
}

#[test]
fn startup_runs_in_order() {
    let (mut driver, first) = Driver::start(String::from("song.mkv"), false);
    let mut actions: Vec<Action> = vec![first];
    for _ in 0..5 {
        actions.push(driver.advance(&Response::Completed));
    }
    assert_eq!(
        actions,
        vec![
            Action::InitEngine,
            Action::SetOption(EngineOption::VideoOutput),
            Action::SetOption(EngineOption::SubtitleTrack),
            Action::InstallRenderCallback,
            Action::LoadMedia,
            Action::PollInput,
        ]
    );
    assert_eq!(driver.phase(), Phase::Running);
}

#[test]
fn invert_is_set_before_media_is_loaded() {
    let (mut driver, first) = Driver::start(String::from("song.mkv"), true);
    assert!(driver.invert());
    let mut stand: Stand = Stand::new();
    play(&mut driver, first, &mut stand, 1);
    let invert: usize = stand.position(Action::SetOption(EngineOption::Invert)).unwrap();
    let load: usize = stand.position(Action::LoadMedia).unwrap();
    assert!(invert < load);
    assert_eq!(stand.count(Action::SetOption(EngineOption::Invert)), 1);
    assert_eq!(
        stand.log[..7].to_vec(),
        vec![
            Action::InitEngine,
            Action::SetOption(EngineOption::VideoOutput),
            Action::SetOption(EngineOption::SubtitleTrack),
            Action::SetOption(EngineOption::Invert),
            Action::InstallRenderCallback,
            Action::LoadMedia,
            Action::PollInput,
        ]
    );
}

#[test]
fn without_invert_the_option_is_never_set() {
    let (mut driver, first) = Driver::start(String::from("song.mkv"), false);
    let mut stand: Stand = Stand::new();
    play(&mut driver, first, &mut stand, 3);
    assert_eq!(stand.count(Action::SetOption(EngineOption::Invert)), 0);
}

#[test]
fn video_output_is_set_before_the_callback_is_installed() {
    let (mut driver, first) = Driver::start(String::from("song.mkv"), true);
    let mut stand: Stand = Stand::new();
    play(&mut driver, first, &mut stand, 1);
    let output: usize = stand.position(Action::SetOption(EngineOption::VideoOutput)).unwrap();
    let install: usize = stand.position(Action::InstallRenderCallback).unwrap();
    let draw: usize =
        stand.log.iter().position(|action| matches!(action, Action::Draw(_))).unwrap();
    assert!(output < install);
    assert!(install < draw);
}

#[test]
fn load_command_names_the_media() {
    let (driver, _) = Driver::start(String::from("/srv/karaoke/song.mkv"), false);
    assert_eq!(
        driver.load_command().tokens,
        vec![String::from("loadfile"), String::from("/srv/karaoke/song.mkv")]
    );
}

#[test]
fn failed_init_is_fatal_and_never_reaches_the_loop() {
    let (mut driver, first) = Driver::start(String::from("song.mkv"), false);
    let mut stand: Stand = Stand::new();
    stand.fail_init = true;
    let last: Action = play(&mut driver, first, &mut stand, 1);
    assert_eq!(last, Action::Abort(Fault::EngineInit(-2)));
    assert_eq!(stand.log, vec![Action::InitEngine]);
    assert_eq!(driver.stage(), Stage::Failed(Fault::EngineInit(-2)));
    assert_eq!(driver.phase(), Phase::Stopped);
    // whatever is handed in afterwards, the machine stays where it is
    assert_eq!(driver.advance(&Response::Completed), Action::Abort(Fault::EngineInit(-2)));
    assert_eq!(driver.advance(&Response::Input(None)), Action::Abort(Fault::EngineInit(-2)));
    assert_eq!(driver.phase(), Phase::Stopped);
}

#[test]
fn hundred_idle_frames_drain_and_draw_once_each() {
    let (mut driver, first) = Driver::start(String::from("song.mkv"), false);
    let mut stand: Stand = Stand::new();
    let next: Action = play(&mut driver, first, &mut stand, 100);
    assert_eq!(next, Action::PollInput);
    assert_eq!(stand.count(Action::Present), 100);
    assert_eq!(stand.count(Action::FetchEvent), 100);
    assert_eq!(stand.count(Action::QueryWindowSize), 100);
    assert_eq!(stand.count(Action::CompositeOverlay), 100);
    let target: FrameTarget = FrameTarget { framebuffer: 0, width: 960, height: -540 };
    assert_eq!(stand.count(Action::Draw(target)), 100);
    assert_eq!(stand.drawn, 100);
    assert_eq!(stand.count(Action::PollInput), 100);
    // six startup actions less the first poll, then six actions a frame
    assert_eq!(stand.log.len(), 5 + 600);
    let frame: Vec<Action> = vec![
        Action::PollInput,
        Action::FetchEvent,
        Action::QueryWindowSize,
        Action::Draw(target),
        Action::CompositeOverlay,
        Action::Present,
    ];
    for number in 0..100usize {
        let from: usize = 5 + 6 * number;
        assert_eq!(stand.log[from..from + 6].to_vec(), frame);
    }
    assert_eq!(driver.phase(), Phase::Running);
}

#[test]
fn drain_takes_every_pending_event() {
    let mut driver: Driver = running();
    let mut stand: Stand = Stand::new();
    for id in 1u32..=5 {
        stand.events.push_back(EventToken { id });
    }
    play(&mut driver, Action::PollInput, &mut stand, 1);
    assert!(stand.events.is_empty());
    // five events, and the fetch that found the queue empty
    assert_eq!(stand.count(Action::FetchEvent), 6);
    // a fetch right after the drain reports empty
    assert_eq!(stand.perform(Action::FetchEvent), Response::Event(None));
}

#[test]
fn drain_stays_until_the_queue_is_empty() {
    let mut driver: Driver = running();
    assert_eq!(driver.advance(&Response::Input(None)), Action::FetchEvent);
    for id in 0u32..40 {
        assert_eq!(
            driver.advance(&Response::Event(Some(EventToken { id }))),
            Action::FetchEvent
        );
        assert_eq!(driver.stage(), Stage::Drain);
    }
    assert_eq!(driver.advance(&Response::Event(None)), Action::QueryWindowSize);
    assert_eq!(driver.stage(), Stage::Measure);
}

#[test]
fn drain_runs_every_frame() {
    let mut driver: Driver = running();
    let mut stand: Stand = Stand::new();
    stand.events.push_back(EventToken { id: 3 });
    stand.events.push_back(EventToken { id: 6 });
    play(&mut driver, Action::PollInput, &mut stand, 1);
    stand.events.push_back(EventToken { id: 9 });
    play(&mut driver, Action::PollInput, &mut stand, 1);
    play(&mut driver, Action::PollInput, &mut stand, 1);
    assert!(stand.events.is_empty());
    assert_eq!(stand.count(Action::FetchEvent), 3 + 2 + 1);
    assert_eq!(stand.count(Action::Present), 3);
}

#[test]
fn every_draw_negates_the_measured_height() {
    let mut driver: Driver = running();
    let mut stand: Stand = Stand::new();
    let sizes: [(u32, u32); 5] = [(960, 540), (1920, 1080), (1, 1), (640, 0), (0, 480)];
    for size in sizes {
        stand.size = size;
        play(&mut driver, Action::PollInput, &mut stand, 1);
        match stand.log[stand.log.len() - 3] {
            Action::Draw(target) => {
                assert_eq!(target.framebuffer, 0);
                assert_eq!(i64::from(target.width), i64::from(size.0));
                assert_eq!(i64::from(target.height), -i64::from(size.1));
            }
            other => panic!("expected a draw, found {:?}", other),
        }
    }
}

#[test]
fn failed_draw_skips_the_frame_and_the_loop_goes_on() {
    let mut driver: Driver = running();
    let mut stand: Stand = Stand::new();
    stand.fail_draw_on_frame = Some(2);
    play(&mut driver, Action::PollInput, &mut stand, 3);
    // four draws were asked for, three frames were shown
    assert_eq!(stand.drawn, 4);
    assert_eq!(stand.count(Action::Present), 3);
    assert_eq!(stand.count(Action::CompositeOverlay), 3);
    assert_eq!(stand.count(Action::FetchEvent), 4);
    assert_eq!(driver.phase(), Phase::Running);
}

#[test]
fn failed_draw_goes_back_to_polling() {
    let target: FrameTarget = FrameTarget { framebuffer: 0, width: 4, height: -3 };
    assert_eq!(step(Stage::Draw(target), false, &Response::Failed(-20)), Stage::Poll);
    assert_eq!(step(Stage::Draw(target), false, &Response::Completed), Stage::Overlay);
}

#[test]
fn window_too_large_to_describe_skips_the_frame() {
    assert_eq!(
        step(Stage::Measure, false, &Response::WindowSize(2147483648, 540)),
        Stage::Poll
    );
    assert_eq!(
        step(Stage::Measure, false, &Response::WindowSize(960, u32::MAX)),
        Stage::Poll
    );
}

#[test]
fn space_reads_pause_and_writes_its_negation() {
    let mut driver: Driver = running();
    assert_eq!(driver.advance(&Response::Input(Some(key_down(Key::Space)))), Action::ReadPause);
    assert_eq!(
        driver.advance(&Response::Property(PropertyValue::Text(String::from("no")))),
        Action::WritePause(true)
    );
    assert_eq!(driver.advance(&Response::Completed), Action::PollInput);
    assert_eq!(driver.advance(&Response::Input(Some(key_down(Key::Space)))), Action::ReadPause);
    assert_eq!(
        driver.advance(&Response::Property(PropertyValue::Text(String::from("yes")))),
        Action::WritePause(false)
    );
}

#[test]
fn two_pause_toggles_restore_the_flag() {
    for start in [false, true] {
        for as_text in [false, true] {
            let mut driver: Driver = running();
            let mut stand: Stand = Stand::new();
            stand.paused = start;
            stand.pause_reads_as_text = as_text;
            stand.input.push_back(key_down(Key::Space));
            play(&mut driver, Action::PollInput, &mut stand, 1);
            assert_eq!(stand.paused, !start);
            stand.input.push_back(key_down(Key::Space));
            play(&mut driver, Action::PollInput, &mut stand, 1);
            assert_eq!(stand.paused, start);
            assert_eq!(stand.count(Action::WritePause(!start)), 1);
            assert_eq!(stand.count(Action::WritePause(start)), 1);
        }
    }
}

#[test]
fn two_pause_toggles_in_one_frame_restore_the_flag() {
    let mut driver: Driver = running();
    let mut stand: Stand = Stand::new();
    stand.paused = true;
    stand.input.push_back(key_down(Key::Space));
    stand.input.push_back(key_down(Key::Space));
    play(&mut driver, Action::PollInput, &mut stand, 1);
    assert!(stand.paused);
    assert_eq!(stand.count(Action::ReadPause), 2);
}

#[test]
fn repeated_space_toggles_nothing() {
    let mut driver: Driver = running();
    let mut stand: Stand = Stand::new();
    stand.input.push_back(repeated(Key::Space));
    stand.input.push_back(repeated(Key::Space));
    play(&mut driver, Action::PollInput, &mut stand, 1);
    assert!(!stand.paused);
    assert_eq!(stand.count(Action::ReadPause), 0);
}

#[test]
fn unexpected_pause_value_is_fatal() {
    let mut driver: Driver = running();
    driver.advance(&Response::Input(Some(key_down(Key::Space))));
    let fault: Fault = Fault::Value(Property::Pause, PropertyError::UnexpectedValue);
    assert_eq!(
        driver.advance(&Response::Property(PropertyValue::Text(String::from("maybe")))),
        Action::Abort(fault)
    );
    assert_eq!(driver.stage(), Stage::Failed(fault));
}

#[test]
fn mistyped_pause_value_is_fatal() {
    let mut driver: Driver = running();
    driver.advance(&Response::Input(Some(key_down(Key::Space))));
    assert_eq!(
        driver.advance(&Response::Property(PropertyValue::Double(Speed { tenths: 10 }))),
        Action::Abort(Fault::Value(Property::Pause, PropertyError::TypeMismatch))
    );
}

#[test]
fn keypad_digits_write_the_speed() {
    let mut driver: Driver = running();
    let mut stand: Stand = Stand::new();
    stand.input.push_back(key_down(Key::Keypad(3)));
    play(&mut driver, Action::PollInput, &mut stand, 1);
    assert_eq!(stand.speed, Some(Speed { tenths: 3 }));
    stand.input.push_back(key_down(Key::Keypad(0)));
    play(&mut driver, Action::PollInput, &mut stand, 1);
    assert_eq!(stand.speed, Some(Speed { tenths: 10 }));
    assert_eq!(stand.count(Action::WriteSpeed(Speed { tenths: 3 })), 1);
    assert_eq!(stand.count(Action::WriteSpeed(Speed { tenths: 10 })), 1);
}

#[test]
fn repeated_keypad_digits_write_nothing() {
    let mut driver: Driver = running();
    let mut stand: Stand = Stand::new();
    stand.input.push_back(key_down(Key::Keypad(7)));
    for _ in 0..20 {
        stand.input.push_back(repeated(Key::Keypad(7)));
    }
    stand.input.push_back(repeated(Key::Keypad(2)));
    play(&mut driver, Action::PollInput, &mut stand, 1);
    assert_eq!(stand.speed, Some(Speed { tenths: 7 }));
    let writes: usize =
        stand.log.iter().filter(|action| matches!(action, Action::WriteSpeed(_))).count();
    assert_eq!(writes, 1);
    assert!(stand.input.is_empty());
}

#[test]
fn f_flips_the_window_state() {
    let mut driver: Driver = running();
    assert_eq!(
        driver.advance(&Response::Input(Some(key_down(Key::F)))),
        Action::ReadWindowFlags
    );
    assert_eq!(
        driver.advance(&Response::WindowFlags(0x22)),
        Action::SetFullscreen(FullscreenMode::Desktop)
    );
    assert_eq!(driver.advance(&Response::Completed), Action::PollInput);
    driver.advance(&Response::Input(Some(key_down(Key::F))));
    assert_eq!(
        driver.advance(&Response::WindowFlags(0x1023)),
        Action::SetFullscreen(FullscreenMode::Off)
    );
}

#[test]
fn two_fullscreen_toggles_restore_the_window() {
    for start in [0x0000_0022u32, 0x0000_1023u32] {
        let mut driver: Driver = running();
        let mut stand: Stand = Stand::new();
        stand.flags = start;
        stand.input.push_back(key_down(Key::F));
        play(&mut driver, Action::PollInput, &mut stand, 1);
        assert_ne!(stand.flags & 1, start & 1);
        stand.input.push_back(key_down(Key::F));
        play(&mut driver, Action::PollInput, &mut stand, 1);
        assert_eq!(stand.flags, start);
    }
}

#[test]
fn quit_releases_the_engine_and_leaves() {
    let mut driver: Driver = running();
    let mut stand: Stand = Stand::new();
    stand.input.push_back(InputEvent::Quit);
    let last: Action = play(&mut driver, Action::PollInput, &mut stand, 10);
    assert_eq!(last, Action::Exit);
    assert_eq!(stand.log, vec![Action::PollInput, Action::DestroyEngine]);
    assert_eq!(driver.stage(), Stage::Finished);
    assert_eq!(driver.phase(), Phase::Stopped);
}

#[test]
fn escape_ends_the_loop_before_the_frame_is_drawn() {
    let mut driver: Driver = running();
    let mut stand: Stand = Stand::new();
    stand.input.push_back(key_down(Key::Keypad(5)));
    stand.input.push_back(repeated(Key::Escape));
    stand.input.push_back(key_down(Key::Space));
    let last: Action = play(&mut driver, Action::PollInput, &mut stand, 10);
    assert_eq!(last, Action::Exit);
    assert_eq!(stand.drawn, 0);
    assert_eq!(stand.count(Action::DestroyEngine), 1);
    assert_eq!(stand.count(Action::ReadPause), 0);
    assert_eq!(stand.speed, Some(Speed { tenths: 5 }));
}

#[test]
fn terminating_is_between_running_and_stopped() {
    let mut driver: Driver = running();
    assert_eq!(driver.phase(), Phase::Running);
    assert_eq!(driver.advance(&Response::Input(Some(InputEvent::Quit))), Action::DestroyEngine);
    assert_eq!(driver.phase(), Phase::Terminating);
    assert_eq!(driver.advance(&Response::Completed), Action::Exit);
    assert_eq!(driver.phase(), Phase::Stopped);
}

#[test]
fn engine_is_not_used_after_it_was_released() {
    let mut driver: Driver = running();
    driver.advance(&Response::Input(Some(InputEvent::Quit)));
    driver.advance(&Response::Completed);
    let responses: Vec<Response> = vec![
        Response::Completed,
        Response::Failed(-1),
        Response::Input(Some(key_down(Key::Space))),
        Response::Event(Some(EventToken { id: 1 })),
        Response::WindowSize(960, 540),
        Response::WindowFlags(0),
        Response::Property(PropertyValue::Flag(true)),
    ];
    for response in responses {
        assert_eq!(driver.advance(&response), Action::Exit);
        assert_eq!(driver.stage(), Stage::Finished);
    }
}

#[test]
fn each_failure_has_its_fault() {
    let option: EngineOption = EngineOption::SubtitleTrack;
    let target: FrameTarget = FrameTarget { framebuffer: 0, width: 1, height: -1 };
    let cases: Vec<(Stage, Fault)> = vec![
        (Stage::Init, Fault::EngineInit(-5)),
        (Stage::Configure(option), Fault::Configure(option, -5)),
        (Stage::Install, Fault::RenderInstall(-5)),
        (Stage::Load, Fault::Command(-5)),
        (Stage::PauseRead, Fault::PropertyRead(Property::Pause, -5)),
        (Stage::PauseWrite(true), Fault::PropertyWrite(Property::Pause, -5)),
        (Stage::SpeedWrite(Speed { tenths: 5 }), Fault::PropertyWrite(Property::Speed, -5)),
        (Stage::FullscreenWrite(FullscreenMode::Off), Fault::Fullscreen(-5)),
        (Stage::Poll, Fault::Protocol),
        (Stage::FullscreenRead, Fault::Protocol),
        (Stage::Drain, Fault::Protocol),
        (Stage::Measure, Fault::Protocol),
        (Stage::Overlay, Fault::Protocol),
        (Stage::Present, Fault::Protocol),
        (Stage::Destroy, Fault::Protocol),
    ];
    for (stage, fault) in cases {
        assert_eq!(step(stage, false, &Response::Failed(-5)), Stage::Failed(fault));
        assert_eq!(Stage::Failed(fault).pending(), Action::Abort(fault));
    }
    assert_eq!(step(Stage::Draw(target), false, &Response::Failed(-5)), Stage::Poll);
}

#[test]
fn answer_of_another_kind_is_a_protocol_fault() {
    let protocol: Stage = Stage::Failed(Fault::Protocol);
    assert_eq!(step(Stage::Init, false, &Response::Input(None)), protocol);
    assert_eq!(step(Stage::Poll, false, &Response::Completed), protocol);
    assert_eq!(step(Stage::Drain, false, &Response::Input(None)), protocol);
    assert_eq!(step(Stage::Measure, false, &Response::WindowFlags(0)), protocol);
    assert_eq!(step(Stage::PauseRead, false, &Response::WindowFlags(0)), protocol);
    assert_eq!(step(Stage::FullscreenRead, false, &Response::WindowSize(1, 1)), protocol);
    assert_eq!(step(Stage::Present, false, &Response::Event(None)), protocol);
}

#[test]
fn stages_name_their_requests() {
    let target: FrameTarget = FrameTarget { framebuffer: 0, width: 2, height: -2 };
    assert_eq!(Stage::Init.pending(), Action::InitEngine);
    assert_eq!(
        Stage::Configure(EngineOption::VideoOutput).pending(),
        Action::SetOption(EngineOption::VideoOutput)
    );
    assert_eq!(Stage::Install.pending(), Action::InstallRenderCallback);
    assert_eq!(Stage::Load.pending(), Action::LoadMedia);
    assert_eq!(Stage::Poll.pending(), Action::PollInput);
    assert_eq!(Stage::PauseRead.pending(), Action::ReadPause);
    assert_eq!(Stage::PauseWrite(false).pending(), Action::WritePause(false));
    assert_eq!(
        Stage::SpeedWrite(Speed { tenths: 2 }).pending(),
        Action::WriteSpeed(Speed { tenths: 2 })
    );
    assert_eq!(Stage::FullscreenRead.pending(), Action::ReadWindowFlags);
    assert_eq!(
        Stage::FullscreenWrite(FullscreenMode::Desktop).pending(),
        Action::SetFullscreen(FullscreenMode::Desktop)
    );
    assert_eq!(Stage::Drain.pending(), Action::FetchEvent);
    assert_eq!(Stage::Measure.pending(), Action::QueryWindowSize);
    assert_eq!(Stage::Draw(target).pending(), Action::Draw(target));
    assert_eq!(Stage::Overlay.pending(), Action::CompositeOverlay);
    assert_eq!(Stage::Present.pending(), Action::Present);
    assert_eq!(Stage::Destroy.pending(), Action::DestroyEngine);
    assert_eq!(Stage::Finished.pending(), Action::Exit);
}

#[test]
fn stages_belong_to_their_phases() {
    assert_eq!(Stage::Init.phase(), Phase::Starting);
    assert_eq!(Stage::Configure(EngineOption::Invert).phase(), Phase::Starting);
    assert_eq!(Stage::Install.phase(), Phase::Starting);
    assert_eq!(Stage::Load.phase(), Phase::Starting);
    assert_eq!(Stage::Poll.phase(), Phase::Running);
    assert_eq!(Stage::Drain.phase(), Phase::Running);
    assert_eq!(Stage::Present.phase(), Phase::Running);
    assert_eq!(Stage::Destroy.phase(), Phase::Terminating);
    assert_eq!(Stage::Finished.phase(), Phase::Stopped);
    assert_eq!(Stage::Failed(Fault::Protocol).phase(), Phase::Stopped);
}

#[test]
fn unbound_input_is_passed_over() {
    let mut driver: Driver = running();
    let mut stand: Stand = Stand::new();
    stand.input.push_back(InputEvent::Other);
    stand.input.push_back(key_down(Key::Other));
    stand.input.push_back(repeated(Key::F));
    play(&mut driver, Action::PollInput, &mut stand, 1);
    assert_eq!(stand.count(Action::PollInput), 4);
    assert_eq!(stand.count(Action::Present), 1);
    assert_eq!(stand.flags, 0x22);
}
