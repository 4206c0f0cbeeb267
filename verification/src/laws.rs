//! What holds of the control loop whatever the host and the engine answer,
//! proved from the transition function.

use crate::control::{next, Action, Fault, Phase, Response, Stage};
use crate::engine::{EngineOption, EventToken};
use crate::input::{bound, Control, InputEvent, Key};
use crate::property::{flag_of, Property, PropertyError, PropertyValue, Speed};
use crate::render::FrameTarget;
use crate::window::{flags_after, flipped, lemma_fullscreen_toggle_involutive, shown_fullscreen};
use vstd::prelude::*;

verus! {

/// The stage reached from `stage` once the host has handed back each of
/// `responses` in turn.
pub open spec fn run(stage: Stage, invert: bool, responses: Seq<Response>) -> Stage
    decreases responses.len(),
{
    if responses.len() == 0 {
        stage
    } else {
        run(next(stage, invert, responses[0]), invert, responses.skip(1))
    }
}

/// The engine's event queue as the bridge may think of it: a fetch takes
/// the oldest event, or reports that there is none and leaves the queue
/// as it was.
pub open spec fn fetch(queue: Seq<EventToken>) -> (Option<EventToken>, Seq<EventToken>) {
    if queue.len() == 0 {
        (None, queue)
    } else {
        (Some(queue[0]), queue.skip(1))
    }
}

/// The machine run against an engine with `queue` pending: as long as it
/// asks for a fetch, and at most `fetches` times, it is handed what the
/// fetch gives. Returns the stage reached and the events left.
pub open spec fn serve_fetches(stage: Stage, invert: bool, queue: Seq<EventToken>, fetches: nat) -> (
    Stage,
    Seq<EventToken>,
)
    decreases fetches,
{
    if fetches == 0 || stage.request() != Action::FetchEvent {
        (stage, queue)
    } else {
        let (event, rest) = fetch(queue);
        serve_fetches(next(stage, invert, Response::Event(event)), invert, rest, (fetches - 1) as nat)
    }
}

/// How far along a phase is.
pub open spec fn rank(phase: Phase) -> nat {
    match phase {
        Phase::Starting => 0,
        Phase::Running => 1,
        Phase::Terminating => 2,
        Phase::Stopped => 3,
    }
}

/// Whether an action touches the engine.
pub open spec fn uses_engine(action: Action) -> bool {
    match action {
        Action::InitEngine
        | Action::SetOption(_)
        | Action::InstallRenderCallback
        | Action::LoadMedia
        | Action::ReadPause
        | Action::WritePause(_)
        | Action::WriteSpeed(_)
        | Action::FetchEvent
        | Action::Draw(_)
        | Action::DestroyEngine => true,
        _ => false,
    }
}

/// One where `action` is a `wanted` one, nothing where it is not.
pub open spec fn tally(wanted: spec_fn(Action) -> bool, action: Action) -> nat {
    if wanted(action) {
        1
    } else {
        0
    }
}

/// How many of the actions asked for along a run are `wanted` ones: the
/// request of each stage reached counts, that of the starting stage not.
pub open spec fn asked(
    stage: Stage,
    invert: bool,
    responses: Seq<Response>,
    wanted: spec_fn(Action) -> bool,
) -> nat
    decreases responses.len(),
{
    if responses.len() == 0 {
        0
    } else {
        let following = next(stage, invert, responses[0]);
        tally(wanted, following.request()) + asked(following, invert, responses.skip(1), wanted)
    }
}

/// What the host hands back in a frame in which nothing is pending and the
/// window measures `width` by `height`.
pub open spec fn idle_frame(width: u32, height: u32) -> Seq<Response> {
    seq![
        Response::Input(None),
        Response::Event(None),
        Response::WindowSize(width, height),
        Response::Completed,
        Response::Completed,
        Response::Completed,
    ]
}

/// The responses of `frames` idle frames in a row.
pub open spec fn idle_frames(frames: nat, width: u32, height: u32) -> Seq<Response>
    decreases frames,
{
    if frames == 0 {
        Seq::empty()
    } else {
        idle_frame(width, height) + idle_frames((frames - 1) as nat, width, height)
    }
}

/// Draining leaves nothing behind. While events are pending the machine
/// keeps fetching and stays in the drain; the fetch that finds the queue
/// empty, the one after the last event, moves it on to measuring the
/// window; and a fetch made right after that would report empty again.
pub proof fn lemma_drain_empties_queue(invert: bool, queue: Seq<EventToken>, fetches: nat)
    ensures
        fetches <= queue.len() ==> serve_fetches(Stage::Drain, invert, queue, fetches) == (
            Stage::Drain,
            queue.skip(fetches as int),
        ),
        fetches > queue.len() ==> serve_fetches(Stage::Drain, invert, queue, fetches) == (
            Stage::Measure,
            Seq::<EventToken>::empty(),
        ),
        fetches > queue.len() ==> fetch(serve_fetches(Stage::Drain, invert, queue, fetches).1).0
            is None,
    decreases fetches,
{
    if fetches == 0 {
        assert(queue.skip(0) =~= queue);
    } else if queue.len() == 0 {
        assert(queue =~= Seq::<EventToken>::empty());
        assert(serve_fetches(Stage::Measure, invert, queue, (fetches - 1) as nat) == (
            Stage::Measure,
            queue,
        ));
    } else {
        let rest = queue.skip(1);
        lemma_drain_empties_queue(invert, rest, (fetches - 1) as nat);
        if fetches <= queue.len() {
            assert(rest.skip(fetches - 1) =~= queue.skip(fetches as int));
        }
    }
}

/// Every draw is asked for with exactly one negation of the height: the
/// only way into a draw is from measuring the window, and the target then
/// names the host's framebuffer, the measured width, and the measured
/// height with its sign turned.
pub proof fn lemma_draw_negates_height(stage: Stage, invert: bool, response: Response)
    ensures
        next(stage, invert, response) matches Stage::Draw(target) ==> {
            &&& stage == Stage::Measure
            &&& response matches Response::WindowSize(width, height)
            &&& FrameTarget::fits(width, height)
            &&& target.framebuffer == 0
            &&& target.width == width
            &&& target.height == -(height as int)
            &&& (height > 0 ==> target.height != height)
        },
{
}

/// Toggling the pause flag twice restores it. Where the first read gives a
/// flag, its negation is written; where the second read gives back what
/// was written, the second toggle writes the flag that was read first.
pub proof fn lemma_pause_toggle_involutive(invert: bool, first: PropertyValue, second: PropertyValue)
    requires
        flag_of(first) is Ok,
        flag_of(second) == Ok::<bool, PropertyError>(!flag_of(first)->Ok_0),
    ensures
        next(Stage::PauseRead, invert, Response::Property(first)) == Stage::PauseWrite(
            !flag_of(first)->Ok_0,
        ),
        next(Stage::PauseRead, invert, Response::Property(second)) == Stage::PauseWrite(
            flag_of(first)->Ok_0,
        ),
{
}

/// A read of the pause flag that gives no flag ends the player.
pub proof fn lemma_pause_read_rejects(invert: bool, value: PropertyValue)
    requires
        flag_of(value) is Err,
    ensures
        next(Stage::PauseRead, invert, Response::Property(value)) == Stage::Failed(
            Fault::Value(Property::Pause, flag_of(value)->Err_0),
        ),
{
}

/// While input is polled, a first key-down of a keypad digit has the speed
/// written: as many tenths as the digit says, and ten for zero. A repeated
/// one has nothing written: the next action is to poll again.
pub proof fn lemma_speed_keys(invert: bool, digit: u8, repeat: bool)
    requires
        digit <= 9,
    ensures
        ({
            let event = InputEvent::KeyDown { key: Key::Keypad(digit), repeat };
            let following = next(Stage::Poll, invert, Response::Input(Some(event)));
            &&& !repeat ==> following.request() == Action::WriteSpeed(
                Speed { tenths: if digit == 0 { 10u32 } else { digit as u32 } },
            )
            &&& repeat ==> following.request() == Action::PollInput
        }),
{
}

/// No repeated key-down has anything read or written; only a repeated
/// escape does anything at all, and that is to end the loop.
pub proof fn lemma_repeats_write_nothing(invert: bool, key: Key)
    ensures
        ({
            let event = InputEvent::KeyDown { key, repeat: true };
            let following = next(Stage::Poll, invert, Response::Input(Some(event)));
            if key == Key::Escape {
                following == Stage::Destroy
            } else {
                following == Stage::Poll
            }
        }),
{
}

/// Toggling fullscreen twice restores the window. The toggle asks for the
/// mode that flips the state read from the flags; once the host has applied
/// it, a second toggle asks for the mode that the window started from, and
/// the window then answers "fullscreen?" as it did at first.
pub proof fn lemma_fullscreen_toggle_round_trip(invert: bool, flags: u32)
    ensures
        ({
            let first = flipped(flags);
            let once = flags_after(flags, first);
            let second = flipped(once);
            let twice = flags_after(once, second);
            &&& next(Stage::FullscreenRead, invert, Response::WindowFlags(flags))
                == Stage::FullscreenWrite(first)
            &&& next(Stage::FullscreenRead, invert, Response::WindowFlags(once))
                == Stage::FullscreenWrite(second)
            &&& first != second
            &&& shown_fullscreen(once) != shown_fullscreen(flags)
            &&& shown_fullscreen(twice) == shown_fullscreen(flags)
            &&& flipped(twice) == first
        }),
{
    lemma_fullscreen_toggle_involutive(flags);
}

/// With every call succeeding, start-up runs in one order: the engine is
/// created; the video output, then the subtitle track, then the inversion
/// where it was asked for, are set; the render callback is installed; the
/// media is loaded; and the first frame begins by polling input.
pub proof fn lemma_startup_order(invert: bool)
    ensures
        next(Stage::Init, invert, Response::Completed) == Stage::Configure(
            EngineOption::VideoOutput,
        ),
        next(Stage::Configure(EngineOption::VideoOutput), invert, Response::Completed)
            == Stage::Configure(EngineOption::SubtitleTrack),
        invert ==> next(Stage::Configure(EngineOption::SubtitleTrack), invert, Response::Completed)
            == Stage::Configure(EngineOption::Invert),
        !invert ==> next(
            Stage::Configure(EngineOption::SubtitleTrack),
            invert,
            Response::Completed,
        ) == Stage::Install,
        next(Stage::Configure(EngineOption::Invert), invert, Response::Completed)
            == Stage::Install,
        next(Stage::Install, invert, Response::Completed) == Stage::Load,
        next(Stage::Load, invert, Response::Completed) == Stage::Poll,
{
}

/// Nothing is loaded before the engine is configured. The load is reached
/// from the installed render callback alone; the callback from the last
/// option alone, which is the inversion where that was asked for; and each
/// option from the one before it. So the video output is set before the
/// callback is installed, and an inversion before any media is loaded.
pub proof fn lemma_options_precede_load(stage: Stage, invert: bool, response: Response)
    ensures
        next(stage, invert, response) == Stage::Load ==> stage == Stage::Install,
        next(stage, invert, response) == Stage::Install ==> stage == Stage::Configure(
            if invert {
                EngineOption::Invert
            } else {
                EngineOption::SubtitleTrack
            },
        ) || stage == Stage::Configure(EngineOption::Invert),
        invert && next(stage, invert, response) == Stage::Install ==> stage == Stage::Configure(
            EngineOption::Invert,
        ),
        next(stage, invert, response) == Stage::Configure(EngineOption::Invert) ==> invert && stage
            == Stage::Configure(EngineOption::SubtitleTrack),
        next(stage, invert, response) == Stage::Configure(EngineOption::SubtitleTrack) ==> stage
            == Stage::Configure(EngineOption::VideoOutput),
        next(stage, invert, response) == Stage::Configure(EngineOption::VideoOutput) ==> stage
            == Stage::Init,
{
}

/// Once the player has finished or given up it stays there, whatever it is
/// handed, and asks for nothing but to leave.
pub proof fn lemma_stopped_is_final(stage: Stage, invert: bool, responses: Seq<Response>)
    requires
        stage.phase_of() == Phase::Stopped,
    ensures
        run(stage, invert, responses) == stage,
        stage.request() == Action::Exit || stage.request() matches Action::Abort(_),
    decreases responses.len(),
{
    if responses.len() > 0 {
        lemma_stopped_is_final(stage, invert, responses.skip(1));
    }
}

/// An engine that cannot be created ends the player at once: the next
/// action is to leave with that fault, and nothing that follows brings the
/// loop to run, or any other use of the engine.
pub proof fn lemma_init_failure_is_fatal(invert: bool, code: i32, responses: Seq<Response>)
    ensures
        next(Stage::Init, invert, Response::Failed(code)) == Stage::Failed(Fault::EngineInit(code)),
        run(Stage::Init, invert, seq![Response::Failed(code)] + responses) == Stage::Failed(
            Fault::EngineInit(code),
        ),
        run(Stage::Init, invert, seq![Response::Failed(code)] + responses).request()
            == Action::Abort(Fault::EngineInit(code)),
{
    let all = seq![Response::Failed(code)] + responses;
    assert(all[0] == Response::Failed(code));
    assert(all.skip(1) =~= responses);
    lemma_stopped_is_final(Stage::Failed(Fault::EngineInit(code)), invert, responses);
}

/// A frame in which neither the host nor the engine has anything pending
/// asks for exactly one fetch and one draw, in the order of the loop: poll,
/// fetch, measure, draw, overlay, present, and then the next frame's poll.
pub proof fn lemma_idle_frame(invert: bool, width: u32, height: u32)
    requires
        FrameTarget::fits(width, height),
    ensures
        Stage::Poll.request() == Action::PollInput,
        next(Stage::Poll, invert, Response::Input(None)) == Stage::Drain,
        Stage::Drain.request() == Action::FetchEvent,
        next(Stage::Drain, invert, Response::Event(None)) == Stage::Measure,
        Stage::Measure.request() == Action::QueryWindowSize,
        next(Stage::Measure, invert, Response::WindowSize(width, height)) == Stage::Draw(
            FrameTarget::of_window(width, height),
        ),
        next(Stage::Draw(FrameTarget::of_window(width, height)), invert, Response::Completed)
            == Stage::Overlay,
        Stage::Overlay.request() == Action::CompositeOverlay,
        next(Stage::Overlay, invert, Response::Completed) == Stage::Present,
        Stage::Present.request() == Action::Present,
        next(Stage::Present, invert, Response::Completed) == Stage::Poll,
        run(
            Stage::Poll,
            invert,
            seq![
                Response::Input(None),
                Response::Event(None),
                Response::WindowSize(width, height),
                Response::Completed,
                Response::Completed,
                Response::Completed,
            ],
        ) == Stage::Poll,
{
    let r = seq![
        Response::Input(None),
        Response::Event(None),
        Response::WindowSize(width, height),
        Response::Completed,
        Response::Completed,
        Response::Completed,
    ];
    reveal_with_fuel(run, 7);
    assert(r.skip(1).skip(1).skip(1).skip(1).skip(1).skip(1).len() == 0);
    assert(r[0] == Response::Input(None));
    assert(r.skip(1)[0] == Response::Event(None));
    assert(r.skip(1).skip(1)[0] == Response::WindowSize(width, height));
    assert(r.skip(1).skip(1).skip(1)[0] == Response::Completed);
    assert(r.skip(1).skip(1).skip(1).skip(1)[0] == Response::Completed);
    assert(r.skip(1).skip(1).skip(1).skip(1).skip(1)[0] == Response::Completed);
}

/// A failed draw costs the frame and nothing else: the loop goes back to
/// polling input, without overlay or presentation.
pub proof fn lemma_failed_draw_skips_frame(invert: bool, target: FrameTarget, code: i32)
    ensures
        next(Stage::Draw(target), invert, Response::Failed(code)) == Stage::Poll,
{
}

/// The loop only ever moves forward through its phases. It starts to run
/// once the media is loaded and not before, and it leaves the running phase
/// for the terminating one on a quit request or the escape key alone, taken
/// from the input queue.
pub proof fn lemma_phases_advance(stage: Stage, invert: bool, response: Response)
    ensures
        rank(stage.phase_of()) <= rank(next(stage, invert, response).phase_of()),
        next(stage, invert, response).phase_of() == Phase::Running && stage.phase_of()
            != Phase::Running ==> stage == Stage::Load && response == Response::Completed,
        next(stage, invert, response).phase_of() == Phase::Terminating && stage.phase_of()
            != Phase::Terminating ==> {
            &&& stage == Stage::Poll
            &&& response matches Response::Input(Some(event))
            &&& bound(event) == Some(Control::Quit)
        },
{
}

/// There is one engine, created once, released at most once, and not used
/// afterwards. No transition leads back to creating it. The release is
/// asked for on leaving the running phase and at no other time; from there
/// the loop can only stop; and once it is terminating or has stopped,
/// nothing that is asked for next touches the engine.
pub proof fn lemma_engine_lives_once(stage: Stage, invert: bool, response: Response)
    ensures
        next(stage, invert, response).request() != Action::InitEngine,
        next(stage, invert, response).request() == Action::DestroyEngine ==> stage.phase_of()
            == Phase::Running,
        rank(stage.phase_of()) >= rank(Phase::Terminating) ==> !uses_engine(
            next(stage, invert, response).request(),
        ),
{
}

/// A run can be cut in two: the second part goes on from where the first
/// ended, and what is asked for adds up.
pub proof fn lemma_run_in_parts(
    stage: Stage,
    invert: bool,
    first: Seq<Response>,
    second: Seq<Response>,
    wanted: spec_fn(Action) -> bool,
)
    ensures
        run(stage, invert, first + second) == run(run(stage, invert, first), invert, second),
        asked(stage, invert, first + second, wanted) == asked(stage, invert, first, wanted)
            + asked(run(stage, invert, first), invert, second, wanted),
    decreases first.len(),
{
    if first.len() == 0 {
        assert(first + second =~= second);
    } else {
        let all = first + second;
        assert(all[0] == first[0]);
        assert(all.skip(1) =~= first.skip(1) + second);
        lemma_run_in_parts(next(stage, invert, first[0]), invert, first.skip(1), second, wanted);
    }
}

/// However many idle frames follow one another, each asks for exactly one
/// fetch, one draw and one presentation, and the loop stands ready for the
/// next frame.
pub proof fn lemma_idle_frames(invert: bool, frames: nat, width: u32, height: u32)
    requires
        FrameTarget::fits(width, height),
    ensures
        run(Stage::Poll, invert, idle_frames(frames, width, height)) == Stage::Poll,
        asked(
            Stage::Poll,
            invert,
            idle_frames(frames, width, height),
            |action: Action| action == Action::FetchEvent,
        ) == frames,
        asked(
            Stage::Poll,
            invert,
            idle_frames(frames, width, height),
            |action: Action| action is Draw,
        ) == frames,
        asked(
            Stage::Poll,
            invert,
            idle_frames(frames, width, height),
            |action: Action| action == Action::Present,
        ) == frames,
    decreases frames,
{
    let fetch = |action: Action| action == Action::FetchEvent;
    let draw = |action: Action| action is Draw;
    let present = |action: Action| action == Action::Present;
    if frames > 0 {
        let one = idle_frame(width, height);
        let rest = idle_frames((frames - 1) as nat, width, height);
        lemma_idle_frame(invert, width, height);
        lemma_idle_frame_asks(invert, width, height, fetch);
        lemma_idle_frame_asks(invert, width, height, draw);
        lemma_idle_frame_asks(invert, width, height, present);
        lemma_run_in_parts(Stage::Poll, invert, one, rest, fetch);
        lemma_run_in_parts(Stage::Poll, invert, one, rest, draw);
        lemma_run_in_parts(Stage::Poll, invert, one, rest, present);
        lemma_idle_frames(invert, (frames - 1) as nat, width, height);
    }
}

/// What one idle frame asks for, counted: the six actions of the frame's
/// order, the poll for the next frame taking the place of its own.
pub proof fn lemma_idle_frame_asks(
    invert: bool,
    width: u32,
    height: u32,
    wanted: spec_fn(Action) -> bool,
)
    requires
        FrameTarget::fits(width, height),
    ensures
        asked(Stage::Poll, invert, idle_frame(width, height), wanted) == tally(
            wanted,
            Action::FetchEvent,
        ) + tally(wanted, Action::QueryWindowSize) + tally(
            wanted,
            Action::Draw(FrameTarget::of_window(width, height)),
        ) + tally(wanted, Action::CompositeOverlay) + tally(wanted, Action::Present) + tally(
            wanted,
            Action::PollInput,
        ),
{
    let r = idle_frame(width, height);
    reveal_with_fuel(asked, 7);
    assert(r.skip(1).skip(1).skip(1).skip(1).skip(1).skip(1).len() == 0);
    assert(r[0] == Response::Input(None));
    assert(r.skip(1)[0] == Response::Event(None));
    assert(r.skip(1).skip(1)[0] == Response::WindowSize(width, height));
    assert(r.skip(1).skip(1).skip(1)[0] == Response::Completed);
    assert(r.skip(1).skip(1).skip(1).skip(1)[0] == Response::Completed);
    assert(r.skip(1).skip(1).skip(1).skip(1).skip(1)[0] == Response::Completed);
}

/// Whatever the host and the engine answer, from the first request to the
/// last, the release of the engine is asked for at most once.
pub proof fn lemma_released_at_most_once(stage: Stage, invert: bool, responses: Seq<Response>)
    ensures
        asked(stage, invert, responses, |action: Action| action == Action::DestroyEngine) <= 1,
        rank(stage.phase_of()) >= rank(Phase::Terminating) ==> asked(
            stage,
            invert,
            responses,
            |action: Action| action == Action::DestroyEngine,
        ) == 0,
    decreases responses.len(),
{
    if responses.len() > 0 {
        lemma_phases_advance(stage, invert, responses[0]);
        lemma_engine_lives_once(stage, invert, responses[0]);
        lemma_released_at_most_once(next(stage, invert, responses[0]), invert, responses.skip(1));
    }
}

/// Once the release of the engine was asked for, nothing that is asked for
/// afterwards touches the engine, whatever is handed back.
pub proof fn lemma_no_use_after_release(stage: Stage, invert: bool, responses: Seq<Response>)
    requires
        rank(stage.phase_of()) >= rank(Phase::Terminating),
        responses.len() > 0,
    ensures
        !uses_engine(run(stage, invert, responses).request()),
        asked(stage, invert, responses, |action: Action| uses_engine(action)) == 0,
    decreases responses.len(),
{
    lemma_phases_advance(stage, invert, responses[0]);
    lemma_engine_lives_once(stage, invert, responses[0]);
    let following = next(stage, invert, responses[0]);
    let rest = responses.skip(1);
    let uses = |action: Action| uses_engine(action);
    if rest.len() > 0 {
        lemma_no_use_after_release(following, invert, rest);
    } else {
        assert(run(following, invert, rest) == following);
        assert(asked(following, invert, rest, uses) == 0);
    }
    assert(!uses(following.request()));
}

} // verus!
