//! The control loop as a machine that never touches the host or the engine
//! itself. It names the next thing to do; the host does it and hands back
//! what came of it; the machine names the next. Start-up, the per-frame
//! order (input, drain, measure, draw, overlay, present) and the way out all
//! follow from the one transition function `next`.

use crate::engine::{CommandInvocation, EngineOption, EventToken};
use crate::input::{binding, bound, Control, InputEvent};
use crate::property::{flag_of, read_flag, Property, PropertyError, PropertyValue, Speed};
use crate::render::FrameTarget;
use crate::window::{flipped, toggle_fullscreen, FullscreenMode};
use vstd::prelude::*;

verus! {

/// Why the player gave up. Each carries the engine's or host's status code
/// where there was one.
#[derive(Clone, Copy, Debug, PartialEq, Eq, Structural)]
pub enum Fault {
    /// The engine could not be brought up.
    EngineInit(i32),
    /// The engine refused an option.
    Configure(EngineOption, i32),
    /// The render callback could not be installed.
    RenderInstall(i32),
    /// The engine refused the command that loads the media.
    Command(i32),
    /// The engine failed to read a property.
    PropertyRead(Property, i32),
    /// The engine failed to write a property.
    PropertyWrite(Property, i32),
    /// A property read gave a value that the property cannot hold.
    Value(Property, PropertyError),
    /// The host could not change the window's fullscreen state.
    Fullscreen(i32),
    /// The host answered a request with the outcome of another.
    Protocol,
}

/// What the machine asks the host to do next.
#[derive(Clone, Copy, Debug, PartialEq, Eq, Structural)]
pub enum Action {
    /// Create the engine instance.
    InitEngine,
    /// Set an option on the engine.
    SetOption(EngineOption),
    /// Install the render callback, with the host's address resolver.
    InstallRenderCallback,
    /// Send the command that loads the media.
    LoadMedia,
    /// Take one event from the host's input queue, if there is one.
    PollInput,
    /// Read the pause flag.
    ReadPause,
    /// Write the pause flag.
    WritePause(bool),
    /// Write the playback speed.
    WriteSpeed(Speed),
    /// Read the window's flags.
    ReadWindowFlags,
    /// Put the window into a fullscreen mode.
    SetFullscreen(FullscreenMode),
    /// Take one event from the engine's queue, without waiting.
    FetchEvent,
    /// Read the window's size in pixels.
    QueryWindowSize,
    /// Have the engine render into the target.
    Draw(FrameTarget),
    /// Lay the host's own overlay over the picture.
    CompositeOverlay,
    /// Show the frame.
    Present,
    /// Release the engine instance.
    DestroyEngine,
    /// Leave, all being well.
    Exit,
    /// Leave with a diagnostic.
    Abort(Fault),
}

/// What the host hands back once it has done what was asked.
#[derive(Clone, Debug, PartialEq, Eq)]
pub enum Response {
    /// Done; there is nothing to report.
    Completed,
    /// The native call failed with this status code.
    Failed(i32),
    /// The input event taken, or none where the queue was empty.
    Input(Option<InputEvent>),
    /// The value of the property read.
    Property(PropertyValue),
    /// The window's flags.
    WindowFlags(u32),
    /// The engine event taken, or none where the queue was empty.
    Event(Option<EventToken>),
    /// The window's width and height in pixels.
    WindowSize(u32, u32),
}

/// Where the machine stands: each stage but the last two waits for the
/// outcome of the one action that `request` names for it.
#[derive(Clone, Copy, Debug, PartialEq, Eq, Structural)]
pub enum Stage {
    Init,
    Configure(EngineOption),
    Install,
    Load,
    Poll,
    PauseRead,
    PauseWrite(bool),
    SpeedWrite(Speed),
    FullscreenRead,
    FullscreenWrite(FullscreenMode),
    Drain,
    Measure,
    Draw(FrameTarget),
    Overlay,
    Present,
    Destroy,
    Finished,
    Failed(Fault),
}

/// The states of the control loop, with what comes before and after them.
#[derive(Clone, Copy, Debug, PartialEq, Eq, Structural)]
pub enum Phase {
    /// The engine is being brought up and configured.
    Starting,
    /// Frames are being produced.
    Running,
    /// The loop has ended and the engine is being released.
    Terminating,
    /// Nothing more is asked of the engine.
    Stopped,
}

impl Stage {
    /// The action whose outcome the stage waits for.
    pub open spec fn request(self) -> Action {
        match self {
            Stage::Init => Action::InitEngine,
            Stage::Configure(option) => Action::SetOption(option),
            Stage::Install => Action::InstallRenderCallback,
            Stage::Load => Action::LoadMedia,
            Stage::Poll => Action::PollInput,
            Stage::PauseRead => Action::ReadPause,
            Stage::PauseWrite(flag) => Action::WritePause(flag),
            Stage::SpeedWrite(speed) => Action::WriteSpeed(speed),
            Stage::FullscreenRead => Action::ReadWindowFlags,
            Stage::FullscreenWrite(mode) => Action::SetFullscreen(mode),
            Stage::Drain => Action::FetchEvent,
            Stage::Measure => Action::QueryWindowSize,
            Stage::Draw(target) => Action::Draw(target),
            Stage::Overlay => Action::CompositeOverlay,
            Stage::Present => Action::Present,
            Stage::Destroy => Action::DestroyEngine,
            Stage::Finished => Action::Exit,
            Stage::Failed(fault) => Action::Abort(fault),
        }
    }

    /// The state of the control loop that the stage belongs to.
    pub open spec fn phase_of(self) -> Phase {
        match self {
            Stage::Init | Stage::Configure(_) | Stage::Install | Stage::Load => Phase::Starting,
            Stage::Destroy => Phase::Terminating,
            Stage::Finished | Stage::Failed(_) => Phase::Stopped,
            _ => Phase::Running,
        }
    }

    pub fn pending(self) -> (action: Action)
        ensures
            action == self.request(),
    {
        match self {
            Stage::Init => Action::InitEngine,
            Stage::Configure(option) => Action::SetOption(option),
            Stage::Install => Action::InstallRenderCallback,
            Stage::Load => Action::LoadMedia,
            Stage::Poll => Action::PollInput,
            Stage::PauseRead => Action::ReadPause,
            Stage::PauseWrite(flag) => Action::WritePause(flag),
            Stage::SpeedWrite(speed) => Action::WriteSpeed(speed),
            Stage::FullscreenRead => Action::ReadWindowFlags,
            Stage::FullscreenWrite(mode) => Action::SetFullscreen(mode),
            Stage::Drain => Action::FetchEvent,
            Stage::Measure => Action::QueryWindowSize,
            Stage::Draw(target) => Action::Draw(target),
            Stage::Overlay => Action::CompositeOverlay,
            Stage::Present => Action::Present,
            Stage::Destroy => Action::DestroyEngine,
            Stage::Finished => Action::Exit,
            Stage::Failed(fault) => Action::Abort(fault),
        }
    }

    pub fn phase(self) -> (phase: Phase)
        ensures
            phase == self.phase_of(),
    {
        match self {
            Stage::Init | Stage::Configure(_) | Stage::Install | Stage::Load => Phase::Starting,
            Stage::Destroy => Phase::Terminating,
            Stage::Finished | Stage::Failed(_) => Phase::Stopped,
            _ => Phase::Running,
        }
    }
}

/// The stage after an option was set: the video output first, then the
/// subtitle track, then the inversion where it was asked for, and with all
/// of them set, the render callback.
pub open spec fn after_option(option: EngineOption, invert: bool) -> Stage {
    match option {
        EngineOption::VideoOutput => Stage::Configure(EngineOption::SubtitleTrack),
        EngineOption::SubtitleTrack => if invert {
            Stage::Configure(EngineOption::Invert)
        } else {
            Stage::Install
        },
        EngineOption::Invert => Stage::Install,
    }
}

/// The stage after the input queue was polled: with nothing pending the
/// frame goes on to drain the engine's events; an unbound event is passed
/// over; a bound one starts what it asks for.
pub open spec fn after_input(event: Option<InputEvent>) -> Stage {
    match event {
        None => Stage::Drain,
        Some(event) => match bound(event) {
            None => Stage::Poll,
            Some(Control::Quit) => Stage::Destroy,
            Some(Control::TogglePause) => Stage::PauseRead,
            Some(Control::SetSpeed(speed)) => Stage::SpeedWrite(speed),
            Some(Control::ToggleFullscreen) => Stage::FullscreenRead,
        },
    }
}

/// The stage after the pause flag was read: its negation is written, or the
/// player gives up on a value that is no flag.
pub open spec fn after_pause_read(value: PropertyValue) -> Stage {
    match flag_of(value) {
        Ok(flag) => Stage::PauseWrite(!flag),
        Err(error) => Stage::Failed(Fault::Value(Property::Pause, error)),
    }
}

/// The stage after the window was measured: the engine draws into the
/// host's framebuffer at that size, height negated; a size that cannot be
/// described to the engine costs the frame.
pub open spec fn after_measure(width: u32, height: u32) -> Stage {
    if FrameTarget::fits(width, height) {
        Stage::Draw(FrameTarget::of_window(width, height))
    } else {
        Stage::Poll
    }
}

/// The transition function: the stage that follows `stage` once the host
/// has handed back `response`. `invert` is whether the picture was asked to
/// be shown upside down.
///
/// A failure while the engine is started, configured, read or written, or
/// while the window changes its mode, ends the player, and so does a
/// response that does not answer the pending request. A failed draw only
/// costs the frame. The two last stages are never left.
pub open spec fn next(stage: Stage, invert: bool, response: Response) -> Stage {
    match (stage, response) {
        (Stage::Finished, _) => Stage::Finished,
        (Stage::Failed(fault), _) => Stage::Failed(fault),
        (Stage::Init, Response::Completed) => Stage::Configure(EngineOption::VideoOutput),
        (Stage::Init, Response::Failed(code)) => Stage::Failed(Fault::EngineInit(code)),
        (Stage::Configure(option), Response::Completed) => after_option(option, invert),
        (Stage::Configure(option), Response::Failed(code)) => Stage::Failed(
            Fault::Configure(option, code),
        ),
        (Stage::Install, Response::Completed) => Stage::Load,
        (Stage::Install, Response::Failed(code)) => Stage::Failed(Fault::RenderInstall(code)),
        (Stage::Load, Response::Completed) => Stage::Poll,
        (Stage::Load, Response::Failed(code)) => Stage::Failed(Fault::Command(code)),
        (Stage::Poll, Response::Input(event)) => after_input(event),
        (Stage::PauseRead, Response::Property(value)) => after_pause_read(value),
        (Stage::PauseRead, Response::Failed(code)) => Stage::Failed(
            Fault::PropertyRead(Property::Pause, code),
        ),
        (Stage::PauseWrite(_), Response::Completed) => Stage::Poll,
        (Stage::PauseWrite(_), Response::Failed(code)) => Stage::Failed(
            Fault::PropertyWrite(Property::Pause, code),
        ),
        (Stage::SpeedWrite(_), Response::Completed) => Stage::Poll,
        (Stage::SpeedWrite(_), Response::Failed(code)) => Stage::Failed(
            Fault::PropertyWrite(Property::Speed, code),
        ),
        (Stage::FullscreenRead, Response::WindowFlags(flags)) => Stage::FullscreenWrite(
            flipped(flags),
        ),
        (Stage::FullscreenWrite(_), Response::Completed) => Stage::Poll,
        (Stage::FullscreenWrite(_), Response::Failed(code)) => Stage::Failed(
            Fault::Fullscreen(code),
        ),
        (Stage::Drain, Response::Event(Some(_))) => Stage::Drain,
        (Stage::Drain, Response::Event(None)) => Stage::Measure,
        (Stage::Measure, Response::WindowSize(width, height)) => after_measure(width, height),
        (Stage::Draw(_), Response::Completed) => Stage::Overlay,
        (Stage::Draw(_), Response::Failed(_)) => Stage::Poll,
        (Stage::Overlay, Response::Completed) => Stage::Present,
        (Stage::Present, Response::Completed) => Stage::Poll,
        (Stage::Destroy, Response::Completed) => Stage::Finished,
        _ => Stage::Failed(Fault::Protocol),
    }
}

fn step_option(option: EngineOption, invert: bool) -> (stage: Stage)
    ensures
        stage == after_option(option, invert),
{
    match option {
        EngineOption::VideoOutput => Stage::Configure(EngineOption::SubtitleTrack),
        EngineOption::SubtitleTrack => if invert {
            Stage::Configure(EngineOption::Invert)
        } else {
            Stage::Install
        },
        EngineOption::Invert => Stage::Install,
    }
}

fn step_input(event: Option<InputEvent>) -> (stage: Stage)
    ensures
        stage == after_input(event),
{
    match event {
        None => Stage::Drain,
        Some(event) => match binding(event) {
            None => Stage::Poll,
            Some(Control::Quit) => Stage::Destroy,
            Some(Control::TogglePause) => Stage::PauseRead,
            Some(Control::SetSpeed(speed)) => Stage::SpeedWrite(speed),
            Some(Control::ToggleFullscreen) => Stage::FullscreenRead,
        },
    }
}

fn step_pause_read(value: &PropertyValue) -> (stage: Stage)
    ensures
        stage == after_pause_read(*value),
{
    match read_flag(value) {
        Ok(flag) => Stage::PauseWrite(!flag),
        Err(error) => Stage::Failed(Fault::Value(Property::Pause, error)),
    }
}

fn step_measure(width: u32, height: u32) -> (stage: Stage)
    ensures
        stage == after_measure(width, height),
{
    match FrameTarget::for_window(width, height) {
        Some(target) => Stage::Draw(target),
        None => Stage::Poll,
    }
}

/// Computes the transition function.
pub fn step(stage: Stage, invert: bool, response: &Response) -> (following: Stage)
    ensures
        following == next(stage, invert, *response),
{
    match stage {
        Stage::Finished => Stage::Finished,
        Stage::Failed(fault) => Stage::Failed(fault),
        Stage::Init => match response {
            Response::Completed => Stage::Configure(EngineOption::VideoOutput),
            Response::Failed(code) => Stage::Failed(Fault::EngineInit(*code)),
            _ => Stage::Failed(Fault::Protocol),
        },
        Stage::Configure(option) => match response {
            Response::Completed => step_option(option, invert),
            Response::Failed(code) => Stage::Failed(Fault::Configure(option, *code)),
            _ => Stage::Failed(Fault::Protocol),
        },
        Stage::Install => match response {
            Response::Completed => Stage::Load,
            Response::Failed(code) => Stage::Failed(Fault::RenderInstall(*code)),
            _ => Stage::Failed(Fault::Protocol),
        },
        Stage::Load => match response {
            Response::Completed => Stage::Poll,
            Response::Failed(code) => Stage::Failed(Fault::Command(*code)),
            _ => Stage::Failed(Fault::Protocol),
        },
        Stage::Poll => match response {
            Response::Input(event) => step_input(*event),
            _ => Stage::Failed(Fault::Protocol),
        },
        Stage::PauseRead => match response {
            Response::Property(value) => step_pause_read(value),
            Response::Failed(code) => Stage::Failed(Fault::PropertyRead(Property::Pause, *code)),
            _ => Stage::Failed(Fault::Protocol),
        },
        Stage::PauseWrite(_) => match response {
            Response::Completed => Stage::Poll,
            Response::Failed(code) => Stage::Failed(Fault::PropertyWrite(Property::Pause, *code)),
            _ => Stage::Failed(Fault::Protocol),
        },
        Stage::SpeedWrite(_) => match response {
            Response::Completed => Stage::Poll,
            Response::Failed(code) => Stage::Failed(Fault::PropertyWrite(Property::Speed, *code)),
            _ => Stage::Failed(Fault::Protocol),
        },
        Stage::FullscreenRead => match response {
            Response::WindowFlags(flags) => Stage::FullscreenWrite(toggle_fullscreen(*flags)),
            _ => Stage::Failed(Fault::Protocol),
        },
        Stage::FullscreenWrite(_) => match response {
            Response::Completed => Stage::Poll,
            Response::Failed(code) => Stage::Failed(Fault::Fullscreen(*code)),
            _ => Stage::Failed(Fault::Protocol),
        },
        Stage::Drain => match response {
            Response::Event(Some(_)) => Stage::Drain,
            Response::Event(None) => Stage::Measure,
            _ => Stage::Failed(Fault::Protocol),
        },
        Stage::Measure => match response {
            Response::WindowSize(width, height) => step_measure(*width, *height),
            _ => Stage::Failed(Fault::Protocol),
        },
        Stage::Draw(_) => match response {
            Response::Completed => Stage::Overlay,
            Response::Failed(_) => Stage::Poll,
            _ => Stage::Failed(Fault::Protocol),
        },
        Stage::Overlay => match response {
            Response::Completed => Stage::Present,
            _ => Stage::Failed(Fault::Protocol),
        },
        Stage::Present => match response {
            Response::Completed => Stage::Poll,
            _ => Stage::Failed(Fault::Protocol),
        },
        Stage::Destroy => match response {
            Response::Completed => Stage::Finished,
            _ => Stage::Failed(Fault::Protocol),
        },
    }
}

/// The machine of one run of the player: the stage it stands at, the media
/// to play, and whether the picture is to be inverted.
pub struct Driver {
    stage: Stage,
    invert: bool,
    media: String,
}

impl Driver {
    pub closed spec fn stage_of(&self) -> Stage {
        self.stage
    }

    pub closed spec fn inverted(&self) -> bool {
        self.invert
    }

    pub closed spec fn media_text(&self) -> Seq<char> {
        self.media@
    }

    /// A machine for playing `media`, and the first thing to do: create the
    /// engine.
    pub fn start(media: String, invert: bool) -> (started: (Driver, Action))
        ensures
            started.0.stage_of() == Stage::Init,
            started.0.inverted() == invert,
            started.0.media_text() == media@,
            started.1 == Action::InitEngine,
    {
        (Driver { stage: Stage::Init, invert, media }, Action::InitEngine)
    }

    pub fn stage(&self) -> (stage: Stage)
        ensures
            stage == self.stage_of(),
    {
        self.stage
    }

    pub fn invert(&self) -> (invert: bool)
        ensures
            invert == self.inverted(),
    {
        self.invert
    }

    pub fn media(&self) -> (media: &str)
        ensures
            media@ == self.media_text(),
    {
        self.media.as_str()
    }

    /// The state of the control loop.
    pub fn phase(&self) -> (phase: Phase)
        ensures
            phase == self.stage_of().phase_of(),
    {
        self.stage.phase()
    }

    /// The command to send for `Action::LoadMedia`.
    pub fn load_command(&self) -> (command: CommandInvocation)
        ensures
            command@ == seq!["loadfile"@, self.media_text()],
    {
        CommandInvocation::load_file(self.media.as_str())
    }

    /// Takes the outcome of the action asked for last, moves to the stage
    /// that `next` gives, and returns the action to do now.
    pub fn advance(&mut self, response: &Response) -> (action: Action)
        ensures
            final(self).stage_of() == next(old(self).stage_of(), old(self).inverted(), *response),
            final(self).inverted() == old(self).inverted(),
            final(self).media_text() == old(self).media_text(),
            action == final(self).stage_of().request(),
    {
        let following = step(self.stage, self.invert, response);
        self.stage = following;
        following.pending()
    }
}

} // verus!
