//! What is handed to the engine as it stands: the options set before media
//! is loaded, commands as lists of tokens, and the tokens of its event queue.

use vstd::prelude::*;

verus! {

/// The options that the player sets on the engine before it loads media.
#[derive(Clone, Copy, Debug, PartialEq, Eq, Structural)]
pub enum EngineOption {
    /// Video goes to the host's OpenGL surface through the render callback.
    VideoOutput,
    /// The engine decodes no subtitle track.
    SubtitleTrack,
    /// The picture is shown upside down.
    Invert,
}

impl EngineOption {
    /// The option's name in the engine.
    pub open spec fn name_text(self) -> Seq<char> {
        match self {
            EngineOption::VideoOutput => "vo"@,
            EngineOption::SubtitleTrack => "sid"@,
            EngineOption::Invert => "vf"@,
        }
    }

    /// The value that the player gives the option.
    pub open spec fn value_text(self) -> Seq<char> {
        match self {
            EngineOption::VideoOutput => "opengl-cb"@,
            EngineOption::SubtitleTrack => "no"@,
            EngineOption::Invert => "flip"@,
        }
    }

    pub fn name(self) -> (name: &'static str)
        ensures
            name@ == self.name_text(),
    {
        match self {
            EngineOption::VideoOutput => "vo",
            EngineOption::SubtitleTrack => "sid",
            EngineOption::Invert => "vf",
        }
    }

    pub fn value(self) -> (value: &'static str)
        ensures
            value@ == self.value_text(),
    {
        match self {
            EngineOption::VideoOutput => "opengl-cb",
            EngineOption::SubtitleTrack => "no",
            EngineOption::Invert => "flip",
        }
    }
}

/// A command for the engine: its name, then its arguments, in order. The
/// engine alone gives the tokens a meaning.
#[derive(Clone, Debug, PartialEq, Eq)]
pub struct CommandInvocation {
    pub tokens: Vec<String>,
}

impl View for CommandInvocation {
    type V = Seq<Seq<char>>;

    /// The tokens as texts, in order.
    open spec fn view(&self) -> Seq<Seq<char>> {
        Seq::new(self.tokens@.len(), |i: int| self.tokens@[i]@)
    }
}

impl CommandInvocation {
    /// The command `name` with the given arguments after it.
    pub fn new(name: &str, arguments: &Vec<String>) -> (command: CommandInvocation)
        ensures
            command@ == seq![name@] + Seq::new(arguments@.len(), |i: int| arguments@[i]@),
    {
        let mut tokens: Vec<String> = Vec::new();
        tokens.push(name.to_owned());
        let mut i: usize = 0;
        while i < arguments.len()
            invariant
                i <= arguments.len(),
                tokens@.len() == i + 1,
                tokens@[0]@ == name@,
                forall|j: int| 0 <= j < i ==> (#[trigger] tokens@[j + 1])@ == arguments@[j]@,
            decreases arguments.len() - i,
        {
            tokens.push(arguments[i].clone());
            i += 1;
        }
        let command = CommandInvocation { tokens };
        assert(command@ =~= seq![name@] + Seq::new(
            arguments@.len(),
            |i: int| arguments@[i]@,
        )) by {
            assert forall|k: int| 0 <= k < command@.len() implies command@[k] == (seq![name@]
                + Seq::new(arguments@.len(), |i: int| arguments@[i]@))[k] by {
                if k > 0 {
                    assert(command.tokens@[(k - 1) + 1]@ == arguments@[k - 1]@);
                }
            }
        }
        command
    }

    /// The command that has the engine load and play the media at `path`.
    pub fn load_file(path: &str) -> (command: CommandInvocation)
        ensures
            command@ == seq!["loadfile"@, path@],
    {
        let mut tokens: Vec<String> = Vec::new();
        tokens.push("loadfile".to_owned());
        tokens.push(path.to_owned());
        let command = CommandInvocation { tokens };
        assert(command@ =~= seq!["loadfile"@, path@]);
        command
    }
}

/// A notification taken from the engine's event queue. The bridge carries
/// the engine's number for it and reads nothing into it.
#[derive(Clone, Copy, Debug, PartialEq, Eq, Structural)]
pub struct EventToken {
    pub id: u32,
}

} // verus!
