//! The application state and its event step: the input and output buffers,
//! the working-directory model, and the dispatch performed on each key.

use vstd::prelude::*;
use crate::plan::{classify, classify_plan, names_view, ExecutionPlan, PlanSpec};
use crate::text::{decode_lossy, lossy_utf8, str_chars, trim_spec};

verus! {

/// One keystroke, as the event loop hands it to the application.
#[derive(Debug, Clone, Copy, PartialEq, Eq, Structural)]
pub enum Key {
    /// A printable character typed into the input line.
    Char(char),
    Backspace,
    Enter,
    /// The designated quit key.
    CtrlC,
    /// Any other key: ignored.
    Other,
}

/// What the surrounding process must do after one key step. Everything that
/// touches the outside world (spawning, changing the process directory,
/// exiting) is returned here rather than performed.
#[derive(Debug, PartialEq, Eq)]
pub enum Action {
    /// Nothing to do beyond the state change already made.
    Idle,
    /// Shut down: restore the terminal and exit with success.
    Quit,
    /// Change the process working directory to the path, then report the
    /// outcome through `apply_cd_result`.
    ChangeDir(Vec<char>),
    /// Run the command with inherited stdio inside an acquire/restore
    /// bracket, as `fullscreen_script` lays it out.
    RunFullscreen(Vec<char>),
    /// Run the command with stdout and stderr captured, then report the
    /// outcome through `apply_captured_result`.
    RunCaptured(Vec<char>),
}

/// The mathematical shape of an action.
pub enum ActionSpec {
    Idle,
    Quit,
    ChangeDir(Seq<char>),
    RunFullscreen(Seq<char>),
    RunCaptured(Seq<char>),
}

impl View for Action {
    type V = ActionSpec;

    open spec fn view(&self) -> ActionSpec {
        match self {
            Action::Idle => ActionSpec::Idle,
            Action::Quit => ActionSpec::Quit,
            Action::ChangeDir(p) => ActionSpec::ChangeDir(p@),
            Action::RunFullscreen(c) => ActionSpec::RunFullscreen(c@),
            Action::RunCaptured(c) => ActionSpec::RunCaptured(c@),
        }
    }
}

/// The default fullscreen command names configured at startup.
pub open spec fn default_fullscreen() -> Seq<Seq<char>> {
    seq!["htop"@, "vim"@, "less"@, "top"@]
}

/// The message shown when a command could not even be spawned.
pub open spec fn not_found_message(cmd: Seq<char>) -> Seq<char> {
    "Error: Command '"@ + cmd + "' not found"@
}

/// The message shown when a directory change failed with the given error.
pub open spec fn cd_error_message(err: Seq<char>) -> Seq<char> {
    "Error changing directory: "@ + err
}

/// The application state: the in-progress command line, the text shown in
/// the output pane, the modelled working directory, and the fixed set of
/// fullscreen command names.
pub struct App {
    /// The in-progress command line; cleared after every Enter dispatch.
    pub input: Vec<char>,
    /// The output pane text; overwritten wholesale by each command's result.
    pub output: Vec<char>,
    /// The current working directory as the application tracks it; mutated
    /// only by a successful `cd`.
    pub working_dir: Vec<char>,
    /// Command names that run fullscreen; immutable after startup.
    pub fullscreen_commands: Vec<Vec<char>>,
}

impl App {
    /// The views of the configured fullscreen command names.
    pub open spec fn fullscreen_view(&self) -> Seq<Seq<char>> {
        names_view(self.fullscreen_commands@)
    }

    /// A fresh application: empty buffers and the default fullscreen set.
    pub fn new() -> (app: App)
        ensures
            app.input@ == Seq::<char>::empty(),
            app.output@ == Seq::<char>::empty(),
            app.working_dir@ == Seq::<char>::empty(),
            app.fullscreen_view() == default_fullscreen(),
    {
        let mut fs: Vec<Vec<char>> = Vec::new();
        fs.push(str_chars("htop"));
        fs.push(str_chars("vim"));
        fs.push(str_chars("less"));
        fs.push(str_chars("top"));
        let app = App {
            input: Vec::new(),
            output: Vec::new(),
            working_dir: Vec::new(),
            fullscreen_commands: fs,
        };
        proof {
            assert(app.fullscreen_view() =~= default_fullscreen());
        }
        app
    }

    /// Records the working directory the process starts in.
    pub fn set_working_dir(&mut self, dir: Vec<char>)
        ensures
            final(self).working_dir@ == dir@,
            final(self).input == old(self).input,
            final(self).output == old(self).output,
            final(self).fullscreen_commands == old(self).fullscreen_commands,
    {
        self.working_dir = dir;
    }

    /// One step of the event loop: mutates the buffers as the key demands
    /// and returns what the surrounding process must do next. A character
    /// extends the input line; Backspace drops its last character and does
    /// nothing on an empty line; Enter classifies the trimmed line, clears
    /// the input whatever the command was, applies the `clear` builtin
    /// itself, and hands every other plan back as an action; Ctrl+C asks for
    /// shutdown; all other keys change nothing.
    pub fn on_key(&mut self, key: Key) -> (a: Action)
        ensures
            final(self).working_dir == old(self).working_dir,
            final(self).fullscreen_commands == old(self).fullscreen_commands,
            match key {
                Key::Char(c) => {
                    &&& final(self).input@ == old(self).input@.push(c)
                    &&& final(self).output == old(self).output
                    &&& a@ is Idle
                },
                Key::Backspace => {
                    &&& final(self).input@ == (if old(self).input@.len() == 0 {
                        old(self).input@
                    } else {
                        old(self).input@.drop_last()
                    })
                    &&& final(self).output == old(self).output
                    &&& a@ is Idle
                },
                Key::Enter => {
                    let plan = classify_plan(
                        trim_spec(old(self).input@),
                        old(self).fullscreen_view(),
                    );
                    &&& final(self).input@ == Seq::<char>::empty()
                    &&& match plan {
                        PlanSpec::Empty => final(self).output == old(self).output && a@
                            is Idle,
                        PlanSpec::ClearOutput => final(self).output@ == Seq::<char>::empty()
                            && a@ is Idle,
                        PlanSpec::ChangeDirectory(p) => final(self).output == old(self).output
                            && a@ == ActionSpec::ChangeDir(p),
                        PlanSpec::RunFullscreen(c) => final(self).output == old(self).output
                            && a@ == ActionSpec::RunFullscreen(c),
                        PlanSpec::RunCaptured(c) => final(self).output == old(self).output
                            && a@ == ActionSpec::RunCaptured(c),
                    }
                },
                Key::CtrlC => {
                    &&& final(self).input == old(self).input
                    &&& final(self).output == old(self).output
                    &&& a@ is Quit
                },
                Key::Other => {
                    &&& final(self).input == old(self).input
                    &&& final(self).output == old(self).output
                    &&& a@ is Idle
                },
            },
    {
        match key {
            Key::Char(c) => {
                self.input.push(c);
                Action::Idle
            },
            Key::Backspace => {
                if self.input.len() > 0 {
                    self.input.pop();
                }
                Action::Idle
            },
            Key::Enter => {
                let plan = classify(&self.input, &self.fullscreen_commands);
                self.input = Vec::new();
                match plan {
                    ExecutionPlan::Empty => Action::Idle,
                    ExecutionPlan::ClearOutput => {
                        self.output = Vec::new();
                        Action::Idle
                    },
                    ExecutionPlan::ChangeDirectory(p) => Action::ChangeDir(p),
                    ExecutionPlan::RunFullscreen(c) => Action::RunFullscreen(c),
                    ExecutionPlan::RunCaptured(c) => Action::RunCaptured(c),
                }
            },
            Key::CtrlC => Action::Quit,
            Key::Other => Action::Idle,
        }
    }

    /// Applies the outcome of a captured run to the output pane: on a zero
    /// exit the decoded standard output, on a nonzero exit the decoded
    /// standard error, and when the spawn itself failed a message naming the
    /// command as not found.
    pub fn apply_captured_result(
        &mut self,
        cmd: &Vec<char>,
        spawned: bool,
        exit_ok: bool,
        stdout: &Vec<u8>,
        stderr: &Vec<u8>,
    )
        ensures
            final(self).input == old(self).input,
            final(self).working_dir == old(self).working_dir,
            final(self).fullscreen_commands == old(self).fullscreen_commands,
            spawned && exit_ok ==> final(self).output@ == lossy_utf8(stdout@),
            spawned && !exit_ok ==> final(self).output@ == lossy_utf8(stderr@),
            !spawned ==> final(self).output@ == not_found_message(cmd@),
    {
        if spawned {
            if exit_ok {
                self.output = decode_lossy(stdout);
            } else {
                self.output = decode_lossy(stderr);
            }
        } else {
            let mut msg = str_chars("Error: Command '");
            push_all(&mut msg, cmd);
            let tail = str_chars("' not found");
            push_all(&mut msg, &tail);
            self.output = msg;
        }
    }

    /// Applies the outcome of a directory change: on success the tracked
    /// working directory becomes the path and the output pane is untouched;
    /// on failure the directory is unchanged and the output pane holds a
    /// non-empty error message.
    pub fn apply_cd_result(&mut self, path: &Vec<char>, changed: bool, err: &Vec<char>)
        ensures
            final(self).input == old(self).input,
            final(self).fullscreen_commands == old(self).fullscreen_commands,
            changed ==> final(self).working_dir@ == path@
                && final(self).output == old(self).output,
            !changed ==> final(self).working_dir == old(self).working_dir
                && final(self).output@ == cd_error_message(err@)
                && final(self).output@.len() > 0,
    {
        if changed {
            self.working_dir = path.clone();
            proof {
                assert(self.working_dir@ =~= path@);
            }
        } else {
            let mut msg = str_chars("Error changing directory: ");
            proof {
                reveal_strlit("Error changing directory: ");
            }
            push_all(&mut msg, err);
            self.output = msg;
        }
    }
}

/// Appends the characters of `src` to `dst`.
pub fn push_all(dst: &mut Vec<char>, src: &Vec<char>)
    ensures
        final(dst)@ == old(dst)@ + src@,
{
    let ghost dst0 = dst@;
    let n = src.len();
    let mut i: usize = 0;
    while i < n
        invariant
            i <= n,
            n == src@.len(),
            dst@ == dst0 + src@.subrange(0, i as int),
        decreases n - i,
    {
        dst.push(src[i]);
        assert(dst@ =~= dst0 + src@.subrange(0, i + 1));
        i += 1;
    }
    assert(dst@ =~= dst0 + src@);
}

} // verus!
