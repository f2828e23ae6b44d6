use vstd::prelude::*;

use crate::client::http::ClientError;
use crate::client::state::ClientState;
use crate::memory::reader::matches_at;
use crate::text::{chars_to_string, is_whitespace, unicode_whitespace};

verus! {

/// What can go wrong in the terminal interface.
#[derive(Debug)]
pub enum UIError {
    TerminalError(String),
    EventError(String),
    StateError(ClientError),
}

/// A command the player gives to the observer.
#[derive(Debug, Clone, Copy, PartialEq, Eq, Structural)]
pub enum AppCommand {
    Start,
    Stop,
    Exit,
}

/// What the interface does with a typed command.
#[derive(Debug)]
pub enum UiAction {
    /// Pass the command on.
    Send(AppCommand),
    /// Refuse it, with this message.
    Reject(String),
}

/// The message when a typed command is refused.
pub open spec fn invalid_command_message(cmd: Seq<char>) -> Seq<char> {
    "Invalid command '"@ + cmd + "'"@
}

/// Whether `cmd` is `word` followed by a space and something more (an argument).
pub open spec fn has_argument(cmd: Seq<char>, word: Seq<char>) -> bool {
    cmd.len() > word.len() + 1 && cmd.subrange(0, word.len() + 1int) == word + " "@
}

/// Whether a command asks to enter ranked mode: `start`, `host` with or without a session
/// code, or `join` with a session code.
pub open spec fn enters_ranked(cmd: Seq<char>) -> bool {
    cmd == "start"@ || cmd == "host"@ || has_argument(cmd, "host"@) || has_argument(cmd, "join"@)
}

/// Whether `cmd` is `word` followed by a space and something more.
fn is_command_with_argument(cmd: &str, word_and_space: &str) -> (r: bool)
    ensures
        r == (cmd@.len() > word_and_space@.len() && cmd@.subrange(0, word_and_space@.len() as int)
            == word_and_space@),
{
    let n = word_and_space.unicode_len();
    if cmd.unicode_len() <= n {
        return false;
    }
    matches_at(cmd, word_and_space, 0)
}

/// What a typed (trimmed) command does in a client state. When idle, `start`, `host`,
/// `host <code>` and `join <code>` enter ranked mode (the server pairs players through its
/// queue, so a session code is not sent on); `stop` leaves it while waiting for an opponent;
/// `exit` closes at any time; anything else is refused.
pub fn command_action(cmd: &str, state: &ClientState) -> (r: UiAction)
    ensures
        if enters_ranked(cmd@) && *state is Idle {
            r == UiAction::Send(AppCommand::Start)
        } else if cmd@ == "stop"@ && *state is WaitingForOpponent {
            r == UiAction::Send(AppCommand::Stop)
        } else if cmd@ == "exit"@ {
            r == UiAction::Send(AppCommand::Exit)
        } else {
            r matches UiAction::Reject(msg) && msg@ == invalid_command_message(cmd@)
        },
{
    proof {
        reveal_strlit("host ");
        reveal_strlit("join ");
        reveal_strlit("host");
        reveal_strlit("join");
        reveal_strlit(" ");
        assert("host"@ + " "@ =~= "host "@);
        assert("join"@ + " "@ =~= "join "@);
    }
    let text = String::from_str(cmd);
    let is_idle = matches!(state, ClientState::Idle);
    let can_stop = matches!(state, ClientState::WaitingForOpponent);
    let enters = text == String::from_str("start") || text == String::from_str("host")
        || is_command_with_argument(cmd, "host ") || is_command_with_argument(cmd, "join ");
    if enters && is_idle {
        UiAction::Send(AppCommand::Start)
    } else if text == String::from_str("stop") && can_stop {
        UiAction::Send(AppCommand::Stop)
    } else if text == String::from_str("exit") {
        UiAction::Send(AppCommand::Exit)
    } else {
        let mut msg = String::from_str("Invalid command '");
        msg.append(cmd);
        msg.append("'");
        UiAction::Reject(msg)
    }
}

/// The commands the interface offers in a client state.
pub fn commands_hint(state: &ClientState) -> (r: &'static str)
    ensures
        *state is Idle ==> r@ == "Commands: start | exit"@,
        *state is PlayingRanked ==> r@ == "Commands: exit (please, close MBAA first)"@,
        !(*state is Idle) && !(*state is PlayingRanked) ==> r@ == "Commands: stop | exit"@,
{
    match state {
        ClientState::Idle => "Commands: start | exit",
        ClientState::WaitingForOpponent => "Commands: stop | exit",
        ClientState::PlayingRanked(_) => "Commands: exit (please, close MBAA first)",
        _ => "Commands: stop | exit",
    }
}

/// One second of the countdown before the observer closes: whether it closes now, and the
/// seconds left after this one.
pub fn exit_countdown(countdown: u8) -> (r: (bool, u8))
    ensures
        r.0 == (countdown == 0),
        r.1 == if countdown == 0 { 0 } else { countdown - 1 },
{
    (countdown == 0, countdown.saturating_sub(1))
}

/// A key the terminal reported, as the interface tells keys apart.
#[derive(Debug, Clone, Copy, PartialEq, Eq, Structural)]
pub enum Key {
    Char(char),
    Enter,
    Backspace,
    Up,
    Down,
    Other,
}

/// What the interface does after a key.
#[derive(Debug)]
pub enum KeyOutcome {
    /// Nothing beyond editing the input line.
    Nothing,
    /// Send a command right away.
    Command(AppCommand),
    /// Append the clipboard's text to the input line.
    Paste,
    /// The player submitted this (trimmed) text; the input line is now empty.
    Submit(String),
    ScrollUp,
    ScrollDown,
}

/// Whether `t` is `s` without its leading and trailing whitespace.
pub open spec fn is_trim_of(t: Seq<char>, s: Seq<char>) -> bool {
    exists|i: int, j: int|
        #![trigger s.subrange(i, j)]
        0 <= i <= j <= s.len() && t == s.subrange(i, j) && (forall|k: int|
            0 <= k < i ==> unicode_whitespace(#[trigger] s[k])) && (forall|k: int|
            j <= k < s.len() ==> unicode_whitespace(#[trigger] s[k])) && (i < j ==> (
        !unicode_whitespace(s[i]) && !unicode_whitespace(s[j - 1])))
}

/// The line the player types commands into.
pub struct InputLine {
    chars: Vec<char>,
}

impl View for InputLine {
    type V = Seq<char>;

    closed spec fn view(&self) -> Seq<char> {
        self.chars@
    }
}

impl InputLine {
    pub fn new() -> (r: InputLine)
        ensures
            r@.len() == 0,
    {
        InputLine { chars: Vec::new() }
    }

    /// The text typed so far.
    pub fn text(&self) -> (r: String)
        ensures
            r@ == self@,
    {
        chars_to_string(self.chars.as_slice())
    }

    /// Appends text, such as pasted text, to the line.
    pub fn append_str(&mut self, s: &str)
        ensures
            final(self)@ == old(self)@ + s@,
    {
        let n = s.unicode_len();
        let ghost start = self.chars@;
        let mut k: usize = 0;
        while k < n
            invariant
                n == s@.len(),
                k <= n,
                self.chars@ == start + s@.subrange(0, k as int),
            decreases n - k,
        {
            self.chars.push(s.get_char(k));
            k = k + 1;
            assert(self.chars@ =~= start + s@.subrange(0, k as int));
        }
        assert(s@.subrange(0, n as int) =~= s@);
    }

    /// The text without its leading and trailing whitespace.
    fn trimmed(&self) -> (r: String)
        ensures
            is_trim_of(r@, self@),
    {
        let n = self.chars.len();
        let mut i: usize = 0;
        while i < n && is_whitespace(self.chars[i])
            invariant
                n == self.chars@.len(),
                i <= n,
                forall|k: int| 0 <= k < i ==> unicode_whitespace(#[trigger] self.chars@[k]),
            decreases n - i,
        {
            i = i + 1;
        }
        let mut j: usize = n;
        while j > i && is_whitespace(self.chars[j - 1])
            invariant
                n == self.chars@.len(),
                i <= j <= n,
                forall|k: int| j <= k < n ==> unicode_whitespace(#[trigger] self.chars@[k]),
                i < n ==> !unicode_whitespace(self.chars@[i as int]),
            decreases j - i,
        {
            j = j - 1;
        }
        let r = chars_to_string(&self.chars.as_slice()[i..j]);
        assert(r@ == self.chars@.subrange(i as int, j as int));
        r
    }

    /// Takes a key press (`pressed` is false for releases and repeats, which do nothing).
    /// Ctrl+X exits, Ctrl+V pastes, Enter submits the trimmed line and clears it, Backspace
    /// removes the last character, any other character is typed, and the arrows scroll.
    pub fn handle_key(&mut self, key: Key, ctrl: bool, pressed: bool) -> (r: KeyOutcome)
        ensures
            !pressed ==> r is Nothing && final(self)@ == old(self)@,
            pressed ==> match key {
                Key::Char(c) => if ctrl && c == 'x' {
                    r == KeyOutcome::Command(AppCommand::Exit) && final(self)@ == old(self)@
                } else if ctrl && c == 'v' {
                    r is Paste && final(self)@ == old(self)@
                } else {
                    r is Nothing && final(self)@ == old(self)@.push(c)
                },
                Key::Enter => (r matches KeyOutcome::Submit(t) && is_trim_of(t@, old(self)@))
                    && final(self)@.len() == 0,
                Key::Backspace => r is Nothing && final(self)@ == if old(self)@.len() > 0 {
                    old(self)@.drop_last()
                } else {
                    old(self)@
                },
                Key::Up => r is ScrollUp && final(self)@ == old(self)@,
                Key::Down => r is ScrollDown && final(self)@ == old(self)@,
                Key::Other => r is Nothing && final(self)@ == old(self)@,
            },
    {
        if !pressed {
            return KeyOutcome::Nothing;
        }
        match key {
            Key::Char(c) => {
                if ctrl && c == 'x' {
                    KeyOutcome::Command(AppCommand::Exit)
                } else if ctrl && c == 'v' {
                    KeyOutcome::Paste
                } else {
                    self.chars.push(c);
                    KeyOutcome::Nothing
                }
            },
            Key::Enter => {
                let cmd = self.trimmed();
                self.chars.clear();
                KeyOutcome::Submit(cmd)
            },
            Key::Backspace => {
                self.chars.pop();
                KeyOutcome::Nothing
            },
            Key::Up => KeyOutcome::ScrollUp,
            Key::Down => KeyOutcome::ScrollDown,
            Key::Other => KeyOutcome::Nothing,
        }
    }
}

} // verus!
