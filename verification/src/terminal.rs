//! The interactive terminal: what arrives, what is typed, and what the clock asks for.

use vstd::prelude::*;
use vstd::string::*;

use crate::keys::{control_byte, control_letter, is_letter, key_bytes, Key};
use crate::message::{respond_to_test_delay, Incoming, PeerMessage, TerminalReply};
use crate::text::{eq_ignore_ascii_case, joined, lower, lowered, told};

verus! {

/// What is shown once where the remote device runs Windows.
pub const WINDOWS_HINT: &'static str =
    "\n  | Tip: If CJK chars display incorrectly, run:\n  |   cmd /c \"chcp 65001 >nul 2>&1\"\n";

/// What is shown once where it does not.
pub const POSIX_HINT: &'static str =
    "\n  | Tip: If CJK chars display incorrectly, run:\n  |   export LANG=en_US.UTF-8 LC_ALL=en_US.UTF-8\n";

/// An interactive terminal.
#[derive(Clone, Copy, Debug, PartialEq, Eq, Structural)]
pub struct Terminal {
    /// The remote shell has started.
    pub opened: bool,
    /// The hint has been shown.
    pub hinted: bool,
    /// The size that the remote device knows.
    pub cols: u16,
    pub rows: u16,
    /// The byte that ends the session when it is typed.
    pub quit_byte: u8,
}

/// What happens to a terminal.
pub enum TerminalEvent {
    Incoming(Incoming),
    /// It is time to keep the connection alive.
    Keepalive,
    /// It is time to look at the local terminal, which has this size where it tells one.
    Tick { size: Option<(u16, u16)> },
    /// A key was typed that gives these bytes.
    Typed(Vec<u8>),
    /// A probe of the delay could not be sent back.
    EchoFailed(String),
}

/// What a terminal does next.
#[derive(Clone, Copy, Debug, PartialEq, Eq, Structural)]
pub enum TerminalStep {
    Wait,
    /// Keep the connection alive.
    Keepalive,
    /// Send the probe of the delay back.
    Echo,
    /// Show the data.
    Show,
    /// Show the hint, and tell the remote device the new size.
    Refresh { hint: bool, resize: bool },
    /// Send what was typed.
    Send,
    /// End the session, and where the shell has started close it.
    Quit { close: bool },
    /// The session is over.
    Over,
}

/// What an event means for a terminal.
pub open spec fn terminal_next(s: Terminal, event: TerminalEvent) -> (Terminal, Result<TerminalStep, Seq<char>>) {
    match event {
        TerminalEvent::Keepalive => if s.opened {
            (s, Ok(TerminalStep::Keepalive))
        } else {
            (s, Ok(TerminalStep::Wait))
        },
        TerminalEvent::Incoming(Incoming::StreamError(_)) => (s, Ok(TerminalStep::Over)),
        TerminalEvent::Incoming(Incoming::Closed) => (s, Ok(TerminalStep::Over)),
        TerminalEvent::Incoming(Incoming::Malformed(_)) => (s, Ok(TerminalStep::Wait)),
        TerminalEvent::Incoming(Incoming::Message(message)) => match message {
            PeerMessage::Terminal(TerminalReply::Opened { success, message }) => (
                Terminal { opened: success, ..s },
                if success {
                    Ok(TerminalStep::Wait)
                } else {
                    Err("Terminal open failed: "@ + message@)
                },
            ),
            PeerMessage::Terminal(TerminalReply::Data(_)) => (s, Ok(TerminalStep::Show)),
            PeerMessage::Terminal(TerminalReply::Closed { .. }) => (s, Ok(TerminalStep::Over)),
            PeerMessage::Terminal(TerminalReply::Error(text)) => (s, Err("Terminal error: "@ + text@)),
            PeerMessage::TestDelay { from_client } => if from_client {
                (s, Ok(TerminalStep::Wait))
            } else {
                (s, Ok(TerminalStep::Echo))
            },
            _ => (s, Ok(TerminalStep::Wait)),
        },
        TerminalEvent::Tick { size } => {
            let (cols, rows) = match size {
                Some((cols, rows)) => (cols, rows),
                None => (s.cols, s.rows),
            };
            let resize = s.opened && (cols != s.cols || rows != s.rows);
            (
                Terminal {
                    hinted: s.hinted || s.opened,
                    cols: if resize {
                        cols
                    } else {
                        s.cols
                    },
                    rows: if resize {
                        rows
                    } else {
                        s.rows
                    },
                    ..s
                },
                Ok(TerminalStep::Refresh { hint: s.opened && !s.hinted, resize }),
            )
        },
        TerminalEvent::Typed(data) => if data@.len() == 0 {
            (s, Ok(TerminalStep::Wait))
        } else if data@ == seq![s.quit_byte] {
            (s, Ok(TerminalStep::Quit { close: s.opened }))
        } else if s.opened {
            (s, Ok(TerminalStep::Send))
        } else {
            (s, Ok(TerminalStep::Wait))
        },
        TerminalEvent::EchoFailed(error) => (s, Err(error@)),
    }
}

impl Terminal {
    /// A terminal of a given size whose shell has not started. Control and `quit_key` will end it.
    pub fn start(cols: u16, rows: u16, quit_key: char) -> (s: Terminal)
        requires
            is_letter(quit_key),
        ensures
            s == terminal_start(cols, rows, quit_key),
    {
        Terminal { opened: false, hinted: false, cols, rows, quit_byte: control_letter(quit_key) }
    }

    /// Takes an event and gives what to do next.
    pub fn step(&mut self, event: &TerminalEvent) -> (r: Result<TerminalStep, String>)
        ensures
            (*final(self), told(r)) == terminal_next(*old(self), *event),
    {
        match event {
            TerminalEvent::Keepalive => {
                if self.opened {
                    Ok(TerminalStep::Keepalive)
                } else {
                    Ok(TerminalStep::Wait)
                }
            },
            TerminalEvent::Incoming(Incoming::StreamError(_)) => Ok(TerminalStep::Over),
            TerminalEvent::Incoming(Incoming::Closed) => Ok(TerminalStep::Over),
            TerminalEvent::Incoming(Incoming::Malformed(_)) => Ok(TerminalStep::Wait),
            TerminalEvent::Incoming(Incoming::Message(message)) => match message {
                PeerMessage::Terminal(TerminalReply::Opened { success, message }) => {
                    self.opened = *success;
                    if *success {
                        Ok(TerminalStep::Wait)
                    } else {
                        Err(joined("Terminal open failed: ", message.as_str()))
                    }
                },
                PeerMessage::Terminal(TerminalReply::Data(_)) => Ok(TerminalStep::Show),
                PeerMessage::Terminal(TerminalReply::Closed { .. }) => Ok(TerminalStep::Over),
                PeerMessage::Terminal(TerminalReply::Error(text)) => Err(joined("Terminal error: ", text.as_str())),
                PeerMessage::TestDelay { from_client } => {
                    if respond_to_test_delay(*from_client) {
                        Ok(TerminalStep::Echo)
                    } else {
                        Ok(TerminalStep::Wait)
                    }
                },
                _ => Ok(TerminalStep::Wait),
            },
            TerminalEvent::Tick { size } => {
                let hint = self.opened && !self.hinted;
                if self.opened {
                    self.hinted = true;
                }
                let mut resize = false;
                if let Some((cols, rows)) = size {
                    if self.opened && (*cols != self.cols || *rows != self.rows) {
                        resize = true;
                        self.cols = *cols;
                        self.rows = *rows;
                    }
                }
                Ok(TerminalStep::Refresh { hint, resize })
            },
            TerminalEvent::Typed(data) => {
                if data.len() == 0 {
                    Ok(TerminalStep::Wait)
                } else if data.len() == 1 && data[0] == self.quit_byte {
                    assert(data@ =~= seq![self.quit_byte]);
                    Ok(TerminalStep::Quit { close: self.opened })
                } else {
                    assert(data@ != seq![self.quit_byte]) by {
                        assert(seq![self.quit_byte][0] == self.quit_byte);
                    }
                    if self.opened {
                        Ok(TerminalStep::Send)
                    } else {
                        Ok(TerminalStep::Wait)
                    }
                }
            },
            TerminalEvent::EchoFailed(error) => Err(error.as_str().to_owned()),
        }
    }
}

/// The hint for a remote platform: that for Windows where the platform is named so, in letters of either
/// case.
pub fn locale_hint(platform: &str) -> (hint: &'static str)
    ensures
        hint@ == (if lowered(platform@) == lowered("Windows"@) {
            WINDOWS_HINT@
        } else {
            POSIX_HINT@
        }),
{
    if eq_ignore_ascii_case(platform, "Windows") {
        WINDOWS_HINT
    } else {
        POSIX_HINT
    }
}

// ---------------------------------------------------------------------------
// Laws
// ---------------------------------------------------------------------------

/// A terminal of a given size whose shell has not started.
pub open spec fn terminal_start(cols: u16, rows: u16, quit_key: char) -> Terminal {
    Terminal { opened: false, hinted: false, cols, rows, quit_byte: control_byte(quit_key) }
}

/// A terminal after a sequence of events.
pub open spec fn terminal_after(s: Terminal, events: Seq<TerminalEvent>) -> Terminal
    decreases events.len(),
{
    if events.len() == 0 {
        s
    } else {
        terminal_next(terminal_after(s, events.drop_last()), events.last()).0
    }
}

/// The key that ends a session ends it whatever has happened: Control and the quit letter, in either case.
pub proof fn law_quit_key_quits(
    cols: u16,
    rows: u16,
    quit_key: char,
    events: Seq<TerminalEvent>,
    typed: char,
    alt: bool,
    data: Vec<u8>,
)
    requires
        is_letter(quit_key),
        is_letter(typed),
        lower(typed) == lower(quit_key),
        data@ == key_bytes(Key::Char(typed), true, alt),
    ensures
        ({
            let s = terminal_after(terminal_start(cols, rows, quit_key), events);
            terminal_next(s, TerminalEvent::Typed(data)).1 == Ok::<TerminalStep, Seq<char>>(
                TerminalStep::Quit { close: s.opened },
            )
        }),
{
    lemma_quit_byte_stays(terminal_start(cols, rows, quit_key), events);
}

/// Control and any other letter goes to the remote device once the shell has started: Control-C and
/// Control-D stop and end remote programs, not the session.
pub proof fn law_other_control_keys_are_sent(
    cols: u16,
    rows: u16,
    quit_key: char,
    events: Seq<TerminalEvent>,
    typed: char,
    alt: bool,
    data: Vec<u8>,
)
    requires
        is_letter(quit_key),
        is_letter(typed),
        lower(typed) != lower(quit_key),
        data@ == key_bytes(Key::Char(typed), true, alt),
        terminal_after(terminal_start(cols, rows, quit_key), events).opened,
    ensures
        terminal_next(
            terminal_after(terminal_start(cols, rows, quit_key), events),
            TerminalEvent::Typed(data),
        ).1 == Ok::<TerminalStep, Seq<char>>(TerminalStep::Send),
{
    let s = terminal_after(terminal_start(cols, rows, quit_key), events);
    lemma_quit_byte_stays(terminal_start(cols, rows, quit_key), events);
    assert(data@[0] == control_byte(typed));
    assert(seq![s.quit_byte][0] == control_byte(quit_key));
}

proof fn lemma_quit_byte_stays(s: Terminal, events: Seq<TerminalEvent>)
    ensures
        terminal_after(s, events).quit_byte == s.quit_byte,
    decreases events.len(),
{
    if events.len() > 0 {
        lemma_quit_byte_stays(s, events.drop_last());
    }
}

/// The hint is shown once: after it no sequence of events leads to it again.
pub proof fn law_hint_once(s: Terminal, events: Seq<TerminalEvent>, event: TerminalEvent)
    requires
        s.hinted,
    ensures
        !(terminal_next(terminal_after(s, events), event).1 matches Ok(TerminalStep::Refresh { hint, resize })
            && hint),
{
    lemma_hinted_stays(s, events);
}

proof fn lemma_hinted_stays(s: Terminal, events: Seq<TerminalEvent>)
    requires
        s.hinted,
    ensures
        terminal_after(s, events).hinted,
    decreases events.len(),
{
    if events.len() > 0 {
        lemma_hinted_stays(s, events.drop_last());
    }
}

/// Nothing is sent to a shell that has not started: no keys, no size, no close and nothing to keep the
/// connection alive. The hint waits for the shell, too.
pub proof fn law_nothing_sent_before_the_shell(s: Terminal, event: TerminalEvent)
    requires
        !s.opened,
    ensures
        !(terminal_next(s, event).1 matches Ok(step) && (step is Send || step is Keepalive || step
            == (TerminalStep::Quit { close: true }) || (step matches TerminalStep::Refresh { hint, resize } && (hint
            || resize)))),
{
}

/// After a look at the local terminal the remote device knows its size, once the shell has started.
pub proof fn law_size_is_known(s: Terminal, cols: u16, rows: u16)
    requires
        s.opened,
    ensures
        ({
            let t = terminal_next(s, TerminalEvent::Tick { size: Some((cols, rows)) }).0;
            t.cols == cols && t.rows == rows && t.hinted
        }),
{
}

/// What arrives is shown, and nothing else is: the end of the connection or of the shell is the end of the session,
/// a shell that did not start or reports an error ends it with the device's words, and what cannot be read is
/// passed over. A probe of the delay is sent back exactly where it is not an answer.
pub proof fn law_what_arrives_is_shown(s: Terminal, data: Vec<u8>, words: String, exit_code: i32)
    ensures
        ({
            let heard = |incoming: Incoming| terminal_next(s, TerminalEvent::Incoming(incoming));
            let told = |reply: TerminalReply| heard(Incoming::Message(PeerMessage::Terminal(reply)));
            let over = (s, Ok::<TerminalStep, Seq<char>>(TerminalStep::Over));
            let waits = (s, Ok::<TerminalStep, Seq<char>>(TerminalStep::Wait));
            &&& told(TerminalReply::Data(data)) == (s, Ok::<TerminalStep, Seq<char>>(TerminalStep::Show))
            &&& told(TerminalReply::Closed { exit_code }) == over
            &&& heard(Incoming::Closed) == over && heard(Incoming::StreamError(words)) == over
            &&& heard(Incoming::Malformed(words)) == waits && heard(Incoming::Message(PeerMessage::Other)) == waits
            &&& told(TerminalReply::Error(words)) == (s, Err::<TerminalStep, Seq<char>>("Terminal error: "@ + words@))
            &&& told(TerminalReply::Opened { success: false, message: words }).1 == Err::<TerminalStep, Seq<char>>(
                "Terminal open failed: "@ + words@,
            )
            &&& told(TerminalReply::Opened { success: true, message: words }).1 == waits.1
            &&& told(TerminalReply::Opened { success: true, message: words }).0.opened
            &&& told(TerminalReply::Opened { success: true, message: words }).0.quit_byte == s.quit_byte
            &&& heard(Incoming::Message(PeerMessage::TestDelay { from_client: false })) == (
                s,
                Ok::<TerminalStep, Seq<char>>(TerminalStep::Echo),
            )
            &&& heard(Incoming::Message(PeerMessage::TestDelay { from_client: true })) == waits
        }),
{
}

/// What is typed goes to the shell once that has started, all of it but the one byte that ends the session. The
/// hint is shown at the first look at the local terminal after the shell has started; the remote device is told
/// exactly the sizes that it does not know, and the connection is kept alive.
pub proof fn law_what_is_typed_is_sent(s: Terminal, data: Vec<u8>, cols: u16, rows: u16)
    ensures
        terminal_next(s, TerminalEvent::Typed(data)).0 == s,
        terminal_next(s, TerminalEvent::Typed(data)).1 == Ok::<TerminalStep, Seq<char>>(
            if data@.len() == 0 {
                TerminalStep::Wait
            } else if data@.len() == 1 && data@[0] == s.quit_byte {
                TerminalStep::Quit { close: s.opened }
            } else if s.opened {
                TerminalStep::Send
            } else {
                TerminalStep::Wait
            },
        ),
        s.opened ==> terminal_next(s, TerminalEvent::Keepalive) == (
            s,
            Ok::<TerminalStep, Seq<char>>(TerminalStep::Keepalive),
        ),
        s.opened ==> terminal_next(s, TerminalEvent::Tick { size: Some((cols, rows)) }).1 == Ok::<
            TerminalStep,
            Seq<char>,
        >(TerminalStep::Refresh { hint: !s.hinted, resize: cols != s.cols || rows != s.rows }),
        s.opened ==> terminal_next(s, TerminalEvent::Tick { size: None }).1 == Ok::<TerminalStep, Seq<char>>(
            TerminalStep::Refresh { hint: !s.hinted, resize: false },
        ),
        terminal_next(s, TerminalEvent::Tick { size: None }).0.cols == s.cols && terminal_next(
            s,
            TerminalEvent::Tick { size: None },
        ).0.rows == s.rows,
        !s.opened ==> terminal_next(s, TerminalEvent::Tick { size: Some((cols, rows)) }).0 == s,
        terminal_next(s, TerminalEvent::Tick { size: Some((cols, rows)) }).0.opened == s.opened,
{
    if data@.len() == 1 && data@[0] == s.quit_byte {
        assert(data@ =~= seq![s.quit_byte]);
    } else if data@ == seq![s.quit_byte] {
        assert(seq![s.quit_byte][0] == s.quit_byte);
    }
}

/// A terminal starts with the size that it was given, before its shell, and ends at Control and the quit letter.
pub proof fn law_terminal_starts(cols: u16, rows: u16, quit_key: char)
    requires
        is_letter(quit_key),
    ensures
        ({
            let s = terminal_start(cols, rows, quit_key);
            &&& !s.opened && !s.hinted
            &&& s.cols == cols && s.rows == rows
            &&& 'a' <= quit_key <= 'z' ==> s.quit_byte as int == quit_key as int - 96
            &&& 'A' <= quit_key <= 'Z' ==> s.quit_byte as int == quit_key as int - 64
        }),
{
}

/// A message that is not about the terminal leaves it as it is, whatever the message is.
pub proof fn law_other_messages_leave_the_terminal(s: Terminal, message: PeerMessage)
    requires
        match message {
            PeerMessage::TestDelay { from_client } => from_client,
            PeerMessage::Terminal(reply) => reply is Other,
            _ => true,
        },
    ensures
        terminal_next(s, TerminalEvent::Incoming(Incoming::Message(message))) == (
            s,
            Ok::<TerminalStep, Seq<char>>(TerminalStep::Wait),
        ),
{
}

}
