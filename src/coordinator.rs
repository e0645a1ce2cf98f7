use vstd::prelude::*;
use vstd::string::StringExecFns;

use crate::editor::LineEditor;
use crate::event::{Event, Key};
use crate::text::string_from_chars;

verus! {

/// The input line, as text and cursor position, after one keypress.
///
/// Enter submits the line and empties it, Tab is ignored, any other character
/// is inserted at the cursor; the arrows move the cursor within the line;
/// Backspace and Delete remove the character before and under the cursor.
/// Every other key leaves the line alone.
pub open spec fn line_after_key(text: Seq<char>, pos: nat, k: Key) -> (Seq<char>, nat) {
    match k {
        Key::Char(c) => if c == '\n' {
            (Seq::empty(), 0)
        } else if c == '\t' {
            (text, pos)
        } else {
            (text.insert(pos as int, c), pos + 1)
        },
        Key::Left => (text, if pos == 0 { 0 } else { (pos - 1) as nat }),
        Key::Right => (text, if pos < text.len() { pos + 1 } else { pos }),
        Key::Backspace => if pos > 0 {
            (text.remove(pos - 1), (pos - 1) as nat)
        } else {
            (text, pos)
        },
        Key::Delete => if pos < text.len() {
            (text.remove(pos as int), pos)
        } else {
            (text, pos)
        },
        _ => (text, pos),
    }
}

/// The input line after a sequence of keypresses, in order.
pub open spec fn line_after_keys(text: Seq<char>, pos: nat, keys: Seq<Key>) -> (Seq<char>, nat)
    decreases keys.len(),
{
    if keys.len() == 0 {
        (text, pos)
    } else {
        let prev = line_after_keys(text, pos, keys.drop_last());
        line_after_key(prev.0, prev.1, keys.last())
    }
}

/// `c` was typed as a character key somewhere in `keys`.
pub open spec fn typed(keys: Seq<Key>, c: char) -> bool {
    exists|j: int| 0 <= j < keys.len() && keys[j] == Key::Char(c)
}

/// Whatever keys are pressed, the cursor stays within `0..=line.len()`.
pub proof fn cursor_stays_in_bounds(text: Seq<char>, pos: nat, keys: Seq<Key>)
    requires
        pos <= text.len(),
    ensures
        line_after_keys(text, pos, keys).1 <= line_after_keys(text, pos, keys).0.len(),
    decreases keys.len(),
{
    if keys.len() > 0 {
        cursor_stays_in_bounds(text, pos, keys.drop_last());
    }
}

/// Once a line is submitted, the editor is empty with the cursor at 0, and
/// whatever keys follow, every character on the line was typed after the
/// submission: nothing submitted comes back.
pub proof fn submitted_text_stays_gone(text: Seq<char>, pos: nat, keys: Seq<Key>)
    requires
        pos <= text.len(),
    ensures
        line_after_key(text, pos, Key::Char('\n')) == (Seq::<char>::empty(), 0nat),
        forall|i: int|
            0 <= i < line_after_keys(Seq::empty(), 0, keys).0.len() ==> typed(
                keys,
                #[trigger] line_after_keys(Seq::empty(), 0, keys).0[i],
            ),
    decreases keys.len(),
{
    if keys.len() > 0 {
        let front = keys.drop_last();
        submitted_text_stays_gone(text, pos, front);
        cursor_stays_in_bounds(Seq::empty(), 0, front);
        let prev = line_after_keys(Seq::<char>::empty(), 0, front);
        let cur = line_after_keys(Seq::<char>::empty(), 0, keys);
        assert forall|i: int| 0 <= i < cur.0.len() implies typed(keys, #[trigger] cur.0[i]) by {
            let k = keys.last();
            assert(keys[keys.len() - 1] == k);
            if exists|m: int| 0 <= m < prev.0.len() && prev.0[m] == cur.0[i] {
                let m = choose|m: int| 0 <= m < prev.0.len() && prev.0[m] == cur.0[i];
                assert(typed(front, prev.0[m]));
                let j = choose|j: int| 0 <= j < front.len() && front[j] == Key::Char(prev.0[m]);
                assert(keys[j] == front[j]);
            } else {
                match k {
                    Key::Char(c) => {
                        if c != '\n' && c != '\t' {
                            if i < prev.1 {
                                assert(cur.0[i] == prev.0[i]);
                            } else if i > prev.1 {
                                assert(cur.0[i] == prev.0[i - 1]);
                            }
                        }
                    },
                    Key::Backspace => {
                        if prev.1 > 0 {
                            if i < prev.1 - 1 {
                                assert(cur.0[i] == prev.0[i]);
                            } else {
                                assert(cur.0[i] == prev.0[i + 1]);
                            }
                        }
                    },
                    Key::Delete => {
                        if prev.1 < prev.0.len() {
                            if i < prev.1 {
                                assert(cur.0[i] == prev.0[i]);
                            } else {
                                assert(cur.0[i] == prev.0[i + 1]);
                            }
                        }
                    },
                    _ => {
                        assert(cur.0[i] == prev.0[i]);
                    },
                }
            }
        }
    }
}

/// Two messages from the device reach the transcript in the order in which
/// they arrived, each whole.
pub proof fn messages_keep_their_order(t: Seq<char>, a: String, b: String)
    ensures
        transcript_after(transcript_after(t, Event::Message(a)), Event::Message(b)) == t + a@ + b@,
{
}

/// The transcript after one event: inbound text is appended, Ctrl-L clears it,
/// nothing else touches it.
pub open spec fn transcript_after(t: Seq<char>, ev: Event) -> Seq<char> {
    match ev {
        Event::Message(s) => t + s@,
        Event::KeyInput(Key::Ctrl(c)) => if c == 'l' {
            Seq::empty()
        } else {
            t
        },
        _ => t,
    }
}

/// `o` is an outbound `Message` whose text is `t`.
pub open spec fn carries_message(o: Option<Event>, t: Seq<char>) -> bool {
    match o {
        Some(Event::Message(s)) => s@ == t,
        _ => false,
    }
}

/// What the event loop does after the coordinator has handled one event.
pub struct Reaction {
    /// The event to publish to the transport worker, if any.
    pub outbound: Option<Event>,
    /// Whether the event loop ends here; otherwise it redraws and goes on.
    pub stop: bool,
}

/// The state that the user interface shows: the input line and the transcript
/// of what the device sent.
pub struct Coordinator {
    editor: LineEditor,
    transcript: String,
}

impl Coordinator {
    pub closed spec fn line(&self) -> Seq<char> {
        self.editor.text()
    }

    pub closed spec fn pos(&self) -> nat {
        self.editor.pos()
    }

    pub closed spec fn log(&self) -> Seq<char> {
        self.transcript@
    }

    pub open spec fn wf(&self) -> bool {
        self.pos() <= self.line().len()
    }

    /// Empty input line, cursor at 0, empty transcript.
    pub fn new() -> (r: Self)
        ensures
            r.wf(),
            r.line() == Seq::<char>::empty(),
            r.pos() == 0,
            r.log() == Seq::<char>::empty(),
    {
        Coordinator { editor: LineEditor::new(), transcript: String::new() }
    }

    /// The input line, for inspection.
    pub fn editor(&self) -> (r: &LineEditor)
        ensures
            r.text() == self.line(),
            r.pos() == self.pos(),
    {
        &self.editor
    }

    /// The transcript of text received so far.
    pub fn transcript(&self) -> (r: &String)
        ensures
            r@ == self.log(),
    {
        &self.transcript
    }

    /// The input line as displayed, with the cursor cell highlighted.
    pub fn input_with_cursor(&self) -> (r: String)
        requires
            self.wf(),
        ensures
            r@ == crate::editor::marked_line(self.line(), self.pos()),
    {
        let v = self.editor.display_chars();
        string_from_chars(&v)
    }

    /// Handles one event of the merged inbound stream.
    ///
    /// Keys edit the input line; Enter hands the line out as an outbound
    /// `Message`; Escape publishes `ClosePort` and ends the loop. Text from the
    /// device is appended to the transcript, Ctrl-L clears it, and an inbound
    /// `ClosePort` is ignored.
    pub fn handle(&mut self, ev: Event) -> (r: Reaction)
        requires
            old(self).wf(),
        ensures
            final(self).wf(),
            r.stop <==> ev == Event::KeyInput(Key::Esc),
            r.stop ==> r.outbound == Some(Event::ClosePort) && *final(self) == *old(self),
            !r.stop ==> ({
                &&& (final(self).line(), final(self).pos()) == match ev {
                    Event::KeyInput(k) => line_after_key(old(self).line(), old(self).pos(), k),
                    _ => (old(self).line(), old(self).pos()),
                }
                &&& final(self).log() == transcript_after(old(self).log(), ev)
                &&& if ev == Event::KeyInput(Key::Char('\n')) {
                    carries_message(r.outbound, old(self).line())
                } else {
                    r.outbound is None
                }
            }),
    {
        match ev {
            Event::KeyInput(k) => match k {
                Key::Esc => Reaction { outbound: Some(Event::ClosePort), stop: true },
                Key::Left => {
                    self.editor.move_left();
                    Reaction { outbound: None, stop: false }
                },
                Key::Right => {
                    self.editor.move_right();
                    Reaction { outbound: None, stop: false }
                },
                Key::Backspace => {
                    self.editor.delete_before();
                    Reaction { outbound: None, stop: false }
                },
                Key::Delete => {
                    self.editor.delete_at();
                    Reaction { outbound: None, stop: false }
                },
                Key::Char(c) => {
                    if c == '\n' {
                        let line = self.editor.take_line();
                        let text = string_from_chars(&line);
                        Reaction { outbound: Some(Event::Message(text)), stop: false }
                    } else {
                        if c != '\t' {
                            self.editor.insert(c);
                        }
                        Reaction { outbound: None, stop: false }
                    }
                },
                Key::Ctrl(c) => {
                    if c == 'l' {
                        self.transcript = String::new();
                    }
                    Reaction { outbound: None, stop: false }
                },
                Key::Other => Reaction { outbound: None, stop: false },
            },
            Event::Message(s) => {
                self.transcript.append(s.as_str());
                Reaction { outbound: None, stop: false }
            },
            Event::ClosePort => Reaction { outbound: None, stop: false },
        }
    }
}

} // verus!
