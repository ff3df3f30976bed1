//! The lines of a dialogue and the typewriter that shows them.

use vstd::prelude::*;
use opentelemetry::Context;

verus! {

/// A dialogue as it is stored.
#[derive(Debug)]
pub struct DialogueData {
    pub speaker: String,
    pub portrait: Option<String>,
    pub lines: Vec<String>,
}

/// The request to start a dialogue. It carries the context of the span that
/// caused it, so that the dialogue's span starts under the right parent
/// whenever the request is handled.
pub struct StartDialogueEvent {
    pub speaker: String,
    pub portrait: Option<String>,
    pub lines: Vec<String>,
    pub parent_context: Context,
}

/// The lines of the dialogue that is being read, and which one is shown.
#[derive(Debug)]
pub struct DialogueQueue {
    pub speaker: String,
    pub portrait: Option<String>,
    pub lines: Vec<String>,
    pub current_line: usize,
}

impl DialogueQueue {
    /// No line is left to show.
    pub open spec fn complete(self) -> bool {
        self.current_line >= self.lines@.len()
    }

    /// A queue that shows the first of `lines`.
    pub fn new(speaker: String, portrait: Option<String>, lines: Vec<String>) -> (q: DialogueQueue)
        ensures
            q.speaker == speaker,
            q.portrait == portrait,
            q.lines == lines,
            q.current_line == 0,
    {
        DialogueQueue { speaker, portrait, lines, current_line: 0 }
    }

    /// The line that is shown, if one is left.
    pub fn current_text(&self) -> (text: Option<String>)
        ensures
            text is Some <==> !self.complete(),
            text is Some ==> text->0 == self.lines@[self.current_line as int],
    {
        if self.current_line < self.lines.len() {
            Some(self.lines[self.current_line].clone())
        } else {
            None
        }
    }

    /// Goes on to the next line and says whether there is one. Past the last
    /// line the queue stays where it is.
    pub fn advance(&mut self) -> (more: bool)
        ensures
            final(self).speaker == old(self).speaker,
            final(self).portrait == old(self).portrait,
            final(self).lines == old(self).lines,
            final(self).current_line == if old(self).complete() {
                old(self).current_line as int
            } else {
                old(self).current_line + 1
            },
            more == !final(self).complete(),
    {
        if self.current_line < self.lines.len() {
            self.current_line = self.current_line + 1;
        }
        self.current_line < self.lines.len()
    }

    /// Whether nothing is left to show.
    pub fn is_complete(&self) -> (c: bool)
        ensures
            c == self.complete(),
    {
        self.current_line >= self.lines.len()
    }
}

/// A line that appears one character at a time.
#[derive(Debug)]
pub struct Typewriter {
    pub full_text: String,
    pub current_index: usize,
}

/// What one tick of the typewriter did.
#[derive(Clone, Copy, Debug, PartialEq, Eq, Structural)]
pub struct Typed {
    /// The character that appeared, if one did.
    pub typed: Option<char>,
    /// The line became complete in this tick.
    pub line_completed: bool,
}

impl Typewriter {
    /// Every character of the line is shown.
    pub open spec fn complete(self) -> bool {
        self.current_index >= self.full_text@.len()
    }

    /// The part of the line that is shown.
    pub open spec fn shown(self) -> Seq<char> {
        if self.complete() {
            self.full_text@
        } else {
            self.full_text@.take(self.current_index as int)
        }
    }

    /// A typewriter that has shown nothing of `text` yet.
    pub fn new(text: String) -> (t: Typewriter)
        ensures
            t.full_text == text,
            t.current_index == 0,
    {
        Typewriter { full_text: text, current_index: 0 }
    }

    /// Whether nothing is left to show.
    pub fn is_complete(&self) -> (c: bool)
        ensures
            c == self.complete(),
    {
        self.current_index >= self.full_text.as_str().unicode_len()
    }

    /// Shows the whole line at once.
    pub fn skip_to_end(&mut self)
        ensures
            final(self).full_text == old(self).full_text,
            final(self).complete(),
            final(self).current_index == if old(self).complete() {
                old(self).current_index as nat
            } else {
                old(self).full_text@.len()
            },
    {
        let n = self.full_text.as_str().unicode_len();
        if self.current_index < n {
            self.current_index = n;
        }
    }

    /// The text that is shown.
    pub fn shown_text(&self) -> (s: String)
        ensures
            s@ == self.shown(),
    {
        let text = self.full_text.as_str();
        let n = text.unicode_len();
        if self.current_index >= n {
            String::from_str(text)
        } else {
            String::from_str(text.substring_char(0, self.current_index))
        }
    }

    /// One tick. A complete line stays as it is. On an incomplete line the
    /// next character appears if the timer has run out, and the line is
    /// completed in this tick if that was its last character.
    pub fn tick(&mut self, timer_finished: bool) -> (t: Typed)
        ensures
            final(self).full_text == old(self).full_text,
            old(self).complete() || !timer_finished ==> *final(self) == *old(self) && t == (Typed {
                typed: None,
                line_completed: false,
            }),
            !old(self).complete() && timer_finished ==> {
                &&& final(self).current_index == old(self).current_index + 1
                &&& t.typed == Some(old(self).full_text@[old(self).current_index as int])
                &&& t.line_completed == final(self).complete()
                &&& final(self).shown() == old(self).shown().push(t.typed->0)
            },
    {
        let n = self.full_text.as_str().unicode_len();
        if self.current_index >= n || !timer_finished {
            return Typed { typed: None, line_completed: false };
        }
        let c = self.full_text.as_str().get_char(self.current_index);
        self.current_index = self.current_index + 1;
        proof {
            let s = old(self).full_text@;
            let i = old(self).current_index as int;
            assert(s.take(i + 1) =~= s.take(i).push(s[i]));
            assert(s.take(s.len() as int) =~= s);
        }
        Typed { typed: Some(c), line_completed: self.current_index >= n }
    }
}

/// What a press of the advance key did.
#[derive(Clone, Copy, Debug, PartialEq, Eq, Structural)]
pub enum AdvanceOutcome {
    /// The line was still appearing: it is now shown in full.
    Revealed,
    /// The next line begins to appear.
    NextLine,
    /// No line is left: the dialogue is over.
    Finished,
}

/// A press of the advance key: an incomplete line is shown in full; a
/// complete one gives way to the next line, or ends the dialogue if it was
/// the last.
pub fn advance_dialogue(queue: &mut DialogueQueue, typewriter: &mut Typewriter) -> (outcome:
    AdvanceOutcome)
    ensures
        final(queue).speaker == old(queue).speaker,
        final(queue).portrait == old(queue).portrait,
        final(queue).lines == old(queue).lines,
        !old(typewriter).complete() ==> {
            &&& outcome == AdvanceOutcome::Revealed
            &&& *final(queue) == *old(queue)
            &&& final(typewriter).full_text == old(typewriter).full_text
            &&& final(typewriter).complete()
        },
        old(typewriter).complete() && old(queue).current_line + 1 < old(queue).lines@.len() ==> {
            &&& outcome == AdvanceOutcome::NextLine
            &&& final(queue).current_line == old(queue).current_line + 1
            &&& final(typewriter).full_text == old(queue).lines@[old(queue).current_line + 1]
            &&& final(typewriter).current_index == 0
        },
        old(typewriter).complete() && old(queue).current_line + 1 >= old(queue).lines@.len() ==> {
            &&& outcome == AdvanceOutcome::Finished
            &&& final(queue).complete()
            &&& *final(typewriter) == *old(typewriter)
        },
{
    if !typewriter.is_complete() {
        typewriter.skip_to_end();
        return AdvanceOutcome::Revealed;
    }
    if queue.advance() {
        match queue.current_text() {
            Some(next_text) => {
                *typewriter = Typewriter::new(next_text);
                AdvanceOutcome::NextLine
            },
            None => AdvanceOutcome::Finished,
        }
    } else {
        AdvanceOutcome::Finished
    }
}

} // verus!
