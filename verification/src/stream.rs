//! Turning the output of a running program into log lines: the output comes in
//! chunks, a line feed ends a line, and a carriage return that no line feed
//! follows throws away what the line held so far, as programs do that redraw a
//! progress bar.

use crate::channel::EventSender;
use crate::model::{EventView, InstallerEvent};
use crate::sanitize::{decode_lossy, sanitize_log_line, sanitized, shown_text};
use crate::text::{from_chars, to_chars};
use vstd::prelude::*;

verus! {

/// The state between two characters of output.
pub struct AssemblerView {
    /// The characters of the line that is being read.
    pub line: Seq<char>,
    /// Whether the last character was a carriage return.
    pub pending_cr: bool,
}

/// The state before any output.
pub open spec fn start() -> AssemblerView {
    AssemblerView { line: Seq::empty(), pending_cr: false }
}

/// The state after `ch` is read in state `st`.
pub open spec fn after_char(st: AssemblerView, ch: char) -> AssemblerView {
    let line = if st.pending_cr {
        Seq::empty()
    } else {
        st.line
    };
    if ch == '\n' {
        start()
    } else if ch == '\r' {
        AssemblerView { line, pending_cr: true }
    } else {
        AssemblerView { line: line.push(ch), pending_cr: false }
    }
}

/// The line that `ch` completes when read in state `st`, if it completes one.
pub open spec fn completed(st: AssemblerView, ch: char) -> Option<Seq<char>> {
    if ch == '\n' {
        Some(st.line)
    } else {
        None
    }
}

/// The log events that a completed line gives: one with the sanitized line,
/// or none where nothing is left of it.
pub open spec fn line_events(raw: Seq<char>) -> Seq<EventView> {
    if sanitized(raw).len() > 0 {
        seq![EventView::Log(sanitized(raw))]
    } else {
        Seq::empty()
    }
}

/// The log events that reading `s` in state `st` gives.
pub open spec fn fed_events(st: AssemblerView, s: Seq<char>) -> Seq<EventView>
    decreases s.len(),
{
    if s.len() == 0 {
        Seq::empty()
    } else {
        (match completed(st, s[0]) {
            Some(raw) => line_events(raw),
            None => Seq::empty(),
        }) + fed_events(after_char(st, s[0]), s.skip(1))
    }
}

/// The state after reading `s` in state `st`.
pub open spec fn fed_state(st: AssemblerView, s: Seq<char>) -> AssemblerView
    decreases s.len(),
{
    if s.len() == 0 {
        st
    } else {
        fed_state(after_char(st, s[0]), s.skip(1))
    }
}

/// Reading `a` and then `b` gives the events of `a`, then those of `b` read in
/// the state in which `a` ended.
pub proof fn lemma_fed_concat(st: AssemblerView, a: Seq<char>, b: Seq<char>)
    ensures
        fed_events(st, a + b) == fed_events(st, a) + fed_events(fed_state(st, a), b),
        fed_state(st, a + b) == fed_state(fed_state(st, a), b),
    decreases a.len(),
{
    if a.len() != 0 {
        let st2 = after_char(st, a[0]);
        lemma_fed_concat(st2, a.skip(1), b);
        assert((a + b).skip(1) =~= a.skip(1) + b);
    }
}

/// Puts the output of a program together into lines and reports each as a log event.
pub struct LineAssembler {
    line: Vec<char>,
    pending_cr: bool,
}

impl View for LineAssembler {
    type V = AssemblerView;

    closed spec fn view(&self) -> AssemblerView {
        AssemblerView { line: self.line@, pending_cr: self.pending_cr }
    }
}

impl LineAssembler {
    /// An assembler that has read nothing.
    pub fn new() -> (a: LineAssembler)
        ensures
            a@ == start(),
    {
        LineAssembler { line: Vec::new(), pending_cr: false }
    }

    fn emit(&self, tx: &mut EventSender)
        ensures
            final(tx).offered() == old(tx).offered() + line_events(self@.line),
    {
        let raw = from_chars(&self.line);
        let shown = sanitize_log_line(raw.as_str());
        if !shown.as_str().is_empty() {
            tx.send(InstallerEvent::Log(shown));
        }
    }

    /// Reads a chunk of output and reports the lines that it completes.
    pub fn feed(&mut self, chunk: &str, tx: &mut EventSender)
        ensures
            final(self)@ == fed_state(old(self)@, chunk@),
            final(tx).offered() == old(tx).offered() + fed_events(old(self)@, chunk@),
    {
        let chars = to_chars(chunk);
        let mut i: usize = 0;
        proof {
            assert(chars@.skip(0) =~= chars@);
        }
        while i < chars.len()
            invariant
                i <= chars.len(),
                chars@ == chunk@,
                fed_state(self@, chars@.skip(i as int)) == fed_state(old(self)@, chunk@),
                tx.offered() + fed_events(self@, chars@.skip(i as int)) == old(tx).offered()
                    + fed_events(old(self)@, chunk@),
            decreases chars.len() - i,
        {
            let ch = chars[i];
            let ghost rest = chars@.skip(i as int);
            proof {
                assert(rest.skip(1) =~= chars@.skip(i + 1));
            }
            if ch == '\n' {
                self.emit(tx);
                self.line = Vec::new();
                self.pending_cr = false;
            } else {
                if self.pending_cr {
                    self.line = Vec::new();
                    self.pending_cr = false;
                }
                if ch == '\r' {
                    self.pending_cr = true;
                } else {
                    self.line.push(ch);
                }
            }
            i += 1;
        }
    }

    /// Reads a chunk of output as bytes, decoded as `shown_text` says.
    pub fn feed_bytes(&mut self, chunk: &[u8], tx: &mut EventSender)
        ensures
            final(self)@ == fed_state(old(self)@, shown_text(chunk@)),
            final(tx).offered() == old(tx).offered() + fed_events(old(self)@, shown_text(chunk@)),
    {
        let text = decode_lossy(chunk);
        self.feed(text.as_str(), tx);
    }

    /// Reports what is left when the output has ended, as a last line.
    pub fn finish(self, tx: &mut EventSender)
        ensures
            final(tx).offered() == old(tx).offered() + line_events(self@.line),
    {
        self.emit(tx);
    }
}

} // verus!
