//! The dispatch pipeline and its state.
//!
//! A [`ConsoleState`] bundles the three pieces of shared state the
//! pipeline touches: the pending-input slot (last-write-wins within a
//! tick), the append-only [`OutputSink`], and the [`Registry`] of
//! declared commands. One call of [`ConsoleState::tick`] runs the whole
//! per-submission sequence for one command type: echo the line, tokenize,
//! match and parse, and either hand the typed command value out or append
//! one error line. What a run appends and dispatches is pinned down, per
//! raw line, by [`pipeline_output`] and [`pipeline_dispatch`]: a run
//! depends on nothing but the submitted line, so resubmitting a line
//! always repeats the outcome.

use vstd::prelude::*;

use crate::command::{match_and_parse, matches_first, ConsoleCommand, DescriptorView};
use crate::errors::ConsoleError;
use crate::registry::{fresh_in, Registry};
use crate::tokenizer::{tokenize, tokenize_spec};

verus! {

/// One raw line submitted by the operator.
pub struct ConsoleInputEvent(pub String);

impl View for ConsoleInputEvent {
    type V = Seq<char>;

    open spec fn view(&self) -> Seq<char> {
        self.0@
    }
}

/// One line of the scrollback log.
pub struct ConsoleOutputEvent(pub String);

impl View for ConsoleOutputEvent {
    type V = Seq<char>;

    open spec fn view(&self) -> Seq<char> {
        self.0@
    }
}

/// The append-only line log that echoed input and errors are written to.
/// Insertion order is the only ordering; nothing is ever removed.
pub struct OutputSink {
    lines: Vec<ConsoleOutputEvent>,
}

impl View for OutputSink {
    type V = Seq<Seq<char>>;

    closed spec fn view(&self) -> Seq<Seq<char>> {
        Seq::new(self.lines@.len(), |i: int| self.lines@[i]@)
    }
}

impl OutputSink {
    /// An empty log.
    pub fn new() -> (s: OutputSink)
        ensures
            s@ == Seq::<Seq<char>>::empty(),
    {
        let s = OutputSink { lines: Vec::new() };
        proof {
            assert(s@ =~= Seq::<Seq<char>>::empty());
        }
        s
    }

    /// Appends one line; everything already logged stays as it was.
    pub fn append(&mut self, line: ConsoleOutputEvent)
        ensures
            final(self)@ == old(self)@.push(line@),
    {
        let ghost pre = self@;
        self.lines.push(line);
        proof {
            assert(self@ =~= pre.push(line@));
        }
    }

    /// The logged lines, oldest first, for rendering.
    pub fn snapshot(&self) -> (lines: &Vec<ConsoleOutputEvent>)
        ensures
            lines@.len() == self@.len(),
            forall|i: int| 0 <= i < self@.len() ==> #[trigger] lines@[i]@ == self@[i],
    {
        &self.lines
    }
}

/// The echo of a submitted line: `"$ "` then the line itself.
pub open spec fn echo_line(line: Seq<char>) -> Seq<char> {
    seq!['$', ' '] + line
}

/// The marker every reported error line starts with.
pub open spec fn error_prefix() -> Seq<char> {
    seq!['>', '>', ' ']
}

/// An error report: `">> "` then the message.
pub open spec fn error_line(msg: Seq<char>) -> Seq<char> {
    error_prefix() + msg
}

/// The command value one pipeline run over `line` dispatches for the
/// command type `T`: the parsed value when the line tokenizes, its first
/// token names `T`, and the tokens fit `T`'s schema; nothing otherwise.
pub open spec fn pipeline_dispatch<T: ConsoleCommand>(line: Seq<char>) -> Option<T> {
    match tokenize_spec(line) {
        Some(toks) => if matches_first::<T>(toks) {
            match T::spec_parse(toks) {
                Ok(v) => Some(v),
                Err(_) => None,
            }
        } else {
            None
        },
        None => None,
    }
}

/// The lines one pipeline run over `line` appends to the log: always the
/// echo first; then one error line on mismatched quotes or on a schema
/// violation of a matching command. A blank line and a line naming some
/// other command add nothing beyond the echo.
pub open spec fn pipeline_output<T: ConsoleCommand>(line: Seq<char>) -> Seq<Seq<char>> {
    match tokenize_spec(line) {
        Some(toks) => if matches_first::<T>(toks) {
            match T::spec_parse(toks) {
                Ok(_) => seq![echo_line(line)],
                Err(m) => seq![echo_line(line), error_line(m)],
            }
        } else {
            seq![echo_line(line)]
        },
        None => seq![
            echo_line(line),
            error_line(ConsoleError::MismatchedQuotes.spec_message()),
        ],
    }
}

/// The state one console threads through its ticks: the registry of
/// declared commands, the pending-input slot, and the output sink.
pub struct ConsoleState {
    pending: Option<String>,
    sink: OutputSink,
    registry: Registry,
}

impl ConsoleState {
    /// The line submitted since the last tick, if any.
    pub closed spec fn spec_pending(self) -> Option<Seq<char>> {
        match self.pending {
            Some(l) => Some(l@),
            None => None,
        }
    }

    /// The scrollback log so far.
    pub closed spec fn spec_output(self) -> Seq<Seq<char>> {
        self.sink@
    }

    /// The descriptors registered so far.
    pub closed spec fn spec_registered(self) -> Seq<DescriptorView> {
        self.registry@
    }

    /// The registry claims every name and alias at most once.
    pub closed spec fn wf(self) -> bool {
        self.registry.wf()
    }

    /// A console with no pending input, an empty log, and no commands.
    pub fn new() -> (c: ConsoleState)
        ensures
            c.spec_pending() is None,
            c.spec_output() == Seq::<Seq<char>>::empty(),
            c.spec_registered() == Seq::<DescriptorView>::empty(),
            c.wf(),
    {
        ConsoleState { pending: None, sink: OutputSink::new(), registry: Registry::new() }
    }

    /// Declares the command type `T`, refusing a name or alias already
    /// claimed. Success if and only if `T`'s descriptor is fresh.
    pub fn register_command<T: ConsoleCommand>(&mut self) -> (r: Result<(), ConsoleError>)
        requires
            old(self).wf(),
        ensures
            final(self).wf(),
            r is Ok <==> fresh_in(T::spec_descriptor(), old(self).spec_registered()),
            r is Ok ==> final(self).spec_registered() == old(self).spec_registered().push(
                T::spec_descriptor(),
            ),
            r is Err ==> final(self).spec_registered() == old(self).spec_registered() && r
                == Err::<(), ConsoleError>(ConsoleError::DuplicateName),
            final(self).spec_pending() == old(self).spec_pending(),
            final(self).spec_output() == old(self).spec_output(),
    {
        self.registry.register(T::descriptor())
    }

    /// Takes `ev` as the line the next tick will process, dropping any
    /// line submitted earlier in the same tick: last write wins.
    pub fn submit(&mut self, ev: ConsoleInputEvent)
        ensures
            final(self).spec_pending() == Some(ev@),
            final(self).spec_output() == old(self).spec_output(),
            final(self).spec_registered() == old(self).spec_registered(),
            final(self).wf() == old(self).wf(),
    {
        self.pending = Some(ev.0);
    }

    /// Appends one `">> "`-prefixed report of `e` to the log.
    fn emit_error(&mut self, e: &ConsoleError)
        ensures
            final(self).spec_output() == old(self).spec_output().push(
                error_line(e.spec_message()),
            ),
            final(self).spec_pending() == old(self).spec_pending(),
            final(self).spec_registered() == old(self).spec_registered(),
            final(self).wf() == old(self).wf(),
    {
        let mut text = String::from_str(">> ");
        proof {
            reveal_strlit(">> ");
            assert(">> "@ =~= error_prefix());
        }
        let msg = e.message();
        text.append(msg.as_str());
        self.sink.append(ConsoleOutputEvent(text));
    }

    /// Runs the per-submission stages every pipeline instance shares:
    /// consumes the pending line, logs its echo first whatever follows,
    /// and tokenizes it. Mismatched quotes are reported with one error
    /// line; the tokens come back when there is matching left to do —
    /// a line was pending and its tokens are not empty.
    pub fn begin_tick(&mut self) -> (r: Option<Vec<String>>)
        ensures
            final(self).spec_pending() is None,
            final(self).spec_registered() == old(self).spec_registered(),
            final(self).wf() == old(self).wf(),
            match old(self).spec_pending() {
                None => r is None && final(self).spec_output() == old(self).spec_output(),
                Some(line) => match tokenize_spec(line) {
                    None => r is None && final(self).spec_output() == old(self).spec_output().push(
                        echo_line(line),
                    ).push(error_line(ConsoleError::MismatchedQuotes.spec_message())),
                    Some(toks) => final(self).spec_output() == old(self).spec_output().push(
                        echo_line(line),
                    ) && if toks.len() == 0 {
                        r is None
                    } else {
                        r matches Some(v) && v.deep_view() == toks
                    },
                },
            },
    {
        let p = self.pending.take();
        let line = match p {
            None => {
                return None;
            },
            Some(line) => line,
        };
        let ghost line_view = line@;
        let ghost pre_output = self.spec_output();
        let mut echo = String::from_str("$ ");
        proof {
            reveal_strlit("$ ");
            assert("$ "@ =~= seq!['$', ' ']);
        }
        echo.append(line.as_str());
        self.sink.append(ConsoleOutputEvent(echo));
        proof {
            assert(self.spec_output() =~= pre_output.push(echo_line(line_view)));
        }
        let toks = match tokenize(line.as_str()) {
            Err(e) => {
                self.emit_error(&e);
                return None;
            },
            Ok(toks) => toks,
        };
        if toks.len() == 0 {
            return None;
        }
        Some(toks)
    }

    /// Runs the matching stage of one pipeline instance over tokens that
    /// [`Self::begin_tick`] handed out: the parsed command value when the
    /// first token names `T` and the tokens fit `T`'s schema; one error
    /// line when they do not; silence — so that another instance may
    /// claim the same tokens — when the first token names something else.
    pub fn try_dispatch<T: ConsoleCommand>(&mut self, tokens: &Vec<String>) -> (dispatched: Option<
        T,
    >)
        ensures
            final(self).spec_pending() == old(self).spec_pending(),
            final(self).spec_registered() == old(self).spec_registered(),
            final(self).wf() == old(self).wf(),
            ({
                let toks = tokens.deep_view();
                if matches_first::<T>(toks) {
                    match T::spec_parse(toks) {
                        Ok(v) => dispatched == Some(v) && final(self).spec_output() == old(
                            self,
                        ).spec_output(),
                        Err(m) => dispatched is None && final(self).spec_output() == old(
                            self,
                        ).spec_output().push(error_line(m)),
                    }
                } else {
                    dispatched is None && final(self).spec_output() == old(self).spec_output()
                }
            }),
    {
        match match_and_parse::<T>(tokens) {
            Ok(v) => Some(v),
            Err(e) => {
                let silent = match &e {
                    ConsoleError::NoMatch => true,
                    _ => false,
                };
                if !silent {
                    self.emit_error(&e);
                }
                None
            },
        }
    }

    /// Runs one whole tick of the pipeline for the command type `T`.
    ///
    /// With no pending line this is a no-op. Otherwise the pending line
    /// is consumed, and the run appends exactly [`pipeline_output`] of
    /// the line and hands out exactly [`pipeline_dispatch`] of it: the
    /// typed command value on a match that parses; no dispatch and one
    /// error line on mismatched quotes or a schema violation; no dispatch
    /// and no further output on a blank line or a first token naming some
    /// other command.
    pub fn tick<T: ConsoleCommand>(&mut self) -> (dispatched: Option<T>)
        ensures
            final(self).spec_pending() is None,
            final(self).spec_registered() == old(self).spec_registered(),
            final(self).wf() == old(self).wf(),
            match old(self).spec_pending() {
                Some(line) => final(self).spec_output() == old(self).spec_output()
                    + pipeline_output::<T>(line) && dispatched == pipeline_dispatch::<T>(line),
                None => final(self).spec_output() == old(self).spec_output() && dispatched
                    is None,
            },
    {
        let ghost pre_output = self.spec_output();
        let ghost pending = self.spec_pending();
        let tokens = match self.begin_tick() {
            None => {
                proof {
                    if pending is Some {
                        let l = pending->Some_0;
                        assert(self.spec_output() =~= pre_output + pipeline_output::<T>(l));
                    }
                }
                return None;
            },
            Some(tokens) => tokens,
        };
        let d = self.try_dispatch::<T>(&tokens);
        proof {
            let line = pending->Some_0;
            assert(self.spec_output() =~= pre_output + pipeline_output::<T>(line));
        }
        d
    }

    /// The logged lines, oldest first, for rendering.
    pub fn output(&self) -> (lines: &Vec<ConsoleOutputEvent>)
        ensures
            lines@.len() == self.spec_output().len(),
            forall|i: int|
                0 <= i < self.spec_output().len() ==> #[trigger] lines@[i]@
                    == self.spec_output()[i],
    {
        self.sink.snapshot()
    }
}

/// Registers command types into a console-like value, validating that no
/// name or alias is claimed twice.
pub trait AddCommand {
    /// The descriptors registered so far.
    spec fn registered(&self) -> Seq<DescriptorView>;

    /// No two registered descriptors claim a common token.
    spec fn registered_wf(&self) -> bool;

    /// Declares the command type `T`; a collision with an earlier
    /// registration changes nothing and reports `DuplicateName`.
    fn add_command<T: ConsoleCommand>(&mut self) -> (r: Result<(), ConsoleError>)
        requires
            old(self).registered_wf(),
        ensures
            final(self).registered_wf(),
            r is Ok <==> fresh_in(T::spec_descriptor(), old(self).registered()),
            r is Ok ==> final(self).registered() == old(self).registered().push(
                T::spec_descriptor(),
            ),
            r is Err ==> final(self).registered() == old(self).registered() && r == Err::<
                (),
                ConsoleError,
            >(ConsoleError::DuplicateName),
    ;
}

impl AddCommand for ConsoleState {
    open spec fn registered(&self) -> Seq<DescriptorView> {
        self.spec_registered()
    }

    open spec fn registered_wf(&self) -> bool {
        self.wf()
    }

    fn add_command<T: ConsoleCommand>(&mut self) -> (r: Result<(), ConsoleError>) {
        self.register_command::<T>()
    }
}

/// A run over a line that tokenizes, matches `T`, and fits its schema
/// dispatches the parsed command value and appends nothing but the echo
/// — no error line. Both the dispatch and the appended output are
/// functions of the line alone, so resubmitting the same line in a later
/// tick repeats them exactly: no state leaks from one run into the next.
pub proof fn lemma_valid_line_dispatches_cleanly<T: ConsoleCommand>(line: Seq<char>)
    requires
        tokenize_spec(line) matches Some(toks) && matches_first::<T>(toks) && T::spec_parse(
            toks,
        ) is Ok,
    ensures
        pipeline_dispatch::<T>(line) == Some(
            T::spec_parse(tokenize_spec(line)->Some_0)->Ok_0,
        ),
        pipeline_output::<T>(line) == seq![echo_line(line)],
{
}

/// One pipeline run echoes exactly one line and reports at most one
/// error: its output is the echo alone, or the echo and then one line
/// starting with `">> "`.
pub proof fn lemma_pipeline_output_shape<T: ConsoleCommand>(line: Seq<char>)
    ensures
        1 <= pipeline_output::<T>(line).len() <= 2,
        pipeline_output::<T>(line)[0] == echo_line(line),
        pipeline_output::<T>(line).len() == 2 ==> pipeline_output::<T>(line)[1].take(3)
            == error_prefix(),
{
    let out = pipeline_output::<T>(line);
    if out.len() == 2 {
        assert(out[1].take(3) =~= error_prefix());
    }
}

} // verus!
