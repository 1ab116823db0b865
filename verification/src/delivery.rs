//! The steps by which one record, or one flush, reaches the device.
//!
//! The sink never touches the device. It hands out a [`Delivery`], which names
//! one command at a time; whoever owns the device carries the command out and
//! reports what came of it. The order of the commands, and what follows each
//! outcome, is decided here.
//!
//! A delivery is best effort, and that is intended. Logging is a diagnostic:
//! the program that logs must not fail, wait or change its course because a
//! line could not be written. So a write that fails or comes short is not
//! tried again, a flush that fails is let be, a poisoned lock means that this
//! record is skipped, and none of it is reported to the caller. This is unlike
//! registration, whose failure is reported: there the caller can still choose
//! another logger.

use vstd::prelude::*;

verus! {

/// What the owner of the device is asked to do next.
#[derive(Clone, Copy, Debug, PartialEq, Eq)]
pub enum Command<'a> {
    /// Take the lock that guards the device.
    Lock,
    /// Write these bytes to the device, in one call.
    Write(&'a [u8]),
    /// Flush the device.
    Flush,
    /// Give the lock back.
    Unlock,
}

/// A command with its bytes as a sequence.
pub enum CommandView {
    Lock,
    Write(Seq<u8>),
    Flush,
    Unlock,
}

impl<'a> View for Command<'a> {
    type V = CommandView;

    open spec fn view(&self) -> CommandView {
        match *self {
            Command::Lock => CommandView::Lock,
            Command::Write(bytes) => CommandView::Write(bytes@),
            Command::Flush => CommandView::Flush,
            Command::Unlock => CommandView::Unlock,
        }
    }
}

/// What came of a command.
#[derive(Clone, Copy, Debug, PartialEq, Eq, Structural)]
pub enum Outcome {
    /// The command was carried out in full.
    Done,
    /// The device took only this many of the bytes it was given.
    Partial(usize),
    /// The command failed: the lock is poisoned, or the device reported an
    /// error.
    Failed,
}

/// How far a delivery has come.
pub enum Progress {
    /// The lock is asked for; `pending` waits to be written, if there is a
    /// line at all.
    Locking { pending: Option<Seq<u8>> },
    /// The lock is held and `line` is to be written.
    Writing { line: Seq<u8> },
    /// The lock is held and the device is to be flushed.
    Flushing,
    /// The lock is held and is to be given back.
    Unlocking,
    /// Nothing is left to do, and the lock is not held.
    Over,
}

impl Progress {
    /// The command that is due at this point, if any.
    pub open spec fn due(self) -> Option<CommandView> {
        match self {
            Progress::Locking { .. } => Some(CommandView::Lock),
            Progress::Writing { line } => Some(CommandView::Write(line)),
            Progress::Flushing => Some(CommandView::Flush),
            Progress::Unlocking => Some(CommandView::Unlock),
            Progress::Over => None,
        }
    }

    /// Where the delivery stands once the command that was due has had
    /// `outcome`.
    ///
    /// Only the lock decides anything: without it the delivery is given up.
    /// What a write or a flush reports is not looked at, and the next step
    /// follows whatever it was.
    pub open spec fn after(self, outcome: Outcome) -> Progress {
        match self {
            Progress::Locking { pending } => if outcome == Outcome::Done {
                match pending {
                    Some(line) => Progress::Writing { line },
                    None => Progress::Flushing,
                }
            } else {
                Progress::Over
            },
            Progress::Writing { .. } => Progress::Flushing,
            Progress::Flushing => Progress::Unlocking,
            Progress::Unlocking => Progress::Over,
            Progress::Over => Progress::Over,
        }
    }

    /// Whether the lock is held at this point.
    pub open spec fn holds_lock(self) -> bool {
        self is Writing || self is Flushing || self is Unlocking
    }

    /// The commands that are issued from this point on when the device
    /// answers them with `outcomes`, one after the other. The list ends when
    /// nothing is due any more, or with the command that found no answer.
    pub open spec fn commands(self, outcomes: Seq<Outcome>) -> Seq<CommandView>
        decreases outcomes.len(),
    {
        match self.due() {
            None => Seq::empty(),
            Some(command) => if outcomes.len() == 0 {
                seq![command]
            } else {
                seq![command] + self.after(outcomes[0]).commands(outcomes.drop_first())
            },
        }
    }

    /// Where the delivery stands after the device has given all of
    /// `outcomes`.
    pub open spec fn after_all(self, outcomes: Seq<Outcome>) -> Progress
        decreases outcomes.len(),
    {
        if outcomes.len() == 0 {
            self
        } else {
            self.after(outcomes[0]).after_all(outcomes.drop_first())
        }
    }
}

#[derive(Debug)]
enum State {
    Locking(Option<Vec<u8>>),
    Writing(Vec<u8>),
    Flushing,
    Unlocking,
    Over,
}

/// One delivery to the device: of a record's line, or of a flush alone.
#[derive(Debug)]
pub struct Delivery {
    state: State,
}

impl View for Delivery {
    type V = Progress;

    closed spec fn view(&self) -> Progress {
        match self.state {
            State::Locking(Some(line)) => Progress::Locking { pending: Some(line@) },
            State::Locking(None) => Progress::Locking { pending: None },
            State::Writing(line) => Progress::Writing { line: line@ },
            State::Flushing => Progress::Flushing,
            State::Unlocking => Progress::Unlocking,
            State::Over => Progress::Over,
        }
    }
}

/// The view of a command that may be absent.
pub open spec fn command_view(command: Option<Command>) -> Option<CommandView> {
    match command {
        Some(command) => Some(command@),
        None => None,
    }
}

impl Delivery {
    /// A delivery that writes `line` and flushes.
    pub(crate) fn of_line(line: Vec<u8>) -> (delivery: Delivery)
        ensures
            delivery@ == (Progress::Locking { pending: Some(line@) }),
    {
        Delivery { state: State::Locking(Some(line)) }
    }

    /// A delivery that only flushes.
    pub(crate) fn of_flush() -> (delivery: Delivery)
        ensures
            delivery@ == (Progress::Locking { pending: None }),
    {
        Delivery { state: State::Locking(None) }
    }

    /// A delivery with nothing to do.
    pub(crate) fn nothing() -> (delivery: Delivery)
        ensures
            delivery@ == Progress::Over,
    {
        Delivery { state: State::Over }
    }

    /// The command that is due now; `None` once the delivery is over.
    pub fn command(&self) -> (command: Option<Command<'_>>)
        ensures
            command_view(command) == self@.due(),
    {
        match &self.state {
            State::Locking(_) => Some(Command::Lock),
            State::Writing(line) => Some(Command::Write(line.as_slice())),
            State::Flushing => Some(Command::Flush),
            State::Unlocking => Some(Command::Unlock),
            State::Over => None,
        }
    }

    /// Takes note of what came of the command that was due, and moves on.
    pub fn resolve(self, outcome: Outcome) -> (next: Delivery)
        ensures
            next@ == self@.after(outcome),
    {
        let state = match self.state {
            State::Locking(line) => match outcome {
                Outcome::Done => match line {
                    Some(line) => State::Writing(line),
                    None => State::Flushing,
                },
                _ => State::Over,
            },
            State::Writing(_) => State::Flushing,
            State::Flushing => State::Unlocking,
            State::Unlocking => State::Over,
            State::Over => State::Over,
        };
        Delivery { state }
    }
}

/// The device is written and flushed under the lock only: a command that
/// touches it is due only while the lock is held, the lock comes to be held
/// only by a granted request for it, and it is not held once the delivery is
/// over.
pub proof fn lemma_device_is_touched_under_lock(progress: Progress, outcome: Outcome)
    ensures
        progress.due() is Some && progress.due() != Some(CommandView::Lock)
            <==> progress.holds_lock(),
        progress.after(outcome).holds_lock() && !progress.holds_lock() ==> progress is Locking
            && outcome == Outcome::Done,
        !Progress::Over.holds_lock(),
{
}

/// Once a delivery is over, nothing is asked of the device, whatever it would
/// answer.
pub proof fn lemma_over_asks_nothing(outcomes: Seq<Outcome>)
    ensures
        Progress::Over.commands(outcomes) == Seq::<CommandView>::empty(),
        Progress::Over.after_all(outcomes) == Progress::Over,
    decreases outcomes.len(),
{
    if outcomes.len() > 0 {
        lemma_over_asks_nothing(outcomes.drop_first());
    }
}

/// A delivery that does not get the lock gives up: the request for the lock is
/// the only command, and nothing reaches the device.
pub proof fn lemma_refused_lock_ends_delivery(pending: Option<Seq<u8>>, outcomes: Seq<Outcome>)
    requires
        outcomes.len() > 0,
        outcomes[0] != Outcome::Done,
    ensures
        (Progress::Locking { pending }).commands(outcomes) == seq![CommandView::Lock],
        (Progress::Locking { pending }).after_all(outcomes) == Progress::Over,
{
    lemma_over_asks_nothing(outcomes.drop_first());
    assert(seq![CommandView::Lock] + Seq::<CommandView>::empty() =~= seq![CommandView::Lock]);
}

/// A line is delivered by the same four commands whatever the device reports
/// for the write and for the flush: the line is written once and whole, the
/// flush follows the write, the lock is given back, and the delivery is over.
/// No failure stops it and none is passed on.
pub proof fn lemma_line_delivery(line: Seq<u8>, outcomes: Seq<Outcome>)
    requires
        outcomes.len() >= 4,
        outcomes[0] == Outcome::Done,
    ensures
        (Progress::Locking { pending: Some(line) }).commands(outcomes) == seq![
            CommandView::Lock,
            CommandView::Write(line),
            CommandView::Flush,
            CommandView::Unlock,
        ],
        (Progress::Locking { pending: Some(line) }).after_all(outcomes) == Progress::Over,
{
    let rest1 = outcomes.drop_first();
    let rest2 = rest1.drop_first();
    let rest3 = rest2.drop_first();
    let rest4 = rest3.drop_first();
    lemma_over_asks_nothing(rest4);
    let unlocking = Progress::Unlocking.commands(rest3);
    assert(unlocking =~= seq![CommandView::Unlock]);
    let flushing = Progress::Flushing.commands(rest2);
    assert(flushing =~= seq![CommandView::Flush, CommandView::Unlock]);
    let writing = (Progress::Writing { line }).commands(rest1);
    assert(writing =~= seq![CommandView::Write(line), CommandView::Flush, CommandView::Unlock]);
    assert((Progress::Locking { pending: Some(line) }).commands(outcomes) =~= seq![
        CommandView::Lock,
        CommandView::Write(line),
        CommandView::Flush,
        CommandView::Unlock,
    ]);
    assert(Progress::Unlocking.after_all(rest3) == Progress::Over);
    assert(Progress::Flushing.after_all(rest2) == Progress::Over);
    assert((Progress::Writing { line }).after_all(rest1) == Progress::Over);
}

/// A flush is delivered by three commands, whatever the device reports for the
/// flush itself.
pub proof fn lemma_flush_delivery(outcomes: Seq<Outcome>)
    requires
        outcomes.len() >= 3,
        outcomes[0] == Outcome::Done,
    ensures
        (Progress::Locking { pending: None }).commands(outcomes) == seq![
            CommandView::Lock,
            CommandView::Flush,
            CommandView::Unlock,
        ],
        (Progress::Locking { pending: None }).after_all(outcomes) == Progress::Over,
{
    let rest1 = outcomes.drop_first();
    let rest2 = rest1.drop_first();
    let rest3 = rest2.drop_first();
    lemma_over_asks_nothing(rest3);
    let unlocking = Progress::Unlocking.commands(rest2);
    assert(unlocking =~= seq![CommandView::Unlock]);
    let flushing = Progress::Flushing.commands(rest1);
    assert(flushing =~= seq![CommandView::Flush, CommandView::Unlock]);
    assert((Progress::Locking { pending: None }).commands(outcomes) =~= seq![
        CommandView::Lock,
        CommandView::Flush,
        CommandView::Unlock,
    ]);
    assert(Progress::Unlocking.after_all(rest2) == Progress::Over);
    assert(Progress::Flushing.after_all(rest1) == Progress::Over);
}

} // verus!
