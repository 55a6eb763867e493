//! The materializer: a step machine that walks the input tree depth first
//! and decides every filesystem operation. Each call of [`Materializer::step`]
//! consumes the outcome of the previously requested action and returns the
//! next request, until a [`Step::Done`] carries the run's result.
//!
//! The machine owns all decisions: name validation, per-kind dispatch,
//! swallowing an already-exists failure when re-creating a directory,
//! fail-fast propagation of the first error, and the unwinding requests that
//! bring the working directory back up after a failure deep in the tree. The
//! driver only performs the requested operation and reports what happened.

use crate::cursor::Cursor;
use crate::errs::{CreateKind, Error, ErrorV, OsError, OsErrorV};
use crate::names::{check_name, spec_name_check, NameCheck};
use crate::tree::{Entry, Item, Node};
use vstd::pervasive::unreached;
use vstd::prelude::*;
use vstd::string::StringExecFns;

verus! {

/// A filesystem operation the driver is asked to perform. All names are
/// single path components, relative to the driver's current working
/// directory.
#[derive(Debug)]
pub enum Action {
    /// Best effort: remove the entry at `name` if and only if it is a
    /// symbolic link, so that a stale link does not shadow what is created
    /// next. The reported outcome is ignored.
    RemoveIfSymlink { name: String },
    /// Write `content` to the file at `name`, creating or truncating it.
    WriteFile { name: String, content: String },
    /// Create the directory `name`.
    CreateDir { name: String },
    /// Change the working directory into `name`.
    EnterDir { name: String },
    /// Change the working directory to the one above.
    LeaveDir,
    /// Create a symbolic link at `name` pointing at `target`.
    CreateSymlink { name: String, target: String },
    /// Read the permission bits of the file at `name`.
    GetMode { name: String },
    /// Set the permission bits of the file at `name` to exactly `mode`.
    SetMode { name: String, mode: u32 },
}

/// The mathematical content of an [`Action`].
#[verifier::ext_equal]
pub enum ActionV {
    RemoveIfSymlink { name: Seq<char> },
    WriteFile { name: Seq<char>, content: Seq<char> },
    CreateDir { name: Seq<char> },
    EnterDir { name: Seq<char> },
    LeaveDir,
    CreateSymlink { name: Seq<char>, target: Seq<char> },
    GetMode { name: Seq<char> },
    SetMode { name: Seq<char>, mode: u32 },
}

impl View for Action {
    type V = ActionV;

    open spec fn view(&self) -> ActionV {
        match self {
            Action::RemoveIfSymlink { name } => ActionV::RemoveIfSymlink { name: name@ },
            Action::WriteFile { name, content } => ActionV::WriteFile {
                name: name@,
                content: content@,
            },
            Action::CreateDir { name } => ActionV::CreateDir { name: name@ },
            Action::EnterDir { name } => ActionV::EnterDir { name: name@ },
            Action::LeaveDir => ActionV::LeaveDir,
            Action::CreateSymlink { name, target } => ActionV::CreateSymlink {
                name: name@,
                target: target@,
            },
            Action::GetMode { name } => ActionV::GetMode { name: name@ },
            Action::SetMode { name, mode } => ActionV::SetMode { name: name@, mode: *mode },
        }
    }
}

/// The driver's report on the action it was asked to perform: either a plain
/// outcome, or the permission bits read by [`Action::GetMode`].
#[derive(Debug)]
pub enum Event {
    Unit(Result<(), OsError>),
    Mode(Result<u32, OsError>),
}

/// The mathematical content of an [`Event`].
#[verifier::ext_equal]
pub enum EventV {
    Unit(Result<(), OsErrorV>),
    Mode(Result<u32, OsErrorV>),
}

impl View for Event {
    type V = EventV;

    open spec fn view(&self) -> EventV {
        match self {
            Event::Unit(Ok(())) => EventV::Unit(Ok(())),
            Event::Unit(Err(os)) => EventV::Unit(Err(os@)),
            Event::Mode(Ok(m)) => EventV::Mode(Ok(*m)),
            Event::Mode(Err(os)) => EventV::Mode(Err(os@)),
        }
    }
}

/// What the machine answers: the next action to perform, or the result of
/// the whole run.
#[derive(Debug)]
pub enum Step {
    Do(Action),
    Done(Result<(), Error>),
}

/// The mathematical content of a [`Step`].
#[verifier::ext_equal]
pub enum StepV {
    Do(ActionV),
    Done(Result<(), ErrorV>),
}

impl View for Step {
    type V = StepV;

    open spec fn view(&self) -> StepV {
        match self {
            Step::Do(a) => StepV::Do(a@),
            Step::Done(Ok(())) => StepV::Done(Ok(())),
            Step::Done(Err(e)) => StepV::Done(Err(e@)),
        }
    }
}

/// What the machine is waiting for. Every variant but `Finished` names the
/// action whose outcome the next event must report.
pub enum Phase {
    /// A stale-link removal for `name` was requested; `node` is dispatched
    /// next, whatever the outcome.
    AwaitRemove { name: String, node: Node },
    /// A regular file write for `name` was requested.
    AwaitWriteFile { name: String },
    /// A directory creation for `name` was requested; `children` are its
    /// entries.
    AwaitCreateDir { name: String, children: Vec<Entry> },
    /// A change of working directory into `name` was requested.
    AwaitEnter { name: String, children: Vec<Entry> },
    /// A change of working directory upwards was requested after a fully
    /// materialized directory.
    AwaitLeave,
    /// A symbolic link creation for `name` was requested.
    AwaitSymlink { name: String },
    /// A script content write for `name` was requested.
    AwaitWriteScript { name: String },
    /// The permission bits of the script `name` were requested.
    AwaitMode { name: String },
    /// New permission bits for the script `name` were requested.
    AwaitSetMode { name: String },
    /// An error was met below the top level: a change of working directory
    /// upwards was requested, and `err` is reported once the unwinding ends.
    Unwinding { err: Error },
    /// The run is over; no further event is accepted.
    Finished,
}

/// The mathematical content of a [`Phase`].
#[verifier::ext_equal]
pub enum PhaseV {
    AwaitRemove { name: Seq<char>, node: Node },
    AwaitWriteFile { name: Seq<char> },
    AwaitCreateDir { name: Seq<char>, children: Seq<Entry> },
    AwaitEnter { name: Seq<char>, children: Seq<Entry> },
    AwaitLeave,
    AwaitSymlink { name: Seq<char> },
    AwaitWriteScript { name: Seq<char> },
    AwaitMode { name: Seq<char> },
    AwaitSetMode { name: Seq<char> },
    Unwinding { err: ErrorV },
    Finished,
}

impl View for Phase {
    type V = PhaseV;

    open spec fn view(&self) -> PhaseV {
        match self {
            Phase::AwaitRemove { name, node } => PhaseV::AwaitRemove { name: name@, node: *node },
            Phase::AwaitWriteFile { name } => PhaseV::AwaitWriteFile { name: name@ },
            Phase::AwaitCreateDir { name, children } => PhaseV::AwaitCreateDir {
                name: name@,
                children: children@,
            },
            Phase::AwaitEnter { name, children } => PhaseV::AwaitEnter {
                name: name@,
                children: children@,
            },
            Phase::AwaitLeave => PhaseV::AwaitLeave,
            Phase::AwaitSymlink { name } => PhaseV::AwaitSymlink { name: name@ },
            Phase::AwaitWriteScript { name } => PhaseV::AwaitWriteScript { name: name@ },
            Phase::AwaitMode { name } => PhaseV::AwaitMode { name: name@ },
            Phase::AwaitSetMode { name } => PhaseV::AwaitSetMode { name: name@ },
            Phase::Unwinding { err } => PhaseV::Unwinding { err: err@ },
            Phase::Finished => PhaseV::Finished,
        }
    }
}

/// The machine's state, mathematically: the stack of remaining entries (one
/// frame per open directory, the root frame first), the logical cursor (one
/// name per directory entered), and the phase.
#[verifier::ext_equal]
pub struct MState {
    pub frames: Seq<Seq<Entry>>,
    pub cursor: Seq<Seq<char>>,
    pub phase: PhaseV,
}

/// The machine's well-formedness: while the run is not over there is one
/// frame more than there are entered directories, and an outstanding
/// upward change of directory can only exist below the top level.
pub open spec fn wf_state(s: MState) -> bool {
    &&& (s.phase is Finished || s.frames.len() == s.cursor.len() + 1)
    &&& ((s.phase is AwaitLeave || s.phase is Unwinding) ==> s.frames.len() >= 2)
}

/// How a fresh error is raised: at the top level the run ends with it at
/// once; deeper down the machine first asks to leave every directory it
/// entered, so that the working directory is restored before the error is
/// reported.
pub open spec fn spec_fail(frames: Seq<Seq<Entry>>, cursor: Seq<Seq<char>>, err: ErrorV) -> (
    MState,
    StepV,
) {
    if frames.len() <= 1 {
        (MState { frames, cursor, phase: PhaseV::Finished }, StepV::Done(Err(err)))
    } else {
        (
            MState { frames, cursor, phase: PhaseV::Unwinding { err } },
            StepV::Do(ActionV::LeaveDir),
        )
    }
}

/// What the machine does between two filesystem outcomes: it closes
/// exhausted frames, validates the next entry's name, and requests the
/// stale-link removal that precedes every dispatch.
pub open spec fn spec_advance(frames: Seq<Seq<Entry>>, cursor: Seq<Seq<char>>) -> (MState, StepV) {
    let top = frames.last();
    if top.len() == 0 {
        if frames.len() <= 1 {
            (MState { frames, cursor, phase: PhaseV::Finished }, StepV::Done(Ok(())))
        } else {
            (
                MState { frames, cursor, phase: PhaseV::AwaitLeave },
                StepV::Do(ActionV::LeaveDir),
            )
        }
    } else {
        let entry = top.first();
        let frames2 = frames.update(frames.len() - 1, top.drop_first());
        match spec_name_check(entry.name@) {
            NameCheck::MultipleComponents => spec_fail(
                frames2,
                cursor,
                ErrorV::MultiplePathComponents { name: entry.name@, context: cursor },
            ),
            NameCheck::NotRegular => spec_fail(
                frames2,
                cursor,
                ErrorV::NotRegularComponent { name: entry.name@, context: cursor },
            ),
            NameCheck::Valid => (
                MState {
                    frames: frames2,
                    cursor,
                    phase: PhaseV::AwaitRemove { name: entry.name@, node: entry.node },
                },
                StepV::Do(ActionV::RemoveIfSymlink { name: entry.name@ }),
            ),
        }
    }
}

/// How a list node is dispatched: only the tagged two-element shape
/// `[kind, payload]` with both elements text is accepted, and `kind` selects
/// between a symbolic link and an executable script.
pub open spec fn spec_dispatch_list(
    frames: Seq<Seq<Entry>>,
    cursor: Seq<Seq<char>>,
    name: Seq<char>,
    items: Seq<Item>,
) -> (MState, StepV) {
    if items.len() == 2 {
        match (items[0], items[1]) {
            (Item::Text(kind), Item::Text(payload)) => {
                if kind@ == "link"@ {
                    (
                        MState { frames, cursor, phase: PhaseV::AwaitSymlink { name } },
                        StepV::Do(ActionV::CreateSymlink { name, target: payload@ }),
                    )
                } else if kind@ == "script"@ {
                    (
                        MState { frames, cursor, phase: PhaseV::AwaitWriteScript { name } },
                        StepV::Do(ActionV::WriteFile { name, content: payload@ }),
                    )
                } else {
                    spec_fail(
                        frames,
                        cursor,
                        ErrorV::InvalidArrayKind { context: cursor.push(name) },
                    )
                }
            },
            _ => spec_fail(
                frames,
                cursor,
                ErrorV::InvalidJsonArray { context: cursor.push(name) },
            ),
        }
    } else {
        spec_fail(frames, cursor, ErrorV::InvalidJsonArray { context: cursor.push(name) })
    }
}

/// Which event answers which phase: the permission-bit read is answered with
/// bits, everything else with a plain outcome; a finished machine accepts
/// nothing.
pub open spec fn event_fits(p: PhaseV, e: EventV) -> bool {
    match p {
        PhaseV::AwaitMode { .. } => e is Mode,
        PhaseV::Finished => false,
        _ => e is Unit,
    }
}

/// The machine's transition: what the next state and answer are, given the
/// state and the event that reports the last requested action's outcome.
pub open spec fn spec_step(s: MState, e: EventV) -> (MState, StepV) {
    match s.phase {
        PhaseV::AwaitRemove { name, node } => match node {
            Node::Text(content) => (
                MState { phase: PhaseV::AwaitWriteFile { name }, ..s },
                StepV::Do(ActionV::WriteFile { name, content: content@ }),
            ),
            Node::Dir(children) => (
                MState { phase: PhaseV::AwaitCreateDir { name, children: children@ }, ..s },
                StepV::Do(ActionV::CreateDir { name }),
            ),
            Node::List(items) => spec_dispatch_list(s.frames, s.cursor, name, items@),
            Node::Other => spec_fail(
                s.frames,
                s.cursor,
                ErrorV::InvalidJsonPart { context: s.cursor.push(name) },
            ),
        },
        PhaseV::AwaitWriteFile { name } => match e {
            EventV::Unit(Ok(())) => spec_advance(s.frames, s.cursor),
            EventV::Unit(Err(os)) => spec_fail(
                s.frames,
                s.cursor,
                ErrorV::Create {
                    kind: CreateKind::RegularFile,
                    context: s.cursor.push(name),
                    os,
                },
            ),
            _ => arbitrary(),
        },
        PhaseV::AwaitCreateDir { name, children } => match e {
            EventV::Unit(Ok(())) => (
                MState { phase: PhaseV::AwaitEnter { name, children }, ..s },
                StepV::Do(ActionV::EnterDir { name }),
            ),
            EventV::Unit(Err(os)) => {
                if os.already_exists {
                    (
                        MState { phase: PhaseV::AwaitEnter { name, children }, ..s },
                        StepV::Do(ActionV::EnterDir { name }),
                    )
                } else {
                    spec_fail(
                        s.frames,
                        s.cursor,
                        ErrorV::Create {
                            kind: CreateKind::Directory,
                            context: s.cursor.push(name),
                            os,
                        },
                    )
                }
            },
            _ => arbitrary(),
        },
        PhaseV::AwaitEnter { name, children } => match e {
            EventV::Unit(Ok(())) => spec_advance(s.frames.push(children), s.cursor.push(name)),
            EventV::Unit(Err(os)) => spec_fail(
                s.frames,
                s.cursor,
                ErrorV::ChangeDir { context: s.cursor.push(name), os },
            ),
            _ => arbitrary(),
        },
        PhaseV::AwaitLeave => match e {
            EventV::Unit(Ok(())) => spec_advance(s.frames.drop_last(), s.cursor.drop_last()),
            EventV::Unit(Err(os)) => (
                MState { phase: PhaseV::Finished, ..s },
                StepV::Done(Err(ErrorV::ChangeDirUp { context: s.cursor, os })),
            ),
            _ => arbitrary(),
        },
        PhaseV::AwaitSymlink { name } => match e {
            EventV::Unit(Ok(())) => spec_advance(s.frames, s.cursor),
            EventV::Unit(Err(os)) => spec_fail(
                s.frames,
                s.cursor,
                ErrorV::Create { kind: CreateKind::Symlink, context: s.cursor.push(name), os },
            ),
            _ => arbitrary(),
        },
        PhaseV::AwaitWriteScript { name } => match e {
            EventV::Unit(Ok(())) => (
                MState { phase: PhaseV::AwaitMode { name }, ..s },
                StepV::Do(ActionV::GetMode { name }),
            ),
            EventV::Unit(Err(os)) => spec_fail(
                s.frames,
                s.cursor,
                ErrorV::Create { kind: CreateKind::Script, context: s.cursor.push(name), os },
            ),
            _ => arbitrary(),
        },
        PhaseV::AwaitMode { name } => match e {
            EventV::Mode(Ok(mode)) => (
                MState { phase: PhaseV::AwaitSetMode { name }, ..s },
                StepV::Do(ActionV::SetMode { name, mode: mode | 0o111 }),
            ),
            EventV::Mode(Err(os)) => spec_fail(
                s.frames,
                s.cursor,
                ErrorV::CouldNotMakeFileExecutable { context: s.cursor.push(name), os },
            ),
            _ => arbitrary(),
        },
        PhaseV::AwaitSetMode { name } => match e {
            EventV::Unit(Ok(())) => spec_advance(s.frames, s.cursor),
            EventV::Unit(Err(os)) => spec_fail(
                s.frames,
                s.cursor,
                ErrorV::CouldNotMakeFileExecutable { context: s.cursor.push(name), os },
            ),
            _ => arbitrary(),
        },
        PhaseV::Unwinding { err } => match e {
            EventV::Unit(Ok(())) => {
                let frames2 = s.frames.drop_last();
                let cursor2 = s.cursor.drop_last();
                if frames2.len() <= 1 {
                    (
                        MState { frames: frames2, cursor: cursor2, phase: PhaseV::Finished },
                        StepV::Done(Err(err)),
                    )
                } else {
                    (
                        MState {
                            frames: frames2,
                            cursor: cursor2,
                            phase: PhaseV::Unwinding { err },
                        },
                        StepV::Do(ActionV::LeaveDir),
                    )
                }
            },
            EventV::Unit(Err(_)) => (
                MState { phase: PhaseV::Finished, ..s },
                StepV::Done(Err(err)),
            ),
            _ => arbitrary(),
        },
        PhaseV::Finished => arbitrary(),
    }
}

/// The machine's first state and first answer, for a root mapping with the
/// given entries.
pub open spec fn spec_new(root: Seq<Entry>) -> (MState, StepV) {
    spec_advance(seq![root], Seq::empty())
}

/// The materializer's state: the stack of remaining entries, the logical
/// cursor, and what it is waiting for.
pub struct Materializer {
    frames: Vec<Vec<Entry>>,
    cursor: Cursor,
    phase: Phase,
}

impl View for Materializer {
    type V = MState;

    closed spec fn view(&self) -> MState {
        MState {
            frames: self.frames@.map_values(|f: Vec<Entry>| f@),
            cursor: self.cursor@,
            phase: self.phase@,
        }
    }
}

impl Materializer {
    /// The machine's well-formedness; established by [`Materializer::new`]
    /// and preserved by [`Materializer::step`].
    pub open spec fn wf(&self) -> bool {
        wf_state(self@)
    }

    /// Whether the run is over.
    pub fn is_finished(&self) -> (r: bool)
        ensures
            r == (self@.phase is Finished),
    {
        matches!(self.phase, Phase::Finished)
    }

    /// Starts a materialization of the given root entries in the driver's
    /// working directory, and returns the machine together with its first
    /// answer.
    pub fn new(root: Vec<Entry>) -> (r: (Materializer, Step))
        ensures
            r.0.wf(),
            (r.0@, r.1@) == spec_new(root@),
    {
        let mut frames: Vec<Vec<Entry>> = Vec::new();
        let ghost root_view = root@;
        frames.push(root);
        let mut m = Materializer {
            frames,
            cursor: crate::cursor::current_dir(),
            phase: Phase::Finished,
        };
        proof {
            assert(m@.frames =~= seq![root_view]);
        }
        let step = m.advance();
        (m, step)
    }

    /// Feeds the outcome of the last requested action in and returns the
    /// next request, or the run's result.
    pub fn step(&mut self, event: Event) -> (r: Step)
        requires
            old(self).wf(),
            !(old(self)@.phase is Finished),
            event_fits(old(self)@.phase, event@),
        ensures
            final(self).wf(),
            (final(self)@, r@) == spec_step(old(self)@, event@),
    {
        let mut ph = Phase::Finished;
        core::mem::swap(&mut ph, &mut self.phase);
        match ph {
            Phase::AwaitRemove { name, node } => match node {
                Node::Text(content) => {
                    let act = Action::WriteFile { name: name.clone(), content };
                    self.phase = Phase::AwaitWriteFile { name };
                    Step::Do(act)
                },
                Node::Dir(children) => {
                    let act = Action::CreateDir { name: name.clone() };
                    self.phase = Phase::AwaitCreateDir { name, children };
                    Step::Do(act)
                },
                Node::List(items) => self.dispatch_list(name, items),
                Node::Other => {
                    let context = self.cursor.child(&name);
                    self.fail(Error::InvalidJsonPart { context })
                },
            },
            Phase::AwaitWriteFile { name } => match event {
                Event::Unit(Ok(())) => self.advance(),
                Event::Unit(Err(os)) => {
                    let context = self.cursor.child(&name);
                    self.fail(Error::Create { kind: CreateKind::RegularFile, context, os })
                },
                Event::Mode(_) => unreached(),
            },
            Phase::AwaitCreateDir { name, children } => match event {
                Event::Unit(Ok(())) => self.enter_dir(name, children),
                Event::Unit(Err(os)) => {
                    if os.already_exists {
                        self.enter_dir(name, children)
                    } else {
                        let context = self.cursor.child(&name);
                        self.fail(Error::Create { kind: CreateKind::Directory, context, os })
                    }
                },
                Event::Mode(_) => unreached(),
            },
            Phase::AwaitEnter { name, children } => match event {
                Event::Unit(Ok(())) => {
                    let ghost children_view = children@;
                    self.frames.push(children);
                    self.cursor.push(name);
                    proof {
                        assert(self@.frames =~= old(self)@.frames.push(children_view));
                    }
                    self.advance()
                },
                Event::Unit(Err(os)) => {
                    let context = self.cursor.child(&name);
                    self.fail(Error::ChangeDir { context, os })
                },
                Event::Mode(_) => unreached(),
            },
            Phase::AwaitLeave => match event {
                Event::Unit(Ok(())) => {
                    let _ = self.frames.pop();
                    self.cursor.pop();
                    proof {
                        assert(self@.frames =~= old(self)@.frames.drop_last());
                    }
                    self.advance()
                },
                Event::Unit(Err(os)) => {
                    let context = self.cursor.snapshot();
                    self.phase = Phase::Finished;
                    Step::Done(Err(Error::ChangeDirUp { context, os }))
                },
                Event::Mode(_) => unreached(),
            },
            Phase::AwaitSymlink { name } => match event {
                Event::Unit(Ok(())) => self.advance(),
                Event::Unit(Err(os)) => {
                    let context = self.cursor.child(&name);
                    self.fail(Error::Create { kind: CreateKind::Symlink, context, os })
                },
                Event::Mode(_) => unreached(),
            },
            Phase::AwaitWriteScript { name } => match event {
                Event::Unit(Ok(())) => {
                    let act = Action::GetMode { name: name.clone() };
                    self.phase = Phase::AwaitMode { name };
                    Step::Do(act)
                },
                Event::Unit(Err(os)) => {
                    let context = self.cursor.child(&name);
                    self.fail(Error::Create { kind: CreateKind::Script, context, os })
                },
                Event::Mode(_) => unreached(),
            },
            Phase::AwaitMode { name } => match event {
                Event::Mode(Ok(mode)) => {
                    let act = Action::SetMode { name: name.clone(), mode: mode | 0o111 };
                    self.phase = Phase::AwaitSetMode { name };
                    Step::Do(act)
                },
                Event::Mode(Err(os)) => {
                    let context = self.cursor.child(&name);
                    self.fail(Error::CouldNotMakeFileExecutable { context, os })
                },
                Event::Unit(_) => unreached(),
            },
            Phase::AwaitSetMode { name } => match event {
                Event::Unit(Ok(())) => self.advance(),
                Event::Unit(Err(os)) => {
                    let context = self.cursor.child(&name);
                    self.fail(Error::CouldNotMakeFileExecutable { context, os })
                },
                Event::Mode(_) => unreached(),
            },
            Phase::Unwinding { err } => match event {
                Event::Unit(Ok(())) => {
                    let _ = self.frames.pop();
                    self.cursor.pop();
                    proof {
                        assert(self@.frames =~= old(self)@.frames.drop_last());
                    }
                    if self.frames.len() <= 1 {
                        self.phase = Phase::Finished;
                        Step::Done(Err(err))
                    } else {
                        self.phase = Phase::Unwinding { err };
                        Step::Do(Action::LeaveDir)
                    }
                },
                Event::Unit(Err(_)) => {
                    self.phase = Phase::Finished;
                    Step::Done(Err(err))
                },
                Event::Mode(_) => unreached(),
            },
            Phase::Finished => unreached(),
        }
    }

    /// Requests the directory change into a directory that was created, or
    /// that already existed.
    fn enter_dir(&mut self, name: String, children: Vec<Entry>) -> (r: Step)
        ensures
            final(self)@ == (MState {
                phase: PhaseV::AwaitEnter { name: name@, children: children@ },
                ..old(self)@
            }),
            r@ == StepV::Do(ActionV::EnterDir { name: name@ }),
    {
        let act = Action::EnterDir { name: name.clone() };
        self.phase = Phase::AwaitEnter { name, children };
        Step::Do(act)
    }

    /// Dispatches a list node: only `[kind, payload]` with both elements
    /// text and `kind` one of `"link"` and `"script"` is accepted.
    fn dispatch_list(&mut self, name: String, items: Vec<Item>) -> (r: Step)
        requires
            old(self)@.frames.len() == old(self)@.cursor.len() + 1,
        ensures
            final(self).wf(),
            (final(self)@, r@) == spec_dispatch_list(
                old(self)@.frames,
                old(self)@.cursor,
                name@,
                items@,
            ),
    {
        let mut items = items;
        if items.len() == 2 {
            let first = items.remove(0);
            let second = items.remove(0);
            match (first, second) {
                (Item::Text(kind), Item::Text(payload)) => {
                    let link_word = String::from_str("link");
                    let script_word = String::from_str("script");
                    if kind == link_word {
                        let act = Action::CreateSymlink { name: name.clone(), target: payload };
                        self.phase = Phase::AwaitSymlink { name };
                        Step::Do(act)
                    } else if kind == script_word {
                        let act = Action::WriteFile { name: name.clone(), content: payload };
                        self.phase = Phase::AwaitWriteScript { name };
                        Step::Do(act)
                    } else {
                        let context = self.cursor.child(&name);
                        self.fail(Error::InvalidArrayKind { context })
                    }
                },
                _ => {
                    let context = self.cursor.child(&name);
                    self.fail(Error::InvalidJsonArray { context })
                },
            }
        } else {
            let context = self.cursor.child(&name);
            self.fail(Error::InvalidJsonArray { context })
        }
    }

    /// Raises a fresh error: ends the run at the top level, or begins the
    /// unwinding that restores the working directory first.
    fn fail(&mut self, err: Error) -> (r: Step)
        requires
            old(self)@.frames.len() == old(self)@.cursor.len() + 1,
        ensures
            final(self).wf(),
            (final(self)@, r@) == spec_fail(old(self)@.frames, old(self)@.cursor, err@),
    {
        if self.frames.len() <= 1 {
            self.phase = Phase::Finished;
            Step::Done(Err(err))
        } else {
            self.phase = Phase::Unwinding { err };
            Step::Do(Action::LeaveDir)
        }
    }

    /// Takes up the next pending entry, closing exhausted frames first.
    fn advance(&mut self) -> (r: Step)
        requires
            old(self)@.frames.len() == old(self)@.cursor.len() + 1,
        ensures
            final(self).wf(),
            (final(self)@, r@) == spec_advance(old(self)@.frames, old(self)@.cursor),
    {
        let depth = self.frames.len();
        if self.frames[depth - 1].len() == 0 {
            if depth == 1 {
                self.phase = Phase::Finished;
                return Step::Done(Ok(()));
            }
            self.phase = Phase::AwaitLeave;
            return Step::Do(Action::LeaveDir);
        }
        let mut top = self.frames.pop().unwrap();
        let entry = top.remove(0);
        self.frames.push(top);
        proof {
            let f0 = old(self)@.frames;
            assert(top@ =~= f0.last().drop_first());
            assert(self@.frames =~= f0.update(f0.len() - 1, f0.last().drop_first()));
        }
        let name = entry.name;
        let node = entry.node;
        match check_name(name.as_str()) {
            NameCheck::MultipleComponents => {
                let context = self.cursor.snapshot();
                self.fail(Error::MultiplePathComponents { name, context })
            },
            NameCheck::NotRegular => {
                let context = self.cursor.snapshot();
                self.fail(Error::NotRegularComponent { name, context })
            },
            NameCheck::Valid => {
                let act = Action::RemoveIfSymlink { name: name.clone() };
                self.phase = Phase::AwaitRemove { name, node };
                Step::Do(act)
            },
        }
    }
}

} // verus!
