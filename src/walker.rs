//! A depth-first, pre-order traversal as a state machine. The walker asks for
//! one piece of file system work at a time (list a directory, rename a file);
//! its caller performs it and hands back the outcome as the next event.
use vstd::prelude::*;
use crate::plan::{
    plan_entry, planned, report_view, Effect, EffectModel, Entry, EntryModel, ErrorModel,
    Request, RequestModel, TraversalError,
};

verus! {

/// A directory being walked: its path, its listing and the next entry to visit.
pub struct Frame {
    pub dir: String,
    pub entries: Vec<Entry>,
    pub next: usize,
}

/// Mathematical model of a [`Frame`].
pub struct FrameModel {
    pub dir: Seq<char>,
    pub entries: Seq<EntryModel>,
    pub next: int,
}

pub open spec fn entries_view(v: Seq<Entry>) -> Seq<EntryModel> {
    v.map_values(|e: Entry| e@)
}

impl View for Frame {
    type V = FrameModel;

    open spec fn view(&self) -> FrameModel {
        FrameModel { dir: self.dir@, entries: entries_view(self.entries@), next: self.next as int }
    }
}

/// What the walker waits for.
pub enum Awaiting {
    /// The listing of `dir`.
    Listing { dir: String },
    /// The outcome of renaming `from` to `to`.
    Renaming { from: String, to: String },
    /// Leave to go on.
    Proceeding,
    /// Nothing: the traversal is over.
    Finished,
}

/// Mathematical model of [`Awaiting`].
pub enum AwaitingModel {
    Listing(Seq<char>),
    Renaming(Seq<char>, Seq<char>),
    Proceeding,
    Finished,
}

impl View for Awaiting {
    type V = AwaitingModel;

    open spec fn view(&self) -> AwaitingModel {
        match self {
            Awaiting::Listing { dir } => AwaitingModel::Listing(dir@),
            Awaiting::Renaming { from, to } => AwaitingModel::Renaming(from@, to@),
            Awaiting::Proceeding => AwaitingModel::Proceeding,
            Awaiting::Finished => AwaitingModel::Finished,
        }
    }
}

/// The outcome of the work that the walker asked for.
pub enum Event {
    /// The listing of the directory, or `None` where it could not be read.
    Listed(Option<Vec<Entry>>),
    /// Whether the rename succeeded.
    Renamed(bool),
    /// Go on.
    Proceed,
}

/// Mathematical model of an [`Event`].
pub enum EventModel {
    Listed(Option<Seq<EntryModel>>),
    Renamed(bool),
    Proceed,
}

impl View for Event {
    type V = EventModel;

    open spec fn view(&self) -> EventModel {
        match self {
            Event::Listed(Some(v)) => EventModel::Listed(Some(entries_view(v@))),
            Event::Listed(None) => EventModel::Listed(None),
            Event::Renamed(ok) => EventModel::Renamed(*ok),
            Event::Proceed => EventModel::Proceed,
        }
    }
}

/// The work that the walker asks its caller to do next.
pub enum Action {
    /// List the directory `dir`, then hand back [`Event::Listed`].
    List { dir: String },
    /// Rename the file `from` to `to`, then hand back [`Event::Renamed`].
    Rename { from: String, to: String },
    /// Nothing; hand back [`Event::Proceed`].
    Proceed,
    /// The traversal is over, with this outcome.
    Finish(Result<(), TraversalError>),
}

/// Mathematical model of an [`Action`].
pub enum ActionModel {
    List(Seq<char>),
    Rename(Seq<char>, Seq<char>),
    Proceed,
    Finish(Result<(), ErrorModel>),
}

impl View for Action {
    type V = ActionModel;

    open spec fn view(&self) -> ActionModel {
        match self {
            Action::List { dir } => ActionModel::List(dir@),
            Action::Rename { from, to } => ActionModel::Rename(from@, to@),
            Action::Proceed => ActionModel::Proceed,
            Action::Finish(Ok(())) => ActionModel::Finish(Ok(())),
            Action::Finish(Err(e)) => ActionModel::Finish(Err(e@)),
        }
    }
}

/// One step's output: a line to report, if any, and the next action.
pub struct Step {
    pub report: Option<String>,
    pub action: Action,
}

/// Mathematical model of a [`Step`].
pub struct StepModel {
    pub report: Option<Seq<char>>,
    pub action: ActionModel,
}

impl View for Step {
    type V = StepModel;

    open spec fn view(&self) -> StepModel {
        StepModel { report: report_view(self.report), action: self.action@ }
    }
}

/// The traversal's state.
pub struct Walker {
    request: Request,
    frames: Vec<Frame>,
    awaiting: Awaiting,
}

/// Mathematical model of a [`Walker`]: the request, the directories being
/// walked, innermost last, and what it waits for.
pub struct WalkerModel {
    pub request: RequestModel,
    pub frames: Seq<FrameModel>,
    pub awaiting: AwaitingModel,
}

impl View for Walker {
    type V = WalkerModel;

    closed spec fn view(&self) -> WalkerModel {
        WalkerModel {
            request: self.request@,
            frames: self.frames@.map_values(|f: Frame| f@),
            awaiting: self.awaiting@,
        }
    }
}

/// Whether `ev` answers what the walker waits for.
pub open spec fn answers(awaiting: AwaitingModel, ev: EventModel) -> bool {
    match (awaiting, ev) {
        (AwaitingModel::Listing(_), EventModel::Listed(_)) => true,
        (AwaitingModel::Renaming(_, _), EventModel::Renamed(_)) => true,
        (AwaitingModel::Proceeding, EventModel::Proceed) => true,
        _ => false,
    }
}

/// What the walker waits for after `action`.
pub open spec fn awaiting_after(action: ActionModel) -> AwaitingModel {
    match action {
        ActionModel::List(d) => AwaitingModel::Listing(d),
        ActionModel::Rename(f, t) => AwaitingModel::Renaming(f, t),
        ActionModel::Proceed => AwaitingModel::Proceeding,
        ActionModel::Finish(_) => AwaitingModel::Finished,
    }
}

/// The action that carries out an entry's effect.
pub open spec fn action_of(effect: EffectModel) -> ActionModel {
    match effect {
        EffectModel::Skip => ActionModel::Proceed,
        EffectModel::Descend(d) => ActionModel::List(d),
        EffectModel::Rename(f, t) => ActionModel::Rename(f, t),
        EffectModel::Fail(e) => ActionModel::Finish(Err(e)),
    }
}

/// Going on from `frames`: visit the next entry of the innermost directory,
/// leave that directory once all its entries are visited, or end the
/// traversal when no directory is left.
pub open spec fn advanced(req: RequestModel, frames: Seq<FrameModel>) -> (Seq<FrameModel>, StepModel) {
    if frames.len() == 0 {
        (frames, StepModel { report: None, action: ActionModel::Finish(Ok(())) })
    } else {
        let top = frames.last();
        if top.next >= top.entries.len() {
            (frames.drop_last(), StepModel { report: None, action: ActionModel::Proceed })
        } else {
            let p = planned(req, top.dir, top.entries[top.next]);
            (
                frames.update(frames.len() - 1, FrameModel { next: top.next + 1, ..top }),
                StepModel { report: p.report, action: action_of(p.effect) },
            )
        }
    }
}

/// One step of the walker from the state `w` on the event `ev`: its new
/// frames and its output. The request never changes, and what the walker
/// waits for next follows from the action (see `awaiting_after`).
pub open spec fn stepped(w: WalkerModel, ev: EventModel) -> (Seq<FrameModel>, StepModel) {
    match (w.awaiting, ev) {
        (AwaitingModel::Listing(d), EventModel::Listed(None)) => (
            w.frames,
            StepModel { report: None, action: ActionModel::Finish(Err(ErrorModel::ReadDir(d))) },
        ),
        (AwaitingModel::Listing(d), EventModel::Listed(Some(es))) => (
            w.frames.push(FrameModel { dir: d, entries: es, next: 0 }),
            StepModel { report: None, action: ActionModel::Proceed },
        ),
        (AwaitingModel::Renaming(f, t), EventModel::Renamed(false)) => (
            w.frames,
            StepModel { report: None, action: ActionModel::Finish(Err(ErrorModel::Rename(f, t))) },
        ),
        (AwaitingModel::Renaming(_, _), EventModel::Renamed(true)) => (
            w.frames,
            StepModel { report: None, action: ActionModel::Proceed },
        ),
        _ => advanced(w.request, w.frames),
    }
}

impl Walker {
    /// Well-formedness: every frame's position lies within its listing.
    pub closed spec fn wf(&self) -> bool {
        forall|i: int| 0 <= i < self.frames@.len() ==> #[trigger] self.frames@[i].next <= self.frames@[i].entries@.len()
    }

    /// Starts a traversal of the directory `root`; the first action lists it.
    pub fn start(request: Request, root: String) -> (r: (Walker, Step))
        ensures
            r.0.wf(),
            r.0@.request == request@,
            r.0@.frames.len() == 0,
            r.0@.awaiting == AwaitingModel::Listing(root@),
            r.1@ == (StepModel { report: None, action: ActionModel::List(root@) }),
    {
        let dir = root.clone();
        let w = Walker { request, frames: Vec::new(), awaiting: Awaiting::Listing { dir } };
        assert(w@.frames =~= Seq::<FrameModel>::empty());
        (w, Step { report: None, action: Action::List { dir: root } })
    }

    /// The settings this traversal runs with.
    pub fn request(&self) -> (r: &Request)
        ensures
            r@ == self@.request,
    {
        &self.request
    }

    /// Whether `event` answers what the walker waits for.
    pub fn accepts(&self, event: &Event) -> (r: bool)
        ensures
            r == answers(self@.awaiting, event@),
    {
        match (&self.awaiting, event) {
            (Awaiting::Listing { .. }, Event::Listed(_)) => true,
            (Awaiting::Renaming { .. }, Event::Renamed(_)) => true,
            (Awaiting::Proceeding, Event::Proceed) => true,
            _ => false,
        }
    }

    /// Whether the traversal is over.
    pub fn is_finished(&self) -> (r: bool)
        ensures
            r == (self@.awaiting == AwaitingModel::Finished),
    {
        match &self.awaiting {
            Awaiting::Finished => true,
            _ => false,
        }
    }

    /// Takes in the outcome of the last action and decides the next one.
    pub fn step(&mut self, event: Event) -> (r: Step)
        requires
            old(self).wf(),
            answers(old(self)@.awaiting, event@),
        ensures
            final(self).wf(),
            final(self)@.request == old(self)@.request,
            (final(self)@.frames, r@) == stepped(old(self)@, event@),
            final(self)@.awaiting == awaiting_after(r@.action),
    {
        proof {
            self.lemma_frames_view();
        }
        let r = match (&self.awaiting, event) {
            (Awaiting::Listing { dir }, Event::Listed(None)) => Step {
                report: None,
                action: Action::Finish(Err(TraversalError::ReadDir { path: dir.clone() })),
            },
            (Awaiting::Listing { dir }, Event::Listed(Some(entries))) => {
                let frame = Frame { dir: dir.clone(), entries, next: 0 };
                self.frames.push(frame);
                Step { report: None, action: Action::Proceed }
            },
            (Awaiting::Renaming { from, to }, Event::Renamed(false)) => Step {
                report: None,
                action: Action::Finish(
                    Err(TraversalError::Rename { from: from.clone(), to: to.clone() }),
                ),
            },
            (Awaiting::Renaming { .. }, Event::Renamed(true)) => Step {
                report: None,
                action: Action::Proceed,
            },
            _ => self.advance(),
        };
        self.awaiting = match &r.action {
            Action::List { dir } => Awaiting::Listing { dir: dir.clone() },
            Action::Rename { from, to } => Awaiting::Renaming { from: from.clone(), to: to.clone() },
            Action::Proceed => Awaiting::Proceeding,
            Action::Finish(_) => Awaiting::Finished,
        };
        proof {
            self.lemma_frames_view();
        }
        r
    }

    proof fn lemma_frames_view(&self)
        ensures
            self@.frames.len() == self.frames@.len(),
            forall|i: int| 0 <= i < self.frames@.len() ==> #[trigger] self@.frames[i] == self.frames@[i]@,
    {
    }

    /// Visits the next entry of the innermost directory, leaves a directory
    /// whose entries are all visited, or ends the traversal.
    fn advance(&mut self) -> (r: Step)
        requires
            old(self).wf(),
        ensures
            final(self).wf(),
            final(self).request == old(self).request,
            final(self).awaiting == old(self).awaiting,
            (final(self)@.frames, r@) == advanced(old(self)@.request, old(self)@.frames),
    {
        let ghost before = self@.frames;
        proof {
            self.lemma_frames_view();
        }
        if self.frames.len() == 0 {
            return Step { report: None, action: Action::Finish(Ok(())) };
        }
        let mut top = self.frames.pop().unwrap();
        proof {
            self.lemma_frames_view();
        }
        assert(self@.frames =~= before.drop_last());
        if top.next >= top.entries.len() {
            return Step { report: None, action: Action::Proceed };
        }
        let plan = plan_entry(&self.request, top.dir.as_str(), &top.entries[top.next]);
        top.next = top.next + 1;
        self.frames.push(top);
        proof {
            self.lemma_frames_view();
        }
        assert(self@.frames =~= before.update(before.len() - 1, FrameModel { next: before.last().next + 1, ..before.last() }));
        let action = match plan.effect {
            Effect::Skip => Action::Proceed,
            Effect::Descend { dir } => Action::List { dir },
            Effect::Rename { from, to } => Action::Rename { from, to },
            Effect::Fail(e) => Action::Finish(Err(e)),
        };
        Step { report: plan.report, action }
    }
}

} // verus!
