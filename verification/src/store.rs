//! The store of the persisted state, as a machine that the event loop
//! drives.
//!
//! The loop hands in what happened: the window moved, the window was
//! resized, a batch of updates began or settled. The store applies it and
//! hands back the snapshot to write, if one is due. Outside a batch every
//! change is due at once. Inside a batch nothing is due until the batch
//! settles, and then one snapshot is: the last state, with nothing of the
//! states between.

use crate::app_config::AppConfig;
use crate::geometry::{Point, Size};
use vstd::prelude::*;

verus! {

/// What the window system reports.
#[derive(Clone, Copy, Debug, PartialEq, Eq, Structural)]
pub enum WindowEvent {
    /// The window's top-left corner is now here.
    Moved(Point),
    /// The window now has this size.
    Resized(Size),
    /// Anything else. The store takes no notice.
    Other,
}

impl WindowEvent {
    /// Whether the event changes the persisted state.
    pub open spec fn mutates(self) -> bool {
        self !is Other
    }

    /// The persisted state after the event.
    pub open spec fn applied(self, config: AppConfig) -> AppConfig {
        match self {
            WindowEvent::Moved(position) => config.moved_to(position),
            WindowEvent::Resized(size) => config.resized_to(size),
            WindowEvent::Other => config,
        }
    }
}

/// Where the store stands in the loop's batching.
#[derive(Clone, Copy, Debug, PartialEq, Eq, Structural)]
pub enum Phase {
    /// No batch is open: a change is written at once.
    Idle,
    /// A batch is open. `dirty` tells whether anything changed in it so far.
    Batching { dirty: bool },
}

/// One thing the loop tells the store.
#[derive(Clone, Copy, Debug, PartialEq, Eq, Structural)]
pub enum Step {
    Event(WindowEvent),
    BatchBegin,
    BatchEnd,
}

/// The store as a value.
pub struct StoreView {
    pub config: AppConfig,
    pub phase: Phase,
}

/// The state after all of `events`, in order.
pub open spec fn fold(config: AppConfig, events: Seq<WindowEvent>) -> AppConfig
    decreases events.len(),
{
    if events.len() == 0 {
        config
    } else {
        fold(events.first().applied(config), events.drop_first())
    }
}

/// Whether any of `events` changes the persisted state.
pub open spec fn any_mutation(events: Seq<WindowEvent>) -> bool {
    exists|i: int| 0 <= i < events.len() && (#[trigger] events[i]).mutates()
}

/// `events` as steps.
pub open spec fn event_steps(events: Seq<WindowEvent>) -> Seq<Step> {
    Seq::new(events.len(), |i: int| Step::Event(events[i]))
}

/// `events` as one batch: the begin mark, the events, the end mark.
pub open spec fn batch_steps(events: Seq<WindowEvent>) -> Seq<Step> {
    seq![Step::BatchBegin] + event_steps(events).push(Step::BatchEnd)
}

/// A resize to each of `sizes`, in order.
pub open spec fn resizes(sizes: Seq<Size>) -> Seq<WindowEvent> {
    Seq::new(sizes.len(), |i: int| WindowEvent::Resized(sizes[i]))
}

/// The writes that are due, as a sequence: one or none.
pub open spec fn due(write: Option<AppConfig>) -> Seq<AppConfig> {
    match write {
        Some(snapshot) => seq![snapshot],
        None => seq![],
    }
}

impl StoreView {
    /// The store after `step`.
    pub open spec fn step(self, step: Step) -> StoreView {
        match step {
            Step::Event(event) => StoreView {
                config: event.applied(self.config),
                phase: match self.phase {
                    Phase::Idle => Phase::Idle,
                    Phase::Batching { dirty } => Phase::Batching {
                        dirty: dirty || event.mutates(),
                    },
                },
            },
            Step::BatchBegin => StoreView {
                config: self.config,
                phase: match self.phase {
                    Phase::Idle => Phase::Batching { dirty: false },
                    Phase::Batching { dirty } => Phase::Batching { dirty },
                },
            },
            Step::BatchEnd => StoreView { config: self.config, phase: Phase::Idle },
        }
    }

    /// The snapshot that is due for writing when the store takes `step`.
    ///
    /// Outside a batch, a move or a resize is due at once, as the state it
    /// leads to. Inside a batch no event is due. The end of a batch in
    /// which something changed is due, as the state then reached.
    pub open spec fn write_of(self, step: Step) -> Option<AppConfig> {
        match step {
            Step::Event(event) => if self.phase is Idle && event.mutates() {
                Some(event.applied(self.config))
            } else {
                None
            },
            Step::BatchBegin => None,
            Step::BatchEnd => if self.phase == (Phase::Batching { dirty: true }) {
                Some(self.config)
            } else {
                None
            },
        }
    }

    /// The store after all of `steps`, in order.
    pub open spec fn run(self, steps: Seq<Step>) -> StoreView
        decreases steps.len(),
    {
        if steps.len() == 0 {
            self
        } else {
            self.step(steps.first()).run(steps.drop_first())
        }
    }

    /// The snapshots due for writing over all of `steps`, in order.
    pub open spec fn writes(self, steps: Seq<Step>) -> Seq<AppConfig>
        decreases steps.len(),
    {
        if steps.len() == 0 {
            seq![]
        } else {
            due(self.write_of(steps.first())) + self.step(steps.first()).writes(
                steps.drop_first(),
            )
        }
    }

    /// Whether a batch is open in which something changed.
    pub open spec fn dirty(self) -> bool {
        self.phase == (Phase::Batching { dirty: true })
    }
}

/// The store.
#[derive(Debug)]
pub struct Store {
    config: AppConfig,
    phase: Phase,
}

impl View for Store {
    type V = StoreView;

    closed spec fn view(&self) -> StoreView {
        StoreView { config: self.config, phase: self.phase }
    }
}

impl Store {
    /// A store that holds `config`, with no batch open.
    pub fn new(config: AppConfig) -> (store: Store)
        ensures
            store@ == (StoreView { config, phase: Phase::Idle }),
    {
        Store { config, phase: Phase::Idle }
    }

    /// The whole state as it stands.
    pub fn snapshot(&self) -> (config: AppConfig)
        ensures
            config == self@.config,
    {
        self.config
    }

    /// The phase the store is in.
    pub fn phase(&self) -> (phase: Phase)
        ensures
            phase == self@.phase,
    {
        self.phase
    }

    /// Takes one event, and hands back the snapshot to write if one is due.
    pub fn handle_event(&mut self, event: WindowEvent) -> (write: Option<AppConfig>)
        ensures
            final(self)@ == old(self)@.step(Step::Event(event)),
            write == old(self)@.write_of(Step::Event(event)),
    {
        match event {
            WindowEvent::Moved(position) => {
                self.config.position = position;
            },
            WindowEvent::Resized(size) => {
                self.config.size = size;
            },
            WindowEvent::Other => {
                return None;
            },
        }
        match self.phase {
            Phase::Idle => Some(self.config),
            Phase::Batching { dirty: _ } => {
                self.phase = Phase::Batching { dirty: true };
                None
            },
        }
    }

    /// The window moved: sets the position and nothing else.
    pub fn handle_window_moved(&mut self, position: Point) -> (write: Option<AppConfig>)
        ensures
            final(self)@ == old(self)@.step(Step::Event(WindowEvent::Moved(position))),
            write == old(self)@.write_of(Step::Event(WindowEvent::Moved(position))),
            final(self)@.config == old(self)@.config.moved_to(position),
            write is Some <==> old(self)@.phase is Idle,
            write matches Some(snapshot) ==> snapshot == final(self)@.config,
    {
        self.handle_event(WindowEvent::Moved(position))
    }

    /// The window was resized: sets the size and nothing else.
    pub fn handle_window_resized(&mut self, size: Size) -> (write: Option<AppConfig>)
        ensures
            final(self)@ == old(self)@.step(Step::Event(WindowEvent::Resized(size))),
            write == old(self)@.write_of(Step::Event(WindowEvent::Resized(size))),
            final(self)@.config == old(self)@.config.resized_to(size),
            write is Some <==> old(self)@.phase is Idle,
            write matches Some(snapshot) ==> snapshot == final(self)@.config,
    {
        self.handle_event(WindowEvent::Resized(size))
    }

    /// A batch of updates begins. Inside an open batch this changes nothing.
    pub fn begin_batch(&mut self)
        ensures
            final(self)@ == old(self)@.step(Step::BatchBegin),
    {
        match self.phase {
            Phase::Idle => {
                self.phase = Phase::Batching { dirty: false };
            },
            Phase::Batching { dirty: _ } => {},
        }
    }

    /// The batch has settled: hands back the one snapshot to write, if
    /// anything changed since the batch began.
    pub fn end_batch(&mut self) -> (write: Option<AppConfig>)
        ensures
            final(self)@ == old(self)@.step(Step::BatchEnd),
            write == old(self)@.write_of(Step::BatchEnd),
    {
        let write = match self.phase {
            Phase::Batching { dirty: true } => Some(self.config),
            _ => None,
        };
        self.phase = Phase::Idle;
        write
    }

    /// Takes `events` as one batch: begins it, applies each event in order,
    /// and settles it. Hands back the one snapshot to write, which is the
    /// state after the last event, if any of the events was a move or a
    /// resize or an open batch had changes waiting.
    pub fn apply_batch(&mut self, events: &Vec<WindowEvent>) -> (write: Option<AppConfig>)
        ensures
            final(self)@ == old(self)@.run(batch_steps(events@)),
            due(write) == old(self)@.writes(batch_steps(events@)),
            final(self)@.config == fold(old(self)@.config, events@),
            final(self)@.phase is Idle,
            write == if old(self)@.dirty() || any_mutation(events@) {
                Some(final(self)@.config)
            } else {
                None
            },
    {
        let ghost before = self@;
        self.begin_batch();
        let ghost begun = self@;
        let mut i: usize = 0;
        assert(events@.skip(0) == events@);
        while i < events.len()
            invariant
                i <= events.len(),
                self@.phase is Batching,
                fold(self@.config, events@.skip(i as int)) == fold(begun.config, events@),
                self@.dirty() || any_mutation(events@.skip(i as int)) <==> begun.dirty()
                    || any_mutation(events@),
            decreases events.len() - i,
        {
            proof {
                assert(events@.skip(i as int).first() == events@[i as int]);
                assert(events@.skip(i as int).drop_first() == events@.skip(i as int + 1));
                lemma_any_mutation_unfold(events@.skip(i as int));
            }
            self.handle_event(events[i]);
            i = i + 1;
        }
        assert(events@.skip(i as int).len() == 0);
        proof {
            lemma_batch_tail(begun, events@);
            assert(batch_steps(events@).first() == Step::BatchBegin);
            assert(batch_steps(events@).drop_first() == event_steps(events@).push(
                Step::BatchEnd,
            ));
        }
        self.end_batch()
    }
}

/// Inside an open batch, events and the end mark together lead to the
/// state after the last event with no batch open, and leave one snapshot
/// due, of that state, if the batch had or got a change, and none if not.
pub proof fn lemma_batch_tail(store: StoreView, events: Seq<WindowEvent>)
    requires
        store.phase is Batching,
    ensures
        store.run(event_steps(events).push(Step::BatchEnd)) == (StoreView {
            config: fold(store.config, events),
            phase: Phase::Idle,
        }),
        store.writes(event_steps(events).push(Step::BatchEnd)) == due(
            if store.dirty() || any_mutation(events) {
                Some(fold(store.config, events))
            } else {
                None
            },
        ),
    decreases events.len(),
{
    let steps = event_steps(events).push(Step::BatchEnd);
    if events.len() == 0 {
        assert(steps.first() == Step::BatchEnd);
        assert(steps.drop_first().len() == 0);
        let after = store.step(Step::BatchEnd);
        assert(after.run(steps.drop_first()) == after);
        assert(after.writes(steps.drop_first()) == Seq::<AppConfig>::empty());
        assert(store.writes(steps) == due(store.write_of(Step::BatchEnd)));
    } else {
        let event = events.first();
        let after = store.step(Step::Event(event));
        lemma_any_mutation_unfold(events);
        assert(steps.first() == Step::Event(event));
        assert(steps.drop_first() == event_steps(events.drop_first()).push(Step::BatchEnd));
        lemma_batch_tail(after, events.drop_first());
        assert(store.write_of(Step::Event(event)) is None);
        assert(store.writes(steps) == after.writes(steps.drop_first()));
    }
}

/// Outside a batch, each move and each resize is written exactly once, at
/// once, as the whole state it leads to.
pub proof fn law_each_change_is_written(store: StoreView, event: WindowEvent)
    requires
        store.phase is Idle,
        event.mutates(),
    ensures
        store.writes(seq![Step::Event(event)]) == seq![event.applied(store.config)],
        store.run(seq![Step::Event(event)]) == (StoreView {
            config: event.applied(store.config),
            phase: Phase::Idle,
        }),
{
    let steps = seq![Step::Event(event)];
    assert(steps.first() == Step::Event(event));
    assert(steps.drop_first().len() == 0);
    let after = store.step(Step::Event(event));
    assert(after.run(steps.drop_first()) == after);
    assert(after.writes(steps.drop_first()) == Seq::<AppConfig>::empty());
}

/// A batch is written at most once, whatever it holds: once, as the state
/// after its last event, if any of its events is a move or a resize, and
/// not at all otherwise.
pub proof fn law_batch_is_written_once(store: StoreView, events: Seq<WindowEvent>)
    requires
        store.phase is Idle,
    ensures
        store.run(batch_steps(events)) == (StoreView {
            config: fold(store.config, events),
            phase: Phase::Idle,
        }),
        store.writes(batch_steps(events)) == due(
            if any_mutation(events) {
                Some(fold(store.config, events))
            } else {
                None
            },
        ),
        store.writes(batch_steps(events)).len() <= 1,
{
    let steps = batch_steps(events);
    let begun = store.step(Step::BatchBegin);
    assert(steps.first() == Step::BatchBegin);
    assert(steps.drop_first() == event_steps(events).push(Step::BatchEnd));
    lemma_batch_tail(begun, events);
}

/// After one or more resizes the size is the last one given, and nothing
/// else has changed.
pub proof fn lemma_fold_resizes(config: AppConfig, sizes: Seq<Size>)
    requires
        sizes.len() > 0,
    ensures
        fold(config, resizes(sizes)) == config.resized_to(sizes.last()),
        any_mutation(resizes(sizes)),
    decreases sizes.len(),
{
    let events = resizes(sizes);
    let next = config.resized_to(sizes.first());
    assert(events[0] == WindowEvent::Resized(sizes.first()));
    assert(events.drop_first() == resizes(sizes.drop_first()));
    if sizes.len() == 1 {
        assert(fold(next, events.drop_first()) == next);
    } else {
        lemma_fold_resizes(next, sizes.drop_first());
    }
}

/// However many resizes arrive in one batch, exactly one snapshot is
/// written: the state as it was before the batch, with the last of the
/// sizes in place of its size.
pub proof fn law_resizes_coalesce(store: StoreView, sizes: Seq<Size>)
    requires
        store.phase is Idle,
        sizes.len() > 0,
    ensures
        store.writes(batch_steps(resizes(sizes))) == seq![
            store.config.resized_to(sizes.last()),
        ],
        store.run(batch_steps(resizes(sizes))) == (StoreView {
            config: store.config.resized_to(sizes.last()),
            phase: Phase::Idle,
        }),
{
    lemma_fold_resizes(store.config, sizes);
    law_batch_is_written_once(store, resizes(sizes));
}

/// Some event changes the state exactly when the first does or one of
/// the rest does.
pub proof fn lemma_any_mutation_unfold(events: Seq<WindowEvent>)
    requires
        events.len() > 0,
    ensures
        any_mutation(events) <==> events.first().mutates() || any_mutation(events.drop_first()),
{
    let rest = events.drop_first();
    if any_mutation(events) {
        let i = choose|i: int| 0 <= i < events.len() && (#[trigger] events[i]).mutates();
        if i > 0 {
            assert(rest[i - 1].mutates());
        }
    }
    if any_mutation(rest) {
        let j = choose|j: int| 0 <= j < rest.len() && (#[trigger] rest[j]).mutates();
        assert(events[j + 1].mutates());
    }
    if events.first().mutates() {
        assert(events[0].mutates());
    }
}

} // verus!
