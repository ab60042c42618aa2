//! The playback worker: a state machine owning the single active-sound slot.
//!
//! The worker lives on one dedicated thread, acquires the audio output device
//! once at startup, and then consumes commands forever. Its verified part is
//! the decision logic: given the next command and the outcome of resolving a
//! sound name to a decodable resource, decide the next state and which device
//! action to perform. The device operations themselves (stopping, starting,
//! the settle delay) are carried out by the surrounding unverified loop, which
//! obeys the returned [`SinkAction`].

use vstd::prelude::*;

use crate::command::{AudioCommand, CommandView};

verus! {

/// Lifecycle of the worker after its one device-acquisition attempt:
/// `Running` is the sole steady state; `Terminated` is entered once, at
/// startup, when the device cannot be acquired, and is never left.
#[derive(Clone, Copy, Debug, PartialEq, Eq, Structural)]
pub enum WorkerPhase {
    Running,
    Terminated,
}

/// What the device-owning loop must do after a command was decided on.
#[derive(Clone, Copy, Debug, PartialEq, Eq, Structural)]
pub enum SinkAction {
    /// Stop whatever plays, reset volume and position, start the new sound,
    /// then wait the settle delay before reading the next command.
    StartNew,
    /// Stop whatever plays; the active slot becomes empty.
    Silence,
    /// Leave playback exactly as it is (the requested sound did not resolve).
    Ignore,
}

/// The worker's state: its lifecycle phase and the single active-sound slot.
/// At most one sound is active at any instant, by construction.
pub struct WorkerState {
    phase: WorkerPhase,
    active: Option<String>,
}

/// The mathematical view of a worker: whether it still runs, and the name of
/// the sound in the active slot, if any.
pub struct WorkerView {
    pub running: bool,
    pub active: Option<Seq<char>>,
}

impl View for WorkerState {
    type V = WorkerView;

    closed spec fn view(&self) -> WorkerView {
        WorkerView {
            running: self.phase is Running,
            active: match self.active {
                Some(name) => Some(name@),
                None => None,
            },
        }
    }
}

/// Whether a logical sound name resolves to a playable resource, given the
/// names that the resolver knows.
pub open spec fn resolves(avail: Seq<Seq<char>>, id: Seq<char>) -> bool {
    avail.contains(id)
}

/// One transition of the worker: the state after processing `c`, where
/// `resolved` says whether the requested resource could be produced. A stop
/// request empties the active slot; a play request that resolved replaces it;
/// a play request that did not resolve changes nothing. The phase never
/// changes.
pub open spec fn step_model(w: WorkerView, c: CommandView, resolved: bool) -> WorkerView {
    match c {
        CommandView::Stop => WorkerView { running: w.running, active: None },
        CommandView::Play { id } => if resolved {
            WorkerView { running: w.running, active: Some(id) }
        } else {
            w
        },
    }
}

/// One transition with resolution decided by the available names.
pub open spec fn process_model(w: WorkerView, c: CommandView, avail: Seq<Seq<char>>) -> WorkerView {
    match c {
        CommandView::Stop => step_model(w, c, false),
        CommandView::Play { id } => step_model(w, c, resolves(avail, id)),
    }
}

/// The state after processing a whole queue of commands, front first.
pub open spec fn run_model(w: WorkerView, cmds: Seq<CommandView>, avail: Seq<Seq<char>>) -> WorkerView
    decreases cmds.len(),
{
    if cmds.len() == 0 {
        w
    } else {
        run_model(process_model(w, cmds[0], avail), cmds.drop_first(), avail)
    }
}

/// Queued commands are honoured strictly in arrival order: running the worker
/// over `earlier` followed by `later` is the same as running it over `earlier`
/// first and over `later` afterwards.
pub proof fn lemma_run_in_order(
    w: WorkerView,
    earlier: Seq<CommandView>,
    later: Seq<CommandView>,
    avail: Seq<Seq<char>>,
)
    ensures
        run_model(w, earlier + later, avail) == run_model(
            run_model(w, earlier, avail),
            later,
            avail,
        ),
    decreases earlier.len(),
{
    if earlier.len() == 0 {
        assert(earlier + later =~= later);
    } else {
        assert((earlier + later)[0] == earlier[0]);
        assert((earlier + later).drop_first() =~= earlier.drop_first() + later);
        lemma_run_in_order(process_model(w, earlier[0], avail), earlier.drop_first(), later, avail);
    }
}

/// Processing commands never changes the worker's lifecycle phase: a running
/// worker keeps running, a terminated one stays terminated.
pub proof fn lemma_run_preserves_phase(
    w: WorkerView,
    cmds: Seq<CommandView>,
    avail: Seq<Seq<char>>,
)
    ensures
        run_model(w, cmds, avail).running == w.running,
    decreases cmds.len(),
{
    if cmds.len() > 0 {
        lemma_run_preserves_phase(process_model(w, cmds[0], avail), cmds.drop_first(), avail);
    }
}

/// When every queued command asks to play a sound that resolves, exactly one
/// sound is active once the queue has drained: the last one requested. This
/// holds for every order in which concurrent requests entered the queue, and
/// the worker's phase is untouched throughout.
pub proof fn lemma_last_play_wins(w: WorkerView, cmds: Seq<CommandView>, avail: Seq<Seq<char>>)
    requires
        cmds.len() > 0,
        forall|i: int|
            0 <= i < cmds.len() ==> (#[trigger] cmds[i]) is Play && resolves(avail, cmds[i]->id),
    ensures
        run_model(w, cmds, avail).active == Some(cmds.last()->id),
        run_model(w, cmds, avail).running == w.running,
    decreases cmds.len(),
{
    lemma_run_preserves_phase(w, cmds, avail);
    if cmds.len() > 1 {
        assert forall|i: int|
            0 <= i < cmds.drop_first().len() implies (#[trigger] cmds.drop_first()[i]) is Play
            && resolves(avail, cmds.drop_first()[i]->id) by {
            assert(cmds.drop_first()[i] == cmds[i + 1]);
        }
        lemma_last_play_wins(process_model(w, cmds[0], avail), cmds.drop_first(), avail);
        assert(cmds.drop_first().last() == cmds.last());
    } else {
        assert(cmds[0] is Play && resolves(avail, cmds[0]->id));
        assert(cmds.drop_first().len() == 0);
        assert(run_model(process_model(w, cmds[0], avail), cmds.drop_first(), avail)
            == process_model(w, cmds[0], avail));
        assert(cmds.last() == cmds[0]);
    }
}

/// A stop request while no sound is active is a no-op: the worker's state
/// afterwards is exactly the state before.
pub proof fn lemma_stop_when_silent(w: WorkerView, resolved: bool)
    requires
        w.active is None,
    ensures
        step_model(w, CommandView::Stop, resolved) == w,
{
}

/// Two stop requests in a row have the same effect as a single one.
pub proof fn lemma_stop_idempotent(w: WorkerView, r1: bool, r2: bool)
    ensures
        step_model(step_model(w, CommandView::Stop, r1), CommandView::Stop, r2) == step_model(
            w,
            CommandView::Stop,
            r1,
        ),
{
}

/// Requesting stop twice in a row has, once the queue drains, the same effect
/// on the worker as requesting it once, after any history of commands.
pub proof fn lemma_double_stop_same_as_one(
    w: WorkerView,
    cmds: Seq<CommandView>,
    avail: Seq<Seq<char>>,
)
    ensures
        run_model(w, cmds.push(CommandView::Stop).push(CommandView::Stop), avail) == run_model(
            w,
            cmds.push(CommandView::Stop),
            avail,
        ),
{
    let one = seq![CommandView::Stop];
    let two = seq![CommandView::Stop, CommandView::Stop];
    assert(cmds.push(CommandView::Stop) =~= cmds + one);
    assert(cmds.push(CommandView::Stop).push(CommandView::Stop) =~= cmds + two);
    lemma_run_in_order(w, cmds, one, avail);
    lemma_run_in_order(w, cmds, two, avail);
    let base = run_model(w, cmds, avail);
    assert(two.drop_first() =~= one);
    assert(one.drop_first() =~= Seq::<CommandView>::empty());
    assert(one[0] == CommandView::Stop);
    assert(two[0] == CommandView::Stop);
    let stopped = process_model(base, CommandView::Stop, avail);
    assert(run_model(stopped, Seq::<CommandView>::empty(), avail) == stopped);
    assert(run_model(base, one, avail) == stopped);
    assert(run_model(base, two, avail) == run_model(stopped, one, avail));
    assert(run_model(stopped, one, avail) == process_model(stopped, CommandView::Stop, avail));
}

/// A play request whose sound did not resolve leaves the worker untouched:
/// whatever was active keeps playing, undisturbed.
pub proof fn lemma_unresolved_play(w: WorkerView, id: Seq<char>)
    ensures
        step_model(w, CommandView::Play { id }, false) == w,
{
}

/// A resolved play request preempts: afterwards the requested sound, and only
/// it, occupies the active slot, whatever was active before.
pub proof fn lemma_play_preempts(w: WorkerView, id: Seq<char>)
    ensures
        step_model(w, CommandView::Play { id }, true).active == Some(id),
        step_model(w, CommandView::Play { id }, true).running == w.running,
{
}

impl WorkerState {
    /// A terminated worker holds no active sound: when the device was never
    /// acquired, nothing was ever started.
    pub open spec fn wf(self) -> bool {
        !self@.running ==> self@.active is None
    }

    /// The one startup transition: the worker leaves its unstarted state for
    /// `Running` when the device was acquired, for `Terminated` otherwise.
    /// Either way the active slot starts empty.
    pub fn initialize(device_ok: bool) -> (w: WorkerState)
        ensures
            w.wf(),
            w@.running == device_ok,
            w@.active is None,
    {
        WorkerState {
            phase: if device_ok { WorkerPhase::Running } else { WorkerPhase::Terminated },
            active: None,
        }
    }

    /// Process one command. `resolved` reports whether the requested sound
    /// name was resolved and decoded; it is ignored for a stop request. The
    /// returned action tells the device-owning loop what to do: a resolved
    /// play request preempts whatever is active, an unresolved one is
    /// contained and leaves playback untouched, a stop request silences.
    pub fn step(&mut self, cmd: &AudioCommand, resolved: bool) -> (a: SinkAction)
        requires
            old(self)@.running,
        ensures
            final(self)@ == step_model(old(self)@, cmd@, resolved),
            final(self).wf(),
            (a == SinkAction::StartNew) <==> (cmd@ is Play && resolved),
            (a == SinkAction::Ignore) <==> (cmd@ is Play && !resolved),
            (a == SinkAction::Silence) <==> cmd@ is Stop,
    {
        match cmd {
            AudioCommand::StopAll => {
                self.active = None;
                SinkAction::Silence
            },
            AudioCommand::PlaySound(name) => {
                if resolved {
                    self.active = Some(name.clone());
                    SinkAction::StartNew
                } else {
                    SinkAction::Ignore
                }
            },
        }
    }

    /// Whether the worker still accepts work.
    pub fn is_running(&self) -> (b: bool)
        ensures
            b == self@.running,
    {
        match self.phase {
            WorkerPhase::Running => true,
            WorkerPhase::Terminated => false,
        }
    }

    /// The name of the sound in the active slot, if any.
    pub fn active_sound(&self) -> (r: Option<&String>)
        ensures
            match r {
                Some(name) => self@.active == Some(name@),
                None => self@.active is None,
            },
    {
        self.active.as_ref()
    }
}

} // verus!
