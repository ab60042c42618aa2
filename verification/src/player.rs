//! The caller-facing playback subsystem: queue, resolver and worker in one.
//!
//! Callers hand commands to [`ThreadSafeAudioPlayer::play_sound`] and
//! [`ThreadSafeAudioPlayer::stop_all`]; both only enqueue and return at once.
//! The worker consumes the queue strictly in arrival order. The resolver is
//! injectable: the player is built with the set of logical names that resolve
//! to a playable asset, so tests can swap in any resolver they like.

use vstd::prelude::*;

use crate::command::{AudioCommand, CommandView};
use crate::worker::{process_model, resolves, run_model, SinkAction, WorkerState};

verus! {

/// Why a request could not be accepted: the worker terminated (its one
/// device-acquisition attempt failed), so the channel to it is closed. This
/// is the only enqueue failure. A sound name that later fails to resolve is
/// contained inside the worker and never surfaces to the caller: the contract
/// of an accepted command is "accepted", not "played".
#[derive(Clone, Copy, Debug, PartialEq, Eq, Structural)]
pub enum AudioError {
    ChannelClosed,
}

/// The playback subsystem as one value: the names the resolver knows, the
/// queue of accepted commands, and the worker that owns the active-sound
/// slot. Constructed once at startup and driven for the life of the process.
pub struct ThreadSafeAudioPlayer {
    available: Vec<String>,
    queue: Vec<AudioCommand>,
    worker: WorkerState,
}

/// The mathematical view of the subsystem.
pub struct PlayerView {
    /// The logical names that resolve to a playable asset.
    pub avail: Seq<Seq<char>>,
    /// The accepted commands the worker has not consumed yet, oldest first.
    pub pending: Seq<CommandView>,
    /// The worker's phase and active-sound slot.
    pub worker: crate::worker::WorkerView,
}

impl View for ThreadSafeAudioPlayer {
    type V = PlayerView;

    closed spec fn view(&self) -> PlayerView {
        PlayerView {
            avail: self.available@.map_values(|s: String| s@),
            pending: self.queue@.map_values(|c: AudioCommand| c@),
            worker: self.worker@,
        }
    }
}

impl ThreadSafeAudioPlayer {
    /// Well-formedness: once the worker has terminated, nothing is queued —
    /// the channel closed before anything could be accepted — and no sound is
    /// active, since the device was never acquired.
    pub open spec fn wf(self) -> bool {
        &&& !self@.worker.running ==> self@.pending.len() == 0
        &&& !self@.worker.running ==> self@.worker.active is None
    }

    /// Builds the subsystem. `available` is the injectable resolver: the
    /// logical names that resolve to a playable asset. `device_ok` is the
    /// outcome of the worker's one device-acquisition attempt; on failure the
    /// worker is terminated from the start and every request will be refused.
    pub fn new(available: Vec<String>, device_ok: bool) -> (p: Self)
        ensures
            p.wf(),
            p@.avail == available@.map_values(|s: String| s@),
            p@.pending.len() == 0,
            p@.worker.running == device_ok,
            p@.worker.active is None,
    {
        let queue: Vec<AudioCommand> = Vec::new();
        proof {
            assert(queue@.map_values(|c: AudioCommand| c@) =~= Seq::<CommandView>::empty());
        }
        ThreadSafeAudioPlayer { available, queue, worker: WorkerState::initialize(device_ok) }
    }

    /// Requests playback of the sound with the given logical name. The call
    /// only enqueues and returns at once; it never waits on the device. While
    /// the worker runs, the request is accepted and appended behind every
    /// earlier one — never dropped, duplicated or reordered — whether or not
    /// the name will resolve. It fails, leaving everything unchanged, exactly
    /// when the worker has terminated.
    pub fn play_sound(&mut self, sound_type: &str) -> (r: Result<(), AudioError>)
        ensures
            final(self)@.avail == old(self)@.avail,
            final(self)@.worker == old(self)@.worker,
            old(self)@.worker.running ==> {
                &&& r is Ok
                &&& final(self)@.pending == old(self)@.pending.push(
                    CommandView::Play { id: sound_type@ },
                )
            },
            !old(self)@.worker.running ==> {
                &&& r == Err::<(), AudioError>(AudioError::ChannelClosed)
                &&& final(self)@.pending == old(self)@.pending
            },
            old(self).wf() ==> final(self).wf(),
    {
        if self.worker.is_running() {
            let cmd = AudioCommand::PlaySound(sound_type.to_owned());
            proof {
                assert(self.queue@.push(cmd).map_values(|c: AudioCommand| c@) =~= self.queue@
                    .map_values(|c: AudioCommand| c@).push(cmd@));
            }
            self.queue.push(cmd);
            Ok(())
        } else {
            Err(AudioError::ChannelClosed)
        }
    }

    /// Requests that whatever is playing be silenced. Like `play_sound` the
    /// call only enqueues: it is accepted and appended in arrival order while
    /// the worker runs, and fails, leaving everything unchanged, exactly when
    /// the worker has terminated. A stop request can fail for no other
    /// reason; sent while nothing is active it is a harmless no-op.
    pub fn stop_all(&mut self) -> (r: Result<(), AudioError>)
        ensures
            final(self)@.avail == old(self)@.avail,
            final(self)@.worker == old(self)@.worker,
            old(self)@.worker.running ==> {
                &&& r is Ok
                &&& final(self)@.pending == old(self)@.pending.push(CommandView::Stop)
            },
            !old(self)@.worker.running ==> {
                &&& r == Err::<(), AudioError>(AudioError::ChannelClosed)
                &&& final(self)@.pending == old(self)@.pending
            },
            old(self).wf() ==> final(self).wf(),
    {
        if self.worker.is_running() {
            let cmd = AudioCommand::StopAll;
            proof {
                assert(self.queue@.push(cmd).map_values(|c: AudioCommand| c@) =~= self.queue@
                    .map_values(|c: AudioCommand| c@).push(cmd@));
            }
            self.queue.push(cmd);
            Ok(())
        } else {
            Err(AudioError::ChannelClosed)
        }
    }

    /// Whether `sound_type` names a sound the resolver can produce.
    fn lookup(&self, sound_type: &String) -> (b: bool)
        ensures
            b == resolves(self@.avail, sound_type@),
    {
        let mut i: usize = 0;
        while i < self.available.len()
            invariant
                i <= self.available@.len(),
                forall|j: int| 0 <= j < i ==> self@.avail[j] != sound_type@,
            decreases self.available@.len() - i,
        {
            if self.available[i] == *sound_type {
                proof {
                    assert(self@.avail[i as int] == sound_type@);
                }
                return true;
            }
            i = i + 1;
        }
        proof {
            assert(!self@.avail.contains(sound_type@));
        }
        false
    }

    /// Lets the worker consume the command at the front of the queue, if any,
    /// and returns the device action that command decided on (`None` when the
    /// queue was empty). The front command is resolved against the available
    /// names and handed to the worker together with the outcome: a resolved
    /// play request preempts, an unresolved one is contained, a stop request
    /// silences.
    pub fn process_next(&mut self) -> (a: Option<SinkAction>)
        requires
            old(self).wf(),
        ensures
            final(self).wf(),
            final(self)@.avail == old(self)@.avail,
            old(self)@.pending.len() == 0 ==> {
                &&& a is None
                &&& final(self)@ == old(self)@
            },
            old(self)@.pending.len() > 0 ==> {
                &&& final(self)@.pending == old(self)@.pending.drop_first()
                &&& final(self)@.worker == process_model(
                    old(self)@.worker,
                    old(self)@.pending[0],
                    old(self)@.avail,
                )
                &&& (a == Some(SinkAction::StartNew)) <==> (old(self)@.pending[0] is Play
                    && resolves(old(self)@.avail, old(self)@.pending[0]->id))
                &&& (a == Some(SinkAction::Ignore)) <==> (old(self)@.pending[0] is Play
                    && !resolves(old(self)@.avail, old(self)@.pending[0]->id))
                &&& (a == Some(SinkAction::Silence)) <==> old(self)@.pending[0] is Stop
            },
    {
        if self.queue.len() == 0 {
            return None;
        }
        let cmd = self.queue.remove(0);
        proof {
            assert(old(self).queue@.remove(0).map_values(|c: AudioCommand| c@) =~= old(
                self,
            ).queue@.map_values(|c: AudioCommand| c@).drop_first());
            assert(cmd@ == old(self)@.pending[0]);
        }
        let resolved = match &cmd {
            AudioCommand::PlaySound(name) => self.lookup(name),
            AudioCommand::StopAll => false,
        };
        let action = self.worker.step(&cmd, resolved);
        Some(action)
    }

    /// Lets the worker consume the whole queue, front first, exactly as the
    /// dedicated thread does. Afterwards the queue is empty and the worker's
    /// state is the fold of every pending command in arrival order.
    pub fn drain(&mut self)
        requires
            old(self).wf(),
        ensures
            final(self).wf(),
            final(self)@.avail == old(self)@.avail,
            final(self)@.pending.len() == 0,
            final(self)@.worker == run_model(
                old(self)@.worker,
                old(self)@.pending,
                old(self)@.avail,
            ),
    {
        let ghost orig: PlayerView = self@;
        while self.queue.len() != 0
            invariant
                self.wf(),
                self@.avail == orig.avail,
                run_model(self@.worker, self@.pending, self@.avail) == run_model(
                    orig.worker,
                    orig.pending,
                    orig.avail,
                ),
            decreases self@.pending.len(),
        {
            self.process_next();
        }
    }

    /// Whether the worker still accepts requests.
    pub fn is_running(&self) -> (b: bool)
        ensures
            b == self@.worker.running,
    {
        self.worker.is_running()
    }

    /// The name of the sound in the active slot, if any.
    pub fn active_sound(&self) -> (r: Option<&String>)
        ensures
            match r {
                Some(name) => self@.worker.active == Some(name@),
                None => self@.worker.active is None,
            },
    {
        self.worker.active_sound()
    }

    /// How many accepted commands the worker has not consumed yet.
    pub fn pending_count(&self) -> (n: usize)
        ensures
            n == self@.pending.len(),
    {
        self.queue.len()
    }
}

} // verus!
