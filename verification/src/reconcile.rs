use crate::app_state::AppState;
use crate::app_state::Track;
use crate::app_state::is_valid_sample;
use crate::app_state::valid_sample;
use crate::lyrics::LyricsFetcher;
use crate::lyrics::LyricsResult;
use crate::lyrics::resolution;
use crate::lyrics::resolve;
use crate::shared_state::SharedState;
use vstd::prelude::*;

verus! {

/// How long the loop waits before it tries again to reach the player.
pub const RETRY_BACKOFF_MILLIS: u64 = 250;

/// How long the loop rests when the player had nothing new.
pub const POLL_PAUSE_MILLIS: u64 = 50;

/// Where the background loop stands.
#[derive(Debug, PartialEq, Eq)]
pub enum LoopPhase {
    /// No connection to the player yet.
    Disconnected,
    /// Connected; the player is asked for its song again and again.
    Connected,
    /// The lyrics of this song are being fetched.
    Fetching { song_name: String, artist_name: String },
}

/// What came back from the work that the loop asked for.
#[derive(Debug, PartialEq, Eq)]
pub enum LoopEvent {
    /// A pause has ended, or the loop has just been started.
    Woke,
    /// The player could not be reached.
    ConnectFailed,
    /// The player has been reached.
    ConnectSucceeded,
    /// The player named its current song.
    Sample { title: String, artist: String },
    /// The player had no song to name.
    NoSample,
    /// The provider has answered.
    Fetched(LyricsResult),
}

/// What the loop asks to be done next.
#[derive(Debug, PartialEq, Eq)]
pub enum LoopAction {
    /// Try to reach the player.
    Connect,
    /// Pause for `RETRY_BACKOFF_MILLIS`.
    Backoff,
    /// Ask the player for its current song.
    Poll,
    /// Pause for `POLL_PAUSE_MILLIS`.
    Idle,
    /// Ask the provider for the lyrics of this song.
    Fetch { song_name: String, artist_name: String },
}

/// One step of the loop: where it stands afterwards, the state to commit, if
/// any, and what to do next.
#[derive(Debug, PartialEq, Eq)]
pub struct Transition {
    pub phase: LoopPhase,
    pub commit: Option<AppState>,
    pub action: LoopAction,
}

/// What a `LoopPhase` holds, as mathematical values.
pub ghost enum Phase {
    Disconnected,
    Connected,
    Fetching { song_name: Seq<char>, artist_name: Seq<char> },
}

/// What a `LoopAction` holds, as mathematical values.
pub ghost enum Action {
    Connect,
    Backoff,
    Poll,
    Idle,
    Fetch { song_name: Seq<char>, artist_name: Seq<char> },
}

/// What a `Transition` holds, as mathematical values.
pub ghost struct Step {
    pub phase: Phase,
    pub commit: Option<Track>,
    pub action: Action,
}

impl View for LoopPhase {
    type V = Phase;

    open spec fn view(&self) -> Phase {
        match *self {
            LoopPhase::Disconnected => Phase::Disconnected,
            LoopPhase::Connected => Phase::Connected,
            LoopPhase::Fetching { song_name, artist_name } => Phase::Fetching {
                song_name: song_name@,
                artist_name: artist_name@,
            },
        }
    }
}

impl View for LoopAction {
    type V = Action;

    open spec fn view(&self) -> Action {
        match *self {
            LoopAction::Connect => Action::Connect,
            LoopAction::Backoff => Action::Backoff,
            LoopAction::Poll => Action::Poll,
            LoopAction::Idle => Action::Idle,
            LoopAction::Fetch { song_name, artist_name } => Action::Fetch {
                song_name: song_name@,
                artist_name: artist_name@,
            },
        }
    }
}

/// The state that a transition commits, as a mathematical value.
pub open spec fn commit_view(commit: Option<AppState>) -> Option<Track> {
    match commit {
        Some(state) => Some(state@),
        None => None,
    }
}

impl View for Transition {
    type V = Step;

    open spec fn view(&self) -> Step {
        Step { phase: self.phase@, commit: commit_view(self.commit), action: self.action@ }
    }
}

impl Phase {
    /// A phase that fetches names both song and artist.
    pub open spec fn wf(self) -> bool {
        self matches Phase::Fetching { song_name, artist_name } ==> valid_sample(
            song_name,
            artist_name,
        )
    }
}

/// An event that the phase does not wait for changes nothing: the loop
/// pauses and goes on from where it stands.
pub open spec fn ignored(phase: Phase) -> Step {
    Step { phase, commit: None, action: Action::Idle }
}

/// The step that the loop takes in `phase`, with the shared state at
/// `current`, when `event` arrives.
///
/// Disconnected, it connects, and backs off after each failure. Connected, it
/// polls: a usable sample of another song than `current` tracks commits
/// `FetchingLyrics` and starts the fetch, anything else leads to a pause.
/// Fetching, the provider's answer commits the state in which the attempt
/// ends, and polling goes on.
pub open spec fn step_spec(phase: Phase, current: Track, event: LoopEvent) -> Step {
    match phase {
        Phase::Disconnected => match event {
            LoopEvent::Woke => Step { phase, commit: None, action: Action::Connect },
            LoopEvent::ConnectFailed => Step { phase, commit: None, action: Action::Backoff },
            LoopEvent::ConnectSucceeded => Step {
                phase: Phase::Connected,
                commit: None,
                action: Action::Poll,
            },
            _ => ignored(phase),
        },
        Phase::Connected => match event {
            LoopEvent::Woke => Step { phase, commit: None, action: Action::Poll },
            LoopEvent::Sample { title, artist } => if valid_sample(title@, artist@)
                && current.differs_from(title@, artist@) {
                Step {
                    phase: Phase::Fetching { song_name: title@, artist_name: artist@ },
                    commit: Some(Track::FetchingLyrics { song_name: title@, artist_name: artist@ }),
                    action: Action::Fetch { song_name: title@, artist_name: artist@ },
                }
            } else {
                ignored(phase)
            },
            _ => ignored(phase),
        },
        Phase::Fetching { song_name, artist_name } => match event {
            LoopEvent::Woke => Step {
                phase,
                commit: None,
                action: Action::Fetch { song_name, artist_name },
            },
            LoopEvent::Fetched(outcome) => Step {
                phase: Phase::Connected,
                commit: Some(resolution(song_name, artist_name, outcome)),
                action: Action::Poll,
            },
            _ => ignored(phase),
        },
    }
}

/// A transition that changes nothing and pauses.
fn ignore(phase: LoopPhase) -> (next: Transition)
    ensures
        next@ == ignored(phase@),
{
    Transition { phase, commit: None, action: LoopAction::Idle }
}

/// Takes one step of the loop. Nothing is read or written here: `current` is
/// the shared state as the caller has read it, and the state to commit is
/// handed back.
pub fn step(phase: LoopPhase, current: &AppState, event: LoopEvent) -> (next: Transition)
    ensures
        next@ == step_spec(phase@, current@, event),
{
    match phase {
        LoopPhase::Disconnected => match event {
            LoopEvent::Woke => Transition { phase, commit: None, action: LoopAction::Connect },
            LoopEvent::ConnectFailed => Transition {
                phase,
                commit: None,
                action: LoopAction::Backoff,
            },
            LoopEvent::ConnectSucceeded => Transition {
                phase: LoopPhase::Connected,
                commit: None,
                action: LoopAction::Poll,
            },
            _ => ignore(phase),
        },
        LoopPhase::Connected => match event {
            LoopEvent::Woke => Transition { phase, commit: None, action: LoopAction::Poll },
            LoopEvent::Sample { title, artist } => {
                if is_valid_sample(title.as_str(), artist.as_str()) && current.is_different(
                    title.as_str(),
                    artist.as_str(),
                ) {
                    Transition {
                        phase: LoopPhase::Fetching {
                            song_name: title.clone(),
                            artist_name: artist.clone(),
                        },
                        commit: Some(
                            AppState::FetchingLyrics {
                                song_name: title.clone(),
                                artist_name: artist.clone(),
                            },
                        ),
                        action: LoopAction::Fetch { song_name: title, artist_name: artist },
                    }
                } else {
                    ignore(phase)
                }
            },
            _ => ignore(phase),
        },
        LoopPhase::Fetching { song_name, artist_name } => match event {
            LoopEvent::Woke => Transition {
                phase: LoopPhase::Fetching {
                    song_name: song_name.clone(),
                    artist_name: artist_name.clone(),
                },
                commit: None,
                action: LoopAction::Fetch { song_name, artist_name },
            },
            LoopEvent::Fetched(outcome) => Transition {
                phase: LoopPhase::Connected,
                commit: Some(resolve(song_name, artist_name, outcome)),
                action: LoopAction::Poll,
            },
            _ => ignore(LoopPhase::Fetching { song_name, artist_name }),
        },
    }
}

/// The background loop: it keeps the phase, and moves the shared state.
pub struct ReconciliationLoop {
    phase: LoopPhase,
}

impl ReconciliationLoop {
    #[verifier::type_invariant]
    spec fn inv(self) -> bool {
        self.phase@.wf()
    }

    /// The phase of the loop.
    pub closed spec fn phase_view(self) -> Phase {
        self.phase@
    }

    /// A loop that has not reached the player yet.
    pub fn new() -> (this: ReconciliationLoop)
        ensures
            this.phase_view() == Phase::Disconnected,
    {
        ReconciliationLoop { phase: LoopPhase::Disconnected }
    }

    /// Where the loop stands.
    pub fn phase(&self) -> (phase: &LoopPhase)
        ensures
            phase@ == self.phase_view(),
            phase@.wf(),
    {
        proof {
            use_type_invariant(self);
        }
        &self.phase
    }

    /// Takes `event` into the loop: reads the shared state, takes the step,
    /// commits what the step commits, and returns what to do next. The lock is
    /// free again before this returns. Whatever state was read, the step is
    /// the one that `step_spec` gives for it.
    pub fn on_event(&mut self, shared: &SharedState, event: LoopEvent) -> (action: LoopAction)
        ensures
            exists|current: Track|
                current.wf() && {
                    let taken = #[trigger] step_spec(old(self).phase_view(), current, event);
                    final(self).phase_view() == taken.phase && action@ == taken.action
                },
    {
        proof {
            use_type_invariant(&*self);
        }
        let current = shared.read_blocking();
        let mut phase = LoopPhase::Disconnected;
        std::mem::swap(&mut self.phase, &mut phase);
        let ghost before = phase@;
        let next = step(phase, &current, event);
        proof {
            lemma_step_keeps_invariants(before, current@, event);
        }
        self.phase = next.phase;
        match next.commit {
            Some(state) => shared.commit(state),
            None => {},
        }
        assert(step_spec(before, current@, event).phase == self.phase@);
        next.action
    }
}

/// Asks the provider for the lyrics of a song and commits the state in which
/// the attempt ends. The shared state is not touched while the provider
/// works: the lock is taken only afterwards, for the one assignment. Whatever
/// the provider answered, the state committed and returned is the resolution
/// of that answer.
pub fn fetch_and_commit<F: LyricsFetcher>(
    shared: &SharedState,
    fetcher: &F,
    song_name: &str,
    artist_name: &str,
) -> (committed: AppState)
    requires
        valid_sample(song_name@, artist_name@),
    ensures
        committed@.is_terminal(),
        committed@.wf(),
        exists|outcome: LyricsResult|
            committed@ == #[trigger] resolution(song_name@, artist_name@, outcome),
{
    let outcome = fetcher.get_lyrics(song_name, artist_name);
    let state = resolve(song_name.to_owned(), artist_name.to_owned(), outcome);
    shared.commit(state.clone());
    state
}

/// Steps keep the phase and the shared state well formed, and no step brings
/// `Connecting` back.
pub proof fn lemma_step_keeps_invariants(phase: Phase, current: Track, event: LoopEvent)
    requires
        phase.wf(),
    ensures
        step_spec(phase, current, event).phase.wf(),
        step_spec(phase, current, event).commit matches Some(state) ==> state.wf() && !(state
            is Connecting),
{
}

/// Until the player is reached, every failed attempt leads to a pause and
/// every pause to another attempt, however many have failed before.
pub proof fn lemma_retry_without_limit(current: Track)
    ensures
        step_spec(Phase::Disconnected, current, LoopEvent::ConnectFailed) == (Step {
            phase: Phase::Disconnected,
            commit: None,
            action: Action::Backoff,
        }),
        step_spec(Phase::Disconnected, current, LoopEvent::Woke) == (Step {
            phase: Phase::Disconnected,
            commit: None,
            action: Action::Connect,
        }),
{
}

/// A fetch is started exactly when `FetchingLyrics` is committed for the same
/// song, and a sample does so exactly when the loop is connected and the
/// sample is a usable one of another song than the shared state tracks.
pub proof fn lemma_sample_starts_fetch(
    phase: Phase,
    current: Track,
    title: String,
    artist: String,
)
    ensures
        ({
            let taken = step_spec(phase, current, LoopEvent::Sample { title, artist });
            let starts = phase is Connected && valid_sample(title@, artist@) && current.differs_from(
                title@,
                artist@,
            );
            &&& starts ==> taken.commit == Some(
                Track::FetchingLyrics { song_name: title@, artist_name: artist@ },
            ) && taken.action == (Action::Fetch { song_name: title@, artist_name: artist@ })
            &&& !starts ==> taken == ignored(phase)
        }),
{
}

/// While the shared state is fetching, or has fetched, the song of a sample,
/// the sample commits nothing and starts no fetch, in whatever phase and
/// however often it arrives.
pub proof fn lemma_same_sample_is_idle(phase: Phase, current: Track, title: String, artist: String)
    requires
        current.tracks(title@, artist@),
    ensures
        step_spec(phase, current, LoopEvent::Sample { title, artist }) == ignored(phase),
{
}

/// A sample with an empty title or an empty artist commits nothing and
/// starts no fetch, in whatever phase and state it arrives.
pub proof fn lemma_invalid_sample_is_idle(
    phase: Phase,
    current: Track,
    title: String,
    artist: String,
)
    requires
        title@.len() == 0 || artist@.len() == 0,
    ensures
        step_spec(phase, current, LoopEvent::Sample { title, artist }) == ignored(phase),
{
}

/// The provider's answer ends the fetch: the resolution of the answer for the
/// song that was being fetched is committed, and polling goes on.
pub proof fn lemma_answer_ends_fetch(
    song_name: Seq<char>,
    artist_name: Seq<char>,
    current: Track,
    outcome: LyricsResult,
)
    ensures
        step_spec(Phase::Fetching { song_name, artist_name }, current, LoopEvent::Fetched(outcome))
            == (Step {
            phase: Phase::Connected,
            commit: Some(resolution(song_name, artist_name, outcome)),
            action: Action::Poll,
        }),
{
}

} // verus!
