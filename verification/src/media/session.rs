use vstd::prelude::*;
use crate::media::navigation::{
    backward_target, cycle_repeat, forward_target, is_shuffle_of, next_repeat, shuffled,
    skip_backward_target, skip_forward_target, sources_of, RepeatState,
};
use crate::media::source::{optional_view, Playlist, PlaylistView};

verus! {

/// Whether the session plays, is paused or is stopped.
#[derive(Clone, Copy, Debug, PartialEq, Eq, Structural)]
pub enum PlayState {
    Paused,
    Playing,
    Stopped,
}

/// What the audio backend is asked to do. A command is handed over once and
/// never queued: where the backend is busy, the caller drops it.
#[derive(Debug, PartialEq, Eq)]
pub enum Command {
    /// Silence the output and leave an idle sink behind.
    Halt,
    /// Silence the output and keep the position `at`, in milliseconds.
    Suspend { at: u64 },
    /// Open `source` and begin output `at` milliseconds into it.
    Start { source: String, at: u64 },
}

/// A command as mathematical values.
pub enum CommandView {
    Halt,
    Suspend { at: nat },
    Start { source: Seq<char>, at: nat },
}

impl View for Command {
    type V = CommandView;

    open spec fn view(&self) -> CommandView {
        match *self {
            Command::Halt => CommandView::Halt,
            Command::Suspend { at } => CommandView::Suspend { at: at as nat },
            Command::Start { source, at } => CommandView::Start { source: source@, at: at as nat },
        }
    }
}

/// What an optional command holds, where there is one.
pub open spec fn optional_command(command: Option<Command>) -> Option<CommandView> {
    match command {
        Some(command) => Some(command@),
        None => None,
    }
}

/// The playback session: what is playing, from which list, in which state,
/// and how far into the track. Times are in milliseconds; clock readings
/// are milliseconds on a clock that the caller owns.
#[derive(Debug)]
pub struct Session {
    play_state: PlayState,
    repeat_state: RepeatState,
    is_shuffled: bool,
    starting: bool,
    stopping: bool,
    now_playing: String,
    now_playing_list: Option<Playlist>,
    sorted_reference_list: Option<Playlist>,
    elapsed: u64,
    start_offset: u64,
    total_duration: u64,
    clock_anchor: Option<u64>,
}

/// A session as mathematical values.
pub struct SessionView {
    pub play_state: PlayState,
    pub repeat_state: RepeatState,
    pub is_shuffled: bool,
    /// Set by an operation that started playback, until the next one.
    pub starting: bool,
    /// Set by an operation that paused or stopped playback, until the next one.
    pub stopping: bool,
    /// The current source; empty where nothing is selected.
    pub now_playing: Seq<char>,
    /// The list that skipping moves along.
    pub now_playing_list: Option<PlaylistView>,
    /// The list in its unshuffled order, to which turning shuffle off returns.
    pub sorted_reference_list: Option<PlaylistView>,
    pub elapsed: nat,
    pub start_offset: nat,
    /// The length of the current track; zero where it is unknown.
    pub total_duration: nat,
    /// The clock reading at which the running stretch of playback began.
    pub clock_anchor: Option<nat>,
}

impl SessionView {
    /// The time into the current track at the clock reading `now`: the
    /// stored `elapsed` while no stretch of playback runs, else the offset
    /// at which the stretch began plus the time since its anchor. A clock
    /// that reads less than the anchor counts as not having moved.
    pub open spec fn effective_elapsed(self, now: nat) -> nat {
        match self.clock_anchor {
            None => self.elapsed,
            Some(anchor) => if now >= anchor {
                (now - anchor + self.start_offset) as nat
            } else {
                self.start_offset
            },
        }
    }

    /// The session with `list` as its navigation list.
    pub open spec fn with_list(self, list: Option<PlaylistView>) -> SessionView {
        SessionView { now_playing_list: list, ..self }
    }

    /// The session after a stop: stopped, every timer at zero, no anchor.
    pub open spec fn stopped(self) -> SessionView {
        SessionView {
            play_state: PlayState::Stopped,
            starting: false,
            stopping: true,
            elapsed: 0,
            start_offset: 0,
            total_duration: 0,
            clock_anchor: None,
            ..self
        }
    }

    /// The session after a pause: the timers wait for the next tick.
    pub open spec fn paused(self) -> SessionView {
        SessionView { play_state: PlayState::Paused, starting: false, stopping: true, ..self }
    }

    /// The session after playback began: the timers wait for the next tick.
    pub open spec fn started(self) -> SessionView {
        SessionView { play_state: PlayState::Playing, starting: true, stopping: false, ..self }
    }

    /// The session after the play toggle: paused where it played, playing
    /// where it was paused or stopped.
    pub open spec fn toggled(self) -> SessionView {
        match self.play_state {
            PlayState::Playing => self.paused(),
            _ => self.started(),
        }
    }

    /// The command that goes with the play toggle at the clock reading `now`.
    pub open spec fn toggle_command(self, now: nat) -> CommandView {
        match self.play_state {
            PlayState::Playing => CommandView::Suspend { at: self.effective_elapsed(now) },
            _ => CommandView::Start { source: self.now_playing, at: self.elapsed },
        }
    }

    /// Whether `list` may be the navigation list after the shuffle policy
    /// ran. With shuffle on, it is some reordering of the current list.
    /// With shuffle off, it is the reference list where that holds a
    /// source, and the current list otherwise.
    pub open spec fn refreshes_to(self, list: Option<PlaylistView>) -> bool {
        if self.is_shuffled {
            list is Some && is_shuffle_of(list->0, self.now_playing_list)
        } else if sources_of(self.sorted_reference_list).len() > 0 {
            list == self.sorted_reference_list
        } else {
            list == self.now_playing_list
        }
    }

    /// Whether `after` is what beginning playback makes of a session that
    /// does not play: the list refreshed by the shuffle policy, the rest as
    /// `started` says.
    pub open spec fn plays_into(self, after: SessionView) -> bool {
        &&& self.refreshes_to(after.now_playing_list)
        &&& after == self.with_list(after.now_playing_list).started()
    }

    /// Whether `after` and `command` are what skipping forward makes of the
    /// session: stopped at the end of the list, else playing the target
    /// from its beginning.
    pub open spec fn skips_forward_into(self, after: SessionView, command: CommandView) -> bool {
        match forward_target(sources_of(self.now_playing_list), self.now_playing, self.repeat_state) {
            None => after == self.stopped() && command == CommandView::Halt,
            Some(target) => {
                &&& (SessionView { now_playing: target, ..self.stopped() }).plays_into(after)
                &&& command == CommandView::Start { source: target, at: 0 }
            },
        }
    }

    /// The session after skipping backward at the clock reading `now`:
    /// stopped, at the entry that `backward_target` names for the time
    /// that had elapsed before the stop.
    pub open spec fn skipped_backward(self, now: nat) -> SessionView {
        SessionView {
            now_playing: backward_target(
                sources_of(self.now_playing_list),
                self.now_playing,
                self.effective_elapsed(now),
            ),
            ..self.stopped()
        }
    }

    /// The session after a tick's reconciliation at the clock reading
    /// `now`: `elapsed` holds the effective elapsed time; where playback
    /// started, a new stretch begins at that offset; where it paused or
    /// stopped, the anchor is gone.
    pub open spec fn reconciled(self, now: nat) -> SessionView {
        let elapsed = self.effective_elapsed(now);
        let begun = if self.starting {
            SessionView { elapsed, start_offset: elapsed, clock_anchor: Some(now), ..self }
        } else {
            SessionView { elapsed, ..self }
        };
        if self.stopping {
            SessionView { clock_anchor: None, ..begun }
        } else {
            begun
        }
    }

    /// The session after a source was picked together with the list it
    /// stands in, which becomes the navigation list and its reference.
    pub open spec fn picked(self, source: Seq<char>, list: Option<PlaylistView>) -> SessionView {
        SessionView {
            now_playing: source,
            now_playing_list: list,
            sorted_reference_list: list,
            ..self
        }
    }

    /// Whether the current track has run to its end at the clock reading
    /// `now`, `total` being its length. Nothing ends while nothing is
    /// selected or the length is unknown.
    pub open spec fn track_ended(self, now: nat, total: nat) -> bool {
        &&& self.now_playing.len() > 0
        &&& total != 0
        &&& self.effective_elapsed(now) >= total
    }

    /// Whether `after` and `command` are what a tick makes of the session
    /// at the clock reading `now`, `total` being the length of the current
    /// track. Until the track ends only the length is refreshed. At its
    /// end the session stops and then plays the same track again under
    /// repeat-one, and skips forward otherwise.
    pub open spec fn ticks_into(self, now: nat, total: nat, after: SessionView, command: Option<CommandView>) -> bool {
        if self.track_ended(now, total) {
            match self.repeat_state {
                RepeatState::One => {
                    &&& self.stopped().plays_into(after)
                    &&& command == Some(CommandView::Start { source: self.now_playing, at: 0 })
                },
                _ => command is Some && self.stopped().skips_forward_into(after, command->0),
            }
        } else {
            &&& command is None
            &&& after == SessionView {
                total_duration: if self.now_playing.len() > 0 { total } else { 0 },
                ..self
            }
        }
    }
}

/// The source with which a playlist opens: where the list holds a source,
/// `selected` if the list ends with it and the first entry otherwise;
/// `now_playing` where the list is empty.
pub open spec fn opening_source(list: Seq<Seq<char>>, selected: Seq<char>, now_playing: Seq<char>) -> Seq<char> {
    if list.len() == 0 {
        now_playing
    } else if list.last() == selected {
        selected
    } else {
        list[0]
    }
}

impl View for Session {
    type V = SessionView;

    closed spec fn view(&self) -> SessionView {
        SessionView {
            play_state: self.play_state,
            repeat_state: self.repeat_state,
            is_shuffled: self.is_shuffled,
            starting: self.starting,
            stopping: self.stopping,
            now_playing: self.now_playing@,
            now_playing_list: optional_view(self.now_playing_list),
            sorted_reference_list: optional_view(self.sorted_reference_list),
            elapsed: self.elapsed as nat,
            start_offset: self.start_offset as nat,
            total_duration: self.total_duration as nat,
            clock_anchor: match self.clock_anchor {
                Some(anchor) => Some(anchor as nat),
                None => None,
            },
        }
    }
}

impl Session {
    /// A session at rest: stopped, nothing selected, no list, repeat and
    /// shuffle off, every timer at zero.
    pub fn new() -> (session: Self)
        ensures
            session@ == (SessionView {
                play_state: PlayState::Stopped,
                repeat_state: RepeatState::Off,
                is_shuffled: false,
                starting: false,
                stopping: false,
                now_playing: Seq::empty(),
                now_playing_list: None,
                sorted_reference_list: None,
                elapsed: 0,
                start_offset: 0,
                total_duration: 0,
                clock_anchor: None,
            }),
    {
        Session {
            play_state: PlayState::Stopped,
            repeat_state: RepeatState::Off,
            is_shuffled: false,
            starting: false,
            stopping: false,
            now_playing: String::new(),
            now_playing_list: None,
            sorted_reference_list: None,
            elapsed: 0,
            start_offset: 0,
            total_duration: 0,
            clock_anchor: None,
        }
    }

    /// Pauses, whatever the state was.
    pub fn pause(&mut self) -> (command: Command)
        ensures
            final(self)@ == old(self)@.paused(),
            command@ == CommandView::Halt,
    {
        self.play_state = PlayState::Paused;
        self.starting = false;
        self.stopping = true;
        Command::Halt
    }

    /// The play toggle at the clock reading `now`. The navigation list is
    /// refreshed by the shuffle policy first. A playing session pauses and
    /// keeps its position; any other begins to play the current source at
    /// the stored elapsed time.
    pub fn play(&mut self, now: u64) -> (command: Command)
        requires
            old(self)@.effective_elapsed(now as nat) <= u64::MAX,
        ensures
            old(self)@.refreshes_to(final(self)@.now_playing_list),
            final(self)@ == old(self)@.with_list(final(self)@.now_playing_list).toggled(),
            command@ == old(self)@.toggle_command(now as nat),
    {
        self.shuffle();
        match self.play_state {
            PlayState::Playing => {
                let at = self.get_elapsed_time(now);
                self.play_state = PlayState::Paused;
                self.starting = false;
                self.stopping = true;
                Command::Suspend { at }
            },
            _ => self.begin(),
        }
    }

    /// Begins to play the current source, the list already refreshed.
    fn begin(&mut self) -> (command: Command)
        ensures
            final(self)@ == old(self)@.started(),
            command@ == (CommandView::Start { source: old(self)@.now_playing, at: old(self)@.elapsed }),
    {
        self.play_state = PlayState::Playing;
        self.starting = true;
        self.stopping = false;
        Command::Start { source: self.now_playing.clone(), at: self.elapsed }
    }

    /// Moves the repeat state one step along its cycle.
    pub fn repeat(&mut self)
        ensures
            final(self)@ == (SessionView {
                repeat_state: next_repeat(old(self)@.repeat_state),
                ..old(self)@
            }),
    {
        self.repeat_state = cycle_repeat(self.repeat_state);
    }

    /// Refreshes the navigation list by the shuffle policy.
    pub fn shuffle(&mut self)
        ensures
            old(self)@.refreshes_to(final(self)@.now_playing_list),
            final(self)@ == old(self)@.with_list(final(self)@.now_playing_list),
    {
        if self.is_shuffled {
            let playlist = shuffled(&self.now_playing_list);
            self.now_playing_list = Some(playlist);
        } else {
            let restored = match &self.sorted_reference_list {
                Some(sorted) => if sorted.is_empty() {
                    None
                } else {
                    Some(sorted.clone())
                },
                None => None,
            };
            if let Some(sorted) = restored {
                self.now_playing_list = Some(sorted);
            }
        }
    }

    /// Turns shuffle on or off and refreshes the navigation list.
    pub fn toggle_shuffle(&mut self)
        ensures
            (SessionView { is_shuffled: !old(self)@.is_shuffled, ..old(self)@ }).refreshes_to(
                final(self)@.now_playing_list,
            ),
            final(self)@ == (SessionView {
                is_shuffled: !old(self)@.is_shuffled,
                now_playing_list: final(self)@.now_playing_list,
                ..old(self)@
            }),
    {
        self.is_shuffled = !self.is_shuffled;
        self.shuffle();
    }

    /// Stops, and goes back one entry where the current track had run for
    /// no more than three seconds at the clock reading `now`.
    pub fn skip_backward(&mut self, now: u64) -> (command: Command)
        requires
            old(self)@.effective_elapsed(now as nat) <= u64::MAX,
        ensures
            final(self)@ == old(self)@.skipped_backward(now as nat),
            command@ == CommandView::Halt,
    {
        let elapsed = self.get_elapsed_time(now);
        let command = self.stop();
        let target = match &self.now_playing_list {
            Some(playlist) => Some(skip_backward_target(playlist, &self.now_playing, elapsed)),
            None => None,
        };
        if let Some(source) = target {
            self.now_playing = source;
        }
        proof {
            sources_of(old(self)@.now_playing_list).index_of_first_ensures(old(self)@.now_playing);
        }
        command
    }

    /// Stops, and plays the next entry where there is one.
    pub fn skip_forward(&mut self) -> (command: Command)
        ensures
            old(self)@.skips_forward_into(final(self)@, command@),
    {
        let halted = self.stop();
        let target = match &self.now_playing_list {
            Some(playlist) => skip_forward_target(playlist, &self.now_playing, self.repeat_state),
            None => None,
        };
        match target {
            Some(source) => {
                self.now_playing = source;
                self.shuffle();
                self.begin()
            },
            None => halted,
        }
    }

    /// Stops: the state is stopped, every timer is zero, the anchor is gone.
    pub fn stop(&mut self) -> (command: Command)
        ensures
            final(self)@ == old(self)@.stopped(),
            command@ == CommandView::Halt,
    {
        self.play_state = PlayState::Stopped;
        self.starting = false;
        self.stopping = true;
        self.start_offset = 0;
        self.elapsed = 0;
        self.total_duration = 0;
        self.clock_anchor = None;
        Command::Halt
    }

    /// The time into the current track at the clock reading `now`.
    pub fn get_elapsed_time(&self, now: u64) -> (elapsed: u64)
        requires
            self@.effective_elapsed(now as nat) <= u64::MAX,
        ensures
            elapsed == self@.effective_elapsed(now as nat),
    {
        match self.clock_anchor {
            None => self.elapsed,
            Some(anchor) => if now >= anchor {
                now - anchor + self.start_offset
            } else {
                self.start_offset
            },
        }
    }

    /// Brings the timers in line with what happened during the tick that
    /// ends at the clock reading `now`.
    pub fn setup_stopwatch(&mut self, now: u64)
        requires
            old(self)@.effective_elapsed(now as nat) <= u64::MAX,
        ensures
            final(self)@ == old(self)@.reconciled(now as nat),
    {
        self.elapsed = self.get_elapsed_time(now);
        if self.starting {
            self.start_offset = self.elapsed;
            self.clock_anchor = Some(now);
        }
        if self.stopping {
            self.clock_anchor = None;
        }
    }

    /// One tick at the clock reading `now`, `total` being the length that
    /// the metadata provider reports for the current source (zero where it
    /// is unknown): refreshes the length, and acts on the end of the track.
    pub fn update_playback(&mut self, now: u64, total: u64) -> (command: Option<Command>)
        requires
            old(self)@.effective_elapsed(now as nat) <= u64::MAX,
        ensures
            old(self)@.ticks_into(now as nat, total as nat, final(self)@, optional_command(command)),
    {
        if !self.now_playing.as_str().is_empty() {
            self.total_duration = total;
            if total != 0 && self.get_elapsed_time(now) >= total {
                self.stop();
                match self.repeat_state {
                    RepeatState::One => {
                        self.shuffle();
                        Some(self.begin())
                    },
                    _ => Some(self.skip_forward()),
                }
            } else {
                None
            }
        } else {
            self.total_duration = 0;
            None
        }
    }

    /// Selects `source` from `list` without starting it. A playing session
    /// is left as it is.
    pub fn cue(&mut self, source: String, list: Option<Playlist>)
        ensures
            final(self)@ == if old(self)@.play_state == PlayState::Playing {
                old(self)@
            } else {
                old(self)@.picked(source@, optional_view(list))
            },
    {
        match self.play_state {
            PlayState::Playing => {},
            _ => {
                self.now_playing = source;
                self.sorted_reference_list = match &list {
                    Some(playlist) => Some(playlist.clone()),
                    None => None,
                };
                self.now_playing_list = list;
            },
        }
    }

    /// Stops, and plays `source` from `list` from its beginning.
    pub fn play_source(&mut self, source: String, list: Option<Playlist>) -> (command: Command)
        ensures
            old(self)@.stopped().picked(source@, optional_view(list)).plays_into(final(self)@),
            command@ == (CommandView::Start { source: source@, at: 0 }),
    {
        self.stop();
        self.now_playing = source;
        self.sorted_reference_list = match &list {
            Some(playlist) => Some(playlist.clone()),
            None => None,
        };
        self.now_playing_list = list;
        self.shuffle();
        self.begin()
    }

    /// Stops, and plays `playlist` from the source that `opening_source`
    /// names for `selected`.
    pub fn play_playlist(&mut self, playlist: Playlist, selected: &String) -> (command: Command)
        ensures
            old(self)@.stopped().picked(
                opening_source(playlist@.sources, selected@, old(self)@.now_playing),
                Some(playlist@),
            ).plays_into(final(self)@),
            command@ == (CommandView::Start {
                source: opening_source(playlist@.sources, selected@, old(self)@.now_playing),
                at: 0,
            }),
    {
        self.stop();
        let count = playlist.len();
        if count > 0 {
            let opening = match playlist.get_source(count - 1) {
                Some(last) => if last == *selected {
                    Some(last)
                } else {
                    playlist.get_source(0)
                },
                None => None,
            };
            if let Some(source) = opening {
                self.now_playing = source;
            }
        }
        self.sorted_reference_list = Some(playlist.clone());
        self.now_playing_list = Some(playlist);
        self.shuffle();
        self.begin()
    }

    /// Stops, and lets go of the current source and the navigation list.
    pub fn clear(&mut self) -> (command: Command)
        ensures
            final(self)@ == (SessionView {
                now_playing: Seq::empty(),
                now_playing_list: None,
                ..old(self)@.stopped()
            }),
            command@ == CommandView::Halt,
    {
        self.now_playing = String::new();
        self.now_playing_list = None;
        self.stop()
    }

    /// Makes `list` the list to which turning shuffle off returns.
    pub fn set_sorted_reference_list(&mut self, list: Option<Playlist>)
        ensures
            final(self)@ == (SessionView {
                sorted_reference_list: optional_view(list),
                ..old(self)@
            }),
    {
        self.sorted_reference_list = list;
    }

    /// Whether the effective elapsed time at the clock reading `now` can
    /// be held in 64 bits, as the operations that read the clock ask.
    pub fn clock_in_range(&self, now: u64) -> (in_range: bool)
        ensures
            in_range == (self@.effective_elapsed(now as nat) <= u64::MAX),
    {
        match self.clock_anchor {
            None => true,
            Some(anchor) => if now >= anchor {
                now - anchor <= u64::MAX - self.start_offset
            } else {
                true
            },
        }
    }

    /// Moves the stored position to `position` milliseconds.
    pub fn set_elapsed(&mut self, position: u64)
        ensures
            final(self)@ == (SessionView { elapsed: position as nat, ..old(self)@ }),
    {
        self.elapsed = position;
    }

    /// Whether the session plays, is paused or is stopped.
    pub fn play_state(&self) -> (state: PlayState)
        ensures
            state == self@.play_state,
    {
        self.play_state
    }

    /// The repeat state.
    pub fn repeat_state(&self) -> (state: RepeatState)
        ensures
            state == self@.repeat_state,
    {
        self.repeat_state
    }

    /// Whether shuffle is on.
    pub fn is_shuffled(&self) -> (on: bool)
        ensures
            on == self@.is_shuffled,
    {
        self.is_shuffled
    }

    /// The current source; empty where nothing is selected.
    pub fn now_playing(&self) -> (source: String)
        ensures
            source@ == self@.now_playing,
    {
        self.now_playing.clone()
    }

    /// The list that skipping moves along.
    pub fn now_playing_list(&self) -> (list: Option<Playlist>)
        ensures
            optional_view(list) == self@.now_playing_list,
    {
        match &self.now_playing_list {
            Some(playlist) => Some(playlist.clone()),
            None => None,
        }
    }

    /// The list to which turning shuffle off returns.
    pub fn sorted_reference_list(&self) -> (list: Option<Playlist>)
        ensures
            optional_view(list) == self@.sorted_reference_list,
    {
        match &self.sorted_reference_list {
            Some(playlist) => Some(playlist.clone()),
            None => None,
        }
    }

    /// The stored elapsed time.
    pub fn elapsed(&self) -> (elapsed: u64)
        ensures
            elapsed == self@.elapsed,
    {
        self.elapsed
    }

    /// The offset at which the running stretch of playback began.
    pub fn start_offset(&self) -> (offset: u64)
        ensures
            offset == self@.start_offset,
    {
        self.start_offset
    }

    /// The length of the current track; zero where it is unknown.
    pub fn total_duration(&self) -> (total: u64)
        ensures
            total == self@.total_duration,
    {
        self.total_duration
    }

    /// The clock reading at which the running stretch of playback began.
    pub fn clock_anchor(&self) -> (anchor: Option<u64>)
        ensures
            anchor is Some <==> self@.clock_anchor is Some,
            anchor is Some ==> anchor->0 == self@.clock_anchor->0,
    {
        self.clock_anchor
    }
}

} // verus!
