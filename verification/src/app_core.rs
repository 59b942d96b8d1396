//! The application core: view and modal navigation state, the session
//! lifecycle, and the tick-driven coupling between the timer engine and
//! the session records that leave the core to be persisted.
//!
//! Everything here is a pure state transition. Reading the clock,
//! persisting records, drawing and key decoding happen outside; the core
//! takes clock readings as arguments and hands finished records back to
//! the caller.

use vstd::prelude::*;

use crate::models::{
    BoundedString, Category, CategoryId, Config, DurationSecs, Session, Timestamp,
};
use crate::text::{dec_digits, parse_decimal_i64, parse_i64, u64_to_string};
use crate::timer::{PomodoroTimer, TimerPhase, TimerState};

verus! {

/// The screen currently shown.
#[derive(Debug, Clone, Copy, PartialEq, Eq, Structural)]
pub enum Screen {
    Timer,
    History,
    Stats,
}

/// The time period statistics are aggregated over.
#[derive(Debug, Clone, Copy, PartialEq, Eq, Structural)]
pub enum StatsPeriod {
    Day,
    Week,
    Month,
    Year,
}

impl StatsPeriod {
    /// The next longer period, wrapping around to the day.
    pub fn next(&self) -> (r: Self)
        ensures
            r == (match *self {
                StatsPeriod::Day => StatsPeriod::Week,
                StatsPeriod::Week => StatsPeriod::Month,
                StatsPeriod::Month => StatsPeriod::Year,
                StatsPeriod::Year => StatsPeriod::Day,
            }),
    {
        match self {
            StatsPeriod::Day => StatsPeriod::Week,
            StatsPeriod::Week => StatsPeriod::Month,
            StatsPeriod::Month => StatsPeriod::Year,
            StatsPeriod::Year => StatsPeriod::Day,
        }
    }

    /// The next shorter period, wrapping around to the year.
    pub fn prev(&self) -> (r: Self)
        ensures
            r == (match *self {
                StatsPeriod::Day => StatsPeriod::Year,
                StatsPeriod::Week => StatsPeriod::Day,
                StatsPeriod::Month => StatsPeriod::Week,
                StatsPeriod::Year => StatsPeriod::Month,
            }),
    {
        match self {
            StatsPeriod::Day => StatsPeriod::Year,
            StatsPeriod::Week => StatsPeriod::Day,
            StatsPeriod::Month => StatsPeriod::Week,
            StatsPeriod::Year => StatsPeriod::Month,
        }
    }
}

/// The chart style of the statistics screen.
#[derive(Debug, Clone, Copy, PartialEq, Eq, Structural)]
pub enum ChartType {
    Bar,
    Pie,
}

impl ChartType {
    /// The other chart style.
    pub fn toggle(self) -> (r: Self)
        ensures
            r == (match self {
                ChartType::Bar => ChartType::Pie,
                ChartType::Pie => ChartType::Bar,
            }),
    {
        match self {
            ChartType::Bar => ChartType::Pie,
            ChartType::Pie => ChartType::Bar,
        }
    }
}

/// Which input field is focused in the input modal.
#[derive(Debug, Clone, Copy, PartialEq, Eq, Structural)]
pub enum InputField {
    Name,
    Description,
    Category,
}

impl InputField {
    /// The next field, cycling name, description, category.
    pub fn next(&self) -> (r: Self)
        ensures
            r == (match *self {
                InputField::Name => InputField::Description,
                InputField::Description => InputField::Category,
                InputField::Category => InputField::Name,
            }),
    {
        match self {
            InputField::Name => InputField::Description,
            InputField::Description => InputField::Category,
            InputField::Category => InputField::Name,
        }
    }
}

/// Which field is focused in the settings modal (timer tab).
#[derive(Debug, Clone, Copy, PartialEq, Eq, Structural)]
pub enum SettingsField {
    WorkDuration,
    ShortBreak,
    LongBreak,
    SessionsUntilLong,
}

impl SettingsField {
    /// The next field, cycling downwards.
    pub fn next(&self) -> (r: Self)
        ensures
            r == (match *self {
                SettingsField::WorkDuration => SettingsField::ShortBreak,
                SettingsField::ShortBreak => SettingsField::LongBreak,
                SettingsField::LongBreak => SettingsField::SessionsUntilLong,
                SettingsField::SessionsUntilLong => SettingsField::WorkDuration,
            }),
    {
        match self {
            SettingsField::WorkDuration => SettingsField::ShortBreak,
            SettingsField::ShortBreak => SettingsField::LongBreak,
            SettingsField::LongBreak => SettingsField::SessionsUntilLong,
            SettingsField::SessionsUntilLong => SettingsField::WorkDuration,
        }
    }

    /// The previous field, cycling upwards.
    pub fn prev(&self) -> (r: Self)
        ensures
            r == (match *self {
                SettingsField::WorkDuration => SettingsField::SessionsUntilLong,
                SettingsField::ShortBreak => SettingsField::WorkDuration,
                SettingsField::LongBreak => SettingsField::ShortBreak,
                SettingsField::SessionsUntilLong => SettingsField::LongBreak,
            }),
    {
        match self {
            SettingsField::WorkDuration => SettingsField::SessionsUntilLong,
            SettingsField::ShortBreak => SettingsField::WorkDuration,
            SettingsField::LongBreak => SettingsField::ShortBreak,
            SettingsField::SessionsUntilLong => SettingsField::LongBreak,
        }
    }
}

/// Which tab is active in the settings modal.
#[derive(Debug, Clone, Copy, PartialEq, Eq, Structural)]
pub enum SettingsMode {
    Timer,
    Categories,
}

/// Which part of the category tab is focused.
#[derive(Debug, Clone, Copy, PartialEq, Eq, Structural)]
pub enum CategoryField {
    List,
    Name,
    Color,
}

/// Which modal is open; at most one at a time.
#[derive(Debug, Clone, Copy, PartialEq, Eq, Structural)]
pub enum ModalState {
    Closed,
    Input,
    Settings,
    Detail,
}

/// Severity of a user-facing notification.
#[derive(Debug, Clone, Copy, PartialEq, Eq, Structural)]
pub enum NotificationLevel {
    Warning,
    Error,
}

/// A notification message to display to the user.
#[derive(Debug, Clone)]
pub struct Notification {
    pub message: String,
    pub level: NotificationLevel,
}

/// The session lifecycle: no draft, a created draft not yet timing, or a
/// draft timing since `start_time`. The draft moves between the states;
/// there is never more than one.
#[derive(Debug, Clone)]
pub enum SessionPhase {
    Inactive,
    Ready(Session),
    Active { session: Session, start_time: Timestamp },
}

/// State of the input modal.
#[derive(Debug, Clone)]
pub struct InputState {
    pub field: InputField,
    pub name: BoundedString<100>,
    pub description: BoundedString<500>,
    pub selected_category: usize,
}

impl InputState {
    /// The bounds of both text fields hold.
    pub open spec fn wf(self) -> bool {
        self.name.wf() && self.description.wf()
    }

    /// An empty input form focused on the name.
    pub fn new() -> (r: Self)
        ensures
            r.field is Name,
            r.name@ == Seq::<char>::empty(),
            r.description@ == Seq::<char>::empty(),
            r.selected_category == 0,
            r.wf(),
    {
        InputState {
            field: InputField::Name,
            name: BoundedString::default(),
            description: BoundedString::default(),
            selected_category: 0,
        }
    }
}

/// State of the settings modal.
#[derive(Debug, Clone)]
pub struct SettingsState {
    pub mode: SettingsMode,
    pub field: SettingsField,
    pub editing_value: String,
    pub editing_config: Config,
    pub category_field: CategoryField,
    pub category_list_index: usize,
    pub new_category_name: BoundedString<50>,
    pub new_category_color: BoundedString<7>,
    pub editing_category_id: Option<CategoryId>,
}

impl SettingsState {
    /// The bounds of the category form fields hold.
    pub open spec fn wf(self) -> bool {
        self.new_category_name.wf() && self.new_category_color.wf()
    }

    /// A fresh settings form over the stock configuration.
    pub fn new() -> (r: Self)
        ensures
            r.mode is Timer,
            r.field is WorkDuration,
            r.editing_value@ == Seq::<char>::empty(),
            r.editing_config == Config::spec_default(),
            r.category_field is List,
            r.category_list_index == 0,
            r.new_category_name@ == Seq::<char>::empty(),
            r.new_category_color@ == Seq::<char>::empty(),
            r.editing_category_id is None,
            r.wf(),
    {
        SettingsState {
            mode: SettingsMode::Timer,
            field: SettingsField::WorkDuration,
            editing_value: String::new(),
            editing_config: Config::default(),
            category_field: CategoryField::List,
            category_list_index: 0,
            new_category_name: BoundedString::default(),
            new_category_color: BoundedString::default(),
            editing_category_id: None,
        }
    }

    /// The value the focused settings field shows: durations in whole
    /// minutes, the session count as itself.
    pub open spec fn display_value(self) -> int {
        match self.field {
            SettingsField::WorkDuration => self.editing_config.work_duration_secs / 60,
            SettingsField::ShortBreak => self.editing_config.short_break_secs / 60,
            SettingsField::LongBreak => self.editing_config.long_break_secs / 60,
            SettingsField::SessionsUntilLong => self.editing_config.sessions_until_long_break
                as int,
        }
    }

    /// The edit buffer committed into the draft configuration: the text
    /// must parse as a positive number, durations are entered in minutes,
    /// and a value whose seconds would not fit is ignored like any other
    /// invalid entry. Everything else leaves the draft unchanged.
    pub open spec fn committed_config(self) -> Config {
        match parse_decimal_i64(self.editing_value@) {
            Some(v) => if v > 0 {
                match self.field {
                    SettingsField::WorkDuration => if v <= i64::MAX / 60 {
                        Config { work_duration_secs: (v * 60) as i64, ..self.editing_config }
                    } else {
                        self.editing_config
                    },
                    SettingsField::ShortBreak => if v <= i64::MAX / 60 {
                        Config { short_break_secs: (v * 60) as i64, ..self.editing_config }
                    } else {
                        self.editing_config
                    },
                    SettingsField::LongBreak => if v <= i64::MAX / 60 {
                        Config { long_break_secs: (v * 60) as i64, ..self.editing_config }
                    } else {
                        self.editing_config
                    },
                    SettingsField::SessionsUntilLong => Config {
                        sessions_until_long_break: v,
                        ..self.editing_config
                    },
                }
            } else {
                self.editing_config
            },
            None => self.editing_config,
        }
    }
}

/// State of the session detail modal.
#[derive(Debug, Clone)]
pub struct DetailState {
    pub selected_session_index: usize,
}

impl DetailState {
    pub fn new() -> (r: Self)
        ensures
            r.selected_session_index == 0,
    {
        DetailState { selected_session_index: 0 }
    }
}

/// What one tick produced: whether a phase just finished (the caller may
/// ring a bell), and a finished session record to persist, if any.
#[derive(Debug)]
pub struct TickOutcome {
    pub phase_finished: bool,
    pub record: Option<Session>,
}

/// The application core state: navigation, the timer engine, the session
/// lifecycle, the edit forms, the committed configuration, the loaded
/// categories, and a pending notification.
#[derive(Debug)]
pub struct AppCore {
    pub running: bool,
    pub screen: Screen,
    pub modal: ModalState,
    pub timer: PomodoroTimer,
    pub session_phase: SessionPhase,
    pub input: InputState,
    pub settings: SettingsState,
    pub detail: DetailState,
    pub config: Config,
    pub categories: Vec<Category>,
    pub notification: Option<Notification>,
}

impl AppCore {
    /// A fresh core: stopped, on the timer screen, no modal, a default
    /// timer and configuration, no session, and the built-in categories.
    pub fn new() -> (r: Self)
        ensures
            r.running == false,
            r.screen is Timer,
            r.modal is Closed,
            r.timer.phase is Work,
            r.timer.state is Idle,
            r.timer.work_duration == 1500,
            r.timer.short_break == 300,
            r.timer.long_break == 900,
            r.timer.sessions_until_long == 4,
            r.timer.sessions_completed == 0,
            r.timer.wf(),
            r.session_phase is Inactive,
            r.input.wf(),
            r.input.selected_category == 0,
            r.settings.wf(),
            r.config == Config::spec_default(),
            r.categories@.len() == 6,
            r.categories@[2].name@ == "coding"@,
            r.notification is None,
    {
        AppCore {
            running: false,
            screen: Screen::Timer,
            modal: ModalState::Closed,
            timer: PomodoroTimer::new(),
            session_phase: SessionPhase::Inactive,
            input: InputState::new(),
            settings: SettingsState::new(),
            detail: DetailState::new(),
            config: Config::default(),
            categories: Category::defaults(),
            notification: None,
        }
    }

    /// Get the current session draft, if any.
    pub fn current_session(&self) -> (r: Option<&Session>)
        ensures
            self.session_phase is Inactive ==> r is None,
            self.session_phase matches SessionPhase::Ready(s) ==> r matches Some(p) && *p == s,
            self.session_phase matches SessionPhase::Active { session, .. } ==> r matches Some(p)
                && *p == session,
    {
        match &self.session_phase {
            SessionPhase::Ready(s) => Some(s),
            SessionPhase::Active { session, .. } => Some(session),
            SessionPhase::Inactive => None,
        }
    }

    /// Whether a session draft exists, ready or active.
    pub fn has_session(&self) -> (r: bool)
        ensures
            r == !(self.session_phase is Inactive),
    {
        !matches!(self.session_phase, SessionPhase::Inactive)
    }

    /// Set a notification to display to the user.
    pub fn notify(&mut self, level: NotificationLevel, message: String)
        ensures
            *final(self) == (AppCore {
                notification: Some(Notification { message, level }),
                ..*old(self)
            }),
    {
        self.notification = Some(Notification { message, level });
    }

    /// Leave the main loop.
    pub fn quit(&mut self)
        ensures
            *final(self) == (AppCore { running: false, ..*old(self) }),
    {
        self.running = false;
    }

    /// Create a new session draft from the input form: placeholder time
    /// fields, the description only when one was entered, the category
    /// taken from the selected entry. The draft is `Ready`; the timer is
    /// not touched.
    pub fn create_session(&mut self)
        requires
            old(self).input.selected_category < old(self).categories@.len(),
        ensures
            *final(self) == (AppCore { session_phase: final(self).session_phase, ..*old(self) }),
            final(self).session_phase matches SessionPhase::Ready(s) && s.id is None && s.name@
                == old(self).input.name@ && (old(self).input.description@.len() == 0
                ==> s.description is None) && (old(self).input.description@.len() > 0
                ==> (s.description matches Some(d) && d@ == old(self).input.description@))
                && s.category == old(self).categories@[old(self).input.selected_category as int].name
                && s.started_at == Timestamp(0) && s.ended_at == Timestamp(0) && s.duration_secs
                == DurationSecs(0),
    {
        let category = self.categories[self.input.selected_category].name.clone();
        let description = if self.input.description.is_empty() {
            None
        } else {
            Some(self.input.description.to_string())
        };
        let session = Session {
            id: None,
            name: self.input.name.to_string(),
            description,
            category,
            started_at: Timestamp::new(0),
            ended_at: Timestamp::new(0),
            duration_secs: DurationSecs::new(0),
        };
        self.session_phase = SessionPhase::Ready(session);
    }

    /// The session phase after a session-level start at wall time
    /// `wall_ts`: a ready or active draft becomes active with a fresh
    /// start time; with no draft nothing changes.
    pub open spec fn started_phase_spec(self, wall_ts: i64) -> SessionPhase {
        match self.session_phase {
            SessionPhase::Ready(s) => SessionPhase::Active {
                session: s,
                start_time: Timestamp(wall_ts),
            },
            SessionPhase::Active { session, .. } => SessionPhase::Active {
                session,
                start_time: Timestamp(wall_ts),
            },
            SessionPhase::Inactive => SessionPhase::Inactive,
        }
    }

    /// Start the timer and re-arm the session's start time. Only this
    /// session-level start refreshes `start_time`; the engine's own
    /// resume path never does.
    pub fn start_timer(&mut self, now: u64, wall_ts: i64)
        ensures
            *final(self) == (AppCore {
                session_phase: old(self).started_phase_spec(wall_ts),
                timer: old(self).timer.start_spec(now),
                ..*old(self)
            }),
    {
        let mut taken = SessionPhase::Inactive;
        core::mem::swap(&mut taken, &mut self.session_phase);
        self.session_phase = match taken {
            SessionPhase::Ready(session) => SessionPhase::Active {
                session,
                start_time: Timestamp::new(wall_ts),
            },
            SessionPhase::Active { session, .. } => SessionPhase::Active {
                session,
                start_time: Timestamp::new(wall_ts),
            },
            SessionPhase::Inactive => SessionPhase::Inactive,
        };
        self.timer.start(now);
    }

    /// The record a normal completion finalizes: the draft with the
    /// session's start time, the given end time, and the *configured*
    /// work duration - deliberately not the measured time, so the stored
    /// length is the intended pomodoro length. Meaningful only while a
    /// session is active.
    pub open spec fn completed_record(self, wall_ts: i64) -> Session {
        match self.session_phase {
            SessionPhase::Active { session, start_time } => Session {
                started_at: start_time,
                ended_at: Timestamp(wall_ts),
                duration_secs: DurationSecs(self.timer.work_duration as i64),
                ..session
            },
            _ => vstd::pervasive::arbitrary(),
        }
    }

    /// Complete the active session: finalize the draft with the
    /// configured work duration, keep it as `Ready` so the next start can
    /// reuse it, and hand a copy back for persistence. A no-op without an
    /// active session. The timer is not touched.
    pub fn complete_session(&mut self, wall_ts: i64) -> (r: Option<Session>)
        requires
            old(self).timer.wf(),
        ensures
            !(old(self).session_phase is Active) ==> r is None && *final(self) == *old(self),
            old(self).session_phase is Active ==> r == Some(old(self).completed_record(wall_ts))
                && *final(self) == (AppCore {
                session_phase: SessionPhase::Ready(old(self).completed_record(wall_ts)),
                ..*old(self)
            }),
    {
        let mut taken = SessionPhase::Inactive;
        core::mem::swap(&mut taken, &mut self.session_phase);
        match taken {
            SessionPhase::Active { mut session, start_time } => {
                session.started_at = start_time;
                session.ended_at = Timestamp::new(wall_ts);
                session.duration_secs = DurationSecs::new(self.timer.work_duration as i64);
                let record = session.duplicate();
                self.session_phase = SessionPhase::Ready(session);
                Some(record)
            }
            other => {
                self.session_phase = other;
                None
            }
        }
    }

    /// The record an early stop finalizes: as for completion, except that
    /// the duration is the *measured* elapsed time at `now`.
    pub open spec fn stopped_record(self, now: u64, wall_ts: i64) -> Session {
        match self.session_phase {
            SessionPhase::Active { session, start_time } => Session {
                started_at: start_time,
                ended_at: Timestamp(wall_ts),
                duration_secs: DurationSecs(self.timer.elapsed_at(now) as i64),
                ..session
            },
            _ => vstd::pervasive::arbitrary(),
        }
    }

    /// Stop the active session early: finalize the draft with the
    /// measured elapsed time, persist-and-discard (the phase returns to
    /// `Inactive`, keeping no draft), and reset the timer. A no-op
    /// without an active session, and also when no time has elapsed yet,
    /// which guards against an accidental double stop right after a
    /// start.
    pub fn stop_session(&mut self, now: u64, wall_ts: i64) -> (r: Option<Session>)
        requires
            old(self).timer.time_ok(now),
            old(self).timer.elapsed_at(now) <= i64::MAX,
        ensures
            !(old(self).session_phase is Active) || old(self).timer.elapsed_at(now) == 0 ==> r
                is None && *final(self) == *old(self),
            old(self).session_phase is Active && old(self).timer.elapsed_at(now) > 0 ==> r == Some(
                old(self).stopped_record(now, wall_ts),
            ) && *final(self) == (AppCore {
                session_phase: SessionPhase::Inactive,
                timer: (PomodoroTimer { state: TimerState::Idle, ..old(self).timer }),
                ..*old(self)
            }),
    {
        if !matches!(self.session_phase, SessionPhase::Active { .. }) {
            return None;
        }
        let elapsed_secs = self.timer.elapsed(now);
        if elapsed_secs == 0 {
            return None;
        }
        let mut taken = SessionPhase::Inactive;
        core::mem::swap(&mut taken, &mut self.session_phase);
        match taken {
            SessionPhase::Active { mut session, start_time } => {
                session.started_at = start_time;
                session.ended_at = Timestamp::new(wall_ts);
                session.duration_secs = DurationSecs::new(elapsed_secs as i64);
                let record = session.duplicate();
                self.timer.reset();
                self.session_phase = SessionPhase::Inactive;
                Some(record)
            }
            other => {
                self.session_phase = other;
                None
            }
        }
    }

    /// Whether a tick at clock reading `now` finds a running, finished
    /// phase.
    pub open spec fn tick_fires(self, now: u64) -> bool {
        self.timer.state is Running && self.timer.elapsed_at(now) >= self.timer.phase_duration()
    }

    /// Process one tick at monotonic reading `now` and wall time
    /// `wall_ts`. When a running phase has finished: a completed work
    /// phase finalizes the session first, using the phase that just
    /// ended; then the timer advances and immediately restarts, so the
    /// next phase begins counting without a manual start.
    pub fn handle_tick(&mut self, now: u64, wall_ts: i64) -> (r: TickOutcome)
        requires
            old(self).timer.wf(),
            old(self).timer.time_ok(now),
        ensures
            r.phase_finished == old(self).tick_fires(now),
            !old(self).tick_fires(now) ==> r.record is None && *final(self) == *old(self),
            old(self).tick_fires(now) && !(old(self).timer.phase is Work) ==> r.record is None
                && *final(self) == (AppCore {
                timer: old(self).timer.advance_spec().start_spec(now),
                ..*old(self)
            }),
            old(self).tick_fires(now) && old(self).timer.phase is Work && !(old(
                self,
            ).session_phase is Active) ==> r.record is None && *final(self) == (AppCore {
                timer: old(self).timer.advance_spec().start_spec(now),
                ..*old(self)
            }),
            old(self).tick_fires(now) && old(self).timer.phase is Work && old(self).session_phase
                is Active ==> r.record == Some(old(self).completed_record(wall_ts)) && *final(self)
                == (AppCore {
                timer: old(self).timer.advance_spec().start_spec(now),
                session_phase: SessionPhase::Ready(old(self).completed_record(wall_ts)),
                ..*old(self)
            }),
    {
        if self.timer.is_running() && self.timer.is_finished(now) {
            let record = if matches!(self.timer.phase, TimerPhase::Work) {
                self.complete_session(wall_ts)
            } else {
                None
            };
            self.timer.advance_phase();
            self.timer.start(now);
            TickOutcome { phase_finished: true, record }
        } else {
            TickOutcome { phase_finished: false, record: None }
        }
    }

    /// The text the focused settings field shows while not being edited.
    pub fn get_editing_field_value(&self) -> (r: String)
        requires
            self.settings.editing_config.work_duration_secs >= 0,
            self.settings.editing_config.short_break_secs >= 0,
            self.settings.editing_config.long_break_secs >= 0,
            self.settings.editing_config.sessions_until_long_break >= 0,
        ensures
            r@ == dec_digits(self.settings.display_value()),
    {
        match self.settings.field {
            SettingsField::WorkDuration => u64_to_string(
                (self.settings.editing_config.work_duration_secs as u64) / 60,
            ),
            SettingsField::ShortBreak => u64_to_string(
                (self.settings.editing_config.short_break_secs as u64) / 60,
            ),
            SettingsField::LongBreak => u64_to_string(
                (self.settings.editing_config.long_break_secs as u64) / 60,
            ),
            SettingsField::SessionsUntilLong => u64_to_string(
                self.settings.editing_config.sessions_until_long_break as u64,
            ),
        }
    }

    /// Commit the edit buffer into the draft configuration, exactly as
    /// `SettingsState::committed_config` describes; an entry that does
    /// not parse as a positive number in range leaves the draft as it
    /// was.
    pub fn apply_editing_value(&mut self)
        ensures
            *final(self) == (AppCore {
                settings: (SettingsState {
                    editing_config: old(self).settings.committed_config(),
                    ..old(self).settings
                }),
                ..*old(self)
            }),
    {
        let parsed = parse_i64(self.settings.editing_value.as_str());
        if let Some(value) = parsed {
            if value > 0 {
                match self.settings.field {
                    SettingsField::WorkDuration => {
                        if value <= i64::MAX / 60 {
                            self.settings.editing_config.work_duration_secs = value * 60;
                        }
                    }
                    SettingsField::ShortBreak => {
                        if value <= i64::MAX / 60 {
                            self.settings.editing_config.short_break_secs = value * 60;
                        }
                    }
                    SettingsField::LongBreak => {
                        if value <= i64::MAX / 60 {
                            self.settings.editing_config.long_break_secs = value * 60;
                        }
                    }
                    SettingsField::SessionsUntilLong => {
                        self.settings.editing_config.sessions_until_long_break = value;
                    }
                }
            }
        }
    }

    /// Commit the edit buffer, validate the draft configuration, and on
    /// success make it the live configuration, apply it to the timer,
    /// and return it for persistence. An invalid draft changes neither
    /// the live configuration nor the timer; the user is notified and
    /// `None` comes back.
    pub fn save_settings(&mut self) -> (r: Option<Config>)
        requires
            old(self).timer.wf(),
        ensures
            old(self).settings.committed_config().valid() ==> r == Some(
                old(self).settings.committed_config(),
            ) && *final(self) == (AppCore {
                settings: (SettingsState {
                    editing_config: old(self).settings.committed_config(),
                    ..old(self).settings
                }),
                config: old(self).settings.committed_config(),
                timer: old(self).timer.apply_config_spec(old(self).settings.committed_config()),
                ..*old(self)
            }),
            !old(self).settings.committed_config().valid() ==> (final(self).notification matches
            Some(n) && n.level is Warning && n.message@
                == "Invalid settings: all values must be positive"@),
            !old(self).settings.committed_config().valid() ==> r is None && final(self).config
                == old(self).config && final(self).timer == old(self).timer && final(self).settings
                == (SettingsState {
                editing_config: old(self).settings.committed_config(),
                ..old(self).settings
            }) && final(self).running == old(self).running && final(self).screen == old(
                self,
            ).screen && final(self).modal == old(self).modal && final(self).session_phase == old(
                self,
            ).session_phase && final(self).input == old(self).input && final(self).detail == old(
                self,
            ).detail && final(self).categories == old(self).categories,
    {
        self.apply_editing_value();
        if !self.settings.editing_config.is_valid() {
            self.notify(
                NotificationLevel::Warning,
                "Invalid settings: all values must be positive".to_owned(),
            );
            return None;
        }
        self.config = self.settings.editing_config;
        self.timer.apply_config(&self.config);
        Some(self.config)
    }
}

/// Format a configuration value for display: durations are entered and
/// shown in whole minutes, the session count as itself.
pub fn format_duration_value(field: SettingsField, value: i64) -> (r: String)
    requires
        value >= 0,
    ensures
        field is WorkDuration || field is ShortBreak || field is LongBreak ==> r@ == dec_digits(
            value / 60,
        ),
        field is SessionsUntilLong ==> r@ == dec_digits(value as int),
{
    match field {
        SettingsField::WorkDuration | SettingsField::ShortBreak | SettingsField::LongBreak => {
            u64_to_string((value as u64) / 60)
        }
        SettingsField::SessionsUntilLong => u64_to_string(value as u64),
    }
}

/// Law: completing a session normally records the *configured* work
/// duration, whatever time was actually measured; stopping early records
/// the *measured* elapsed time instead. The two finalization paths are
/// deliberately asymmetric.
pub proof fn lemma_session_duration_asymmetry(core: AppCore, now: u64, wall_ts: i64)
    requires
        core.session_phase is Active,
        core.timer.wf(),
        core.timer.time_ok(now),
        core.timer.elapsed_at(now) <= i64::MAX,
    ensures
        core.completed_record(wall_ts).duration_secs == DurationSecs(
            core.timer.work_duration as i64,
        ),
        core.stopped_record(now, wall_ts).duration_secs == DurationSecs(
            core.timer.elapsed_at(now) as i64,
        ),
{
}

} // verus!
