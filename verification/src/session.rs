//! Session controller: the top-level state machine. It owns the service
//! list, the filter flag, the selection cursor, the mode, the log tail state
//! and the timing coordinator, and dispatches every operator input. The
//! blocking service-directory calls themselves happen outside the crate;
//! their results come back in through the `on_*` methods, and the outward
//! actions a dispatch decides on are returned as an [`Effect`] for the
//! caller to perform.

use vstd::prelude::*;
use crate::cursor::SelectionCursor;
use crate::cursor::cursor_wf;
use crate::cursor::next_selected;
use crate::cursor::previous_selected;
use crate::cursor::reclamped_selected;
use crate::cursor::reset_selected;
use crate::logs::LogModel;
use crate::logs::LogTailState;
use crate::logs::empty_log;
use crate::logs::log_wf;
use crate::logs::scrolled_down;
use crate::logs::scrolled_up;
use crate::logs::updated_log;
use crate::model::Service;
use crate::model::ServiceAction;
use crate::model::ServiceModel;
use crate::timing::Timing;
use crate::timing::data_due;
use crate::view::visible_model;
use crate::view::visible_services;

verus! {

/// The fast cadence: how long one input slice lasts, bounding perceived
/// input latency.
pub const INPUT_CADENCE_MS: u64 = 100;

/// The slow cadence: how long the service list may go without a re-poll,
/// bounding the load put on the service directory.
pub const DATA_CADENCE_MS: u64 = 2000;

/// Which subset of services the operator is looking at. Mutated only by an
/// explicit toggle.
#[derive(Clone, Copy, PartialEq, Eq, Structural, Debug)]
pub struct ViewState {
    pub show_only_filtered: bool,
}

/// The session is in exactly one of two modes: browsing the service list,
/// or tailing the logs of one named service.
pub enum Mode {
    ListMode,
    LogMode { target: String },
}

/// Ghost image of [`Mode`], with the target name as a character sequence.
pub enum ModeModel {
    ListMode,
    LogMode { target: Seq<char> },
}

impl View for Mode {
    type V = ModeModel;

    open spec fn view(&self) -> ModeModel {
        match self {
            Mode::ListMode => ModeModel::ListMode,
            Mode::LogMode { target } => ModeModel::LogMode { target: target@ },
        }
    }
}

/// The logical keyboard surface. The mapping from literal keys to these
/// actions belongs to the caller; the controller only sees the action.
#[derive(Clone, Copy, PartialEq, Eq, Structural, Debug)]
pub enum InputAction {
    Quit,
    CursorNext,
    CursorPrevious,
    ToggleFilterView,
    EnterLogMode,
    ExitLogMode,
    ScrollUp,
    ScrollDown,
    JumpToEnd,
    ActionStart,
    ActionStop,
    ActionRestart,
}

/// What the caller must do after a dispatch: nothing, fetch logs for a
/// service (entering log mode on success), or issue a control action whose
/// result is deliberately discarded.
pub enum Effect {
    NoEffect,
    FetchLogs { target: String },
    Control { target: String, action: ServiceAction },
}

/// Ghost image of [`Effect`].
pub enum EffectModel {
    NoEffect,
    FetchLogs { target: Seq<char> },
    Control { target: Seq<char>, action: ServiceAction },
}

impl View for Effect {
    type V = EffectModel;

    open spec fn view(&self) -> EffectModel {
        match self {
            Effect::NoEffect => EffectModel::NoEffect,
            Effect::FetchLogs { target } => EffectModel::FetchLogs { target: target@ },
            Effect::Control { target, action } => EffectModel::Control {
                target: target@,
                action: *action,
            },
        }
    }
}

/// Ghost image of the whole session state; every transition of the
/// controller is defined over it by a spec function below.
pub struct SessionModel {
    pub services: Seq<ServiceModel>,
    pub view_state: ViewState,
    pub cursor: Option<usize>,
    pub mode: ModeModel,
    pub log: LogModel,
    pub timing: Timing,
    pub should_quit: bool,
}

/// The services the operator currently sees.
pub open spec fn visible_of(m: SessionModel) -> Seq<ServiceModel> {
    visible_model(m.services, m.view_state.show_only_filtered)
}

/// The service the cursor rests on, if the cursor is present and in bounds
/// of the visible list.
pub open spec fn selected_service(m: SessionModel) -> Option<ServiceModel> {
    match m.cursor {
        Some(i) => if i < visible_of(m).len() {
            Some(visible_of(m)[i as int])
        } else {
            None
        },
        None => None,
    }
}

/// Session invariant: the cursor is absent exactly when the visible list is
/// empty and otherwise in bounds, and the log state is well formed.
pub open spec fn session_wf(m: SessionModel) -> bool {
    &&& cursor_wf(m.cursor, visible_of(m).len())
    &&& log_wf(m.log)
}

/// The state a fresh session starts in at instant `now`: no services yet,
/// the filter on, no selection, list mode, an empty log buffer, both
/// cadences armed.
pub open spec fn initial_model(now: u64) -> SessionModel {
    SessionModel {
        services: Seq::empty(),
        view_state: ViewState { show_only_filtered: true },
        cursor: None,
        mode: ModeModel::ListMode,
        log: empty_log(),
        timing: Timing {
            last_input_poll: now,
            input_cadence: INPUT_CADENCE_MS,
            last_data_poll: now,
            data_cadence: DATA_CADENCE_MS,
            refresh_forced: false,
        },
        should_quit: false,
    }
}

/// The state after a successful service-list poll at instant `now`: the
/// list is replaced wholesale, the cursor re-anchored to the new visible
/// list, and the data cadence restarted.
pub open spec fn refresh_success_model(
    m: SessionModel,
    new_services: Seq<ServiceModel>,
    now: u64,
) -> SessionModel {
    let replaced = SessionModel { services: new_services, ..m };
    SessionModel {
        cursor: reclamped_selected(m.cursor, visible_of(replaced).len() as usize),
        timing: Timing { last_data_poll: now, refresh_forced: false, ..m.timing },
        ..replaced
    }
}

/// The state after a failed service-list poll at instant `now`: the stale
/// list and everything else stay untouched; only the cadence restarts, so
/// the poll is retried one data cadence later.
pub open spec fn refresh_failure_model(m: SessionModel, now: u64) -> SessionModel {
    SessionModel {
        timing: Timing { last_data_poll: now, refresh_forced: false, ..m.timing },
        ..m
    }
}

/// The state after logs for `target` were fetched successfully from list
/// mode: the session enters log mode with the fetched buffer, offset zero
/// and auto-scroll on. Nothing else moves.
pub open spec fn enter_logs_model(
    m: SessionModel,
    target: Seq<char>,
    lines: Seq<Seq<char>>,
) -> SessionModel {
    SessionModel {
        mode: ModeModel::LogMode { target },
        log: LogModel { lines, scroll: 0, stick_to_bottom: true },
        ..m
    }
}

/// The state after a log poll replaced the buffer while in log mode.
pub open spec fn log_refresh_model(
    m: SessionModel,
    lines: Seq<Seq<char>>,
    viewport_rows: u16,
) -> SessionModel {
    SessionModel { log: updated_log(m.log, lines, viewport_rows), ..m }
}

/// The state after a control action was issued: a refresh is forced so the
/// action's outcome becomes visible on the very next cycle. The action's
/// own result is discarded by design, so nothing else depends on it.
pub open spec fn control_model(m: SessionModel) -> SessionModel {
    if selected_service(m) is Some {
        SessionModel { timing: Timing { refresh_forced: true, ..m.timing }, ..m }
    } else {
        m
    }
}

/// The control effect handed back for an action key: the action aimed at
/// the selected service, or nothing when no service is selected.
pub open spec fn control_effect_model(m: SessionModel, action: ServiceAction) -> EffectModel {
    match selected_service(m) {
        Some(s) => EffectModel::Control { target: s.name, action },
        None => EffectModel::NoEffect,
    }
}

/// The list-mode dispatch table.
pub open spec fn dispatch_list_model(m: SessionModel, input: InputAction) -> SessionModel {
    match input {
        InputAction::Quit => SessionModel { should_quit: true, ..m },
        InputAction::CursorNext => SessionModel {
            cursor: next_selected(m.cursor, visible_of(m).len() as usize),
            ..m
        },
        InputAction::CursorPrevious => SessionModel {
            cursor: previous_selected(m.cursor, visible_of(m).len() as usize),
            ..m
        },
        InputAction::ToggleFilterView => {
            let flipped = SessionModel {
                view_state: ViewState {
                    show_only_filtered: !m.view_state.show_only_filtered,
                },
                ..m
            };
            SessionModel { cursor: reset_selected(visible_of(flipped).len() as usize), ..flipped }
        },
        InputAction::ActionStart => control_model(m),
        InputAction::ActionStop => control_model(m),
        InputAction::ActionRestart => control_model(m),
        _ => m,
    }
}

/// The effects of the list-mode table: entering log mode asks the caller to
/// fetch logs for the selected service, the action keys ask it to issue the
/// control action; everything else asks for nothing.
pub open spec fn dispatch_list_effect_model(m: SessionModel, input: InputAction) -> EffectModel {
    match input {
        InputAction::EnterLogMode => match selected_service(m) {
            Some(s) => EffectModel::FetchLogs { target: s.name },
            None => EffectModel::NoEffect,
        },
        InputAction::ActionStart => control_effect_model(m, ServiceAction::Start),
        InputAction::ActionStop => control_effect_model(m, ServiceAction::Stop),
        InputAction::ActionRestart => control_effect_model(m, ServiceAction::Restart),
        _ => EffectModel::NoEffect,
    }
}

/// The log-mode dispatch table. Leaving log mode drops the buffer, rearms
/// auto-scroll and forces an immediate data refresh; the scroll inputs move
/// the log window; everything else is explicitly ignored.
pub open spec fn dispatch_log_model(m: SessionModel, input: InputAction) -> SessionModel {
    match input {
        InputAction::ExitLogMode => SessionModel {
            mode: ModeModel::ListMode,
            log: empty_log(),
            timing: Timing { refresh_forced: true, ..m.timing },
            ..m
        },
        InputAction::ScrollDown => SessionModel { log: scrolled_down(m.log), ..m },
        InputAction::ScrollUp => SessionModel { log: scrolled_up(m.log), ..m },
        InputAction::JumpToEnd => SessionModel {
            log: LogModel { stick_to_bottom: true, ..m.log },
            ..m
        },
        _ => m,
    }
}

/// One dispatch step of the whole state machine: the input is routed to the
/// table of the current mode.
pub open spec fn dispatch_model(m: SessionModel, input: InputAction) -> SessionModel {
    if m.mode is LogMode {
        dispatch_log_model(m, input)
    } else {
        dispatch_list_model(m, input)
    }
}

/// The effect of one dispatch step; log mode never asks the caller for
/// outside work.
pub open spec fn dispatch_effect_model(m: SessionModel, input: InputAction) -> EffectModel {
    if m.mode is LogMode {
        EffectModel::NoEffect
    } else {
        dispatch_list_effect_model(m, input)
    }
}

/// The title shown over the service list under the active filter.
pub open spec fn spec_view_label(show_only_filtered: bool) -> Seq<char> {
    if show_only_filtered {
        " ~/.config/systemd/user Services "@
    } else {
        " All User Services "@
    }
}

/// The read-only projection of the session handed to the renderer each
/// cycle: the visible services, the cursor, the mode, and the log overlay's
/// state and title.
pub struct DisplayModel {
    pub visible: Vec<Service>,
    pub cursor: Option<usize>,
    pub in_log_mode: bool,
    pub log_lines: Vec<String>,
    pub log_scroll: u16,
    pub stick_to_bottom: bool,
    pub view_label: String,
}

/// The session controller's whole state.
pub struct Session {
    pub services: Vec<Service>,
    pub view_state: ViewState,
    pub cursor: SelectionCursor,
    pub mode: Mode,
    pub log: LogTailState,
    pub timing: Timing,
    pub should_quit: bool,
}

impl View for Session {
    type V = SessionModel;

    open spec fn view(&self) -> SessionModel {
        SessionModel {
            services: self.services.deep_view(),
            view_state: self.view_state,
            cursor: self.cursor.selected,
            mode: self.mode@,
            log: self.log@,
            timing: self.timing,
            should_quit: self.should_quit,
        }
    }
}

impl Session {
    pub open spec fn wf(&self) -> bool {
        session_wf(self@)
    }

    /// A fresh session at instant `now`: empty list, filter on, no
    /// selection, list mode, both cadences armed.
    pub fn new(now: u64) -> (r: Self)
        ensures
            r@ == initial_model(now),
            r.wf(),
    {
        let r = Session {
            services: Vec::new(),
            view_state: ViewState { show_only_filtered: true },
            cursor: SelectionCursor::new(),
            mode: Mode::ListMode,
            log: LogTailState::new(),
            timing: Timing::new(now, INPUT_CADENCE_MS, DATA_CADENCE_MS),
            should_quit: false,
        };
        proof {
            broadcast use vstd::seq_lib::group_filter_ensures;

            assert(r@.services =~= initial_model(now).services);
            assert(visible_of(r@).len() == 0);
        }
        r
    }

    /// The services the operator currently sees, in order.
    pub fn get_current_view_services(&self) -> (r: Vec<Service>)
        ensures
            r.deep_view() == visible_of(self@),
    {
        visible_services(&self.services, self.view_state.show_only_filtered)
    }

    /// How many services the operator currently sees.
    pub fn visible_len(&self) -> (n: usize)
        ensures
            n as int == visible_of(self@).len(),
    {
        let v = self.get_current_view_services();
        v.len()
    }

    /// The name of the service the cursor rests on, if any.
    pub fn selected_name(&self) -> (r: Option<String>)
        ensures
            r is Some <==> selected_service(self@) is Some,
            r matches Some(n) ==> selected_service(self@) matches Some(s) && n@ == s.name,
    {
        let v = self.get_current_view_services();
        match self.cursor.selected {
            Some(i) => if i < v.len() {
                proof {
                    assert(v.deep_view()[i as int] == visible_of(self@)[i as int]);
                }
                Some(v[i].name.clone())
            } else {
                None
            },
            None => None,
        }
    }

    /// Whether the session is tailing logs rather than browsing the list.
    pub fn in_log_mode(&self) -> (r: bool)
        ensures
            r == (self@.mode is LogMode),
    {
        match &self.mode {
            Mode::LogMode { .. } => true,
            Mode::ListMode => false,
        }
    }

    /// The service whose logs are being tailed, if in log mode.
    pub fn log_target(&self) -> (r: Option<String>)
        ensures
            r is Some <==> self@.mode is LogMode,
            r matches Some(n) ==> self@.mode == (ModeModel::LogMode { target: n@ }),
    {
        match &self.mode {
            Mode::LogMode { target } => Some(target.clone()),
            Mode::ListMode => None,
        }
    }

    /// Whether the service directory should be re-polled at instant `now`.
    pub fn data_refresh_due(&self, now: u64) -> (r: bool)
        ensures
            r == data_due(self@.timing, now),
    {
        self.timing.data_refresh_due(now)
    }

    /// Take in a successful service-list poll: replace the list wholesale,
    /// re-anchor the cursor to the new visible list, restart the data
    /// cadence.
    pub fn on_refresh_success(&mut self, new_services: Vec<Service>, now: u64)
        requires
            old(self).wf(),
        ensures
            final(self)@ == refresh_success_model(old(self)@, new_services.deep_view(), now),
            final(self).wf(),
    {
        self.services = new_services;
        let len = self.visible_len();
        self.cursor.reclamp(len);
        self.timing.mark_data_polled(now);
    }

    /// Take in a failed service-list poll: keep the stale list and retry
    /// one data cadence later. Non-fatal by design.
    pub fn on_refresh_failure(&mut self, now: u64)
        requires
            old(self).wf(),
        ensures
            final(self)@ == refresh_failure_model(old(self)@, now),
            final(self).wf(),
    {
        self.timing.mark_data_polled(now);
    }

    /// Take in the log fetch that an [`Effect::FetchLogs`] asked for, on
    /// success: enter log mode for `target` with the fetched buffer, offset
    /// zero and auto-scroll on. On a failed fetch the caller simply does
    /// not call this: the session stays in list mode.
    pub fn on_enter_logs_fetched(&mut self, target: String, lines: Vec<String>)
        requires
            old(self).wf(),
            lines@.len() <= u16::MAX as int,
        ensures
            final(self)@ == enter_logs_model(old(self)@, target@, lines.deep_view()),
            final(self).wf(),
    {
        self.mode = Mode::LogMode { target };
        self.log.lines = lines;
        self.log.scroll = 0;
        self.log.stick_to_bottom = true;
    }

    /// Take in a successful log poll while in log mode: replace the buffer;
    /// with auto-scroll on the offset follows the bottom of the buffer,
    /// with it off the operator's offset is kept, clamped to the new
    /// bounds. On a failed poll the caller does not call this and the
    /// previous buffer stays untouched.
    pub fn on_log_refresh(&mut self, lines: Vec<String>, viewport_rows: u16)
        requires
            old(self).wf(),
            lines@.len() <= u16::MAX as int,
        ensures
            final(self)@ == log_refresh_model(old(self)@, lines.deep_view(), viewport_rows),
            final(self).wf(),
    {
        self.log.update_lines(lines, viewport_rows);
    }

    /// Build the display model for this cycle.
    pub fn display_model(&self) -> (d: DisplayModel)
        ensures
            d.visible.deep_view() == visible_of(self@),
            d.cursor == self@.cursor,
            d.in_log_mode == (self@.mode is LogMode),
            d.log_lines.deep_view() == self@.log.lines,
            d.log_scroll as int == self@.log.scroll,
            d.stick_to_bottom == self@.log.stick_to_bottom,
            d.view_label@ == spec_view_label(self@.view_state.show_only_filtered),
    {
        let visible = self.get_current_view_services();
        let log_lines = self.log.lines.clone();
        proof {
            assert(log_lines.deep_view() =~= self.log.lines.deep_view());
        }
        let view_label = if self.view_state.show_only_filtered {
            " ~/.config/systemd/user Services ".to_string()
        } else {
            " All User Services ".to_string()
        };
        DisplayModel {
            visible,
            cursor: self.cursor.selected,
            in_log_mode: self.in_log_mode(),
            log_lines,
            log_scroll: self.log.scroll,
            stick_to_bottom: self.log.stick_to_bottom,
            view_label,
        }
    }

    /// Dispatch one operator input according to the current mode's table
    /// and hand back the outside work, if any, that the caller must now
    /// perform.
    pub fn dispatch(&mut self, input: InputAction) -> (eff: Effect)
        requires
            old(self).wf(),
        ensures
            final(self)@ == dispatch_model(old(self)@, input),
            eff@ == dispatch_effect_model(old(self)@, input),
            final(self).wf(),
    {
        if self.in_log_mode() {
            self.dispatch_log(input)
        } else {
            self.dispatch_list(input)
        }
    }

    fn dispatch_list(&mut self, input: InputAction) -> (eff: Effect)
        requires
            old(self).wf(),
            !(old(self)@.mode is LogMode),
        ensures
            final(self)@ == dispatch_list_model(old(self)@, input),
            eff@ == dispatch_list_effect_model(old(self)@, input),
            final(self).wf(),
    {
        match input {
            InputAction::Quit => {
                self.should_quit = true;
                Effect::NoEffect
            },
            InputAction::CursorNext => {
                let len = self.visible_len();
                self.cursor.next(len);
                Effect::NoEffect
            },
            InputAction::CursorPrevious => {
                let len = self.visible_len();
                self.cursor.previous(len);
                Effect::NoEffect
            },
            InputAction::ToggleFilterView => {
                self.view_state.show_only_filtered = !self.view_state.show_only_filtered;
                let len = self.visible_len();
                self.cursor.reset(len);
                Effect::NoEffect
            },
            InputAction::EnterLogMode => {
                match self.selected_name() {
                    Some(name) => Effect::FetchLogs { target: name },
                    None => Effect::NoEffect,
                }
            },
            InputAction::ActionStart => self.issue_control(ServiceAction::Start),
            InputAction::ActionStop => self.issue_control(ServiceAction::Stop),
            InputAction::ActionRestart => self.issue_control(ServiceAction::Restart),
            InputAction::ExitLogMode => Effect::NoEffect,
            InputAction::ScrollUp => Effect::NoEffect,
            InputAction::ScrollDown => Effect::NoEffect,
            InputAction::JumpToEnd => Effect::NoEffect,
        }
    }

    fn issue_control(&mut self, action: ServiceAction) -> (eff: Effect)
        requires
            old(self).wf(),
        ensures
            final(self)@ == control_model(old(self)@),
            eff@ == control_effect_model(old(self)@, action),
            final(self).wf(),
    {
        match self.selected_name() {
            Some(name) => {
                self.timing.force_refresh();
                Effect::Control { target: name, action }
            },
            None => Effect::NoEffect,
        }
    }

    fn dispatch_log(&mut self, input: InputAction) -> (eff: Effect)
        requires
            old(self).wf(),
            old(self)@.mode is LogMode,
        ensures
            final(self)@ == dispatch_log_model(old(self)@, input),
            eff@ == EffectModel::NoEffect,
            final(self).wf(),
    {
        match input {
            InputAction::ExitLogMode => {
                self.log.reset();
                self.mode = Mode::ListMode;
                self.timing.force_refresh();
            },
            InputAction::ScrollDown => {
                self.log.scroll_down();
            },
            InputAction::ScrollUp => {
                self.log.scroll_up();
            },
            InputAction::JumpToEnd => {
                self.log.jump_to_end();
            },
            _ => {},
        }
        Effect::NoEffect
    }
}

/// Law: toggling the filter always resets the cursor to the top of the new
/// view — index 0, or absent when the new view is empty — whatever the
/// cursor held before.
pub proof fn lemma_toggle_resets_cursor(m: SessionModel)
    requires
        m.mode is ListMode,
        m.services.len() <= usize::MAX,
    ensures
        ({
            let toggled = dispatch_model(m, InputAction::ToggleFilterView);
            &&& toggled.view_state.show_only_filtered == !m.view_state.show_only_filtered
            &&& visible_of(toggled).len() == 0 ==> toggled.cursor is None
            &&& visible_of(toggled).len() > 0 ==> toggled.cursor == Some(0usize)
        }),
{
    broadcast use vstd::seq_lib::group_filter_ensures;

}

/// Law: entering log mode and then immediately leaving it returns to list
/// mode with the cursor, the filter flag and the service list exactly as
/// they were before entry, and with the next data refresh forced to run
/// regardless of elapsed time. (The dispatch that asks for the log fetch
/// changes no state at all; entry happens only when the fetch succeeds.)
pub proof fn lemma_enter_exit_log_round_trip(
    m: SessionModel,
    target: Seq<char>,
    lines: Seq<Seq<char>>,
)
    requires
        m.mode is ListMode,
    ensures
        dispatch_model(m, InputAction::EnterLogMode) == m,
        ({
            let exited = dispatch_model(enter_logs_model(m, target, lines), InputAction::ExitLogMode);
            &&& exited.cursor == m.cursor
            &&& exited.view_state == m.view_state
            &&& exited.services == m.services
            &&& exited.mode is ListMode
            &&& forall|now: u64| data_due(exited.timing, now)
        }),
{
}

} // verus!
