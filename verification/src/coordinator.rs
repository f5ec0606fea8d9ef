use vstd::prelude::*;

use crate::config::{GuiConf, SimpleConf, SwitchType};
use crate::state::{Active, ActiveTriple, HyprData, LauncherState};

verus! {

/// A navigation command as delivered to the daemon: direction and step width.
#[derive(Debug, Clone, Copy, PartialEq, Eq, Structural)]
pub struct Command {
    /// Move backwards through the targets.
    pub reverse: bool,
    /// Move this many places.
    pub offset: u8,
}

/// The three events the overlay actor understands.
#[derive(Debug, Clone, Copy, PartialEq, Eq, Structural)]
pub enum GUISend {
    New,
    Refresh,
    Hide,
}

/// Who caused an overlay update; carried only for the acknowledgement
/// round-trip, never for authorization.
#[derive(Debug, Clone, Copy, PartialEq, Eq, Structural)]
pub enum UpdateCause {
    Client(u8),
}

/// One hand-off to the overlay actor. The caller must send exactly this
/// message and then block until the actor acknowledges it, before answering
/// the command's originator.
#[derive(Debug, Clone, Copy, PartialEq, Eq, Structural)]
pub struct HandOffMsg {
    pub event: GUISend,
    pub cause: UpdateCause,
}

/// The mutable record of what is currently chosen, together with the
/// configuration and target universe in effect for the current session.
/// Between `init` and `close` only `active` and `launcher.selected` change.
#[derive(Debug, Clone)]
pub struct SelectionState {
    pub active: Active,
    pub simple_config: SimpleConf,
    pub gui_config: GuiConf,
    pub hypr_data: HyprData,
    pub launcher: LauncherState,
}

impl SelectionState {
    /// Well-formedness of a session: a pending launcher selection, when
    /// present, lies inside the launch list — or the list is empty, in which
    /// case the session is a no-op for `switch`.
    pub open spec fn wf(self) -> bool {
        match self.launcher.selected {
            Some(sel) => self.launcher.execs.len() == 0 || sel < self.launcher.execs.len(),
            None => true,
        }
    }
}

/// The daemon's whole shared state: the selection record plus the two
/// session-lifecycle facts every exit path must restore — whether the
/// exclusive keybinding grab is held and whether the overlay is open.
/// The unverified shell owns one value of this type behind a
/// mutual-exclusion lock and calls each transition while holding it.
#[derive(Debug, Clone)]
pub struct Daemon {
    pub state: SelectionState,
    pub keybinding_held: bool,
    pub overlay_open: bool,
}

impl Daemon {
    /// The daemon as it starts: idle, nothing chosen, nothing held.
    pub fn new() -> (r: Daemon)
        ensures
            r.state.active == Active::Unknown,
            r.state.launcher.selected is None,
            r.state.wf(),
            !r.keybinding_held,
            !r.overlay_open,
    {
        Daemon {
            state: SelectionState {
                active: Active::Unknown,
                simple_config: Default::default(),
                gui_config: GuiConf {
                    mod_key: crate::config::ModKeyInput::Super,
                    key: String::new(),
                    reverse_key: Default::default(),
                    close: Default::default(),
                    max_switch_offset: 0,
                    hide_active_window_border: false,
                    monitors: None,
                    show_workspaces_on_all_monitors: false,
                },
                hypr_data: HyprData::empty(),
                launcher: LauncherState::empty(),
            },
            keybinding_held: false,
            overlay_open: false,
        }
    }
}

/// Why an `init` command failed. Target collection is the only fatal step:
/// every later mishap is recoverable and the command still completes.
#[derive(Debug, Clone, Copy, PartialEq, Eq, Structural)]
pub enum InitError {
    /// The target collector could not enumerate the switchable targets.
    CollectFailed,
}

/// The single `active` dimension selected by `switch_type`, projected out of
/// the collector's triple. Total: an absent component degrades to `Unknown`.
pub open spec fn spec_project(switch_type: SwitchType, triple: ActiveTriple) -> Active {
    match switch_type {
        SwitchType::Client => match triple.client {
            Some(id) => Active::Client(id),
            None => Active::Unknown,
        },
        SwitchType::Workspace => match triple.workspace {
            Some(id) => Active::Workspace(id),
            None => Active::Unknown,
        },
        SwitchType::Monitor => match triple.monitor {
            Some(id) => Active::Monitor(id),
            None => Active::Unknown,
        },
    }
}

/// Every projection yields one of the four defined variants; `active` is
/// never left uninitialized, whatever the collector reported.
pub proof fn lemma_project_total(switch_type: SwitchType, triple: ActiveTriple)
    ensures
        spec_project(switch_type, triple) is Client || spec_project(switch_type, triple)
            is Workspace || spec_project(switch_type, triple) is Monitor || spec_project(
            switch_type,
            triple,
        ) is Unknown,
{
}

/// Projects the collector's triple down to the dimension the session
/// switches over.
pub fn project_active(switch_type: &SwitchType, triple: &ActiveTriple) -> (a: Active)
    ensures
        a == spec_project(*switch_type, *triple),
{
    match switch_type {
        SwitchType::Client => match triple.client {
            Some(id) => Active::Client(id),
            None => Active::Unknown,
        },
        SwitchType::Workspace => match triple.workspace {
            Some(id) => Active::Workspace(id),
            None => Active::Unknown,
        },
        SwitchType::Monitor => match triple.monitor {
            Some(id) => Active::Monitor(id),
            None => Active::Unknown,
        },
    }
}

/// Begins a session. The caller has already asked the target collector
/// (`collected`; `None` means it failed) and, on success, has attempted the
/// exclusive keybinding grab (`keybinding_acquired`; a failed grab is
/// recoverable and only recorded).
///
/// On collector failure nothing changes, no hand-off is owed, and the error
/// is returned. Otherwise the selection state is replaced wholesale — any
/// pending launcher selection is discarded, the launch list itself stays with
/// the overlay — the overlay is marked open, and the caller owes the overlay
/// actor exactly one acknowledged `New` hand-off before answering.
pub fn init(
    daemon: &mut Daemon,
    config: SimpleConf,
    gui_config: GuiConf,
    collected: Option<(HyprData, ActiveTriple)>,
    keybinding_acquired: bool,
    client_id: u8,
) -> (r: Result<HandOffMsg, InitError>)
    ensures
        collected is None ==> r == Result::<HandOffMsg, InitError>::Err(InitError::CollectFailed)
            && *final(daemon) == *old(daemon),
        collected matches Some(c) ==> {
            &&& r == Result::<HandOffMsg, InitError>::Ok(
                HandOffMsg { event: GUISend::New, cause: UpdateCause::Client(client_id) },
            )
            &&& final(daemon).state.active == spec_project(config.switch_type, c.1)
            &&& final(daemon).state.simple_config == config
            &&& final(daemon).state.gui_config == gui_config
            &&& final(daemon).state.hypr_data == c.0
            &&& final(daemon).state.launcher.selected is None
            &&& final(daemon).state.launcher.execs == old(daemon).state.launcher.execs
            &&& final(daemon).overlay_open
            &&& final(daemon).keybinding_held == keybinding_acquired
        },
        collected is Some ==> final(daemon).state.wf(),
{
    match collected {
        None => Err(InitError::CollectFailed),
        Some((data, triple)) => {
            let active = project_active(&config.switch_type, &triple);
            daemon.state.active = active;
            daemon.state.simple_config = config;
            daemon.state.gui_config = gui_config;
            daemon.state.hypr_data = data;
            daemon.state.launcher.selected = None;
            daemon.keybinding_held = keybinding_acquired;
            daemon.overlay_open = true;
            Ok(HandOffMsg { event: GUISend::New, cause: UpdateCause::Client(client_id) })
        },
    }
}

/// Where the launcher selection lands: `offset` places from `sel` in the
/// given direction, clamped to `[0, len - 1]` — no wraparound.
pub open spec fn spec_step_index(sel: int, reverse: bool, offset: int, len: int) -> int {
    if reverse {
        if sel - offset >= 0 {
            sel - offset
        } else {
            0
        }
    } else {
        if sel + offset <= len - 1 {
            sel + offset
        } else {
            len - 1
        }
    }
}

/// A step from a valid index never leaves `[0, len - 1]`, whatever the
/// direction and step width.
pub proof fn lemma_step_index_in_range(sel: int, reverse: bool, offset: int, len: int)
    requires
        1 <= len,
        0 <= sel < len,
        0 <= offset,
    ensures
        0 <= spec_step_index(sel, reverse, offset, len) < len,
{
}

/// Two steps applied one after the other land where one step of the summed
/// width would: serializing two forward switches loses no update.
pub proof fn lemma_steps_serialized(sel: int, o1: int, o2: int, len: int)
    requires
        1 <= len,
        0 <= sel < len,
        0 <= o1,
        0 <= o2,
    ensures
        spec_step_index(spec_step_index(sel, false, o1, len), false, o2, len) == spec_step_index(
            sel,
            false,
            o1 + o2,
            len,
        ),
{
}

/// `n` single forward steps, applied in sequence.
pub open spec fn spec_step_many(sel: int, n: nat, len: int) -> int
    decreases n,
{
    if n == 0 {
        sel
    } else {
        spec_step_index(spec_step_many(sel, (n - 1) as nat, len), false, 1, len)
    }
}

/// `n` serialized single-step switches from index 0 land exactly at `n`,
/// clamped to the end of the list: none of the `n` updates is lost.
pub proof fn lemma_n_steps_serialized(n: nat, len: int)
    requires
        1 <= len,
    ensures
        spec_step_many(0, n, len) == if n <= len - 1 {
            n as int
        } else {
            len - 1
        },
    decreases n,
{
    if n > 0 {
        lemma_n_steps_serialized((n - 1) as nat, len);
    }
}

/// What a `switch` command asks of its caller next.
#[derive(Debug, Clone, Copy, PartialEq, Eq, Structural)]
pub enum SwitchStep {
    /// The transition is complete. If a hand-off is carried, the caller owes
    /// the overlay actor exactly that one acknowledged message; if none is,
    /// the command was a no-op and the caller answers success directly.
    Done(Option<HandOffMsg>),
    /// The session navigates over the target universe: the caller must ask
    /// the navigator for the next `active` and apply it with `switch_apply`.
    Navigate,
}

/// Moves the selection one command's worth. In launcher sub-mode the
/// selected index moves by `offset`, clamped to the launch list — an empty
/// list makes the whole command a successful no-op with no hand-off.
/// Outside launcher sub-mode nothing changes here: the navigator's answer
/// is applied afterwards by `switch_apply`.
pub fn switch(daemon: &mut Daemon, command: Command, client_id: u8) -> (r: SwitchStep)
    ensures
        final(daemon).overlay_open == old(daemon).overlay_open,
        final(daemon).keybinding_held == old(daemon).keybinding_held,
        final(daemon).state.active == old(daemon).state.active,
        final(daemon).state.simple_config == old(daemon).state.simple_config,
        final(daemon).state.gui_config == old(daemon).state.gui_config,
        final(daemon).state.hypr_data == old(daemon).state.hypr_data,
        final(daemon).state.launcher.execs == old(daemon).state.launcher.execs,
        match old(daemon).state.launcher.selected {
            Some(sel) => {
                if old(daemon).state.launcher.execs.len() == 0 {
                    &&& r == SwitchStep::Done(None)
                    &&& *final(daemon) == *old(daemon)
                } else {
                    &&& r == SwitchStep::Done(
                        Some(
                            HandOffMsg {
                                event: GUISend::Refresh,
                                cause: UpdateCause::Client(client_id),
                            },
                        ),
                    )
                    &&& final(daemon).state.launcher.selected == Some(
                        spec_step_index(
                            sel as int,
                            command.reverse,
                            command.offset as int,
                            old(daemon).state.launcher.execs.len() as int,
                        ) as usize,
                    )
                }
            },
            None => r == SwitchStep::Navigate && *final(daemon) == *old(daemon),
        },
        old(daemon).state.wf() ==> final(daemon).state.wf(),
{
    let exec_len = daemon.state.launcher.execs.len();
    match daemon.state.launcher.selected {
        Some(sel) => {
            if exec_len == 0 {
                return SwitchStep::Done(None);
            }
            let offset = command.offset as usize;
            let next: usize = if command.reverse {
                if sel >= offset {
                    sel - offset
                } else {
                    0
                }
            } else {
                if sel <= exec_len - 1 && offset <= exec_len - 1 - sel {
                    sel + offset
                } else {
                    exec_len - 1
                }
            };
            daemon.state.launcher.selected = Some(next);
            SwitchStep::Done(
                Some(HandOffMsg { event: GUISend::Refresh, cause: UpdateCause::Client(client_id) }),
            )
        },
        None => SwitchStep::Navigate,
    }
}

/// Stores the navigator's answer as the new `active` selection. The caller
/// owes the overlay actor exactly the returned acknowledged `Refresh`
/// hand-off before answering the command's originator.
pub fn switch_apply(daemon: &mut Daemon, new_active: Active, client_id: u8) -> (r: HandOffMsg)
    ensures
        final(daemon).state.active == new_active,
        final(daemon).state.simple_config == old(daemon).state.simple_config,
        final(daemon).state.gui_config == old(daemon).state.gui_config,
        final(daemon).state.hypr_data == old(daemon).state.hypr_data,
        final(daemon).state.launcher == old(daemon).state.launcher,
        final(daemon).overlay_open == old(daemon).overlay_open,
        final(daemon).keybinding_held == old(daemon).keybinding_held,
        r == (HandOffMsg { event: GUISend::Refresh, cause: UpdateCause::Client(client_id) }),
        old(daemon).state.wf() ==> final(daemon).state.wf(),
{
    daemon.state.active = new_active;
    HandOffMsg { event: GUISend::Refresh, cause: UpdateCause::Client(client_id) }
}

/// The real-world side effect a `close` command asks of its caller, fired
/// before the overlay hides and never when `kill` was requested.
#[derive(Debug, Clone, Copy, PartialEq, Eq, Structural)]
pub enum CloseAction {
    /// Launch the program at this index of the launch list (fire-and-forget).
    Launch(usize),
    /// Commit the current selection by focusing it (best-effort; a failure
    /// is logged and must not skip the cleanup already performed here).
    Focus(Active),
    /// No side effect: `kill` was requested, or the pending launcher index
    /// raced with a list change and is out of range (a logged anomaly).
    Nothing,
}

/// Ends the session. Whatever `kill` says and whatever the caller's later
/// side effect does, the keybinding grab is released and the overlay is
/// marked closed — a scoped-resource guarantee, not conditional cleanup.
/// The caller performs the returned action, releases the real keybinding
/// grab (idempotent, safe even if acquisition never succeeded), sends the
/// returned `Hide` hand-off, blocks for its acknowledgement, and only then
/// runs the idempotent maintenance hooks and answers the originator.
pub fn close(daemon: &mut Daemon, kill: bool, client_id: u8) -> (r: (CloseAction, HandOffMsg))
    ensures
        !final(daemon).keybinding_held,
        !final(daemon).overlay_open,
        final(daemon).state == old(daemon).state,
        r.1 == (HandOffMsg { event: GUISend::Hide, cause: UpdateCause::Client(client_id) }),
        kill ==> r.0 == CloseAction::Nothing,
        !kill ==> match old(daemon).state.launcher.selected {
            Some(sel) => {
                if sel < old(daemon).state.launcher.execs.len() {
                    r.0 == CloseAction::Launch(sel)
                } else {
                    r.0 == CloseAction::Nothing
                }
            },
            None => r.0 == CloseAction::Focus(old(daemon).state.active),
        },
{
    let action = if kill {
        CloseAction::Nothing
    } else {
        match daemon.state.launcher.selected {
            Some(sel) => {
                if sel < daemon.state.launcher.execs.len() {
                    CloseAction::Launch(sel)
                } else {
                    CloseAction::Nothing
                }
            },
            None => CloseAction::Focus(daemon.state.active),
        }
    };
    daemon.keybinding_held = false;
    daemon.overlay_open = false;
    (action, HandOffMsg { event: GUISend::Hide, cause: UpdateCause::Client(client_id) })
}

} // verus!
