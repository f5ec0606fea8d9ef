use vstd::prelude::*;

verus! {

/// Identifier of a monitor as reported by the compositor.
pub type MonitorId = i64;

/// Identifier of a workspace as reported by the compositor.
pub type WorkspaceId = i32;

/// Identifier (address) of a client window as reported by the compositor.
pub type ClientId = u64;

/// Geometry of one monitor inside the combined layout of all monitors.
#[derive(Debug, Clone, Copy, PartialEq, Eq, Structural)]
pub struct MonitorData {
    pub x: u16,
    pub y: u16,
    pub width: u16,
    pub height: u16,
    pub combined_width: u16,
    pub combined_height: u16,
    pub workspaces_on_monitor: u16,
}

impl Default for MonitorData {
    fn default() -> (r: Self)
        ensures
            r == (MonitorData {
                x: 0,
                y: 0,
                width: 0,
                height: 0,
                combined_width: 0,
                combined_height: 0,
                workspaces_on_monitor: 0,
            }),
    {
        MonitorData {
            x: 0,
            y: 0,
            width: 0,
            height: 0,
            combined_width: 0,
            combined_height: 0,
            workspaces_on_monitor: 0,
        }
    }
}

/// Position of one workspace inside the combined layout.
#[derive(Debug, Clone, Copy, PartialEq, Eq, Structural)]
pub struct WorkspaceData {
    pub x: u16,
    pub y: u16,
}

impl Default for WorkspaceData {
    fn default() -> (r: Self)
        ensures
            r == (WorkspaceData { x: 0, y: 0 }),
    {
        WorkspaceData { x: 0, y: 0 }
    }
}

/// What is currently chosen. Exactly one variant holds at any time;
/// `Unknown` means no valid target could be determined at `init` time.
#[derive(Debug, Clone, Copy, PartialEq, Eq, Structural)]
pub enum Active {
    Client(ClientId),
    Workspace(WorkspaceId),
    Monitor(MonitorId),
    Unknown,
}

/// The compositor's notion of what is active "now" in each of the three
/// dimensions, as reported by the target collector.
#[derive(Debug, Clone, Copy)]
pub struct ActiveTriple {
    pub client: Option<ClientId>,
    pub workspace: Option<WorkspaceId>,
    pub monitor: Option<MonitorId>,
}

/// The target universe captured at `init`: the enumerable set of candidate
/// clients, workspaces and monitors over which navigation occurs.
#[derive(Debug, Clone)]
pub struct HyprData {
    pub clients: Vec<ClientId>,
    pub workspaces: Vec<(WorkspaceId, WorkspaceData)>,
    pub monitors: Vec<(MonitorId, MonitorData)>,
}

impl HyprData {
    /// An empty target universe, as held before the first `init`.
    pub fn empty() -> (r: HyprData)
        ensures
            r.clients@ =~= Seq::<ClientId>::empty(),
            r.workspaces@ =~= Seq::<(WorkspaceId, WorkspaceData)>::empty(),
            r.monitors@ =~= Seq::<(MonitorId, MonitorData)>::empty(),
    {
        HyprData { clients: Vec::new(), workspaces: Vec::new(), monitors: Vec::new() }
    }
}

/// One launchable program: its command, an optional working directory, and
/// whether it runs in a terminal.
#[derive(Debug, Clone)]
pub struct Exec {
    pub command: String,
    pub path: Option<String>,
    pub terminal: bool,
}

/// The launcher sub-mode: an ordered list of launchable programs and, while
/// the sub-mode is active, the index currently selected in it.
#[derive(Debug, Clone)]
pub struct LauncherState {
    pub selected: Option<usize>,
    pub execs: Vec<Exec>,
}

impl LauncherState {
    /// The launcher as held before the first `init`: no list, nothing selected.
    pub fn empty() -> (r: LauncherState)
        ensures
            r.selected is None,
            r.execs@ =~= Seq::<Exec>::empty(),
    {
        LauncherState { selected: None, execs: Vec::new() }
    }
}

} // verus!
