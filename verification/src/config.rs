use vstd::prelude::*;

use crate::text::{lower, split_on, split_str, eq_lower};
use vstd::string::StringExecFns;

verus! {

/// Options that apply to every command.
#[derive(Debug, Clone, Copy, PartialEq, Eq, Structural)]
pub struct GlobalOpts {
    /// Print the command that would be executed instead of executing it.
    pub dry_run: bool,
    /// Verbosity level.
    pub verbose: u8,
}

/// Which of the three dimensions a session switches over.
#[derive(Debug, Clone, Copy, PartialEq, Eq, Structural)]
pub enum SwitchType {
    Client,
    Workspace,
    Monitor,
}

impl Default for SwitchType {
    fn default() -> (r: Self)
        ensures
            r == SwitchType::Client,
    {
        SwitchType::Client
    }
}

/// The configuration snapshot captured at `init` and held fixed until the
/// next `init`: the switch dimension and the filters that shape the target
/// universe.
#[derive(Debug, Clone, Copy, PartialEq, Eq, Structural)]
pub struct SimpleConf {
    /// Include special workspaces (e.g., a scratchpad).
    pub include_special_workspaces: bool,
    /// Sort all windows on every monitor like one contiguous workspace.
    pub ignore_workspaces: bool,
    /// Sort all windows on matching workspaces on monitors like one big monitor.
    pub ignore_monitors: bool,
    /// Only switch between windows that share the focused window's class.
    pub filter_same_class: bool,
    /// Only switch between windows on the focused window's workspace.
    pub filter_current_workspace: bool,
    /// Only switch between windows on the focused window's monitor.
    pub filter_current_monitor: bool,
    /// Sort windows by most recently focused.
    pub sort_recent: bool,
    /// Which dimension to switch over.
    pub switch_type: SwitchType,
}

impl Default for SimpleConf {
    fn default() -> (r: Self)
        ensures
            r == (SimpleConf {
                include_special_workspaces: false,
                ignore_workspaces: false,
                ignore_monitors: false,
                filter_same_class: false,
                filter_current_workspace: false,
                filter_current_monitor: false,
                sort_recent: false,
                switch_type: SwitchType::Client,
            }),
    {
        SimpleConf {
            include_special_workspaces: false,
            ignore_workspaces: false,
            ignore_monitors: false,
            filter_same_class: false,
            filter_current_workspace: false,
            filter_current_monitor: false,
            sort_recent: false,
            switch_type: SwitchType::Client,
        }
    }
}

/// Per-command navigation options: direction and step width.
#[derive(Debug, Clone, Copy, PartialEq, Eq, Structural)]
pub struct SimpleOpts {
    /// Reverse the order of targets / switch backwards.
    pub reverse: bool,
    /// Switch to a target this many places away.
    pub offset: u8,
}

/// A modifier key as the user names it on the command line; left/right
/// agnostic names are allowed and later resolved to a concrete key.
#[derive(Debug, Clone, Copy, PartialEq, Eq, Structural)]
pub enum ModKeyInput {
    Alt,
    AltL,
    AltR,
    Ctrl,
    CtrlL,
    CtrlR,
    Super,
    SuperL,
    SuperR,
    Shift,
    ShiftL,
    ShiftR,
}

/// A concrete modifier key as handed to the compositor.
#[derive(Debug, Clone, Copy, PartialEq, Eq, Structural)]
pub enum ModKey {
    AltL,
    AltR,
    CtrlL,
    CtrlR,
    SuperL,
    SuperR,
    ShiftL,
    ShiftR,
}

impl Default for ModKey {
    fn default() -> (r: Self)
        ensures
            r == ModKey::SuperL,
    {
        ModKey::SuperL
    }
}

/// The concrete key a left/right agnostic modifier name resolves to.
pub open spec fn modkey_of(s: ModKeyInput) -> ModKey {
    match s {
        ModKeyInput::Alt | ModKeyInput::AltL => ModKey::AltL,
        ModKeyInput::AltR => ModKey::AltR,
        ModKeyInput::Ctrl | ModKeyInput::CtrlL => ModKey::CtrlL,
        ModKeyInput::CtrlR => ModKey::CtrlR,
        ModKeyInput::Super | ModKeyInput::SuperL => ModKey::SuperL,
        ModKeyInput::SuperR => ModKey::SuperR,
        ModKeyInput::Shift | ModKeyInput::ShiftL => ModKey::ShiftL,
        ModKeyInput::ShiftR => ModKey::ShiftR,
    }
}

impl From<ModKeyInput> for ModKey {
    fn from(s: ModKeyInput) -> (r: Self) {
        match s {
            ModKeyInput::Alt | ModKeyInput::AltL => ModKey::AltL,
            ModKeyInput::AltR => ModKey::AltR,
            ModKeyInput::Ctrl | ModKeyInput::CtrlL => ModKey::CtrlL,
            ModKeyInput::CtrlR => ModKey::CtrlR,
            ModKeyInput::Super | ModKeyInput::SuperL => ModKey::SuperL,
            ModKeyInput::SuperR => ModKey::SuperR,
            ModKeyInput::Shift | ModKeyInput::ShiftL => ModKey::ShiftL,
            ModKeyInput::ShiftR => ModKey::ShiftR,
        }
    }
}

impl vstd::std_specs::convert::FromSpecImpl<ModKeyInput> for ModKey {
    open spec fn obeys_from_spec() -> bool {
        true
    }

    open spec fn from_spec(s: ModKeyInput) -> ModKey {
        modkey_of(s)
    }
}

/// Which modifier a name denotes, compared without regard to ASCII case.
pub open spec fn mod_key_input_of_name(s: Seq<char>) -> Option<ModKeyInput> {
    let l = lower(s);
    if l == "alt"@ {
        Some(ModKeyInput::Alt)
    } else if l == "alt_l"@ {
        Some(ModKeyInput::AltL)
    } else if l == "alt_r"@ {
        Some(ModKeyInput::AltR)
    } else if l == "ctrl"@ {
        Some(ModKeyInput::Ctrl)
    } else if l == "ctrl_l"@ {
        Some(ModKeyInput::CtrlL)
    } else if l == "ctrl_r"@ {
        Some(ModKeyInput::CtrlR)
    } else if l == "super"@ {
        Some(ModKeyInput::Super)
    } else if l == "super_l"@ {
        Some(ModKeyInput::SuperL)
    } else if l == "super_r"@ {
        Some(ModKeyInput::SuperR)
    } else if l == "shift"@ {
        Some(ModKeyInput::Shift)
    } else if l == "shift_l"@ {
        Some(ModKeyInput::ShiftL)
    } else if l == "shift_r"@ {
        Some(ModKeyInput::ShiftR)
    } else {
        None
    }
}

impl ModKeyInput {
    /// Parses a modifier name, ignoring ASCII case.
    pub fn from_name(s: &str) -> (r: Option<ModKeyInput>)
        ensures
            r == mod_key_input_of_name(s@),
    {
        if eq_lower(s, "alt") {
            Some(ModKeyInput::Alt)
        } else if eq_lower(s, "alt_l") {
            Some(ModKeyInput::AltL)
        } else if eq_lower(s, "alt_r") {
            Some(ModKeyInput::AltR)
        } else if eq_lower(s, "ctrl") {
            Some(ModKeyInput::Ctrl)
        } else if eq_lower(s, "ctrl_l") {
            Some(ModKeyInput::CtrlL)
        } else if eq_lower(s, "ctrl_r") {
            Some(ModKeyInput::CtrlR)
        } else if eq_lower(s, "super") {
            Some(ModKeyInput::Super)
        } else if eq_lower(s, "super_l") {
            Some(ModKeyInput::SuperL)
        } else if eq_lower(s, "super_r") {
            Some(ModKeyInput::SuperR)
        } else if eq_lower(s, "shift") {
            Some(ModKeyInput::Shift)
        } else if eq_lower(s, "shift_l") {
            Some(ModKeyInput::ShiftL)
        } else if eq_lower(s, "shift_r") {
            Some(ModKeyInput::ShiftR)
        } else {
            None
        }
    }
}

/// How the overlay session is closed.
#[derive(Debug, Clone, Copy, PartialEq, Eq, Structural)]
pub enum CloseType {
    /// Close when pressing enter or an index key, or clicking in the overlay.
    Default,
    /// Close when releasing the modifier key, or clicking in the overlay.
    ModKeyRelease,
}

impl Default for CloseType {
    fn default() -> (r: Self)
        ensures
            r == CloseType::Default,
    {
        CloseType::Default
    }
}

/// The key used for switching backwards: either a modifier or a plain key.
#[derive(Debug, Clone, PartialEq, Eq)]
pub enum ReverseKey {
    Mod(ModKey),
    Key(String),
}

impl Default for ReverseKey {
    fn default() -> (r: Self)
        ensures
            r == ReverseKey::Mod(ModKey::ShiftL),
    {
        ReverseKey::Mod(ModKey::ShiftL)
    }
}

impl ReverseKey {
    /// Parses `mod=<modifier>` (modifier name compared without regard to
    /// ASCII case) or `key=<key>`; anything else is rejected.
    pub fn from_str(s: &str) -> (r: Result<ReverseKey, String>)
        ensures
            ({
                let parts = split_on(s@, '=');
                if parts.len() != 2 {
                    r is Err
                } else if parts[0] == "mod"@ {
                    match mod_key_input_of_name(parts[1]) {
                        Some(mi) => r == Result::<ReverseKey, String>::Ok(
                            ReverseKey::Mod(modkey_of(mi)),
                        ),
                        None => r is Err,
                    }
                } else if parts[0] == "key"@ {
                    r matches Ok(k) && (k matches ReverseKey::Key(kk) && kk@ == parts[1])
                } else {
                    r is Err
                }
            }),
    {
        let mut parts = split_str(s, '=');
        if parts.len() != 2 {
            return Err(
                String::from_str("invalid reverse key (use mod=<modifier> or key=<key>): ").concat(
                    s,
                ),
            );
        }
        proof {
            assert(parts@.map_values(|p: String| p@)[0] == split_on(s@, '=')[0]);
            assert(parts@.map_values(|p: String| p@)[1] == split_on(s@, '=')[1]);
        }
        let value = parts.pop().unwrap();
        let keyname = parts.pop().unwrap();
        if keyname.eq(&String::from_str("mod")) {
            match ModKeyInput::from_name(value.as_str()) {
                Some(mi) => Ok(ReverseKey::Mod(ModKey::from(mi))),
                None => Err(String::from_str("unknown modifier in reverse key: ").concat(s)),
            }
        } else if keyname.eq(&String::from_str("key")) {
            Ok(ReverseKey::Key(value))
        } else {
            Err(String::from_str("invalid reverse key (use mod=<modifier> or key=<key>): ").concat(s))
        }
    }
}

/// The monitors the overlay is restricted to, each named as the compositor
/// knows it.
#[derive(Debug, Clone, PartialEq, Eq)]
pub struct Monitors(pub Vec<String>);

impl Default for Monitors {
    fn default() -> (r: Self)
        ensures
            r.0@ =~= Seq::<String>::empty(),
    {
        Monitors(Vec::new())
    }
}

/// Whether `p` reads as one of the names in `available`.
pub open spec fn piece_available(p: Seq<char>, available: Seq<String>) -> bool {
    exists|k: int| #![trigger available[k]] 0 <= k < available.len() && available[k]@ == p
}

/// Whether every comma-separated piece of `s` reads as an available name.
pub open spec fn all_pieces_available(s: Seq<char>, available: Seq<String>) -> bool {
    forall|j: int|
        #![trigger split_on(s, ',')[j]]
        0 <= j < split_on(s, ',').len() ==> piece_available(split_on(s, ',')[j], available)
}

/// Whether some element of `v` reads as `x`.
fn contains_string(v: &Vec<String>, x: &String) -> (b: bool)
    ensures
        b == piece_available(x@, v@),
{
    let mut k: usize = 0;
    while k < v.len()
        invariant
            k <= v@.len(),
            forall|j: int| #![trigger v@[j]] 0 <= j < k ==> v@[j]@ != x@,
        decreases v@.len() - k,
    {
        let e = &v[k];
        if e.eq(x) {
            return true;
        }
        k = k + 1;
    }
    false
}

impl Monitors {
    /// Parses a comma-separated list of monitor names. Succeeds if and only
    /// if every listed name is one of the available monitor names; the first
    /// name that is not ends the parse with an error.
    pub fn from_str(s: &str, available: &Vec<String>) -> (r: Result<Monitors, String>)
        ensures
            r is Ok <==> all_pieces_available(s@, available@),
            r matches Ok(m) ==> m.0@.map_values(|p: String| p@) == split_on(s@, ','),
    {
        let parts = split_str(s, ',');
        let mut i: usize = 0;
        while i < parts.len()
            invariant
                parts@.map_values(|p: String| p@) == split_on(s@, ','),
                i <= parts@.len(),
                forall|j: int|
                    #![trigger parts@[j]]
                    0 <= j < i ==> piece_available(parts@[j]@, available@),
            decreases parts@.len() - i,
        {
            let e = &parts[i];
            if !contains_string(available, e) {
                proof {
                    assert(parts@.map_values(|p: String| p@)[i as int] == split_on(s@, ',')[
                        i as int
                    ]);
                    assert(!piece_available(split_on(s@, ',')[i as int], available@));
                    assert(0 <= i < split_on(s@, ',').len());
                }
                return Err(
                    String::from_str("monitor not found among available monitors: ").concat(s),
                );
            }
            i = i + 1;
        }
        proof {
            assert(parts@.map_values(|p: String| p@).len() == parts@.len());
            assert forall|j: int| 0 <= j < split_on(s@, ',').len() implies piece_available(
                #[trigger] split_on(s@, ',')[j],
                available@,
            ) by {
                assert(parts@.map_values(|p: String| p@)[j] == split_on(s@, ',')[j]);
            }
            assert(all_pieces_available(s@, available@));
        }
        Ok(Monitors(parts))
    }
}

/// Configuration of the overlay itself, captured at `init`.
#[derive(Debug, Clone)]
pub struct GuiConf {
    /// The modifier key used to open the overlay.
    pub mod_key: ModKeyInput,
    /// The key used to open the overlay.
    pub key: String,
    /// The key used for switching backwards.
    pub reverse_key: ReverseKey,
    /// How the overlay session is closed.
    pub close: CloseType,
    /// The highest offset reachable with number keys; 0 disables them.
    pub max_switch_offset: u8,
    /// Hide the border around the active target in the overlay.
    pub hide_active_window_border: bool,
    /// Show the overlay only on these monitors; absent means all monitors.
    pub monitors: Option<Monitors>,
    /// Show all workspaces on all monitors.
    pub show_workspaces_on_all_monitors: bool,
}

} // verus!
