//! The editing modes and the rules by which a key moves the editor from one
//! to another.

use crate::key::{GlobalKey, KeyCode, KeyEvent, KeyModifiers};
use crate::op::ModeOp;
use vstd::prelude::*;
use vstd::string::*;

verus! {

/// The pane that Overview mode has in focus.
#[derive(Debug, Clone, Copy, PartialEq, Eq, Structural)]
pub enum OverviewPane {
    Buffers,
    Tabs,
    History,
}

impl Default for OverviewPane {
    fn default() -> (p: Self)
        ensures
            p == OverviewPane::Buffers,
    {
        OverviewPane::Buffers
    }
}

#[derive(Debug, PartialEq, Eq)]
pub struct OverviewMode {
    pub view: OverviewPane,
}

#[derive(Debug, PartialEq, Eq)]
pub struct CommandMode {
    /// The command line typed so far.
    pub command_buf: String,
}

#[derive(Debug, PartialEq, Eq)]
pub struct EditMode {}

#[derive(Debug, PartialEq, Eq)]
pub struct InsertMode {}

impl Default for OverviewMode {
    fn default() -> (m: Self)
        ensures
            m == (OverviewMode { view: OverviewPane::Buffers }),
    {
        OverviewMode { view: OverviewPane::default() }
    }
}

impl Default for CommandMode {
    fn default() -> (m: Self)
        ensures
            m.command_buf@ == Seq::<char>::empty(),
    {
        CommandMode { command_buf: String::new() }
    }
}

impl Default for EditMode {
    fn default() -> (m: Self)
        ensures
            m == (EditMode {  }),
    {
        EditMode {  }
    }
}

impl Default for InsertMode {
    fn default() -> (m: Self)
        ensures
            m == (InsertMode {  }),
    {
        InsertMode {  }
    }
}

impl GlobalKey for InsertMode {
    open spec fn trigger() -> KeyEvent {
        KeyEvent::spec_ctrl('v')
    }

    fn key() -> (k: KeyEvent) {
        KeyEvent::ctrl('v')
    }
}

impl GlobalKey for OverviewMode {
    open spec fn trigger() -> KeyEvent {
        KeyEvent::spec_ctrl('z')
    }

    fn key() -> (k: KeyEvent) {
        KeyEvent::ctrl('z')
    }
}

impl GlobalKey for EditMode {
    open spec fn trigger() -> KeyEvent {
        KeyEvent::spec_ctrl('c')
    }

    fn key() -> (k: KeyEvent) {
        KeyEvent::ctrl('c')
    }
}

impl GlobalKey for CommandMode {
    open spec fn trigger() -> KeyEvent {
        KeyEvent::spec_ctrl('x')
    }

    fn key() -> (k: KeyEvent) {
        KeyEvent::ctrl('x')
    }
}

/// The mode the editor is in. There is always exactly one.
#[derive(Debug, PartialEq, Eq)]
pub enum Mode {
    Overview(OverviewMode),
    Command(CommandMode),
    Edit(EditMode),
    Insert(InsertMode),
}

/// A mode as contracts see it: the variant, and what the variant carries.
pub enum ModeView {
    Overview(OverviewPane),
    /// Command mode with its command line.
    Command(Seq<char>),
    Edit,
    Insert,
}

impl View for Mode {
    type V = ModeView;

    open spec fn view(&self) -> ModeView {
        match self {
            Mode::Overview(m) => ModeView::Overview(m.view),
            Mode::Command(m) => ModeView::Command(m.command_buf@),
            Mode::Edit(_) => ModeView::Edit,
            Mode::Insert(_) => ModeView::Insert,
        }
    }
}

impl ModeView {
    /// Edit mode.
    pub open spec fn edit() -> ModeView {
        ModeView::Edit
    }

    /// Insert mode.
    pub open spec fn insert() -> ModeView {
        ModeView::Insert
    }

    /// Overview mode as it is entered: the buffers pane in focus.
    pub open spec fn overview() -> ModeView {
        ModeView::Overview(OverviewPane::Buffers)
    }

    /// Command mode as it is entered: an empty command line.
    pub open spec fn command() -> ModeView {
        ModeView::Command(Seq::empty())
    }

    /// True when both are the same variant, whatever they carry.
    pub open spec fn same_kind(self, other: ModeView) -> bool {
        match (self, other) {
            (ModeView::Overview(_), ModeView::Overview(_)) => true,
            (ModeView::Command(_), ModeView::Command(_)) => true,
            (ModeView::Edit, ModeView::Edit) => true,
            (ModeView::Insert, ModeView::Insert) => true,
            _ => false,
        }
    }

    /// The mode that a global mode-switch combination enters, whatever the
    /// current mode is.
    pub open spec fn global_switch(kv: KeyEvent) -> Option<ModeView> {
        if kv == KeyEvent::spec_ctrl('v') {
            Some(ModeView::insert())
        } else if kv == KeyEvent::spec_ctrl('z') {
            Some(ModeView::overview())
        } else if kv == KeyEvent::spec_ctrl('c') {
            Some(ModeView::edit())
        } else if kv == KeyEvent::spec_ctrl('x') {
            Some(ModeView::command())
        } else {
            None
        }
    }

    /// The mode one step back from this one. Escape leads from Insert to
    /// Edit and from Edit to Overview; it leaves Command for Edit; from
    /// Overview there is no way further back.
    pub open spec fn back(self) -> Option<ModeView> {
        match self {
            ModeView::Insert => Some(ModeView::edit()),
            ModeView::Edit => Some(ModeView::overview()),
            ModeView::Command(_) => Some(ModeView::edit()),
            ModeView::Overview(_) => None,
        }
    }

    /// The mode one step forward from this one. Enter leads from Overview to
    /// Edit and from Edit to Insert. In Command mode Enter runs the command
    /// line and switches no mode by itself.
    pub open spec fn forward(self) -> Option<ModeView> {
        match self {
            ModeView::Overview(_) => Some(ModeView::edit()),
            ModeView::Edit => Some(ModeView::insert()),
            _ => None,
        }
    }

    /// The mode that `kv` switches to from this mode, if it switches at all.
    /// The global combinations come first; then the unmodified Escape, Enter
    /// and colon, whose meaning depends on the current mode.
    pub open spec fn transition(self, kv: KeyEvent) -> Option<ModeView> {
        if ModeView::global_switch(kv) is Some {
            ModeView::global_switch(kv)
        } else if kv == KeyEvent::spec_plain(KeyCode::Esc) {
            self.back()
        } else if kv == KeyEvent::spec_plain(KeyCode::Enter) {
            self.forward()
        } else if kv == KeyEvent::spec_plain(KeyCode::Char(':')) {
            if self is Edit {
                Some(ModeView::command())
            } else {
                None
            }
        } else {
            None
        }
    }

    /// The mode that the insert toggle leads to: Insert from Edit, and Edit
    /// from everywhere else.
    pub open spec fn toggle_insert(self) -> ModeView {
        match self {
            ModeView::Edit => ModeView::insert(),
            _ => ModeView::edit(),
        }
    }

    /// The name of the mode on the status line.
    pub open spec fn label(self) -> Seq<char> {
        match self {
            ModeView::Command(_) => "COMMAND"@,
            ModeView::Edit => "EDIT"@,
            ModeView::Insert => "INSERT"@,
            ModeView::Overview(_) => "OVERVIEW"@,
        }
    }

    /// The request that asks for a switch to this mode.
    pub open spec fn switch_op(self) -> ModeOp {
        match self {
            ModeView::Overview(_) => ModeOp::Overview,
            ModeView::Command(_) => ModeOp::Command,
            ModeView::Edit => ModeOp::Edit,
            ModeView::Insert => ModeOp::Insert,
        }
    }
}

/// The view of a mode that may be absent.
pub open spec fn mode_option_view(m: Option<Mode>) -> Option<ModeView> {
    match m {
        Some(m) => Some(m@),
        None => None,
    }
}

impl ModeOp {
    /// The mode that the request names. The insert toggle names none: where
    /// it leads depends on the mode it is applied in.
    pub open spec fn spec_target(self) -> Option<ModeView> {
        match self {
            ModeOp::ToggleInsert => None,
            ModeOp::Insert => Some(ModeView::insert()),
            ModeOp::Edit => Some(ModeView::edit()),
            ModeOp::Overview => Some(ModeView::overview()),
            ModeOp::Command => Some(ModeView::command()),
        }
    }

    /// The mode that the request names, as it is entered.
    pub fn target(self) -> (m: Option<Mode>)
        ensures
            mode_option_view(m) == self.spec_target(),
    {
        match self {
            ModeOp::ToggleInsert => None,
            ModeOp::Insert => Some(Mode::insert()),
            ModeOp::Edit => Some(Mode::edit()),
            ModeOp::Overview => Some(Mode::overview()),
            ModeOp::Command => Some(Mode::command()),
        }
    }
}

impl Mode {
    /// The mode that `kv` switches to from this mode, or nothing if `kv`
    /// switches no mode here. The mode itself stays as it is: to switch is
    /// the caller's part.
    pub fn match_key(&mut self, kv: KeyEvent) -> (r: Option<Self>)
        ensures
            *final(self) == *old(self),
            mode_option_view(r) == old(self)@.transition(kv),
    {
        if let Some(insert) = InsertMode::match_key(kv) {
            Some(Mode::Insert(insert))
        } else if let Some(overview) = OverviewMode::match_key(kv) {
            Some(Mode::Overview(overview))
        } else if let Some(edit) = EditMode::match_key(kv) {
            Some(Mode::Edit(edit))
        } else if let Some(command) = CommandMode::match_key(kv) {
            Some(Mode::Command(command))
        } else {
            match kv {
                KeyEvent {
                    modifiers: KeyModifiers { shift: false, control: false, alt: false },
                    code: KeyCode::Esc,
                } => match self {
                    Mode::Insert(_) => Some(Self::edit()),
                    Mode::Edit(_) => Some(Self::overview()),
                    Mode::Command(_) => Some(Self::edit()),
                    Mode::Overview(_) => None,
                },
                KeyEvent {
                    modifiers: KeyModifiers { shift: false, control: false, alt: false },
                    code: KeyCode::Enter,
                } => match self {
                    Mode::Overview(_) => Some(Self::edit()),
                    Mode::Edit(_) => Some(Self::insert()),
                    _ => None,
                },
                KeyEvent {
                    modifiers: KeyModifiers { shift: false, control: false, alt: false },
                    code: KeyCode::Char(':'),
                } => match self {
                    Mode::Edit(_) => Some(Self::command()),
                    _ => None,
                },
                _ => None,
            }
        }
    }

    /// The mode that the insert toggle leads to from this one.
    pub fn toggle_insert(&self) -> (m: Self)
        ensures
            m@ == self@.toggle_insert(),
    {
        match self {
            Mode::Command(_) => Mode::edit(),
            Mode::Edit(_) => Mode::insert(),
            Mode::Insert(_) => Mode::edit(),
            Mode::Overview(_) => Mode::edit(),
        }
    }

    /// Edit mode.
    pub fn edit() -> (m: Self)
        ensures
            m@ == ModeView::edit(),
    {
        Mode::Edit(EditMode::default())
    }

    /// Insert mode.
    pub fn insert() -> (m: Self)
        ensures
            m@ == ModeView::insert(),
    {
        Mode::Insert(InsertMode::default())
    }

    /// Overview mode with the buffers pane in focus.
    pub fn overview() -> (m: Self)
        ensures
            m@ == ModeView::overview(),
    {
        Mode::Overview(OverviewMode::default())
    }

    /// Command mode with an empty command line.
    pub fn command() -> (m: Self)
        ensures
            m@ == ModeView::command(),
    {
        Mode::Command(CommandMode::default())
    }

    /// The combination meant for the insert toggle: Control with Enter.
    pub fn toggle_insert_key() -> (k: KeyEvent)
        ensures
            k == KeyEvent::spec_new(KeyCode::Enter, KeyModifiers::spec_control()),
    {
        KeyEvent { modifiers: KeyModifiers::control(), code: KeyCode::Enter }
    }

    /// True when both modes are the same variant, whatever they carry.
    pub fn same_kind(&self, other: &Mode) -> (b: bool)
        ensures
            b == self@.same_kind(other@),
    {
        match (self, other) {
            (Mode::Overview(_), Mode::Overview(_)) => true,
            (Mode::Command(_), Mode::Command(_)) => true,
            (Mode::Edit(_), Mode::Edit(_)) => true,
            (Mode::Insert(_), Mode::Insert(_)) => true,
            _ => false,
        }
    }

    /// The request that asks for a switch to this mode.
    pub fn switch_op(&self) -> (op: ModeOp)
        ensures
            op == self@.switch_op(),
    {
        match self {
            Mode::Overview(_) => ModeOp::Overview,
            Mode::Command(_) => ModeOp::Command,
            Mode::Edit(_) => ModeOp::Edit,
            Mode::Insert(_) => ModeOp::Insert,
        }
    }

    /// The name of the mode on the status line.
    pub fn to_string(&self) -> (s: String)
        ensures
            s@ == self@.label(),
    {
        match self {
            Mode::Command(_) => String::from_str("COMMAND"),
            Mode::Edit(_) => String::from_str("EDIT"),
            Mode::Insert(_) => String::from_str("INSERT"),
            Mode::Overview(_) => String::from_str("OVERVIEW"),
        }
    }
}

} // verus!
