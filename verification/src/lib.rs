//! Input-resolution core of a modal, keyboard-driven terminal text editor.
//!
//! The core turns a stream of key events into editor operations. It owns the
//! editing mode, at most one pending prefix with its deadline, and the
//! registry of open buffers; it draws nothing and reads no terminal. The host
//! feeds it key events with the time of a monotonic clock and carries out the
//! terminal effects it hands back.

pub mod app;
pub mod bindings;
pub mod buffer;
pub mod effect;
pub mod error;
pub mod key;
pub mod laws;
pub mod mode;
pub mod model;
pub mod op;
pub mod prefix;
pub mod text;
pub mod types;
pub mod ui;

pub use crate::app::Lx;
pub use crate::bindings::{Resolution, PAGE_SCROLL_LINES};
pub use crate::buffer::{Buffer, BufferRegistry, BufferView, Position, RegistryView};
pub use crate::effect::{CursorShape, Effect};
pub use crate::error::LxConfigError;
pub use crate::key::maps::{CycleKeys, DirectionKeys, KeyMap, KeyMaps};
pub use crate::key::{GlobalKey, KeyCode, KeyEvent, KeyModifiers};
pub use crate::mode::{
    CommandMode, EditMode, InsertMode, Mode, ModeView, OverviewMode, OverviewPane,
};
pub use crate::model::{LxView, Tick, HISTORY_LEN};
pub use crate::op::{
    CommandOp, EditOp, GlobalOp, InsertOp, ModeOp, MotionOp, Operation, SearchOp,
};
pub use crate::prefix::{
    BufferPre, FindPre, FindTarget, LeaderPre, MotionPre, PendingPrefix, Prefix, SearchPre, TabPre,
    WindowPre, PREFIX_TIMEOUT_MS,
};
pub use crate::types::{CursorDirection, Direction};
pub use crate::ui::{Snapshot, SnapshotView};
