//! Prefixes: the first half of a two-key sequence. A prefix is armed by its
//! trigger combination and waits, for a bounded time, for the key that
//! completes it.

use crate::key::{GlobalKey, KeyEvent};
use crate::types::Direction;
use vstd::prelude::*;
use vstd::string::*;

verus! {

/// How long an armed prefix waits for the key that completes it, in
/// milliseconds.
pub const PREFIX_TIMEOUT_MS: u64 = 1000;

/// What a find prefix looks through.
#[derive(Debug, Clone, Copy, PartialEq, Eq, Structural)]
pub enum FindTarget {
    Files,
    Buffers,
}

impl Default for FindTarget {
    fn default() -> (t: Self)
        ensures
            t == FindTarget::Files,
    {
        FindTarget::Files
    }
}

impl FindTarget {
    pub open spec fn label(self) -> Seq<char> {
        match self {
            FindTarget::Files => "Files"@,
            FindTarget::Buffers => "Buffers"@,
        }
    }

    /// The name of the target.
    pub fn to_string(&self) -> (s: String)
        ensures
            s@ == self.label(),
    {
        match self {
            FindTarget::Files => String::from_str("Files"),
            FindTarget::Buffers => String::from_str("Buffers"),
        }
    }
}

/// The leader: the entry point to the other prefixes and to buffer switching.
#[derive(Debug, Clone, Copy, PartialEq, Eq, Structural)]
pub struct LeaderPre {}

#[derive(Debug, Clone, Copy, PartialEq, Eq, Structural)]
pub struct BufferPre {}

#[derive(Debug, Clone, Copy, PartialEq, Eq, Structural)]
pub struct TabPre {}

#[derive(Debug, Clone, Copy, PartialEq, Eq, Structural)]
pub struct FindPre {
    pub target: FindTarget,
}

#[derive(Debug, Clone, Copy, PartialEq, Eq, Structural)]
pub struct MotionPre {
    pub dir: Direction,
}

#[derive(Debug, Clone, Copy, PartialEq, Eq, Structural)]
pub struct SearchPre {
    pub dir: Direction,
}

#[derive(Debug, Clone, Copy, PartialEq, Eq, Structural)]
pub struct WindowPre {
    pub split: bool,
}

impl Default for LeaderPre {
    fn default() -> (p: Self)
        ensures
            p == (LeaderPre {  }),
    {
        LeaderPre {  }
    }
}

impl Default for BufferPre {
    fn default() -> (p: Self)
        ensures
            p == (BufferPre {  }),
    {
        BufferPre {  }
    }
}

impl Default for TabPre {
    fn default() -> (p: Self)
        ensures
            p == (TabPre {  }),
    {
        TabPre {  }
    }
}

impl Default for FindPre {
    fn default() -> (p: Self)
        ensures
            p == (FindPre { target: FindTarget::Files }),
    {
        FindPre { target: FindTarget::default() }
    }
}

impl Default for MotionPre {
    fn default() -> (p: Self)
        ensures
            p == (MotionPre { dir: Direction::Next }),
    {
        MotionPre { dir: Direction::default() }
    }
}

impl Default for SearchPre {
    fn default() -> (p: Self)
        ensures
            p == (SearchPre { dir: Direction::Next }),
    {
        SearchPre { dir: Direction::default() }
    }
}

impl Default for WindowPre {
    fn default() -> (p: Self)
        ensures
            p == (WindowPre { split: false }),
    {
        WindowPre { split: false }
    }
}

impl GlobalKey for LeaderPre {
    open spec fn trigger() -> KeyEvent {
        KeyEvent::spec_ctrl(' ')
    }

    fn key() -> (k: KeyEvent) {
        KeyEvent::ctrl(' ')
    }
}

impl GlobalKey for BufferPre {
    open spec fn trigger() -> KeyEvent {
        KeyEvent::spec_ctrl('e')
    }

    fn key() -> (k: KeyEvent) {
        KeyEvent::ctrl('e')
    }
}

impl GlobalKey for FindPre {
    open spec fn trigger() -> KeyEvent {
        KeyEvent::spec_ctrl('f')
    }

    fn key() -> (k: KeyEvent) {
        KeyEvent::ctrl('f')
    }
}

impl GlobalKey for SearchPre {
    open spec fn trigger() -> KeyEvent {
        KeyEvent::spec_ctrl('l')
    }

    fn key() -> (k: KeyEvent) {
        KeyEvent::ctrl('l')
    }
}

impl GlobalKey for WindowPre {
    open spec fn trigger() -> KeyEvent {
        KeyEvent::spec_ctrl('w')
    }

    fn key() -> (k: KeyEvent) {
        KeyEvent::ctrl('w')
    }
}

impl GlobalKey for MotionPre {
    open spec fn trigger() -> KeyEvent {
        KeyEvent::spec_ctrl('g')
    }

    fn key() -> (k: KeyEvent) {
        KeyEvent::ctrl('g')
    }
}

impl GlobalKey for TabPre {
    open spec fn trigger() -> KeyEvent {
        KeyEvent::spec_ctrl('\\')
    }

    fn key() -> (k: KeyEvent) {
        KeyEvent::ctrl('\\')
    }
}

/// The kinds of prefix. At most one is pending at any time.
#[derive(Debug, Clone, Copy, PartialEq, Eq, Structural)]
pub enum Prefix {
    Leader(LeaderPre),
    Buffer(BufferPre),
    Tab(TabPre),
    Find(FindPre),
    Window(WindowPre),
    Motion(MotionPre),
    Search(SearchPre),
}

impl Prefix {
    pub open spec fn spec_leader() -> Prefix {
        Prefix::Leader(LeaderPre {  })
    }

    pub open spec fn spec_buffer() -> Prefix {
        Prefix::Buffer(BufferPre {  })
    }

    pub open spec fn spec_motion() -> Prefix {
        Prefix::Motion(MotionPre { dir: Direction::Next })
    }

    pub open spec fn spec_search() -> Prefix {
        Prefix::Search(SearchPre { dir: Direction::Next })
    }

    pub open spec fn spec_window() -> Prefix {
        Prefix::Window(WindowPre { split: false })
    }

    pub open spec fn spec_tab() -> Prefix {
        Prefix::Tab(TabPre {  })
    }

    pub open spec fn spec_find() -> Prefix {
        Prefix::Find(FindPre { target: FindTarget::Files })
    }

    /// The prefix that `kv` arms: each kind has one trigger, Control with one
    /// character, and the seven triggers differ from one another.
    pub open spec fn arms(kv: KeyEvent) -> Option<Prefix> {
        if kv == KeyEvent::spec_ctrl(' ') {
            Some(Prefix::spec_leader())
        } else if kv == KeyEvent::spec_ctrl('e') {
            Some(Prefix::spec_buffer())
        } else if kv == KeyEvent::spec_ctrl('\\') {
            Some(Prefix::spec_tab())
        } else if kv == KeyEvent::spec_ctrl('f') {
            Some(Prefix::spec_find())
        } else if kv == KeyEvent::spec_ctrl('w') {
            Some(Prefix::spec_window())
        } else if kv == KeyEvent::spec_ctrl('g') {
            Some(Prefix::spec_motion())
        } else if kv == KeyEvent::spec_ctrl('l') {
            Some(Prefix::spec_search())
        } else {
            None
        }
    }

    /// The prefix that `kv` arms in every mode, if it is a trigger.
    pub fn match_global_key(kv: KeyEvent) -> (r: Option<Self>)
        ensures
            r == Self::arms(kv),
    {
        if let Some(leader) = LeaderPre::match_key(kv) {
            Some(Prefix::Leader(leader))
        } else if let Some(buffer) = BufferPre::match_key(kv) {
            Some(Prefix::Buffer(buffer))
        } else if let Some(tab) = TabPre::match_key(kv) {
            Some(Prefix::Tab(tab))
        } else if let Some(find) = FindPre::match_key(kv) {
            Some(Prefix::Find(find))
        } else if let Some(window) = WindowPre::match_key(kv) {
            Some(Prefix::Window(window))
        } else if let Some(motion) = MotionPre::match_key(kv) {
            Some(Prefix::Motion(motion))
        } else if let Some(search) = SearchPre::match_key(kv) {
            Some(Prefix::Search(search))
        } else {
            None
        }
    }

    /// The prefix that `ke` arms in Edit mode alone. No prefix is bound that
    /// way: every trigger is global.
    pub fn match_edit_key(ke: KeyEvent) -> (r: Option<Self>)
        ensures
            r.is_none(),
    {
        None
    }

    /// The prefix whose trigger is `ke`, found by comparing `ke` with the
    /// seven triggers in turn.
    pub fn match_key(ke: KeyEvent) -> (r: Option<Self>)
        ensures
            r == Self::arms(ke),
    {
        if ke == LeaderPre::key() {
            Some(Self::leader())
        } else if ke == BufferPre::key() {
            Some(Self::buffer())
        } else if ke == TabPre::key() {
            Some(Self::tab())
        } else if ke == FindPre::key() {
            Some(Self::find())
        } else if ke == WindowPre::key() {
            Some(Self::window())
        } else if ke == MotionPre::key() {
            Some(Self::motion())
        } else if ke == SearchPre::key() {
            Some(Self::search())
        } else {
            None
        }
    }

    #[verifier::when_used_as_spec(spec_leader)]
    pub fn leader() -> (p: Self)
        ensures
            p == Self::spec_leader(),
    {
        Prefix::Leader(LeaderPre::default())
    }

    #[verifier::when_used_as_spec(spec_buffer)]
    pub fn buffer() -> (p: Self)
        ensures
            p == Self::spec_buffer(),
    {
        Prefix::Buffer(BufferPre::default())
    }

    #[verifier::when_used_as_spec(spec_motion)]
    pub fn motion() -> (p: Self)
        ensures
            p == Self::spec_motion(),
    {
        Prefix::Motion(MotionPre::default())
    }

    #[verifier::when_used_as_spec(spec_search)]
    pub fn search() -> (p: Self)
        ensures
            p == Self::spec_search(),
    {
        Prefix::Search(SearchPre::default())
    }

    #[verifier::when_used_as_spec(spec_window)]
    pub fn window() -> (p: Self)
        ensures
            p == Self::spec_window(),
    {
        Prefix::Window(WindowPre::default())
    }

    #[verifier::when_used_as_spec(spec_tab)]
    pub fn tab() -> (p: Self)
        ensures
            p == Self::spec_tab(),
    {
        Prefix::Tab(TabPre::default())
    }

    #[verifier::when_used_as_spec(spec_find)]
    pub fn find() -> (p: Self)
        ensures
            p == Self::spec_find(),
    {
        Prefix::Find(FindPre::default())
    }

    /// The text that names the prefix on the status line.
    pub open spec fn label(self) -> Seq<char> {
        match self {
            Prefix::Leader(_) => "Leader"@,
            Prefix::Buffer(_) => "Buffer"@,
            Prefix::Tab(_) => "Tab"@,
            Prefix::Find(p) => "Find "@ + p.target.label(),
            Prefix::Window(p) => "Win (s: "@ + (if p.split {
                "true"@
            } else {
                "false"@
            }) + ")"@,
            Prefix::Motion(p) => "Move "@ + p.dir.label(),
            Prefix::Search(p) => "Search "@ + p.dir.label() + ","@,
        }
    }

    /// Renders the prefix for the status line.
    pub fn to_string(&self) -> (s: String)
        ensures
            s@ == self.label(),
    {
        match self {
            Prefix::Leader(_) => String::from_str("Leader"),
            Prefix::Buffer(_) => String::from_str("Buffer"),
            Prefix::Tab(_) => String::from_str("Tab"),
            Prefix::Find(p) => {
                let target = p.target.to_string();
                String::from_str("Find ").concat(target.as_str())
            },
            Prefix::Window(p) => {
                let split = if p.split {
                    "true"
                } else {
                    "false"
                };
                String::from_str("Win (s: ").concat(split).concat(")")
            },
            Prefix::Motion(p) => {
                let dir = p.dir.to_string();
                String::from_str("Move ").concat(dir.as_str())
            },
            Prefix::Search(p) => {
                let dir = p.dir.to_string();
                String::from_str("Search ").concat(dir.as_str()).concat(",")
            },
        }
    }
}

/// A prefix that has been armed, with the clock reading at which it was.
#[derive(Debug, Clone, Copy, PartialEq, Eq, Structural)]
pub struct PendingPrefix {
    pub prefix: Prefix,
    /// Milliseconds on the host's monotonic clock when the trigger arrived.
    pub armed_at: u64,
}

impl PendingPrefix {
    /// The last instant at which a key still completes the prefix.
    pub open spec fn deadline(self) -> int {
        self.armed_at + PREFIX_TIMEOUT_MS
    }

    /// True when at `now` the deadline has passed.
    pub open spec fn spec_expired(self, now: u64) -> bool {
        now > self.deadline()
    }

    /// The time left at `now` until the deadline; zero once it has passed.
    pub open spec fn spec_remaining(self, now: u64) -> int {
        if now > self.deadline() {
            0
        } else if now < self.armed_at {
            PREFIX_TIMEOUT_MS as int
        } else {
            self.deadline() - now
        }
    }

    /// Arms `prefix` at `now`.
    pub fn new(prefix: Prefix, now: u64) -> (p: Self)
        ensures
            p == (PendingPrefix { prefix, armed_at: now }),
    {
        PendingPrefix { prefix, armed_at: now }
    }

    /// True when at `now` the deadline has passed: more than the timeout lies
    /// between the arming and `now`.
    #[verifier::when_used_as_spec(spec_expired)]
    pub fn expired(self, now: u64) -> (b: bool)
        ensures
            b == self.spec_expired(now),
    {
        now > self.armed_at && now - self.armed_at > PREFIX_TIMEOUT_MS
    }

    /// How many milliseconds the host may still wait at `now` for the key
    /// that completes the prefix.
    pub fn remaining(self, now: u64) -> (ms: u64)
        ensures
            ms == self.spec_remaining(now),
            ms <= PREFIX_TIMEOUT_MS,
            ms == 0 <==> now >= self.deadline(),
    {
        if now <= self.armed_at {
            PREFIX_TIMEOUT_MS
        } else if now - self.armed_at > PREFIX_TIMEOUT_MS {
            0
        } else {
            PREFIX_TIMEOUT_MS - (now - self.armed_at)
        }
    }
}

} // verus!
