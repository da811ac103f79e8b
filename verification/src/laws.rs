//! What holds of the editor in every state and for every key. Each law is
//! proved of the state machine that the executable editor follows.

use crate::bindings::{local_table, resolve, Resolution};
use crate::key::{KeyCode, KeyEvent};
use crate::mode::ModeView;
use crate::model::{record, LxView, Tick, HISTORY_LEN};
use crate::op::{CommandOp, Operation};
use crate::prefix::{PendingPrefix, Prefix};
use crate::text::{lemma_append_then_remove, lemma_remove_twice, without_tail};
use vstd::prelude::*;

verus! {

/// Applying an operation keeps a well-formed state well formed: there is
/// still a buffer, and the active index still names one.
pub proof fn lemma_execute_keeps_wf(s: LxView, op: Operation)
    requires
        s.wf(),
    ensures
        s.execute(op).0.wf(),
        s.execute(op).0.registry.buffers.len() >= 1,
{
}

/// A tick keeps a well-formed state well formed.
pub proof fn lemma_step_keeps_wf(s: LxView, tick: Tick)
    requires
        s.wf(),
    ensures
        s.step(tick).wf(),
        s.step(tick).registry.buffers.len() >= 1,
{
    match tick {
        Tick::Key(kv, now) => {
            let (dispatched, op) = s.dispatch(kv, now);
            assert(dispatched.wf());
            match op {
                Some(op) => {
                    lemma_execute_keeps_wf(dispatched, op);
                },
                None => {},
            }
        },
        Tick::Idle(now) => {},
    }
}

/// Any run of ticks keeps a well-formed state well formed.
pub proof fn lemma_run_keeps_wf(s: LxView, ticks: Seq<Tick>)
    requires
        s.wf(),
    ensures
        s.run(ticks).wf(),
    decreases ticks.len(),
{
    if ticks.len() > 0 {
        lemma_run_keeps_wf(s, ticks.drop_last());
        lemma_step_keeps_wf(s.run(ticks.drop_last()), ticks.last());
    }
}

/// The registry is never empty: in every state that the editor can get into
/// from startup there is at least one buffer, the active index names one of
/// them, and the history is within its bound. This holds after the session
/// has ended too: the last buffer is never removed.
pub proof fn lemma_registry_never_empty(s: LxView)
    requires
        s.reachable(),
    ensures
        s.wf(),
        s.registry.buffers.len() >= 1,
        0 <= s.registry.active < s.registry.buffers.len(),
{
    let ticks = choose|ticks: Seq<Tick>| LxView::init().run(ticks) == s;
    lemma_run_keeps_wf(LxView::init(), ticks);
}

/// Once the session has ended, nothing happens any more: no tick changes
/// the state, so the end is signaled once and never taken back.
pub proof fn lemma_end_is_final(s: LxView, ticks: Seq<Tick>)
    requires
        s.quit,
    ensures
        s.run(ticks) == s,
    decreases ticks.len(),
{
    if ticks.len() > 0 {
        lemma_end_is_final(s, ticks.drop_last());
    }
}

/// Which operations end the session. On a running editor an operation
/// raises the termination flag exactly when it is the request to quit, or
/// closes the last buffer, or runs the command line `quit`.
pub proof fn lemma_what_ends_the_session(s: LxView, op: Operation)
    requires
        s.wf(),
        !s.quit,
    ensures
        s.execute(op).0.quit <==> {
            ||| op == Operation::Quit
            ||| op == Operation::CloseBuffer && s.registry.buffers.len() == 1
            ||| op == Operation::Command(CommandOp::Enter) && s.mode == ModeView::Command("quit"@)
        },
{
}

/// Closing a buffer ends the session exactly when it is the last one. The
/// registry then keeps it; otherwise the registry has one buffer fewer.
pub proof fn lemma_closing_the_last_buffer_ends_the_session(s: LxView)
    requires
        s.wf(),
        !s.quit,
    ensures
        s.execute(Operation::CloseBuffer).0.quit <==> s.registry.buffers.len() == 1,
        s.registry.buffers.len() == 1 ==> s.execute(Operation::CloseBuffer).0.registry
            == s.registry,
        s.registry.buffers.len() > 1 ==> s.execute(
            Operation::CloseBuffer,
        ).0.registry.buffers.len() == s.registry.buffers.len() - 1,
{
}

/// Exactly one mode is active: a mode is one of the four and no two of
/// them.
pub proof fn lemma_exactly_one_mode(m: ModeView)
    ensures
        (if m is Insert {
            1int
        } else {
            0int
        }) + (if m is Edit {
            1int
        } else {
            0int
        }) + (if m is Command {
            1int
        } else {
            0int
        }) + (if m is Overview {
            1int
        } else {
            0int
        }) == 1,
{
}

/// A cycle never leaves the mode undefined: afterwards the editor is in the
/// mode it was in, or in one of the four modes as it is entered, or, after
/// an edit of the command line, in Command mode still.
pub proof fn lemma_mode_after_cycle(s: LxView, kv: KeyEvent, now: u64)
    ensures
        ({
            let after = s.cycle(kv, now).0.mode;
            ||| after == s.mode
            ||| after == ModeView::insert()
            ||| after == ModeView::edit()
            ||| after == ModeView::overview()
            ||| after == ModeView::command()
            ||| after is Command && s.mode is Command
        }),
{
}

/// No arming outlives a cycle. Whatever prefix is pending when a key is
/// dispatched is gone afterwards, whether the key completed it, was dropped
/// by it, or came after its deadline. A prefix pending after the cycle was
/// armed by this very key, at this very time.
pub proof fn lemma_prefix_cleared_by_next_cycle(s: LxView, kv: KeyEvent, now: u64)
    requires
        !s.quit,
    ensures
        s.prefix is Some ==> s.cycle(kv, now).0.prefix != s.prefix,
        s.cycle(kv, now).0.prefix matches Some(p) ==> {
            &&& p.armed_at == now
            &&& match s.live_prefix(now) {
                Some(before) => resolve(before, kv) == Resolution::Rearmed(p.prefix),
                None => Prefix::arms(kv) == Some(p.prefix),
            }
        },
{
    let (dispatched, op) = s.dispatch(kv, now);
    match op {
        Some(op) => {
            assert(dispatched.execute(op).0.prefix == dispatched.prefix);
        },
        None => {},
    }
}

/// A prefix whose deadline has passed is dropped when the host's wait runs
/// out, and nothing else changes.
pub proof fn lemma_prefix_cleared_by_timeout(s: LxView, now: u64)
    requires
        !s.quit,
        s.prefix matches Some(p) && now > p.armed_at + crate::prefix::PREFIX_TIMEOUT_MS,
    ensures
        s.timeout(now) == (LxView { prefix: None, ..s }),
{
}

/// A live prefix captures the next key whatever the mode is: what the key
/// comes to does not depend on the mode, so neither a mode switch nor a
/// binding of the mode gets to see it.
pub proof fn lemma_live_prefix_captures_key(s: LxView, other: ModeView, kv: KeyEvent, now: u64)
    requires
        s.live_prefix(now) is Some,
    ensures
        s.decide(kv, now) == (LxView { mode: other, ..s }).decide(kv, now),
        s.cycle(kv, now).0.mode == s.mode,
{
}

/// After the deadline a key is dispatched as if no prefix had ever been
/// armed.
pub proof fn lemma_expired_prefix_is_forgotten(s: LxView, kv: KeyEvent, now: u64)
    requires
        !s.quit,
        s.prefix matches Some(p) && p.spec_expired(now),
    ensures
        s.cycle(kv, now) == (LxView { prefix: None, ..s }).cycle(kv, now),
{
    let forgotten = LxView { prefix: None, ..s };
    assert(s.decide(kv, now) == forgotten.decide(kv, now));
    assert(s.dispatch(kv, now) == forgotten.dispatch(kv, now));
}

/// A key that is bound to nothing changes nothing but the history: with no
/// live prefix, no trigger, no mode switch and no binding in the mode, the
/// cycle records the key, and that is all.
pub proof fn lemma_unbound_key_is_a_no_op(s: LxView, kv: KeyEvent, now: u64)
    requires
        !s.quit,
        s.live_prefix(now) is None,
        Prefix::arms(kv) is None,
        s.mode.transition(kv) is None,
        local_table(s.mode, kv) is None,
    ensures
        s.cycle(kv, now) == (
            LxView { prefix: None, history: record(s.history, kv), ..s },
            Seq::<crate::effect::Effect>::empty(),
        ),
{
}

/// Every cycle records its key: afterwards the key is the newest entry of
/// the history.
pub proof fn lemma_cycle_records_key(s: LxView, kv: KeyEvent, now: u64)
    requires
        s.wf(),
        !s.quit,
    ensures
        s.cycle(kv, now).0.history == record(s.history, kv),
        s.cycle(kv, now).0.history.len() >= 1,
        s.cycle(kv, now).0.history.last() == kv,
        s.cycle(kv, now).0.history.len() <= HISTORY_LEN,
{
    let (dispatched, op) = s.dispatch(kv, now);
    match op {
        Some(op) => {
            assert(dispatched.execute(op).0.history == dispatched.history);
        },
        None => {},
    }
}

/// True when the tick brings the key `kv`, at whatever time.
pub open spec fn brings(tick: Tick, kv: KeyEvent) -> bool {
    tick matches Tick::Key(k, _) && k == kv
}

/// True when `ticks` types the characters of `cs`, one unmodified key each,
/// and then presses Backspace as many times.
pub open spec fn types_then_erases(ticks: Seq<Tick>, cs: Seq<char>) -> bool {
    &&& ticks.len() == 2 * cs.len()
    &&& forall|i: int|
        0 <= i < cs.len() ==> brings(#[trigger] ticks[i], KeyEvent::spec_plain(KeyCode::Char(cs[i])))
    &&& forall|i: int|
        cs.len() <= i < 2 * cs.len() ==> brings(
            #[trigger] ticks[i],
            KeyEvent::spec_plain(KeyCode::Backspace),
        )
}

/// The text of the active buffer after the first `k` ticks of a run that
/// types `cs` onto `text` and then erases as many characters.
pub open spec fn text_after(text: Seq<char>, cs: Seq<char>, k: nat) -> Seq<char> {
    if k <= cs.len() {
        text + cs.take(k as int)
    } else {
        without_tail(text + cs, (k - cs.len()) as nat)
    }
}

/// Where a run that types and then erases stands after its first `k`
/// ticks: still running, in Insert mode, with no prefix and the same active
/// buffer, whose text is the old text with the typed characters so far, or
/// with the erased ones gone again.
proof fn lemma_typing_progress(s: LxView, cs: Seq<char>, ticks: Seq<Tick>, k: nat)
    requires
        s.wf(),
        !s.quit,
        s.mode is Insert,
        s.prefix is None,
        types_then_erases(ticks, cs),
        k <= ticks.len(),
    ensures
        ({
            let t = s.run(ticks.take(k as int));
            &&& t.wf()
            &&& !t.quit
            &&& t.mode is Insert
            &&& t.prefix is None
            &&& t.registry.active == s.registry.active
            &&& t.registry.buffers.len() == s.registry.buffers.len()
            &&& t.registry.current().text == text_after(s.registry.current().text, cs, k)
            &&& forall|j: int|
                0 <= j < s.registry.buffers.len() && j != s.registry.active
                    ==> t.registry.buffers[j] == s.registry.buffers[j]
        }),
    decreases k,
{
    let text = s.registry.current().text;
    if k == 0 {
        assert(ticks.take(0).len() == 0);
        assert(text + cs.take(0) =~= text);
    } else {
        let before = (k - 1) as nat;
        lemma_typing_progress(s, cs, ticks, before);
        let t = s.run(ticks.take(before as int));
        assert(ticks.take(k as int).drop_last() =~= ticks.take(before as int));
        assert(ticks.take(k as int).last() == ticks[before as int]);
        assert(s.run(ticks.take(k as int)) == t.step(ticks[before as int]));
        if before < cs.len() {
            let c = cs[before as int];
            assert(brings(ticks[before as int], KeyEvent::spec_plain(KeyCode::Char(c))));
            assert(cs.take(k as int) =~= cs.take(before as int).push(c));
            assert((text + cs.take(before as int)).push(c) =~= text + cs.take(k as int));
        } else {
            assert(brings(ticks[before as int], KeyEvent::spec_plain(KeyCode::Backspace)));
            if before == cs.len() {
                assert(cs.take(before as int) =~= cs);
                assert(without_tail(text + cs, 1) =~= without_tail(text + cs.take(before as int), 1));
            } else {
                lemma_remove_twice(text + cs, (before - cs.len()) as nat, 1);
            }
        }
    }
}

/// Erasing undoes typing. In Insert mode with no prefix pending, typing
/// any characters and then pressing Backspace once for each of them leaves
/// the text of the active buffer as it was before the first key, at
/// whatever times the keys arrive. The other buffers, the active index and
/// the mode are as before too.
pub proof fn lemma_typing_then_erasing_restores_text(s: LxView, cs: Seq<char>, ticks: Seq<Tick>)
    requires
        s.wf(),
        !s.quit,
        s.mode is Insert,
        s.prefix is None,
        types_then_erases(ticks, cs),
    ensures
        s.run(ticks).registry.current().text == s.registry.current().text,
        s.run(ticks).registry.active == s.registry.active,
        s.run(ticks).registry.buffers.len() == s.registry.buffers.len(),
        forall|j: int|
            0 <= j < s.registry.buffers.len() && j != s.registry.active ==> s.run(
                ticks,
            ).registry.buffers[j] == s.registry.buffers[j],
        s.run(ticks).mode is Insert,
        !s.run(ticks).quit,
{
    lemma_typing_progress(s, cs, ticks, ticks.len());
    assert(ticks.take(ticks.len() as int) =~= ticks);
    if cs.len() == 0 {
        assert(s.registry.current().text + cs.take(0) =~= s.registry.current().text);
    } else {
        lemma_append_then_remove(s.registry.current().text, cs);
    }
}

} // verus!
