//! Keystroke macros: fixed, ordered sequences of key/delay steps that drive
//! the host application between screens and through data entry.
//!
//! A macro is a stateless description — it reads nothing from the UI, it
//! only says which keys to inject and how long to let the host application
//! settle between steps.  The unverified shell executes the steps strictly
//! in order against a target element; partial macros are never rolled back.

use vstd::prelude::*;
use crate::tree::ElementRef;

verus! {

/// One step of a keystroke macro.
#[derive(Debug, Clone, PartialEq, Eq)]
pub enum KeyStep {
    /// Inject the literal key sequence, pausing `interval_ms` between keys.
    Keys { keys: String, interval_ms: u64 },
    /// Hold the modifier keys down while injecting the key sequence.
    HoldKeys { holds: String, keys: String, interval_ms: u64 },
    /// Inject nothing; pause to let the host application settle.
    Settle { ms: u64 },
}

/// A keystroke macro: its steps, in the order they are to be executed.
pub type KeyMacro = Vec<KeyStep>;

/// The step injects exactly the literal sequence `keys` with the given
/// inter-key interval.
pub open spec fn is_keys(step: KeyStep, keys: Seq<char>, interval_ms: int) -> bool {
    step matches KeyStep::Keys { keys: k, interval_ms: i } && k@ == keys && i == interval_ms
}

/// The step holds `holds` while injecting `keys` with the given interval.
pub open spec fn is_hold_keys(step: KeyStep, holds: Seq<char>, keys: Seq<char>, interval_ms: int) -> bool {
    step matches KeyStep::HoldKeys { holds: h, keys: k, interval_ms: i } && h@ == holds && k@
        == keys && i == interval_ms
}

/// The step is a pure settle pause of `ms` milliseconds.
pub open spec fn is_settle(step: KeyStep, ms: int) -> bool {
    step matches KeyStep::Settle { ms: m } && m == ms
}

/// A literal-keys step.
pub fn keys_step(keys: &str, interval_ms: u64) -> (s: KeyStep)
    ensures
        is_keys(s, keys@, interval_ms as int),
{
    KeyStep::Keys { keys: keys.to_owned(), interval_ms }
}

/// A modifier-held step.
pub fn hold_keys_step(holds: &str, keys: &str, interval_ms: u64) -> (s: KeyStep)
    ensures
        is_hold_keys(s, holds@, keys@, interval_ms as int),
{
    KeyStep::HoldKeys { holds: holds.to_owned(), keys: keys.to_owned(), interval_ms }
}

/// A settle pause.
pub fn settle_step(ms: u64) -> (s: KeyStep)
    ensures
        is_settle(s, ms as int),
{
    KeyStep::Settle { ms }
}

/// An exact copy of one step.
pub fn copy_step(step: &KeyStep) -> (r: KeyStep)
    ensures
        r == *step,
{
    match step {
        KeyStep::Keys { keys, interval_ms } => KeyStep::Keys {
            keys: keys.clone(),
            interval_ms: *interval_ms,
        },
        KeyStep::HoldKeys { holds, keys, interval_ms } => KeyStep::HoldKeys {
            holds: holds.clone(),
            keys: keys.clone(),
            interval_ms: *interval_ms,
        },
        KeyStep::Settle { ms } => KeyStep::Settle { ms: *ms },
    }
}

/// Appends a copy of every step of `src` to `dst`, in order.
pub fn append_steps(dst: &mut KeyMacro, src: &KeyMacro)
    ensures
        final(dst)@ == old(dst)@ + src@,
{
    let n = src.len();
    let mut i: usize = 0;
    while i < n
        invariant
            n == src@.len(),
            i <= n,
            dst@ == old(dst)@ + src@.take(i as int),
        decreases n - i,
    {
        let ghost prev = dst@;
        dst.push(copy_step(&src[i]));
        proof {
            assert(dst@ =~= old(dst)@ + src@.take(i + 1));
        }
        i += 1;
    }
    proof {
        assert(old(dst)@ + src@.take(n as int) =~= old(dst)@ + src@);
    }
}

/// The plan of one write into a located control: click `target` to focus
/// it, then inject `keys` with `interval_ms` between keys.
#[derive(Debug, Clone, PartialEq, Eq)]
pub struct FieldEntry {
    pub target: ElementRef,
    pub keys: String,
    pub interval_ms: u64,
}

} // verus!
