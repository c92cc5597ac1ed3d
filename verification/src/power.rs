//! The power button of a machine the daemon runs on as its first process:
//! the input events read from the device, and what a key press asks for.
use vstd::prelude::*;

verus! {

/// The size in bytes of one input event as the kernel writes it: seconds
/// and microseconds (8 bytes each), type and code (2 bytes each), value
/// (4 bytes), packed.
pub const INPUT_EVENT_SIZE: usize = 24;

/// The key code of the power key.
pub const KEY_POWER: u16 = 116;

/// The key code of the restart key.
pub const KEY_RESTART: u16 = 0x198;

/// An input event.
#[derive(Debug, Clone, Copy, PartialEq, Eq, Structural)]
pub struct InputEvent {
    pub tv_sec: u64,
    pub tv_usec: u64,
    pub evtype: u16,
    pub code: u16,
    pub value: u32,
}

/// `256` to the power `n`.
pub open spec fn pow256(n: nat) -> nat
    decreases n,
{
    if n == 0 { 1 } else { 256 * pow256((n - 1) as nat) }
}

/// The number that the bytes `s` write in little-endian order.
pub open spec fn le_value(s: Seq<u8>) -> nat
    decreases s.len(),
{
    if s.len() == 0 { 0 } else { s[0] as nat + 256 * le_value(s.drop_first()) }
}

proof fn lemma_le_value_bound(s: Seq<u8>)
    ensures
        le_value(s) < pow256(s.len()),
    decreases s.len(),
{
    if s.len() > 0 {
        lemma_le_value_bound(s.drop_first());
    }
}

proof fn lemma_pow256_monotone(a: nat, b: nat)
    requires
        a <= b,
    ensures
        pow256(a) <= pow256(b),
    decreases b,
{
    if a < b {
        lemma_pow256_monotone(a, (b - 1) as nat);
    }
}

/// The little-endian number in `bytes[start..start + len]`.
fn le_number(bytes: &[u8], start: usize, len: usize) -> (r: u64)
    requires
        len <= 8,
        start + len <= bytes@.len(),
    ensures
        r as nat == le_value(bytes@.subrange(start as int, start + len)),
{
    let n = bytes.len();
    assert(start + len <= n);
    let end = start + len;
    let mut v: u64 = 0;
    let mut i: usize = end;
    proof {
        reveal_with_fuel(pow256, 9);
        assert(pow256(8) == 0x1_0000_0000_0000_0000);
    }
    while i > start
        invariant
            start <= i <= end,
            end == start + len,
            len <= 8,
            end <= bytes@.len(),
            v as nat == le_value(bytes@.subrange(i as int, end as int)),
            pow256(8) == 0x1_0000_0000_0000_0000,
        decreases i - start,
    {
        let ghost tail = bytes@.subrange(i as int, end as int);
        proof {
            lemma_le_value_bound(tail);
            lemma_pow256_monotone(tail.len(), 7);
            assert(bytes@.subrange(i - 1, end as int).drop_first() =~= tail);
        }
        i = i - 1;
        v = v * 256 + bytes[i] as u64;
    }
    v
}

/// The event that 24 bytes hold, each field little-endian in the order of
/// the kernel's structure.
pub open spec fn spec_decode(s: Seq<u8>) -> InputEvent {
    InputEvent {
        tv_sec: le_value(s.subrange(0, 8)) as u64,
        tv_usec: le_value(s.subrange(8, 16)) as u64,
        evtype: le_value(s.subrange(16, 18)) as u16,
        code: le_value(s.subrange(18, 20)) as u16,
        value: le_value(s.subrange(20, 24)) as u32,
    }
}

/// Reads an event from the bytes the device gave: `None` unless exactly
/// one event's worth of bytes came.
pub fn decode_input_event(bytes: &[u8]) -> (r: Option<InputEvent>)
    ensures
        bytes@.len() != INPUT_EVENT_SIZE ==> r is None,
        bytes@.len() == INPUT_EVENT_SIZE ==> r == Some(spec_decode(bytes@)),
{
    if bytes.len() != INPUT_EVENT_SIZE {
        return None;
    }
    let tv_sec = le_number(bytes, 0, 8);
    let tv_usec = le_number(bytes, 8, 8);
    let evtype = le_number(bytes, 16, 2);
    let code = le_number(bytes, 18, 2);
    let value = le_number(bytes, 20, 4);
    proof {
        lemma_le_value_bound(bytes@.subrange(16, 18));
        lemma_le_value_bound(bytes@.subrange(18, 20));
        lemma_le_value_bound(bytes@.subrange(20, 24));
        reveal_with_fuel(pow256, 5);
    }
    Some(InputEvent { tv_sec, tv_usec, evtype: evtype as u16, code: code as u16, value: value as u32 })
}

/// What a key press asks of the machine.
#[derive(Debug, Clone, Copy, PartialEq, Eq, Structural)]
pub enum PowerAction {
    PowerOff,
    Reboot,
}

/// The power key powers the machine off, the restart key reboots it, any
/// other event asks nothing.
pub fn power_action(event: &InputEvent) -> (r: Option<PowerAction>)
    ensures
        event.code == KEY_POWER ==> r == Some(PowerAction::PowerOff),
        event.code == KEY_RESTART ==> r == Some(PowerAction::Reboot),
        event.code != KEY_POWER && event.code != KEY_RESTART ==> r is None,
{
    if event.code == KEY_POWER {
        Some(PowerAction::PowerOff)
    } else if event.code == KEY_RESTART {
        Some(PowerAction::Reboot)
    } else {
        None
    }
}

} // verus!
