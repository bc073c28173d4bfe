//! The state of the whole device, its heap, and the seed of its network stack.
use vstd::prelude::*;

verus! {

/// The state of the device, which the status LED shows.
#[derive(Clone, Copy, PartialEq, Eq, Structural, Debug)]
pub enum SystemState {
    /// Not connected yet.
    Starting,
    /// Connected to the wireless network.
    Running,
    /// The last attempt to connect failed.
    WifiError,
    /// The distance sensor could not be started.
    SensorError,
}

impl SystemState {
    /// The number under which tasks exchange the state.
    pub open spec fn spec_code(self) -> u8 {
        match self {
            SystemState::Starting => 0,
            SystemState::Running => 1,
            SystemState::WifiError => 2,
            SystemState::SensorError => 3,
        }
    }

    /// The state that a number stands for. A number that stands for none is read as `Starting`.
    pub open spec fn spec_from_code(code: u8) -> SystemState {
        if code == 1 {
            SystemState::Running
        } else if code == 2 {
            SystemState::WifiError
        } else if code == 3 {
            SystemState::SensorError
        } else {
            SystemState::Starting
        }
    }

    /// The number under which tasks exchange the state.
    pub fn code(self) -> (code: u8)
        ensures
            code == self.spec_code(),
    {
        match self {
            SystemState::Starting => 0,
            SystemState::Running => 1,
            SystemState::WifiError => 2,
            SystemState::SensorError => 3,
        }
    }

    /// The state that a number stands for.
    pub fn from_code(code: u8) -> (state: SystemState)
        ensures
            state == SystemState::spec_from_code(code),
    {
        match code {
            0 => SystemState::Starting,
            1 => SystemState::Running,
            2 => SystemState::WifiError,
            3 => SystemState::SensorError,
            _ => SystemState::Starting,
        }
    }
}

/// A state that one task stores is the state that another task loads.
pub proof fn law_state_survives_exchange(state: SystemState)
    ensures
        SystemState::spec_from_code(state.spec_code()) == state,
{
}

/// What is reported of the heap.
#[derive(Clone, Copy, PartialEq, Eq, Structural, Debug)]
pub struct HeapUsage {
    /// Bytes in use.
    pub used: usize,
    /// Bytes that are free.
    pub free: usize,
    /// Bytes in all, but at least one.
    pub total: usize,
    /// The share in use, in per cent, rounded down.
    pub percent: usize,
}

/// Bytes in all, but at least one, so that a share of them can be formed.
pub open spec fn heap_total(used: int, free: int) -> int {
    if used + free == 0 {
        1
    } else {
        used + free
    }
}

/// The share in use, in per cent, rounded down.
pub open spec fn heap_percent(used: int, free: int) -> int {
    (used * 100) / heap_total(used, free)
}

/// What to report of a heap with `used` bytes in use and `free` bytes left.
pub fn heap_usage(used: usize, free: usize) -> (usage: HeapUsage)
    requires
        used + free <= usize::MAX,
        used * 100 <= usize::MAX,
    ensures
        usage.used == used,
        usage.free == free,
        usage.total == heap_total(used as int, free as int),
        usage.percent == heap_percent(used as int, free as int),
{
    let mut total: usize = used + free;
    if total == 0 {
        total = 1;
    }
    HeapUsage { used, free, total, percent: used * 100 / total }
}

/// The share of the heap in use lies between nothing and all of it; it is all of it only if
/// nothing is free.
pub proof fn law_heap_share(used: int, free: int)
    requires
        0 <= used,
        0 <= free,
    ensures
        0 <= heap_percent(used, free) <= 100,
        heap_percent(used, free) == 100 <==> free == 0 && used > 0,
{
    let total = heap_total(used, free);
    let share = heap_percent(used, free);
    vstd::arithmetic::div_mod::lemma_fundamental_div_mod(used * 100, total);
    let rest = (used * 100) % total;
    assert(share >= 0 && share <= 100) by (nonlinear_arith)
        requires
            total * share + rest == used * 100,
            0 <= rest < total,
            0 <= used <= total,
    ;
    if share == 100 {
        assert(total * 100 <= used * 100);
    }
    if free == 0 && used > 0 {
        assert(share == 100) by (nonlinear_arith)
            requires
                total * share + rest == used * 100,
                0 <= rest < total,
                used == total,
        ;
    }
}

/// Two words joined to one; the first makes the upper half.
pub open spec fn joined_words(first: u32, second: u32) -> int {
    first * 0x1_0000_0000 + second
}

/// Joins two random words to the seed of the network stack; the first makes the upper half.
pub fn network_seed(first: u32, second: u32) -> (seed: u64)
    ensures
        seed == joined_words(first, second),
{
    let high: u64 = first as u64;
    let low: u64 = second as u64;
    assert((high << 32) | low == high * 0x1_0000_0000 + low) by (bit_vector)
        requires
            high <= 0xffff_ffff,
            low <= 0xffff_ffff,
    ;
    (high << 32) | low
}

/// Neither random word is lost: different words make different seeds.
pub proof fn law_seed_keeps_both_words(a: u32, b: u32, c: u32, d: u32)
    ensures
        joined_words(a, b) == joined_words(c, d) ==> a == c && b == d,
{
}

/// The states are exchanged under the numbers 0 to 3, in their order, and no other number stands
/// for a state of its own: it is read as that of a device that is starting.
pub proof fn law_states_have_fixed_numbers(
    state: SystemState,
    code: u8,
    stored: u8,
    read: SystemState,
)
    requires
        call_ensures(SystemState::code, (state,), stored),
        call_ensures(SystemState::from_code, (code,), read),
    ensures
        stored == 0 <==> state is Starting,
        stored == 1 <==> state is Running,
        stored == 2 <==> state is WifiError,
        stored == 3 <==> state is SensorError,
        stored <= 3,
        code == stored ==> read == state,
        code > 3 ==> read is Starting,
{
}

/// The report of the heap is exact: it repeats what is in use and what is free, gives their sum,
/// or one if both are zero, and the largest whole number of hundredths of it that are in use.
pub proof fn law_heap_report_is_exact(used: usize, free: usize, usage: HeapUsage)
    requires
        call_ensures(heap_usage, (used, free), usage),
        used + free <= usize::MAX,
        used * 100 <= usize::MAX,
    ensures
        usage.used == used,
        usage.free == free,
        used + free > 0 ==> usage.total == used + free,
        used + free == 0 ==> usage.total == 1,
        usage.percent * usage.total <= used * 100 < (usage.percent + 1) * usage.total,
{
    let total = usage.total as int;
    let percent = usage.percent as int;
    vstd::arithmetic::div_mod::lemma_fundamental_div_mod(used * 100, total);
    let rest = (used * 100) % total;
    assert(percent * total <= used * 100 < (percent + 1) * total) by (nonlinear_arith)
        requires
            used * 100 == total * percent + rest,
            0 <= rest < total,
    ;
}

/// The seed is made of the two random words: each can be taken out of it again.
pub proof fn law_words_of_seed(first: u32, second: u32, seed: u64)
    requires
        call_ensures(network_seed, (first, second), seed),
    ensures
        seed / 0x1_0000_0000 == first,
        seed % 0x1_0000_0000 == second,
{
}

} // verus!
