//! The debugger core: freeze/step/resume control, breakpoints, memory
//! watches and a bounded instruction history, all over plain state so a
//! host UI can drive it.

use vstd::prelude::*;

verus! {

/// Whether execution is running freely, frozen, or stepping a counted
/// number of instructions.
#[derive(Clone, Copy, PartialEq, Eq, Structural, Debug)]
pub enum DebuggerState {
    Running,
    Paused,
    Stepping,
}

/// A copy of the CPU-visible state for display.
#[derive(Clone, Copy, PartialEq, Eq, Structural, Debug)]
pub struct CpuSnapshot {
    pub a: u8,
    pub b: u8,
    pub c: u8,
    pub d: u8,
    pub e: u8,
    pub f: u8,
    pub h: u8,
    pub l: u8,
    pub pc: u16,
    pub sp: u16,
    pub zero_flag: bool,
    pub subtract_flag: bool,
    pub half_carry_flag: bool,
    pub carry_flag: bool,
    pub ime: bool,
    pub halted: bool,
}

/// One sampled memory byte, stamped with the step count at which it was
/// read.
#[derive(Clone, Copy, PartialEq, Eq, Structural, Debug)]
pub struct MemoryInspection {
    pub address: u16,
    pub value: u8,
    pub timestamp: u64,
}

/// One sample the watch pass appends: the watched address, the current
/// step count as its stamp, and a value the reader could have returned
/// for that address.
pub open spec fn spec_sampled_entry<F: Fn(u16) -> u8>(
    e: MemoryInspection,
    addr: u16,
    stamp: u64,
    f: F,
) -> bool {
    &&& e.address == addr
    &&& e.timestamp == stamp
    &&& call_ensures(f, (addr,), e.value)
}

/// The watch pass appended one sample per watched address, in order, on
/// top of the untouched earlier log.
pub open spec fn spec_watches_sampled<F: Fn(u16) -> u8>(
    pre_values: Seq<MemoryInspection>,
    watches: Seq<u16>,
    stamp: u64,
    post_values: Seq<MemoryInspection>,
    f: F,
) -> bool {
    &&& post_values.len() == pre_values.len() + watches.len()
    &&& post_values.subrange(0, pre_values.len() as int) == pre_values
    &&& (forall|i: int|
        pre_values.len() <= i < post_values.len() ==> spec_sampled_entry(
            #[trigger] post_values[i],
            watches[i - pre_values.len()],
            stamp,
            f,
        ))
}

/// The debugger state machine.
pub struct Debugger {
    pub state: DebuggerState,
    pub step_count: u64,
    pub instructions_to_run: Option<u64>,
    pub current_snapshot: Option<CpuSnapshot>,
    pub memory_watches: Vec<u16>,
    pub memory_values: Vec<MemoryInspection>,
    pub breakpoints: Vec<u16>,
    pub instruction_history: Vec<(u16, u8)>,
    pub history_size: usize,
}

impl Debugger {
    /// A paused debugger with nothing armed and a fifty-entry history.
    pub fn new() -> (r: Debugger)
        ensures
            r.state == DebuggerState::Paused,
            r.step_count == 0,
            r.instructions_to_run is None,
            r.memory_watches@.len() == 0,
            r.memory_values@.len() == 0,
            r.breakpoints@.len() == 0,
            r.instruction_history@.len() == 0,
            r.history_size == 50,
    {
        Debugger {
            state: DebuggerState::Paused,
            step_count: 0,
            instructions_to_run: None,
            current_snapshot: None,
            memory_watches: Vec::new(),
            memory_values: Vec::new(),
            breakpoints: Vec::new(),
            instruction_history: Vec::new(),
            history_size: 50,
        }
    }

    /// Arms a single step.
    pub fn step_one(&mut self)
        requires
            old(self).step_count < u64::MAX,
        ensures
            final(self).state == DebuggerState::Stepping,
            final(self).instructions_to_run == Some(1u64),
            final(self).step_count == old(self).step_count + 1,
    {
        self.state = DebuggerState::Stepping;
        self.instructions_to_run = Some(1);
        self.step_count = self.step_count + 1;
    }

    /// Arms a counted run of steps.
    pub fn step_multiple(&mut self, count: u64)
        ensures
            final(self).state == DebuggerState::Stepping,
            final(self).instructions_to_run == Some(count),
    {
        self.state = DebuggerState::Stepping;
        self.instructions_to_run = Some(count);
    }

    /// Lets execution run freely.
    pub fn resume(&mut self)
        ensures
            final(self).state == DebuggerState::Running,
            final(self).instructions_to_run is None,
    {
        self.state = DebuggerState::Running;
        self.instructions_to_run = None;
    }

    /// Freezes execution.
    pub fn pause(&mut self)
        ensures
            final(self).state == DebuggerState::Paused,
            final(self).instructions_to_run is None,
    {
        self.state = DebuggerState::Paused;
        self.instructions_to_run = None;
    }

    /// Whether the next instruction may run: always while running, never
    /// while paused, and while stepping exactly until the armed count is
    /// spent, at which point the debugger pauses itself.
    pub fn should_execute(&mut self) -> (r: bool)
        ensures
            old(self).state == DebuggerState::Running ==> r && *final(self) == *old(self),
            old(self).state == DebuggerState::Paused ==> !r && *final(self) == *old(self),
            old(self).state == DebuggerState::Stepping ==> r == (old(self).instructions_to_run
                is Some && old(self).instructions_to_run->0 > 0),
    {
        match self.state {
            DebuggerState::Running => true,
            DebuggerState::Paused => false,
            DebuggerState::Stepping => {
                if let Some(count) = self.instructions_to_run {
                    if count > 0 {
                        self.instructions_to_run = Some(count - 1);
                        true
                    } else {
                        self.state = DebuggerState::Paused;
                        self.instructions_to_run = None;
                        false
                    }
                } else {
                    self.state = DebuggerState::Paused;
                    false
                }
            },
        }
    }

    /// Arms a breakpoint; a duplicate address is kept once.
    pub fn add_breakpoint(&mut self, address: u16)
        ensures
            final(self).breakpoints@.contains(address),
            old(self).breakpoints@.contains(address) ==> final(self).breakpoints@ == old(self).breakpoints@,
            !old(self).breakpoints@.contains(address) ==> final(self).breakpoints@ == old(self).breakpoints@.push(address),
    {
        if !contains_u16(&self.breakpoints, address) {
            self.breakpoints.push(address);
            proof {
                assert(self.breakpoints@.last() == address);
            }
        }
    }

    /// Removes every breakpoint at an address; every other armed
    /// breakpoint stays armed.
    pub fn remove_breakpoint(&mut self, address: u16)
        ensures
            !final(self).breakpoints@.contains(address),
            forall|x: u16|
                x != address ==> (#[trigger] final(self).breakpoints@.contains(x) <==> old(self).breakpoints@.contains(x)),
            final(self).state == old(self).state,
            final(self).step_count == old(self).step_count,
            final(self).instructions_to_run == old(self).instructions_to_run,
            final(self).memory_watches == old(self).memory_watches,
            final(self).memory_values == old(self).memory_values,
            final(self).instruction_history == old(self).instruction_history,
            final(self).history_size == old(self).history_size,
    {
        let kept = retain_without(&self.breakpoints, address);
        self.breakpoints = kept;
    }

    /// Whether a breakpoint is armed at this program counter.
    pub fn check_breakpoint(&self, pc: u16) -> (r: bool)
        ensures
            r == self.breakpoints@.contains(pc),
    {
        contains_u16(&self.breakpoints, pc)
    }

    /// Arms a memory watch; a duplicate address is kept once.
    pub fn add_memory_watch(&mut self, address: u16)
        ensures
            final(self).memory_watches@.contains(address),
    {
        if !contains_u16(&self.memory_watches, address) {
            self.memory_watches.push(address);
            proof {
                assert(self.memory_watches@.last() == address);
            }
        }
    }

    /// Removes every watch at an address; every other watch stays armed.
    pub fn remove_memory_watch(&mut self, address: u16)
        ensures
            !final(self).memory_watches@.contains(address),
            forall|x: u16|
                x != address ==> (#[trigger] final(self).memory_watches@.contains(x) <==> old(self).memory_watches@.contains(x)),
            final(self).state == old(self).state,
            final(self).step_count == old(self).step_count,
            final(self).instructions_to_run == old(self).instructions_to_run,
            final(self).breakpoints == old(self).breakpoints,
            final(self).memory_values == old(self).memory_values,
            final(self).instruction_history == old(self).instruction_history,
            final(self).history_size == old(self).history_size,
    {
        let kept = retain_without(&self.memory_watches, address);
        self.memory_watches = kept;
    }

    /// Samples every watched address through the given reader, stamping
    /// each sample with the current step count, and trims the log to its
    /// most recent half once it passes a thousand entries.
    pub fn update_memory_watches<F: Fn(u16) -> u8>(&mut self, read_memory: F)
        requires
            forall|a: u16| #[trigger] read_memory.requires((a,)),
        ensures
            final(self).memory_watches == old(self).memory_watches,
            final(self).breakpoints == old(self).breakpoints,
            final(self).state == old(self).state,
            final(self).step_count == old(self).step_count,
            final(self).instruction_history == old(self).instruction_history,
            final(self).memory_values@.len() <= old(self).memory_values@.len() + old(self).memory_watches@.len(),
            old(self).memory_values@.len() + old(self).memory_watches@.len() <= 1000
                ==> spec_watches_sampled(
                old(self).memory_values@,
                old(self).memory_watches@,
                old(self).step_count,
                final(self).memory_values@,
                read_memory,
            ),
    {
        proof {
            assert(self.memory_values@.subrange(0, old(self).memory_values@.len() as int)
                =~= old(self).memory_values@);
        }
        let mut i: usize = 0;
        while i < self.memory_watches.len()
            invariant
                i <= self.memory_watches@.len(),
                forall|a: u16| #[trigger] read_memory.requires((a,)),
                self.memory_watches == old(self).memory_watches,
                self.breakpoints == old(self).breakpoints,
                self.state == old(self).state,
                self.step_count == old(self).step_count,
                self.instruction_history == old(self).instruction_history,
                spec_watches_sampled(
                    old(self).memory_values@,
                    old(self).memory_watches@.take(i as int),
                    old(self).step_count,
                    self.memory_values@,
                    read_memory,
                ),
            decreases self.memory_watches@.len() - i,
        {
            let address = self.memory_watches[i];
            let value = read_memory(address);
            self.memory_values.push(
                MemoryInspection { address, value, timestamp: self.step_count },
            );
            proof {
                let base2 = old(self).memory_values@.len() as int;
                assert(self.memory_values@.subrange(0, base2) =~= old(self).memory_values@);
                assert(old(self).memory_watches@.take(i + 1).len() == i + 1);
                assert(forall|j: int|
                    0 <= j < i + 1 ==> old(self).memory_watches@.take(i + 1)[j] == old(
                        self,
                    ).memory_watches@[j]);
                assert(self.memory_values@.last() == (MemoryInspection {
                    address,
                    value,
                    timestamp: old(self).step_count,
                }));
            }
            i = i + 1;
        }
        proof {
            assert(old(self).memory_watches@.take(old(self).memory_watches@.len() as int)
                =~= old(self).memory_watches@);
        }
        if self.memory_values.len() > 1000 {
            let half = self.memory_values.split_off(500);
            self.memory_values = half;
        }
    }

    /// Reads one byte through the given reader.
    pub fn get_memory_value<F: Fn(u16) -> u8>(&self, address: u16, read_memory: F) -> (r: u8)
        requires
            read_memory.requires((address,)),
    {
        read_memory(address)
    }

    /// Appends one executed (PC, opcode) pair, dropping the oldest entry
    /// once the history is full.
    pub fn record_instruction(&mut self, pc: u16, opcode: u8)
        ensures
            final(self).instruction_history@.len() <= old(self).instruction_history@.len() + 1,

            old(self).instruction_history@.len() < old(self).history_size
                ==> final(self).instruction_history@ == old(self).instruction_history@.push(
                (pc, opcode),
            ),
            old(self).instruction_history@.len() >= old(self).history_size
                ==> final(self).instruction_history@ == old(self).instruction_history@.push(
                (pc, opcode),
            ).remove(0),
            final(self).history_size == old(self).history_size,
            final(self).breakpoints == old(self).breakpoints,
            final(self).memory_watches == old(self).memory_watches,
            final(self).memory_values == old(self).memory_values,
            final(self).state == old(self).state,
    {
        self.instruction_history.push((pc, opcode));
        if self.instruction_history.len() > self.history_size {
            let _dropped = self.instruction_history.remove(0);
        }
    }

    /// The recorded history, oldest first.
    pub fn get_instruction_history(&self) -> (r: &Vec<(u16, u8)>)
        ensures
            r == self.instruction_history,
    {
        &self.instruction_history
    }
}

/// A copy of the vector with every occurrence of one address removed
/// and everything else kept.
fn retain_without(v: &Vec<u16>, address: u16) -> (kept: Vec<u16>)
    ensures
        !kept@.contains(address),
        forall|x: u16|
            x != address ==> (#[trigger] kept@.contains(x) <==> v@.contains(x)),
{
    let mut kept: Vec<u16> = Vec::new();
    let mut i: usize = 0;
    while i < v.len()
        invariant
            i <= v@.len(),
            forall|j: int| 0 <= j < kept@.len() ==> kept@[j] != address,
            forall|j: int| 0 <= j < kept@.len() ==> v@.contains(#[trigger] kept@[j]),
            forall|k: int| 0 <= k < i && v@[k] != address ==> kept@.contains(#[trigger] v@[k]),
        decreases v@.len() - i,
    {
        let ghost prev = kept@;
        let entry = v[i];
        if entry != address {
            kept.push(entry);
            proof {
                assert(kept@.last() == entry);
                assert(v@[i as int] == entry);
            }
        }
        proof {
            assert forall|k: int| 0 <= k < i + 1 && v@[k] != address implies kept@.contains(
                #[trigger] v@[k],
            ) by {
                if k < i as int {
                    let j = choose|j: int| 0 <= j < prev.len() && prev[j] == v@[k];
                    assert(kept@[j] == v@[k]);
                } else {
                    assert(kept@.last() == v@[k]);
                }
            }
        }
        i = i + 1;
    }
    proof {
        assert forall|x: u16| x != address implies (#[trigger] kept@.contains(x) <==> v@.contains(
            x,
        )) by {
            if kept@.contains(x) {
                let j = choose|j: int| 0 <= j < kept@.len() && kept@[j] == x;
                assert(v@.contains(kept@[j]));
            }
            if v@.contains(x) {
                let k = choose|k: int| 0 <= k < v@.len() && v@[k] == x;
                assert(kept@.contains(v@[k]));
            }
        }
    }
    kept
}

/// Whether a vector of addresses holds the given one.
fn contains_u16(v: &Vec<u16>, x: u16) -> (r: bool)
    ensures
        r == v@.contains(x),
{
    let mut i: usize = 0;
    while i < v.len()
        invariant
            i <= v@.len(),
            forall|j: int| 0 <= j < i ==> v@[j] != x,
        decreases v@.len() - i,
    {
        if v[i] == x {
            return true;
        }
        i = i + 1;
    }
    proof {
        assert(!v@.contains(x));
    }
    false
}

} // verus!
