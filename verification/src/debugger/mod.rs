//! GDB Remote Debugging Support
//!
//! The debugger's state (running, paused, single-stepping), its
//! breakpoints, and the GDB Remote Serial Protocol: packet framing and the
//! command handlers. The socket that carries the packets is the host's
//! business: it hands each received packet to `process_packet` and sends
//! what `take_outgoing` returns.

pub mod commands;
pub mod protocol;

use crate::cpu::state::Cpu;
use crate::debugger::commands::{command_ok, command_outcome, handle_command};
use crate::memory::MemoryBus;
use vstd::utf8::encode_utf8;
use crate::debugger::protocol::{checksum_of, format_packet, packet_text};
use vstd::prelude::*;
use vstd::string::*;

verus! {

/// Debugger execution state
#[derive(Debug, Clone, Copy, PartialEq, Eq, Structural)]
pub enum DebugState {
    /// Execute normally
    Running,
    /// Halted, waiting for GDB command
    Paused,
    /// Execute 1 instruction then pause
    SingleStep,
}

/// GDB Remote Debugger
pub struct GdbDebugger {
    /// Current execution state
    pub state: DebugState,
    /// Breakpoints (linear addresses: seg*16 + offset)
    pub breakpoints: Vec<u32>,
    /// Number of packets handled
    pub packets_processed: usize,
    /// Framed packets waiting to be sent to the GDB client
    pub outgoing: Vec<String>,
}

/// No breakpoint address occurs twice.
pub open spec fn no_duplicates(s: Seq<u32>) -> bool {
    forall|i: int, j: int| 0 <= i < j < s.len() ==> s[i] != s[j]
}

/// `after` is `before` with the packet for `reply` queued: a reply with
/// text is always sent, an empty one only for commands other than `s`
/// and `c`
pub open spec fn reply_queued(
    before: Seq<String>,
    after: Seq<String>,
    cmd: Seq<u8>,
    reply: Seq<char>,
) -> bool {
    let deferred = cmd.len() > 0 && (cmd[0] == 115 || cmd[0] == 99);
    if reply.len() == 0 && deferred {
        after == before
    } else {
        &&& after.len() == before.len() + 1
        &&& forall|i: int| 0 <= i < before.len() ==> after[i] == before[i]
        &&& after.last()@ == packet_text(reply, checksum_of(encode_utf8(reply)))
    }
}

/// The linear address of CS:IP
pub open spec fn linear_ip(cpu: Cpu) -> u32 {
    (cpu.segments@[1] * 16 + cpu.ip) as u32
}

impl GdbDebugger {
    /// Breakpoints are kept without duplicates.
    pub open spec fn wf(&self) -> bool {
        no_duplicates(self.breakpoints@)
    }

    /// Create a new debugger: paused (waiting for GDB), no breakpoints,
    /// nothing to send.
    pub fn new() -> (r: Self)
        ensures
            r.wf(),
            r.state == DebugState::Paused,
            r.breakpoints@.len() == 0,
            r.packets_processed == 0,
            r.outgoing@.len() == 0,
    {
        GdbDebugger {
            state: DebugState::Paused,
            breakpoints: Vec::new(),
            packets_processed: 0,
            outgoing: Vec::new(),
        }
    }

    /// Check if emulation is paused
    pub fn is_paused(&self) -> (r: bool)
        ensures
            r == (self.state == DebugState::Paused),
    {
        self.state == DebugState::Paused
    }

    /// Check if in single-step mode
    pub fn is_single_stepping(&self) -> (r: bool)
        ensures
            r == (self.state == DebugState::SingleStep),
    {
        self.state == DebugState::SingleStep
    }

    /// Pause execution
    pub fn pause(&mut self)
        ensures
            *final(self) == (GdbDebugger { state: DebugState::Paused, ..*old(self) }),
    {
        self.state = DebugState::Paused;
    }

    /// Resume execution
    pub fn resume(&mut self)
        ensures
            *final(self) == (GdbDebugger { state: DebugState::Running, ..*old(self) }),
    {
        self.state = DebugState::Running;
    }

    /// Execute one instruction then pause
    pub fn single_step(&mut self)
        ensures
            *final(self) == (GdbDebugger { state: DebugState::SingleStep, ..*old(self) }),
    {
        self.state = DebugState::SingleStep;
    }

    /// Whether `addr` is a breakpoint
    fn has_breakpoint(&self, addr: u32) -> (r: bool)
        ensures
            r == self.breakpoints@.contains(addr),
    {
        let mut i: usize = 0;
        while i < self.breakpoints.len()
            invariant
                0 <= i <= self.breakpoints@.len(),
                forall|j: int| 0 <= j < i ==> self.breakpoints@[j] != addr,
            decreases self.breakpoints@.len() - i,
        {
            if self.breakpoints[i] == addr {
                return true;
            }
            i = i + 1;
        }
        false
    }

    /// Add breakpoint at linear address (a second add of the same address
    /// changes nothing)
    pub fn add_breakpoint(&mut self, addr: u32)
        requires
            old(self).wf(),
        ensures
            final(self).wf(),
            final(self).breakpoints@ == (if old(self).breakpoints@.contains(addr) {
                old(self).breakpoints@
            } else {
                old(self).breakpoints@.push(addr)
            }),
            final(self).state == old(self).state,
            final(self).packets_processed == old(self).packets_processed,
            final(self).outgoing@ == old(self).outgoing@,
    {
        if !self.has_breakpoint(addr) {
            self.breakpoints.push(addr);
        }
    }

    /// Remove breakpoint at linear address
    pub fn remove_breakpoint(&mut self, addr: u32)
        requires
            old(self).wf(),
        ensures
            final(self).wf(),
            !final(self).breakpoints@.contains(addr),
            forall|a: u32|
                a != addr ==> (#[trigger] final(self).breakpoints@.contains(a)
                    <==> old(self).breakpoints@.contains(a)),
            old(self).breakpoints@.contains(addr) ==> exists|i: int|
                0 <= i < old(self).breakpoints@.len() && old(self).breakpoints@[i] == addr
                    && final(self).breakpoints@ == old(self).breakpoints@.remove(i),
            !old(self).breakpoints@.contains(addr) ==> final(self).breakpoints@
                == old(self).breakpoints@,
            final(self).state == old(self).state,
            final(self).packets_processed == old(self).packets_processed,
            final(self).outgoing@ == old(self).outgoing@,
    {
        let ghost before = self.breakpoints@;
        let mut i: usize = 0;
        while i < self.breakpoints.len()
            invariant
                0 <= i <= self.breakpoints@.len(),
                self.breakpoints@ == before,
                self.state == old(self).state,
                self.packets_processed == old(self).packets_processed,
                self.outgoing@ == old(self).outgoing@,
                before == old(self).breakpoints@,
                no_duplicates(before),
                forall|j: int| 0 <= j < i ==> before[j] != addr,
            decreases self.breakpoints@.len() - i,
        {
            if self.breakpoints[i] == addr {
                self.breakpoints.remove(i);
                proof {
                    let after = self.breakpoints@;
                    assert(after =~= before.remove(i as int));
                    assert forall|k: int| 0 <= k < after.len() implies #[trigger] after[k] == before[
                        if k < i { k } else { k + 1 }
                    ] by {}
                    assert forall|x: int, y: int| 0 <= x < y < after.len() implies after[x] != after[y] by {
                        let bx = if x < i { x } else { x + 1 };
                        let by_ = if y < i { y } else { y + 1 };
                        assert(after[x] == before[bx]);
                        assert(after[y] == before[by_]);
                    }
                    assert forall|a: u32| a != addr implies (#[trigger] after.contains(a)
                        <==> before.contains(a)) by {
                        if after.contains(a) {
                            let k = choose|k: int| 0 <= k < after.len() && after[k] == a;
                            assert(after[k] == before[if k < i { k } else { k + 1 }]);
                        }
                        if before.contains(a) {
                            let j = choose|j: int| 0 <= j < before.len() && before[j] == a;
                            assert(j != i);
                            let k = if j < i { j } else { j - 1 };
                            assert(after[k] == a);
                        }
                    }
                    if after.contains(addr) {
                        let k = choose|k: int| 0 <= k < after.len() && after[k] == addr;
                        let j = if k < i { k } else { k + 1 };
                        assert(after[k] == before[j]);
                        assert(before[i as int] == addr);
                    }
                }
                return;
            }
            i = i + 1;
        }
    }

    /// Check if current IP matches a breakpoint
    pub fn check_breakpoint(&self, cpu: &Cpu) -> (r: bool)
        ensures
            r == self.breakpoints@.contains(linear_ip(*cpu)),
    {
        let linear_addr: u32 = (cpu.segments[1] as u32) * 16 + (cpu.ip as u32);
        self.has_breakpoint(linear_addr)
    }

    /// Queue a packet carrying `data` for the GDB client
    fn send_packet(&mut self, data: &str)
        ensures
            final(self).outgoing@.len() == old(self).outgoing@.len() + 1,
            forall|i: int|
                0 <= i < old(self).outgoing@.len() ==> final(self).outgoing@[i] == old(self).outgoing@[i],
            final(self).outgoing@.last()@ == packet_text(data@, checksum_of(data.spec_bytes())),
            final(self).state == old(self).state,
            final(self).breakpoints@ == old(self).breakpoints@,
            final(self).packets_processed == old(self).packets_processed,
    {
        let packet = format_packet(data);
        self.outgoing.push(packet);
    }

    /// Send halt reason to GDB (SIGTRAP)
    pub fn send_halt_reason(&mut self)
        ensures
            final(self).outgoing@.len() == old(self).outgoing@.len() + 1,
            forall|i: int|
                0 <= i < old(self).outgoing@.len() ==> final(self).outgoing@[i] == old(self).outgoing@[i],
            final(self).outgoing@.last()@ == "$S05#b8"@,
            final(self).state == old(self).state,
            final(self).breakpoints@ == old(self).breakpoints@,
            final(self).packets_processed == old(self).packets_processed,
    {
        proof {
            reveal_strlit("S05");
            reveal_strlit("$S05#b8");
        }
        let data = "S05";
        assert(data.spec_bytes() =~= seq![83u8, 48u8, 53u8]) by {
            vstd::string::is_ascii_spec_bytes(data);
        }
        assert(checksum_of(seq![83u8, 48u8, 53u8]) == 0xb8) by {
            reveal_with_fuel(checksum_of, 4);
            assert(seq![83u8, 48u8, 53u8].drop_last() =~= seq![83u8, 48u8]);
            assert(seq![83u8, 48u8].drop_last() =~= seq![83u8]);
            assert(seq![83u8].drop_last() =~= Seq::<u8>::empty());
        }
        self.send_packet(data);
        assert(self.outgoing@.last()@ =~= "$S05#b8"@);
    }

    /// Called after single-step instruction completes: pause and report
    pub fn finish_single_step(&mut self)
        ensures
            old(self).state == DebugState::SingleStep ==> {
                &&& final(self).state == DebugState::Paused
                &&& final(self).outgoing@.len() == old(self).outgoing@.len() + 1
                &&& final(self).outgoing@.last()@ == "$S05#b8"@
            },
            old(self).state != DebugState::SingleStep ==> *final(self) == *old(self),
            forall|i: int|
                0 <= i < old(self).outgoing@.len() ==> final(self).outgoing@[i] == old(self).outgoing@[i],
            final(self).breakpoints@ == old(self).breakpoints@,
            final(self).packets_processed == old(self).packets_processed,
    {
        if self.state == DebugState::SingleStep {
            self.pause();
            self.send_halt_reason();
        }
    }

    /// Handle one packet received from the GDB client: run its command and
    /// queue the reply packet. An unsupported command gets an empty reply;
    /// `s` and `c` get none yet (the halt reason follows once execution
    /// stops).
    pub fn process_packet(&mut self, packet: &str, cpu: &mut Cpu, mem: &mut MemoryBus)
        requires
            old(self).wf(),
            old(mem).wf(),
            command_ok(packet.spec_bytes()),
            old(self).packets_processed < usize::MAX,
        ensures
            final(self).wf(),
            final(mem).wf(),
            exists|d: GdbDebugger, reply: Seq<char>|
                command_outcome(
                    packet.spec_bytes(),
                    *old(cpu),
                    *old(mem),
                    GdbDebugger {
                        packets_processed: (old(self).packets_processed + 1) as usize,
                        ..*old(self)
                    },
                    *final(cpu),
                    *final(mem),
                    d,
                    reply,
                ) && final(self).state == d.state && final(self).breakpoints@ == d.breakpoints@
                    && final(self).packets_processed == d.packets_processed
                    && #[trigger] reply_queued(
                    d.outgoing@,
                    final(self).outgoing@,
                    packet.spec_bytes(),
                    reply,
                ),
    {
        self.packets_processed = self.packets_processed + 1;
        let b = packet.as_bytes();
        let deferred = b.len() > 0 && (b[0] == 115 || b[0] == 99);
        let response = handle_command(packet, cpu, mem, self);
        let ghost d = *self;
        let text = response.as_str();
        if !text.is_empty() {
            self.send_packet(text);
        } else if !deferred {
            proof {
                reveal_strlit("");
            }
            self.send_packet("");
        }
        assert(reply_queued(d.outgoing@, self.outgoing@, packet.spec_bytes(), response@));
    }

    /// Hand over the packets waiting to be sent, oldest first
    pub fn take_outgoing(&mut self) -> (r: Vec<String>)
        ensures
            r@ == old(self).outgoing@,
            final(self).outgoing@.len() == 0,
            final(self).state == old(self).state,
            final(self).breakpoints@ == old(self).breakpoints@,
            final(self).packets_processed == old(self).packets_processed,
    {
        let mut empty: Vec<String> = Vec::new();
        std::mem::swap(&mut empty, &mut self.outgoing);
        empty
    }
}

/// Once a breakpoint is added, execution that reaches its address stops
/// there; once it is removed, it does not.
pub proof fn law_breakpoint_hit(before: Seq<u32>, added: Seq<u32>, removed: Seq<u32>, addr: u32, cpu: Cpu)
    requires
        linear_ip(cpu) == addr,
        added == (if before.contains(addr) {
            before
        } else {
            before.push(addr)
        }),
        !removed.contains(addr),
    ensures
        added.contains(linear_ip(cpu)),
        !removed.contains(linear_ip(cpu)),
{
    if !before.contains(addr) {
        assert(added[before.len() as int] == addr);
    }
}

} // verus!
