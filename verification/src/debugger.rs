//! The state and the decisions of the debugger: breakpoints, stepping, the execution history
//! and the bytes received over the serial port.
use vstd::prelude::*;

use std::collections::{HashMap, VecDeque};
use vstd::string::StringSliceAdditionalSpecFns;

use crate::bus::serial::SerialState;
use crate::cartridge::Cartridge;
use crate::cpu::{CycleExecution, ExecutionType};
use crate::util::Width;
use crate::GameboyColor;

verus! {

broadcast use vstd::std_specs::hash::group_hash_axioms;

/// The value of an ASCII digit in the bases up to 36; 36 for any other byte.
pub open spec fn digit_spec(b: u8) -> int {
    if 0x30 <= b <= 0x39 {
        b - 0x30
    } else if 0x61 <= b <= 0x7A {
        b - 0x61 + 10
    } else if 0x41 <= b <= 0x5A {
        b - 0x41 + 10
    } else {
        36
    }
}

/// Whether every byte is a digit of base `radix`.
pub open spec fn all_digits(s: Seq<u8>, radix: int) -> bool {
    forall|i: int| 0 <= i < s.len() ==> #[trigger] digit_spec(s[i]) < radix
}

/// The number that the digits denote in base `radix`, most significant first.
pub open spec fn digits_value(s: Seq<u8>, radix: int) -> int
    decreases s.len(),
{
    if s.len() == 0 {
        0
    } else {
        digits_value(s.drop_last(), radix) * radix + digit_spec(s.last())
    }
}

/// What parsing `s` in base `radix` as an unsigned integer of at most `max` gives: an optional
/// `+`, then at least one digit, and a value that fits.
pub open spec fn parse_spec(s: Seq<u8>, radix: int, max: int) -> Option<int> {
    let d = if s.len() > 0 && s[0] == 0x2B {
        s.subrange(1, s.len() as int)
    } else {
        s
    };
    if d.len() == 0 || !all_digits(d, radix) || digits_value(d, radix) > max {
        None
    } else {
        Some(digits_value(d, radix))
    }
}

/// An address as the debugger reads it from text: hexadecimal after `0x`, decimal otherwise.
pub open spec fn read_address_spec(s: Seq<u8>) -> Option<int> {
    if s.len() >= 2 && s[0] == 0x30 && s[1] == 0x78 {
        parse_spec(s.subrange(2, s.len() as int), 16, 0xFFFF)
    } else {
        parse_spec(s, 10, 0xFFFF)
    }
}

proof fn lemma_digits_nonneg(s: Seq<u8>, radix: int)
    requires
        radix >= 2,
    ensures
        digits_value(s, radix) >= 0,
    decreases s.len(),
{
    if s.len() > 0 {
        lemma_digits_nonneg(s.drop_last(), radix);
        let x = digits_value(s.drop_last(), radix);
        assert(x * radix >= 0) by (nonlinear_arith)
            requires
                x >= 0,
                radix >= 2,
        ;
    }
}

/// A number of digits is no smaller than the number that its first digits make.
proof fn lemma_digits_prefix(s: Seq<u8>, radix: int, k: int)
    requires
        radix >= 2,
        0 <= k <= s.len(),
    ensures
        digits_value(s.subrange(0, k), radix) <= digits_value(s, radix),
    decreases s.len(),
{
    if k == s.len() {
        assert(s.subrange(0, k) =~= s);
    } else {
        let t = s.drop_last();
        lemma_digits_prefix(t, radix, k);
        assert(t.subrange(0, k) =~= s.subrange(0, k));
        lemma_digits_nonneg(t, radix);
        let x = digits_value(t, radix);
        assert(x * radix >= x) by (nonlinear_arith)
            requires
                x >= 0,
                radix >= 2,
        ;
    }
}

fn digit(b: u8) -> (r: u32)
    ensures
        r == digit_spec(b),
{
    if 0x30 <= b && b <= 0x39 {
        (b - 0x30) as u32
    } else if 0x61 <= b && b <= 0x7A {
        (b - 0x61 + 10) as u32
    } else if 0x41 <= b && b <= 0x5A {
        (b - 0x41 + 10) as u32
    } else {
        36
    }
}

/// Parses `s` in base `radix` as an unsigned integer of at most `max`, as `from_str_radix`
/// does for such a type.
pub fn parse_radix(s: &[u8], radix: u32, max: u64) -> (r: Option<u64>)
    requires
        2 <= radix <= 36,
    ensures
        match r {
            Some(v) => parse_spec(s@, radix as int, max as int) == Some(v as int),
            None => parse_spec(s@, radix as int, max as int) is None,
        },
{
    let start: usize = if s.len() > 0 && s[0] == 0x2B {
        1
    } else {
        0
    };
    let ghost d = if s@.len() > 0 && s@[0] == 0x2B {
        s@.subrange(1, s@.len() as int)
    } else {
        s@
    };
    assert(d =~= s@.subrange(start as int, s@.len() as int));
    if start >= s.len() {
        return None;
    }
    let mut value: u64 = 0;
    let mut i = start;
    while i < s.len()
        invariant
            start <= i <= s.len(),
            start < s.len(),
            2 <= radix <= 36,
            d == s@.subrange(start as int, s@.len() as int),
            d == if s@.len() > 0 && s@[0] == 0x2B {
                s@.subrange(1, s@.len() as int)
            } else {
                s@
            },
            value <= max,
            value == digits_value(s@.subrange(start as int, i as int), radix as int),
            all_digits(s@.subrange(start as int, i as int), radix as int),
        decreases s.len() - i,
    {
        let ghost prefix = s@.subrange(start as int, i as int);
        let ghost next = s@.subrange(start as int, i + 1);
        assert(next.drop_last() =~= prefix);
        let c = digit(s[i]);
        if c >= radix {
            assert(d[i - start] == s@[i as int]);
            assert(digit_spec(d[i - start]) >= radix);
            assert(!all_digits(d, radix as int));
            return None;
        }
        assert(value as u128 * radix as u128 <= 36 * 0xFFFF_FFFF_FFFF_FFFFu128) by (nonlinear_arith)
            requires
                value <= 0xFFFF_FFFF_FFFF_FFFFu64,
                radix <= 36,
        ;
        let step: u128 = value as u128 * radix as u128 + c as u128;
        if step > max as u128 {
            proof {
                if all_digits(d, radix as int) {
                    assert(d.subrange(0, i + 1 - start) =~= next);
                    lemma_digits_prefix(d, radix as int, i + 1 - start);
                }
            }
            return None;
        }
        value = step as u64;
        i = i + 1;
        assert(all_digits(next, radix as int));
    }
    assert(s@.subrange(start as int, i as int) =~= d);
    Some(value)
}

/// Reads an address typed into the debugger: hexadecimal after `0x`, decimal otherwise.
pub fn read_address(string: &str) -> (r: Option<Width>)
    ensures
        match r {
            Some(v) => read_address_spec(string.spec_bytes()) == Some(v as int),
            None => read_address_spec(string.spec_bytes()) is None,
        },
{
    let bytes = string.as_bytes();
    let r = if bytes.len() >= 2 && bytes[0] == 0x30 && bytes[1] == 0x78 {
        let digits = vstd::slice::slice_subrange(bytes, 2, bytes.len());
        parse_radix(digits, 16, 0xFFFF)
    } else {
        parse_radix(bytes, 10, 0xFFFF)
    };
    match r {
        Some(v) => Some(v as Width),
        None => None,
    }
}

/// Appends `bytes` to `buffer`.
fn append(buffer: &mut Vec<u8>, bytes: &Vec<u8>)
    ensures
        final(buffer)@ == old(buffer)@ + bytes@,
{
    let mut i: usize = 0;
    while i < bytes.len()
        invariant
            i <= bytes.len(),
            buffer@ == old(buffer)@ + bytes@.subrange(0, i as int),
        decreases bytes.len() - i,
    {
        buffer.push(bytes[i]);
        i = i + 1;
        assert(bytes@.subrange(0, i as int) =~= bytes@.subrange(0, i - 1).push(bytes@[i - 1]));
    }
    assert(bytes@.subrange(0, i as int) =~= bytes@);
}

/// The largest number of entries the history keeps.
pub const HISTORY_MAXIMUM: usize = 1000;

/// A run of CPU cycles of one kind.
#[derive(Debug, Clone, Copy, PartialEq, Eq, Structural)]
pub struct ExecutionHistory {
    pub kind: ExecutionType,
    pub count: usize,
}

/// The history after one more cycle of kind `kind`: a run of that kind grows by one, else a new
/// run starts and the oldest is dropped beyond the maximum.
pub open spec fn history_after(h: Seq<ExecutionHistory>, kind: ExecutionType) -> Seq<ExecutionHistory> {
    if h.len() > 0 && h.last().kind == kind {
        h.drop_last().push(
            ExecutionHistory {
                kind,
                count: if h.last().count < usize::MAX {
                    (h.last().count + 1) as usize
                } else {
                    usize::MAX
                },
            },
        )
    } else {
        let pushed = h.push(ExecutionHistory { kind, count: 1 });
        if pushed.len() > HISTORY_MAXIMUM {
            pushed.drop_first()
        } else {
            pushed
        }
    }
}

/// The recent CPU cycles, runs of the same kind folded into one entry, oldest first.
pub struct HistoryView {
    pub history: VecDeque<ExecutionHistory>,
}

impl HistoryView {
    pub fn new() -> (r: Self)
        ensures
            r.history@ == Seq::<ExecutionHistory>::empty(),
    {
        Self { history: VecDeque::new() }
    }

    /// Records a CPU cycle.
    pub fn on_cycle(&mut self, result: &CycleExecution)
        ensures
            final(self).history@ == history_after(old(self).history@, result.execution),
    {
        let n = self.history.len();
        if n > 0 && self.history[n - 1].kind == result.execution {
            match self.history.pop_back() {
                Some(prev) => {
                    let count = prev.count.saturating_add(1);
                    self.history.push_back(ExecutionHistory { kind: prev.kind, count });
                },
                None => {},
            }
        } else {
            self.history.push_back(ExecutionHistory { kind: result.execution, count: 1 });
            if self.history.len() > HISTORY_MAXIMUM {
                self.history.pop_front();
            }
        }
    }
}

/// The bytes received over the serial port while a receiver is connected.
pub struct SerialView {
    pub connection: Option<Vec<u8>>,
}

impl SerialView {
    pub fn new() -> (r: Self)
        ensures
            r.connection is None,
    {
        Self { connection: None }
    }

    pub fn is_connected(&self) -> (r: bool)
        ensures
            r == self.connection is Some,
    {
        self.connection.is_some()
    }

    /// Connects the receiver (where it is not yet) and empties its buffer; the bus is to
    /// capture the bytes sent from now on.
    pub fn create_serial_callback(&mut self)
        ensures
            final(self).connection matches Some(b) && b@ == Seq::<u8>::empty(),
    {
        self.connection = Some(Vec::new());
    }

    /// Whether `post` and `port_post` are what moving the bytes that `port` sent into the
    /// buffer makes of `pre` and `port`.
    pub open spec fn moved(pre: SerialView, post: SerialView, port: SerialState, port_post: SerialState) -> bool {
        &&& match pre.connection {
            Some(b) => {
                &&& post.connection matches Some(b2) && b2@ == b@ + port.sent()
                &&& port_post.sent() == Seq::<u8>::empty()
            },
            None => post.connection is None && port_post == port,
        }
        &&& port_post.output is Some == port.output is Some
        &&& port_post.sb == port.sb && port_post.sc == port.sc
        &&& port_post.active == port.active && port_post.cycles == port.cycles
    }

    /// Moves the bytes that the port sent into the buffer, where the receiver is connected.
    pub fn on_cycle(&mut self, serial: &mut SerialState)
        ensures
            SerialView::moved(*old(self), *final(self), *old(serial), *final(serial)),
            match old(self).connection {
                Some(b) => {
                    &&& final(self).connection matches Some(b2) && b2@ == b@ + old(serial).sent()
                    &&& final(serial).sent() == Seq::<u8>::empty()
                },
                None => final(self).connection is None && *final(serial) == *old(serial),
            },
            final(serial).output is Some == old(serial).output is Some,
            final(serial).sb == old(serial).sb && final(serial).sc == old(serial).sc,
            final(serial).active == old(serial).active && final(serial).cycles == old(serial).cycles,
    {
        match self.connection.as_mut() {
            Some(buffer) => {
                let bytes = serial.take_output();
                append(buffer, &bytes);
            },
            None => {},
        }
    }

    /// Empties the buffer; the receiver stays connected.
    pub fn reset(&mut self)
        ensures
            match old(self).connection {
                Some(_) => final(self).connection matches Some(b) && b@ == Seq::<u8>::empty(),
                None => final(self).connection is None,
            },
    {
        if self.connection.is_some() {
            self.connection = Some(Vec::new());
        }
    }
}

/// What the breakpoint check decides at `pc`: whether to execute, and the new `at` and `step`.
pub open spec fn breakpoint_decision(list: Map<u16, bool>, at: bool, step: bool, pc: u16) -> (bool, bool, bool) {
    if list.contains_key(pc) && list[pc] {
        if !at {
            (false, true, false)
        } else if step {
            (true, false, step)
        } else {
            (false, at, step)
        }
    } else {
        (true, at, step)
    }
}

/// The breakpoints: addresses, each enabled or not.
pub struct BreakpointView {
    /// The address being typed.
    pub string: String,
    pub list: HashMap<u16, bool>,
    /// Whether a click on a breakpoint deletes it rather than toggling it.
    pub delete_mode: bool,
    /// Whether execution stands at an enabled breakpoint.
    pub at: bool,
}

impl BreakpointView {
    pub fn new() -> (r: Self)
        ensures
            r.string@ == Seq::<char>::empty(),
            r.list@ == Map::<u16, bool>::empty(),
            !r.delete_mode && !r.at,
    {
        Self { string: String::new(), list: HashMap::new(), delete_mode: false, at: false }
    }

    /// Adds the typed address as an enabled breakpoint and clears the text; text that is no
    /// address is left as it is.
    pub fn add(&mut self)
        ensures
            match read_address_spec(vstd::utf8::encode_utf8(old(self).string@)) {
                Some(a) => final(self).list@ == old(self).list@.insert(a as u16, true)
                    && final(self).string@ == Seq::<char>::empty(),
                None => final(self).list@ == old(self).list@ && final(self).string@ == old(
                    self,
                ).string@,
            },
            final(self).delete_mode == old(self).delete_mode,
            final(self).at == old(self).at,
    {
        match read_address(self.string.as_str()) {
            Some(address) => {
                self.list.insert(address, true);
                self.string = String::new();
            },
            None => {},
        }
    }

    /// A click on the breakpoint at `address`: deletes it in delete mode, else toggles it.
    pub fn click(&mut self, address: u16)
        ensures
            final(self).list@ == if old(self).delete_mode {
                old(self).list@.remove(address)
            } else if old(self).list@.contains_key(address) {
                old(self).list@.insert(address, !old(self).list@[address])
            } else {
                old(self).list@
            },
            final(self).delete_mode == old(self).delete_mode,
            final(self).at == old(self).at,
            final(self).string == old(self).string,
    {
        if self.delete_mode {
            self.list.remove(&address);
        } else {
            let enabled = match self.list.get(&address) {
                Some(e) => Some(*e),
                None => None,
            };
            match enabled {
                Some(e) => {
                    self.list.insert(address, !e);
                },
                None => {},
            }
        }
    }

    /// Switches between deleting and toggling on a click.
    pub fn toggle_delete_mode(&mut self)
        ensures
            final(self).delete_mode == !old(self).delete_mode,
            final(self).list@ == old(self).list@,
            final(self).at == old(self).at,
            final(self).string == old(self).string,
    {
        self.delete_mode = !self.delete_mode;
    }

    /// Whether a running machine may execute the next instruction: it stops once at an
    /// enabled breakpoint and goes on past it at the next step.
    pub fn should_step(&mut self, step: &mut bool, gb: &GameboyColor) -> (r: bool)
        ensures
            (r, final(self).at, *final(step)) == breakpoint_decision(
                old(self).list@,
                old(self).at,
                *old(step),
                gb.cpu.registers.pc,
            ),
            final(self).list == old(self).list,
            final(self).delete_mode == old(self).delete_mode,
            final(self).string == old(self).string,
    {
        let pc = gb.cpu.registers.pc;
        let enabled = match self.list.get(&pc) {
            Some(e) => *e,
            None => false,
        };
        if enabled {
            if !self.at {
                *step = false;
                self.at = true;
                false
            } else if *step {
                self.at = false;
                true
            } else {
                false
            }
        } else {
            true
        }
    }

    /// Forgets the breakpoints of the previous cartridge.
    pub fn new_cartridge<C: Cartridge>(&mut self, _cartridge: &C)
        ensures
            final(self).list@ == Map::<u16, bool>::empty(),
            !final(self).delete_mode,
            final(self).at == old(self).at,
            final(self).string == old(self).string,
    {
        self.list.clear();
        self.delete_mode = false;
    }

    pub fn reset(&mut self)
        ensures
            !final(self).at,
            final(self).list@ == old(self).list@,
            final(self).delete_mode == old(self).delete_mode,
            final(self).string == old(self).string,
    {
        self.at = false;
    }
}

/// The memory listing: where it starts and how many entries it shows.
pub struct MemoryView {
    pub addr_text: String,
    pub size_text: String,
    /// The first address shown; PC where there is none.
    pub address: Option<Width>,
    pub size: usize,
}

impl MemoryView {
    pub fn new() -> (r: Self)
        ensures
            r.addr_text@ == Seq::<char>::empty() && r.size_text@ == Seq::<char>::empty(),
            r.address is None,
            r.size == 16,
    {
        Self { addr_text: String::new(), size_text: String::new(), address: None, size: 16 }
    }

    /// Takes the typed address as the start of the listing (none where it is not an address).
    pub fn set_address(&mut self)
        ensures
            match read_address_spec(vstd::utf8::encode_utf8(old(self).addr_text@)) {
                Some(a) => final(self).address == Some(a as u16),
                None => final(self).address is None,
            },
            final(self).size == old(self).size,
    {
        self.address = read_address(self.addr_text.as_str());
    }

    /// Takes the typed decimal number as the size of the listing, where it is one.
    pub fn set_size(&mut self)
        ensures
            match parse_spec(vstd::utf8::encode_utf8(old(self).size_text@), 10, usize::MAX as int) {
                Some(n) => final(self).size == n,
                None => final(self).size == old(self).size,
            },
            final(self).address == old(self).address,
    {
        match parse_radix(self.size_text.as_str().as_bytes(), 10, usize::MAX as u64) {
            Some(n) => {
                self.size = n as usize;
            },
            None => {},
        }
    }

    /// The first address shown.
    pub fn start(&self, pc: Width) -> (r: Width)
        ensures
            r == match self.address {
                Some(a) => a,
                None => pc,
            },
    {
        match self.address {
            Some(a) => a,
            None => pc,
        }
    }
}

/// The debugger: a memory listing, breakpoints, the history and the serial receiver, and
/// whether the machine steps or runs.
pub struct Debugger {
    pub memory: MemoryView,
    pub breakpoint: BreakpointView,
    pub history: HistoryView,
    pub serial: SerialView,
    pub step: bool,
    pub run: bool,
}

impl Debugger {
    /// Whether `post` and `go` are what the step decision makes of `pre` with PC at `pc`.
    #[verifier::opaque]
    pub open spec fn decided(pre: Debugger, post: Debugger, pc: u16, go: bool) -> bool {
        &&& post.memory == pre.memory
        &&& post.history == pre.history
        &&& post.serial == pre.serial
        &&& post.run == pre.run
        &&& post.breakpoint.list == pre.breakpoint.list
        &&& post.breakpoint.string == pre.breakpoint.string
        &&& post.breakpoint.delete_mode == pre.breakpoint.delete_mode
        &&& if pre.run {
            let (g, at, step) = breakpoint_decision(pre.breakpoint.list@, pre.breakpoint.at, pre.step, pc);
            go == g && post.breakpoint.at == at && post.step == step
        } else {
            go == pre.step && !post.step && post.breakpoint.at == pre.breakpoint.at
        }
    }

    /// Whether `post` and the serial port `port_post` are what recording the CPU cycle `exec`
    /// makes of `pre` and `port`.
    #[verifier::opaque]
    pub open spec fn recorded(
        pre: Debugger,
        post: Debugger,
        port: SerialState,
        port_post: SerialState,
        exec: CycleExecution,
    ) -> bool {
        &&& post.memory == pre.memory
        &&& post.breakpoint == pre.breakpoint
        &&& post.step == pre.step
        &&& post.run == pre.run
        &&& if exec.execution is Halt || exec.execution is Stop {
            post.history == pre.history && post.serial == pre.serial && port_post == port
        } else {
            &&& post.history.history@ == history_after(pre.history.history@, exec.execution)
            &&& match pre.serial.connection {
                Some(b) => {
                    &&& post.serial.connection matches Some(b2) && b2@ == b@ + port.sent()
                    &&& port_post.sent() == Seq::<u8>::empty()
                    &&& port_post.output is Some == port.output is Some
                    &&& port_post.sb == port.sb && port_post.sc == port.sc
                    &&& port_post.active == port.active && port_post.cycles == port.cycles
                },
                None => post.serial == pre.serial && port_post == port,
            }
        }
    }

    pub fn new() -> (r: Self)
        ensures
            !r.step && !r.run,
            r.serial.connection is None,
            r.history.history@ == Seq::<ExecutionHistory>::empty(),
            r.breakpoint.list@ == Map::<u16, bool>::empty(),
            r.breakpoint.string@ == Seq::<char>::empty(),
            !r.breakpoint.delete_mode && !r.breakpoint.at,
            r.memory.addr_text@ == Seq::<char>::empty() && r.memory.size_text@ == Seq::<char>::empty(),
            r.memory.address is None,
            r.memory.size == 16,
    {
        Self {
            memory: MemoryView::new(),
            breakpoint: BreakpointView::new(),
            history: HistoryView::new(),
            serial: SerialView::new(),
            step: false,
            run: false,
        }
    }

    /// Connects the serial receiver (see `SerialView::create_serial_callback`).
    pub fn create_serial_callback(&mut self)
        ensures
            final(self).serial.connection matches Some(b) && b@ == Seq::<u8>::empty(),
            final(self).step == old(self).step && final(self).run == old(self).run,
            *final(self) == (Debugger { serial: final(self).serial, ..*old(self) }),
    {
        self.serial.create_serial_callback();
    }

    /// Records a CPU cycle and collects the serial bytes; cycles spent waiting in HALT or STOP
    /// are not recorded.
    pub fn on_cycle(&mut self, result: &CycleExecution, serial: &mut SerialState)
        ensures
            Debugger::recorded(*old(self), *final(self), *old(serial), *final(serial), *result),
    {
        reveal(Debugger::recorded);
        match result.execution {
            ExecutionType::Stop | ExecutionType::Halt => {
                return;
            },
            _ => {},
        }
        self.history.on_cycle(result);
        self.serial.on_cycle(serial);
    }

    /// Whether the machine is to execute its next cycle: while running, unless at a
    /// breakpoint; else once per step request.
    pub fn should_step(&mut self, gb: &GameboyColor) -> (r: bool)
        ensures
            Debugger::decided(*old(self), *final(self), gb.cpu.registers.pc, r),
    {
        reveal(Debugger::decided);
        if self.run {
            self.breakpoint.should_step(&mut self.step, gb)
        } else if self.step {
            self.step = false;
            true
        } else {
            false
        }
    }

    /// The Step button: stop running and execute one cycle.
    pub fn press_step(&mut self)
        ensures
            !final(self).run && final(self).step,
    {
        self.run = false;
        self.step = true;
    }

    /// The Run button: start or stop running.
    pub fn press_run(&mut self)
        ensures
            final(self).run == !old(self).run,
            final(self).step == final(self).run,
    {
        self.run = !self.run;
        self.step = self.run;
    }

    /// Starts afresh for a new cartridge: no breakpoints, stopped.
    pub fn new_cartridge<C: Cartridge>(&mut self, cartridge: &C)
        ensures
            final(self).breakpoint.list@ == Map::<u16, bool>::empty(),
            !final(self).run && !final(self).step,
    {
        self.breakpoint.new_cartridge(cartridge);
        self.reset();
    }

    /// Stops the machine and empties the serial buffer.
    pub fn reset(&mut self)
        ensures
            !final(self).run && !final(self).step,
            match old(self).serial.connection {
                Some(_) => final(self).serial.connection matches Some(b) && b@ == Seq::<u8>::empty(),
                None => final(self).serial.connection is None,
            },
            final(self).breakpoint.list@ == old(self).breakpoint.list@,
            final(self).breakpoint.at == old(self).breakpoint.at,
    {
        self.run = false;
        self.step = false;
        self.serial.reset();
    }
}

} // verus!
