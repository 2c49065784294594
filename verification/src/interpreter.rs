//! The machine: its state, and the execution engine that steps it.

use crate::font::{FONT, FONT_BYTES, FONT_START, GLYPH_BYTES};
use crate::instruction::{decode, decoded, try_decode, Instruction};
use crate::keypad::{first_pressed, Keys};
use crate::laws::{lemma_executed_wf, lemma_skip_wf, lemma_ticked_wf, lemma_ticker_untouched};
use crate::model::{blank, Machine};
use crate::pixel::Pixel;
use crate::screen::{blend_sprite, grid, Display};
use vstd::prelude::*;

verus! {

/// Number of bytes of memory.
pub const MEMORY_SIZE: usize = 4096;

/// Address at which a program is loaded and started.
pub const PROGRAM_START: u16 = 0x200;

/// The largest program that fits between the start address and the end of
/// memory.
pub const MAX_PROGRAM_BYTES: usize = 3584;

/// Returned by [`VM::load`] for a program that does not fit into memory.
#[derive(Clone, Copy, PartialEq, Eq, Structural, Debug)]
pub struct RomTooLarge {
    /// Length of the program that was refused.
    pub len: usize,
}

/// A CHIP-8 machine.
#[derive(Clone, Debug, PartialEq, Eq)]
pub struct VM {
    memory: [u8; 4096],
    pc: u16,
    index: u16,
    stack: Vec<u16>,
    registers: [u8; 16],
    delay_timer: u8,
    sound_timer: u8,
    speed: u32,
    ticker: u32,
    max_ticks: u32,
    display: [[Pixel; 64]; 32],
}

impl View for VM {
    type V = Machine;

    closed spec fn view(&self) -> Machine {
        Machine {
            memory: self.memory@,
            pc: self.pc,
            index: self.index,
            stack: self.stack@,
            registers: self.registers@,
            delay_timer: self.delay_timer,
            sound_timer: self.sound_timer,
            speed: self.speed,
            ticker: self.ticker,
            max_ticks: self.max_ticks,
            display: grid(self.display),
        }
    }
}

impl VM {
    /// A machine that runs `speed` instructions per second: the glyph table
    /// in memory, everything else zero.
    pub fn new(speed: u32) -> (vm: VM)
        requires
            speed > 0,
        ensures
            vm@ == Machine::initial(speed),
            vm@.wf(),
    {
        let mut memory: [u8; 4096] = [0u8; 4096];
        let start: usize = FONT_START as usize;
        let mut i: usize = 0;
        while i < FONT_BYTES
            invariant
                i <= FONT_BYTES,
                start == 0x50,
                forall|a: int| 0 <= a < 4096 && !(0x50 <= a < 0x50 + i) ==> memory[a] == 0,
                forall|a: int| 0x50 <= a < 0x50 + i ==> memory[a] == FONT[a - 0x50],
            decreases FONT_BYTES - i,
        {
            memory[start + i] = FONT[i];
            i += 1;
        }
        let max_ticks: u32 = ((speed as u64 + 30) / 60) as u32;
        let vm = VM {
            memory,
            pc: 0,
            index: 0,
            stack: Vec::new(),
            registers: [0u8; 16],
            delay_timer: 0,
            sound_timer: 0,
            speed,
            ticker: 0,
            max_ticks,
            display: [[Pixel::Black; 64]; 32],
        };
        assert(vm@.memory =~= Machine::initial(speed).memory);
        assert(vm@.registers =~= Machine::initial(speed).registers);
        assert(vm@.stack =~= Machine::initial(speed).stack);
        assert(vm@.display =~~= blank());
        vm
    }

    /// Copies `program` to address 0x200 and sets the program counter there.
    /// A program of more than 3584 bytes does not fit and is refused.
    pub fn load(self, program: &[u8]) -> (r: Result<VM, RomTooLarge>)
        requires
            self@.wf(),
        ensures
            program@.len() <= 3584 ==> r is Ok && r->Ok_0@ == self@.loaded(program@)
                && r->Ok_0@.wf(),
            program@.len() > 3584 ==> r == Err::<VM, RomTooLarge>(
                RomTooLarge { len: program@.len() as usize },
            ),
    {
        let n: usize = program.len();
        if n > MAX_PROGRAM_BYTES {
            return Err(RomTooLarge { len: n });
        }
        let mut vm = self;
        let start: usize = PROGRAM_START as usize;
        let mut i: usize = 0;
        while i < n
            invariant
                i <= n,
                n == program@.len(),
                n <= 3584,
                start == 0x200,
                vm.pc == self.pc,
                vm.index == self.index,
                vm.stack == self.stack,
                vm.registers == self.registers,
                vm.delay_timer == self.delay_timer,
                vm.sound_timer == self.sound_timer,
                vm.speed == self.speed,
                vm.ticker == self.ticker,
                vm.max_ticks == self.max_ticks,
                vm.display == self.display,
                forall|a: int| 0 <= a < 4096 && !(0x200 <= a < 0x200 + i) ==> vm.memory[a] == self.memory[a],
                forall|a: int| 0x200 <= a < 0x200 + i ==> vm.memory[a] == program@[a - 0x200],
            decreases n - i,
        {
            vm.memory[start + i] = program[i];
            i += 1;
        }
        vm.pc = PROGRAM_START;
        assert(vm@.memory =~= self@.loaded(program@).memory);
        Ok(vm)
    }

    /// The address of the next opcode.
    pub fn pc(&self) -> (r: u16)
        ensures
            r == self@.pc,
    {
        self.pc
    }

    /// The index register.
    pub fn index(&self) -> (r: u16)
        ensures
            r == self@.index,
    {
        self.index
    }

    /// The value of register `r`.
    pub fn register(&self, r: usize) -> (v: u8)
        requires
            r < 16,
        ensures
            v == self@.registers[r as int],
    {
        self.registers[r]
    }

    /// The byte at `address`.
    pub fn memory_at(&self, address: usize) -> (v: u8)
        requires
            address < 4096,
        ensures
            v == self@.memory[address as int],
    {
        self.memory[address]
    }

    /// The number of return addresses on the stack.
    pub fn stack_depth(&self) -> (n: usize)
        ensures
            n == self@.stack.len(),
    {
        self.stack.len()
    }

    /// The delay timer.
    pub fn delay_timer(&self) -> (t: u8)
        ensures
            t == self@.delay_timer,
    {
        self.delay_timer
    }

    /// The sound timer.
    pub fn sound_timer(&self) -> (t: u8)
        ensures
            t == self@.sound_timer,
    {
        self.sound_timer
    }

    /// The display as it stands.
    pub fn display(&self) -> (d: Display)
        ensures
            grid(d) == self@.display,
    {
        self.display
    }

    /// The clock speed in instructions per second; one instruction is meant
    /// to take the `speed`-th part of a second.
    pub fn speed(&self) -> (hz: u32)
        ensures
            hz == self@.speed,
    {
        self.speed
    }

    /// Whether the buzzer sounds: the sound timer is not zero.
    pub fn buzzer_active(&self) -> (b: bool)
        ensures
            b == self@.buzzer_active(),
    {
        self.sound_timer != 0
    }

    /// The big-endian opcode at the program counter.
    fn peek(&self) -> (opcode: u16)
        requires
            self@.wf(),
        ensures
            opcode == self@.opcode(),
    {
        let pc: u16 = self.pc;
        assert(((pc + 1) as u16 & 0xfff) == (pc + 1) % 4096) by (bit_vector)
            requires
                pc <= 0xFFF,
        ;
        let hi: u16 = self.memory[pc as usize] as u16;
        let lo: u16 = self.memory[((pc + 1) & 0xfff) as usize] as u16;
        assert(((hi << 8) | lo) == hi * 256 + lo) by (bit_vector)
            requires
                hi < 256,
                lo < 256,
        ;
        (hi << 8) | lo
    }

    /// Moves the program counter past one instruction, wrapping at the end
    /// of the address space.
    pub fn inc_pc(&mut self)
        requires
            old(self)@.wf(),
        ensures
            final(self)@ == old(self)@.skip_if(true),
            final(self)@.wf(),
    {
        let pc: u16 = self.pc;
        assert(((pc + 2) as u16 & 0xfff) == (pc + 2) % 4096) by (bit_vector)
            requires
                pc <= 0xFFF,
        ;
        self.pc = (pc + 2) & 0xfff;
        proof {
            lemma_skip_wf(old(self)@, true);
        }
        assert(self@ =~~= old(self)@.skip_if(true));
    }

    /// Reads the big-endian opcode at the program counter and moves the
    /// program counter past it. Both wrap at the end of the address space:
    /// the opcode at 0xFFF has its second byte at 0x000.
    pub fn fetch(&mut self) -> (opcode: u16)
        requires
            old(self)@.wf(),
        ensures
            opcode == old(self)@.opcode(),
            final(self)@ == old(self)@.fetched(),
            final(self)@.wf(),
    {
        let opcode: u16 = self.peek();
        self.inc_pc();
        opcode
    }
}

impl VM {
    /// Sets register `x` to `value`.
    fn set_register(&mut self, x: u8, value: u8)
        requires
            x < 16,
        ensures
            final(self)@ == old(self)@.set_reg(x as int, value),
    {
        self.registers[x as usize] = value;
        assert(self@ =~~= old(self)@.set_reg(x as int, value));
    }

    /// Moves the program counter past one more instruction where `cond`
    /// holds.
    fn skip_if(&mut self, cond: bool)
        requires
            old(self)@.wf(),
        ensures
            final(self)@ == old(self)@.skip_if(cond),
    {
        if cond {
            self.inc_pc();
        }
    }

    /// Writes the three decimal digits of `Vx` to memory at the index
    /// register.
    fn store_bcd(&mut self, x: u8)
        requires
            x < 16,
            old(self)@.index + 3 <= 4096,
        ensures
            final(self)@ == old(self)@.executed(Instruction::Bcd(x), Seq::empty(), 0),
    {
        let val: u8 = self.registers[x as usize];
        let at: usize = self.index as usize;
        self.memory[at] = val / 100;
        self.memory[at + 1] = val % 100 / 10;
        self.memory[at + 2] = val % 10;
        assert(self@ =~~= old(self)@.executed(Instruction::Bcd(x), Seq::empty(), 0));
    }

    /// Writes `V0..=Vx` to memory at the index register.
    fn store_registers(&mut self, x: u8)
        requires
            x < 16,
            old(self)@.index + x < 4096,
        ensures
            final(self)@ == old(self)@.executed(Instruction::Store(x), Seq::empty(), 0),
    {
        let at: usize = self.index as usize;
        let last: usize = x as usize;
        let mut reg: usize = 0;
        while reg <= last
            invariant
                reg <= last + 1,
                last == x,
                x < 16,
                at == old(self)@.index,
                at + last < 4096,
                self.pc == old(self).pc,
                self.index == old(self).index,
                self.stack == old(self).stack,
                self.registers == old(self).registers,
                self.delay_timer == old(self).delay_timer,
                self.sound_timer == old(self).sound_timer,
                self.speed == old(self).speed,
                self.ticker == old(self).ticker,
                self.max_ticks == old(self).max_ticks,
                self.display == old(self).display,
                forall|a: int|
                    0 <= a < 4096 ==> #[trigger] self.memory[a] == if at <= a < at + reg {
                        old(self).registers[a - at]
                    } else {
                        old(self).memory[a]
                    },
            decreases last + 1 - reg,
        {
            self.memory[at + reg] = self.registers[reg];
            reg += 1;
        }
        assert(self@.memory =~= old(self)@.executed(Instruction::Store(x), Seq::empty(), 0).memory);
        assert(self@ =~~= old(self)@.executed(Instruction::Store(x), Seq::empty(), 0));
    }

    /// Reads `V0..=Vx` from memory at the index register.
    fn load_registers(&mut self, x: u8)
        requires
            x < 16,
            old(self)@.index + x < 4096,
        ensures
            final(self)@ == old(self)@.executed(Instruction::Load(x), Seq::empty(), 0),
    {
        let at: usize = self.index as usize;
        let last: usize = x as usize;
        let mut reg: usize = 0;
        while reg <= last
            invariant
                reg <= last + 1,
                last == x,
                x < 16,
                at == old(self)@.index,
                at + last < 4096,
                self.pc == old(self).pc,
                self.index == old(self).index,
                self.stack == old(self).stack,
                self.memory == old(self).memory,
                self.delay_timer == old(self).delay_timer,
                self.sound_timer == old(self).sound_timer,
                self.speed == old(self).speed,
                self.ticker == old(self).ticker,
                self.max_ticks == old(self).max_ticks,
                self.display == old(self).display,
                forall|r: int|
                    0 <= r < 16 ==> #[trigger] self.registers[r] == if r < reg {
                        old(self).memory[at + r]
                    } else {
                        old(self).registers[r]
                    },
            decreases last + 1 - reg,
        {
            self.registers[reg] = self.memory[at + reg];
            reg += 1;
        }
        assert(self@.registers =~= old(self)@.executed(
            Instruction::Load(x),
            Seq::empty(),
            0,
        ).registers);
        assert(self@ =~~= old(self)@.executed(Instruction::Load(x), Seq::empty(), 0));
    }

    /// Draws the `n`-byte sprite at the index register at `(Vx mod 64, Vy mod
    /// 32)` and sets `VF` to whether it hit a lit pixel.
    fn draw(&mut self, x: u8, y: u8, n: u8)
        requires
            x < 16,
            y < 16,
            old(self)@.index + n <= 4096,
        ensures
            final(self)@ == old(self)@.executed(Instruction::Draw(x, y, n), Seq::empty(), 0),
    {
        let x0: usize = (self.registers[x as usize] % 64) as usize;
        let y0: usize = (self.registers[y as usize] % 32) as usize;
        self.registers[0xf] = 0;
        let hit = blend_sprite(
            &mut self.display,
            &self.memory,
            self.index as usize,
            n as usize,
            x0,
            y0,
        );
        if hit {
            self.registers[0xf] = 1;
        }
        assert(self@.registers =~= old(self)@.executed(
            Instruction::Draw(x, y, n),
            Seq::empty(),
            0,
        ).registers);
        assert(self@ =~~= old(self)@.executed(Instruction::Draw(x, y, n), Seq::empty(), 0));
    }

    /// Waits for a key: with no key down the program counter goes back by
    /// one instruction, wrapping at the start of the address space, so that
    /// this instruction is met again; otherwise `Vx` receives the lowest key
    /// that is down.
    fn wait_key(&mut self, x: u8, keys: &Keys)
        requires
            x < 16,
            old(self)@.wf(),
        ensures
            final(self)@ == old(self)@.executed(Instruction::Key(x), keys@, 0),
    {
        match first_pressed(keys) {
            None => {
                let pc: u16 = self.pc;
                assert(((pc + 4094) as u16 & 0xfff) == (pc + 4094) % 4096) by (bit_vector)
                    requires
                        pc <= 0xFFF,
                ;
                self.pc = (pc + 4094) & 0xfff;
            },
            Some(k) => {
                self.registers[x as usize] = k;
            },
        }
        assert(self@ =~~= old(self)@.executed(Instruction::Key(x), keys@, 0));
    }
}

/// Whether the instruction moves the program counter or the stack.
spec fn is_flow(i: Instruction) -> bool {
    i is Ret || i is Jmp || i is Call || i is Jumpi || i is Ske || i is Skne || i is Skre
        || i is Skrne || i is Skp || i is Sknp || i is Key
}

/// Whether the instruction computes a register.
spec fn is_arithmetic(i: Instruction) -> bool {
    i is Setr || i is Addr || i is Move || i is Or || i is And || i is Xor || i is Add || i is Sub
        || i is Ssub || i is Shr || i is Shl || i is Rand || i is Moved
}

/// Whether the instruction sets the index register or a timer, or moves
/// bytes between registers and memory.
spec fn is_storage(i: Instruction) -> bool {
    i is Seti || i is Addi || i is Ldfnt || i is Setrd || i is Setrs || i is Bcd || i is Store
        || i is Load
}

/// Calls `rand::random::<u8>()`, which draws a byte from the thread's random
/// number generator. Nothing is claimed of the byte.
#[verifier::external_body]
fn random_byte() -> u8 {
    rand::random::<u8>()
}

impl VM {
    /// Executes an instruction that moves the program counter or the stack.
    fn execute_flow(&mut self, instruction: Instruction, keys: &Keys)
        requires
            old(self)@.wf(),
            old(self)@.can_execute(instruction, keys@),
            is_flow(instruction),
        ensures
            final(self)@ == old(self)@.executed(instruction, keys@, 0),
    {
        match instruction {
            Instruction::Ret => {
                self.pc = match self.stack.pop() {
                    Some(address) => address,
                    None => 0,
                };
            },
            Instruction::Jmp(address) => {
                self.pc = address;
            },
            Instruction::Call(address) => {
                self.stack.push(self.pc);
                self.pc = address;
            },
            Instruction::Jumpi(address) => {
                let target: u16 = address + self.registers[0] as u16;
                assert(target & 0xfff == target % 4096) by (bit_vector);
                self.pc = target & 0xfff;
            },
            Instruction::Ske(x, byte) => {
                let cond: bool = self.registers[x as usize] == byte;
                self.skip_if(cond);
            },
            Instruction::Skne(x, byte) => {
                let cond: bool = self.registers[x as usize] != byte;
                self.skip_if(cond);
            },
            Instruction::Skre(x, y) => {
                let cond: bool = self.registers[x as usize] == self.registers[y as usize];
                self.skip_if(cond);
            },
            Instruction::Skrne(x, y) => {
                let cond: bool = self.registers[x as usize] != self.registers[y as usize];
                self.skip_if(cond);
            },
            Instruction::Skp(x) => {
                let cond: bool = keys[self.registers[x as usize] as usize];
                self.skip_if(cond);
            },
            Instruction::Sknp(x) => {
                let cond: bool = !keys[self.registers[x as usize] as usize];
                self.skip_if(cond);
            },
            Instruction::Key(x) => {
                self.wait_key(x, keys);
            },
            _ => {},
        }
        assert(self@ =~~= old(self)@.executed(instruction, keys@, 0));
    }

    /// Executes an instruction that computes a register.
    fn execute_arithmetic(&mut self, instruction: Instruction, random: u8)
        requires
            old(self)@.wf(),
            instruction.wf(),
            is_arithmetic(instruction),
        ensures
            final(self)@ == old(self)@.executed(instruction, Seq::empty(), random),
    {
        match instruction {
            Instruction::Setr(x, byte) => {
                self.set_register(x, byte);
            },
            Instruction::Addr(x, byte) => {
                let sum: u8 = self.registers[x as usize].wrapping_add(byte);
                self.set_register(x, sum);
            },
            Instruction::Move(x, y) => {
                let value: u8 = self.registers[y as usize];
                self.set_register(x, value);
            },
            Instruction::Or(x, y) => {
                let value: u8 = self.registers[x as usize] | self.registers[y as usize];
                self.set_register(x, value);
            },
            Instruction::And(x, y) => {
                let value: u8 = self.registers[x as usize] & self.registers[y as usize];
                self.set_register(x, value);
            },
            Instruction::Xor(x, y) => {
                let value: u8 = self.registers[x as usize] ^ self.registers[y as usize];
                self.set_register(x, value);
            },
            Instruction::Add(x, y) => {
                let a: u8 = self.registers[x as usize];
                let b: u8 = self.registers[y as usize];
                let overflow: bool = a.checked_add(b).is_none();
                self.set_register(x, a.wrapping_add(b));
                self.set_register(0xf, if overflow { 1 } else { 0 });
            },
            Instruction::Sub(x, y) => {
                let a: u8 = self.registers[x as usize];
                let b: u8 = self.registers[y as usize];
                let overflow: bool = a.checked_sub(b).is_none();
                self.set_register(x, a.wrapping_sub(b));
                self.set_register(0xf, if overflow { 1 } else { 0 });
            },
            Instruction::Ssub(x, y) => {
                let a: u8 = self.registers[y as usize];
                let b: u8 = self.registers[x as usize];
                let overflow: bool = a.checked_sub(b).is_none();
                self.set_register(x, a.wrapping_sub(b));
                self.set_register(0xf, if overflow { 1 } else { 0 });
            },
            Instruction::Shr(x, _) => {
                let old_value: u8 = self.registers[x as usize];
                let low: u8 = 1 & old_value;
                assert(1u8 & old_value == old_value % 2) by (bit_vector);
                self.set_register(0xf, low);
                let value: u8 = self.registers[x as usize];
                assert(value >> 1u8 == value / 2) by (bit_vector);
                self.set_register(x, value >> 1);
            },
            Instruction::Shl(x, _) => {
                let old_value: u8 = self.registers[x as usize];
                let high: u8 = 0x80 & old_value;
                assert(0x80u8 & old_value == if old_value >= 128 { 128u8 } else { 0u8 })
                    by (bit_vector);
                self.set_register(0xf, high);
                let value: u8 = self.registers[x as usize];
                assert(value << 1u8 == (value * 2) % 256) by (bit_vector);
                self.set_register(x, value << 1);
            },
            Instruction::Rand(x, byte) => {
                self.set_register(x, random & byte);
            },
            Instruction::Moved(x) => {
                let value: u8 = self.delay_timer;
                self.set_register(x, value);
            },
            _ => {},
        }
    }

    /// Executes an instruction that sets the index register or a timer, or
    /// moves bytes between registers and memory.
    fn execute_storage(&mut self, instruction: Instruction)
        requires
            old(self)@.wf(),
            old(self)@.can_execute(instruction, Seq::empty()),
            is_storage(instruction),
        ensures
            final(self)@ == old(self)@.executed(instruction, Seq::empty(), 0),
    {
        match instruction {
            Instruction::Seti(address) => {
                self.index = address;
            },
            Instruction::Addi(x) => {
                let sum: u16 = self.index + self.registers[x as usize] as u16;
                assert(sum & 0xfff == sum % 4096) by (bit_vector);
                self.index = sum & 0xfff;
            },
            Instruction::Ldfnt(x) => {
                let char_offset: u16 = self.registers[x as usize] as u16 * GLYPH_BYTES;
                self.index = FONT_START + char_offset;
            },
            Instruction::Setrd(x) => {
                self.delay_timer = self.registers[x as usize];
            },
            Instruction::Setrs(x) => {
                self.sound_timer = self.registers[x as usize];
            },
            Instruction::Bcd(x) => {
                self.store_bcd(x);
            },
            Instruction::Store(x) => {
                self.store_registers(x);
            },
            Instruction::Load(x) => {
                self.load_registers(x);
            },
            _ => {},
        }
    }

    /// Executes `instruction` with the key snapshot `keys`; `random` is the
    /// byte that `Rand` uses. Returns the display where the instruction is
    /// one that hands it out, which `Cls` and `Draw` are, whatever they
    /// changed.
    pub fn execute_with(&mut self, instruction: Instruction, keys: &Keys, random: u8) -> (update:
        Option<Display>)
        requires
            old(self)@.wf(),
            old(self)@.can_execute(instruction, keys@),
        ensures
            final(self)@ == old(self)@.executed(instruction, keys@, random),
            final(self)@.wf(),
            update is Some <==> instruction.emits(),
            update matches Some(d) ==> grid(d) == final(self)@.display,
    {
        proof {
            lemma_executed_wf(self@, instruction, keys@, random);
        }
        match instruction {
            Instruction::Nop => None,
            Instruction::Cls => {
                self.display = [[Pixel::Black; 64]; 32];
                assert(self@ =~~= old(self)@.executed(instruction, keys@, random));
                Some(self.display)
            },
            Instruction::Draw(x, y, n) => {
                self.draw(x, y, n);
                Some(self.display)
            },
            Instruction::Ret | Instruction::Jmp(_) | Instruction::Call(_) | Instruction::Jumpi(_)
            | Instruction::Ske(_, _) | Instruction::Skne(_, _) | Instruction::Skre(_, _)
            | Instruction::Skrne(_, _) | Instruction::Skp(_) | Instruction::Sknp(_)
            | Instruction::Key(_) => {
                self.execute_flow(instruction, keys);
                None
            },
            Instruction::Setr(_, _) | Instruction::Addr(_, _) | Instruction::Move(_, _)
            | Instruction::Or(_, _) | Instruction::And(_, _) | Instruction::Xor(_, _)
            | Instruction::Add(_, _) | Instruction::Sub(_, _) | Instruction::Ssub(_, _)
            | Instruction::Shr(_, _) | Instruction::Shl(_, _) | Instruction::Rand(_, _)
            | Instruction::Moved(_) => {
                self.execute_arithmetic(instruction, random);
                None
            },
            Instruction::Seti(_) | Instruction::Addi(_) | Instruction::Ldfnt(_)
            | Instruction::Setrd(_) | Instruction::Setrs(_) | Instruction::Bcd(_)
            | Instruction::Store(_) | Instruction::Load(_) => {
                self.execute_storage(instruction);
                None
            },
        }
    }

    /// Executes `instruction` with the key snapshot `keys`, drawing the random
    /// byte that `Rand` uses from the thread's random number generator.
    pub fn execute(&mut self, instruction: Instruction, keys: &Keys) -> (update: Option<Display>)
        requires
            old(self)@.wf(),
            old(self)@.can_execute(instruction, keys@),
        ensures
            exists|random: u8| final(self)@ == old(self)@.executed(instruction, keys@, random),
            !instruction.uses_random() ==> final(self)@ == old(self)@.executed(
                instruction,
                keys@,
                0,
            ),
            final(self)@.wf(),
            update is Some <==> instruction.emits(),
            update matches Some(d) ==> grid(d) == final(self)@.display,
    {
        let random: u8 = match instruction {
            Instruction::Rand(_, _) => random_byte(),
            _ => 0,
        };
        self.execute_with(instruction, keys, random)
    }
}

impl Instruction {
    /// Whether the operands are in range.
    pub fn in_range(self) -> (b: bool)
        ensures
            b == self.wf(),
    {
        match self {
            Instruction::Nop | Instruction::Cls | Instruction::Ret => true,
            Instruction::Jmp(a) | Instruction::Call(a) | Instruction::Seti(a) | Instruction::Jumpi(
                a,
            ) => a <= 0xFFF,
            Instruction::Ske(x, _) | Instruction::Skne(x, _) | Instruction::Setr(x, _)
            | Instruction::Addr(x, _) | Instruction::Rand(x, _) => x < 16,
            Instruction::Skre(x, y) | Instruction::Move(x, y) | Instruction::Or(x, y)
            | Instruction::And(x, y) | Instruction::Xor(x, y) | Instruction::Add(x, y)
            | Instruction::Sub(x, y) | Instruction::Shr(x, y) | Instruction::Ssub(x, y)
            | Instruction::Shl(x, y) | Instruction::Skrne(x, y) => x < 16 && y < 16,
            Instruction::Draw(x, y, _) => x < 16 && y < 16,
            Instruction::Skp(x) | Instruction::Sknp(x) | Instruction::Moved(x) | Instruction::Key(x)
            | Instruction::Setrd(x) | Instruction::Setrs(x) | Instruction::Addi(x)
            | Instruction::Ldfnt(x) | Instruction::Bcd(x) | Instruction::Store(x)
            | Instruction::Load(x) => x < 16,
        }
    }
}

impl VM {
    /// Whether `instruction` can be executed in this state with this key
    /// snapshot.
    pub fn can_execute(&self, instruction: Instruction, keys: &Keys) -> (b: bool)
        requires
            self@.wf(),
        ensures
            b == self@.can_execute(instruction, keys@),
    {
        if !instruction.in_range() {
            return false;
        }
        let index: usize = self.index as usize;
        match instruction {
            Instruction::Draw(_, _, n) => index + n as usize <= MEMORY_SIZE,
            Instruction::Bcd(_) => index + 3 <= MEMORY_SIZE,
            Instruction::Store(x) | Instruction::Load(x) => index + (x as usize) < MEMORY_SIZE,
            Instruction::Skp(x) | Instruction::Sknp(x) => self.registers[x as usize] < 16,
            _ => true,
        }
    }

    /// Whether a step can be made in this state with this key snapshot.
    pub fn can_step(&self, keys: &Keys) -> (b: bool)
        requires
            self@.wf(),
        ensures
            b == self@.can_step(keys@),
    {
        if self.ticker == u32::MAX {
            return false;
        }
        match try_decode(self.peek()) {
            None => false,
            Some(instruction) => self.can_execute(instruction, keys),
        }
    }

    /// Counts one instruction, and lets both timers decay when the count
    /// reaches the number of instructions per sixtieth of a second.
    fn tick(&mut self)
        requires
            old(self)@.wf(),
            old(self)@.ticker < u32::MAX,
        ensures
            final(self)@ == old(self)@.ticked(),
            final(self)@.wf(),
    {
        proof {
            lemma_ticked_wf(self@);
        }
        self.ticker += 1;
        if self.ticker == self.max_ticks {
            self.ticker = 0;
            self.delay_timer = self.delay_timer.saturating_sub(1);
            self.sound_timer = self.sound_timer.saturating_sub(1);
        }
        assert(self@ =~~= old(self)@.ticked());
    }

    /// One step: fetches the opcode at the program counter, decodes and
    /// executes it with `random` as the byte that `Rand` uses, then counts
    /// the instruction towards the decay of the timers. Returns the display
    /// where the instruction is one that hands it out.
    pub fn step_with(&mut self, keys: &Keys, random: u8) -> (update: Option<Display>)
        requires
            old(self)@.wf(),
            old(self)@.can_step(keys@),
        ensures
            final(self)@ == old(self)@.stepped(keys@, random),
            final(self)@.wf(),
            update is Some <==> decoded(old(self)@.opcode())->Some_0.emits(),
            update matches Some(d) ==> grid(d) == final(self)@.display,
    {
        let opcode: u16 = self.fetch();
        let instruction: Instruction = decode(opcode);
        let update = self.execute_with(instruction, keys, random);
        proof {
            lemma_ticker_untouched(old(self)@.fetched(), instruction, keys@, random);
        }
        self.tick();
        update
    }

    /// One step, as [`VM::step_with`], with the random byte drawn from the
    /// thread's random number generator.
    pub fn step(&mut self, keys: &Keys) -> (update: Option<Display>)
        requires
            old(self)@.wf(),
            old(self)@.can_step(keys@),
        ensures
            exists|random: u8| final(self)@ == old(self)@.stepped(keys@, random),
            !decoded(old(self)@.opcode())->Some_0.uses_random() ==> final(self)@ == old(
                self,
            )@.stepped(keys@, 0),
            final(self)@.wf(),
            update is Some <==> decoded(old(self)@.opcode())->Some_0.emits(),
            update matches Some(d) ==> grid(d) == final(self)@.display,
    {
        let opcode: u16 = self.fetch();
        let instruction: Instruction = decode(opcode);
        let ghost fetched = self@;
        let update = self.execute(instruction, keys);
        proof {
            let random = choose|random: u8| self@ == fetched.executed(instruction, keys@, random);
            lemma_ticker_untouched(fetched, instruction, keys@, random);
            assert(self@.ticked() == old(self)@.stepped(keys@, random));
        }
        self.tick();
        update
    }
}

} // verus!
