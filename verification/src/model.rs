//! The mathematical model of the machine: its state as sequences and
//! integers, and the meaning of every instruction as a function on states.
//!
//! The program counter lives in the twelve-bit address space and wraps in
//! it: the opcode at 0xFFF has its second byte at 0x000, the address after
//! 0xFFE is 0x000, and going back by one instruction from 0x000 leads to
//! 0xFFE. The index register wraps where it is computed. The cells that an
//! instruction reaches from the index register are plain offsets from it,
//! `I`, `I + 1` and so on: they do not wrap, and an instruction whose cells
//! would lie beyond the last byte of memory cannot be executed.

use crate::font::initial_byte;
use crate::instruction::{decoded, Instruction};
use crate::pixel::Pixel;
use vstd::prelude::*;

verus! {

/// The state of a machine, as the contracts see it.
#[verifier::ext_equal]
pub struct Machine {
    /// The 4096 bytes of memory.
    pub memory: Seq<u8>,
    /// Address of the next opcode.
    pub pc: u16,
    /// The index register `I`.
    pub index: u16,
    /// Return addresses, the most recent last.
    pub stack: Seq<u16>,
    /// The registers `V0..VF`.
    pub registers: Seq<u8>,
    /// The delay timer.
    pub delay_timer: u8,
    /// The sound timer.
    pub sound_timer: u8,
    /// Clock speed in instructions per second.
    pub speed: u32,
    /// Instructions executed since the timers last decayed.
    pub ticker: u32,
    /// Instructions per timer decay.
    pub max_ticks: u32,
    /// The display, 32 rows of 64 pixels.
    pub display: Seq<Seq<Pixel>>,
}

/// Instructions per sixtieth of a second at `speed` instructions per second:
/// `speed / 60`, rounded to the nearest integer, halves upwards.
pub open spec fn ticks_per_decay(speed: u32) -> int {
    (speed + 30) / 60
}

/// The address two past `pc`, wrapped into the twelve-bit address space.
pub open spec fn next_pc(pc: u16) -> u16 {
    ((pc + 2) % 4096) as u16
}

/// The address two before `pc`, wrapped into the twelve-bit address space.
pub open spec fn prev_pc(pc: u16) -> u16 {
    ((pc + 4094) % 4096) as u16
}

/// A timer one tick later: one less, and never below zero.
pub open spec fn decayed(t: u8) -> u8 {
    if t == 0 {
        0u8
    } else {
        (t - 1) as u8
    }
}

/// A display with every pixel off.
pub open spec fn blank() -> Seq<Seq<Pixel>> {
    Seq::new(32, |r: int| Seq::new(64, |c: int| Pixel::Black))
}

/// Whether any key of the snapshot is pressed.
pub open spec fn any_pressed(keys: Seq<bool>) -> bool {
    exists|k: int| 0 <= k < keys.len() && keys[k]
}

/// Whether `k` is pressed and no key below it is.
pub open spec fn is_lowest_pressed(keys: Seq<bool>, k: int) -> bool {
    &&& 0 <= k < keys.len()
    &&& keys[k]
    &&& forall|j: int| 0 <= j < k ==> !keys[j]
}

/// The smallest index of a pressed key.
pub open spec fn lowest_pressed(keys: Seq<bool>) -> int {
    choose|k: int| is_lowest_pressed(keys, k)
}

/// The place value of bit `j` of a sprite byte, counted from the left.
pub open spec fn bit_weight(j: int) -> int {
    if j == 0 {
        128
    } else if j == 1 {
        64
    } else if j == 2 {
        32
    } else if j == 3 {
        16
    } else if j == 4 {
        8
    } else if j == 5 {
        4
    } else if j == 6 {
        2
    } else {
        1
    }
}

/// Whether bit `j` of `byte` is set, the most significant bit being bit 0.
pub open spec fn sprite_bit(byte: u8, j: int) -> bool {
    (byte as int / bit_weight(j)) % 2 == 1
}

/// Whether a sprite of `rows` rows whose top left corner is at column `x0`,
/// row `y0` reaches the pixel at row `r`, column `c`. What would fall beyond
/// the right or the bottom edge is cut off.
pub open spec fn covers(rows: int, x0: int, y0: int, r: int, c: int) -> bool {
    &&& y0 <= r < y0 + rows
    &&& r < 32
    &&& x0 <= c < x0 + 8
    &&& c < 64
}

/// Whether the sprite, placed at `(x0, y0)`, has a set pixel at row `r`,
/// column `c`.
pub open spec fn sprite_at(sprite: Seq<u8>, x0: int, y0: int, r: int, c: int) -> bool {
    covers(sprite.len() as int, x0, y0, r, c) && sprite_bit(sprite[r - y0], c - x0)
}

/// The display after the sprite has been combined into it by exclusive or.
pub open spec fn drawn(display: Seq<Seq<Pixel>>, sprite: Seq<u8>, x0: int, y0: int) -> Seq<
    Seq<Pixel>,
> {
    Seq::new(
        32,
        |r: int|
            Seq::new(
                64,
                |c: int| Pixel::of_bool(display[r][c].lit() != sprite_at(sprite, x0, y0, r, c)),
            ),
    )
}

/// Whether the sprite has a set pixel where the display has one too.
pub open spec fn collides(display: Seq<Seq<Pixel>>, sprite: Seq<u8>, x0: int, y0: int) -> bool {
    exists|r: int, c: int|
        0 <= r < 32 && 0 <= c < 64 && #[trigger] display[r][c].lit() && sprite_at(
            sprite,
            x0,
            y0,
            r,
            c,
        )
}

/// The flag byte for a condition: 1 where it holds, 0 where it does not.
pub open spec fn flag(b: bool) -> u8 {
    if b {
        1u8
    } else {
        0u8
    }
}

impl Instruction {
    /// Whether the operands are in range: register indices below 16 and
    /// addresses within twelve bits. Every decoded instruction is.
    pub open spec fn wf(self) -> bool {
        match self {
            Instruction::Nop | Instruction::Cls | Instruction::Ret => true,
            Instruction::Jmp(a) | Instruction::Call(a) | Instruction::Seti(a) | Instruction::Jumpi(
                a,
            ) => a <= 0xFFF,
            Instruction::Ske(x, _) | Instruction::Skne(x, _) | Instruction::Setr(x, _)
            | Instruction::Addr(x, _) | Instruction::Rand(x, _) => x < 16,
            Instruction::Skre(x, y) | Instruction::Move(x, y) | Instruction::Or(x, y)
            | Instruction::And(x, y) | Instruction::Xor(x, y) | Instruction::Add(x, y)
            | Instruction::Sub(x, y) | Instruction::Shr(x, y) | Instruction::Ssub(x, y)
            | Instruction::Shl(x, y) | Instruction::Skrne(x, y) => x < 16 && y < 16,
            Instruction::Draw(x, y, _) => x < 16 && y < 16,
            Instruction::Skp(x) | Instruction::Sknp(x) | Instruction::Moved(x) | Instruction::Key(x)
            | Instruction::Setrd(x) | Instruction::Setrs(x) | Instruction::Addi(x)
            | Instruction::Ldfnt(x) | Instruction::Bcd(x) | Instruction::Store(x)
            | Instruction::Load(x) => x < 16,
        }
    }

    /// Whether executing the instruction hands out a display snapshot.
    pub open spec fn emits(self) -> bool {
        self is Cls || self is Draw
    }

    /// Whether the instruction consumes a random byte.
    pub open spec fn uses_random(self) -> bool {
        self is Rand
    }
}

impl Machine {
    /// The invariant of a machine state.
    pub open spec fn wf(self) -> bool {
        &&& self.memory.len() == 4096
        &&& self.registers.len() == 16
        &&& self.display.len() == 32
        &&& forall|r: int| 0 <= r < 32 ==> (#[trigger] self.display[r]).len() == 64
        &&& self.pc <= 0xFFF
        &&& self.index <= 0xFFF
        &&& forall|i: int| 0 <= i < self.stack.len() ==> #[trigger] self.stack[i] <= 0xFFF
        &&& self.speed > 0
        &&& self.max_ticks == ticks_per_decay(self.speed)
        &&& (self.max_ticks > 0 ==> self.ticker < self.max_ticks)
    }

    /// The state of a machine that was just created for `speed` instructions
    /// per second: the glyph table in memory, everything else zero or empty.
    pub open spec fn initial(speed: u32) -> Machine {
        Machine {
            memory: Seq::new(4096, |a: int| initial_byte(a)),
            pc: 0,
            index: 0,
            stack: Seq::empty(),
            registers: Seq::new(16, |r: int| 0u8),
            delay_timer: 0,
            sound_timer: 0,
            speed,
            ticker: 0,
            max_ticks: ticks_per_decay(speed) as u32,
            display: blank(),
        }
    }

    /// The state after `program` has been copied to address 0x200 and the
    /// program counter set there.
    pub open spec fn loaded(self, program: Seq<u8>) -> Machine {
        Machine {
            memory: Seq::new(
                4096,
                |a: int|
                    if 0x200 <= a < 0x200 + program.len() {
                        program[a - 0x200]
                    } else {
                        self.memory[a]
                    },
            ),
            pc: 0x200,
            ..self
        }
    }

    /// The value of register `r`.
    pub open spec fn reg(self, r: int) -> u8 {
        self.registers[r]
    }

    /// The state with register `r` set to `v`.
    pub open spec fn set_reg(self, r: int, v: u8) -> Machine {
        Machine { registers: self.registers.update(r, v), ..self }
    }

    /// The state with the program counter moved past one more instruction
    /// where `cond` holds, unchanged where it does not.
    pub open spec fn skip_if(self, cond: bool) -> Machine {
        if cond {
            Machine { pc: next_pc(self.pc), ..self }
        } else {
            self
        }
    }

    /// The big-endian 16-bit word at the program counter. Its second byte
    /// is the one after the first in the twelve-bit address space, so for an
    /// opcode at 0xFFF the byte at 0x000.
    pub open spec fn opcode(self) -> u16 {
        (self.memory[self.pc as int] * 256 + self.memory[(self.pc + 1) % 4096]) as u16
    }

    /// The state after the opcode has been fetched.
    pub open spec fn fetched(self) -> Machine {
        Machine { pc: next_pc(self.pc), ..self }
    }

    /// The `n` sprite bytes at the index register.
    pub open spec fn sprite(self, n: int) -> Seq<u8> {
        self.memory.subrange(self.index as int, self.index + n)
    }

    /// Whether `instruction` can be executed in this state with this key
    /// snapshot: its operands are in range, the cells it reaches from the
    /// index register lie within the 4096 bytes, and the key it asks for
    /// exists.
    pub open spec fn can_execute(self, instruction: Instruction, keys: Seq<bool>) -> bool {
        &&& instruction.wf()
        &&& match instruction {
            Instruction::Draw(_, _, n) => self.index + n <= 4096,
            Instruction::Bcd(_) => self.index + 3 <= 4096,
            Instruction::Store(x) | Instruction::Load(x) => self.index + x < 4096,
            Instruction::Skp(x) | Instruction::Sknp(x) => self.reg(x as int) < 16,
            _ => true,
        }
    }

    /// The state after `instruction` has been executed with the key snapshot
    /// `keys` and, for the one instruction that asks for it, the random byte
    /// `random`.
    pub open spec fn executed(self, instruction: Instruction, keys: Seq<bool>, random: u8) -> Machine {
        match instruction {
            Instruction::Nop => self,
            Instruction::Cls => Machine { display: blank(), ..self },
            Instruction::Ret => if self.stack.len() > 0 {
                Machine { pc: self.stack.last(), stack: self.stack.drop_last(), ..self }
            } else {
                Machine { pc: 0, ..self }
            },
            Instruction::Jmp(a) => Machine { pc: a, ..self },
            Instruction::Call(a) => Machine { pc: a, stack: self.stack.push(self.pc), ..self },
            Instruction::Ske(x, kk) => self.skip_if(self.reg(x as int) == kk),
            Instruction::Skne(x, kk) => self.skip_if(self.reg(x as int) != kk),
            Instruction::Skre(x, y) => self.skip_if(self.reg(x as int) == self.reg(y as int)),
            Instruction::Skrne(x, y) => self.skip_if(self.reg(x as int) != self.reg(y as int)),
            Instruction::Setr(x, kk) => self.set_reg(x as int, kk),
            Instruction::Addr(x, kk) => self.set_reg(
                x as int,
                ((self.reg(x as int) + kk) % 256) as u8,
            ),
            Instruction::Move(x, y) => self.set_reg(x as int, self.reg(y as int)),
            Instruction::Or(x, y) => self.set_reg(x as int, self.reg(x as int) | self.reg(y as int)),
            Instruction::And(x, y) => self.set_reg(
                x as int,
                self.reg(x as int) & self.reg(y as int),
            ),
            Instruction::Xor(x, y) => self.set_reg(
                x as int,
                self.reg(x as int) ^ self.reg(y as int),
            ),
            Instruction::Add(x, y) => {
                let sum = self.reg(x as int) + self.reg(y as int);
                self.set_reg(x as int, (sum % 256) as u8).set_reg(15, flag(sum > 255))
            },
            Instruction::Sub(x, y) => {
                let a = self.reg(x as int);
                let b = self.reg(y as int);
                self.set_reg(x as int, ((a - b) % 256) as u8).set_reg(15, flag(a < b))
            },
            Instruction::Ssub(x, y) => {
                let a = self.reg(y as int);
                let b = self.reg(x as int);
                self.set_reg(x as int, ((a - b) % 256) as u8).set_reg(15, flag(a < b))
            },
            Instruction::Shr(x, _) => {
                let flagged = self.set_reg(15, (self.reg(x as int) % 2) as u8);
                flagged.set_reg(x as int, (flagged.reg(x as int) / 2) as u8)
            },
            Instruction::Shl(x, _) => {
                let flagged = self.set_reg(
                    15,
                    if self.reg(x as int) >= 128 {
                        128u8
                    } else {
                        0u8
                    },
                );
                flagged.set_reg(x as int, ((flagged.reg(x as int) * 2) % 256) as u8)
            },
            Instruction::Seti(a) => Machine { index: a, ..self },
            Instruction::Jumpi(a) => Machine { pc: ((a + self.reg(0)) % 4096) as u16, ..self },
            Instruction::Rand(x, kk) => self.set_reg(x as int, random & kk),
            Instruction::Draw(x, y, n) => {
                let x0 = self.reg(x as int) % 64;
                let y0 = self.reg(y as int) % 32;
                let sprite = self.sprite(n as int);
                Machine {
                    registers: self.registers.update(
                        15,
                        flag(collides(self.display, sprite, x0 as int, y0 as int)),
                    ),
                    display: drawn(self.display, sprite, x0 as int, y0 as int),
                    ..self
                }
            },
            Instruction::Skp(x) => self.skip_if(keys[self.reg(x as int) as int]),
            Instruction::Sknp(x) => self.skip_if(!keys[self.reg(x as int) as int]),
            Instruction::Moved(x) => self.set_reg(x as int, self.delay_timer),
            Instruction::Key(x) => if any_pressed(keys) {
                self.set_reg(x as int, lowest_pressed(keys) as u8)
            } else {
                Machine { pc: prev_pc(self.pc), ..self }
            },
            Instruction::Setrd(x) => Machine { delay_timer: self.reg(x as int), ..self },
            Instruction::Setrs(x) => Machine { sound_timer: self.reg(x as int), ..self },
            Instruction::Addi(x) => Machine {
                index: ((self.index + self.reg(x as int)) % 4096) as u16,
                ..self
            },
            Instruction::Ldfnt(x) => Machine {
                index: (0x50 + self.reg(x as int) * 5) as u16,
                ..self
            },
            Instruction::Bcd(x) => {
                let v = self.reg(x as int);
                let i = self.index as int;
                Machine {
                    memory: self.memory.update(i, v / 100).update(i + 1, (v % 100) / 10).update(
                        i + 2,
                        v % 10,
                    ),
                    ..self
                }
            },
            Instruction::Store(x) => Machine {
                memory: Seq::new(
                    4096,
                    |a: int|
                        if self.index <= a <= self.index + x {
                            self.registers[a - self.index]
                        } else {
                            self.memory[a]
                        },
                ),
                ..self
            },
            Instruction::Load(x) => Machine {
                registers: Seq::new(
                    16,
                    |r: int|
                        if r <= x {
                            self.memory[self.index + r]
                        } else {
                            self.registers[r]
                        },
                ),
                ..self
            },
        }
    }

    /// The state after the tick that follows every instruction: the tick
    /// counter goes up by one, and when it reaches the number of instructions
    /// per timer decay it returns to zero and both timers decay.
    pub open spec fn ticked(self) -> Machine {
        if self.ticker + 1 == self.max_ticks {
            Machine {
                ticker: 0,
                delay_timer: decayed(self.delay_timer),
                sound_timer: decayed(self.sound_timer),
                ..self
            }
        } else {
            Machine { ticker: (self.ticker + 1) as u32, ..self }
        }
    }

    /// Whether one step can be made: the opcode is assigned, the instruction
    /// can be executed, and the tick counter has room for one more.
    pub open spec fn can_step(self, keys: Seq<bool>) -> bool {
        &&& decoded(self.opcode()) matches Some(instruction)
        &&& self.fetched().can_execute(instruction, keys)
        &&& self.ticker < u32::MAX
    }

    /// The state after one step: fetch, decode, execute, tick.
    pub open spec fn stepped(self, keys: Seq<bool>, random: u8) -> Machine {
        self.fetched().executed(decoded(self.opcode())->Some_0, keys, random).ticked()
    }

    /// Whether the buzzer sounds: the sound timer is not zero.
    pub open spec fn buzzer_active(self) -> bool {
        self.sound_timer != 0
    }
}

} // verus!
