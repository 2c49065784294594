//! What holds of the model for every state and every input.

use crate::instruction::{decoded, Instruction};
use crate::model::{
    any_pressed, blank, collides, covers, decayed, drawn, is_lowest_pressed, lowest_pressed,
    next_pc, prev_pc, sprite_at, ticks_per_decay, Machine,
};
use crate::pixel::Pixel;
use vstd::prelude::*;

verus! {

/// Every instruction that the decoder produces has its operands in range.
pub proof fn lemma_decoded_wf(opcode: u16)
    ensures
        decoded(opcode) matches Some(instruction) ==> instruction.wf(),
{
}

/// Where a key is pressed, the lowest pressed key exists and is the only
/// index that is pressed with nothing pressed below it.
pub proof fn lemma_lowest_pressed(keys: Seq<bool>)
    requires
        any_pressed(keys),
    ensures
        is_lowest_pressed(keys, lowest_pressed(keys)),
        forall|k: int| is_lowest_pressed(keys, k) ==> k == lowest_pressed(keys),
{
    let w = choose|k: int| 0 <= k < keys.len() && keys[k];
    lemma_lowest_below(keys, w);
    let l = lowest_pressed(keys);
    assert forall|k: int| is_lowest_pressed(keys, k) implies k == l by {
        if k < l {
            assert(!keys[k]);
        } else if l < k {
            assert(!keys[l]);
        }
    }
}

/// A pressed key at `w` has a lowest pressed key at or below it.
proof fn lemma_lowest_below(keys: Seq<bool>, w: int)
    requires
        0 <= w < keys.len(),
        keys[w],
    ensures
        exists|k: int| is_lowest_pressed(keys, k),
    decreases w,
{
    if exists|j: int| 0 <= j < w && keys[j] {
        let j = choose|j: int| 0 <= j < w && keys[j];
        lemma_lowest_below(keys, j);
    } else {
        assert(is_lowest_pressed(keys, w));
    }
}

/// Moving the program counter keeps a state well formed.
pub proof fn lemma_skip_wf(m: Machine, cond: bool)
    requires
        m.wf(),
    ensures
        m.skip_if(cond).wf(),
        m.fetched().wf(),
{
}

/// Executing an instruction that can be executed keeps a state well formed.
pub proof fn lemma_executed_wf(m: Machine, instruction: Instruction, keys: Seq<bool>, random: u8)
    requires
        m.wf(),
        m.can_execute(instruction, keys),
    ensures
        m.executed(instruction, keys, random).wf(),
{
    let after = m.executed(instruction, keys, random);
    match instruction {
        Instruction::Cls => {
            assert(after.display == blank());
        },
        Instruction::Ret => {
            if m.stack.len() > 0 {
                assert(m.stack[m.stack.len() - 1] <= 0xFFF);
            }
        },
        Instruction::Draw(x, y, n) => {
            assert(after.display == drawn(
                m.display,
                m.sprite(n as int),
                (m.reg(x as int) % 64) as int,
                (m.reg(y as int) % 32) as int,
            ));
        },
        Instruction::Key(x) => {
            if any_pressed(keys) {
                lemma_lowest_pressed(keys);
            }
        },
        _ => {},
    }
}

/// The tick after an instruction keeps a state well formed.
pub proof fn lemma_ticked_wf(m: Machine)
    requires
        m.wf(),
        m.ticker < u32::MAX,
    ensures
        m.ticked().wf(),
{
}

/// A step that can be made keeps a state well formed.
pub proof fn lemma_stepped_wf(m: Machine, keys: Seq<bool>, random: u8)
    requires
        m.wf(),
        m.can_step(keys),
    ensures
        m.stepped(keys, random).wf(),
{
    let instruction = decoded(m.opcode())->Some_0;
    lemma_skip_wf(m, true);
    lemma_executed_wf(m.fetched(), instruction, keys, random);
    let after = m.fetched().executed(instruction, keys, random);
    lemma_ticker_untouched(m.fetched(), instruction, keys, random);
    lemma_ticked_wf(after);
}

/// No instruction touches the tick counter or the clock speed.
pub proof fn lemma_ticker_untouched(
    m: Machine,
    instruction: Instruction,
    keys: Seq<bool>,
    random: u8,
)
    ensures
        m.executed(instruction, keys, random).ticker == m.ticker,
        m.executed(instruction, keys, random).max_ticks == m.max_ticks,
        m.executed(instruction, keys, random).speed == m.speed,
{
}

/// An instruction of the do-nothing class changes nothing and hands out no
/// display: executed alone it leaves the whole state as it was, and a step
/// over it changes the program counter by the standard increment and, through
/// the tick that follows every instruction, the tick counter and the timers,
/// and nothing else. The instruction hands out no display and uses no random
/// byte, so a step of the machine over it returns no display and ends in
/// exactly this state.
pub proof fn law_nop_changes_nothing(m: Machine, keys: Seq<bool>, random: u8)
    requires
        decoded(m.opcode()) == Some(Instruction::Nop),
    ensures
        m.executed(Instruction::Nop, keys, random) == m,
        !Instruction::Nop.emits(),
        !decoded(m.opcode())->Some_0.emits(),
        !decoded(m.opcode())->Some_0.uses_random(),
        m.stepped(keys, random) == m.fetched().ticked(),
        m.stepped(keys, random).registers == m.registers,
        m.stepped(keys, random).memory == m.memory,
        m.stepped(keys, random).display == m.display,
        m.stepped(keys, random).stack == m.stack,
        m.stepped(keys, random).index == m.index,
        m.stepped(keys, random).pc == next_pc(m.pc),
{
}

/// A call followed at once by a return brings the program counter back to
/// where it stood before the call, and the stack to what it held.
pub proof fn law_call_ret_round_trip(
    m: Machine,
    address: u16,
    keys_call: Seq<bool>,
    keys_ret: Seq<bool>,
    random_call: u8,
    random_ret: u8,
)
    ensures
        m.executed(Instruction::Call(address), keys_call, random_call).pc == address,
        m.executed(Instruction::Call(address), keys_call, random_call).executed(
            Instruction::Ret,
            keys_ret,
            random_ret,
        ) == m,
{
    let called = m.executed(Instruction::Call(address), keys_call, random_call);
    let back = called.executed(Instruction::Ret, keys_ret, random_ret);
    assert(called.stack.drop_last() =~= m.stack);
    assert(back =~= m);
}

/// A return with an empty stack goes to address 0 and leaves the stack
/// empty.
pub proof fn law_ret_on_empty_stack(m: Machine, keys: Seq<bool>, random: u8)
    requires
        m.stack.len() == 0,
    ensures
        m.executed(Instruction::Ret, keys, random).pc == 0,
        m.executed(Instruction::Ret, keys, random).stack == m.stack,
{
}

/// Sprites are cut off at the edges, not wrapped round: a draw leaves every
/// pixel untouched that does not lie, within the display, in the eight
/// columns from `x0` and the rows from `y0` that the sprite has. So nothing
/// left of `x0` and nothing above `y0` ever changes.
pub proof fn law_draw_clips(display: Seq<Seq<Pixel>>, sprite: Seq<u8>, x0: int, y0: int)
    requires
        display.len() == 32,
        forall|r: int| 0 <= r < 32 ==> (#[trigger] display[r]).len() == 64,
    ensures
        forall|r: int, c: int|
            0 <= r < 32 && 0 <= c < 64 && !covers(sprite.len() as int, x0, y0, r, c) ==> (
            #[trigger] drawn(display, sprite, x0, y0)[r][c]) == display[r][c],
        forall|r: int, c: int|
            0 <= r < 32 && 0 <= c < 64 && (c < x0 || r < y0) ==> (#[trigger] drawn(
                display,
                sprite,
                x0,
                y0,
            )[r][c]) == display[r][c],
{
}

/// Drawing a sprite a second time at the same place takes it off again.
pub proof fn law_draw_twice_restores(display: Seq<Seq<Pixel>>, sprite: Seq<u8>, x0: int, y0: int)
    requires
        display.len() == 32,
        forall|r: int| 0 <= r < 32 ==> (#[trigger] display[r]).len() == 64,
    ensures
        drawn(drawn(display, sprite, x0, y0), sprite, x0, y0) == display,
{
    let once = drawn(display, sprite, x0, y0);
    let twice = drawn(once, sprite, x0, y0);
    assert forall|r: int| 0 <= r < 32 implies #[trigger] twice[r] =~= display[r] by {
        assert forall|c: int| 0 <= c < 64 implies twice[r][c] == display[r][c] by {
            assert(once[r][c] == Pixel::of_bool(
                display[r][c].lit() != sprite_at(sprite, x0, y0, r, c),
            ));
        }
    }
    assert(twice =~= display);
}

/// On a display with nothing lit no sprite collides; drawn a second time at
/// the same place it collides exactly where it has a set pixel within the
/// display.
pub proof fn law_draw_collision(sprite: Seq<u8>, x0: int, y0: int)
    ensures
        !collides(blank(), sprite, x0, y0),
        collides(drawn(blank(), sprite, x0, y0), sprite, x0, y0) <==> exists|r: int, c: int|
            0 <= r < 32 && 0 <= c < 64 && #[trigger] sprite_at(sprite, x0, y0, r, c),
{
    let once = drawn(blank(), sprite, x0, y0);
    assert forall|r: int, c: int| 0 <= r < 32 && 0 <= c < 64 implies !(#[trigger] blank()[r][c]).lit() by {}
    if collides(once, sprite, x0, y0) {
        let (r, c) = choose|r: int, c: int|
            0 <= r < 32 && 0 <= c < 64 && (#[trigger] once[r][c]).lit() && sprite_at(
                sprite,
                x0,
                y0,
                r,
                c,
            );
        assert(sprite_at(sprite, x0, y0, r, c));
    }
    if exists|r: int, c: int| 0 <= r < 32 && 0 <= c < 64 && #[trigger] sprite_at(sprite, x0, y0, r, c) {
        let (r, c) = choose|r: int, c: int|
            0 <= r < 32 && 0 <= c < 64 && #[trigger] sprite_at(sprite, x0, y0, r, c);
        assert(!blank()[r][c].lit());
        assert(once[r][c].lit());
    }
}

/// The number of instructions per timer decay is the sixtieth of the clock
/// speed, rounded to the nearest whole number and upwards from a half: sixty
/// times that number lies less than thirty below the clock speed and no more
/// than thirty above it.
pub proof fn law_ticks_per_decay_is_nearest(speed: u32)
    ensures
        -30 <= speed - 60 * ticks_per_decay(speed) < 30,
        speed % 60 == 0 ==> 60 * ticks_per_decay(speed) == speed,
{
}

/// The state after `n` ticks.
pub open spec fn ticked_times(m: Machine, n: nat) -> Machine
    decreases n,
{
    if n == 0 {
        m
    } else {
        ticked_times(m, (n - 1) as nat).ticked()
    }
}

/// Within one decay period the timers decay at most once: after `n` ticks,
/// `n` no more than the instructions per decay, the tick counter has either
/// gone up by `n` with the timers as they were, or has passed the period
/// once, with each timer decayed once.
pub proof fn lemma_ticks_within_period(m: Machine, n: nat)
    requires
        m.wf(),
        m.max_ticks > 0,
        n <= m.max_ticks,
    ensures
        m.ticker + n < m.max_ticks ==> ticked_times(m, n) == (Machine {
            ticker: (m.ticker + n) as u32,
            ..m
        }),
        m.ticker + n >= m.max_ticks ==> ticked_times(m, n) == (Machine {
            ticker: (m.ticker + n - m.max_ticks) as u32,
            delay_timer: decayed(m.delay_timer),
            sound_timer: decayed(m.sound_timer),
            ..m
        }),
    decreases n,
{
    if n > 0 {
        lemma_ticks_within_period(m, (n - 1) as nat);
    }
}

/// The timers decay once per period of the clock, whatever the clock speed
/// of 30 instructions per second or more: over as many ticks as there are
/// instructions per sixtieth of a second, each timer goes down by exactly one
/// and stops at zero, and the tick counter is back where it was. At 60
/// instructions per second that is every tick, at 600 every tenth.
pub proof fn law_timer_decay_rate(m: Machine)
    requires
        m.wf(),
        m.max_ticks > 0,
    ensures
        ticked_times(m, m.max_ticks as nat).delay_timer == decayed(m.delay_timer),
        ticked_times(m, m.max_ticks as nat).sound_timer == decayed(m.sound_timer),
        ticked_times(m, m.max_ticks as nat).ticker == m.ticker,
        m.max_ticks == 1 ==> m.ticked().delay_timer == decayed(m.delay_timer)
            && m.ticked().sound_timer == decayed(m.sound_timer),
{
    lemma_ticks_within_period(m, m.max_ticks as nat);
    assert(ticked_times(m, 1) == m.ticked()) by {
        assert(ticked_times(m, 0) == m);
    }
}

/// Going back by one instruction undoes going on by one, and the other way
/// round, everywhere in the address space, its two ends included.
pub proof fn law_rewind_undoes_advance(pc: u16)
    requires
        pc <= 0xFFF,
    ensures
        prev_pc(next_pc(pc)) == pc,
        next_pc(prev_pc(pc)) == pc,
        next_pc(pc) <= 0xFFF,
        prev_pc(pc) <= 0xFFF,
{
}

/// A wait for a key with no key down leaves the program counter, across the
/// whole step, where it was, wherever in the address space that is, and the
/// registers as they were: the same instruction is met again at the next
/// step. The timers go on decaying meanwhile.
pub proof fn law_key_wait_repeats(m: Machine, keys: Seq<bool>, random: u8, x: u8)
    requires
        m.wf(),
        m.can_step(keys),
        decoded(m.opcode()) == Some(Instruction::Key(x)),
        !any_pressed(keys),
    ensures
        m.stepped(keys, random).pc == m.pc,
        m.stepped(keys, random).registers == m.registers,
        m.stepped(keys, random) == (Machine { pc: m.pc, ..m.ticked() }),
{
}

/// A wait for a key with a key down puts the lowest key that is down into
/// the register and goes on to the next instruction.
pub proof fn law_key_wait_takes_lowest(m: Machine, keys: Seq<bool>, random: u8, x: u8)
    requires
        m.wf(),
        keys.len() == 16,
        m.can_step(keys),
        decoded(m.opcode()) == Some(Instruction::Key(x)),
        any_pressed(keys),
    ensures
        is_lowest_pressed(keys, m.stepped(keys, random).registers[x as int] as int),
        m.stepped(keys, random).pc == next_pc(m.pc),
{
    lemma_lowest_pressed(keys);
    lemma_decoded_wf(m.opcode());
}

/// Where one instruction makes a decay period, which it does from 30 to 89
/// instructions per second and so at 60, every step lowers both timers by
/// one, never below zero, unless the instruction of the step is the one that
/// sets that timer.
pub proof fn law_step_decays_timers(m: Machine, keys: Seq<bool>, random: u8)
    requires
        m.wf(),
        m.can_step(keys),
        m.max_ticks == 1,
    ensures
        !(decoded(m.opcode())->Some_0 is Setrd) ==> m.stepped(keys, random).delay_timer
            == decayed(m.delay_timer),
        !(decoded(m.opcode())->Some_0 is Setrs) ==> m.stepped(keys, random).sound_timer
            == decayed(m.sound_timer),
{
}

/// A step changes the display only through the two instructions that hand
/// it out: after any other instruction the display is what it was.
pub proof fn law_step_keeps_display(m: Machine, keys: Seq<bool>, random: u8)
    requires
        m.can_step(keys),
        !decoded(m.opcode())->Some_0.emits(),
    ensures
        m.stepped(keys, random).display == m.display,
{
}

/// After a step the program counter, the index register and every return
/// address on the stack lie within the twelve-bit address space.
pub proof fn law_step_stays_in_address_space(m: Machine, keys: Seq<bool>, random: u8)
    requires
        m.wf(),
        m.can_step(keys),
    ensures
        m.stepped(keys, random).pc <= 0xFFF,
        m.stepped(keys, random).index <= 0xFFF,
        forall|i: int|
            0 <= i < m.stepped(keys, random).stack.len() ==> #[trigger] m.stepped(
                keys,
                random,
            ).stack[i] <= 0xFFF,
{
    lemma_stepped_wf(m, keys, random);
}

/// The three bytes that the decimal conversion writes are the decimal digits
/// of the register, hundreds first.
pub proof fn law_bcd_digits(m: Machine, keys: Seq<bool>, random: u8, x: u8)
    requires
        m.wf(),
        m.can_execute(Instruction::Bcd(x), keys),
    ensures
        ({
            let after = m.executed(Instruction::Bcd(x), keys, random);
            let i = m.index as int;
            &&& after.memory[i] < 10
            &&& after.memory[i + 1] < 10
            &&& after.memory[i + 2] < 10
            &&& after.memory[i] * 100 + after.memory[i + 1] * 10 + after.memory[i + 2] == m.reg(
                x as int,
            )
            &&& forall|a: int|
                0 <= a < 4096 && !(i <= a < i + 3) ==> after.memory[a] == m.memory[a]
        }),
{
}

/// Storing the registers and loading them again from the same place gives
/// back the registers that were stored.
pub proof fn law_store_load_round_trip(
    m: Machine,
    keys: Seq<bool>,
    random: u8,
    x: u8,
)
    requires
        m.wf(),
        m.can_execute(Instruction::Store(x), keys),
    ensures
        m.executed(Instruction::Store(x), keys, random).executed(
            Instruction::Load(x),
            keys,
            random,
        ).registers == m.registers,
{
    let stored = m.executed(Instruction::Store(x), keys, random);
    let loaded = stored.executed(Instruction::Load(x), keys, random);
    assert(loaded.registers =~= m.registers);
}

} // verus!
