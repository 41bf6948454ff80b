use vstd::prelude::*;

use crate::cpu::{addr_after, fetch, key_down, step_state, CpuState, FLAG, MAX_JUMP};
use crate::opcode::{decode, lemma_decode_total, Opcode};

verus! {

/// Add-with-carry into a register other than the flag register: a sum up to
/// 255 is stored exactly with flag 0; a larger one is stored as 255 with
/// flag 1.
pub proof fn lemma_add_with_carry(s: CpuState, random: u8, keys: u16)
    requires
        s.wf(),
        decode(fetch(s)) is Addr,
        decode(fetch(s))->Addr_0 != FLAG,
    ensures
        ({
            let x = decode(fetch(s))->Addr_0;
            let y = decode(fetch(s))->Addr_1;
            let a = s.v[x as int];
            let b = s.v[y as int];
            let t = step_state(s, random, keys);
            &&& a + b <= 255 ==> t.v[x as int] == a + b && t.v[FLAG as int] == 0
            &&& a + b > 255 ==> t.v[x as int] == 255 && t.v[FLAG as int] == 1
        }),
{
    lemma_decode_total(fetch(s));
}

/// Subtract-with-borrow into a register other than the flag register: when
/// `b <= a` the difference is stored exactly with flag 0; otherwise 0 is
/// stored with flag 1.
pub proof fn lemma_sub_with_borrow(s: CpuState, random: u8, keys: u16)
    requires
        s.wf(),
        decode(fetch(s)) is Sub,
        decode(fetch(s))->Sub_0 != FLAG,
    ensures
        ({
            let x = decode(fetch(s))->Sub_0;
            let y = decode(fetch(s))->Sub_1;
            let a = s.v[x as int];
            let b = s.v[y as int];
            let t = step_state(s, random, keys);
            &&& b <= a ==> t.v[x as int] == a - b && t.v[FLAG as int] == 0
            &&& b > a ==> t.v[x as int] == 0 && t.v[FLAG as int] == 1
        }),
{
    lemma_decode_total(fetch(s));
}

/// Shift of a register other than the flag register: the register becomes
/// `(a << 1) mod 256` and the flag its former most significant bit.
pub proof fn lemma_shift(s: CpuState, random: u8, keys: u16)
    requires
        s.wf(),
        decode(fetch(s)) is Shr,
        decode(fetch(s))->Shr_0 != FLAG,
    ensures
        ({
            let x = decode(fetch(s))->Shr_0;
            let a = s.v[x as int];
            let t = step_state(s, random, keys);
            &&& t.v[x as int] == (a as int * 2) % 256
            &&& t.v[FLAG as int] == a / 128
        }),
{
    lemma_decode_total(fetch(s));
}

/// A skip instruction moves the program counter by two instruction widths
/// when its condition holds and by one otherwise.
pub proof fn lemma_skip(s: CpuState, random: u8, keys: u16)
    requires
        s.wf(),
    ensures
        ({
            let t = step_state(s, random, keys);
            let moved = |c: bool| addr_after(s.pc, if c { 4 } else { 2 });
            match decode(fetch(s)) {
                Opcode::Skeq(x, nn) => t.pc == moved(s.v[x as int] == nn),
                Opcode::Skne(x, nn) => t.pc == moved(s.v[x as int] != nn),
                Opcode::Skreq(x, y) => t.pc == moved(s.v[x as int] == s.v[y as int]),
                Opcode::Skrne(x, y) => t.pc == moved(s.v[x as int] != s.v[y as int]),
                Opcode::Skpr(x) => t.pc == moved(key_down(keys, s.v[x as int])),
                Opcode::Skup(x) => t.pc == moved(!key_down(keys, s.v[x as int])),
                _ => true,
            }
        }),
{
    lemma_decode_total(fetch(s));
}

/// A call below the stack's capacity followed by a return puts the program
/// counter on the instruction after the call and leaves the stack as it was.
pub proof fn lemma_call_return(s: CpuState, r1: u8, k1: u16, r2: u8, k2: u16)
    requires
        s.wf(),
        s.stack.len() < MAX_JUMP,
        decode(fetch(s)) is Call,
        decode(fetch(step_state(s, r1, k1))) is Ret,
    ensures
        step_state(s, r1, k1).pc == decode(fetch(s))->Call_0,
        step_state(step_state(s, r1, k1), r2, k2).pc == addr_after(s.pc, 2),
        step_state(step_state(s, r1, k1), r2, k2).stack == s.stack,
{
    lemma_decode_total(fetch(s));
    let t = step_state(s, r1, k1);
    assert(t.stack.drop_last() =~= s.stack);
}

/// A call on a full stack is dropped: the program counter moves past it and
/// the stack stays as it was.
pub proof fn lemma_call_full_stack(s: CpuState, random: u8, keys: u16)
    requires
        s.wf(),
        s.stack.len() == MAX_JUMP,
        decode(fetch(s)) is Call,
    ensures
        step_state(s, random, keys).pc == addr_after(s.pc, 2),
        step_state(s, random, keys).stack == s.stack,
{
}

/// Every step that does not set the sound counter counts it down by one
/// while it is above zero and leaves it at zero otherwise.
pub proof fn lemma_sound_counts_down(s: CpuState, random: u8, keys: u16)
    requires
        s.wf(),
        !(decode(fetch(s)) is Ldst),
    ensures
        step_state(s, random, keys).sound == if s.sound > 0 { s.sound - 1 } else { 0 },
{
    lemma_decode_total(fetch(s));
}

} // verus!
