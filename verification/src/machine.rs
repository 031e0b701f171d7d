//! A model of running the emitted WebAssembly instructions: values, a machine with
//! an operand stack, locals and a linear memory, and structured control flow. The
//! laws of the library's emitters are stated over this model.
//!
//! Floating-point arithmetic is not modelled; a 64-bit float is held as its bit
//! pattern, which loads and stores move unchanged.

use vstd::prelude::*;
use crate::instr::Instr;

verus! {

/// A value on the operand stack or in a local.
pub enum Val {
    I32(u32),
    I64(i64),
    F64(u64),
}

/// The state of a running function: its operand stack (top last), its locals and
/// its linear memory.
pub struct Machine {
    pub stack: Seq<Val>,
    pub locals: Map<u32, Val>,
    pub mem: Seq<u8>,
}

/// How running a stretch of code ends: it runs off the end of the code; it reaches
/// the `end` or `else` at position `i` that closes the enclosing construct; it
/// branches out by a depth; it returns; it traps; or it is stuck (an instruction
/// the model does not cover, malformed nesting, or the loop budget spent).
pub enum Outcome {
    Done(Machine),
    EndAt(int, Machine),
    Branch(nat, Machine),
    Returned(Machine),
    Trap,
    Stuck,
}

/// An `i32` flag: 1 for true, 0 for false.
pub open spec fn flag(b: bool) -> Val {
    Val::I32(if b { 1 } else { 0 })
}

/// A 32-bit value read as a signed integer.
pub open spec fn signed32(x: u32) -> int {
    if x >= 0x8000_0000 { x - 0x1_0000_0000 } else { x as int }
}

/// A 64-bit value read as an unsigned integer.
pub open spec fn unsigned64(x: i64) -> int {
    if x < 0 { x + 0x1_0000_0000_0000_0000 } else { x as int }
}

/// The unsigned little-endian number in the four bytes of `mem` from `a`.
pub open spec fn load_u32(mem: Seq<u8>, a: int) -> int {
    mem[a] + 0x100 * mem[a + 1] + 0x1_0000 * mem[a + 2] + 0x100_0000 * mem[a + 3]
}

/// The unsigned little-endian number in the eight bytes of `mem` from `a`.
pub open spec fn load_u64(mem: Seq<u8>, a: int) -> int {
    load_u32(mem, a) + 0x1_0000_0000 * load_u32(mem, a + 4)
}

/// The signed little-endian number in the eight bytes of `mem` from `a`.
pub open spec fn load_i64(mem: Seq<u8>, a: int) -> i64 {
    let u = load_u64(mem, a);
    if u >= 0x8000_0000_0000_0000 { (u - 0x1_0000_0000_0000_0000) as i64 } else { u as i64 }
}

/// Integer division rounding toward zero.
pub open spec fn div_toward_zero(x: int, y: int) -> int {
    let q = abs(x) / abs(y);
    if (x < 0) != (y < 0) { -q } else { q }
}

/// The absolute value of an integer.
pub open spec fn abs(x: int) -> int {
    if x < 0 { -x } else { x }
}

/// The result of a binary instruction on the operands `a` (below) and `b` (on top);
/// None where it traps or does not apply to them.
pub open spec fn binop(i: Instr, a: Val, b: Val) -> Option<Val> {
    match (a, b) {
        (Val::I32(x), Val::I32(y)) => match i {
            Instr::I32Add => Some(Val::I32((x + y) as u32)),
            Instr::I32Sub => Some(Val::I32((x - y) as u32)),
            Instr::I32Mul => Some(Val::I32((x * y) as u32)),
            Instr::I32And => Some(Val::I32(x & y)),
            Instr::I32Or => Some(Val::I32(x | y)),
            Instr::I32Eq => Some(flag(x == y)),
            Instr::I32Ne => Some(flag(x != y)),
            Instr::I32LtU => Some(flag(x < y)),
            Instr::I32GtU => Some(flag(x > y)),
            Instr::I32LeU => Some(flag(x <= y)),
            Instr::I32GeU => Some(flag(x >= y)),
            Instr::I32LtS => Some(flag(signed32(x) < signed32(y))),
            Instr::I32GtS => Some(flag(signed32(x) > signed32(y))),
            Instr::I32LeS => Some(flag(signed32(x) <= signed32(y))),
            Instr::I32GeS => Some(flag(signed32(x) >= signed32(y))),
            _ => None,
        },
        (Val::I64(x), Val::I64(y)) => match i {
            Instr::I64Add => Some(Val::I64((x + y) as i64)),
            Instr::I64Sub => Some(Val::I64((x - y) as i64)),
            Instr::I64Mul => Some(Val::I64((x * y) as i64)),
            Instr::I64DivS => if y == 0 || (x == i64::MIN && y == -1) {
                None
            } else {
                Some(Val::I64(div_toward_zero(x as int, y as int) as i64))
            },
            Instr::I64RemS => if y == 0 {
                None
            } else {
                Some(Val::I64((x - y * div_toward_zero(x as int, y as int)) as i64))
            },
            Instr::I64RemU => if y == 0 {
                None
            } else {
                Some(Val::I64((unsigned64(x) % unsigned64(y)) as i64))
            },
            Instr::I64Shl => Some(Val::I64(x << ((unsigned64(y) % 64) as u64))),
            Instr::I64ShrS => Some(Val::I64(x >> ((unsigned64(y) % 64) as u64))),
            Instr::I64And => Some(Val::I64(x & y)),
            Instr::I64Or => Some(Val::I64(x | y)),
            Instr::I64Xor => Some(Val::I64(x ^ y)),
            Instr::I64Eq => Some(flag(x == y)),
            Instr::I64Ne => Some(flag(x != y)),
            Instr::I64LtS => Some(flag(x < y)),
            Instr::I64GtS => Some(flag(x > y)),
            Instr::I64LeS => Some(flag(x <= y)),
            Instr::I64GeS => Some(flag(x >= y)),
            Instr::I64LtU => Some(flag(unsigned64(x) < unsigned64(y))),
            Instr::I64GtU => Some(flag(unsigned64(x) > unsigned64(y))),
            Instr::I64LeU => Some(flag(unsigned64(x) <= unsigned64(y))),
            Instr::I64GeU => Some(flag(unsigned64(x) >= unsigned64(y))),
            _ => None,
        },
        _ => None,
    }
}

/// Whether `i` takes two operands and leaves one result.
pub open spec fn is_binop(i: Instr) -> bool {
    match i {
        Instr::I32Add | Instr::I32Sub | Instr::I32Mul | Instr::I32And | Instr::I32Or | Instr::I32Eq | Instr::I32Ne
        | Instr::I32LtU | Instr::I32GtU | Instr::I32LeU | Instr::I32GeU | Instr::I32LtS | Instr::I32GtS
        | Instr::I32LeS | Instr::I32GeS | Instr::I64Add | Instr::I64Sub | Instr::I64Mul | Instr::I64DivS | Instr::I64RemS | Instr::I64RemU | Instr::I64Shl | Instr::I64ShrS
        | Instr::I64And | Instr::I64Or | Instr::I64Xor | Instr::I64Eq | Instr::I64Ne | Instr::I64LtS
        | Instr::I64GtS | Instr::I64LeS | Instr::I64GeS | Instr::I64LtU | Instr::I64GtU | Instr::I64LeU
        | Instr::I64GeU => true,
        _ => false,
    }
}

/// The result of a unary instruction on the operand `a`; None where it does not
/// apply.
pub open spec fn unop(i: Instr, a: Val) -> Option<Val> {
    match (i, a) {
        (Instr::I32Eqz, Val::I32(x)) => Some(flag(x == 0)),
        (Instr::I64Eqz, Val::I64(x)) => Some(flag(x == 0)),
        (Instr::I32WrapI64, Val::I64(x)) => Some(Val::I32(x as u32)),
        (Instr::I64ExtendI32U, Val::I32(x)) => Some(Val::I64(x as i64)),
        _ => None,
    }
}

/// Whether `i` takes one operand and leaves one result.
pub open spec fn is_unop(i: Instr) -> bool {
    match i {
        Instr::I32Eqz | Instr::I64Eqz | Instr::I32WrapI64 | Instr::I64ExtendI32U => true,
        _ => false,
    }
}

/// The value that a load instruction reads at address `p` plus its offset; None
/// where it reads outside memory or does not apply.
pub open spec fn load(i: Instr, mem: Seq<u8>, p: Val) -> Option<Val> {
    match (i, p) {
        (Instr::I32Load(a), Val::I32(x)) => if x + a.offset + 4 <= mem.len() {
            Some(Val::I32(load_u32(mem, x + a.offset) as u32))
        } else {
            None
        },
        (Instr::I64Load(a), Val::I32(x)) => if x + a.offset + 8 <= mem.len() {
            Some(Val::I64(load_i64(mem, x + a.offset)))
        } else {
            None
        },
        (Instr::F64Load(a), Val::I32(x)) => if x + a.offset + 8 <= mem.len() {
            Some(Val::F64(load_u64(mem, x + a.offset) as u64))
        } else {
            None
        },
        (Instr::I32Load8U(a), Val::I32(x)) => if x + a.offset + 1 <= mem.len() {
            Some(Val::I32(mem[x + a.offset] as u32))
        } else {
            None
        },
        _ => None,
    }
}

/// Whether `i` is a load.
pub open spec fn is_load(i: Instr) -> bool {
    match i {
        Instr::I32Load(_) | Instr::I64Load(_) | Instr::F64Load(_) | Instr::I32Load8U(_) => true,
        _ => false,
    }
}

/// The machine with `s` as its stack.
pub open spec fn with_stack(m: Machine, s: Seq<Val>) -> Machine {
    Machine { stack: s, locals: m.locals, mem: m.mem }
}

/// One instruction without control flow run on `m`: Ok with the next state,
/// Err(true) where it traps, Err(false) where the model does not cover it.
pub open spec fn step(i: Instr, m: Machine) -> Result<Machine, bool> {
    let s = m.stack;
    let n = s.len();
    match i {
        Instr::LocalGet(x) => if m.locals.contains_key(x) { Ok(with_stack(m, s.push(m.locals[x]))) } else { Err(false) },
        Instr::LocalSet(x) => if n >= 1 {
            Ok(Machine { stack: s.drop_last(), locals: m.locals.insert(x, s.last()), mem: m.mem })
        } else {
            Err(false)
        },
        Instr::LocalTee(x) => if n >= 1 {
            Ok(Machine { stack: s, locals: m.locals.insert(x, s.last()), mem: m.mem })
        } else {
            Err(false)
        },
        Instr::Drop => if n >= 1 { Ok(with_stack(m, s.drop_last())) } else { Err(false) },
        Instr::I32Const(c) => Ok(with_stack(m, s.push(Val::I32(c as u32)))),
        Instr::I64Const(c) => Ok(with_stack(m, s.push(Val::I64(c)))),
        _ => if is_binop(i) {
            if n >= 2 {
                match binop(i, s[n - 2], s[n - 1]) {
                    Some(v) => Ok(with_stack(m, s.subrange(0, n - 2).push(v))),
                    None => Err(true),
                }
            } else {
                Err(false)
            }
        } else if is_unop(i) {
            if n >= 1 {
                match unop(i, s[n - 1]) {
                    Some(v) => Ok(with_stack(m, s.drop_last().push(v))),
                    None => Err(true),
                }
            } else {
                Err(false)
            }
        } else if is_load(i) {
            if n >= 1 {
                match load(i, m.mem, s[n - 1]) {
                    Some(v) => Ok(with_stack(m, s.drop_last().push(v))),
                    None => Err(true),
                }
            } else {
                Err(false)
            }
        } else {
            Err(false)
        },
    }
}

/// The position of the `end` or `else` that closes the construct open at `i`,
/// where `depth` constructs opened since are still open; `code.len()` where none
/// does.
pub open spec fn scan_end(code: Seq<Instr>, i: int, depth: nat) -> int
    decreases code.len() - i,
{
    if i < 0 || i >= code.len() {
        code.len() as int
    } else {
        match code[i] {
            Instr::Block(_) => scan_end(code, i + 1, depth + 1),
            Instr::Loop(_) => scan_end(code, i + 1, depth + 1),
            Instr::If(_) => scan_end(code, i + 1, depth + 1),
            Instr::End => if depth == 0 { i } else { scan_end(code, i + 1, (depth - 1) as nat) },
            Instr::Else => if depth == 0 { i } else { scan_end(code, i + 1, depth) },
            _ => scan_end(code, i + 1, depth),
        }
    }
}

/// Run `code` from position `i` on `m`, with `fuel` further loop iterations
/// allowed: instructions run in order; a block, loop or if runs its body, a branch
/// by depth 0 leaving a block or if for its `end` and going back to the start of a
/// loop; `if` takes its first arm where the condition is not zero, else the `else`
/// arm where there is one; `br_if` branches where its condition is not zero.
pub open spec fn exec(code: Seq<Instr>, i: int, m: Machine, fuel: nat) -> Outcome
    decreases fuel, code.len() - i,
{
    if i < 0 || i >= code.len() {
        Outcome::Done(m)
    } else {
        match code[i] {
            Instr::End => Outcome::EndAt(i, m),
            Instr::Else => Outcome::EndAt(i, m),
            Instr::Block(_) => match exec(code, i + 1, m, fuel) {
                Outcome::EndAt(j, m2) => if i < j < code.len() && code[j] is End {
                    exec(code, j + 1, m2, fuel)
                } else {
                    Outcome::Stuck
                },
                Outcome::Branch(n, m2) => if n == 0 {
                    let j = scan_end(code, i + 1, 0);
                    if i < j < code.len() && code[j] is End { exec(code, j + 1, m2, fuel) } else { Outcome::Stuck }
                } else {
                    Outcome::Branch((n - 1) as nat, m2)
                },
                Outcome::Done(_) => Outcome::Stuck,
                r => r,
            },
            Instr::Loop(_) => match exec(code, i + 1, m, fuel) {
                Outcome::EndAt(j, m2) => if i < j < code.len() && code[j] is End {
                    exec(code, j + 1, m2, fuel)
                } else {
                    Outcome::Stuck
                },
                Outcome::Branch(n, m2) => if n == 0 {
                    if fuel == 0 { Outcome::Stuck } else { exec(code, i, m2, (fuel - 1) as nat) }
                } else {
                    Outcome::Branch((n - 1) as nat, m2)
                },
                Outcome::Done(_) => Outcome::Stuck,
                r => r,
            },
            Instr::If(_) => if m.stack.len() >= 1 && m.stack.last() is I32 {
                let c = m.stack.last()->I32_0;
                let m1 = with_stack(m, m.stack.drop_last());
                let e = scan_end(code, i + 1, 0);
                if !(i < e < code.len()) {
                    Outcome::Stuck
                } else {
                    let k = if code[e] is Else { scan_end(code, e + 1, 0) } else { e };
                    if !(e <= k < code.len() && code[k] is End) {
                        Outcome::Stuck
                    } else if c != 0 {
                        match exec(code, i + 1, m1, fuel) {
                            Outcome::EndAt(j, m2) => if j == e { exec(code, k + 1, m2, fuel) } else { Outcome::Stuck },
                            Outcome::Branch(n, m2) => if n == 0 {
                                exec(code, k + 1, m2, fuel)
                            } else {
                                Outcome::Branch((n - 1) as nat, m2)
                            },
                            Outcome::Done(_) => Outcome::Stuck,
                            r => r,
                        }
                    } else if code[e] is Else {
                        match exec(code, e + 1, m1, fuel) {
                            Outcome::EndAt(j, m2) => if j == k { exec(code, k + 1, m2, fuel) } else { Outcome::Stuck },
                            Outcome::Branch(n, m2) => if n == 0 {
                                exec(code, k + 1, m2, fuel)
                            } else {
                                Outcome::Branch((n - 1) as nat, m2)
                            },
                            Outcome::Done(_) => Outcome::Stuck,
                            r => r,
                        }
                    } else {
                        exec(code, k + 1, m1, fuel)
                    }
                }
            } else {
                Outcome::Stuck
            },
            Instr::Br(n) => Outcome::Branch(n as nat, m),
            Instr::BrIf(n) => if m.stack.len() >= 1 && m.stack.last() is I32 {
                let m1 = with_stack(m, m.stack.drop_last());
                if m.stack.last()->I32_0 != 0 { Outcome::Branch(n as nat, m1) } else { exec(code, i + 1, m1, fuel) }
            } else {
                Outcome::Stuck
            },
            Instr::Unreachable => Outcome::Trap,
            Instr::Return => Outcome::Returned(m),
            _ => match step(code[i], m) {
                Ok(m2) => exec(code, i + 1, m2, fuel),
                Err(t) => if t { Outcome::Trap } else { Outcome::Stuck },
            },
        }
    }
}

/// Whether `o` is a normal end that leaves the value `v` on the stack of `m`, with
/// the memory unchanged.
pub open spec fn leaves(o: Outcome, m: Machine, v: Val) -> bool {
    o matches Outcome::Done(m2) && m2.stack == m.stack.push(v) && m2.mem == m.mem
}

/// Running `code` from its start: the outcome of `exec` at position 0.
pub open spec fn run(code: Seq<Instr>, m: Machine, fuel: nat) -> Outcome {
    exec(code, 0, m, fuel)
}

/// Whether `i` is no control instruction: it runs by `step` and goes on to the
/// next instruction.
pub open spec fn is_plain(i: Instr) -> bool {
    !(i is End || i is Else || i is Block || i is Loop || i is If || i is Br || i is BrIf || i is Unreachable
        || i is Return)
}

/// Running instructions without control flow in order: the final state, or None
/// where one traps, is not covered, or is a control instruction.
pub open spec fn straight(code: Seq<Instr>, m: Machine) -> Option<Machine>
    decreases code.len(),
{
    if code.len() == 0 {
        Some(m)
    } else if !is_plain(code[0]) {
        None
    } else {
        match step(code[0], m) {
            Ok(m2) => straight(code.drop_first(), m2),
            Err(_) => None,
        }
    }
}

/// Running instructions in order is running a first part, then the rest.
pub proof fn lemma_straight_append(a: Seq<Instr>, b: Seq<Instr>, m: Machine)
    ensures
        straight(a + b, m) == match straight(a, m) {
            Some(m2) => straight(b, m2),
            None => None,
        },
    decreases a.len(),
{
    if a.len() > 0 {
        assert((a + b).drop_first() =~= a.drop_first() + b);
        assert((a + b)[0] == a[0]);
        if is_plain(a[0]) {
            if let Ok(m2) = step(a[0], m) {
                lemma_straight_append(a.drop_first(), b, m2);
            }
        }
    } else {
        assert(a + b =~= b);
    }
}

/// Where the `k` instructions of `code` from `i` run without control flow, running
/// from `i` is running from `i + k` on the state they leave.
pub proof fn lemma_straight(code: Seq<Instr>, i: int, k: int, m: Machine, fuel: nat)
    requires
        0 <= i,
        0 <= k,
        i + k <= code.len(),
        straight(code.subrange(i, i + k), m) is Some,
    ensures
        exec(code, i, m, fuel) == exec(code, i + k, straight(code.subrange(i, i + k), m).unwrap(), fuel),
    decreases k,
{
    if k > 0 {
        let s = code.subrange(i, i + k);
        assert(s[0] == code[i]);
        assert(s.drop_first() =~= code.subrange(i + 1, i + k));
        let m1 = step(code[i], m)->Ok_0;
        lemma_straight(code, i + 1, k - 1, m1, fuel);
    } else {
        assert(code.subrange(i, i) =~= Seq::<Instr>::empty());
    }
}

/// Bitwise and and or of two flags are the flags of conjunction and disjunction.
pub proof fn lemma_flag_and_or(p: bool, q: bool)
    ensures
        binop(Instr::I32And, flag(p), flag(q)) == Some(flag(p && q)),
        binop(Instr::I32Or, flag(p), flag(q)) == Some(flag(p || q)),
{
    assert(1u32 & 1u32 == 1u32) by (bit_vector);
    assert(1u32 & 0u32 == 0u32) by (bit_vector);
    assert(0u32 & 1u32 == 0u32) by (bit_vector);
    assert(0u32 & 0u32 == 0u32) by (bit_vector);
    assert(1u32 | 1u32 == 1u32) by (bit_vector);
    assert(1u32 | 0u32 == 1u32) by (bit_vector);
    assert(0u32 | 1u32 == 1u32) by (bit_vector);
    assert(0u32 | 0u32 == 0u32) by (bit_vector);
}

/// An instruction without control flow runs by `step` and goes on to the next.
pub proof fn lemma_exec_plain(code: Seq<Instr>, i: int, m: Machine, fuel: nat)
    requires
        0 <= i < code.len(),
        is_plain(code[i]),
    ensures
        exec(code, i, m, fuel) == match step(code[i], m) {
            Ok(m2) => exec(code, i + 1, m2, fuel),
            Err(t) => if t { Outcome::Trap } else { Outcome::Stuck },
        },
{
}

/// An `if` whose condition is zero and which has no `else` goes on after its `end`
/// at `e`.
pub proof fn lemma_if_false(code: Seq<Instr>, i: int, m: Machine, fuel: nat, e: int)
    requires
        0 <= i < code.len(),
        code[i] is If,
        m.stack.len() >= 1,
        m.stack.last() == Val::I32(0),
        scan_end(code, i + 1, 0) == e,
        i < e < code.len(),
        code[e] is End,
    ensures
        exec(code, i, m, fuel) == exec(code, e + 1, with_stack(m, m.stack.drop_last()), fuel),
{
}

/// An `if` whose condition is zero and which has an `else` at `e` and its `end` at
/// `k` runs its `else` arm, then goes on after `k`.
pub proof fn lemma_if_else(code: Seq<Instr>, i: int, m: Machine, fuel: nat, e: int, k: int)
    requires
        0 <= i < code.len(),
        code[i] is If,
        m.stack.len() >= 1,
        m.stack.last() == Val::I32(0),
        scan_end(code, i + 1, 0) == e,
        i < e < code.len(),
        code[e] is Else,
        scan_end(code, e + 1, 0) == k,
        e < k < code.len(),
        code[k] is End,
    ensures
        exec(code, i, m, fuel) == match exec(code, e + 1, with_stack(m, m.stack.drop_last()), fuel) {
            Outcome::EndAt(j, m2) => if j == k { exec(code, k + 1, m2, fuel) } else { Outcome::Stuck },
            Outcome::Branch(n, m2) => if n == 0 { exec(code, k + 1, m2, fuel) } else { Outcome::Branch((n - 1) as nat, m2) },
            Outcome::Done(_) => Outcome::Stuck,
            r => r,
        },
{
}

/// An `if` whose condition is not zero, whose first arm closes at `e` and which
/// ends at `k`, runs its first arm, then goes on after `k`.
pub proof fn lemma_if_true(code: Seq<Instr>, i: int, m: Machine, fuel: nat, e: int, k: int)
    requires
        0 <= i < code.len(),
        code[i] is If,
        m.stack.len() >= 1,
        m.stack.last() matches Val::I32(c) && c != 0,
        scan_end(code, i + 1, 0) == e,
        i < e < code.len(),
        k == (if code[e] is Else { scan_end(code, e + 1, 0) } else { e }),
        e <= k < code.len(),
        code[k] is End,
    ensures
        exec(code, i, m, fuel) == match exec(code, i + 1, with_stack(m, m.stack.drop_last()), fuel) {
            Outcome::EndAt(j, m2) => if j == e { exec(code, k + 1, m2, fuel) } else { Outcome::Stuck },
            Outcome::Branch(n, m2) => if n == 0 { exec(code, k + 1, m2, fuel) } else { Outcome::Branch((n - 1) as nat, m2) },
            Outcome::Done(_) => Outcome::Stuck,
            r => r,
        },
{
}

/// Instructions that open or close no construct leave the search for a closing
/// `end` or `else` unchanged.
pub proof fn lemma_scan_skip(code: Seq<Instr>, i: int, k: int, depth: nat)
    requires
        0 <= i,
        0 <= k,
        i + k <= code.len(),
        forall|j: int| i <= j < i + k ==> !(#[trigger] code[j] is End || code[j] is Else || code[j] is Block
            || code[j] is Loop || code[j] is If),
    ensures
        scan_end(code, i, depth) == scan_end(code, i + k, depth),
    decreases k,
{
    if k > 0 {
        lemma_scan_skip(code, i + 1, k - 1, depth);
    }
}

} // verus!
