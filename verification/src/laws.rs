use vstd::prelude::*;
use crate::error::VmError;
use crate::arith::{
    code_of_digit, digit_of_code, lemma_add_sub_cancel, lemma_wrap32_fits, sign_of_difference, wrap32,
};
use crate::instruction::{decode_spec, lemma_decode_opcode, opcode_of, Instruction};
use crate::machine::{execute_spec, run_spec, step_spec, Signal, State};
use crate::memory::{in_bounds, record_at};
use crate::registers::{valid_register, IO, PC};

verus! {

/// `Compare` leaves -1, 0 or 1 in its first register, and comparing the
/// same two values the other way round gives the negated result.
pub proof fn lemma_compare_antisymmetric(s: State, a: i32, b: i32)
    requires
        s.wf(),
        valid_register(a),
        valid_register(b),
    ensures
        execute_spec(s, Instruction::Compare, a, b) == Ok::<(State, Signal), VmError>(
            (s.with_reg(a, sign_of_difference(s.reg(a), s.reg(b))), Signal::Advance),
        ),
        -1 <= sign_of_difference(s.reg(a), s.reg(b)) <= 1,
        sign_of_difference(s.reg(a), s.reg(b)) == -sign_of_difference(s.reg(b), s.reg(a)),
{
}

/// Where the sum of the two registers fits in 32 bits, `Add` leaves exactly
/// that sum in the first register.
pub proof fn lemma_add_without_overflow(s: State, a: i32, b: i32)
    requires
        s.wf(),
        valid_register(a),
        valid_register(b),
        i32::MIN <= s.reg(a) + s.reg(b) <= i32::MAX,
    ensures
        execute_spec(s, Instruction::Add, a, b) matches Ok((t, signal)) && signal
            == Signal::Advance && t.reg(a) == s.reg(a) + s.reg(b),
{
    lemma_wrap32_fits(s.reg(a) + s.reg(b));
}

/// `Add` followed by `Subtract` on the same pair of distinct registers
/// leaves the machine as it was, whether or not the sum fits in 32 bits.
pub proof fn lemma_add_then_subtract(s: State, a: i32, b: i32)
    requires
        s.wf(),
        valid_register(a),
        valid_register(b),
        a != b,
    ensures
        execute_spec(s, Instruction::Add, a, b) is Ok,
        execute_spec(
            execute_spec(s, Instruction::Add, a, b)->Ok_0.0,
            Instruction::Subtract,
            a,
            b,
        ) == Ok::<(State, Signal), VmError>((s, Signal::Advance)),
{
    let x = s.reg(a);
    let y = s.reg(b);
    let t = s.with_reg(a, wrap32(x + y));
    lemma_add_sub_cancel(x, y);
    assert(t.with_reg(a, x) =~= s);
}

/// Converting the code of a decimal digit to its value and back gives the
/// code again; any other code is converted to -1, and any value that is not a
/// digit is converted to the code of `'0'`.
pub proof fn lemma_digit_round_trip(s: State, a: i32, b: i32)
    requires
        s.wf(),
    ensures
        execute_spec(s, Instruction::ConvertASCIIToInteger, a, b) is Ok,
        48 <= s.reg(IO) <= 57 ==> execute_spec(
            execute_spec(s, Instruction::ConvertASCIIToInteger, a, b)->Ok_0.0,
            Instruction::ConvertIntegerToASCII,
            a,
            b,
        ) == Ok::<(State, Signal), VmError>((s, Signal::Advance)),
        !(48 <= s.reg(IO) <= 57) ==> execute_spec(s, Instruction::ConvertASCIIToInteger, a, b)
            == Ok::<(State, Signal), VmError>((s.with_reg(IO, -1i32), Signal::Advance)),
        !(0 <= s.reg(IO) <= 9) ==> execute_spec(s, Instruction::ConvertIntegerToASCII, a, b)
            == Ok::<(State, Signal), VmError>((s.with_reg(IO, 48i32), Signal::Advance)),
{
    let code = s.reg(IO);
    let t = s.with_reg(IO, digit_of_code(code));
    if 48 <= code <= 57 {
        assert(code_of_digit(digit_of_code(code)) == code);
        assert(t.with_reg(IO, code) =~= s);
    }
}

/// Whether an instruction belongs to the jump family.
pub open spec fn is_jump(instruction: Instruction) -> bool {
    instruction == Instruction::Jump || instruction == Instruction::JumpRelative || instruction
        == Instruction::CompareZeroJump || instruction == Instruction::GreaterThanZeroJump
        || instruction == Instruction::LessThanZeroJump || instruction
        == Instruction::NonZeroJump
}

/// The target that a jump instruction names: its first operand for `Jump`,
/// the value of the register that its first operand names for
/// `JumpRelative`, its second operand for the conditional jumps.
pub open spec fn jump_target(s: State, instruction: Instruction, a: i32, b: i32) -> i32 {
    match instruction {
        Instruction::Jump => a,
        Instruction::JumpRelative => s.reg(a),
        _ => b,
    }
}

/// A jump instruction that succeeds either leaves the machine as it was, or
/// changes the program counter alone, to its target less one record width.
pub proof fn lemma_jump_changes_only_pc(s: State, instruction: Instruction, a: i32, b: i32)
    requires
        s.wf(),
        is_jump(instruction),
    ensures
        execute_spec(s, instruction, a, b) matches Ok((t, signal)) ==> (t == s && signal
            == Signal::Advance) || (signal == Signal::Jumped && t == s.with_reg(
            PC,
            wrap32(jump_target(s, instruction, a, b) - 12),
        )),
{
}

/// A `Jump` to `target` leaves `target - 12` in the program counter when it
/// is executed, and `target` itself once the turn of the loop is over: the
/// next record is fetched at `target`.
pub proof fn lemma_jump_lands_on_target(s: State, target: i32, b: i32)
    requires
        s.wf(),
        in_bounds(s.reg(PC), 12),
        record_at(s.mem, s.reg(PC) as int) == (opcode_of(Instruction::Jump), target, b),
    ensures
        execute_spec(s, Instruction::Jump, target, b) == Ok::<(State, Signal), VmError>(
            (s.with_reg(PC, wrap32(target - 12)), Signal::Jumped),
        ),
        step_spec(s) == Ok::<(State, Signal), VmError>((s.with_reg(PC, target), Signal::Jumped)),
{
    reveal(step_spec);
    lemma_decode_opcode(Instruction::Jump);
    let t = s.with_reg(PC, wrap32(target - 12));
    lemma_add_sub_cancel(target, 12i32);
    assert(t.with_reg(PC, target) =~= s.with_reg(PC, target));
}

/// Where the record at the program counter is an `End`, the turn of the
/// loop changes neither a register nor a byte of memory, and a run of any
/// positive number of steps stops right there with `Halt`.
pub proof fn lemma_end_halts(s: State, steps: nat)
    requires
        s.wf(),
        in_bounds(s.reg(PC), 12),
        record_at(s.mem, s.reg(PC) as int).0 == opcode_of(Instruction::End),
        steps > 0,
    ensures
        step_spec(s) == Ok::<(State, Signal), VmError>((s, Signal::Halt)),
        run_spec(s, steps) == (s, Ok::<Signal, VmError>(Signal::Halt)),
{
    reveal(step_spec);
    lemma_decode_opcode(Instruction::End);
}

/// After a `Jump` to `target` a run goes on from the state in which the
/// program counter is `target` and nothing else has changed: the next record
/// fetched is the one at `target`.
pub proof fn lemma_run_follows_jump(s: State, target: i32, b: i32, steps: nat)
    requires
        s.wf(),
        in_bounds(s.reg(PC), 12),
        record_at(s.mem, s.reg(PC) as int) == (opcode_of(Instruction::Jump), target, b),
        steps > 0,
    ensures
        run_spec(s, steps) == run_spec(s.with_reg(PC, target), (steps - 1) as nat),
{
    lemma_jump_lands_on_target(s, target, b);
}

/// Only `End` gives the signal `Halt`, and it leaves the state as it is.
pub proof fn lemma_halt_only_from_end(s: State, instruction: Instruction, a: i32, b: i32)
    ensures
        execute_spec(s, instruction, a, b) matches Ok((t, signal)) ==> (signal == Signal::Halt
            <==> instruction == Instruction::End) && (signal == Signal::Halt ==> t == s),
{
}

/// Whenever a run returns `Halt`, the machine stands at an `End` record:
/// the program counter holds that record's address, the state is the one in
/// which the `End` was fetched, and no record after it has been executed.
pub proof fn lemma_halt_means_end(s: State, steps: nat)
    requires
        run_spec(s, steps).1 == Ok::<Signal, VmError>(Signal::Halt),
    ensures
        in_bounds(run_spec(s, steps).0.reg(PC), 12),
        decode_spec(
            record_at(run_spec(s, steps).0.mem, run_spec(s, steps).0.reg(PC) as int).0,
        ) == Some(Instruction::End),
        step_spec(run_spec(s, steps).0) == Ok::<(State, Signal), VmError>(
            (run_spec(s, steps).0, Signal::Halt),
        ),
    decreases steps,
{
    if steps > 0 {
        match step_spec(s) {
            Err(_) => {},
            Ok((t, signal)) => {
                if signal == Signal::Advance || signal == Signal::Jumped {
                    lemma_halt_means_end(t, (steps - 1) as nat);
                } else {
                    reveal(step_spec);
                    let record = record_at(s.mem, s.reg(PC) as int);
                    lemma_halt_only_from_end(
                        s,
                        decode_spec(record.0).unwrap(),
                        record.1,
                        record.2,
                    );
                }
            },
        }
    }
}

/// Whenever a run returns an error, the state is the one in which the
/// failing turn began, and that turn fails with the same error: the failing
/// instruction has changed nothing and no later record has been executed.
pub proof fn lemma_error_means_failed_turn(s: State, steps: nat)
    requires
        run_spec(s, steps).1 is Err,
    ensures
        step_spec(run_spec(s, steps).0) == Err::<(State, Signal), VmError>(
            run_spec(s, steps).1->Err_0,
        ),
    decreases steps,
{
    if steps > 0 {
        match step_spec(s) {
            Err(_) => {},
            Ok((t, signal)) => {
                if signal == Signal::Advance || signal == Signal::Jumped {
                    lemma_error_means_failed_turn(t, (steps - 1) as nat);
                }
            },
        }
    }
}

/// A `Divide` whose divisor register holds zero fails the turn and the run
/// with `DivisionByZero`, and leaves every register and the memory as they
/// were.
pub proof fn lemma_divide_by_zero_fails(s: State, a: i32, b: i32, steps: nat)
    requires
        s.wf(),
        in_bounds(s.reg(PC), 12),
        record_at(s.mem, s.reg(PC) as int) == (opcode_of(Instruction::Divide), a, b),
        valid_register(a),
        valid_register(b),
        s.reg(b) == 0,
        steps > 0,
    ensures
        step_spec(s) == Err::<(State, Signal), VmError>(VmError::DivisionByZero { register: b }),
        run_spec(s, steps) == (
            s,
            Err::<Signal, VmError>(VmError::DivisionByZero { register: b }),
        ),
{
    reveal(step_spec);
    lemma_decode_opcode(Instruction::Divide);
}

/// Where no whole record lies at the address in the program counter, the
/// turn and the run fail with `OutOfBounds` at that address, and nothing
/// changes.
pub proof fn lemma_fetch_out_of_bounds(s: State, steps: nat)
    requires
        !in_bounds(s.reg(PC), 12),
        steps > 0,
    ensures
        step_spec(s) == Err::<(State, Signal), VmError>(
            VmError::OutOfBounds { address: s.reg(PC) },
        ),
        run_spec(s, steps) == (
            s,
            Err::<Signal, VmError>(VmError::OutOfBounds { address: s.reg(PC) }),
        ),
{
    reveal(step_spec);
}

/// Executing an instruction keeps the state well formed.
pub proof fn lemma_execute_keeps_wf(s: State, instruction: Instruction, a: i32, b: i32)
    requires
        s.wf(),
    ensures
        execute_spec(s, instruction, a, b) matches Ok((t, _)) ==> t.wf(),
{
}

/// A turn of the loop keeps the state well formed.
pub proof fn lemma_step_keeps_wf(s: State)
    requires
        s.wf(),
    ensures
        step_spec(s) matches Ok((t, _)) ==> t.wf(),
{
    reveal(step_spec);
    let record = record_at(s.mem, s.reg(PC) as int);
    if in_bounds(s.reg(PC), 12) {
        if let Some(instruction) = decode_spec(record.0) {
            lemma_execute_keeps_wf(s, instruction, record.1, record.2);
        }
    }
}

/// A run may be cut in two: running `first` steps and then, where that
/// stopped only because the steps were used up, `second` more, ends in the
/// state and with the result of one run of `first + second` steps.
pub proof fn lemma_run_in_two_parts(s: State, first: nat, second: nat)
    ensures
        run_spec(s, first + second) == if run_spec(s, first).1 == Ok::<Signal, VmError>(
            Signal::Advance,
        ) {
            run_spec(run_spec(s, first).0, second)
        } else {
            run_spec(s, first)
        },
    decreases first,
{
    if first > 0 {
        match step_spec(s) {
            Err(_) => {},
            Ok((t, signal)) => {
                if signal == Signal::Advance || signal == Signal::Jumped {
                    lemma_run_in_two_parts(t, (first - 1) as nat, second);
                    assert(run_spec(s, first + second) == run_spec(
                        t,
                        (first + second - 1) as nat,
                    ));
                    assert((first + second - 1) as nat == (first - 1) as nat + second);
                }
            },
        }
    }
}

/// A byte value stored with `StoreByte` from register `a` and loaded again
/// with `LoadByte` into register `r` from the same address arrives
/// unchanged.
pub proof fn lemma_store_then_load_byte(s: State, a: i32, r: i32, address: i32)
    requires
        s.wf(),
        valid_register(a),
        valid_register(r),
        in_bounds(address, 1),
        0 <= s.reg(a) <= 255,
    ensures
        execute_spec(s, Instruction::StoreByte, a, address) is Ok,
        execute_spec(
            execute_spec(s, Instruction::StoreByte, a, address)->Ok_0.0,
            Instruction::LoadByte,
            r,
            address,
        ) matches Ok((u, signal)) && signal == Signal::Advance && u.reg(r) == s.reg(a),
{
}

} // verus!
