//! Facts about loading, resetting and running that hold for every input.
use vstd::prelude::*;
use crate::cpu::{
    loaded, reset_spec, run_spec, step_spec, with_image, with_word, word_at, CpuError, CpuState,
    Step, CPU, MEMORY_SIZE, RESET_VECTOR, ROM_START, STEP_LIMIT,
};
use crate::interpret_from;
use crate::flags::{zero_negative_status, NEGATIVE_FLAG, ZERO_FLAG};

verus! {

/// Writing a word and reading it back at the same address gives the word,
/// for every address, the top one included.
pub proof fn lemma_word_round_trip(mem: Seq<u8>, addr: u16, value: u16)
    requires
        mem.len() == MEMORY_SIZE,
    ensures
        word_at(with_word(mem, addr, value), addr) == value,
{
}

/// A second reset right after a first one leaves the same state as the first:
/// registers and status zero, counter at the reset vector's target.
pub proof fn lemma_reset_idempotent(s: CpuState)
    ensures
        reset_spec(reset_spec(s)) == reset_spec(s),
        reset_spec(s).a == 0 && reset_spec(s).x == 0 && reset_spec(s).y == 0,
        reset_spec(s).status == 0,
        reset_spec(s).pc == word_at(s.mem, RESET_VECTOR),
        reset_spec(s).mem == s.mem,
{
}

/// After loading, the reset vector points at `ROM_START`.
pub proof fn lemma_loaded_reset_vector(s: CpuState, program: Seq<u8>)
    requires
        s.mem.len() == MEMORY_SIZE,
        program.len() <= 0x8000,
    ensures
        word_at(loaded(s, program).mem, RESET_VECTOR) == ROM_START,
        forall|i: int|
            0 <= i < program.len() && ROM_START + i < RESET_VECTOR ==> #[trigger] loaded(s, program).mem[ROM_START + i]
                == program[i],
{
    let m = with_image(s.mem, program);
    assert(with_word(m, RESET_VECTOR, ROM_START)[0xFFFC] == 0);
    assert(with_word(m, RESET_VECTOR, ROM_START)[0xFFFD] == 0x80);
}

/// Loading and running load-accumulator-immediate `v` followed by a break halts with
/// `v` in the accumulator, the zero flag set exactly when `v` is zero, and the
/// negative flag set exactly when bit 7 of `v` is set.
pub proof fn lemma_lda_immediate_run(s: CpuState, v: u8)
    requires
        s.mem.len() == MEMORY_SIZE,
    ensures
        ({
            let (t, r) = run_spec(reset_spec(loaded(s, seq![0xA9u8, v, 0x00u8])), STEP_LIMIT as nat);
            &&& r == Ok::<(), CpuError>(())
            &&& t.a == v
            &&& ((t.status & ZERO_FLAG != 0) <==> v == 0)
            &&& ((t.status & NEGATIVE_FLAG != 0) <==> (v & NEGATIVE_FLAG != 0))
        }),
{
    let program = seq![0xA9u8, v, 0x00u8];
    lemma_loaded_reset_vector(s, program);
    let s0 = reset_spec(loaded(s, program));
    assert(s0.pc == 0x8000);
    assert(s0.mem[0x8000] == program[0]);
    assert(s0.mem[0x8001] == program[1]);
    assert(s0.mem[0x8002] == program[2]);
    let status = zero_negative_status(0, v);
    let s1 = CpuState { a: v, status, pc: 0x8002, ..s0 };
    assert(step_spec(s0) == Step::Continue(s1));
    assert(step_spec(s1) == Step::Halt(CpuState { pc: 0x8003, ..s1 }));
    let fuel = STEP_LIMIT as nat;
    assert(run_spec(s0, fuel) == run_spec(s1, (fuel - 1) as nat));
    assert(run_spec(s1, (fuel - 1) as nat) == (CpuState { pc: 0x8003, ..s1 }, Ok::<(), CpuError>(())));
    assert(((status & 2 != 0) <==> v == 0) && ((status & 0x80 != 0) <==> (v & 0x80 != 0))) by (bit_vector)
        requires
            status == (0u8 & 0b0111_1101u8) | (if v == 0 { 2u8 } else { 0u8 }) | (v & 0x80u8),
    ;
}

/// For a processor in any state, loading and running load-accumulator-immediate `v`
/// followed by a break halts with `v` in the accumulator, the zero flag set exactly
/// when `v` is zero and the negative flag set exactly when bit 7 of `v` is set.
pub proof fn lemma_cpu_lda_immediate_run(cpu: &CPU, v: u8)
    ensures
        ({
            let (t, r) = run_spec(reset_spec(loaded(cpu.state(), seq![0xA9u8, v, 0x00u8])), STEP_LIMIT as nat);
            &&& r == Ok::<(), CpuError>(())
            &&& t.a == v
            &&& ((t.status & ZERO_FLAG != 0) <==> v == 0)
            &&& ((t.status & NEGATIVE_FLAG != 0) <==> (v & NEGATIVE_FLAG != 0))
        }),
{
    cpu.lemma_mem_len();
    lemma_lda_immediate_run(cpu.state(), v);
}

/// For a processor in any state, writing a word and reading it back at the same
/// address gives the word, and every other address keeps its byte.
pub proof fn lemma_cpu_word_round_trip(cpu: &CPU, addr: u16, value: u16)
    ensures
        word_at(with_word(cpu.state().mem, addr, value), addr) == value,
        forall|i: int|
            0 <= i < MEMORY_SIZE && i != addr && i != (addr as int + 1) % 0x10000
                ==> #[trigger] with_word(cpu.state().mem, addr, value)[i] == cpu.state().mem[i],
{
    cpu.lemma_mem_len();
    lemma_word_round_trip(cpu.state().mem, addr, value);
}

/// Bytes `0xA9, vs[0], 0xA9, vs[1], ..., 0xA9, vs[k - 1], 0x00`.
pub open spec fn is_lda_chain(program: Seq<u8>, vs: Seq<u8>) -> bool {
    &&& program.len() == 2 * vs.len() + 1
    &&& forall|i: int| 0 <= i < vs.len() ==> #[trigger] program[2 * i] == 0xA9u8 && program[2 * i + 1] == vs[i]
    &&& program[2 * vs.len() as int] == 0x00u8
}

proof fn lemma_lda_chain_from(a: u8, status: u8, j: int, vs: Seq<u8>, program: Seq<u8>)
    requires
        1 <= vs.len() <= 127,
        0 <= j < vs.len(),
        is_lda_chain(program, vs),
    ensures
        ({
            let (ra, rs, rpc, r) = interpret_from(a, status, (2 * j) as u8, program);
            &&& r == Ok::<(), CpuError>(())
            &&& ra == vs.last()
            &&& rpc == 2 * vs.len() + 1
            &&& ((rs & ZERO_FLAG != 0) <==> vs.last() == 0)
            &&& ((rs & NEGATIVE_FLAG != 0) <==> (vs.last() & NEGATIVE_FLAG != 0))
        }),
    decreases vs.len() - j,
{
    let v = vs[j];
    let st = zero_negative_status(status, v);
    assert(program[2 * j] == 0xA9u8 && program[2 * j + 1] == vs[j]);
    assert(interpret_from(a, status, (2 * j) as u8, program) == interpret_from(v, st, (2 * j + 2) as u8, program));
    if j + 1 < vs.len() {
        lemma_lda_chain_from(v, st, j + 1, vs, program);
    } else {
        assert(interpret_from(v, st, (2 * j + 2) as u8, program) == (v, st, (2 * j + 3) as u8, Ok::<(), CpuError>(())));
        assert(((st & 2 != 0) <==> v == 0) && ((st & 0x80 != 0) <==> (v & 0x80 != 0))) by (bit_vector)
            requires
                st == (status & 0b0111_1101u8) | (if v == 0 { 2u8 } else { 0u8 }) | (v & 0x80u8),
        ;
    }
}

/// Interpreting `k` load-accumulator-immediates (1 to 127 of them) and a break leaves
/// the last loaded value in the accumulator, its zero and negative flags in the status,
/// and the counter just past the break.
pub proof fn lemma_interpret_lda_chain(a: u8, status: u8, vs: Seq<u8>, program: Seq<u8>)
    requires
        1 <= vs.len() <= 127,
        is_lda_chain(program, vs),
    ensures
        ({
            let (ra, rs, rpc, r) = interpret_from(a, status, 0, program);
            &&& r == Ok::<(), CpuError>(())
            &&& ra == vs.last()
            &&& rpc == 2 * vs.len() + 1
            &&& ((rs & ZERO_FLAG != 0) <==> vs.last() == 0)
            &&& ((rs & NEGATIVE_FLAG != 0) <==> (vs.last() & NEGATIVE_FLAG != 0))
        }),
{
    lemma_lda_chain_from(a, status, 0, vs, program);
}

} // verus!
