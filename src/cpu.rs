//! The processor: registers, the 64 KiB memory bus, the addressing-mode resolver,
//! the instruction handlers and the fetch-decode-execute loop.
use vstd::prelude::*;
use crate::flags::{update_zero_and_negative_flags, zero_negative_status};
use crate::opcodes::{lookup, opcode_table, Mnemonic};

verus! {

/// Number of addressable bytes.
pub const MEMORY_SIZE: usize = 0x10000;

/// How an instruction finds the address it operates on.
#[derive(Debug, Clone, Copy, PartialEq, Eq, Structural)]
#[allow(non_camel_case_types)]
pub enum AddressingMode {
    Immediate,
    ZeroPage,
    ZeroPage_X,
    ZeroPage_Y,
    Absolute,
    Absolute_X,
    Absolute_Y,
    Indirect_X,
    Indirect_Y,
    NoneAddressing,
}

/// The mathematical state of a `CPU`.
pub struct CpuState {
    pub a: u8,
    pub x: u8,
    pub y: u8,
    pub status: u8,
    pub pc: u16,
    /// The whole address space, `MEMORY_SIZE` bytes.
    pub mem: Seq<u8>,
}

/// The address after `addr`, wrapping at the top of memory.
pub open spec fn next_addr(addr: u16) -> u16 {
    ((addr as int + 1) % 0x10000) as u16
}

/// The little-endian word at `addr`: low byte at `addr`, high byte at the next address.
pub open spec fn word_at(mem: Seq<u8>, addr: u16) -> u16 {
    (mem[addr as int] as int + 256 * mem[next_addr(addr) as int] as int) as u16
}

/// `mem` with the little-endian bytes of `value` written at `addr` and the next address.
pub open spec fn with_word(mem: Seq<u8>, addr: u16, value: u16) -> Seq<u8> {
    mem.update(addr as int, (value % 256) as u8).update(next_addr(addr) as int, (value / 256) as u8)
}

/// First address of the region that holds a loaded program image.
pub const ROM_START: u16 = 0x8000;

/// Where the little-endian reset vector is stored.
pub const RESET_VECTOR: u16 = 0xFFFC;

/// Largest program image that fits between `ROM_START` and the end of memory.
pub const MAX_PROGRAM_LEN: usize = 0x8000;

/// Number of steps after which `run` gives up.
pub const STEP_LIMIT: u64 = 0xFFFF_FFFF_FFFF_FFFF;

/// Why execution stopped without reaching a break.
#[derive(Debug, Clone, Copy, PartialEq, Eq, Structural)]
pub enum CpuError {
    /// The byte `opcode`, fetched at `address`, is in no table entry.
    UnrecognizedOpcode { opcode: u8, address: u16 },
    /// The instruction at `address` reaches past the program image.
    ProgramOverrun { address: u16 },
    /// The step budget ran out before a break.
    StepLimitReached,
}

/// The 16-bit word at zero-page pointer `ptr`; the high byte's address wraps within page zero.
pub open spec fn zero_page_word(mem: Seq<u8>, ptr: u8) -> u16 {
    (mem[ptr as int] as int + 256 * mem[(ptr as int + 1) % 256] as int) as u16
}

/// The effective address that `mode` gives in state `s`, whose counter points at the
/// instruction's first operand byte. `NoneAddressing` resolves nothing; the resolver
/// refuses it, so the value given for it is never used.
pub open spec fn operand_address(s: CpuState, mode: AddressingMode) -> u16 {
    let operand = s.mem[s.pc as int];
    match mode {
        AddressingMode::Immediate => s.pc,
        AddressingMode::ZeroPage => operand as u16,
        AddressingMode::ZeroPage_X => ((operand as int + s.x as int) % 256) as u16,
        AddressingMode::ZeroPage_Y => ((operand as int + s.y as int) % 256) as u16,
        AddressingMode::Absolute => word_at(s.mem, s.pc),
        AddressingMode::Absolute_X => ((word_at(s.mem, s.pc) as int + s.x as int) % 0x10000) as u16,
        AddressingMode::Absolute_Y => ((word_at(s.mem, s.pc) as int + s.y as int) % 0x10000) as u16,
        AddressingMode::Indirect_X => zero_page_word(s.mem, ((operand as int + s.x as int) % 256) as u8),
        AddressingMode::Indirect_Y => ((zero_page_word(s.mem, operand) as int + s.y as int) % 0x10000) as u16,
        AddressingMode::NoneAddressing => 0,
    }
}

/// The effect of the handler for `mnemonic` on `s` (counter at the first operand byte).
/// A break has no effect of its own: it ends execution.
pub open spec fn execute(s: CpuState, mnemonic: Mnemonic, mode: AddressingMode) -> CpuState {
    match mnemonic {
        Mnemonic::LDA => {
            let v = s.mem[operand_address(s, mode) as int];
            CpuState { a: v, status: zero_negative_status(s.status, v), ..s }
        },
        Mnemonic::STA => CpuState { mem: s.mem.update(operand_address(s, mode) as int, s.a), ..s },
        Mnemonic::TAX => CpuState { x: s.a, status: zero_negative_status(s.status, s.a), ..s },
        Mnemonic::INX => {
            let v = ((s.x as int + 1) % 256) as u8;
            CpuState { x: v, status: zero_negative_status(s.status, v), ..s }
        },
        Mnemonic::BRK => s,
    }
}

/// The outcome of one fetch-decode-execute step.
pub enum Step {
    /// An instruction ran; execution goes on from this state.
    Continue(CpuState),
    /// A break was decoded; this is the final state.
    Halt(CpuState),
    /// Decoding failed; the state is unchanged.
    Fault(CpuError),
}

/// One step from `s`: fetch the opcode at the counter, decode it, run its handler,
/// then move the counter past the operand bytes.
pub open spec fn step_spec(s: CpuState) -> Step {
    let code = s.mem[s.pc as int];
    match opcode_table(code) {
        None => Step::Fault(CpuError::UnrecognizedOpcode { opcode: code, address: s.pc }),
        Some(op) => {
            let fetched = CpuState { pc: next_addr(s.pc), ..s };
            if op.mnemonic == Mnemonic::BRK {
                Step::Halt(fetched)
            } else {
                let t = execute(fetched, op.mnemonic, op.mode);
                Step::Continue(CpuState { pc: ((t.pc as int + op.len as int - 1) % 0x10000) as u16, ..t })
            }
        },
    }
}

/// The final state and result of running from `s` for at most `fuel` steps.
pub open spec fn run_spec(s: CpuState, fuel: nat) -> (CpuState, Result<(), CpuError>)
    decreases fuel,
{
    if fuel == 0 {
        (s, Err(CpuError::StepLimitReached))
    } else {
        match step_spec(s) {
            Step::Continue(t) => run_spec(t, (fuel - 1) as nat),
            Step::Halt(t) => (t, Ok(())),
            Step::Fault(e) => (s, Err(e)),
        }
    }
}

/// `mem` with `image` copied to the addresses from `ROM_START` on.
pub open spec fn with_image(mem: Seq<u8>, image: Seq<u8>) -> Seq<u8> {
    Seq::new(
        mem.len(),
        |i: int|
            if ROM_START <= i < ROM_START + image.len() {
                image[i - ROM_START]
            } else {
                mem[i]
            },
    )
}

/// `s` after loading `program`: the image at `ROM_START`, the reset vector pointing at it.
pub open spec fn loaded(s: CpuState, program: Seq<u8>) -> CpuState {
    CpuState { mem: with_word(with_image(s.mem, program), RESET_VECTOR, ROM_START), ..s }
}

/// `s` after a reset: registers and status zero, counter from the reset vector.
pub open spec fn reset_spec(s: CpuState) -> CpuState {
    CpuState { a: 0, x: 0, y: 0, status: 0, pc: word_at(s.mem, RESET_VECTOR), mem: s.mem }
}

/// The processor and the memory it owns.
pub struct CPU {
    pub register_a: u8,
    pub register_x: u8,
    pub register_y: u8,
    pub status: u8,
    pub program_counter: u16,
    memory: [u8; 65536],
}

impl CPU {
    /// The memory contents.
    pub closed spec fn mem(&self) -> Seq<u8> {
        self.memory@
    }

    /// Registers, status, counter and memory as one value.
    pub closed spec fn state(&self) -> CpuState {
        CpuState {
            a: self.register_a,
            x: self.register_x,
            y: self.register_y,
            status: self.status,
            pc: self.program_counter,
            mem: self.mem(),
        }
    }

    /// Memory always holds `MEMORY_SIZE` bytes, and `state` describes it.
    pub proof fn lemma_mem_len(&self)
        ensures
            self.mem().len() == MEMORY_SIZE,
            self.state().mem == self.mem(),
            self.state().mem.len() == MEMORY_SIZE,
    {
    }

    /// A processor with zeroed registers, status, counter and memory.
    pub fn new() -> (r: CPU)
        ensures
            r.state() == (CpuState {
                a: 0,
                x: 0,
                y: 0,
                status: 0,
                pc: 0,
                mem: Seq::new(MEMORY_SIZE as nat, |i: int| 0u8),
            }),
    {
        let r = CPU {
            register_a: 0,
            register_x: 0,
            register_y: 0,
            status: 0,
            program_counter: 0,
            memory: [0u8; 65536],
        };
        assert(r.mem() =~= Seq::new(MEMORY_SIZE as nat, |i: int| 0u8));
        r
    }

    /// The byte at `addr`.
    pub fn mem_read(&self, addr: u16) -> (r: u8)
        ensures
            r == self.state().mem[addr as int],
    {
        self.memory[addr as usize]
    }

    /// Writes `data` at `addr`; nothing else changes.
    pub fn mem_write(&mut self, addr: u16, data: u8)
        ensures
            final(self).state() == (CpuState { mem: old(self).state().mem.update(addr as int, data), ..old(self).state() }),
    {
        self.memory[addr as usize] = data;
    }

    /// The little-endian word at `addr`.
    pub fn mem_read_u16(&self, addr: u16) -> (r: u16)
        ensures
            r == word_at(self.state().mem, addr),
    {
        let high = self.mem_read(addr.wrapping_add(1)) as u16;
        let low = self.mem_read(addr) as u16;
        assert((high << 8) | low == low + 256 * high) by (bit_vector)
            requires
                high < 256,
                low < 256,
        ;
        (high << 8) | low
    }

    /// Writes `data` at `addr` in little-endian order; nothing else changes.
    pub fn mem_write_u16(&mut self, addr: u16, data: u16)
        ensures
            final(self).state() == (CpuState { mem: with_word(old(self).state().mem, addr, data), ..old(self).state() }),
    {
        let high = (data >> 8) as u8;
        let low = (data & 0xFF) as u8;
        assert(high == data / 256 && low == data % 256) by (bit_vector)
            requires
                high == (data >> 8) as u8,
                low == (data & 0xFF) as u8,
        ;
        self.mem_write(addr, low);
        self.mem_write(addr.wrapping_add(1), high);
    }
    /// The effective address for `mode`, the counter pointing at the first operand byte.
    pub fn get_operand_address(&self, mode: &AddressingMode) -> (r: u16)
        requires
            *mode != AddressingMode::NoneAddressing,
        ensures
            r == operand_address(self.state(), *mode),
    {
        let pc = self.program_counter;
        match mode {
            AddressingMode::Immediate => pc,
            AddressingMode::ZeroPage => self.mem_read(pc) as u16,
            AddressingMode::Absolute => self.mem_read_u16(pc),
            AddressingMode::ZeroPage_X => {
                let pos = self.mem_read(pc);
                pos.wrapping_add(self.register_x) as u16
            },
            AddressingMode::ZeroPage_Y => {
                let pos = self.mem_read(pc);
                pos.wrapping_add(self.register_y) as u16
            },
            AddressingMode::Absolute_X => {
                let base = self.mem_read_u16(pc);
                base.wrapping_add(self.register_x as u16)
            },
            AddressingMode::Absolute_Y => {
                let base = self.mem_read_u16(pc);
                base.wrapping_add(self.register_y as u16)
            },
            AddressingMode::Indirect_X => {
                let base = self.mem_read(pc);
                let ptr = base.wrapping_add(self.register_x);
                self.read_zero_page_word(ptr)
            },
            AddressingMode::Indirect_Y => {
                let base = self.mem_read(pc);
                let deref = self.read_zero_page_word(base);
                deref.wrapping_add(self.register_y as u16)
            },
            AddressingMode::NoneAddressing => 0,
        }
    }

    /// The word at zero-page pointer `ptr`, its high byte's address wrapping within page zero.
    fn read_zero_page_word(&self, ptr: u8) -> (r: u16)
        ensures
            r == zero_page_word(self.state().mem, ptr),
    {
        let lo = self.mem_read(ptr as u16) as u16;
        let hi = self.mem_read(ptr.wrapping_add(1) as u16) as u16;
        assert((hi << 8) | lo == lo + 256 * hi) by (bit_vector)
            requires
                hi < 256,
                lo < 256,
        ;
        (hi << 8) | lo
    }

    /// Sets the zero and negative flags from `result`.
    fn update_zero_and_negative_flags(&mut self, result: u8)
        ensures
            final(self).state() == (CpuState {
                status: zero_negative_status(old(self).status, result),
                ..old(self).state()
            }),
    {
        self.status = update_zero_and_negative_flags(self.status, result);
    }

    /// Load accumulator from the effective address.
    fn lda(&mut self, mode: &AddressingMode)
        requires
            *mode != AddressingMode::NoneAddressing,
        ensures
            final(self).state() == execute(old(self).state(), Mnemonic::LDA, *mode),
    {
        let addr = self.get_operand_address(mode);
        let value = self.mem_read(addr);
        self.register_a = value;
        self.update_zero_and_negative_flags(self.register_a);
    }

    /// Store accumulator at the effective address.
    fn sta(&mut self, mode: &AddressingMode)
        requires
            *mode != AddressingMode::NoneAddressing,
        ensures
            final(self).state() == execute(old(self).state(), Mnemonic::STA, *mode),
    {
        let addr = self.get_operand_address(mode);
        self.mem_write(addr, self.register_a);
    }

    /// Transfer accumulator to index X.
    fn tax(&mut self)
        ensures
            final(self).state() == execute(old(self).state(), Mnemonic::TAX, AddressingMode::NoneAddressing),
    {
        self.register_x = self.register_a;
        self.update_zero_and_negative_flags(self.register_x);
    }

    /// Increment index X, wrapping from 255 to 0.
    fn inx(&mut self)
        ensures
            final(self).state() == execute(old(self).state(), Mnemonic::INX, AddressingMode::NoneAddressing),
    {
        self.register_x = self.register_x.wrapping_add(1);
        self.update_zero_and_negative_flags(self.register_x);
    }

    /// One fetch-decode-execute step. `Ok(true)` when a break was decoded.
    pub fn step(&mut self) -> (r: Result<bool, CpuError>)
        ensures
            match step_spec(old(self).state()) {
                Step::Continue(t) => r == Ok::<bool, CpuError>(false) && final(self).state() == t,
                Step::Halt(t) => r == Ok::<bool, CpuError>(true) && final(self).state() == t,
                Step::Fault(e) => r == Err::<bool, CpuError>(e) && final(self).state() == old(self).state(),
            },
    {
        let code = self.mem_read(self.program_counter);
        let op = match lookup(code) {
            Some(op) => op,
            None => {
                return Err(CpuError::UnrecognizedOpcode { opcode: code, address: self.program_counter });
            },
        };
        self.program_counter = self.program_counter.wrapping_add(1);
        let pc_before_dispatch = self.program_counter;
        match op.mnemonic {
            Mnemonic::LDA => self.lda(&op.mode),
            Mnemonic::STA => self.sta(&op.mode),
            Mnemonic::TAX => self.tax(),
            Mnemonic::INX => self.inx(),
            Mnemonic::BRK => {
                return Ok(true);
            },
        }
        if self.program_counter == pc_before_dispatch {
            self.program_counter = self.program_counter.wrapping_add((op.len - 1) as u16);
        }
        Ok(false)
    }

    /// Runs until a break, a decode failure, or `max_steps` steps without a break.
    pub fn run_with_limit(&mut self, max_steps: u64) -> (r: Result<(), CpuError>)
        ensures
            (final(self).state(), r) == run_spec(old(self).state(), max_steps as nat),
    {
        let mut fuel = max_steps;
        loop
            invariant
                run_spec(self.state(), fuel as nat) == run_spec(old(self).state(), max_steps as nat),
            decreases fuel,
        {
            if fuel == 0 {
                return Err(CpuError::StepLimitReached);
            }
            match self.step() {
                Ok(true) => {
                    return Ok(());
                },
                Ok(false) => {},
                Err(e) => {
                    return Err(e);
                },
            }
            fuel = fuel - 1;
        }
    }

    /// Runs until a break or a decode failure. The step budget of `STEP_LIMIT`
    /// only guarantees that the call returns; no real program reaches it.
    pub fn run(&mut self) -> (r: Result<(), CpuError>)
        ensures
            (final(self).state(), r) == run_spec(old(self).state(), STEP_LIMIT as nat),
    {
        self.run_with_limit(STEP_LIMIT)
    }

    /// Copies `program` to `ROM_START` and points the reset vector at it.
    pub fn load(&mut self, program: Vec<u8>)
        requires
            program.len() <= MAX_PROGRAM_LEN,
        ensures
            final(self).state() == loaded(old(self).state(), program@),
    {
        let ghost start = self.state();
        let mut i: usize = 0;
        proof {
            self.lemma_mem_len();
            assert(with_image(start.mem, program@.take(0)) =~= start.mem);
        }
        while i < program.len()
            invariant
                i <= program.len() <= MAX_PROGRAM_LEN,
                self.state() == (CpuState { mem: with_image(start.mem, program@.take(i as int)), ..start }),
            decreases program.len() - i,
        {
            proof {
                self.lemma_mem_len();
            }
            self.mem_write(ROM_START + i as u16, program[i]);
            i = i + 1;
            assert(self.mem() =~= with_image(start.mem, program@.take(i as int)));
        }
        assert(program@.take(i as int) =~= program@);
        self.mem_write_u16(RESET_VECTOR, ROM_START);
    }

    /// Zeroes registers and status and sets the counter from the reset vector.
    pub fn reset(&mut self)
        ensures
            final(self).state() == reset_spec(old(self).state()),
    {
        self.register_a = 0;
        self.register_x = 0;
        self.register_y = 0;
        self.status = 0;
        self.program_counter = self.mem_read_u16(RESET_VECTOR);
    }

    /// Loads `program`, resets, and runs until a break or a decode failure.
    pub fn load_and_run(&mut self, program: Vec<u8>) -> (r: Result<(), CpuError>)
        requires
            program.len() <= MAX_PROGRAM_LEN,
        ensures
            (final(self).state(), r) == run_spec(reset_spec(loaded(old(self).state(), program@)), STEP_LIMIT as nat),
    {
        self.load(program);
        self.reset();
        self.run()
    }
}

} // verus!
