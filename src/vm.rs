use vstd::prelude::*;
use vstd::utf8::*;
use crate::aes;
use crate::encoding::{
    copy_bytes, hex_decodable, hex_decode, hex_decoded, hex_encode, hex_encoded, lossy_text,
    utf8_lossy, utf8_text,
};
use crate::error::VmError;
use crate::hash::{md5, md5_of, sha256, sha256_of, sha512, sha512_of};
use crate::instruction::{program_view, InstrView, Instruction};
use crate::opcode::{opcode_name, Opcode};
use crate::rsa;
use crate::trace::{Step, StepView, Trace};

verus! {

/// The value of a stack of byte buffers, bottom first.
pub open spec fn stack_view(s: Seq<Vec<u8>>) -> Seq<Seq<u8>> {
    s.map_values(|v: Vec<u8>| v@)
}

/// The value of a machine: its stack (bottom first), program counter, halt
/// flag and trace.
pub struct VmView {
    pub stack: Seq<Seq<u8>>,
    pub pc: usize,
    pub halted: bool,
    pub trace: Seq<StepView>,
}

/// The state of a machine that has run nothing yet.
pub open spec fn fresh_vm() -> VmView {
    VmView { stack: Seq::empty(), pc: 0, halted: false, trace: Seq::empty() }
}

/// The opcodes that replace the top of the stack by a function of it.
pub open spec fn is_unary(op: Opcode) -> bool {
    op == Opcode::Hash || op == Opcode::Md5 || op == Opcode::Sha512 || op == Opcode::CertGen
}

/// The opcodes that replace a key (top) and the data below it by a
/// function of both.
pub open spec fn is_binary(op: Opcode) -> bool {
    op == Opcode::AesEnc || op == Opcode::AesDec || op == Opcode::RsaEnc || op == Opcode::RsaDec
}

/// The data a symmetric cipher works on: what follows a leading `0x`,
/// decoded, where it is hexadecimal; else the data as it is.
pub open spec fn cipher_input(d: Seq<u8>) -> Seq<u8> {
    if d.len() >= 2 && d[0] == 48 && d[1] == 120 && hex_decodable(d.subrange(2, d.len() as int)) {
        hex_decoded(d.subrange(2, d.len() as int))
    } else {
        d
    }
}

/// What a unary opcode pushes in place of the buffer it popped.
pub open spec fn unary_result(op: Opcode, d: Seq<u8>) -> Seq<u8> {
    match op {
        Opcode::Hash => sha256_of(d),
        Opcode::Md5 => md5_of(d),
        Opcode::Sha512 => sha512_of(d),
        _ => encode_utf8(rsa::cert_text(lossy_text(d))),
    }
}

/// What a binary opcode pushes in place of the data and key it popped.
pub open spec fn binary_result(op: Opcode, data: Seq<u8>, key: Seq<u8>) -> Seq<u8> {
    match op {
        Opcode::AesEnc => aes::encrypt_spec(cipher_input(data), key),
        Opcode::AesDec => aes::decrypt_spec(cipher_input(data), key),
        Opcode::RsaEnc => rsa::rsa_tag() + data,
        _ => rsa::untagged(data),
    }
}

/// The state after one instruction, and whether it succeeded. A halted
/// machine does nothing. Otherwise the step is recorded first; a missing
/// operand then stops the instruction where it is, without advancing the
/// program counter, and leaves popped operands popped. The reserved
/// arithmetic opcodes (`Add`, `Sub`, `Mul`, `Div`) have no effect on the
/// stack: they are recorded and advance the program counter, like any
/// other successful step.
pub open spec fn step_spec(s: VmView, ins: InstrView) -> (VmView, bool) {
    if s.halted {
        (s, true)
    } else {
        let t = VmView {
            trace: s.trace.push(StepView { pc: s.pc, opcode: opcode_name(ins.opcode) }),
            ..s
        };
        let n = t.stack.len();
        let next = (t.pc + 1) as usize;
        if ins.opcode == Opcode::Push {
            (VmView { stack: t.stack.push(ins.operands), pc: next, ..t }, true)
        } else if ins.opcode == Opcode::Pop {
            if n == 0 {
                (t, false)
            } else {
                (VmView { stack: t.stack.drop_last(), pc: next, ..t }, true)
            }
        } else if is_unary(ins.opcode) {
            if n == 0 {
                (t, false)
            } else {
                (
                    VmView {
                        stack: t.stack.drop_last().push(unary_result(ins.opcode, t.stack.last())),
                        pc: next,
                        ..t
                    },
                    true,
                )
            }
        } else if is_binary(ins.opcode) {
            if n == 0 {
                (t, false)
            } else if n == 1 {
                (VmView { stack: t.stack.drop_last(), ..t }, false)
            } else {
                (
                    VmView {
                        stack: t.stack.subrange(0, n - 2).push(
                            binary_result(ins.opcode, t.stack[n - 2], t.stack[n - 1]),
                        ),
                        pc: next,
                        ..t
                    },
                    true,
                )
            }
        } else if ins.opcode == Opcode::RsaGen {
            (
                VmView {
                    stack: t.stack.push(encode_utf8("PRIVATE KEY 2048"@)).push(
                        encode_utf8("PUBLIC KEY 2048"@),
                    ),
                    pc: next,
                    ..t
                },
                true,
            )
        } else if ins.opcode == Opcode::Halt {
            (VmView { halted: true, pc: next, ..t }, true)
        } else {
            (VmView { pc: next, ..t }, true)
        }
    }
}

/// Runs at most `fuel` instructions of the program from the state's
/// program counter: the final state, and whether no step failed.
pub open spec fn run_steps(s: VmView, p: Seq<InstrView>, fuel: nat) -> (VmView, bool)
    decreases fuel,
{
    if fuel == 0 || s.pc >= p.len() || s.halted {
        (s, true)
    } else {
        let (n, ok) = step_spec(s, p[s.pc as int]);
        if !ok {
            (n, false)
        } else {
            run_steps(n, p, (fuel - 1) as nat)
        }
    }
}

/// Running a program to its end, to `Halt`, or to the first failing step.
pub open spec fn run_spec(s: VmView, p: Seq<InstrView>) -> (VmView, bool) {
    run_steps(s, p, (p.len() - s.pc) as nat)
}

/// A stack buffer as text: its UTF-8 reading where it is valid, else `0x`
/// and its hexadecimal digits.
pub open spec fn render(b: Seq<u8>) -> Seq<char> {
    if valid_utf8(b) {
        decode_utf8(b)
    } else {
        "0x"@ + hex_encoded(b)
    }
}

/// A read-only picture of a machine, for a host to display.
#[derive(Debug, Clone)]
pub struct VmState {
    pub stack: Vec<String>,
    pub pc: usize,
    pub halted: bool,
    pub trace: Trace,
}

/// The value of a state snapshot.
pub struct VmStateView {
    pub stack: Seq<Seq<char>>,
    pub pc: usize,
    pub halted: bool,
    pub trace: Seq<StepView>,
}

impl View for VmState {
    type V = VmStateView;

    open spec fn view(&self) -> VmStateView {
        VmStateView {
            stack: self.stack@.map_values(|s: String| s@),
            pc: self.pc,
            halted: self.halted,
            trace: self.trace@,
        }
    }
}

/// The snapshot of a machine state.
pub open spec fn state_spec(s: VmView) -> VmStateView {
    VmStateView {
        stack: s.stack.map_values(|b: Seq<u8>| render(b)),
        pc: s.pc,
        halted: s.halted,
        trace: s.trace,
    }
}

/// A stack machine: operand stack, program counter, halt flag and trace.
pub struct Vm {
    pub stack: Vec<Vec<u8>>,
    pub pc: usize,
    pub halted: bool,
    pub trace: Trace,
}

impl View for Vm {
    type V = VmView;

    open spec fn view(&self) -> VmView {
        VmView {
            stack: stack_view(self.stack@),
            pc: self.pc,
            halted: self.halted,
            trace: self.trace@,
        }
    }
}

impl Vm {
    /// A machine with an empty stack, program counter 0, not halted, and an
    /// empty trace.
    pub fn new() -> (r: Vm)
        ensures
            r@ == fresh_vm(),
    {
        let r = Vm { stack: Vec::new(), pc: 0, halted: false, trace: Trace::default() };
        assert(r@.stack =~= Seq::<Seq<u8>>::empty());
        r
    }

    /// Executes one instruction. A halted machine is left as it is. The
    /// reserved arithmetic opcodes only record the step and advance.
    pub fn step(&mut self, instruction: &Instruction) -> (r: Result<(), VmError>)
        requires
            !old(self).halted ==> old(self).pc < usize::MAX,
        ensures
            final(self)@ == step_spec(old(self)@, instruction@).0,
            r is Ok <==> step_spec(old(self)@, instruction@).1,
            r is Err ==> r == Err::<(), VmError>(VmError::StackUnderflow),
            old(self).halted ==> final(self)@ == old(self)@ && r is Ok,
    {
        if self.halted {
            return Ok(());
        }
        let ghost s = self@;
        let ghost op = instruction.opcode;
        let name = instruction.opcode.name();
        self.trace.steps.push(Step { pc: self.pc, opcode: name });
        let ghost t = VmView {
            trace: s.trace.push(StepView { pc: s.pc, opcode: opcode_name(op) }),
            ..s
        };
        assert(self.trace@ =~= t.trace);
        assert(self@ == t);
        match instruction.opcode {
            Opcode::Push => {
                let v = copy_bytes(instruction.operands.as_slice());
                self.stack.push(v);
                assert(self@.stack =~= t.stack.push(instruction@.operands));
            },
            Opcode::Pop => {
                match self.stack.pop() {
                    Some(_) => {},
                    None => {
                        return Err(VmError::StackUnderflow);
                    },
                }
                assert(self@.stack =~= t.stack.drop_last());
            },
            Opcode::Hash | Opcode::Md5 | Opcode::Sha512 | Opcode::CertGen => {
                let data = match self.stack.pop() {
                    Some(d) => d,
                    None => {
                        return Err(VmError::StackUnderflow);
                    },
                };
                assert(data@ == t.stack.last());
                let out = apply_unary(instruction.opcode, data.as_slice());
                self.stack.push(out);
                assert(self@.stack =~= t.stack.drop_last().push(unary_result(op, t.stack.last())));
            },
            Opcode::AesEnc | Opcode::AesDec | Opcode::RsaEnc | Opcode::RsaDec => {
                let key = match self.stack.pop() {
                    Some(k) => k,
                    None => {
                        return Err(VmError::StackUnderflow);
                    },
                };
                let ghost n = t.stack.len();
                assert(key@ == t.stack[n - 1]);
                assert(self@.stack =~= t.stack.drop_last());
                let data = match self.stack.pop() {
                    Some(d) => d,
                    None => {
                        return Err(VmError::StackUnderflow);
                    },
                };
                assert(data@ == t.stack[n - 2]);
                let out = apply_binary(instruction.opcode, data, key.as_slice());
                self.stack.push(out);
                assert(self@.stack =~= t.stack.subrange(0, n - 2).push(
                    binary_result(op, t.stack[n - 2], t.stack[n - 1]),
                ));
            },
            Opcode::RsaGen => {
                let (private_key, public_key) = rsa::generate_key();
                self.stack.push(private_key);
                self.stack.push(public_key);
                assert(self@.stack =~= t.stack.push(encode_utf8("PRIVATE KEY 2048"@)).push(
                    encode_utf8("PUBLIC KEY 2048"@),
                ));
            },
            Opcode::Halt => {
                self.halted = true;
            },
            Opcode::Add | Opcode::Sub | Opcode::Mul | Opcode::Div => {},
        }
        self.pc = self.pc + 1;
        Ok(())
    }

    /// Executes the program from the current program counter until it ends,
    /// the machine halts, or a step fails; the state stays as the failing
    /// step left it.
    pub fn run(&mut self, instructions: &[Instruction]) -> (r: Result<(), VmError>)
        ensures
            final(self)@ == run_spec(old(self)@, program_view(instructions@)).0,
            r is Ok <==> run_spec(old(self)@, program_view(instructions@)).1,
            r is Err ==> r == Err::<(), VmError>(VmError::StackUnderflow),
    {
        let ghost p = program_view(instructions@);
        let ghost start = self@;
        while self.pc < instructions.len() && !self.halted
            invariant
                p == program_view(instructions@),
                start == old(self)@,
                run_spec(start, p) == run_steps(self@, p, (p.len() - self.pc) as nat),
            decreases instructions@.len() - self.pc,
        {
            let ghost before = self@;
            assert(p[self.pc as int] == instructions@[self.pc as int]@);
            let r = self.step(&instructions[self.pc]);
            match r {
                Ok(()) => {},
                Err(e) => {
                    assert(run_steps(before, p, (p.len() - before.pc) as nat) == (self@, false));
                    return Err(e);
                },
            }
            assert(self.pc == before.pc + 1);
        }
        Ok(())
    }

    /// A snapshot of the state: each stack buffer as text (see `render`),
    /// with the program counter, the halt flag and the trace.
    pub fn get_state(&self) -> (r: VmState)
        ensures
            r@ == state_spec(self@),
    {
        let mut stack: Vec<String> = Vec::new();
        let mut i: usize = 0;
        while i < self.stack.len()
            invariant
                i <= self.stack@.len(),
                stack@.map_values(|s: String| s@) == state_spec(self@).stack.subrange(0, i as int),
            decreases self.stack@.len() - i,
        {
            let s = render_exec(self.stack[i].as_slice());
            let ghost prev = stack@;
            stack.push(s);
            assert(stack@.map_values(|s: String| s@) =~= prev.map_values(|s: String| s@).push(s@));
            i = i + 1;
            assert(stack@.map_values(|s: String| s@) =~= state_spec(self@).stack.subrange(0, i as int));
        }
        assert(state_spec(self@).stack.subrange(0, i as int) =~= state_spec(self@).stack);
        VmState { stack, pc: self.pc, halted: self.halted, trace: self.trace.duplicate() }
    }
}

fn cipher_input_exec(data: Vec<u8>) -> (r: Vec<u8>)
    ensures
        r@ == cipher_input(data@),
{
    if data.len() >= 2 && data[0] == 48 && data[1] == 120 {
        match hex_decode(&data[2..data.len()]) {
            Some(d) => d,
            None => data,
        }
    } else {
        data
    }
}

fn apply_unary(op: Opcode, d: &[u8]) -> (r: Vec<u8>)
    requires
        is_unary(op),
    ensures
        r@ == unary_result(op, d@),
{
    match op {
        Opcode::Hash => sha256(d),
        Opcode::Md5 => md5(d),
        Opcode::Sha512 => sha512(d),
        _ => {
            let subject = utf8_lossy(d);
            let cert = rsa::generate_cert(subject.as_str());
            copy_bytes(cert.as_str().as_bytes())
        },
    }
}

fn apply_binary(op: Opcode, data: Vec<u8>, key: &[u8]) -> (r: Vec<u8>)
    requires
        is_binary(op),
    ensures
        r@ == binary_result(op, data@, key@),
{
    match op {
        Opcode::AesEnc => {
            let d = cipher_input_exec(data);
            aes::encrypt(d.as_slice(), key)
        },
        Opcode::AesDec => {
            let d = cipher_input_exec(data);
            aes::decrypt(d.as_slice(), key)
        },
        Opcode::RsaEnc => rsa::encrypt(data.as_slice(), key),
        _ => rsa::decrypt(data.as_slice(), key),
    }
}

fn render_exec(b: &[u8]) -> (r: String)
    ensures
        r@ == render(b@),
{
    match utf8_text(b) {
        Some(t) => t,
        None => {
            let mut r = "0x".to_owned();
            let h = hex_encode(b);
            r.append(h.as_str());
            r
        },
    }
}

} // verus!

verus! {

/// Once a machine has halted, a step changes nothing and succeeds, and so
/// does running any program further.
pub proof fn lemma_halted_is_fixed(s: VmView, ins: InstrView, p: Seq<InstrView>)
    requires
        s.halted,
    ensures
        step_spec(s, ins) == (s, true),
        step_spec(step_spec(s, ins).0, ins) == (s, true),
        run_spec(s, p) == (s, true),
{
}

/// Two machines built independently and given the same program end in the
/// same state with the same outcome.
pub proof fn lemma_independent_runs_agree(a: VmView, b: VmView, p: Seq<InstrView>)
    requires
        a == fresh_vm(),
        b == fresh_vm(),
    ensures
        run_spec(a, p) == run_spec(b, p),
{
}

} // verus!
