use crypto_vm::aes;
use crypto_vm::compiler::Compiler;
use crypto_vm::error::VmError;
use crypto_vm::hash::sha256;
use crypto_vm::instruction::Instruction;
use crypto_vm::opcode::Opcode;
use crypto_vm::precheck::Verifier;
use crypto_vm::rsa;
use crypto_vm::vm::Vm;

fn ins(opcode: Opcode, operands: &[u8]) -> Instruction {
    Instruction { opcode, operands: operands.to_vec() }
}

fn hex_of(b: &[u8]) -> String {
    b.iter().map(|x| format!("{:02x}", x)).collect()
}

#[test]
fn fresh_vm_is_empty() {
    let vm = Vm::new();
    assert!(vm.stack.is_empty());
    assert_eq!(vm.pc, 0);
    assert!(!vm.halted);
    assert!(vm.trace.steps.is_empty());
}

#[test]
fn push_then_halt() {
    let mut vm = Vm::new();
    let r = vm.run(&[ins(Opcode::Push, b"x"), ins(Opcode::Halt, b"")]);
    assert!(r.is_ok());
    assert_eq!(vm.stack, vec![b"x".to_vec()]);
    assert_eq!(vm.pc, 2);
    assert!(vm.halted);
    assert_eq!(vm.trace.steps.len(), 2);
    assert_eq!(vm.trace.steps[0].pc, 0);
    assert_eq!(vm.trace.steps[0].opcode, "Push");
    assert_eq!(vm.trace.steps[1].pc, 1);
    assert_eq!(vm.trace.steps[1].opcode, "Halt");
}

#[test]
fn pop_on_empty_stack_underflows() {
    let mut vm = Vm::new();
    let r = vm.run(&[ins(Opcode::Pop, b"")]);
    assert!(matches!(r, Err(VmError::StackUnderflow)));
    assert_eq!(vm.pc, 0);
    assert_eq!(vm.trace.steps.len(), 1);
    assert_eq!(vm.trace.steps[0].opcode, "Pop");
}

#[test]
fn steps_after_halt_change_nothing() {
    let mut vm = Vm::new();
    vm.run(&[ins(Opcode::Push, b"a"), ins(Opcode::Halt, b"")]).unwrap();
    let stack = vm.stack.clone();
    let pc = vm.pc;
    let n = vm.trace.steps.len();
    for _ in 0..3 {
        assert!(vm.step(&ins(Opcode::Pop, b"")).is_ok());
        assert!(vm.step(&ins(Opcode::Push, b"b")).is_ok());
    }
    assert_eq!(vm.stack, stack);
    assert_eq!(vm.pc, pc);
    assert_eq!(vm.trace.steps.len(), n);
    assert!(vm.run(&[ins(Opcode::Pop, b"")]).is_ok());
    assert_eq!(vm.stack, stack);
}

#[test]
fn two_machines_agree() {
    let prog = Compiler::compile("PUSH data\nPUSH key\nAES_ENC\nHASH\nPUSH cn\nCERT_GEN\nHALT");
    let mut a = Vm::new();
    let mut b = Vm::new();
    assert!(a.run(&prog).is_ok());
    assert!(b.run(&prog).is_ok());
    assert_eq!(a.stack, b.stack);
    assert_eq!(a.pc, b.pc);
    assert_eq!(a.halted, b.halted);
    assert_eq!(a.trace.steps.len(), b.trace.steps.len());
}

#[test]
fn binary_opcode_underflow_keeps_the_key_popped() {
    let mut vm = Vm::new();
    let r = vm.run(&[ins(Opcode::Push, b"k"), ins(Opcode::AesEnc, b"")]);
    assert!(matches!(r, Err(VmError::StackUnderflow)));
    assert!(vm.stack.is_empty());
    assert_eq!(vm.pc, 1);
    assert_eq!(vm.trace.steps.len(), 2);
}

#[test]
fn hash_opcodes_push_digests() {
    let mut vm = Vm::new();
    let prog = vec![
        ins(Opcode::Push, b"hello"),
        ins(Opcode::Hash, b""),
        ins(Opcode::Push, b"hello"),
        ins(Opcode::Md5, b""),
        ins(Opcode::Push, b"hello"),
        ins(Opcode::Sha512, b""),
    ];
    vm.run(&prog).unwrap();
    assert_eq!(vm.stack.len(), 3);
    assert_eq!(
        hex_of(&vm.stack[0]),
        "2cf24dba5fb0a30e26e83b2ac5b9e29e1b161e5c1fa7425e73043362938b9824"
    );
    assert_eq!(hex_of(&vm.stack[1]), "5d41402abc4b2a76b9719d911017c592");
    assert_eq!(vm.stack[2].len(), 64);
    assert_eq!(sha256(b"hello"), vm.stack[0]);
}

#[test]
fn aes_round_trip_through_the_machine() {
    let mut vm = Vm::new();
    let prog = Compiler::compile("PUSH secret text\nPUSH key\nAES_ENC\nPUSH key\nAES_DEC");
    vm.run(&prog).unwrap();
    assert_eq!(vm.stack, vec![b"secret text".to_vec()]);
}

#[test]
fn aes_hex_input_is_decoded() {
    let mut a = Vm::new();
    a.run(&[ins(Opcode::Push, b"0x6869"), ins(Opcode::Push, b"k"), ins(Opcode::AesEnc, b"")])
        .unwrap();
    let mut b = Vm::new();
    b.run(&[ins(Opcode::Push, b"hi"), ins(Opcode::Push, b"k"), ins(Opcode::AesEnc, b"")]).unwrap();
    assert_eq!(a.stack, b.stack);
    assert_eq!(a.stack[0], aes::encrypt(b"hi", b"k"));
    let mut c = Vm::new();
    c.run(&[ins(Opcode::Push, b"0xzz"), ins(Opcode::Push, b"k"), ins(Opcode::AesEnc, b"")])
        .unwrap();
    assert_eq!(c.stack[0], aes::encrypt(b"0xzz", b"k"));
}

#[test]
fn aes_rejects_tampered_data_and_pads_keys() {
    let enc = aes::encrypt(b"payload", b"short");
    assert_eq!(enc.len(), 7 + 16);
    assert_eq!(aes::decrypt(&enc, b"short\0\0\0"), b"payload".to_vec());
    assert_eq!(aes::decrypt(&enc, b"other"), Vec::<u8>::new());
    assert_eq!(aes::decrypt(b"junk", b"short"), Vec::<u8>::new());
    let long_key = b"0123456789abcdefXYZ";
    assert_eq!(aes::encrypt(b"m", long_key), aes::encrypt(b"m", b"0123456789abcdef"));
}

#[test]
fn rsa_opcodes() {
    let mut vm = Vm::new();
    let prog = Compiler::compile("RSA_GEN\nPUSH msg\nPUSH pk\nRSA_ENC");
    vm.run(&prog).unwrap();
    assert_eq!(vm.stack[0], b"PRIVATE KEY 2048".to_vec());
    assert_eq!(vm.stack[1], b"PUBLIC KEY 2048".to_vec());
    assert_eq!(vm.stack[2], b"RSA_ENC:msg".to_vec());
    let mut vm2 = Vm::new();
    vm2.run(&Compiler::compile("PUSH RSA_ENC:msg\nPUSH k\nRSA_DEC\nPUSH plain\nPUSH k\nRSA_DEC"))
        .unwrap();
    assert_eq!(vm2.stack, vec![b"msg".to_vec(), b"plain".to_vec()]);
    assert_eq!(rsa::decrypt(&rsa::encrypt(b"abc", b""), b""), b"abc".to_vec());
    let (private_key, public_key) = rsa::generate_key();
    assert_eq!(private_key, b"PRIVATE KEY 2048".to_vec());
    assert_eq!(public_key, b"PUBLIC KEY 2048".to_vec());
}

#[test]
fn cert_gen_uses_the_subject() {
    let expected = "-----BEGIN CERTIFICATE-----\nSubject: alice\nIssuer: Self-Signed OpenSSL VM\nSerial: 0123456789ABCDEF\n-----END CERTIFICATE-----";
    assert_eq!(rsa::generate_cert("alice"), expected);
    let mut vm = Vm::new();
    vm.run(&Compiler::compile("PUSH alice\nCERT_GEN")).unwrap();
    assert_eq!(vm.stack, vec![expected.as_bytes().to_vec()]);
    let mut bad = Vm::new();
    bad.run(&[ins(Opcode::Push, &[0x61, 0xff]), ins(Opcode::CertGen, b"")]).unwrap();
    let text = String::from_utf8(bad.stack[0].clone()).unwrap();
    assert!(text.contains("Subject: a\u{fffd}\n"));
}

#[test]
fn reserved_opcodes_only_advance() {
    let mut vm = Vm::new();
    vm.run(&[ins(Opcode::Add, b""), ins(Opcode::Sub, b""), ins(Opcode::Mul, b""), ins(Opcode::Div, b"")])
        .unwrap();
    assert!(vm.stack.is_empty());
    assert_eq!(vm.pc, 4);
    assert_eq!(vm.trace.steps[3].opcode, "Div");
}

#[test]
fn state_renders_text_and_binary() {
    let mut vm = Vm::new();
    vm.run(&[ins(Opcode::Push, b"plain"), ins(Opcode::Push, &[0xff, 0x00, 0x1a])]).unwrap();
    let st = vm.get_state();
    assert_eq!(st.stack, vec!["plain".to_string(), "0xff001a".to_string()]);
    assert_eq!(st.pc, 2);
    assert!(!st.halted);
    assert_eq!(st.trace.steps.len(), 2);
    assert_eq!(st.trace.steps[1].opcode, "Push");
}

#[test]
fn verifier_accepts_programs() {
    assert!(Verifier::verify(&[]).is_ok());
    assert!(Verifier::verify(&Compiler::compile("POP\nHALT")).is_ok());
}
