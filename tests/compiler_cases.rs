use crypto_vm::compiler::Compiler;
use crypto_vm::opcode::Opcode;

#[test]
fn empty_and_comment_only_sources_compile_to_nothing() {
    assert!(Compiler::compile("").is_empty());
    assert!(Compiler::compile("// only comments").is_empty());
    assert!(Compiler::compile("\n   \n\t// x\n").is_empty());
}

#[test]
fn quoted_push_keeps_inner_text() {
    let p = Compiler::compile("PUSH \"a b\"");
    assert_eq!(p.len(), 1);
    assert_eq!(p[0].opcode, Opcode::Push);
    assert_eq!(p[0].operands, b"a b".to_vec());
}

#[test]
fn mnemonics_ignore_case() {
    let lower = Compiler::compile("push hello");
    let upper = Compiler::compile("PUSH hello");
    assert_eq!(lower.len(), 1);
    assert_eq!(upper.len(), 1);
    assert_eq!(lower[0].opcode, upper[0].opcode);
    assert_eq!(lower[0].operands, upper[0].operands);
    assert_eq!(lower[0].operands, b"hello".to_vec());
    let mixed = Compiler::compile("Sha512\nhAlT");
    assert_eq!(mixed.len(), 2);
    assert_eq!(mixed[0].opcode, Opcode::Sha512);
    assert_eq!(mixed[1].opcode, Opcode::Halt);
}

#[test]
fn unicode_case_folding_reaches_mnemonics() {
    // U+017F (long s) upper-cases to 'S'.
    let p = Compiler::compile("pu\u{17f}h x");
    assert_eq!(p.len(), 1);
    assert_eq!(p[0].opcode, Opcode::Push);
}

#[test]
fn every_mnemonic_compiles_in_line_order() {
    let src = "PUSH k\nHASH\nMD5\nSHA512\nPOP\nAES_ENC\nAES_DEC\nRSA_GEN\nRSA_ENC\nRSA_DEC\nCERT_GEN\nHALT";
    let p = Compiler::compile(src);
    let ops: Vec<Opcode> = p.iter().map(|i| i.opcode).collect();
    assert_eq!(
        ops,
        vec![
            Opcode::Push,
            Opcode::Hash,
            Opcode::Md5,
            Opcode::Sha512,
            Opcode::Pop,
            Opcode::AesEnc,
            Opcode::AesDec,
            Opcode::RsaGen,
            Opcode::RsaEnc,
            Opcode::RsaDec,
            Opcode::CertGen,
            Opcode::Halt
        ]
    );
    assert!(p[1..].iter().all(|i| i.operands.is_empty()));
}

#[test]
fn unknown_lines_and_bare_push_are_dropped() {
    let p = Compiler::compile("FOO bar\nPUSH\nADD\nHALT extra words");
    assert_eq!(p.len(), 1);
    assert_eq!(p[0].opcode, Opcode::Halt);
    assert!(p[0].operands.is_empty());
}

#[test]
fn whitespace_and_line_endings_are_trimmed() {
    let p = Compiler::compile("  \u{a0}PUSH   spaced out  \r\n\u{3000}POP\u{2003}\r\n");
    assert_eq!(p.len(), 2);
    assert_eq!(p[0].operands, b"spaced out".to_vec());
    assert_eq!(p[1].opcode, Opcode::Pop);
}

#[test]
fn lone_quote_is_pushed_verbatim() {
    let p = Compiler::compile("PUSH \"");
    assert_eq!(p.len(), 1);
    assert_eq!(p[0].operands, b"\"".to_vec());
    let q = Compiler::compile("PUSH \"\"");
    assert_eq!(q[0].operands, Vec::<u8>::new());
    let r = Compiler::compile("PUSH \"half");
    assert_eq!(r[0].operands, b"\"half".to_vec());
}

#[test]
fn tab_after_mnemonic_splits() {
    let p = Compiler::compile("PUSH\tx");
    assert_eq!(p.len(), 1);
    assert_eq!(p[0].opcode, Opcode::Push);
    assert_eq!(p[0].operands, b"x".to_vec());
}

#[test]
fn any_whitespace_ends_the_mnemonic() {
    let p = Compiler::compile("HALT\tnow\nPUSH\u{2003} wide  \nPOP\u{a0}x");
    assert_eq!(p.len(), 3);
    assert_eq!(p[0].opcode, Opcode::Halt);
    assert!(p[0].operands.is_empty());
    assert_eq!(p[1].opcode, Opcode::Push);
    assert_eq!(p[1].operands, b"wide".to_vec());
    assert_eq!(p[2].opcode, Opcode::Pop);
}

#[test]
fn opcode_lookup_and_names() {
    assert_eq!(Opcode::from_mnemonic("AES_ENC"), Some(Opcode::AesEnc));
    assert_eq!(Opcode::from_mnemonic("aes_enc"), None);
    assert_eq!(Opcode::from_mnemonic("ADD"), None);
    assert_eq!(Opcode::CertGen.name(), "CertGen");
    assert_eq!(Opcode::Sha512.name(), "Sha512");
}
