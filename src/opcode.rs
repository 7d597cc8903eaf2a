use vstd::prelude::*;

verus! {

/// The closed set of operations the machine knows.
#[derive(Debug, Clone, Copy, PartialEq, Eq, Structural)]
pub enum Opcode {
    Push,
    Pop,
    Add,
    Sub,
    Mul,
    Div,
    Hash,
    Md5,
    Sha512,
    AesEnc,
    AesDec,
    RsaGen,
    RsaEnc,
    RsaDec,
    CertGen,
    Halt,
}

/// The name under which an opcode is recorded in the trace.
pub open spec fn opcode_name(op: Opcode) -> Seq<char> {
    match op {
        Opcode::Push => "Push"@,
        Opcode::Pop => "Pop"@,
        Opcode::Add => "Add"@,
        Opcode::Sub => "Sub"@,
        Opcode::Mul => "Mul"@,
        Opcode::Div => "Div"@,
        Opcode::Hash => "Hash"@,
        Opcode::Md5 => "Md5"@,
        Opcode::Sha512 => "Sha512"@,
        Opcode::AesEnc => "AesEnc"@,
        Opcode::AesDec => "AesDec"@,
        Opcode::RsaGen => "RsaGen"@,
        Opcode::RsaEnc => "RsaEnc"@,
        Opcode::RsaDec => "RsaDec"@,
        Opcode::CertGen => "CertGen"@,
        Opcode::Halt => "Halt"@,
    }
}

/// The opcode that an upper-cased mnemonic of the source language stands for.
pub open spec fn mnemonic_opcode(m: Seq<char>) -> Option<Opcode> {
    if m == "PUSH"@ {
        Some(Opcode::Push)
    } else if m == "HASH"@ {
        Some(Opcode::Hash)
    } else if m == "MD5"@ {
        Some(Opcode::Md5)
    } else if m == "SHA512"@ {
        Some(Opcode::Sha512)
    } else if m == "POP"@ {
        Some(Opcode::Pop)
    } else if m == "AES_ENC"@ {
        Some(Opcode::AesEnc)
    } else if m == "AES_DEC"@ {
        Some(Opcode::AesDec)
    } else if m == "RSA_GEN"@ {
        Some(Opcode::RsaGen)
    } else if m == "RSA_ENC"@ {
        Some(Opcode::RsaEnc)
    } else if m == "RSA_DEC"@ {
        Some(Opcode::RsaDec)
    } else if m == "CERT_GEN"@ {
        Some(Opcode::CertGen)
    } else if m == "HALT"@ {
        Some(Opcode::Halt)
    } else {
        None
    }
}

impl Opcode {
    /// The opcode's name, as the trace records it.
    pub fn name(&self) -> (r: String)
        ensures
            r@ == opcode_name(*self),
    {
        match self {
            Opcode::Push => "Push".to_owned(),
            Opcode::Pop => "Pop".to_owned(),
            Opcode::Add => "Add".to_owned(),
            Opcode::Sub => "Sub".to_owned(),
            Opcode::Mul => "Mul".to_owned(),
            Opcode::Div => "Div".to_owned(),
            Opcode::Hash => "Hash".to_owned(),
            Opcode::Md5 => "Md5".to_owned(),
            Opcode::Sha512 => "Sha512".to_owned(),
            Opcode::AesEnc => "AesEnc".to_owned(),
            Opcode::AesDec => "AesDec".to_owned(),
            Opcode::RsaGen => "RsaGen".to_owned(),
            Opcode::RsaEnc => "RsaEnc".to_owned(),
            Opcode::RsaDec => "RsaDec".to_owned(),
            Opcode::CertGen => "CertGen".to_owned(),
            Opcode::Halt => "Halt".to_owned(),
        }
    }

    /// Looks up an upper-cased mnemonic; `None` where it names no opcode.
    pub fn from_mnemonic(upper: &str) -> (r: Option<Opcode>)
        ensures
            r == mnemonic_opcode(upper@),
    {
        let m = upper.to_owned();
        if m == "PUSH".to_owned() {
            Some(Opcode::Push)
        } else if m == "HASH".to_owned() {
            Some(Opcode::Hash)
        } else if m == "MD5".to_owned() {
            Some(Opcode::Md5)
        } else if m == "SHA512".to_owned() {
            Some(Opcode::Sha512)
        } else if m == "POP".to_owned() {
            Some(Opcode::Pop)
        } else if m == "AES_ENC".to_owned() {
            Some(Opcode::AesEnc)
        } else if m == "AES_DEC".to_owned() {
            Some(Opcode::AesDec)
        } else if m == "RSA_GEN".to_owned() {
            Some(Opcode::RsaGen)
        } else if m == "RSA_ENC".to_owned() {
            Some(Opcode::RsaEnc)
        } else if m == "RSA_DEC".to_owned() {
            Some(Opcode::RsaDec)
        } else if m == "CERT_GEN".to_owned() {
            Some(Opcode::CertGen)
        } else if m == "HALT".to_owned() {
            Some(Opcode::Halt)
        } else {
            None
        }
    }
}

} // verus!
