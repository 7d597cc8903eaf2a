use vstd::prelude::*;
use vstd::utf8::*;
use crate::encoding::{copy_bytes, to_upper, upper_of, utf8_text};
use crate::instruction::{program_view, InstrView, Instruction};
use crate::opcode::{mnemonic_opcode, Opcode};

verus! {

/// ASCII whitespace: tab, line feed, vertical tab, form feed, carriage
/// return and space.
pub open spec fn is_ascii_space(c: u8) -> bool {
    (9 <= c && c <= 13) || c == 32
}

/// The three-byte UTF-8 encodings of Unicode whitespace: U+1680,
/// U+2000 to U+200A, U+2028, U+2029, U+202F, U+205F and U+3000.
pub open spec fn is_wide_space(x: u8, y: u8, z: u8) -> bool {
    ||| x == 0xE1 && y == 0x9A && z == 0x80
    ||| x == 0xE2 && y == 0x80 && ((0x80 <= z && z <= 0x8A) || z == 0xA8 || z == 0xA9 || z == 0xAF)
    ||| x == 0xE2 && y == 0x81 && z == 0x9F
    ||| x == 0xE3 && y == 0x80 && z == 0x80
}

/// The length in bytes of the whitespace character that starts at `i` and
/// ends by `e`, or 0 where none does. U+0085 and U+00A0 take two bytes.
pub open spec fn space_width_at(b: Seq<u8>, i: int, e: int) -> int {
    if i + 1 <= e && is_ascii_space(b[i]) {
        1
    } else if i + 2 <= e && b[i] == 0xC2 && (b[i + 1] == 0x85 || b[i + 1] == 0xA0) {
        2
    } else if i + 3 <= e && is_wide_space(b[i], b[i + 1], b[i + 2]) {
        3
    } else {
        0
    }
}

/// The length in bytes of the whitespace character that ends at `j` and
/// starts at `s` or later, or 0 where none does.
pub open spec fn space_width_before(b: Seq<u8>, s: int, j: int) -> int {
    if s + 1 <= j && is_ascii_space(b[j - 1]) {
        1
    } else if s + 2 <= j && b[j - 2] == 0xC2 && (b[j - 1] == 0x85 || b[j - 1] == 0xA0) {
        2
    } else if s + 3 <= j && is_wide_space(b[j - 3], b[j - 2], b[j - 1]) {
        3
    } else {
        0
    }
}

/// Where the text in `[s, e)` starts once leading whitespace is skipped.
pub open spec fn trim_start(b: Seq<u8>, s: int, e: int) -> int
    decreases e - s,
{
    if s < e && space_width_at(b, s, e) > 0 {
        trim_start(b, s + space_width_at(b, s, e), e)
    } else {
        s
    }
}

/// Where the text in `[s, e)` ends once trailing whitespace is dropped.
pub open spec fn trim_end(b: Seq<u8>, s: int, e: int) -> int
    decreases e - s,
{
    if s < e && space_width_before(b, s, e) > 0 {
        trim_end(b, s, e - space_width_before(b, s, e))
    } else {
        e
    }
}

/// The first index in `[i, e)` that holds `x`, or `e`.
pub open spec fn find_from(b: Seq<u8>, i: int, e: int, x: u8) -> int
    decreases e - i,
{
    if i >= e {
        e
    } else if b[i] == x {
        i
    } else {
        find_from(b, i + 1, e, x)
    }
}

/// The first index in `[i, e)` where a whitespace character starts, or `e`.
pub open spec fn find_space(b: Seq<u8>, i: int, e: int) -> int
    decreases e - i,
{
    if i >= e {
        e
    } else if space_width_at(b, i, e) > 0 {
        i
    } else {
        find_space(b, i + 1, e)
    }
}

/// The opcode a mnemonic names, matched without regard to case.
pub open spec fn token_opcode(tok: Seq<u8>) -> Option<Opcode> {
    if valid_utf8(tok) {
        mnemonic_opcode(upper_of(decode_utf8(tok)))
    } else {
        None
    }
}

/// The literal of a `PUSH` line, taken from `[s, e)`: trimmed, and without
/// the double quotes where a pair of them wraps it.
pub open spec fn push_operand(b: Seq<u8>, s: int, e: int) -> Seq<u8> {
    let vs = trim_start(b, s, e);
    let ve = trim_end(b, vs, e);
    if ve - vs >= 2 && b[vs] == 34 && b[ve - 1] == 34 {
        b.subrange(vs + 1, ve - 1)
    } else {
        b.subrange(vs, ve)
    }
}

/// The instructions (none or one) that the line in `[s, e)` compiles to.
/// The mnemonic runs up to the first whitespace character; a `PUSH` takes
/// the rest of the line, trimmed, as its literal. Blank lines, comments, unknown mnemonics and a `PUSH` without a literal
/// give none.
pub open spec fn line_instrs(b: Seq<u8>, s: int, e: int) -> Seq<InstrView> {
    let ts = trim_start(b, s, e);
    let te = trim_end(b, ts, e);
    if ts == te || (te - ts >= 2 && b[ts] == 47 && b[ts + 1] == 47) {
        Seq::empty()
    } else {
        let sp = find_space(b, ts, te);
        match token_opcode(b.subrange(ts, sp)) {
            None => Seq::empty(),
            Some(Opcode::Push) => if sp < te {
                seq![InstrView { opcode: Opcode::Push, operands: push_operand(b, sp, te) }]
            } else {
                Seq::empty()
            },
            Some(op) => seq![InstrView { opcode: op, operands: Seq::empty() }],
        }
    }
}

/// The instructions of the lines that start at `pos` or later, in order.
pub open spec fn compile_from(b: Seq<u8>, pos: int) -> Seq<InstrView>
    decreases b.len() - pos,
{
    if pos < 0 || pos >= b.len() {
        Seq::empty()
    } else {
        let le = find_from(b, pos, b.len() as int, 10);
        if le < pos {
            Seq::empty()
        } else if le >= b.len() {
            line_instrs(b, pos, le)
        } else {
            line_instrs(b, pos, le) + compile_from(b, le + 1)
        }
    }
}

/// The program that a source text, given as its UTF-8 bytes, compiles to.
pub open spec fn compile_spec(b: Seq<u8>) -> Seq<InstrView> {
    compile_from(b, 0)
}

fn space_width_at_exec(b: &[u8], i: usize, e: usize) -> (r: usize)
    requires
        i <= e <= b@.len(),
    ensures
        r == space_width_at(b@, i as int, e as int),
{
    if i < e && ((9 <= b[i] && b[i] <= 13) || b[i] == 32) {
        1
    } else if e - i >= 2 && b[i] == 0xC2 && (b[i + 1] == 0x85 || b[i + 1] == 0xA0) {
        2
    } else if e - i >= 3 && ((b[i] == 0xE1 && b[i + 1] == 0x9A && b[i + 2] == 0x80) || (b[i]
        == 0xE2 && b[i + 1] == 0x80 && ((0x80 <= b[i + 2] && b[i + 2] <= 0x8A) || b[i + 2]
        == 0xA8 || b[i + 2] == 0xA9 || b[i + 2] == 0xAF)) || (b[i] == 0xE2 && b[i + 1] == 0x81
        && b[i + 2] == 0x9F) || (b[i] == 0xE3 && b[i + 1] == 0x80 && b[i + 2] == 0x80)) {
        3
    } else {
        0
    }
}

fn space_width_before_exec(b: &[u8], s: usize, j: usize) -> (r: usize)
    requires
        s <= j <= b@.len(),
    ensures
        r == space_width_before(b@, s as int, j as int),
{
    if j - s >= 1 && ((9 <= b[j - 1] && b[j - 1] <= 13) || b[j - 1] == 32) {
        1
    } else if j - s >= 2 && b[j - 2] == 0xC2 && (b[j - 1] == 0x85 || b[j - 1] == 0xA0) {
        2
    } else if j - s >= 3 && ((b[j - 3] == 0xE1 && b[j - 2] == 0x9A && b[j - 1] == 0x80) || (
    b[j - 3] == 0xE2 && b[j - 2] == 0x80 && ((0x80 <= b[j - 1] && b[j - 1] <= 0x8A) || b[j - 1]
        == 0xA8 || b[j - 1] == 0xA9 || b[j - 1] == 0xAF)) || (b[j - 3] == 0xE2 && b[j - 2]
        == 0x81 && b[j - 1] == 0x9F) || (b[j - 3] == 0xE3 && b[j - 2] == 0x80 && b[j - 1]
        == 0x80)) {
        3
    } else {
        0
    }
}

/// The bounds of the text in `[s, e)` without its surrounding whitespace.
fn trim_range(b: &[u8], s: usize, e: usize) -> (r: (usize, usize))
    requires
        s <= e <= b@.len(),
    ensures
        r.0 == trim_start(b@, s as int, e as int),
        r.1 == trim_end(b@, r.0 as int, e as int),
        s <= r.0 <= r.1 <= e,
{
    let mut i: usize = s;
    loop
        invariant
            s <= i <= e <= b@.len(),
            trim_start(b@, i as int, e as int) == trim_start(b@, s as int, e as int),
        ensures
            s <= i <= e,
            trim_start(b@, i as int, e as int) == i,
            trim_start(b@, i as int, e as int) == trim_start(b@, s as int, e as int),
        decreases e - i,
    {
        if i >= e {
            break;
        }
        let w = space_width_at_exec(b, i, e);
        if w == 0 {
            break;
        }
        i = i + w;
    }
    let mut j: usize = e;
    loop
        invariant
            i <= j <= e <= b@.len(),
            trim_end(b@, i as int, j as int) == trim_end(b@, i as int, e as int),
        ensures
            i <= j <= e,
            trim_end(b@, i as int, j as int) == j,
            trim_end(b@, i as int, j as int) == trim_end(b@, i as int, e as int),
        decreases j - i,
    {
        if j <= i {
            break;
        }
        let w = space_width_before_exec(b, i, j);
        if w == 0 {
            break;
        }
        j = j - w;
    }
    (i, j)
}

/// The first index in `[from, e)` that holds `x`, or `e`.
fn find_byte(b: &[u8], from: usize, e: usize, x: u8) -> (r: usize)
    requires
        from <= e <= b@.len(),
    ensures
        r == find_from(b@, from as int, e as int, x),
        from <= r <= e,
{
    let mut i: usize = from;
    while i < e
        invariant
            from <= i <= e <= b@.len(),
            find_from(b@, i as int, e as int, x) == find_from(b@, from as int, e as int, x),
        decreases e - i,
    {
        if b[i] == x {
            return i;
        }
        i = i + 1;
    }
    i
}

/// The first index in `[from, e)` where a whitespace character starts, or
/// `e`.
fn find_space_exec(b: &[u8], from: usize, e: usize) -> (r: usize)
    requires
        from <= e <= b@.len(),
    ensures
        r == find_space(b@, from as int, e as int),
        from <= r <= e,
{
    let mut i: usize = from;
    while i < e
        invariant
            from <= i <= e <= b@.len(),
            find_space(b@, i as int, e as int) == find_space(b@, from as int, e as int),
        decreases e - i,
    {
        if space_width_at_exec(b, i, e) > 0 {
            return i;
        }
        i = i + 1;
    }
    i
}

/// Compiles the line in `[s, e)` of the source bytes.
fn compile_line(b: &[u8], s: usize, e: usize) -> (r: Option<Instruction>)
    requires
        s <= e <= b@.len(),
    ensures
        match r {
            Some(ins) => line_instrs(b@, s as int, e as int) == seq![ins@],
            None => line_instrs(b@, s as int, e as int) == Seq::<InstrView>::empty(),
        },
{
    let (ts, te) = trim_range(b, s, e);
    if ts == te || (te - ts >= 2 && b[ts] == 47 && b[ts + 1] == 47) {
        return None;
    }
    let sp = find_space_exec(b, ts, te);
    let op = match utf8_text(&b[ts..sp]) {
        Some(t) => {
            let u = to_upper(t.as_str());
            Opcode::from_mnemonic(u.as_str())
        },
        None => None,
    };
    match op {
        None => None,
        Some(Opcode::Push) => {
            if sp < te {
                let (vs, ve) = trim_range(b, sp, te);
                let operands = if ve - vs >= 2 && b[vs] == 34 && b[ve - 1] == 34 {
                    copy_bytes(&b[vs + 1..ve - 1])
                } else {
                    copy_bytes(&b[vs..ve])
                };
                Some(Instruction { opcode: Opcode::Push, operands })
            } else {
                None
            }
        },
        Some(o) => Some(Instruction { opcode: o, operands: Vec::new() }),
    }
}

/// Turns source text, line by line, into a program.
pub struct Compiler;

impl Compiler {
    /// Compiles a program: each recognised line gives one instruction, in
    /// line order; blank lines, `//` comments and unknown mnemonics give
    /// none. It accepts every text.
    pub fn compile(input: &str) -> (r: Vec<Instruction>)
        ensures
            program_view(r@) == compile_spec(encode_utf8(input@)),
    {
        let b = input.as_bytes();
        let mut out: Vec<Instruction> = Vec::new();
        let mut pos: usize = 0;
        while pos < b.len()
            invariant
                pos <= b@.len(),
                b@ == encode_utf8(input@),
                compile_from(b@, 0) == program_view(out@) + compile_from(b@, pos as int),
            decreases b@.len() - pos,
        {
            let le = find_byte(b, pos, b.len(), 10u8);
            let line = compile_line(b, pos, le);
            let ghost before = out@;
            let ghost start = pos as int;
            match line {
                Some(ins) => {
                    out.push(ins);
                    assert(program_view(out@) =~= program_view(before) + seq![ins@]);
                },
                None => {},
            }
            let next = if le < b.len() {
                le + 1
            } else {
                b.len()
            };
            assert(compile_from(b@, start) =~= line_instrs(b@, start, le as int) + compile_from(
                b@,
                next as int,
            ));
            pos = next;
            assert(program_view(out@) + compile_from(b@, pos as int) =~= program_view(before)
                + line_instrs(b@, start, le as int) + compile_from(b@, next as int));
        }
        assert(program_view(out@) + compile_from(b@, pos as int) =~= program_view(out@));
        out
    }
}

} // verus!
