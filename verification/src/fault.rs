//! Fault capture: decoding and rendering processor trap state.
//!
//! On an unrecoverable hardware trap the platform vectors to a fault entry
//! point with the register frame saved; the handler decodes the cause code
//! against the architecture's fixed table, renders a diagnostic line with
//! the class name, the faulting instruction pointer and the faulting
//! address, renders the full register frame, and halts the core forever.
//! Decoding and rendering are pure and live here; reading the registers,
//! pushing the bytes into the text sink and the final halt loop are the
//! glue layer's.

use vstd::prelude::*;
use vstd::utf8::{encode_utf8, is_ascii_chars};

use crate::text::{ascii_bytes, dec_bytes, digits, hex_bytes, push_ascii};

verus! {

/// The register frame the hardware pushes on trap entry. Its layout is the
/// target's trap convention; the names and order are architecture-defined.
#[derive(Clone, Copy, PartialEq, Eq, Structural, Debug)]
pub struct TrapFrame {
    pub ra: usize,
    pub t0: usize,
    pub t1: usize,
    pub t2: usize,
    pub t3: usize,
    pub t4: usize,
    pub t5: usize,
    pub t6: usize,
    pub a0: usize,
    pub a1: usize,
    pub a2: usize,
    pub a3: usize,
    pub a4: usize,
    pub a5: usize,
    pub a6: usize,
    pub a7: usize,
    pub s0: usize,
    pub s1: usize,
    pub s2: usize,
    pub s3: usize,
    pub s4: usize,
    pub s5: usize,
    pub s6: usize,
    pub s7: usize,
    pub s8: usize,
    pub s9: usize,
    pub s10: usize,
    pub s11: usize,
    pub gp: usize,
    pub tp: usize,
    pub sp: usize,
    pub pc: usize,
    pub mstatus: usize,
    pub mcause: usize,
    pub mtval: usize,
}

/// The architecture's exception-cause table: the name of each defined fault
/// class, and `UNKNOWN` for every code outside the table.
pub open spec fn fault_class_spec(code: usize) -> Seq<char> {
    if code == 0 {
        "Instruction address misaligned"@
    } else if code == 1 {
        "Instruction access fault"@
    } else if code == 2 {
        "Illegal instruction"@
    } else if code == 3 {
        "Breakpoint"@
    } else if code == 4 {
        "Load address misaligned"@
    } else if code == 5 {
        "Load access fault"@
    } else if code == 6 {
        "Store/AMO address misaligned"@
    } else if code == 7 {
        "Store/AMO access fault"@
    } else if code == 8 {
        "Environment call from U-mode"@
    } else if code == 9 {
        "Environment call from S-mode"@
    } else if code == 10 {
        "Reserved"@
    } else if code == 11 {
        "Environment call from M-mode"@
    } else if code == 12 {
        "Instruction page fault"@
    } else if code == 13 {
        "Load page fault"@
    } else if code == 14 {
        "Reserved"@
    } else if code == 15 {
        "Store/AMO page fault"@
    } else {
        "UNKNOWN"@
    }
}

/// Decode an exception cause code to its class name.
pub fn fault_class(code: usize) -> (r: &'static str)
    ensures
        r@ == fault_class_spec(code),
{
    if code == 0 {
        "Instruction address misaligned"
    } else if code == 1 {
        "Instruction access fault"
    } else if code == 2 {
        "Illegal instruction"
    } else if code == 3 {
        "Breakpoint"
    } else if code == 4 {
        "Load address misaligned"
    } else if code == 5 {
        "Load access fault"
    } else if code == 6 {
        "Store/AMO address misaligned"
    } else if code == 7 {
        "Store/AMO access fault"
    } else if code == 8 {
        "Environment call from U-mode"
    } else if code == 9 {
        "Environment call from S-mode"
    } else if code == 10 {
        "Reserved"
    } else if code == 11 {
        "Environment call from M-mode"
    } else if code == 12 {
        "Instruction page fault"
    } else if code == 13 {
        "Load page fault"
    } else if code == 14 {
        "Reserved"
    } else if code == 15 {
        "Store/AMO page fault"
    } else {
        "UNKNOWN"
    }
}

/// Every class name in the table is plain ASCII.
proof fn lemma_fault_class_ascii(code: usize)
    ensures
        is_ascii_chars(fault_class_spec(code)),
{
    reveal_strlit("Instruction address misaligned");
    reveal_strlit("Instruction access fault");
    reveal_strlit("Illegal instruction");
    reveal_strlit("Breakpoint");
    reveal_strlit("Load address misaligned");
    reveal_strlit("Load access fault");
    reveal_strlit("Store/AMO address misaligned");
    reveal_strlit("Store/AMO access fault");
    reveal_strlit("Environment call from U-mode");
    reveal_strlit("Environment call from S-mode");
    reveal_strlit("Reserved");
    reveal_strlit("Environment call from M-mode");
    reveal_strlit("Instruction page fault");
    reveal_strlit("Load page fault");
    reveal_strlit("Store/AMO page fault");
    reveal_strlit("UNKNOWN");
}

/// The diagnostic line for a trap: the decoded class of the (masked) cause
/// code, the faulting instruction pointer and the faulting address, both in
/// hexadecimal.
pub open spec fn exception_line_spec(frame: TrapFrame) -> Seq<u8> {
    ascii_bytes("Exception '"@) + ascii_bytes(fault_class_spec(frame.mcause & 0xff)) + ascii_bytes(
        "' mepc="@,
    ) + digits(frame.pc as nat, 16) + ascii_bytes(", mtval="@) + digits(frame.mtval as nat, 16)
}

/// Render the trap's diagnostic line.
pub fn exception_line(frame: &TrapFrame) -> (r: Vec<u8>)
    ensures
        r@ == exception_line_spec(*frame),
{
    let code = frame.mcause & 0xff;
    let mut out: Vec<u8> = Vec::new();
    proof {
        reveal_strlit("Exception '");
        reveal_strlit("' mepc=");
        reveal_strlit(", mtval=");
        assert(is_ascii_chars("Exception '"@));
        assert(is_ascii_chars("' mepc="@));
        assert(is_ascii_chars(", mtval="@));
        lemma_fault_class_ascii(code);
    }
    push_ascii(&mut out, "Exception '");
    push_ascii(&mut out, fault_class(code));
    push_ascii(&mut out, "' mepc=");
    let mut h = hex_bytes(frame.pc as u64);
    out.append(&mut h);
    push_ascii(&mut out, ", mtval=");
    let mut h = hex_bytes(frame.mtval as u64);
    out.append(&mut h);
    proof {
        assert(out@ =~= exception_line_spec(*frame));
    }
    out
}

/// One register of the dump: `name=hex`, followed by a space.
pub open spec fn reg_bytes(name: Seq<char>, v: usize) -> Seq<u8> {
    ascii_bytes(name) + seq![0x3du8] + digits(v as nat, 16) + seq![0x20u8]
}

/// Append one register to the dump.
fn push_reg(out: &mut Vec<u8>, name: &str, v: usize)
    requires
        is_ascii_chars(name@),
    ensures
        final(out)@ == old(out)@ + reg_bytes(name@, v),
{
    push_ascii(out, name);
    out.push(0x3d);
    let mut h = hex_bytes(v as u64);
    out.append(&mut h);
    out.push(0x20);
    proof {
        assert(out@ =~= old(out)@ + reg_bytes(name@, v));
    }
}

/// The full register frame, each register as `name=hex`, in trap-frame
/// order.
pub open spec fn frame_dump_spec(f: TrapFrame) -> Seq<u8> {
    reg_bytes("ra"@, f.ra) + reg_bytes("t0"@, f.t0) + reg_bytes("t1"@, f.t1) + reg_bytes(
        "t2"@,
        f.t2,
    ) + reg_bytes("t3"@, f.t3) + reg_bytes("t4"@, f.t4) + reg_bytes("t5"@, f.t5) + reg_bytes(
        "t6"@,
        f.t6,
    ) + reg_bytes("a0"@, f.a0) + reg_bytes("a1"@, f.a1) + reg_bytes("a2"@, f.a2) + reg_bytes(
        "a3"@,
        f.a3,
    ) + reg_bytes("a4"@, f.a4) + reg_bytes("a5"@, f.a5) + reg_bytes("a6"@, f.a6) + reg_bytes(
        "a7"@,
        f.a7,
    ) + reg_bytes("s0"@, f.s0) + reg_bytes("s1"@, f.s1) + reg_bytes("s2"@, f.s2) + reg_bytes(
        "s3"@,
        f.s3,
    ) + reg_bytes("s4"@, f.s4) + reg_bytes("s5"@, f.s5) + reg_bytes("s6"@, f.s6) + reg_bytes(
        "s7"@,
        f.s7,
    ) + reg_bytes("s8"@, f.s8) + reg_bytes("s9"@, f.s9) + reg_bytes("s10"@, f.s10) + reg_bytes(
        "s11"@,
        f.s11,
    ) + reg_bytes("gp"@, f.gp) + reg_bytes("tp"@, f.tp) + reg_bytes("sp"@, f.sp) + reg_bytes(
        "pc"@,
        f.pc,
    ) + reg_bytes("mstatus"@, f.mstatus) + reg_bytes("mcause"@, f.mcause) + reg_bytes(
        "mtval"@,
        f.mtval,
    )
}

/// Render the full register frame.
#[verifier::rlimit(100)]
pub fn frame_dump(frame: &TrapFrame) -> (r: Vec<u8>)
    ensures
        r@ == frame_dump_spec(*frame),
{
    let mut out: Vec<u8> = Vec::new();
    proof {
        reveal_strlit("ra");
        reveal_strlit("t0");
        reveal_strlit("t1");
        reveal_strlit("t2");
        reveal_strlit("t3");
        reveal_strlit("t4");
        reveal_strlit("t5");
        reveal_strlit("t6");
        reveal_strlit("a0");
        reveal_strlit("a1");
        reveal_strlit("a2");
        reveal_strlit("a3");
        reveal_strlit("a4");
        reveal_strlit("a5");
        reveal_strlit("a6");
        reveal_strlit("a7");
        reveal_strlit("s0");
        reveal_strlit("s1");
        reveal_strlit("s2");
        reveal_strlit("s3");
        reveal_strlit("s4");
        reveal_strlit("s5");
        reveal_strlit("s6");
        reveal_strlit("s7");
        reveal_strlit("s8");
        reveal_strlit("s9");
        reveal_strlit("s10");
        reveal_strlit("s11");
        reveal_strlit("gp");
        reveal_strlit("tp");
        reveal_strlit("sp");
        reveal_strlit("pc");
        reveal_strlit("mstatus");
        reveal_strlit("mcause");
        reveal_strlit("mtval");
    }
    push_reg(&mut out, "ra", frame.ra);
    push_reg(&mut out, "t0", frame.t0);
    push_reg(&mut out, "t1", frame.t1);
    push_reg(&mut out, "t2", frame.t2);
    push_reg(&mut out, "t3", frame.t3);
    push_reg(&mut out, "t4", frame.t4);
    push_reg(&mut out, "t5", frame.t5);
    push_reg(&mut out, "t6", frame.t6);
    push_reg(&mut out, "a0", frame.a0);
    push_reg(&mut out, "a1", frame.a1);
    push_reg(&mut out, "a2", frame.a2);
    push_reg(&mut out, "a3", frame.a3);
    push_reg(&mut out, "a4", frame.a4);
    push_reg(&mut out, "a5", frame.a5);
    push_reg(&mut out, "a6", frame.a6);
    push_reg(&mut out, "a7", frame.a7);
    push_reg(&mut out, "s0", frame.s0);
    push_reg(&mut out, "s1", frame.s1);
    push_reg(&mut out, "s2", frame.s2);
    push_reg(&mut out, "s3", frame.s3);
    push_reg(&mut out, "s4", frame.s4);
    push_reg(&mut out, "s5", frame.s5);
    push_reg(&mut out, "s6", frame.s6);
    push_reg(&mut out, "s7", frame.s7);
    push_reg(&mut out, "s8", frame.s8);
    push_reg(&mut out, "s9", frame.s9);
    push_reg(&mut out, "s10", frame.s10);
    push_reg(&mut out, "s11", frame.s11);
    push_reg(&mut out, "gp", frame.gp);
    push_reg(&mut out, "tp", frame.tp);
    push_reg(&mut out, "sp", frame.sp);
    push_reg(&mut out, "pc", frame.pc);
    push_reg(&mut out, "mstatus", frame.mstatus);
    push_reg(&mut out, "mcause", frame.mcause);
    push_reg(&mut out, "mtval", frame.mtval);
    out
}

/// The panic diagnostic: the message and where it was raised.
pub open spec fn panic_line_spec(msg: Seq<char>, file: Seq<char>, line: u32) -> Seq<u8> {
    ascii_bytes("FAIL: "@) + encode_utf8(msg) + ascii_bytes(" at "@) + encode_utf8(file)
        + seq![0x3au8] + digits(line as nat, 10)
}

/// Render the panic diagnostic line.
pub fn panic_line(msg: &str, file: &str, line: u32) -> (r: Vec<u8>)
    ensures
        r@ == panic_line_spec(msg@, file@, line),
{
    let mut out: Vec<u8> = Vec::new();
    proof {
        reveal_strlit("FAIL: ");
        reveal_strlit(" at ");
        assert(is_ascii_chars("FAIL: "@));
        assert(is_ascii_chars(" at "@));
    }
    push_ascii(&mut out, "FAIL: ");
    let mut b = msg.as_bytes_vec();
    out.append(&mut b);
    push_ascii(&mut out, " at ");
    let mut b = file.as_bytes_vec();
    out.append(&mut b);
    out.push(0x3a);
    let mut d = dec_bytes(line as u64);
    out.append(&mut d);
    proof {
        assert(out@ =~= panic_line_spec(msg@, file@, line));
    }
    out
}

} // verus!
