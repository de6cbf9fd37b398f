//! Fault decoding, diagnostic rendering and uptime.

use bare_rt::fault::{exception_line, fault_class, frame_dump, panic_line, TrapFrame};
use bare_rt::text::{dec_bytes, hex_bytes};
use bare_rt::timestamp::Timestamp;

fn zero_frame() -> TrapFrame {
    TrapFrame {
        ra: 0,
        t0: 0,
        t1: 0,
        t2: 0,
        t3: 0,
        t4: 0,
        t5: 0,
        t6: 0,
        a0: 0,
        a1: 0,
        a2: 0,
        a3: 0,
        a4: 0,
        a5: 0,
        a6: 0,
        a7: 0,
        s0: 0,
        s1: 0,
        s2: 0,
        s3: 0,
        s4: 0,
        s5: 0,
        s6: 0,
        s7: 0,
        s8: 0,
        s9: 0,
        s10: 0,
        s11: 0,
        gp: 0,
        tp: 0,
        sp: 0,
        pc: 0,
        mstatus: 0,
        mcause: 0,
        mtval: 0,
    }
}

#[test]
fn fault_classes_exhaustive() {
    let table = [
        (0usize, "Instruction address misaligned"),
        (1, "Instruction access fault"),
        (2, "Illegal instruction"),
        (3, "Breakpoint"),
        (4, "Load address misaligned"),
        (5, "Load access fault"),
        (6, "Store/AMO address misaligned"),
        (7, "Store/AMO access fault"),
        (8, "Environment call from U-mode"),
        (9, "Environment call from S-mode"),
        (10, "Reserved"),
        (11, "Environment call from M-mode"),
        (12, "Instruction page fault"),
        (13, "Load page fault"),
        (14, "Reserved"),
        (15, "Store/AMO page fault"),
    ];
    for (code, name) in table {
        assert_eq!(fault_class(code), name);
    }
    // An out-of-table code decodes to UNKNOWN.
    assert_eq!(fault_class(16), "UNKNOWN");
    assert_eq!(fault_class(usize::MAX), "UNKNOWN");
}

#[test]
fn exception_line_renders_class_and_addresses() {
    let mut frame = zero_frame();
    frame.mcause = 2;
    frame.pc = 0x42;
    frame.mtval = 0x10;
    let line = exception_line(&frame);
    assert_eq!(line, b"Exception 'Illegal instruction' mepc=42, mtval=10".to_vec());
}

#[test]
fn exception_line_masks_high_cause_bits() {
    // Only the low byte of the cause register selects the class.
    let mut frame = zero_frame();
    frame.mcause = 0x8000_0000_0000_000c;
    frame.pc = 0xdead_beef;
    frame.mtval = 0xff;
    let line = exception_line(&frame);
    assert_eq!(
        line,
        b"Exception 'Instruction page fault' mepc=deadbeef, mtval=ff".to_vec()
    );
}

#[test]
fn frame_dump_lists_every_register() {
    let mut frame = zero_frame();
    frame.ra = 0x1;
    frame.a7 = 0xab;
    frame.mtval = 0x30;
    let dump = frame_dump(&frame);
    let expected = "ra=1 t0=0 t1=0 t2=0 t3=0 t4=0 t5=0 t6=0 \
                    a0=0 a1=0 a2=0 a3=0 a4=0 a5=0 a6=0 a7=ab \
                    s0=0 s1=0 s2=0 s3=0 s4=0 s5=0 s6=0 s7=0 s8=0 s9=0 s10=0 s11=0 \
                    gp=0 tp=0 sp=0 pc=0 mstatus=0 mcause=0 mtval=30 ";
    assert_eq!(dump, expected.as_bytes().to_vec());
}

#[test]
fn panic_line_renders_message_and_location() {
    let line = panic_line("panic", "src/main.rs", 42);
    assert_eq!(line, b"FAIL: panic at src/main.rs:42".to_vec());
}

#[test]
fn panic_line_unknown_location() {
    let line = panic_line("oops", "UNK", 0);
    assert_eq!(line, b"FAIL: oops at UNK:0".to_vec());
}

#[test]
fn uptime_splits_ticks() {
    let t = Timestamp::uptime(32_000_001);
    assert_eq!(t.secs, 2);
    assert_eq!(t.rem, 1);

    let zero = Timestamp::uptime(0);
    assert_eq!(zero.secs, 0);
    assert_eq!(zero.rem, 0);

    let edge = Timestamp::uptime(15_999_999);
    assert_eq!(edge.secs, 0);
    assert_eq!(edge.rem, 15_999_999);
}

#[test]
fn timestamp_renders_seconds_dot_remainder() {
    let t = Timestamp::uptime(32_000_001);
    assert_eq!(t.render(), b"2.1".to_vec());
    let zero = Timestamp::uptime(0);
    assert_eq!(zero.render(), b"0.0".to_vec());
}

#[test]
fn decimal_rendering() {
    assert_eq!(dec_bytes(0), b"0".to_vec());
    assert_eq!(dec_bytes(9), b"9".to_vec());
    assert_eq!(dec_bytes(10), b"10".to_vec());
    assert_eq!(dec_bytes(1_234_567_890), b"1234567890".to_vec());
    assert_eq!(dec_bytes(u64::MAX), b"18446744073709551615".to_vec());
}

#[test]
fn hexadecimal_rendering() {
    assert_eq!(hex_bytes(0), b"0".to_vec());
    assert_eq!(hex_bytes(0xf), b"f".to_vec());
    assert_eq!(hex_bytes(0x10), b"10".to_vec());
    assert_eq!(hex_bytes(0xdead_beef), b"deadbeef".to_vec());
    assert_eq!(hex_bytes(u64::MAX), b"ffffffffffffffff".to_vec());
}
