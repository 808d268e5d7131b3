use isa_codec::{Register, Width};
use isa_codec::utils::Error;

fn all_registers() -> Vec<Register> {
    vec![
        Register::RINFO,
        Register::RIP,
        Register::RINT,
        Register::Flags,
        Register::RSB,
        Register::RSH,
        Register::r0(),
        Register::r1(),
        Register::r2(),
        Register::r3(),
        Register::r4(),
        Register::r5(),
        Register::r6(),
        Register::r7(),
        Register::r8(),
        Register::r9(),
        Register::rb0(),
        Register::rb1(),
        Register::rb2(),
        Register::rb3(),
        Register::rb4(),
        Register::rb5(),
        Register::rb6(),
        Register::rb7(),
        Register::rb8(),
        Register::rb9(),
    ]
}

#[test]
fn compile_from_src() {
    for r in vec![
        Register::RINFO,
        Register::RIP,
        Register::RIP,
        Register::Flags,
        Register::RSB,
        Register::RSH,
        Register::r0(),
        Register::r1(),
        Register::r2(),
        Register::r3(),
        Register::r4(),
        Register::r5(),
        Register::r6(),
        Register::r7(),
        Register::r8(),
        Register::r9(),
        Register::rb0(),
        Register::rb1(),
        Register::rb2(),
        Register::rb3(),
        Register::rb4(),
        Register::rb5(),
        Register::rb6(),
        Register::rb7(),
        Register::rb8(),
        Register::rb9(),
    ] {
        let src = r.compile_src();
        assert_eq!(Register::from_src(r.width(), src), r);
    }
}

#[test]
fn from_str() {
    for r in vec![
        Register::RINFO,
        Register::RIP,
        Register::RIP,
        Register::Flags,
        Register::RSB,
        Register::RSH,
        Register::r0(),
        Register::r1(),
        Register::r2(),
        Register::r3(),
        Register::r4(),
        Register::r5(),
        Register::r6(),
        Register::r7(),
        Register::r8(),
        Register::r9(),
        Register::rb0(),
        Register::rb1(),
        Register::rb2(),
        Register::rb3(),
        Register::rb4(),
        Register::rb5(),
        Register::rb6(),
        Register::rb7(),
        Register::rb8(),
        Register::rb9(),
    ] {
        assert_eq!(Register::from_str(&r.name()), Ok(r));
    }
}

#[test]
fn compile_from_dest() {
    for r in all_registers() {
        let dest = r.compile_dest();
        assert_eq!(Register::from_dest(r.width(), dest), r);
    }
}

#[test]
fn slot_ids() {
    assert_eq!(Register::RINFO.compile_src(), 0);
    assert_eq!(Register::RIP.compile_src(), 1);
    assert_eq!(Register::RINT.compile_src(), 2);
    assert_eq!(Register::Flags.compile_src(), 3);
    assert_eq!(Register::RSB.compile_src(), 4);
    assert_eq!(Register::RSH.compile_src(), 5);
    assert_eq!(Register::r0().compile_src(), 6);
    assert_eq!(Register::rb0().compile_src(), 6);
    assert_eq!(Register::r9().compile_src(), 15);
    assert_eq!(Register::rb4().compile_dest(), 0xA0);
    assert_eq!(Register::rb1().compile_with(&Register::rb0()), 0x67);
}

#[test]
fn widths_and_writability() {
    assert_eq!(Register::RINFO.width(), Width::Word);
    assert_eq!(Register::Flags.width(), Width::Word);
    assert_eq!(Register::rb5().width(), Width::Byte);
    assert_eq!(Register::r5().width(), Width::Word);
    assert!(!Register::RIP.is_writable());
    assert!(!Register::RSH.is_writable());
    assert!(Register::rb0().is_writable());
    assert!(Register::r9().is_writable());
}

#[test]
fn names() {
    assert_eq!(Register::RINFO.name(), "RINFO");
    assert_eq!(Register::RIP.name(), "RIP");
    assert_eq!(Register::RINT.name(), "RINT");
    assert_eq!(Register::Flags.name(), "Flags");
    assert_eq!(Register::RSB.name(), "RSB");
    assert_eq!(Register::RSH.name(), "RSH");
    assert_eq!(Register::r0().name(), "R0");
    assert_eq!(Register::rb7().name(), "Rb7");
}

#[test]
fn from_str_mixed_case() {
    assert_eq!(Register::from_str("rinfo"), Ok(Register::RINFO));
    assert_eq!(Register::from_str("RiNfO"), Ok(Register::RINFO));
    assert_eq!(Register::from_str("FLAGS"), Ok(Register::Flags));
    assert_eq!(Register::from_str("rip"), Ok(Register::RIP));
    assert_eq!(Register::from_str("rInT"), Ok(Register::RINT));
    assert_eq!(Register::from_str("rsb"), Ok(Register::RSB));
    assert_eq!(Register::from_str("RSH"), Ok(Register::RSH));
    assert_eq!(Register::from_str("r3"), Ok(Register::r3()));
    assert_eq!(Register::from_str("RB3"), Ok(Register::rb3()));
    assert_eq!(Register::from_str("rb9"), Ok(Register::rb9()));
}

#[test]
fn from_str_invalid() {
    for text in ["", "r", "rb", "r10", "rb10", "rx", "flagss", "rinf", " rip", "rip ", "r-1"] {
        assert_eq!(
            Register::from_str(text),
            Err(Error::InvalidRegister(text.to_string())),
        );
    }
}
