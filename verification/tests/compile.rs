use isa_codec::{Instruction, Register, Value};

fn check_no_operand(inst: Instruction) {
    let bytes = inst.compile();
    assert_eq!(bytes, vec![inst.opcode(), 0x00]);
    assert_eq!(bytes.len(), inst.len().into());
}

fn check_one_reg(inst: Instruction, reg: Register) {
    let bytes = inst.compile();
    assert_eq!(bytes, vec![inst.opcode(), reg.compile_src()]);
    assert_eq!(bytes.len(), inst.len().into());
}

fn check_reg_pair(inst: Instruction, src: Register, dest: Register) {
    let bytes = inst.compile();
    assert_eq!(bytes, vec![inst.opcode(), src.compile_with(&dest)]);
    assert_eq!(bytes.len(), inst.len().into());
}

fn check_const_to_reg(inst: Instruction, value: Value, dest: Register) {
    let bytes = inst.compile();
    assert_eq!(
        bytes,
        vec![inst.opcode(), dest.compile_dest(), value.value_byte(0), value.value_byte(1)],
    );
    assert_eq!(bytes.len(), inst.len().into());
}

#[test]
fn nop() {
    check_no_operand(Instruction::nop());
}

#[test]
fn db() {
    let inst = Instruction::db(0xF3);
    let bytes = inst.compile();
    assert_eq!(bytes, vec![inst.opcode()]);
    assert_eq!(bytes.len(), inst.len().into());
}

#[test]
fn movc2r() {
    let inst = Instruction::movc2r(Value::byte(0xF3), Register::rb1()).unwrap();
    check_const_to_reg(inst, Value::byte(0xF3), Register::rb1());
    let inst = Instruction::movc2r(Value::word(0xF337), Register::r1()).unwrap();
    check_const_to_reg(inst, Value::word(0xF337), Register::r1());
}

#[test]
fn movr2r() {
    let inst = Instruction::movr2r(Register::rb0(), Register::rb1()).unwrap();
    check_reg_pair(inst, Register::rb0(), Register::rb1());
    let inst = Instruction::movr2r(Register::r0(), Register::r1()).unwrap();
    check_reg_pair(inst, Register::r0(), Register::r1());
}

#[test]
fn movm2r() {
    let inst = Instruction::movm2r(Register::r0(), Register::rb1()).unwrap();
    check_reg_pair(inst, Register::r0(), Register::rb1());
}

#[test]
fn movr2m() {
    let inst = Instruction::movr2m(Register::rb0(), Register::r1()).unwrap();
    check_reg_pair(inst, Register::rb0(), Register::r1());
}

#[test]
fn push() {
    check_one_reg(Instruction::push(Register::r0()).unwrap(), Register::r0());
}

#[test]
fn pop() {
    check_one_reg(Instruction::pop(Register::r0()).unwrap(), Register::r0());
}

#[test]
fn addc2r() {
    let inst = Instruction::addc2r(Value::byte(0xF3), Register::rb1()).unwrap();
    check_const_to_reg(inst, Value::byte(0xF3), Register::rb1());
    let inst = Instruction::addc2r(Value::word(0xF337), Register::r1()).unwrap();
    check_const_to_reg(inst, Value::word(0xF337), Register::r1());
}

#[test]
fn addr2r() {
    let inst = Instruction::addr2r(Register::rb0(), Register::rb1()).unwrap();
    check_reg_pair(inst, Register::rb0(), Register::rb1());
    let inst = Instruction::addr2r(Register::r0(), Register::r1()).unwrap();
    check_reg_pair(inst, Register::r0(), Register::r1());
}

#[test]
fn subc2r() {
    let inst = Instruction::subc2r(Value::byte(0xF3), Register::rb1()).unwrap();
    check_const_to_reg(inst, Value::byte(0xF3), Register::rb1());
    let inst = Instruction::subc2r(Value::word(0xF337), Register::r1()).unwrap();
    check_const_to_reg(inst, Value::word(0xF337), Register::r1());
}

#[test]
fn subr2r() {
    let inst = Instruction::subr2r(Register::rb0(), Register::rb1()).unwrap();
    check_reg_pair(inst, Register::rb0(), Register::rb1());
    let inst = Instruction::subr2r(Register::r0(), Register::r1()).unwrap();
    check_reg_pair(inst, Register::r0(), Register::r1());
}

#[test]
fn not() {
    check_one_reg(Instruction::not(Register::rb0()).unwrap(), Register::rb0());
    check_one_reg(Instruction::not(Register::r0()).unwrap(), Register::r0());
}

#[test]
fn andc2r() {
    let inst = Instruction::andc2r(Value::byte(0xF3), Register::rb1()).unwrap();
    check_const_to_reg(inst, Value::byte(0xF3), Register::rb1());
    let inst = Instruction::andc2r(Value::word(0xF337), Register::r1()).unwrap();
    check_const_to_reg(inst, Value::word(0xF337), Register::r1());
}

#[test]
fn andr2r() {
    let inst = Instruction::andr2r(Register::rb0(), Register::rb1()).unwrap();
    check_reg_pair(inst, Register::rb0(), Register::rb1());
    let inst = Instruction::andr2r(Register::r0(), Register::r1()).unwrap();
    check_reg_pair(inst, Register::r0(), Register::r1());
}

#[test]
fn orc2r() {
    let inst = Instruction::orc2r(Value::byte(0xF3), Register::rb1()).unwrap();
    check_const_to_reg(inst, Value::byte(0xF3), Register::rb1());
    let inst = Instruction::orc2r(Value::word(0xF337), Register::r1()).unwrap();
    check_const_to_reg(inst, Value::word(0xF337), Register::r1());
}

#[test]
fn orr2r() {
    let inst = Instruction::orr2r(Register::rb0(), Register::rb1()).unwrap();
    check_reg_pair(inst, Register::rb0(), Register::rb1());
    let inst = Instruction::orr2r(Register::r0(), Register::r1()).unwrap();
    check_reg_pair(inst, Register::r0(), Register::r1());
}

#[test]
fn shl() {
    let inst = Instruction::shl(Value::byte(8), Register::rb0()).unwrap();
    let bytes = inst.compile();
    assert_eq!(bytes, vec![inst.opcode(), 8 | Register::rb0().compile_dest()]);
    assert_eq!(bytes.len(), inst.len().into());

    let inst = Instruction::shl(Value::byte(16), Register::r0()).unwrap();
    let bytes = inst.compile();
    assert_eq!(bytes, vec![inst.opcode(), 16 | Register::rb0().compile_dest()]);
    assert_eq!(bytes.len(), inst.len().into());
}

#[test]
fn shr() {
    let inst = Instruction::shr(Value::byte(8), Register::rb0()).unwrap();
    let bytes = inst.compile();
    assert_eq!(bytes, vec![inst.opcode(), 8 | Register::rb0().compile_dest()]);
    assert_eq!(bytes.len(), inst.len().into());

    let inst = Instruction::shr(Value::byte(16), Register::r0()).unwrap();
    let bytes = inst.compile();
    assert_eq!(bytes, vec![inst.opcode(), 16 | Register::rb0().compile_dest()]);
    assert_eq!(bytes.len(), inst.len().into());
}

#[test]
fn shre() {
    let inst = Instruction::shre(Value::byte(8), Register::rb0()).unwrap();
    let bytes = inst.compile();
    assert_eq!(bytes, vec![inst.opcode(), 8 | Register::rb0().compile_dest()]);
    assert_eq!(bytes.len(), inst.len().into());

    let inst = Instruction::shre(Value::byte(16), Register::r0()).unwrap();
    let bytes = inst.compile();
    assert_eq!(bytes, vec![inst.opcode(), 16 | Register::rb0().compile_dest()]);
    assert_eq!(bytes.len(), inst.len().into());
}

#[test]
fn cmpc2r() {
    let inst = Instruction::cmpc2r(Value::byte(0xF3), Register::rb1()).unwrap();
    check_const_to_reg(inst, Value::byte(0xF3), Register::rb1());
    let inst = Instruction::cmpc2r(Value::word(0xF337), Register::r1()).unwrap();
    check_const_to_reg(inst, Value::word(0xF337), Register::r1());
}

#[test]
fn cmpr2r() {
    let inst = Instruction::cmpr2r(Register::rb0(), Register::rb1()).unwrap();
    check_reg_pair(inst, Register::rb0(), Register::rb1());
    let inst = Instruction::cmpr2r(Register::r0(), Register::r1()).unwrap();
    check_reg_pair(inst, Register::r0(), Register::r1());
}

#[test]
fn ajmp() {
    check_one_reg(Instruction::ajmp(Register::r0()).unwrap(), Register::r0());
}

#[test]
fn jmp() {
    check_one_reg(Instruction::jmp(Register::r0()).unwrap(), Register::r0());
}

#[test]
fn jeq() {
    check_one_reg(Instruction::jeq(Register::r0()).unwrap(), Register::r0());
}

#[test]
fn jneq() {
    check_one_reg(Instruction::jneq(Register::r0()).unwrap(), Register::r0());
}

#[test]
fn jlt() {
    check_one_reg(Instruction::jlt(Register::r0()).unwrap(), Register::r0());
}

#[test]
fn jgt() {
    check_one_reg(Instruction::jgt(Register::r0()).unwrap(), Register::r0());
}

#[test]
fn jleq() {
    check_one_reg(Instruction::jleq(Register::r0()).unwrap(), Register::r0());
}

#[test]
fn jgeq() {
    check_one_reg(Instruction::jgeq(Register::r0()).unwrap(), Register::r0());
}

#[test]
fn jo() {
    check_one_reg(Instruction::jo(Register::r0()).unwrap(), Register::r0());
}

#[test]
fn jno() {
    check_one_reg(Instruction::jno(Register::r0()).unwrap(), Register::r0());
}

#[test]
fn callc() {
    let inst = Instruction::callc(Value::word(0xF337)).unwrap();
    let bytes = inst.compile();
    assert_eq!(bytes, vec![inst.opcode(), 0x00, 0x37, 0xF3]);
    assert_eq!(bytes.len(), inst.len().into());
}

#[test]
fn callr() {
    check_one_reg(Instruction::callr(Register::r0()).unwrap(), Register::r0());
}

#[test]
fn ret() {
    check_no_operand(Instruction::ret());
}

#[test]
fn interrupt() {
    check_one_reg(Instruction::interrupt(Register::r0()).unwrap(), Register::r0());
}

#[test]
fn sti() {
    check_one_reg(Instruction::sti(Register::r0()).unwrap(), Register::r0());
}

#[test]
fn cli() {
    check_no_operand(Instruction::cli());
}

#[test]
fn movc2r_concrete_frames() {
    let inst = Instruction::movc2r(Value::byte(0xF3), Register::rb0()).unwrap();
    assert_eq!(inst.compile(), vec![0x01, 0x60, 0xF3, 0x00]);

    let inst = Instruction::movc2r(Value::word(0xF337), Register::r0()).unwrap();
    assert_eq!(inst.compile(), vec![0x02, 0x60, 0x37, 0xF3]);
}

#[test]
fn addr2r_concrete_frame() {
    let src = Register::rb1();
    let dest = Register::rb0();
    let inst = Instruction::addr2r(src, dest).unwrap();
    let bytes = inst.compile();
    assert_eq!(bytes, vec![inst.opcode(), src.compile_with(&dest)]);
    assert_eq!(bytes, vec![0x0D, 0x67]);
}

#[test]
fn frame_lengths() {
    assert_eq!(Instruction::db(0x42).len(), 1);
    assert_eq!(Instruction::nop().len(), 2);
    assert_eq!(Instruction::movr2r(Register::r0(), Register::r1()).unwrap().len(), 2);
    assert_eq!(Instruction::shl(Value::byte(3), Register::rb2()).unwrap().len(), 2);
    assert_eq!(Instruction::movc2r(Value::byte(7), Register::rb2()).unwrap().len(), 4);
    assert_eq!(Instruction::callc(Value::word(0x1234)).unwrap().len(), 4);
}
