use nessy::cpu::instructions::{
    adc, and, asl, bcc, bcs, beq, bit, bmi, bne, brk, bvc, bvs, clc, cld, clv, cmp, cpx,
    cpy, dec, dex, dey, eor, inc, inx, iny, jmp, jsr, lda, ldx, ldy, lsr, lsr_acc, nop,
    ora, pha, php, pla, plp, rol, rol_acc, ror, ror_acc, rti, rts, sbc, sec, sed, sei,
    sta, stx, sty, tax, tay, tsx, txa, txs, tya,
};
use nessy::cpu::{utils, Memory, Registers, StatusFlag};

#[test]
fn sei_test() {
    let mut registers = Registers::new();
    registers.pc += 1;
    sei(&mut registers);
    assert_eq!(registers.status, 0b00000100);
}

#[test]
fn cld_test() {
    let mut registers = Registers::new();
    registers.status |= 0b00001000;
    registers.pc += 1;
    cld(&mut registers);
    assert_eq!(registers.status, 0b00000000);
}

#[test]
fn lda_test() {
    let mut registers = Registers::new();
    registers.pc += 1;
    lda(&mut registers, 0x42);
    assert_eq!(registers.a, 0x42);
    registers.pc += 1;
    lda(&mut registers, 0x0);
    assert_eq!(registers.a, 0x0);
    assert_eq!(registers.status & 0b00000010, 0b00000010);
    registers.pc += 1;
    lda(&mut registers, 0x80);
    assert_eq!(registers.a, 0x80);
    assert_eq!(registers.status & 0b10000000, 0b10000000);
    registers.pc += 1;
    lda(&mut registers, 0x80);
    assert_eq!(registers.a, 0x80);
    assert_eq!(registers.status & 0b10000000, 0b10000000);
}

#[test]
fn brk_test() {
    let mut registers = Registers::new();
    let mut memory = Memory::new();
    memory.memory[utils::BREAK_VECTOR_ADDDRESS as usize] = 0x42;
    memory.memory[(utils::BREAK_VECTOR_ADDDRESS + 1) as usize] = 0x0;
    registers.pc += 1;
    brk(&mut registers, &mut memory);
    assert_eq!(registers.status, 0b00110100);
    assert_eq!(memory.memory[0x01FE], 2);
    assert_eq!(memory.memory[0x01FF], 0);
    assert_eq!(registers.pc, 0x42);
}

#[test]
fn sta_test() {
    let mut registers = Registers::new();
    let mut memory = Memory::new();
    registers.a = 0x42;
    registers.pc += 1;
    sta(&mut registers, &mut memory, 0x12);
    assert_eq!(memory.memory[0x12], 0x42);
}

#[test]
fn inc_test() {
    let mut registers = Registers::new();
    let mut memory = Memory::new();

    memory.memory[0x0] = 41;
    registers.pc += 1;
    inc(&mut registers, &mut memory, 0x0);
    assert_eq!(memory.memory[0x0], 42);
}

#[test]
fn ldx_test() {
    let mut registers = Registers::new();

    registers.pc += 1;
    ldx(&mut registers, 0x42);
    assert_eq!(registers.x, 0x42);
    registers.pc += 1;
    ldx(&mut registers, 0x0);
    assert_eq!(registers.x, 0x0);
    assert_eq!(registers.status & 0b00000010, 0b00000010);
    registers.pc += 1;
    ldx(&mut registers, 0x80);
    assert_eq!(registers.x, 0x80);
    assert_eq!(registers.status & 0b10000000, 0b10000000);
}

#[test]
fn txs_test() {
    let mut registers = Registers::new();
    let mut memory = Memory::new();

    registers.x = 42;
    registers.pc += 1;
    txs(&mut registers, &mut memory);

    assert_eq!(memory.stack_pointer, 42);
}

#[test]
fn and_test() {
    let mut registers = Registers::new();

    registers.a = 0b00000001;
    registers.pc += 1;
    and(&mut registers, 0x1);
    assert_eq!(registers.a, 1);

    registers.a = 0b00000000;
    registers.pc += 1;
    and(&mut registers, 0x1);
    assert_eq!(registers.a, 0);

    registers.a = 0x6F;
    registers.pc += 1;
    and(&mut registers, 0xEF);
    assert_eq!(registers.a, 0x6F);
}

#[test]
fn beq_test() {
    let mut registers = Registers::new();

    registers.status = 0b00000000;
    registers.pc += 1;
    let _ = beq(&mut registers, 0x10);
    assert_eq!(registers.pc, 0x1);

    registers.pc = 0x0;
    registers.status = 0b00000010;
    registers.pc += 1;
    let _ = beq(&mut registers, 0x10);
    assert_eq!(registers.pc, 0x12);

    registers.pc = 0x43;
    registers.status = 0b00000010;
    registers.pc += 1;
    let _ = beq(&mut registers, 0xFD);
    assert_eq!(registers.pc, 0x42);
}

#[test]
fn cpx_test() {
    let mut registers = Registers::new();

    registers.x = 0x10;
    registers.pc += 1;
    cpx(&mut registers, 0x10);
    assert_eq!(registers.status, 0b00000011);

    registers.x = 0x9;
    registers.pc += 1;
    cpx(&mut registers, 0x10);
    assert_eq!(registers.status, 0b10000000);

    registers.x = 0x10;
    registers.pc += 1;
    cpx(&mut registers, 0x9);
    assert_eq!(registers.status, 0b00000001);

    registers.x = 0xFF;
    registers.pc += 1;
    cpx(&mut registers, 0x10);
    assert_eq!(registers.status, 0b10000001);
}

#[test]
fn dey_test() {
    let mut registers = Registers::new();

    registers.y = 0x43;
    registers.pc += 1;
    dey(&mut registers);
    assert_eq!(registers.y, 0x42);

    registers.y = 0x0;
    registers.pc += 1;
    dey(&mut registers);
    assert_eq!(registers.y, 0xFF);
}

#[test]
fn bpl_test() {
    let mut registers = Registers::new();

    registers.y = 0x43;
    registers.pc += 1;
    dey(&mut registers);
    assert_eq!(registers.y, 0x42);

    registers.y = 0x0;
    registers.pc += 1;
    dey(&mut registers);
    assert_eq!(registers.y, 0xFF);
}

#[test]
fn pla_test() {
    let mut registers = Registers::new();
    let mut memory = Memory::new();

    memory.stack_push(0x42);
    registers.pc += 1;
    pla(&mut registers, &mut memory);
    assert_eq!(registers.a, 0x42);
    assert_eq!(memory.stack_pointer, 0x1FF);

    memory.stack_push(0x6F);
    registers.status = 0x6F;
    registers.pc += 1;
    pla(&mut registers, &mut memory);
    assert_eq!(registers.a, 0x6F);
    assert_eq!(memory.stack_pointer, 0x1FF);
    assert_eq!(registers.status, 0x6D);
}

#[test]
fn tay_test() {
    let mut registers = Registers::new();
    registers.a = 0x42;
    registers.pc += 1;
    tay(&mut registers);
    assert_eq!(registers.a, 0x42);
    assert_eq!(registers.y, 0x42);

    registers.a = 0x99;
    registers.pc += 1;
    tay(&mut registers);
    assert_eq!(registers.a, 0x99);
    assert_eq!(registers.y, 0x99);
}

#[test]
fn cpy_test() {
    let mut registers = Registers::new();

    registers.y = 0x10;
    registers.pc += 1;
    cpy(&mut registers, 0x10);
    assert_eq!(registers.status, 0b00000011);

    registers.y = 0x9;
    registers.pc += 1;
    cpy(&mut registers, 0x10);
    assert_eq!(registers.status, 0b10000000);

    registers.y = 0xFF;
    registers.pc += 1;
    cpy(&mut registers, 0x10);
    assert_eq!(registers.status, 0b10000001);
}

#[test]
fn bne_test() {
    let mut registers = Registers::new();

    registers.status = 0b00000010;
    registers.pc += 1;
    let _ = bne(&mut registers, 0x10);
    assert_eq!(registers.pc, 0x1);

    registers.status = 0b00000000;
    registers.pc = 0;
    registers.pc += 1;
    let _ = bne(&mut registers, 0x10);
    assert_eq!(registers.pc, 0x12);

    registers.status = 0xE4;
    registers.pc = 0xC957;
    registers.pc += 1;
    let _ = bne(&mut registers, 0x5);
    assert_eq!(registers.pc, 0xC95E);
}

#[test]
fn rts_test() {
    let mut registers = Registers::new();
    let mut memory = Memory::new();

    memory.stack_push(0x0);
    memory.stack_push(0x4);

    registers.pc += 1;
    rts(&mut registers, &mut memory);
    assert_eq!(registers.pc, 0x5);
}

#[test]
fn jmp_test() {
    let mut registers = Registers::new();

    registers.pc += 1;
    jmp(&mut registers, 0x42);
    assert_eq!(registers.pc, 0x42);
}

#[test]
fn stx_test() {
    let mut registers = Registers::new();
    let mut memory = Memory::new();

    registers.x = 0x42;
    registers.pc += 1;
    stx(&mut registers, &mut memory, 0x30);
    assert_eq!(memory.memory[0x30], 0x42);
}

#[test]
fn jsr_test() {
    let mut registers = Registers::new();
    let mut memory = Memory::new();
    registers.pc = 0x42;
    registers.pc += 1;
    jsr(&mut registers, &mut memory, 0x100);
    assert_eq!(registers.pc, 0x100);
}

#[test]
fn nop_test() {
    nop();
}

#[test]
fn sec_test() {
    let mut registers = Registers::new();

    registers.pc += 1;
    sec(&mut registers);
    assert_eq!(registers.status & 0x1, 0x1);
}

#[test]
fn bcs_test() {
    let mut registers = Registers::new();

    registers.pc += 0xC72F;

    registers.pc += 1;
    let _ = bcs(&mut registers, 0x20);
    assert_eq!(registers.pc, 0xC730);

    registers.status |= 0x1;

    registers.pc = 0xC72F;
    registers.pc += 1;
    let _ = bcs(&mut registers, 0x4);
    assert_eq!(registers.pc, 0xC735);
}

#[test]
fn clc_test() {
    let mut registers = Registers::new();
    registers.status = 0b1;
    registers.pc += 1;
    let _ = clc(&mut registers);
    assert_eq!(registers.status, 0x0);
}

#[test]
fn bcc_test() {
    let mut registers = Registers::new();
    registers.status = 0b1;
    registers.pc += 1;
    let _ = bcc(&mut registers, 0x42);
    assert_eq!(registers.pc, 0x1);

    registers.status = 0b0;
    registers.pc = 0;
    registers.pc += 1;
    let _ = bcc(&mut registers, 0x42);
    assert_eq!(registers.pc, 0x44);

    registers.status = 0b0;
    registers.pc = 0xC74D;
    registers.pc += 1;
    let _ = bcc(&mut registers, 0x4);
    assert_eq!(registers.pc, 0xC753);
}

#[test]
fn php_test() {
    let mut registers = Registers::new();
    let mut memory = Memory::new();
    registers.status = 0b10101010;
    registers.pc += 1;
    php(&mut registers, &mut memory);
    assert_eq!(memory.memory[0x01FF], 0b10111010);
}

#[test]
fn bit_test() {
    let mut registers = Registers::new();
    let mut memory = Memory::new();
    registers.pc += 1;
    bit(&mut registers, &mut memory, 0x42);
    assert_eq!(registers.status, 0b00000010);

    memory.memory[0x42] = 0x1;
    registers.a = 0x1;
    registers.pc += 1;
    bit(&mut registers, &mut memory, 0x42);
    assert_eq!(registers.status, 0b00000000);

    memory.memory[0x42] = 0xF2;
    registers.a = 0xFF;
    registers.pc += 1;
    bit(&mut registers, &mut memory, 0x42);
    assert_eq!(registers.status, 0b11000000);
}

#[test]
fn bvs_test() {
    let mut registers = Registers::new();
    registers.pc += 1;
    let _ = bvs(&mut registers, 0x42);
    assert_eq!(registers.pc, 0x1);

    registers.status = 0b01000000;
    registers.pc = 0;
    registers.pc += 1;
    let _ = bvs(&mut registers, 0x42);
    assert_eq!(registers.pc, 0x44);
}

#[test]
fn bvc_test() {
    let mut registers = Registers::new();

    registers.status = 0b01000000;
    registers.pc += 1;
    let _ = bvc(&mut registers, 0x42);
    assert_eq!(registers.pc, 0x1);

    registers.status = 0b00000000;
    registers.pc = 0;
    registers.pc += 1;
    let _ = bvc(&mut registers, 0x42);
    assert_eq!(registers.pc, 0x44);
}

#[test]
fn ldy_test() {
    let mut registers = Registers::new();
    registers.pc += 1;
    ldy(&mut registers, 0x42);
    assert_eq!(registers.y, 0x42);
    registers.pc += 1;
    ldy(&mut registers, 0x0);
    assert_eq!(registers.y, 0x0);
    assert_eq!(registers.status & 0b00000010, 0b00000010);
    registers.pc += 1;
    ldy(&mut registers, 0x80);
    assert_eq!(registers.y, 0x80);
    assert_eq!(registers.status & 0b10000000, 0b10000000);
}

#[test]
fn asl_test() {
    let mut registers = Registers::new();
    let mut memory = Memory::new();
    registers.pc += 1;
    asl(&mut registers, &mut memory, 0x2, 0x2);
    assert_eq!(memory.memory[0x2], 0x4);
}

#[test]
fn rti_test() {
    let mut registers = Registers::new();
    let mut memory = Memory::new();

    memory.stack_push(0x0);
    memory.stack_push(0x2);
    memory.stack_push(0b10101010);
    registers.pc += 1;
    rti(&mut registers, &mut memory);

    assert_eq!(registers.status, 0b10001010);
    assert_eq!(registers.pc, 0x2);

    memory.stack_push(0xCE);
    memory.stack_push(0xCE);
    memory.stack_push(0x87);
    registers.pc += 1;
    rti(&mut registers, &mut memory);
    assert_eq!(registers.status, 0x87);
    assert_eq!(registers.pc, 0xCECE);
}

#[test]
fn sbc_test() {
    let mut registers = Registers::new();

    registers.status = 0x65;
    registers.a = 0x40;
    registers.pc += 1;
    sbc(&mut registers, 0x40);
    assert_eq!(registers.a, 0x0);
    assert_eq!(registers.status, 0x27);

    registers.status = 0xE5;
    registers.a = 0x40;
    registers.pc += 1;
    sbc(&mut registers, 0x41);
    assert_eq!(registers.a, 0xFF);
    assert_eq!(registers.status, 0xA4);
}

#[test]
fn sed_test() {
    let mut registers = Registers::new();
    registers.pc += 1;
    sed(&mut registers);
    assert_eq!(registers.status, 0x8)
}

#[test]
fn cmp_test() {
    let mut registers = Registers::new();

    registers.a = 0x10;
    registers.pc += 1;
    cmp(&mut registers, 0x10);
    assert_eq!(registers.status, 0b00000011);

    registers.a = 0x9;
    registers.pc += 1;
    cmp(&mut registers, 0x10);
    assert_eq!(registers.status, 0b10000000);

    registers.a = 0x10;
    registers.pc += 1;
    cmp(&mut registers, 0x9);
    assert_eq!(registers.status, 0b00000001);

    registers.a = 0xFF;
    registers.pc += 1;
    cmp(&mut registers, 0x10);

    registers.a = 0x7F;
    registers.pc += 1;
    cmp(&mut registers, 0x6F);
    assert_eq!(registers.status, 0b00000001);

    registers.a = 0x40;
    registers.pc += 1;
    registers.status = 0x25;
    cmp(&mut registers, 0x41);
    assert_eq!(registers.status, 0xA4);

    registers.a = 0xFF;
    registers.pc += 1;
    registers.status = 0xA4;
    cmp(&mut registers, 0xFF);
    assert_eq!(registers.status, 0x27);
}

#[test]
fn pha_test() {
    let mut registers = Registers::new();
    let mut memory = Memory::new();

    registers.a = 0x42;
    pha(&mut registers, &mut memory);
    assert_eq!(memory.stack_pop(), 0x42);
}

#[test]
fn plp_test() {
    let mut registers = Registers::new();
    let mut memory = Memory::new();

    memory.stack_push(0xFF);
    plp(&mut registers, &mut memory);
    assert_eq!(registers.status, 0xCF);

    memory.stack_push(0xFF);
    registers.set_flag(StatusFlag::Unused, true);
    plp(&mut registers, &mut memory);
    assert_eq!(registers.status, 0xEF);
}

#[test]
fn bmi_test() {
    let mut registers = Registers::new();

    let _ = bmi(&mut registers, 0x42);
    assert_eq!(registers.pc, 0x0);

    registers.set_flag(StatusFlag::N, true);
    let _ = bmi(&mut registers, 0x42);
    assert_eq!(registers.pc, 0x43);
}

#[test]
fn ora_test() {
    let mut registers = Registers::new();
    let mut memory = Memory::new();

    registers.a = 0b00000001;
    memory.memory[0x1] = 0b00000001;
    registers.pc += 1;
    ora(&mut registers, 0x1);
    assert_eq!(registers.a, 1);

    registers.a = 0b00000010;
    memory.memory[0x1] = 0b00000001;
    registers.pc += 1;
    ora(&mut registers, 0x1);
    assert_eq!(registers.a, 0b11);
}

#[test]
fn clv_test() {
    let mut registers = Registers::new();
    registers.set_flag(StatusFlag::V, true);
    registers.pc += 1;
    clv(&mut registers);
    assert_eq!(registers.is_flag_set(StatusFlag::V), false);
}

#[test]
fn eor_test() {
    let mut registers = Registers::new();

    registers.a = 0b1;
    eor(&mut registers, 0x1);
    assert_eq!(registers.a, 0b0);

    registers.a = 2;
    eor(&mut registers, 0x1);
    assert_eq!(registers.a, 0b11);

    registers.a = 0x5F;
    eor(&mut registers, 0xAA);
    assert_eq!(registers.a, 0xF5);
}

#[test]
fn adc_test() {
    let mut registers = Registers::new();

    registers.a = 0x2;
    adc(&mut registers, 0x40);
    assert_eq!(registers.a, 0x42);

    registers.a = 0x2;
    adc(&mut registers, 0xFF);
    assert_eq!(registers.a, 0x1);

    registers.a = 0x2;
    registers.set_flag(StatusFlag::C, true);
    adc(&mut registers, 0x40);
    assert_eq!(registers.a, 0x43);

    registers.a = 0x7F;
    registers.status = 0x25;
    adc(&mut registers, 0x7F);
    assert_eq!(registers.a, 0xFF);
    assert_eq!(registers.status, 0xE4);

    registers.a = 0x01;
    registers.status = 0x6D;
    adc(&mut registers, 0x69);
    assert_eq!(registers.a, 0x6B);
    assert_eq!(registers.status, 0x2C);
}

#[test]
fn sty_test() {
    let mut registers = Registers::new();
    let mut memory = Memory::new();

    registers.y = 0x42;
    registers.pc += 1;
    sty(&mut registers, &mut memory, 0x30);
    assert_eq!(memory.memory[0x30], 0x42);
}

#[test]
fn iny_test() {
    let mut registers = Registers::new();

    registers.y = 41;
    registers.pc += 1;
    iny(&mut registers);
    assert_eq!(registers.y, 42);
}

#[test]
fn inx_test() {
    let mut registers = Registers::new();

    registers.x = 41;
    registers.pc += 1;
    inx(&mut registers);
    assert_eq!(registers.x, 42);
}

#[test]
fn tax_test() {
    let mut registers = Registers::new();

    registers.a = 42;
    registers.pc += 1;
    tax(&mut registers);
    assert_eq!(registers.x, 42);
}

#[test]
fn tya_test() {
    let mut registers = Registers::new();

    registers.y = 42;
    registers.pc += 1;
    tya(&mut registers);
    assert_eq!(registers.a, 42);
}

#[test]
fn txa_test() {
    let mut registers = Registers::new();

    registers.x = 42;
    registers.pc += 1;
    txa(&mut registers);
    assert_eq!(registers.a, 42);
}

#[test]
fn tsx_test() {
    let mut registers = Registers::new();
    let mut memory = Memory::new();

    registers.pc += 1;
    tsx(&mut registers, &mut memory);
    assert_eq!(registers.x, memory.stack_pointer as u8);
}

#[test]
fn dex_test() {
    let mut registers = Registers::new();

    dex(&mut registers);
    assert_eq!(registers.x, 0xFF);
    assert_eq!(registers.status, 0b10000000);

    registers.x = 0x43;
    dex(&mut registers);
    assert_eq!(registers.x, 0x42);
    assert_eq!(registers.status, 0b00000000);
}

#[test]
fn lsr_test() {
    let mut registers = Registers::new();
    let mut memory = Memory::new();

    memory.memory[0x42] = 0x4;
    lsr(&mut registers, &mut memory, 0x42);
    assert_eq!(memory.memory[0x42], 0x2);

    registers.a = 0x4;
    lsr_acc(&mut registers);
    assert_eq!(registers.a, 0x2);
}

#[test]
fn ror_test() {
    let mut registers = Registers::new();
    let mut memory = Memory::new();

    memory.memory[0x42] = 0x4;
    ror(&mut registers, &mut memory, 0x42);
    assert_eq!(memory.memory[0x42], 0x2);

    registers.a = 0x4;
    ror_acc(&mut registers);
    assert_eq!(registers.a, 0x2);

    registers.a = 0x4;
    registers.set_flag(StatusFlag::C, true);
    ror_acc(&mut registers);
    assert_eq!(registers.a, 0x82);
}

#[test]
fn rol_test() {
    let mut registers = Registers::new();
    let mut memory = Memory::new();

    memory.memory[0x42] = 0x4;
    rol(&mut registers, &mut memory, 0x42, 0x4);
    assert_eq!(memory.memory[0x42], 0x8);

    registers.a = 0x4;
    rol_acc(&mut registers);
    assert_eq!(registers.a, 0x8);

    registers.a = 0x4;
    registers.set_flag(StatusFlag::C, true);
    rol_acc(&mut registers);
    assert_eq!(registers.a, 0x9);
}

#[test]
fn dec_test() {
    let mut registers = Registers::new();
    let mut memory = Memory::new();

    memory.memory[0x42] = 0x4;
    dec(&mut registers, &mut memory, 0x42);
    assert_eq!(memory.memory[0x42], 0x3);
}
