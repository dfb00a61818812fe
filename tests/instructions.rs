use gbemu::cpu::Cpu;
use gbemu::gb::GameBoy;
use gbemu::handler::{
    add_a_b, add_hl_bc, add_sp_i8, adc_a_c, and_a_u8, bit_7_h, call_u16, ccf, cp_a_mhl, cpl, daa,
    dec_b, dec_mhl, ei, execute, inc_b, jp_z_u16, jr_nz_i8, ld_a_mff00_c, ld_a_mhli, ld_b_u8,
    ld_hl_sp_i8, ld_mff00_u8_a, ld_mu16_sp, or_a_c, pop_af, push_bc, res_0_a, ret, reti, rl_c,
    rlca, rst_38h, sbc_a_b, scf, set_3_mhl, sra_b, srl_a, sub_a_b, swap_a, xor_a_a,
};

fn machine() -> GameBoy {
    GameBoy::new()
}

/// Puts `code` into work RAM at 0xC000 and points PC just past its first byte.
fn load_code(cpu: &mut Cpu, code: &[u8]) {
    for (i, b) in code.iter().enumerate() {
        cpu.bus.write(0xC000 + i as u16, *b);
    }
    cpu.regs.pc = 0xC001;
}

fn flags(cpu: &Cpu) -> (bool, bool, bool, bool) {
    (cpu.regs.zf, cpu.regs.nf, cpu.regs.hf, cpu.regs.cf)
}

#[test]
fn add_a_b_half_carry() {
    let mut gb = machine();
    gb.cpu.regs.a = 0x0F;
    gb.cpu.regs.b = 0x01;
    gb.cpu.regs.cf = true;
    add_a_b(&mut gb.cpu);
    assert_eq!(gb.cpu.regs.a, 0x10);
    assert_eq!(flags(&gb.cpu), (false, false, true, false));
    assert_eq!(gb.cpu.cycles, 4);
}

#[test]
fn add_a_b_carry_and_zero() {
    let mut gb = machine();
    gb.cpu.regs.a = 0xFF;
    gb.cpu.regs.b = 0x01;
    add_a_b(&mut gb.cpu);
    assert_eq!(gb.cpu.regs.a, 0x00);
    assert_eq!(flags(&gb.cpu), (true, false, true, true));
}

#[test]
fn adc_adds_carry() {
    let mut gb = machine();
    gb.cpu.regs.a = 0x10;
    gb.cpu.regs.c = 0x0F;
    gb.cpu.regs.cf = true;
    adc_a_c(&mut gb.cpu);
    assert_eq!(gb.cpu.regs.a, 0x20);
    assert_eq!(flags(&gb.cpu), (false, false, true, false));
}

#[test]
fn sub_and_sbc() {
    let mut gb = machine();
    gb.cpu.regs.a = 0x10;
    gb.cpu.regs.b = 0x01;
    sub_a_b(&mut gb.cpu);
    assert_eq!(gb.cpu.regs.a, 0x0F);
    assert_eq!(flags(&gb.cpu), (false, true, true, false));
    gb.cpu.regs.a = 0x00;
    gb.cpu.regs.b = 0x00;
    gb.cpu.regs.cf = true;
    sbc_a_b(&mut gb.cpu);
    assert_eq!(gb.cpu.regs.a, 0xFF);
    assert_eq!(flags(&gb.cpu), (false, true, true, true));
}

#[test]
fn inc_dec_keep_carry() {
    let mut gb = machine();
    gb.cpu.regs.b = 0xFF;
    gb.cpu.regs.cf = true;
    inc_b(&mut gb.cpu);
    assert_eq!(gb.cpu.regs.b, 0x00);
    assert_eq!(flags(&gb.cpu), (true, false, true, true));
    dec_b(&mut gb.cpu);
    assert_eq!(gb.cpu.regs.b, 0xFF);
    assert_eq!(flags(&gb.cpu), (false, true, true, true));
    assert_eq!(gb.cpu.cycles, 4);
}

#[test]
fn logic_ops_flags() {
    let mut gb = machine();
    gb.cpu.regs.a = 0xFF;
    xor_a_a(&mut gb.cpu);
    assert_eq!(gb.cpu.regs.a, 0);
    assert_eq!(flags(&gb.cpu), (true, false, false, false));
    load_code(&mut gb.cpu, &[0xE6, 0x0F]);
    gb.cpu.regs.a = 0xF3;
    gb.cpu.regs.cf = true;
    and_a_u8(&mut gb.cpu);
    assert_eq!(gb.cpu.regs.a, 0x03);
    assert_eq!(flags(&gb.cpu), (false, false, true, false));
    assert_eq!(gb.cpu.regs.pc, 0xC002);
    assert_eq!(gb.cpu.cycles, 8);
}

#[test]
fn add_hl_bc_sixteen_bit() {
    let mut gb = machine();
    gb.cpu.regs.set_hl(0x0FFF);
    gb.cpu.regs.set_bc(0x0001);
    gb.cpu.regs.zf = true;
    add_hl_bc(&mut gb.cpu);
    assert_eq!(gb.cpu.regs.get_hl(), 0x1000);
    assert_eq!(flags(&gb.cpu), (true, false, true, false));
    gb.cpu.regs.set_hl(0xFFFF);
    add_hl_bc(&mut gb.cpu);
    assert_eq!(gb.cpu.regs.get_hl(), 0x0000);
    assert!(gb.cpu.regs.cf);
    assert_eq!(gb.cpu.cycles, 8);
}

#[test]
fn cp_reads_hl() {
    let mut gb = machine();
    gb.cpu.bus.write(0xC100, 0x42);
    gb.cpu.regs.set_hl(0xC100);
    gb.cpu.regs.a = 0x42;
    cp_a_mhl(&mut gb.cpu);
    assert_eq!(gb.cpu.regs.a, 0x42);
    assert_eq!(flags(&gb.cpu), (true, true, false, false));
    assert_eq!(gb.cpu.cycles, 8);
}

#[test]
fn load_immediate_and_increment_hl() {
    let mut gb = machine();
    load_code(&mut gb.cpu, &[0x06, 0x99]);
    ld_b_u8(&mut gb.cpu);
    assert_eq!(gb.cpu.regs.b, 0x99);
    assert_eq!(gb.cpu.regs.pc, 0xC002);
    gb.cpu.bus.write(0xC200, 0x5A);
    gb.cpu.regs.set_hl(0xC200);
    ld_a_mhli(&mut gb.cpu);
    assert_eq!(gb.cpu.regs.a, 0x5A);
    assert_eq!(gb.cpu.regs.get_hl(), 0xC201);
}

#[test]
fn rotates_and_shifts() {
    let mut gb = machine();
    gb.cpu.regs.a = 0x85;
    rlca(&mut gb.cpu);
    assert_eq!(gb.cpu.regs.a, 0x0B);
    assert_eq!(flags(&gb.cpu), (false, false, false, true));
    gb.cpu.regs.c = 0x80;
    gb.cpu.regs.cf = false;
    rl_c(&mut gb.cpu);
    assert_eq!(gb.cpu.regs.c, 0x00);
    assert_eq!(flags(&gb.cpu), (true, false, false, true));
    assert_eq!(gb.cpu.cycles, 8);
    gb.cpu.regs.a = 0xF1;
    swap_a(&mut gb.cpu);
    assert_eq!(gb.cpu.regs.a, 0x1F);
    srl_a(&mut gb.cpu);
    assert_eq!(gb.cpu.regs.a, 0x0F);
    assert!(gb.cpu.regs.cf);
}

#[test]
fn bit_and_set_on_memory() {
    let mut gb = machine();
    gb.cpu.regs.h = 0x7F;
    gb.cpu.regs.cf = true;
    bit_7_h(&mut gb.cpu);
    assert_eq!(flags(&gb.cpu), (true, false, true, true));
    gb.cpu.bus.write(0xC300, 0x00);
    gb.cpu.regs.set_hl(0xC300);
    set_3_mhl(&mut gb.cpu);
    assert_eq!(gb.cpu.bus.read(0xC300), 0x08);
    assert_eq!(gb.cpu.cycles, 16);
}

#[test]
fn daa_after_addition() {
    let mut gb = machine();
    gb.cpu.regs.a = 0x45;
    gb.cpu.regs.b = 0x38;
    add_a_b(&mut gb.cpu);
    daa(&mut gb.cpu);
    assert_eq!(gb.cpu.regs.a, 0x83);
    assert!(!gb.cpu.regs.cf);
}

#[test]
fn jr_taken_and_not_taken() {
    let mut gb = machine();
    load_code(&mut gb.cpu, &[0x20, 0xFE]);
    gb.cpu.regs.zf = false;
    jr_nz_i8(&mut gb.cpu);
    assert_eq!(gb.cpu.regs.pc, 0xC000);
    assert_eq!(gb.cpu.cycles, 12);
    load_code(&mut gb.cpu, &[0x20, 0xFE]);
    gb.cpu.regs.zf = true;
    jr_nz_i8(&mut gb.cpu);
    assert_eq!(gb.cpu.regs.pc, 0xC002);
    assert_eq!(gb.cpu.cycles, 8);
}

#[test]
fn call_and_ret() {
    let mut gb = machine();
    load_code(&mut gb.cpu, &[0xCD, 0x34, 0xC2]);
    gb.cpu.regs.sp = 0xDFFE;
    call_u16(&mut gb.cpu);
    assert_eq!(gb.cpu.regs.pc, 0xC234);
    assert_eq!(gb.cpu.regs.sp, 0xDFFC);
    assert_eq!(gb.cpu.bus.read(0xDFFD), 0xC0);
    assert_eq!(gb.cpu.bus.read(0xDFFC), 0x03);
    assert_eq!(gb.cpu.cycles, 24);
    ret(&mut gb.cpu);
    assert_eq!(gb.cpu.regs.pc, 0xC003);
    assert_eq!(gb.cpu.regs.sp, 0xDFFE);
    assert_eq!(gb.cpu.cycles, 16);
}

#[test]
fn push_pop_af_masks_flags() {
    let mut gb = machine();
    gb.cpu.regs.sp = 0xDFFE;
    gb.cpu.regs.set_bc(0x12FF);
    push_bc(&mut gb.cpu);
    pop_af(&mut gb.cpu);
    assert_eq!(gb.cpu.regs.a, 0x12);
    assert_eq!(gb.cpu.regs.get_f(), 0xF0);
    assert_eq!(gb.cpu.regs.get_af(), 0x12F0);
}

#[test]
fn store_sp_writes_both_bytes() {
    let mut gb = machine();
    load_code(&mut gb.cpu, &[0x08, 0x00, 0xC4]);
    gb.cpu.regs.sp = 0xBEEF;
    ld_mu16_sp(&mut gb.cpu);
    assert_eq!(gb.cpu.bus.read(0xC400), 0xEF);
    assert_eq!(gb.cpu.bus.read(0xC401), 0xBE);
    assert_eq!(gb.cpu.cycles, 20);
}

#[test]
fn execute_dispatches_by_opcode() {
    let mut gb = machine();
    gb.cpu.regs.a = 0x0F;
    gb.cpu.regs.b = 0x01;
    execute(&mut gb.cpu, 0x80);
    assert_eq!(gb.cpu.regs.a, 0x10);
    execute(&mut gb.cpu, 0xD3);
    assert!(gb.cpu.locked);
}

#[test]
fn clock_runs_prefixed_opcode() {
    let mut gb = machine();
    load_code(&mut gb.cpu, &[0xCB, 0x37]);
    gb.cpu.regs.pc = 0xC000;
    gb.cpu.regs.a = 0xAB;
    let cycles = gb.cpu.clock();
    assert_eq!(cycles, 8);
    assert_eq!(gb.cpu.regs.a, 0xBA);
    assert_eq!(gb.cpu.regs.pc, 0xC002);
}

#[test]
fn illegal_opcode_locks_up() {
    let mut gb = machine();
    load_code(&mut gb.cpu, &[0xFD, 0x00]);
    gb.cpu.regs.pc = 0xC000;
    gb.cpu.clock();
    assert!(gb.locked());
    let pc = gb.cpu.regs.pc;
    assert_eq!(gb.cpu.clock(), 4);
    assert_eq!(gb.cpu.regs.pc, pc);
}

#[test]
fn stack_pointer_offsets() {
    let mut gb = machine();
    load_code(&mut gb.cpu, &[0xE8, 0xFF]);
    gb.cpu.regs.sp = 0x0001;
    add_sp_i8(&mut gb.cpu);
    assert_eq!(gb.cpu.regs.sp, 0x0000);
    assert_eq!(flags(&gb.cpu), (false, false, true, true));
    assert_eq!(gb.cpu.cycles, 16);
    load_code(&mut gb.cpu, &[0xF8, 0x02]);
    gb.cpu.regs.sp = 0xFFF8;
    ld_hl_sp_i8(&mut gb.cpu);
    assert_eq!(gb.cpu.regs.get_hl(), 0xFFFA);
    assert_eq!(flags(&gb.cpu), (false, false, false, false));
    assert_eq!(gb.cpu.cycles, 12);
}

#[test]
fn restart_and_return_from_interrupt() {
    let mut gb = machine();
    gb.cpu.regs.pc = 0xC123;
    gb.cpu.regs.sp = 0xDFF0;
    rst_38h(&mut gb.cpu);
    assert_eq!(gb.cpu.regs.pc, 0x0038);
    assert_eq!(gb.cpu.cycles, 16);
    gb.cpu.ime = false;
    reti(&mut gb.cpu);
    assert_eq!(gb.cpu.regs.pc, 0xC123);
    assert!(gb.cpu.ime);
}

#[test]
fn conditional_absolute_jump() {
    let mut gb = machine();
    load_code(&mut gb.cpu, &[0xCA, 0x00, 0xD0]);
    gb.cpu.regs.zf = false;
    jp_z_u16(&mut gb.cpu);
    assert_eq!(gb.cpu.regs.pc, 0xC003);
    assert_eq!(gb.cpu.cycles, 12);
    load_code(&mut gb.cpu, &[0xCA, 0x00, 0xD0]);
    gb.cpu.regs.zf = true;
    jp_z_u16(&mut gb.cpu);
    assert_eq!(gb.cpu.regs.pc, 0xD000);
    assert_eq!(gb.cpu.cycles, 16);
}

#[test]
fn flag_instructions() {
    let mut gb = machine();
    gb.cpu.regs.a = 0x35;
    cpl(&mut gb.cpu);
    assert_eq!(gb.cpu.regs.a, 0xCA);
    assert!(gb.cpu.regs.nf && gb.cpu.regs.hf);
    scf(&mut gb.cpu);
    assert_eq!(flags(&gb.cpu), (gb.cpu.regs.zf, false, false, true));
    ccf(&mut gb.cpu);
    assert!(!gb.cpu.regs.cf);
    gb.cpu.regs.a = 0x80;
    gb.cpu.regs.c = 0x01;
    or_a_c(&mut gb.cpu);
    assert_eq!(gb.cpu.regs.a, 0x81);
    ei(&mut gb.cpu);
    assert!(gb.cpu.ime);
}

#[test]
fn shifts_keep_sign_and_clear_bits() {
    let mut gb = machine();
    gb.cpu.regs.b = 0x81;
    sra_b(&mut gb.cpu);
    assert_eq!(gb.cpu.regs.b, 0xC0);
    assert!(gb.cpu.regs.cf);
    gb.cpu.regs.a = 0xFF;
    res_0_a(&mut gb.cpu);
    assert_eq!(gb.cpu.regs.a, 0xFE);
    assert_eq!(gb.cpu.cycles, 8);
}

#[test]
fn high_page_loads() {
    let mut gb = machine();
    load_code(&mut gb.cpu, &[0xE0, 0x85]);
    gb.cpu.regs.a = 0x3C;
    ld_mff00_u8_a(&mut gb.cpu);
    assert_eq!(gb.cpu.bus.read(0xFF85), 0x3C);
    gb.cpu.regs.a = 0;
    gb.cpu.regs.c = 0x85;
    ld_a_mff00_c(&mut gb.cpu);
    assert_eq!(gb.cpu.regs.a, 0x3C);
    assert_eq!(gb.cpu.cycles, 8);
}

#[test]
fn decrement_memory_to_zero() {
    let mut gb = machine();
    gb.cpu.bus.write(0xC500, 0x01);
    gb.cpu.regs.set_hl(0xC500);
    gb.cpu.regs.cf = false;
    dec_mhl(&mut gb.cpu);
    assert_eq!(gb.cpu.bus.read(0xC500), 0x00);
    assert_eq!(flags(&gb.cpu), (true, true, false, false));
    assert_eq!(gb.cpu.cycles, 12);
}
