use intel8080::{ConditionCodes, Intel8080, Register};

const CLEAR: ConditionCodes = ConditionCodes { s: false, z: false, p: false, cy: false, ac: false };

fn machine(program: &[u8]) -> Intel8080 {
    let mut cpu = Intel8080::new();
    assert_eq!(cpu.load(program), Ok(()));
    cpu
}

fn run(cpu: &mut Intel8080, steps: usize) {
    for _ in 0..steps {
        assert_eq!(cpu.tick(), Ok(()));
    }
}

fn registers(cpu: &Intel8080) -> [u8; 7] {
    [
        cpu.get_register(Register::B),
        cpu.get_register(Register::C),
        cpu.get_register(Register::D),
        cpu.get_register(Register::E),
        cpu.get_register(Register::H),
        cpu.get_register(Register::L),
        cpu.get_register(Register::A),
    ]
}

#[test]
fn nop_only_advances_the_program_counter() {
    let mut cpu = machine(&[0x00, 0x00]);
    run(&mut cpu, 1);
    assert_eq!(cpu.get_pc(), 1);
    assert_eq!(cpu.get_sp(), 0);
    assert_eq!(registers(&cpu), [0; 7]);
    assert_eq!(cpu.get_flags(), CLEAR);
    run(&mut cpu, 1);
    assert_eq!(cpu.get_pc(), 2);
}

#[test]
fn mvi_stores_the_immediate_in_each_register() {
    // MVI B,1; MVI C,2; MVI D,3; MVI E,4; MVI H,5; MVI L,6; MVI A,7
    let mut cpu = machine(&[
        0x06, 0x01, 0x0E, 0x02, 0x16, 0x03, 0x1E, 0x04, 0x26, 0x05, 0x2E, 0x06, 0x3E, 0x07,
    ]);
    run(&mut cpu, 7);
    assert_eq!(registers(&cpu), [1, 2, 3, 4, 5, 6, 7]);
    assert_eq!(cpu.get_pc(), 14);
    assert_eq!(cpu.get_flags(), CLEAR);
}

#[test]
fn mvi_m_stores_the_immediate_through_hl() {
    // LXI H,0x2000; MVI M,0x77
    let mut cpu = machine(&[0x21, 0x00, 0x20, 0x36, 0x77]);
    run(&mut cpu, 2);
    assert_eq!(cpu.read_memory(0x2000), 0x77);
    assert_eq!(cpu.get_register(Register::H), 0x20);
    assert_eq!(cpu.get_register(Register::L), 0x00);
    assert_eq!(cpu.get_pc(), 5);
}

#[test]
fn mov_copies_between_every_two_registers() {
    // Field values of B, C, D, E, H, L, A.
    let fields = [0u8, 1, 2, 3, 4, 5, 7];
    for (i, target) in fields.iter().enumerate() {
        for (j, source) in fields.iter().enumerate() {
            let op = 0x40 | (target << 3) | source;
            let mut cpu = machine(&[
                0x06, 0x11, 0x0E, 0x22, 0x16, 0x33, 0x1E, 0x44, 0x26, 0x55, 0x2E, 0x66, 0x3E, 0x77, op,
            ]);
            run(&mut cpu, 8);
            let mut expected = [0x11u8, 0x22, 0x33, 0x44, 0x55, 0x66, 0x77];
            expected[i] = expected[j];
            assert_eq!(registers(&cpu), expected);
            assert_eq!(cpu.get_pc(), 15);
            assert_eq!(cpu.get_flags(), CLEAR);
        }
    }
}

#[test]
fn mov_to_memory_writes_through_hl() {
    // LXI H,0x2000; MVI A,0x99; MOV M,A
    let mut cpu = machine(&[0x21, 0x00, 0x20, 0x3E, 0x99, 0x77]);
    run(&mut cpu, 3);
    assert_eq!(cpu.read_memory(0x2000), 0x99);
    assert_eq!(cpu.get_register(Register::A), 0x99);
    assert_eq!(cpu.get_pc(), 6);
}

#[test]
fn mov_from_memory_reads_through_hl() {
    // LXI H,0x0006; MOV B,M; the byte at 0x0006 is 0xAB.
    let mut cpu = machine(&[0x21, 0x06, 0x00, 0x46, 0x00, 0x00, 0xAB]);
    run(&mut cpu, 2);
    assert_eq!(cpu.get_register(Register::B), 0xAB);
    assert_eq!(cpu.read_memory(0x0006), 0xAB);
    assert_eq!(cpu.get_pc(), 4);
}

#[test]
fn mov_h_from_memory_uses_the_old_address() {
    // LXI H,0x0005; MOV H,M; the byte at 0x0005 is 0x9C.
    let mut cpu = machine(&[0x21, 0x05, 0x00, 0x66, 0x00, 0x9C]);
    run(&mut cpu, 2);
    assert_eq!(cpu.get_register(Register::H), 0x9C);
    assert_eq!(cpu.get_register(Register::L), 0x05);
}

#[test]
fn lxi_loads_each_pair_low_byte_first() {
    // LXI B,0x1234; LXI D,0x5678; LXI H,0x9ABC; LXI SP,0xDEF0
    let mut cpu = machine(&[
        0x01, 0x34, 0x12, 0x11, 0x78, 0x56, 0x21, 0xBC, 0x9A, 0x31, 0xF0, 0xDE,
    ]);
    run(&mut cpu, 4);
    assert_eq!(registers(&cpu), [0x12, 0x34, 0x56, 0x78, 0x9A, 0xBC, 0x00]);
    assert_eq!(cpu.get_sp(), 0xDEF0);
    assert_eq!(cpu.get_pc(), 12);
    assert_eq!(cpu.get_flags(), CLEAR);
}

#[test]
fn sta_then_lda_moves_the_accumulator_through_memory() {
    // MVI A,0x5C; STA 0x2010; MVI A,0x00; LDA 0x2010
    let mut cpu = machine(&[0x3E, 0x5C, 0x32, 0x10, 0x20, 0x3E, 0x00, 0x3A, 0x10, 0x20]);
    run(&mut cpu, 2);
    assert_eq!(cpu.read_memory(0x2010), 0x5C);
    assert_eq!(cpu.get_pc(), 5);
    run(&mut cpu, 1);
    assert_eq!(cpu.get_register(Register::A), 0x00);
    run(&mut cpu, 1);
    assert_eq!(cpu.get_register(Register::A), 0x5C);
    assert_eq!(cpu.get_pc(), 10);
    assert_eq!(cpu.get_flags(), CLEAR);
}

#[test]
fn ldax_reads_through_bc_and_de() {
    // LXI B,0x0008; LDAX B; the byte at 0x0008 is 0xCD.
    let mut cpu = machine(&[0x01, 0x08, 0x00, 0x0A, 0x00, 0x00, 0x00, 0x00, 0xCD]);
    run(&mut cpu, 2);
    assert_eq!(cpu.get_register(Register::A), 0xCD);
    assert_eq!(cpu.get_pc(), 4);
    // LXI D,0x0008; LDAX D; the byte at 0x0008 is 0xEF.
    let mut cpu = machine(&[0x11, 0x08, 0x00, 0x1A, 0x00, 0x00, 0x00, 0x00, 0xEF]);
    run(&mut cpu, 2);
    assert_eq!(cpu.get_register(Register::A), 0xEF);
    assert_eq!(cpu.get_pc(), 4);
}

#[test]
fn xchg_swaps_hl_with_de() {
    // LXI D,0x1234; LXI H,0x5678; XCHG
    let mut cpu = machine(&[0x11, 0x34, 0x12, 0x21, 0x78, 0x56, 0xEB]);
    run(&mut cpu, 3);
    assert_eq!(registers(&cpu), [0x00, 0x00, 0x56, 0x78, 0x12, 0x34, 0x00]);
    assert_eq!(cpu.get_flags(), CLEAR);
}

#[test]
fn add_a_doubles_and_carries() {
    // MVI A,0x80; ADD A
    let mut cpu = machine(&[0x3E, 0x80, 0x87]);
    run(&mut cpu, 2);
    assert_eq!(cpu.get_register(Register::A), 0x00);
    assert_eq!(
        cpu.get_flags(),
        ConditionCodes { s: false, z: true, p: true, cy: true, ac: false }
    );
    assert_eq!(cpu.get_pc(), 3);
}

#[test]
fn add_m_adds_the_byte_at_hl() {
    // LXI H,0x0007; MVI A,0x21; ADD M; the byte at 0x0007 is 0x42.
    let mut cpu = machine(&[0x21, 0x07, 0x00, 0x3E, 0x21, 0x86, 0x00, 0x42]);
    run(&mut cpu, 3);
    assert_eq!(cpu.get_register(Register::A), 0x63);
    assert_eq!(
        cpu.get_flags(),
        ConditionCodes { s: false, z: false, p: true, cy: false, ac: false }
    );
}

#[test]
fn ani_masks_and_clears_carry() {
    // STC; MVI A,0xAB; ANI 0x0F
    let mut cpu = machine(&[0x37, 0x3E, 0xAB, 0xE6, 0x0F]);
    run(&mut cpu, 3);
    assert_eq!(cpu.get_register(Register::A), 0x0B);
    assert_eq!(cpu.get_flags(), CLEAR);
    assert_eq!(cpu.get_pc(), 5);
}

#[test]
fn ani_to_zero_sets_zero_and_parity() {
    // MVI A,0xF0; ANI 0x0F
    let mut cpu = machine(&[0x3E, 0xF0, 0xE6, 0x0F]);
    run(&mut cpu, 2);
    assert_eq!(cpu.get_register(Register::A), 0x00);
    assert_eq!(
        cpu.get_flags(),
        ConditionCodes { s: false, z: true, p: true, cy: false, ac: false }
    );
}

#[test]
fn ana_b_ands_a_register_and_clears_carry() {
    // MVI A,0xF0; MVI B,0x3C; STC; ANA B
    let mut cpu = machine(&[0x3E, 0xF0, 0x06, 0x3C, 0x37, 0xA0]);
    run(&mut cpu, 4);
    assert_eq!(cpu.get_register(Register::A), 0x30);
    assert_eq!(cpu.get_register(Register::B), 0x3C);
    assert_eq!(
        cpu.get_flags(),
        ConditionCodes { s: false, z: false, p: true, cy: false, ac: false }
    );
    assert_eq!(cpu.get_pc(), 6);
}

#[test]
fn ana_m_ands_the_byte_at_hl() {
    // LXI H,0x0007; MVI A,0xFF; ANA M; the byte at 0x0007 is 0x81.
    let mut cpu = machine(&[0x21, 0x07, 0x00, 0x3E, 0xFF, 0xA6, 0x00, 0x81]);
    run(&mut cpu, 3);
    assert_eq!(cpu.get_register(Register::A), 0x81);
    assert_eq!(
        cpu.get_flags(),
        ConditionCodes { s: true, z: false, p: true, cy: false, ac: false }
    );
}

#[test]
fn ana_a_keeps_the_accumulator_and_sets_flags() {
    // STC; MVI A,0x80; ANA A
    let mut cpu = machine(&[0x37, 0x3E, 0x80, 0xA7]);
    run(&mut cpu, 3);
    assert_eq!(cpu.get_register(Register::A), 0x80);
    assert_eq!(
        cpu.get_flags(),
        ConditionCodes { s: true, z: false, p: false, cy: false, ac: false }
    );
}

#[test]
fn xra_a_clears_the_accumulator() {
    // MVI A,0x5A; STC; XRA A
    let mut cpu = machine(&[0x3E, 0x5A, 0x37, 0xAF]);
    run(&mut cpu, 3);
    assert_eq!(cpu.get_register(Register::A), 0x00);
    assert_eq!(
        cpu.get_flags(),
        ConditionCodes { s: false, z: true, p: true, cy: false, ac: false }
    );
    assert_eq!(cpu.get_pc(), 4);
}

#[test]
fn xra_c_flips_the_bits_set_in_c() {
    // MVI A,0xFF; MVI C,0x0F; XRA C
    let mut cpu = machine(&[0x3E, 0xFF, 0x0E, 0x0F, 0xA9]);
    run(&mut cpu, 3);
    assert_eq!(cpu.get_register(Register::A), 0xF0);
    assert_eq!(
        cpu.get_flags(),
        ConditionCodes { s: true, z: false, p: true, cy: false, ac: false }
    );
}

#[test]
fn xra_m_uses_the_byte_at_hl() {
    // LXI H,0x0007; MVI A,0x0F; XRA M; the byte at 0x0007 is 0x1F.
    let mut cpu = machine(&[0x21, 0x07, 0x00, 0x3E, 0x0F, 0xAE, 0x00, 0x1F]);
    run(&mut cpu, 3);
    assert_eq!(cpu.get_register(Register::A), 0x10);
    assert_eq!(cpu.get_flags(), CLEAR);
}

#[test]
fn dad_b_adds_bc_to_hl() {
    // LXI H,0x1234; LXI B,0x1111; DAD B
    let mut cpu = machine(&[0x21, 0x34, 0x12, 0x01, 0x11, 0x11, 0x09]);
    run(&mut cpu, 3);
    assert_eq!(cpu.get_register(Register::H), 0x23);
    assert_eq!(cpu.get_register(Register::L), 0x45);
    assert_eq!(cpu.get_register(Register::B), 0x11);
    assert_eq!(cpu.get_register(Register::C), 0x11);
    assert_eq!(cpu.get_flags(), CLEAR);
    assert_eq!(cpu.get_pc(), 7);
}

#[test]
fn dad_d_wraps_and_sets_carry() {
    // LXI H,0xFFFF; LXI D,0x0002; DAD D
    let mut cpu = machine(&[0x21, 0xFF, 0xFF, 0x11, 0x02, 0x00, 0x19]);
    run(&mut cpu, 3);
    assert_eq!(cpu.get_register(Register::H), 0x00);
    assert_eq!(cpu.get_register(Register::L), 0x01);
    assert_eq!(
        cpu.get_flags(),
        ConditionCodes { s: false, z: false, p: false, cy: true, ac: false }
    );
}

#[test]
fn dad_h_doubles_hl() {
    // LXI H,0x8001; DAD H
    let mut cpu = machine(&[0x21, 0x01, 0x80, 0x29]);
    run(&mut cpu, 2);
    assert_eq!(cpu.get_register(Register::H), 0x00);
    assert_eq!(cpu.get_register(Register::L), 0x02);
    assert!(cpu.get_flags().cy);
}

#[test]
fn dad_sp_adds_the_stack_pointer_into_hl() {
    // LXI SP,0x0100; LXI H,0x0023; DAD SP
    let mut cpu = machine(&[0x31, 0x00, 0x01, 0x21, 0x23, 0x00, 0x39]);
    run(&mut cpu, 3);
    assert_eq!(cpu.get_register(Register::H), 0x01);
    assert_eq!(cpu.get_register(Register::L), 0x23);
    assert_eq!(cpu.get_sp(), 0x0100);
    assert!(!cpu.get_flags().cy);
}

#[test]
fn dad_clears_an_earlier_carry() {
    // STC; LXI H,0x0001; LXI B,0x0001; DAD B
    let mut cpu = machine(&[0x37, 0x21, 0x01, 0x00, 0x01, 0x01, 0x00, 0x09]);
    run(&mut cpu, 4);
    assert_eq!(cpu.get_register(Register::L), 0x02);
    assert!(!cpu.get_flags().cy);
}

#[test]
fn inr_wraps_to_zero_and_leaves_carry_set() {
    // STC; MVI B,0xFF; INR B
    let mut cpu = machine(&[0x37, 0x06, 0xFF, 0x04]);
    run(&mut cpu, 3);
    assert_eq!(cpu.get_register(Register::B), 0x00);
    assert_eq!(
        cpu.get_flags(),
        ConditionCodes { s: false, z: true, p: true, cy: true, ac: false }
    );
    assert_eq!(cpu.get_pc(), 4);
}

#[test]
fn inr_leaves_carry_clear() {
    // MVI A,0xFF; INR A
    let mut cpu = machine(&[0x3E, 0xFF, 0x3C]);
    run(&mut cpu, 2);
    assert_eq!(cpu.get_register(Register::A), 0x00);
    assert!(!cpu.get_flags().cy);
    assert!(cpu.get_flags().z);
}

#[test]
fn inr_m_increments_the_byte_at_hl() {
    // LXI H,0x2000; MVI M,0x7F; INR M
    let mut cpu = machine(&[0x21, 0x00, 0x20, 0x36, 0x7F, 0x34]);
    run(&mut cpu, 3);
    assert_eq!(cpu.read_memory(0x2000), 0x80);
    assert_eq!(
        cpu.get_flags(),
        ConditionCodes { s: true, z: false, p: false, cy: false, ac: false }
    );
    assert_eq!(cpu.get_pc(), 6);
}

#[test]
fn dcr_wraps_to_255_and_leaves_carry_clear() {
    // MVI C,0x00; DCR C
    let mut cpu = machine(&[0x0E, 0x00, 0x0D]);
    run(&mut cpu, 2);
    assert_eq!(cpu.get_register(Register::C), 0xFF);
    assert_eq!(
        cpu.get_flags(),
        ConditionCodes { s: true, z: false, p: true, cy: false, ac: false }
    );
    assert_eq!(cpu.get_pc(), 3);
}

#[test]
fn dcr_to_zero_sets_zero_and_leaves_carry_set() {
    // STC; MVI B,0x01; DCR B
    let mut cpu = machine(&[0x37, 0x06, 0x01, 0x05]);
    run(&mut cpu, 3);
    assert_eq!(cpu.get_register(Register::B), 0x00);
    assert_eq!(
        cpu.get_flags(),
        ConditionCodes { s: false, z: true, p: true, cy: true, ac: false }
    );
}

#[test]
fn dcr_m_decrements_the_byte_at_hl() {
    // LXI H,0x2000; MVI M,0x01; DCR M
    let mut cpu = machine(&[0x21, 0x00, 0x20, 0x36, 0x01, 0x35]);
    run(&mut cpu, 3);
    assert_eq!(cpu.read_memory(0x2000), 0x00);
    assert_eq!(cpu.get_register(Register::H), 0x20);
    assert_eq!(cpu.get_register(Register::L), 0x00);
    assert!(cpu.get_flags().z);
}

#[test]
fn inx_carries_from_low_to_high_byte() {
    // LXI H,0x12FF; INX H
    let mut cpu = machine(&[0x21, 0xFF, 0x12, 0x23]);
    run(&mut cpu, 2);
    assert_eq!(cpu.get_register(Register::H), 0x13);
    assert_eq!(cpu.get_register(Register::L), 0x00);
    assert_eq!(cpu.get_flags(), CLEAR);
    assert_eq!(cpu.get_pc(), 4);
}

#[test]
fn inx_wraps_each_pair_to_zero() {
    // LXI B,0xFFFF; INX B
    let mut cpu = machine(&[0x01, 0xFF, 0xFF, 0x03]);
    run(&mut cpu, 2);
    assert_eq!(cpu.get_register(Register::B), 0x00);
    assert_eq!(cpu.get_register(Register::C), 0x00);
    assert_eq!(cpu.get_flags(), CLEAR);
    // LXI D,0xFFFF; INX D
    let mut cpu = machine(&[0x11, 0xFF, 0xFF, 0x13]);
    run(&mut cpu, 2);
    assert_eq!(cpu.get_register(Register::D), 0x00);
    assert_eq!(cpu.get_register(Register::E), 0x00);
    // LXI SP,0xFFFF; INX SP
    let mut cpu = machine(&[0x31, 0xFF, 0xFF, 0x33]);
    run(&mut cpu, 2);
    assert_eq!(cpu.get_sp(), 0x0000);
    assert_eq!(cpu.get_flags(), CLEAR);
}

#[test]
fn rlc_moves_bit_seven_to_bit_zero_and_carry() {
    // MVI A,0x80; RLC
    let mut cpu = machine(&[0x3E, 0x80, 0x07]);
    run(&mut cpu, 2);
    assert_eq!(cpu.get_register(Register::A), 0x01);
    assert_eq!(
        cpu.get_flags(),
        ConditionCodes { s: false, z: false, p: false, cy: true, ac: false }
    );
    assert_eq!(cpu.get_pc(), 3);
    // STC; MVI A,0x40; RLC
    let mut cpu = machine(&[0x37, 0x3E, 0x40, 0x07]);
    run(&mut cpu, 3);
    assert_eq!(cpu.get_register(Register::A), 0x80);
    assert_eq!(cpu.get_flags(), CLEAR);
}

#[test]
fn rrc_moves_bit_zero_to_bit_seven_and_carry() {
    // MVI A,0x01; RRC
    let mut cpu = machine(&[0x3E, 0x01, 0x0F]);
    run(&mut cpu, 2);
    assert_eq!(cpu.get_register(Register::A), 0x80);
    assert_eq!(
        cpu.get_flags(),
        ConditionCodes { s: false, z: false, p: false, cy: true, ac: false }
    );
    assert_eq!(cpu.get_pc(), 3);
    // STC; MVI A,0x02; RRC
    let mut cpu = machine(&[0x37, 0x3E, 0x02, 0x0F]);
    run(&mut cpu, 3);
    assert_eq!(cpu.get_register(Register::A), 0x01);
    assert_eq!(cpu.get_flags(), CLEAR);
}

#[test]
fn rrc_undoes_rlc_for_every_byte() {
    for a in 0..=255u8 {
        let mut cpu = machine(&[0x3E, a, 0x07, 0x0F]);
        run(&mut cpu, 2);
        assert_eq!(cpu.get_register(Register::A), a.rotate_left(1));
        assert_eq!(cpu.get_flags().cy, a >= 0x80);
        run(&mut cpu, 1);
        assert_eq!(cpu.get_register(Register::A), a);
        assert_eq!(cpu.get_flags().cy, a >= 0x80);
    }
}

#[test]
fn cma_complements_the_accumulator() {
    // MVI A,0x5A; CMA
    let mut cpu = machine(&[0x3E, 0x5A, 0x2F]);
    run(&mut cpu, 2);
    assert_eq!(cpu.get_register(Register::A), 0xA5);
    assert_eq!(cpu.get_flags(), CLEAR);
    assert_eq!(cpu.get_pc(), 3);
}

#[test]
fn stc_sets_and_cmc_toggles_carry() {
    // STC; CMC; CMC; STC
    let mut cpu = machine(&[0x37, 0x3F, 0x3F, 0x37]);
    run(&mut cpu, 1);
    assert_eq!(
        cpu.get_flags(),
        ConditionCodes { s: false, z: false, p: false, cy: true, ac: false }
    );
    run(&mut cpu, 1);
    assert_eq!(cpu.get_flags(), CLEAR);
    run(&mut cpu, 1);
    assert!(cpu.get_flags().cy);
    run(&mut cpu, 1);
    assert!(cpu.get_flags().cy);
    assert_eq!(cpu.get_pc(), 4);
}

#[test]
fn jmp_sets_the_program_counter() {
    // JMP 0x1234
    let mut cpu = machine(&[0xC3, 0x34, 0x12]);
    run(&mut cpu, 1);
    assert_eq!(cpu.get_pc(), 0x1234);
    assert_eq!(cpu.get_flags(), CLEAR);
}

#[test]
fn jnz_jumps_while_zero_is_clear() {
    // JNZ 0x1234
    let mut cpu = machine(&[0xC2, 0x34, 0x12]);
    run(&mut cpu, 1);
    assert_eq!(cpu.get_pc(), 0x1234);
}

#[test]
fn jnz_falls_through_when_zero_is_set() {
    // XRA A; JNZ 0x1234
    let mut cpu = machine(&[0xAF, 0xC2, 0x34, 0x12]);
    run(&mut cpu, 2);
    assert_eq!(cpu.get_pc(), 4);
}

#[test]
fn dcr_jnz_loop_counts_down() {
    // MVI B,3; loop: DCR B; JNZ loop
    let mut cpu = machine(&[0x06, 0x03, 0x05, 0xC2, 0x02, 0x00]);
    run(&mut cpu, 7);
    assert_eq!(cpu.get_register(Register::B), 0);
    assert_eq!(cpu.get_pc(), 6);
    assert!(cpu.get_flags().z);
}

#[test]
fn out_and_in_step_over_the_port_number() {
    // MVI A,0x42; OUT 0x10; IN 0x20
    let mut cpu = machine(&[0x3E, 0x42, 0xD3, 0x10, 0xDB, 0x20]);
    run(&mut cpu, 2);
    assert_eq!(cpu.get_pc(), 4);
    assert_eq!(cpu.get_register(Register::A), 0x42);
    run(&mut cpu, 1);
    assert_eq!(cpu.get_pc(), 6);
    assert_eq!(cpu.get_register(Register::A), 0x42);
    assert_eq!(cpu.get_flags(), CLEAR);
}

#[test]
fn ei_enables_and_di_disables_interrupts() {
    // EI; DI; EI
    let mut cpu = machine(&[0xFB, 0xF3, 0xFB]);
    assert!(!cpu.interrupts_enabled());
    run(&mut cpu, 1);
    assert!(cpu.interrupts_enabled());
    assert_eq!(cpu.get_pc(), 1);
    run(&mut cpu, 1);
    assert!(!cpu.interrupts_enabled());
    run(&mut cpu, 1);
    assert!(cpu.interrupts_enabled());
    assert_eq!(cpu.get_pc(), 3);
    assert_eq!(cpu.get_flags(), CLEAR);
}

#[test]
fn set_sp_changes_only_the_stack_pointer() {
    let mut cpu = machine(&[0x3E, 0x42]);
    run(&mut cpu, 1);
    cpu.set_sp(0x2400);
    assert_eq!(cpu.get_sp(), 0x2400);
    assert_eq!(cpu.get_pc(), 2);
    assert_eq!(cpu.get_register(Register::A), 0x42);
    assert_eq!(cpu.read_memory(0), 0x3E);
}

#[test]
fn execute_runs_the_given_opcode_with_operands_after_the_program_counter() {
    // The opcode is handed over; the immediate byte is fetched at pc + 1.
    let mut cpu = machine(&[0x00, 0x42]);
    assert_eq!(cpu.execute(0x3E), Ok(()));
    assert_eq!(cpu.get_register(Register::A), 0x42);
    assert_eq!(cpu.get_pc(), 2);
    // MOV B,A is decoded from the byte handed over, not from memory.
    assert_eq!(cpu.execute(0x47), Ok(()));
    assert_eq!(cpu.get_register(Register::B), 0x42);
    assert_eq!(cpu.get_pc(), 3);
}
