use p150::{CpuState, P150Cpu};

fn boot(cpu: &mut P150Cpu) {
    loop {
        if cpu.tick() == CpuState::Halt {
            break;
        }
    }
}

#[test]
fn test_hammer_time() {
    // cpu should stop after 1 tick of this program
    let mut cpu = P150Cpu::new();
    cpu.init_mem([0xC000].as_slice());

    assert_eq!(cpu.tick(), CpuState::Halt)
}

#[test]
fn test_registers() {
    // cpu should set, move registers accordingly
    let mut cpu = P150Cpu::new();
    cpu.init_mem([0x2110, 0x4013, 0xC000].as_slice());
    boot(&mut cpu);

    assert_eq!(cpu.get_reg()[0x3], 0x10)
}

#[test]
fn test_memory() {
    // memory sets and memory stores should read back successfully
    // uninitialized registers should not match initialized registers
    let mut cpu = P150Cpu::new();
    cpu.init_mem([0x2120, 0x2330, 0x3140, 0x1240, 0xC000].as_slice());
    boot(&mut cpu);

    assert!(cpu.get_reg()[0x1] == cpu.get_reg()[0x2]);
    assert!(cpu.get_reg()[0x1] != cpu.get_reg()[0x3]);
}

#[test]
fn test_bin() {
    // tests the various binary operations against their rustc counterparts.
    let mut cpu = P150Cpu::new();
    cpu.init_mem([0x2121, 0x2222, 0x7312, 0x8412, 0x9512, 0xC000].as_slice());
    boot(&mut cpu);

    assert!(cpu.get_reg()[0x3] == (0x21 | 0x22));
    assert!(cpu.get_reg()[0x4] == (0x21 & 0x22));
    assert!(cpu.get_reg()[0x5] == (0x21 ^ 0x22));
}

#[test]
fn test_math() {
    // tests basic 2s comp. addition
    let mut cpu = P150Cpu::new();
    cpu.init_mem([0x2120, 0x220A, 0x5312, 0xC000].as_slice());
    boot(&mut cpu);

    assert_eq!(cpu.get_reg()[0x3], cpu.get_reg()[0x1] + cpu.get_reg()[0x2]);
    assert_eq!(cpu.get_reg()[0x3], 0x20 + 0x0A);
}

#[test]
fn test_math_sub() {
    // tests basic 2s comp subtraction
    let mut cpu = P150Cpu::new();

    cpu.init_mem([0x2130, 0x22FA, 0x5312, 0xC000].as_slice());
    boot(&mut cpu);

    assert_eq!(
        cpu.get_reg()[0x3],
        cpu.get_reg()[0x1].wrapping_add(cpu.get_reg()[0x2])
    );
    assert_eq!(cpu.get_reg()[0x3], ((0x30 + 0xFA) % 256) as u8);
    assert_eq!(cpu.get_reg()[0x3], 0x30 - 0x06);
}

#[test]
fn test_branch() {
    // checks that the program branches; skipping a halt and setting a status register
    let mut cpu = P150Cpu::new();
    cpu.init_mem([0x2021, 0x2121, 0xB108, 0xC000, 0x222A, 0xC000].as_slice());
    boot(&mut cpu);

    assert_eq!(cpu.get_reg()[0x2], 0x2A)
}

#[test]
fn test_shift() {
    // checks that the program rotates a single nibble 4 places
    // this should move a single hex digit from the lhs to the rhs.
    //
    // NOTE: shifting 12 bits (12 - 8) and 4 bits should be equivalent.
    let mut cpu = P150Cpu::new();
    cpu.init_mem([0x20B0, 0x21B0, 0xA0C0, 0xA140, 0xC000].as_slice());
    boot(&mut cpu);

    assert_eq!(cpu.get_reg()[0x0], 0x0B);
    assert_eq!(cpu.get_reg()[0x1], 0x0B);
}

#[test]
fn test_shift_right() {
    // checks that the program rotates a single nibble 3 places.
    // this arbitrary shift tests the directionality of the shift;
    //   which should be TO THE RIGHT.
    let mut cpu = P150Cpu::new();
    cpu.init_mem([0x200C, 0xA030, 0xC000].as_slice());
    boot(&mut cpu);

    // 0b0000_1100 3-> == 0b1000_0001
    // 0x0C               0x81
    assert_eq!(cpu.get_reg()[0x0], 0x81);
}

#[test]
#[should_panic]
fn test_shift_left() {
    // checks that the program rotates a single nibble 3 places.
    // this arbitrary shift tests the directionality of the shift;
    //   this is the CONVERSE to the test above.
    //
    let mut cpu = P150Cpu::new();
    cpu.init_mem([0x200C, 0xA030, 0xC000].as_slice());
    boot(&mut cpu);

    // 0b0000_1100 <-3 == 0b0110_0000
    // 0x0C               0x60
    assert_eq!(cpu.get_reg()[0x0], 0x60);
}
