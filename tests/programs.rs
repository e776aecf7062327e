use rvm::cpu::{Cpu, Fault, State};
use rvm::image::{load_image, ImageError, MEMORY_BYTES};
use rvm::isa::MEMORY_WORDS;

fn image(words: &[[u8; 4]]) -> Vec<u8> {
    let mut bytes = Vec::new();
    for w in words {
        bytes.extend_from_slice(w);
    }
    bytes
}

fn boot(words: &[[u8; 4]]) -> Cpu {
    let memory = load_image(&image(words)).expect("image fits in memory");
    Cpu::new(memory, false)
}

fn regs(cpu: &Cpu) -> Vec<u32> {
    (0..16).map(|i| cpu.register(i).unwrap()).collect()
}

#[test]
fn add_then_print_prints_eight() {
    let mut cpu = boot(&[
        [0x01, 0, 5, 0],
        [0x01, 1, 3, 0],
        [0x02, 2, 0, 1],
        [0x03, 2, 0, 0],
        [0xff, 0, 0, 0],
    ]);
    let out = cpu.run(100);
    assert_eq!(out, vec![8]);
    assert_eq!(cpu.state(), State::Halted);
    assert_eq!(cpu.register(2), Some(8));
}

#[test]
fn equal_compare_then_jeq_skips_to_target() {
    let mut cpu = boot(&[
        [0x01, 0, 0, 0],
        [0x01, 1, 0, 0],
        [0x0a, 0, 1, 0],
        [0x0b, 5, 0, 0],
        [0x00, 0, 0, 0],
        [0x03, 0, 0, 0],
        [0xff, 0, 0, 0],
    ]);
    for _ in 0..3 {
        assert_eq!(cpu.step(), None);
    }
    assert!(cpu.zero_flag());
    assert!(!cpu.negative_flag());
    assert_eq!(cpu.step(), None);
    assert_eq!(cpu.pc(), 5);
    let out = cpu.run(100);
    assert_eq!(out, vec![0]);
    assert_eq!(cpu.state(), State::Halted);
}

#[test]
fn jeq_skips_an_intervening_print() {
    let mut cpu = boot(&[
        [0x01, 0, 7, 0],
        [0x01, 1, 7, 0],
        [0x0a, 0, 1, 0],
        [0x0b, 5, 0, 0],
        [0x03, 1, 0, 0],
        [0x01, 2, 9, 0],
        [0x03, 2, 0, 0],
        [0xff, 0, 0, 0],
    ]);
    assert_eq!(cpu.run(100), vec![9]);
}

#[test]
fn unknown_first_opcode_faults_without_effect() {
    let mut cpu = boot(&[[0x42, 0, 0, 0], [0x01, 0, 9, 0], [0x03, 0, 0, 0], [0xff, 0, 0, 0]]);
    let out = cpu.run(100);
    assert!(out.is_empty());
    assert_eq!(
        cpu.state(),
        State::Faulted(Fault::UnknownOpcode { opcode: 0x42, pc: 0 })
    );
    assert_eq!(regs(&cpu), vec![0; 16]);
    assert_eq!(cpu.pc(), 0);
    assert_eq!(cpu.psw(), 0);
}

#[test]
fn unknown_opcode_reports_its_pc() {
    let mut cpu = boot(&[[0x00, 0, 0, 0], [0x00, 0, 0, 0], [0x20, 0, 0, 0]]);
    cpu.run(100);
    assert_eq!(
        cpu.state(),
        State::Faulted(Fault::UnknownOpcode { opcode: 0x20, pc: 2 })
    );
}

#[test]
fn oversized_image_is_refused() {
    let bytes = vec![0u8; MEMORY_BYTES + 1];
    assert_eq!(
        load_image(&bytes),
        Err(ImageError::TooLarge { len: MEMORY_BYTES + 1, capacity: MEMORY_BYTES })
    );
}

#[test]
fn image_of_full_capacity_loads() {
    let mut bytes = vec![0u8; MEMORY_BYTES];
    bytes[MEMORY_BYTES - 4] = 0x78;
    bytes[MEMORY_BYTES - 1] = 0x12;
    let memory = load_image(&bytes).unwrap();
    assert_eq!(memory.len(), MEMORY_WORDS);
    assert_eq!(memory[MEMORY_WORDS - 1], 0x1200_0078);
}

#[test]
fn image_words_are_little_endian_and_zero_padded() {
    let memory = load_image(&vec![0x01, 0x02, 0x03, 0x04, 0xaa, 0xbb]).unwrap();
    assert_eq!(memory.len(), MEMORY_WORDS);
    assert_eq!(memory[0], 0x0403_0201);
    assert_eq!(memory[1], 0x0000_bbaa);
    assert_eq!(memory[2], 0);
}

#[test]
fn empty_image_is_all_zero() {
    let memory = load_image(&Vec::new()).unwrap();
    assert_eq!(memory.len(), MEMORY_WORDS);
    assert!(memory.iter().all(|w| *w == 0));
}
