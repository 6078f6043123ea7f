use wordvm::op::{FaultKind, Op};
use wordvm::vm::{read_le, Fault, LoadError, Outcome, VM};

fn image(words: &[u16]) -> Vec<u8> {
    let mut bytes = Vec::new();
    for w in words {
        bytes.push((w & 0xff) as u8);
        bytes.push((w >> 8) as u8);
    }
    bytes
}

fn machine(words: &[u16], interactive: bool) -> VM {
    let mut vm = VM::new(interactive);
    assert_eq!(vm.load(image(words)), Ok(()));
    vm
}

fn text(vm: &VM) -> String {
    vm.output().iter().map(|&c| char::from_u32(c as u32).unwrap()).collect()
}

fn fault(kind: FaultKind, addr: usize, opcode: Option<u16>) -> Outcome {
    Outcome::Faulted(Fault { kind, addr, opcode })
}

#[test]
fn literal_arguments_resolve_to_themselves() {
    let vm = VM::new(false);
    assert_eq!(vm.val(0), Some(0));
    assert_eq!(vm.val(1234), Some(1234));
    assert_eq!(vm.val(32767), Some(32767));
}

#[test]
fn register_arguments_resolve_to_register_values() {
    let mut vm = machine(&[1, 32770, 7, 1, 32775, 9, 0], false);
    assert_eq!(vm.run(100), Outcome::Halted);
    assert_eq!(vm.val(32770), Some(7));
    assert_eq!(vm.val(32775), Some(9));
    assert_eq!(vm.val(32768), Some(0));
    assert_eq!(vm.val(32776), None);
    assert_eq!(vm.val(65535), None);
    assert_eq!(vm.register(2), 7);
}

#[test]
fn destination_arguments_name_registers() {
    let vm = VM::new(false);
    assert_eq!(vm.reg(32768), Some(0));
    assert_eq!(vm.reg(32775), Some(7));
    assert_eq!(vm.reg(5), None);
    assert_eq!(vm.reg(32776), None);
}

#[test]
fn next_reads_and_advances() {
    let vm = machine(&[19, 65], false);
    let mut ip = 1;
    assert_eq!(vm.next(&mut ip), Some(65));
    assert_eq!(ip, 2);
    let mut far = 32768;
    assert_eq!(vm.next(&mut far), None);
    assert_eq!(far, 32768);
}

#[test]
fn le_words_from_bytes() {
    assert_eq!(read_le(0x34, 0x12), 0x1234);
    assert_eq!(read_le(0xff, 0xff), 0xffff);
    assert_eq!(read_le(0, 1), 256);
}

#[test]
fn load_reads_little_endian_words() {
    let mut vm = VM::new(false);
    assert_eq!(vm.load(vec![0x34, 0x12, 0x78, 0x56]), Ok(()));
    assert_eq!(vm.read_mem(0), Ok(0x1234));
    assert_eq!(vm.read_mem(1), Ok(0x5678));
    assert_eq!(vm.read_mem(2), Ok(0));
}

#[test]
fn load_drops_a_trailing_odd_byte() {
    let mut vm = VM::new(false);
    assert_eq!(vm.load(vec![0x34, 0x12, 0x56]), Ok(()));
    assert_eq!(vm.read_mem(0), Ok(0x1234));
    assert_eq!(vm.read_mem(1), Ok(0));
}

#[test]
fn load_refuses_more_words_than_memory() {
    let mut vm = VM::new(false);
    assert_eq!(vm.load(vec![1u8; 65538]), Err(LoadError::TooLarge));
    assert_eq!(vm.read_mem(0), Ok(0));
    assert_eq!(vm.load(vec![1u8; 65537]), Ok(()));
    assert_eq!(vm.read_mem(32767), Ok(0x0101));
    let mut full = VM::new(false);
    assert_eq!(full.load(vec![2u8; 65536]), Ok(()));
    assert_eq!(full.read_mem(0), Ok(0x0202));
    assert_eq!(full.read_mem(32767), Ok(0x0202));
}

#[test]
fn memory_access_out_of_range() {
    let mut vm = VM::new(false);
    assert_eq!(vm.read_mem(32768), Err(FaultKind::AddressOutOfRange(32768)));
    assert_eq!(vm.write_mem(40000, 1), Err(FaultKind::AddressOutOfRange(40000)));
    assert_eq!(vm.write_mem(32767, 5), Ok(()));
    assert_eq!(vm.read_mem(32767), Ok(5));
}

#[test]
fn prints_and_halts() {
    let mut vm = machine(&[19, 65, 19, 10, 0], false);
    assert_eq!(vm.run(1000), Outcome::Halted);
    assert_eq!(text(&vm), "A\n");
    assert_eq!(vm.output(), &vec![65, 10]);
    assert_eq!(vm.ip(), 4);
}

#[test]
fn register_and_stack_round_trip() {
    let mut vm = machine(
        &[1, 32768, 5, 2, 32768, 3, 32769, 9, 32769, 32769, 48, 19, 32769, 0],
        false,
    );
    assert_eq!(vm.run(1000), Outcome::Halted);
    assert_eq!(text(&vm), "5");
    assert_eq!(vm.register(0), 5);
    assert_eq!(vm.register(1), 53);
    assert!(vm.stack().is_empty());
}

#[test]
fn jump_if_false_taken_when_zero() {
    let mut vm = machine(&[1, 32768, 0, 8, 32768, 9, 19, 70, 0, 19, 84, 0], false);
    assert_eq!(vm.run(1000), Outcome::Halted);
    assert_eq!(text(&vm), "T");
}

#[test]
fn jump_if_false_falls_through_when_nonzero() {
    let mut vm = machine(&[1, 32768, 1, 8, 32768, 9, 19, 70, 0, 19, 84, 0], false);
    assert_eq!(vm.run(1000), Outcome::Halted);
    assert_eq!(text(&vm), "F");
}

#[test]
fn jump_if_true_both_ways() {
    let mut taken = machine(&[7, 1, 6, 19, 70, 0, 19, 84, 0], false);
    assert_eq!(taken.run(100), Outcome::Halted);
    assert_eq!(text(&taken), "T");
    let mut not_taken = machine(&[7, 0, 6, 19, 70, 0, 19, 84, 0], false);
    assert_eq!(not_taken.run(100), Outcome::Halted);
    assert_eq!(text(&not_taken), "F");
}

#[test]
fn call_then_ret_returns_past_the_call() {
    let mut vm = machine(&[17, 3, 0, 18], false);
    assert_eq!(vm.step(), None);
    assert_eq!(vm.ip(), 3);
    assert_eq!(vm.stack(), &vec![2]);
    assert_eq!(vm.step(), None);
    assert_eq!(vm.ip(), 2);
    assert!(vm.stack().is_empty());
    assert_eq!(vm.step(), Some(Outcome::Halted));
}

#[test]
fn ret_on_empty_stack_halts() {
    let mut vm = machine(&[18], false);
    assert_eq!(vm.run(10), Outcome::Halted);
    assert_eq!(vm.ip(), 0);
}

#[test]
fn arithmetic_instructions() {
    let mut vm = machine(
        &[
            9, 32768, 32767, 2, // r0 = 1
            10, 32769, 200, 200, // r1 = 7232
            11, 32770, 17, 5, // r2 = 2
            12, 32771, 12, 10, // r3 = 8
            13, 32772, 12, 3, // r4 = 15
            14, 32773, 0, // r5 = 32767
            4, 32774, 3, 3, // r6 = 1
            5, 32775, 3, 4, // r7 = 0
            0,
        ],
        false,
    );
    assert_eq!(vm.run(100), Outcome::Halted);
    let regs: Vec<u16> = (0..8).map(|i| vm.register(i)).collect();
    assert_eq!(regs, vec![1, 7232, 2, 8, 15, 32767, 1, 0]);
}

#[test]
fn rmem_reads_memory() {
    let mut vm = machine(&[15, 32768, 4, 0, 4242], false);
    assert_eq!(vm.run(10), Outcome::Halted);
    assert_eq!(vm.register(0), 4242);
}

#[test]
fn self_modifying_code_runs_new_instruction() {
    let mut vm = machine(&[16, 4, 19, 21, 21, 88, 0], false);
    assert_eq!(vm.run(100), Outcome::Halted);
    assert_eq!(text(&vm), "X");
}

#[test]
fn decode_reflects_memory_writes() {
    let mut vm = machine(&[21, 0], false);
    let mut ip = 0;
    assert_eq!(vm.decode(&mut ip), Ok(Op::Noop));
    assert_eq!(ip, 1);
    assert_eq!(vm.write_mem(0, 19), Ok(()));
    assert_eq!(vm.write_mem(1, 66), Ok(()));
    let mut again = 0;
    assert_eq!(vm.decode(&mut again), Ok(Op::Out(66)));
    assert_eq!(again, 2);
    let mut vm2 = machine(&[16, 10, 1, 0], false);
    let mut ip2 = 10;
    assert_eq!(vm2.decode(&mut ip2), Ok(Op::Halt));
    assert_eq!(vm2.run(10), Outcome::Halted);
    let mut ip3 = 10;
    assert_eq!(vm2.decode(&mut ip3), Ok(Op::Assign(0, 0)));
    assert_eq!(ip3, 13);
}

#[test]
fn input_halts_when_empty_and_not_interactive() {
    let mut vm = machine(&[20, 32768, 19, 32768, 6, 0], false);
    assert_eq!(vm.run(100), Outcome::Halted);
    assert_eq!(vm.ip(), 0);
    vm.feed(&b"hi\n".to_vec());
    assert_eq!(vm.pending_input(), 3);
    assert_eq!(vm.run(100), Outcome::Halted);
    assert_eq!(text(&vm), "hi\n");
    assert_eq!(vm.pending_input(), 0);
    vm.clear_output();
    assert!(vm.output().is_empty());
}

#[test]
fn input_waits_when_empty_and_interactive() {
    let mut vm = machine(&[20, 32768, 19, 32768, 0], true);
    assert_eq!(vm.run(100), Outcome::AwaitingInput);
    assert_eq!(vm.ip(), 0);
    vm.feed(&vec![b'z']);
    assert_eq!(vm.run(100), Outcome::Halted);
    assert_eq!(text(&vm), "z");
    assert_eq!(vm.register(0), 122);
}

#[test]
fn unknown_opcode_faults() {
    let mut vm = machine(&[22], false);
    assert_eq!(vm.run(10), fault(FaultKind::UnknownOpcode(22), 0, Some(22)));
}

#[test]
fn pop_on_empty_stack_faults() {
    let mut vm = machine(&[21, 3, 32768], false);
    assert_eq!(vm.run(10), fault(FaultKind::StackUnderflow, 1, Some(3)));
    assert_eq!(vm.ip(), 1);
}

#[test]
fn invalid_operands_fault() {
    let mut bad_value = machine(&[19, 32776], false);
    assert_eq!(bad_value.run(10), fault(FaultKind::InvalidOperand(32776), 0, Some(19)));
    let mut literal_dest = machine(&[1, 5, 5], false);
    assert_eq!(literal_dest.run(10), fault(FaultKind::InvalidOperand(5), 0, Some(1)));
    assert_eq!(literal_dest.register(0), 0);
}

#[test]
fn mod_by_zero_faults() {
    let mut vm = machine(&[11, 32768, 5, 0], false);
    assert_eq!(vm.run(10), fault(FaultKind::DivisionByZero, 0, Some(11)));
}

#[test]
fn address_faults() {
    let mut rmem = machine(&[15, 32768, 6, 15, 32769, 32768, 40000], false);
    assert_eq!(rmem.run(10), fault(FaultKind::AddressOutOfRange(40000), 3, Some(15)));
    let mut wmem = machine(&[15, 32768, 6, 16, 32768, 1, 40000], false);
    assert_eq!(wmem.run(10), fault(FaultKind::AddressOutOfRange(40000), 3, Some(16)));
    let mut jump_far = machine(&[15, 32768, 5, 6, 32768, 40000], false);
    assert_eq!(jump_far.run(10), fault(FaultKind::AddressOutOfRange(40000), 40000, None));
    let mut truncated = machine(&[6, 32767], false);
    assert_eq!(truncated.write_mem(32767, 1), Ok(()));
    assert_eq!(truncated.run(10), fault(FaultKind::AddressOutOfRange(32768), 32767, Some(1)));
}

#[test]
fn run_stops_when_fuel_runs_out() {
    let mut vm = machine(&[6, 0], false);
    assert_eq!(vm.run(10), Outcome::OutOfFuel);
    assert_eq!(vm.ip(), 0);
    assert_eq!(vm.run(0), Outcome::OutOfFuel);
}

#[test]
fn exec_leaves_state_alone_on_fault() {
    let mut vm = VM::new(false);
    assert_eq!(vm.exec(Op::Call(40000), 2), wordvm::vm::Step::Fault(FaultKind::InvalidOperand(40000)));
    assert!(vm.stack().is_empty());
    assert_eq!(vm.exec(Op::Call(7), 2), wordvm::vm::Step::Next(7));
    assert_eq!(vm.stack(), &vec![2]);
}
