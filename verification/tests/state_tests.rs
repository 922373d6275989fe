use mos6502::flags::StatusFlags;
use mos6502::memory_bus::MemoryBus;
use mos6502::stack::Stack;

#[test]
fn written_byte_reads_back() {
    let mut mem = MemoryBus::new();
    mem.write_byte(0x1234, 0xAB);
    assert_eq!(mem.read_byte(0x1234), 0xAB);
    mem.write_byte(0x0000, 0x01);
    assert_eq!(mem.read_byte(0x0000), 0x01);
    mem.write_byte(0xFFFF, 0xFE);
    assert_eq!(mem.read_byte(0xFFFF), 0xFE);
}

#[test]
fn memory_starts_zeroed_and_has_full_size() {
    let mem = MemoryBus::new();
    assert_eq!(mem.len(), 0x10000);
    assert_eq!(mem.read_byte(0x0000), 0);
    assert_eq!(mem.read_byte(0xC000), 0);
    assert_eq!(mem.read_byte(0xFFFF), 0);
}

#[test]
fn word_read_is_little_endian() {
    let mut mem = MemoryBus::new();
    mem.write_byte(0x0200, 0x34);
    mem.write_byte(0x0201, 0x12);
    assert_eq!(mem.read_u16(0x0200), 0x1234);
}

#[test]
fn word_read_at_top_wraps_high_byte_to_zero() {
    let mut mem = MemoryBus::new();
    mem.write_byte(0xFFFF, 0x34);
    mem.write_byte(0x0000, 0x12);
    assert_eq!(mem.read_u16(0xFFFF), 0x1234);
}

#[test]
fn packed_flags_round_trip() {
    let f = StatusFlags {
        carry: true,
        zero: false,
        interrupt_disabled: true,
        decimal: false,
        break_flag: true,
        overflow: false,
        sign: true,
    };
    assert_eq!(StatusFlags::from_u8(f.to_u8()), f);

    let g = StatusFlags {
        carry: false,
        zero: true,
        interrupt_disabled: false,
        decimal: true,
        break_flag: false,
        overflow: true,
        sign: false,
    };
    assert_eq!(StatusFlags::from_u8(g.to_u8()), g);
}

#[test]
fn packed_layout_is_nv1bdizc() {
    assert_eq!(StatusFlags::new().to_u8(), 0x20);
    let f = StatusFlags {
        carry: true,
        zero: true,
        interrupt_disabled: true,
        decimal: true,
        break_flag: true,
        overflow: true,
        sign: true,
    };
    assert_eq!(f.to_u8(), 0xFF);
    let carry_only = StatusFlags { carry: true, ..StatusFlags::new() };
    assert_eq!(carry_only.to_u8(), 0x21);
    let sign_only = StatusFlags { sign: true, ..StatusFlags::new() };
    assert_eq!(sign_only.to_u8(), 0xA0);
}

#[test]
fn stack_pushes_down_and_pops_back() {
    let mut mem = MemoryBus::new();
    let mut stack = Stack::new();
    assert_eq!(stack.pointer, 0xFF);
    stack.push(&mut mem, 0x42);
    assert_eq!(stack.pointer, 0xFE);
    assert_eq!(mem.read_byte(0x01FF), 0x42);
    assert_eq!(stack.pop(&mem), 0x42);
    assert_eq!(stack.pointer, 0xFF);
}

#[test]
fn stack_word_round_trip_is_low_then_high() {
    let mut mem = MemoryBus::new();
    let mut stack = Stack::new();
    stack.push_u16(&mut mem, 0xC002);
    assert_eq!(mem.read_byte(0x01FF), 0xC0);
    assert_eq!(mem.read_byte(0x01FE), 0x02);
    assert_eq!(stack.pop_u16(&mem), 0xC002);
    assert_eq!(stack.pointer, 0xFF);
}

#[test]
fn stack_pointer_wraps_below_zero() {
    let mut mem = MemoryBus::new();
    let mut stack = Stack::new();
    stack.pointer = 0x00;
    stack.push(&mut mem, 0x99);
    assert_eq!(stack.pointer, 0xFF);
    assert_eq!(mem.read_byte(0x0100), 0x99);
}
