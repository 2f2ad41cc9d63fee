use riri_mod_tools::memory::MemoryImage;
use riri_mod_tools::resolver::{
    deref_int_relative_pointer, get_address, get_address_may_thunk, get_address_may_thunk_absolute,
    get_indirect_address_long, get_indirect_address_long4, get_indirect_address_short,
    get_indirect_address_short2, try_deref_instruction_pointer, PointerExecutableBound,
    PointerUnbounded,
};

fn image(base: u64, bytes: Vec<u8>) -> MemoryImage {
    MemoryImage::new(base, bytes)
}

#[test]
fn resolve_offset_is_base_plus_offset() {
    let img = image(0x140000000, vec![0u8; 16]);
    assert_eq!(get_address(&img, 0), 0x140000000);
    assert_eq!(get_address(&img, 0x1234), 0x140001234);
    let img2 = image(7, vec![]);
    assert_eq!(get_address(&img2, 35), 42);
}

#[test]
fn short_jump_chases_signed_byte_plus_two() {
    // 0xEB 0x05 at address A: the resolver lands at A + 2 + 5.
    let a: u64 = 0x1000;
    let mut bytes = vec![0u8; 16];
    bytes[0] = 0xeb;
    bytes[1] = 0x05;
    bytes[7] = 0x90;
    let img = image(a, bytes);
    assert_eq!(get_address_may_thunk_absolute(&img, a), Some(a + 2 + 5));
}

#[test]
fn near_jump_chases_displacement() {
    // 0xE9 d0 d1 d2 d3 at address A with little-endian displacement D:
    // the resolver lands at A + 1 + D + 4.
    let a: u64 = 0x2000;
    let d: u64 = 0x10;
    let mut bytes = vec![0u8; 0x40];
    bytes[0] = 0xe9;
    bytes[1] = d as u8;
    let img = image(a, bytes);
    assert_eq!(get_address_may_thunk_absolute(&img, a), Some(a + 1 + d + 4));
}

#[test]
fn near_jump_negative_displacement() {
    let a: u64 = 0x2010;
    let mut bytes = vec![0u8; 0x40];
    // The jump sits 0x10 into the image; displacement -8 sign extends.
    bytes[0x10] = 0xe9;
    bytes[0x11] = 0xf8;
    bytes[0x12] = 0xff;
    bytes[0x13] = 0xff;
    bytes[0x14] = 0xff;
    let img = image(0x2000, bytes);
    // a + 1 + (-8) + 4 = a - 3
    assert_eq!(get_address_may_thunk_absolute(&img, a), Some(a - 3));
}

#[test]
fn indirect_far_jump_reads_absolute_pointer() {
    // 0xFF with modrm low nibble 5: an absolute eight-byte pointer at +6.
    let a: u64 = 0x3000;
    let mut bytes = vec![0u8; 0x40];
    bytes[0] = 0xff;
    bytes[1] = 0x25;
    let target: u64 = 0x3020;
    bytes[6..14].copy_from_slice(&target.to_le_bytes());
    bytes[0x20] = 0x90;
    let img = image(a, bytes);
    assert_eq!(get_address_may_thunk_absolute(&img, a), Some(target));
}

#[test]
fn non_jump_byte_resolves_in_place() {
    let a: u64 = 0x4000;
    let img = image(a, vec![0x48, 0x83, 0xec, 0x28]);
    assert_eq!(get_address_may_thunk(&img, 0), Some(a));
    assert_eq!(get_address_may_thunk(&img, 2), Some(a + 2));
}

#[test]
fn bounds_rejection_outside_module() {
    // Any address outside [base, base + size) is rejected under the
    // executable bounds policy, whatever the bytes hold.
    let img = image(0x1000, vec![0x90u8; 0x100]);
    assert_eq!(
        try_deref_instruction_pointer::<PointerExecutableBound>(&img, 0x0fff),
        None
    );
    assert_eq!(
        try_deref_instruction_pointer::<PointerExecutableBound>(&img, 0x1100),
        None
    );
    assert_eq!(
        try_deref_instruction_pointer::<PointerExecutableBound>(&img, 0),
        None
    );
    // Inside the module the same policy accepts.
    assert_eq!(
        try_deref_instruction_pointer::<PointerExecutableBound>(&img, 0x1000),
        Some(0x1000)
    );
}

#[test]
fn unbounded_rejects_only_null() {
    let img = image(0, vec![0x90u8; 4]);
    assert_eq!(try_deref_instruction_pointer::<PointerUnbounded>(&img, 0), None);
    assert_eq!(try_deref_instruction_pointer::<PointerUnbounded>(&img, 1), Some(1));
}

#[test]
fn jump_cycle_gives_no_result() {
    // Two short jumps that chase each other forever exhaust the chase
    // budget and yield no result.
    let a: u64 = 0x5000;
    let mut bytes = vec![0u8; 8];
    bytes[0] = 0xeb; // jumps to a + 2 + 2 = a + 4
    bytes[1] = 0x02;
    bytes[4] = 0xeb; // jumps back to a: a + 4 + 2 + (-6)
    bytes[5] = 0xfa;
    let img = image(a, bytes);
    assert_eq!(get_address_may_thunk_absolute(&img, a), None);
}

#[test]
fn relative_displacement_family() {
    // A four-byte displacement at addr: the target is addr + disp + 4.
    let base: u64 = 0x6000;
    let mut bytes = vec![0u8; 0x40];
    // Operand starting at offset 1 (second byte of the instruction).
    bytes[1] = 0x10;
    let img = image(base, bytes);
    assert_eq!(get_indirect_address_short(&img, 0), Some(base + 1 + 0x10 + 4));
    // deref_int_relative_pointer reads at the given address directly.
    assert_eq!(
        deref_int_relative_pointer::<riri_mod_tools::resolver::PointerUnbounded>(&img, base + 1),
        Some(base + 1 + 0x10 + 4)
    );

    let mut b2 = vec![0u8; 0x40];
    b2[2] = 0x08;
    let img2 = image(base, b2);
    assert_eq!(get_indirect_address_short2(&img2, 0), Some(base + 2 + 8 + 4));

    let mut b3 = vec![0u8; 0x40];
    b3[3] = 0x04;
    let img3 = image(base, b3);
    assert_eq!(get_indirect_address_long(&img3, 0), Some(base + 3 + 4 + 4));

    let mut b4 = vec![0u8; 0x40];
    b4[4] = 0x02;
    let img4 = image(base, b4);
    assert_eq!(get_indirect_address_long4(&img4, 0), Some(base + 4 + 2 + 4));
}

#[test]
fn relative_displacement_out_of_image_gives_none() {
    let img = image(0x7000, vec![0u8; 2]);
    assert_eq!(get_indirect_address_short(&img, 0), None);
}
