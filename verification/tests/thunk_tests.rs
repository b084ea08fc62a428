use wtl::thunk_x64;
use wtl::thunk_x86;

#[test]
fn stdthunk_x64_print() {
    let t = thunk_x64::Thunk::default();
    println!("print x64:{}", t.bytes().len());
    println!("{:?}", t);
    assert_eq!(t.bytes().len(), thunk_x64::THUNK_SIZE);
}

#[test]
fn stdthunk_x86_print() {
    let t = thunk_x86::Thunk::default();
    println!("print x86:{}", t.bytes().len());
    println!("{:?}", t);
    assert_eq!(t.bytes().len(), thunk_x86::THUNK_SIZE as usize);
}

#[test]
fn x64_thunk_code() {
    let mut t = thunk_x64::Thunk::default();
    t.init(0x1122_3344_5566_7788, 0x0102_0304_0506_0708);
    assert_eq!(t.bytes(), vec![
        0x48, 0xB9, 0x08, 0x07, 0x06, 0x05, 0x04, 0x03, 0x02, 0x01,
        0x48, 0xB8, 0x88, 0x77, 0x66, 0x55, 0x44, 0x33, 0x22, 0x11,
        0xFF, 0xE0,
    ]);
    assert_eq!(t.to_hex_string(), "48 b9 8 7 6 5 4 3 2 1 48 b8 88 77 66 55 44 33 22 11 ff e0 ");
}

#[test]
fn x86_thunk_jumps_to_func() {
    let mut t = thunk_x86::Thunk::default();
    t.init(0x0040_1000, 0x00AB_CDEF, 0x0050_0000);
    assert_eq!(t.m_relproc, (0x0040_1000u32).wrapping_sub(0x0050_0000 + 13));
    assert_eq!(0x0050_0000u32.wrapping_add(13).wrapping_add(t.m_relproc), 0x0040_1000);
    assert_eq!(t.bytes(), vec![
        0xC7, 0x44, 0x24, 0x04, 0xEF, 0xCD, 0xAB, 0x00, 0xE9,
        0xF3, 0x0F, 0xF0, 0xFF,
    ]);
    assert_eq!(t.to_hex_string(), "c7 44 24 4 ef cd ab 0 e9 f3 f f0 ff ");
}
