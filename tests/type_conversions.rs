use opencraft::type_conversions::Coerce;

#[test]
fn coerce_usize_to_u32() {
    let small: usize = 42;
    let r: u32 = small.coerce();
    assert_eq!(r, 42);
    let top: usize = u32::MAX as usize;
    let r: u32 = top.coerce();
    assert_eq!(r, u32::MAX);
}

#[test]
fn coerce_usize_to_u64() {
    let v: usize = 123_456;
    let r: u64 = v.coerce();
    assert_eq!(r, 123_456);
}

#[test]
fn coerce_u32_to_usize() {
    let r: usize = u32::MAX.coerce();
    assert_eq!(r, 4_294_967_295);
    let r: usize = 0u32.coerce();
    assert_eq!(r, 0);
}

#[test]
fn coerce_i32_to_usize() {
    let r: usize = 17i32.coerce();
    assert_eq!(r, 17);
    let r: usize = i32::MAX.coerce();
    assert_eq!(r, 2_147_483_647);
}
