use raytracer::ppm::{encode, push_decimal, push_header, push_pixel};

#[test]
fn header_is_exact() {
    let mut out = Vec::new();
    push_header(&mut out, 400, 225);
    assert_eq!(out, b"P3\n400 225\n255\n".to_vec());
}

#[test]
fn decimal_digits() {
    for (n, s) in [(0u32, "0"), (7, "7"), (10, "10"), (255, "255"), (4294967295, "4294967295")] {
        let mut out = vec![b'x'];
        push_decimal(&mut out, n);
        assert_eq!(out, format!("x{}", s).into_bytes());
    }
}

#[test]
fn white_and_black_pixel_lines() {
    let mut out = Vec::new();
    push_pixel(&mut out, [255, 255, 255]);
    push_pixel(&mut out, [0, 0, 0]);
    push_pixel(&mut out, [12, 0, 200]);
    assert_eq!(out, b"255 255 255\n0 0 0\n12 0 200\n".to_vec());
}

#[test]
fn whole_image_row_major() {
    let pixels = vec![[1, 2, 3], [4, 5, 6], [7, 8, 9], [10, 11, 12]];
    let out = encode(2, 2, &pixels);
    assert_eq!(out, b"P3\n2 2\n255\n1 2 3\n4 5 6\n7 8 9\n10 11 12\n".to_vec());
}

#[test]
fn empty_image() {
    let out = encode(0, 1, &vec![]);
    assert_eq!(out, b"P3\n0 1\n255\n".to_vec());
}
