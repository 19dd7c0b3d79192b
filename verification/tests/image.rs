use pixi::image::premul;

#[test]
fn premultiplies_each_texel() {
    // floor(200*128/255), floor(100*128/255), floor(50*128/255), alpha kept.
    let mut texels = vec![200, 100, 50, 128];
    premul(&mut texels);
    assert_eq!(texels, vec![100, 50, 25, 128]);
}

#[test]
fn opaque_and_transparent_texels() {
    let mut texels = vec![200, 100, 50, 255, 200, 100, 50, 0];
    premul(&mut texels);
    assert_eq!(texels, vec![200, 100, 50, 255, 0, 0, 0, 0]);
}

#[test]
fn trailing_partial_texel_is_kept() {
    let mut texels = vec![200, 100, 50, 128, 7, 8];
    premul(&mut texels);
    assert_eq!(texels, vec![100, 50, 25, 128, 7, 8]);
}

#[test]
fn empty_buffer() {
    let mut texels: Vec<u8> = Vec::new();
    premul(&mut texels);
    assert!(texels.is_empty());
}
