use ellipsoid::texture::{ImageEncoding, TextureBank, TextureDescriptor, TextureError};

fn names(list: &[&str]) -> Vec<String> {
    list.iter().map(|s| s.to_string()).collect()
}

#[test]
fn candidates_follow_the_encoding() {
    let png = TextureDescriptor::new("A".to_string(), ImageEncoding::Png);
    assert_eq!(png.candidates(), names(&["A.png"]));
    let jpeg = TextureDescriptor::new("B".to_string(), ImageEncoding::Jpeg);
    assert_eq!(jpeg.candidates(), names(&["B.jpg", "B.jpeg"]));
    let pnm = TextureDescriptor::new("c".to_string(), ImageEncoding::Pnm);
    assert_eq!(pnm.candidates(), names(&["c.pbm", "c.pam", "c.ppm", "c.pgm"]));
}

#[test]
fn load_finds_both_textures() {
    let set = vec![
        TextureDescriptor::new("A".to_string(), ImageEncoding::Png),
        TextureDescriptor::new("B".to_string(), ImageEncoding::Jpeg),
    ];
    let bank = TextureBank::load(&set, &names(&["B.jpeg", "A.png", "B.jpg"])).unwrap();
    assert_eq!(bank.len(), 2);
    assert_eq!(bank.entry(0).unwrap().file, "A.png");
    assert_eq!(bank.entry(1).unwrap().file, "B.jpg");
    assert!(bank.entry(2).is_none());
}

#[test]
fn load_names_the_missing_texture() {
    let set = vec![
        TextureDescriptor::new("A".to_string(), ImageEncoding::Png),
        TextureDescriptor::new("B".to_string(), ImageEncoding::Jpeg),
    ];
    let without_b = TextureBank::load(&set, &names(&["A.png", "B.png"]));
    assert!(matches!(without_b, Err(TextureError::TextureNotFound { ref name }) if name == "B"));
    let without_a = TextureBank::load(&set, &names(&["B.jpg"]));
    assert!(matches!(without_a, Err(TextureError::TextureNotFound { ref name }) if name == "A"));
}

#[test]
fn locate_takes_the_first_candidate_that_exists() {
    let jpeg = TextureDescriptor::new("ball".to_string(), ImageEncoding::Jpeg);
    let only_second = jpeg.locate(&names(&["ball.jpeg", "paddle.jpg"])).unwrap();
    assert_eq!(only_second.file, "ball.jpeg");
    assert_eq!(only_second.name, "ball");
    assert_eq!(only_second.encoding, ImageEncoding::Jpeg);
    let both = jpeg.locate(&names(&["ball.jpeg", "ball.jpg"])).unwrap();
    assert_eq!(both.file, "ball.jpg");
    assert_eq!(jpeg.locate(&names(&["ball.png", "ball", "ball.", ".jpg", "Ball.jpg"])), None);
    assert_eq!(jpeg.locate(&names(&[])), None);
}

#[test]
fn every_encoding_has_its_extensions() {
    let table: [(ImageEncoding, &[&str]); 15] = [
        (ImageEncoding::Png, &["png"]),
        (ImageEncoding::Jpeg, &["jpg", "jpeg"]),
        (ImageEncoding::Gif, &["gif"]),
        (ImageEncoding::WebP, &["webp"]),
        (ImageEncoding::Pnm, &["pbm", "pam", "ppm", "pgm"]),
        (ImageEncoding::Tiff, &["tiff", "tif"]),
        (ImageEncoding::Tga, &["tga"]),
        (ImageEncoding::Dds, &["dds"]),
        (ImageEncoding::Bmp, &["bmp"]),
        (ImageEncoding::Ico, &["ico"]),
        (ImageEncoding::Hdr, &["hdr"]),
        (ImageEncoding::OpenExr, &["exr"]),
        (ImageEncoding::Farbfeld, &["ff"]),
        (ImageEncoding::Avif, &["avif"]),
        (ImageEncoding::Qoi, &["qoi"]),
    ];
    for (encoding, extensions) in table {
        let expected: Vec<String> = extensions.iter().map(|e| format!("t.{}", e)).collect();
        assert_eq!(TextureDescriptor::new("t".to_string(), encoding).candidates(), expected);
    }
}

#[test]
fn empty_set_loads_an_empty_bank() {
    let bank = TextureBank::load(&vec![], &names(&["A.png"])).unwrap();
    assert_eq!(bank.len(), 0);
    assert!(bank.entry(0).is_none());
}

#[test]
fn first_missing_texture_is_the_one_named() {
    let set = vec![
        TextureDescriptor::new("white".to_string(), ImageEncoding::Png),
        TextureDescriptor::new("paddle".to_string(), ImageEncoding::Jpeg),
        TextureDescriptor::new("ball".to_string(), ImageEncoding::Jpeg),
    ];
    let error = TextureBank::load(&set, &names(&["white.png"])).unwrap_err();
    assert_eq!(error, TextureError::TextureNotFound { name: "paddle".to_string() });
    assert_eq!(error.message(), "Texture paddle not found");
}
