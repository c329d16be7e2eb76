use kiraz::decode;
use kiraz::prepare_save;
use kiraz::save::resolve_save_path;
use kiraz::save_format::format_for_path;
use kiraz::DecodedImage;
use kiraz::SaveFormat;
use kiraz::SaveOutcome;
use kiraz::SharedImageSlot;
use kiraz::WriteError;

fn loaded_slot() -> SharedImageSlot {
    let mut slot = SharedImageSlot::new();
    let pixels: Vec<u8> = vec![
        255, 0, 0, 255, 0, 255, 0, 255, 0, 0, 255, 255, 255, 255, 255, 255,
    ];
    slot.store(DecodedImage::new(2, 2, pixels));
    slot
}

#[test]
fn format_from_extension() {
    assert_eq!(format_for_path("shot.png"), Some(SaveFormat::Png));
    assert_eq!(format_for_path("SHOT.PNG"), Some(SaveFormat::Png));
    assert_eq!(format_for_path("a.apng"), Some(SaveFormat::Png));
    assert_eq!(format_for_path("photo.jpg"), Some(SaveFormat::Jpeg));
    assert_eq!(format_for_path("photo.jpeg"), Some(SaveFormat::Jpeg));
    assert_eq!(format_for_path("photo.JfIf"), Some(SaveFormat::Jpeg));
    assert_eq!(format_for_path("anim.gif"), Some(SaveFormat::Gif));
    assert_eq!(format_for_path("b.bmp"), Some(SaveFormat::Bmp));
    assert_eq!(format_for_path("scan.tif"), Some(SaveFormat::Tiff));
    assert_eq!(format_for_path("scan.tiff"), Some(SaveFormat::Tiff));
    assert_eq!(format_for_path("t.tga"), Some(SaveFormat::Tga));
    assert_eq!(format_for_path("w.webp"), Some(SaveFormat::WebP));
    assert_eq!(format_for_path("q.qoi"), Some(SaveFormat::Qoi));
    assert_eq!(format_for_path("a.avif"), Some(SaveFormat::Avif));
    assert_eq!(format_for_path("i.ICO"), Some(SaveFormat::Ico));
    assert_eq!(format_for_path("p.pam"), Some(SaveFormat::Pnm));
    assert_eq!(format_for_path("p.ppm"), Some(SaveFormat::Pnm));
    assert_eq!(format_for_path("p.pnm"), Some(SaveFormat::Pnm));
}

#[test]
fn format_for_unsupported_or_missing_extension() {
    assert_eq!(format_for_path("archive.tar"), None);
    assert_eq!(format_for_path("noextension"), None);
    assert_eq!(format_for_path("trailing."), None);
    assert_eq!(format_for_path(".png"), None);
    assert_eq!(format_for_path("dir/.png"), None);
    assert_eq!(format_for_path("a.png/file"), None);
    assert_eq!(format_for_path(""), None);
    assert_eq!(format_for_path("dir.png/file.bmp"), Some(SaveFormat::Bmp));
}

#[test]
fn save_before_load_is_a_no_op() {
    let slot = SharedImageSlot::new();
    let outcome = prepare_save(slot.read(), &String::from("out.png"));
    assert!(matches!(outcome, SaveOutcome::NothingLoaded));
    assert!(slot.read().is_none());
}

#[test]
fn two_saves_of_one_image_are_byte_identical() {
    let slot = loaded_slot();
    let first = prepare_save(slot.read(), &String::from("first.png"));
    let second = prepare_save(slot.read(), &String::from("second.png"));
    match (first, second) {
        (SaveOutcome::Ready(a), SaveOutcome::Ready(b)) => {
            assert_eq!(a.path, "first.png");
            assert_eq!(b.path, "second.png");
            assert_eq!(a.bytes, b.bytes);
            assert!(!a.bytes.is_empty());
        }
        _ => panic!("both saves should be ready"),
    }
}

#[test]
fn saved_bytes_decode_back_to_the_held_pixels() {
    let slot = loaded_slot();
    let held = slot.read().unwrap();
    match prepare_save(slot.read(), &String::from("round.png")) {
        SaveOutcome::Ready(plan) => {
            assert_ne!(&plan.bytes, held.pixels());
            let reread = decode(&plan.bytes).unwrap();
            assert_eq!(reread.width(), held.width());
            assert_eq!(reread.height(), held.height());
            assert_eq!(reread.pixels(), held.pixels());
        }
        _ => panic!("save of a loaded image to a png path should be ready"),
    }
}

#[test]
fn save_does_not_mutate_the_slot() {
    let slot = loaded_slot();
    let before = slot.read().unwrap();
    let _ = prepare_save(slot.read(), &String::from("keep.png"));
    let _ = prepare_save(slot.read(), &String::from("unsupported.tar"));
    let after = slot.read().unwrap();
    assert_eq!(before.pixels(), after.pixels());
    assert_eq!(before.width(), after.width());
    assert_eq!(before.height(), after.height());
}

#[test]
fn unsupported_extension_fails_without_bytes() {
    let slot = loaded_slot();
    match prepare_save(slot.read(), &String::from("shot.tar")) {
        SaveOutcome::Failed { path, error, expansion_warning } => {
            assert_eq!(path, "shot.tar");
            assert!(matches!(error, WriteError::UnsupportedExtension));
            assert!(expansion_warning.is_none());
        }
        _ => panic!("a tar path selects no encoder"),
    }
}

#[test]
fn rgba_to_jpeg_is_an_encoder_failure() {
    let slot = loaded_slot();
    match prepare_save(slot.read(), &String::from("shot.jpg")) {
        SaveOutcome::Failed { path, error, .. } => {
            assert_eq!(path, "shot.jpg");
            match error {
                WriteError::EncodingFailed(message) => assert!(!message.is_empty()),
                other => panic!("expected EncodingFailed, got {:?}", other),
            }
        }
        _ => panic!("the jpeg encoder rejects RGBA samples"),
    }
}

#[test]
fn plain_path_resolves_to_itself() {
    let raw = String::from("shots/out.png");
    let (resolved, warning) = resolve_save_path(&raw);
    assert_eq!(resolved, raw);
    assert!(warning.is_none());
}

#[test]
fn tilde_path_expands_to_the_home_directory() {
    let raw = String::from("~/out.png");
    let (resolved, warning) = resolve_save_path(&raw);
    match shellexpand::full("~/out.png") {
        Ok(expanded) => {
            assert!(warning.is_none());
            assert_eq!(resolved, expanded.as_ref());
            assert!(!resolved.starts_with('~'));
            assert!(resolved.ends_with("/out.png"));
        }
        Err(_) => {
            assert!(warning.is_some());
            assert_eq!(resolved, raw);
        }
    }
}

#[test]
fn failed_expansion_falls_back_to_the_raw_path() {
    let raw = String::from("${KIRAZ_THIS_VARIABLE_IS_NOT_SET}/out.png");
    let (resolved, warning) = resolve_save_path(&raw);
    assert_eq!(resolved, raw);
    assert!(warning.is_some());

    let slot = loaded_slot();
    match prepare_save(slot.read(), &raw) {
        SaveOutcome::Ready(plan) => {
            assert_eq!(plan.path, raw);
            assert!(plan.expansion_warning.is_some());
            assert!(!plan.bytes.is_empty());
        }
        _ => panic!("the raw fallback path still ends in .png"),
    }
}

#[test]
fn expanded_save_after_load_is_ready() {
    let slot = loaded_slot();
    match prepare_save(slot.read(), &String::from("~/out.png")) {
        SaveOutcome::Ready(plan) => {
            if shellexpand::full("~/out.png").is_ok() {
                assert!(!plan.path.starts_with('~'));
            }
            assert!(plan.path.ends_with("/out.png") || plan.path == "~/out.png");
            assert!(!plan.bytes.is_empty());
        }
        _ => panic!("a png save of a loaded image should be ready"),
    }
}

#[test]
fn webp_save_round_trips_losslessly() {
    let slot = loaded_slot();
    let held = slot.read().unwrap();
    match prepare_save(slot.read(), &String::from("shot.webp")) {
        SaveOutcome::Ready(plan) => {
            assert_eq!(&plan.bytes[0..4], b"RIFF");
            let reread = decode(&plan.bytes).unwrap();
            assert_eq!(reread.width(), held.width());
            assert_eq!(reread.height(), held.height());
            assert_eq!(reread.pixels(), held.pixels());
        }
        _ => panic!("the lossless webp encoder accepts RGBA"),
    }
}

#[test]
fn qoi_save_round_trips_losslessly() {
    let slot = loaded_slot();
    let held = slot.read().unwrap();
    match prepare_save(slot.read(), &String::from("shot.qoi")) {
        SaveOutcome::Ready(plan) => {
            assert_eq!(&plan.bytes[0..4], b"qoif");
            let reread = decode(&plan.bytes).unwrap();
            assert_eq!(reread.pixels(), held.pixels());
        }
        _ => panic!("the qoi encoder accepts RGBA"),
    }
}

#[test]
fn avif_and_ico_saves_are_ready() {
    let slot = loaded_slot();
    match prepare_save(slot.read(), &String::from("shot.avif")) {
        SaveOutcome::Ready(plan) => assert!(!plan.bytes.is_empty()),
        _ => panic!("the avif encoder accepts RGBA"),
    }
    match prepare_save(slot.read(), &String::from("shot.ico")) {
        SaveOutcome::Ready(plan) => {
            assert_eq!(&plan.bytes[0..4], &[0u8, 0, 1, 0]);
            let reread = decode(&plan.bytes).unwrap();
            assert_eq!(reread.width(), 2);
        }
        _ => panic!("the ico encoder accepts small RGBA images"),
    }
}

#[test]
fn pam_save_round_trips_losslessly() {
    let slot = loaded_slot();
    let held = slot.read().unwrap();
    match prepare_save(slot.read(), &String::from("shot.pam")) {
        SaveOutcome::Ready(plan) => {
            assert_eq!(&plan.bytes[0..2], b"P7");
            let reread = decode(&plan.bytes).unwrap();
            assert_eq!(reread.pixels(), held.pixels());
        }
        _ => panic!("the pnm encoder writes RGBA as an arbitrary map"),
    }
}

#[test]
fn bmp_and_png_saves_both_carry_their_format() {
    let slot = loaded_slot();
    let png = prepare_save(slot.read(), &String::from("shot.png"));
    let bmp = prepare_save(slot.read(), &String::from("shot.bmp"));
    match (png, bmp) {
        (SaveOutcome::Ready(p), SaveOutcome::Ready(b)) => {
            assert_ne!(p.bytes, b.bytes);
            assert_eq!(&p.bytes[1..4], b"PNG");
            assert_eq!(&b.bytes[0..2], b"BM");
        }
        _ => panic!("both formats encode RGBA"),
    }
}
