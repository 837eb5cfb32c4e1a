use image_resizer::batch::{collect_skips, decode_failure_count, process_raster, run_batch};
use image_resizer::encoder::{encode_adaptive, EncodeOutcome};
use image_resizer::naming::{is_tif_extension, rendition_name};
use image_resizer::profile::{catalog, ceiling_bytes, ResizeProfile, DEFAULT_CEILING_MB};
use image_resizer::raster::Raster;

/// A small raster with a smooth gradient, which compresses far better at the
/// high tier than at the fast tier.
fn gradient_raster(width: u32, height: u32) -> Raster {
    let mut data = Vec::new();
    for y in 0..height {
        for x in 0..width {
            data.push((x % 256) as u8);
            data.push((y % 256) as u8);
            data.push(((x + y) % 256) as u8);
            data.push(255u8);
        }
    }
    Raster::new(width, height, data).unwrap()
}

fn png_dimensions(bytes: &[u8]) -> (u32, u32) {
    let decoder = png::Decoder::new(std::io::Cursor::new(bytes));
    let reader = decoder.read_info().unwrap();
    let info = reader.info();
    (info.width, info.height)
}

#[test]
fn catalog_is_the_fixed_table() {
    let c = catalog();
    assert_eq!(c.len(), 15);
    assert_eq!(c[0], ResizeProfile { width: 4725, height: 9225, dpi: 150 });
    assert_eq!(c[3], ResizeProfile { width: 18900, height: 9900, dpi: 300 });
    assert_eq!(c[14], ResizeProfile { width: 6000, height: 12450, dpi: 150 });
    for p in &c {
        assert!(p.width > 0 && p.height > 0);
    }
}

#[test]
fn ceiling_conversion_is_exact() {
    assert_eq!(ceiling_bytes(DEFAULT_CEILING_MB), 100 * 1024 * 1024);
    assert_eq!(ceiling_bytes(1), 1_048_576);
    assert_eq!(ceiling_bytes(0), 0);
}

#[test]
fn rendition_names_are_deterministic() {
    assert_eq!(rendition_name("name", 4725, 9225, 150), "name_4725x9225_150dpi.png");
    assert_eq!(rendition_name("scan01", 18900, 9900, 300), "scan01_18900x9900_300dpi.png");
    assert_eq!(rendition_name("x", 1, 1, 0), "x_1x1_0dpi.png");
    assert_eq!(rendition_name("", 10, 100, 1000), "_10x100_1000dpi.png");
}

#[test]
fn tif_extension_matches_case_insensitively() {
    for yes in ["tif", "TIF", "Tif", "tIF"] {
        assert!(is_tif_extension(yes));
    }
    for no in ["tiff", "ti", "png", "TIF ", "", "t1f", "fit"] {
        assert!(!is_tif_extension(no));
    }
}

#[test]
fn raster_new_rejects_bad_input() {
    assert!(Raster::new(0, 3, vec![0u8; 0]).is_none());
    assert!(Raster::new(2, 0, vec![0u8; 0]).is_none());
    assert!(Raster::new(2, 3, vec![0u8; 23]).is_none());
    assert!(Raster::new(2, 3, vec![0u8; 25]).is_none());
    let r = Raster::new(2, 3, vec![0u8; 24]).unwrap();
    assert_eq!(r.width, 2);
    assert_eq!(r.height, 3);
    assert_eq!(r.data.len(), 24);
}

#[test]
fn resize_hits_exact_target_dimensions() {
    let src = gradient_raster(7, 5);
    let out = src.resize(16, 9);
    assert_eq!(out.width, 16);
    assert_eq!(out.height, 9);
    assert_eq!(out.data.len(), 4 * 16 * 9);
    let up = src.resize(200, 300);
    assert_eq!((up.width, up.height), (200, 300));
    assert_eq!(up.data.len(), 4 * 200 * 300);
}

#[test]
fn generous_ceiling_accepts_fast_tier() {
    let raster = gradient_raster(64, 64);
    let name = rendition_name("img", 64, 64, 150);
    match encode_adaptive(&raster, name, u64::MAX).unwrap() {
        EncodeOutcome::Accepted { bytes, used_high } => {
            assert!(!used_high);
            // A real PNG stream comes back, not the raw pixels.
            assert_eq!(&bytes[..8], &[0x89, b'P', b'N', b'G', 0x0d, 0x0a, 0x1a, 0x0a]);
            assert_eq!(png_dimensions(&bytes), (64, 64));
        }
        EncodeOutcome::Skipped { .. } => panic!("nothing fits under u64::MAX"),
    }
}

#[test]
fn zero_ceiling_skips_under_the_rendition_name() {
    let raster = gradient_raster(16, 16);
    let name = rendition_name("img", 16, 16, 300);
    match encode_adaptive(&raster, name.clone(), 0).unwrap() {
        EncodeOutcome::Accepted { .. } => panic!("no PNG stream is empty"),
        EncodeOutcome::Skipped { name: n } => assert_eq!(n, "img_16x16_300dpi.png"),
    }
}

#[test]
fn tight_ceiling_reaches_the_high_tier() {
    let raster = gradient_raster(128, 128);
    let fast_len = match encode_adaptive(&raster, String::new(), u64::MAX).unwrap() {
        EncodeOutcome::Accepted { bytes, used_high } => {
            assert!(!used_high);
            bytes.len() as u64
        }
        EncodeOutcome::Skipped { .. } => panic!("nothing fits under u64::MAX"),
    };
    // Just below the fast stream's size the policy must try the high tier,
    // and on this gradient the high tier compresses well enough to fit.
    match encode_adaptive(&raster, String::new(), fast_len - 1).unwrap() {
        EncodeOutcome::Accepted { bytes, used_high } => {
            assert!(used_high);
            assert!((bytes.len() as u64) <= fast_len - 1);
            assert_eq!(png_dimensions(&bytes), (128, 128));
        }
        EncodeOutcome::Skipped { .. } => {
            panic!("high tier should fit just under the fast stream's size")
        }
    }
}

#[test]
fn outcome_class_is_idempotent() {
    let raster = gradient_raster(48, 48);
    for ceiling in [0u64, 200, 2_000, u64::MAX] {
        let name = rendition_name("same", 48, 48, 150);
        let again = rendition_name("same", 48, 48, 150);
        let first = encode_adaptive(&raster, name, ceiling).unwrap();
        let second = encode_adaptive(&raster, again, ceiling).unwrap();
        assert_eq!(
            matches!(first, EncodeOutcome::Accepted { .. }),
            matches!(second, EncodeOutcome::Accepted { .. }),
        );
    }
}

#[test]
fn process_raster_covers_every_profile() {
    let raster = gradient_raster(9, 9);
    let profiles = vec![ResizeProfile::new(4, 5, 72), ResizeProfile::new(6, 3, 150)];
    let records = process_raster(&raster, "base", &profiles, u64::MAX);
    assert_eq!(records.len(), 2);
    assert_eq!(records[0].name, "base_4x5_72dpi.png");
    assert_eq!(records[1].name, "base_6x3_150dpi.png");
    for (rec, p) in records.iter().zip(profiles.iter()) {
        match rec.result.as_ref().unwrap() {
            EncodeOutcome::Accepted { bytes, .. } => {
                assert_eq!(png_dimensions(bytes), (p.width, p.height));
            }
            EncodeOutcome::Skipped { .. } => panic!("nothing fits under u64::MAX"),
        }
    }
}

#[test]
fn corrupt_source_is_isolated_from_the_batch() {
    let profiles = vec![ResizeProfile::new(5, 4, 96), ResizeProfile::new(3, 3, 300)];
    let sources = vec![
        ("alpha".to_string(), Some(gradient_raster(8, 6))),
        ("broken".to_string(), None),
        ("gamma".to_string(), Some(gradient_raster(6, 8))),
    ];
    let reports = run_batch(&sources, &profiles, u64::MAX);
    assert_eq!(reports.len(), 3);
    assert_eq!(decode_failure_count(&reports), 1);
    assert!(!reports[1].decoded);
    assert!(reports[1].renditions.is_empty());
    for k in [0usize, 2] {
        assert!(reports[k].decoded);
        assert_eq!(reports[k].renditions.len(), 2);
        for rec in &reports[k].renditions {
            match rec.result.as_ref().unwrap() {
                EncodeOutcome::Accepted { .. } => {}
                EncodeOutcome::Skipped { .. } => panic!("nothing fits under u64::MAX"),
            }
        }
    }
    assert_eq!(reports[0].renditions[0].name, "alpha_5x4_96dpi.png");
    assert_eq!(reports[2].renditions[1].name, "gamma_3x3_300dpi.png");
}

#[test]
fn empty_batch_writes_nothing() {
    let profiles = vec![ResizeProfile::new(4, 4, 150)];
    let sources: Vec<(String, Option<Raster>)> = Vec::new();
    let reports = run_batch(&sources, &profiles, ceiling_bytes(100));
    assert!(reports.is_empty());
    assert_eq!(decode_failure_count(&reports), 0);
}

#[test]
fn ledger_gets_one_line_per_skip() {
    let raster = gradient_raster(10, 10);
    let profiles = vec![ResizeProfile::new(8, 8, 150), ResizeProfile::new(4, 4, 300)];
    let records = process_raster(&raster, "big", &profiles, 0);
    let lines = collect_skips(&records);
    assert_eq!(lines, vec!["big_8x8_150dpi.png".to_string(), "big_4x4_300dpi.png".to_string()]);

    let accepted = process_raster(&raster, "big", &profiles, u64::MAX);
    assert!(collect_skips(&accepted).is_empty());
}
