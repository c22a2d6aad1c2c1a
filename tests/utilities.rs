use base64::Engine;
use unitkit::{
    compress_image, data_field, hash_file_bytes, keep_present, output_kind, regex_flags, run_regex,
    CompressError, OutputKind,
};

#[test]
fn sha256_of_empty_input() {
    assert_eq!(
        hash_file_bytes(&[], "sha256"),
        "e3b0c44298fc1c149afbf4c8996fb92427ae41e4649b934ca495991b7852b855"
    );
}

#[test]
fn hashing_is_deterministic() {
    let data = b"hello world".to_vec();
    assert_eq!(hash_file_bytes(&data, "sha256"), hash_file_bytes(&data, "sha256"));
    assert_eq!(
        hash_file_bytes(&data, "sha256"),
        "b94d27b9934d3e08a52e52d7da7dabfac484efe37a5380ee9088f7ace2efcde9"
    );
}

#[test]
fn other_digests_match_known_vectors() {
    assert_eq!(hash_file_bytes(&[], "md5"), "d41d8cd98f00b204e9800998ecf8427e");
    assert_eq!(hash_file_bytes(b"abc", "sha1"), "a9993e364706816aba3e25717850c26c9cd0d89d");
    assert_eq!(
        hash_file_bytes(b"abc", "sha512"),
        "ddaf35a193617abacc417349ae20413112e6fa4e89a97ea20a9eeee64b55d39a2192992a274fc1a836ba3c23a3feebbd454d4423643ce80e2a9ac94fa54ca49f"
    );
}

#[test]
fn unknown_algorithm_gives_sentinel() {
    assert_eq!(hash_file_bytes(b"abc", "sha3"), "Unknown algorithm");
    assert_eq!(hash_file_bytes(b"abc", "SHA256"), "Unknown algorithm");
}

#[test]
fn regex_flags_are_read() {
    let f = regex_flags("gi");
    assert!(f.case_insensitive && f.global && !f.multi_line && !f.dot_matches_new_line);
    let g = regex_flags("ms");
    assert!(!g.case_insensitive && !g.global && g.multi_line && g.dot_matches_new_line);
}

#[test]
fn regex_global_reports_every_match() {
    let r = run_regex(r"(\d+)-(x)?", "12- 34-x", "g");
    assert!(r.ok);
    assert!(r.error.is_none());
    assert_eq!(r.matches.len(), 2);
    assert_eq!((r.matches[0].start, r.matches[0].end), (0, 3));
    assert_eq!(r.matches[0].matched, "12-");
    assert_eq!(r.matches[0].groups, vec!["12".to_string()]);
    assert_eq!(r.matches[1].matched, "34-x");
    assert_eq!(r.matches[1].groups, vec!["34".to_string(), "x".to_string()]);
}

#[test]
fn regex_without_g_reports_first_match() {
    let r = run_regex("a", "banana", "");
    assert!(r.ok);
    assert_eq!(r.matches.len(), 1);
    assert_eq!((r.matches[0].start, r.matches[0].end), (1, 2));
    let none = run_regex("z", "banana", "g");
    assert!(none.ok);
    assert!(none.matches.is_empty());
}

#[test]
fn regex_case_flag() {
    assert_eq!(run_regex("ABC", "xabc", "").matches.len(), 0);
    assert_eq!(run_regex("ABC", "xabc", "i").matches.len(), 1);
}

#[test]
fn regex_refusal_carries_message() {
    let r = run_regex("(", "text", "g");
    assert!(!r.ok);
    assert!(r.matches.is_empty());
    assert!(!r.error.unwrap().is_empty());
}

#[test]
fn absent_groups_are_dropped() {
    let kept = keep_present(vec![Some("a".to_string()), None, Some("c".to_string())]);
    assert_eq!(kept, vec!["a".to_string(), "c".to_string()]);
}

#[test]
fn data_url_payload_is_second_field() {
    assert_eq!(data_field("data:image/png;base64,QUJD"), Some(b"QUJD".to_vec()));
    assert_eq!(data_field("a,b,c"), Some(b"b".to_vec()));
    assert_eq!(data_field("a,"), Some(Vec::new()));
    assert_eq!(data_field("no comma"), None);
}

#[test]
fn output_kind_by_name() {
    assert_eq!(output_kind("jpg", true), Some(OutputKind::Jpeg));
    assert_eq!(output_kind("png", false), Some(OutputKind::Png));
    assert_eq!(output_kind("original", true), Some(OutputKind::Png));
    assert_eq!(output_kind("original", false), Some(OutputKind::Jpeg));
    assert_eq!(output_kind("gif", true), None);
}

fn png_data_url(w: u32, h: u32) -> String {
    let img = image::DynamicImage::ImageRgb8(image::RgbImage::new(w, h));
    let mut buffer = std::io::Cursor::new(Vec::new());
    img.write_to(&mut buffer, image::ImageOutputFormat::Png).unwrap();
    let text = base64::engine::general_purpose::STANDARD.encode(buffer.into_inner());
    format!("data:image/png;base64,{text}")
}

#[test]
fn image_errors_come_in_order() {
    let err = |input: &str, fmt: &str| compress_image(input, 80, fmt).err();
    assert_eq!(err("no comma", "png"), Some(CompressError::InvalidInput));
    assert_eq!(err("data:,%%%", "png"), Some(CompressError::Base64));
    assert_eq!(err("data:,QUJD", "zzz"), Some(CompressError::Load));
    assert_eq!(err(&png_data_url(2, 3), "gif"), Some(CompressError::UnknownFormat));
    assert_eq!(CompressError::Load.message(), "Failed to load image");
    assert_eq!(CompressError::InvalidInput.message(), "Invalid base64 input");
}

#[test]
fn image_is_reencoded() {
    let url = png_data_url(2, 3);
    let png = compress_image(&url, 80, "png").ok().unwrap();
    assert_eq!((png.format(), png.width(), png.height()), ("PNG".to_string(), 2, 3));
    assert!(png.bytes().starts_with(b"\x89PNG\r\n\x1a\n"));
    let same = compress_image(&url, 80, "original").ok().unwrap();
    assert_eq!(same.format(), "PNG");
    let jpg = compress_image(&url, 50, "jpg").ok().unwrap();
    assert_eq!(jpg.format(), "JPG");
    assert!(jpg.bytes().starts_with(&[0xff, 0xd8, 0xff]));
}

#[test]
fn regex_offsets_are_bytes() {
    let r = run_regex("b+", "ébb-b", "g");
    assert_eq!(r.matches.len(), 2);
    assert_eq!((r.matches[0].start, r.matches[0].end), (2, 4));
    assert_eq!((r.matches[1].start, r.matches[1].end), (5, 6));
    assert_eq!(r.matches[1].matched, "b");
}

#[test]
fn png_output_ignores_quality() {
    let url = png_data_url(4, 1);
    let a = compress_image(&url, 1, "png").ok().unwrap();
    let b = compress_image(&url, 100, "png").ok().unwrap();
    assert_eq!(a.bytes(), b.bytes());
    assert_eq!((a.width(), a.height()), (4, 1));
}
