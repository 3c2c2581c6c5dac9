use tokensbyte::media::{
    asset_fail_reason, asset_wait_secs, create_asset_retry_with_new_group, group_after_failure, AssetPoll,
    AssetPollAction, GroupRefresh,
};
use tokensbyte::json_tree::JsonValue;
use sha2::Digest;
use tokensbyte::media::{
    create_asset_base_name, meta_fingerprint_of,
    avi_duration_fields, content_range_total, ext_from_magic, flv_duration_bits, is_base64_media,
    is_http_media_url, mp4_duration_fields, push_convert_ok, shorten_url_for_log, webm_duration_fields, webm_unreadable_vint, WebmDuration,
};

#[test]
fn url_kinds() {
    assert!(is_http_media_url("https://a/b.png"));
    assert!(is_http_media_url("http://a"));
    assert!(!is_http_media_url("asset://x"));
    assert!(is_base64_media("  data:image/png;base64,AAAA"));
    assert!(is_base64_media(&"A".repeat(32)));
    assert!(!is_base64_media(&"A".repeat(31)));
    assert!(!is_base64_media(&format!("{}.png", "A".repeat(40))));
    assert!(!is_base64_media(&format!("asset:{}", "A".repeat(40))));
}

#[test]
fn short_urls() {
    assert_eq!(shorten_url_for_log("data:image/png;base64,AAA"), "base64数据");
    assert_eq!(shorten_url_for_log("https://a/b"), "https://a/b");
    let long = format!("https://x/{}", "a".repeat(100));
    let s = shorten_url_for_log(&long);
    assert_eq!(s, format!("{}...", &long[..80]));
    let wide = format!("https://x/{}", "视".repeat(30));
    assert_eq!(shorten_url_for_log(&wide), format!("{}...", wide));
}

#[test]
fn content_range() {
    assert_eq!(content_range_total("bytes 0-0/12345"), Some("12345"));
    assert_eq!(content_range_total("bytes */987"), Some("987"));
    assert_eq!(content_range_total("bytes 0-0/*"), None);
    assert_eq!(content_range_total("bytes 0-0/12a"), None);
    assert_eq!(content_range_total(" 77 "), Some("77"));
}

#[test]
fn magic_extensions() {
    assert_eq!(ext_from_magic(&[0x89, 0x50, 0x4E, 0x47, 0x0D, 0x0A, 0x1A, 0x0A, 0], "bin"), "png");
    assert_eq!(ext_from_magic(&[0xFF, 0xD8, 0xFF, 0xE0], "bin"), "jpg");
    assert_eq!(ext_from_magic(b"GIF89a", "bin"), "gif");
    assert_eq!(ext_from_magic(b"RIFF\0\0\0\0WEBPVP8", "bin"), "webp");
    assert_eq!(ext_from_magic(b"\0\0\0\x20ftypisom", "bin"), "mp4");
    assert_eq!(ext_from_magic(&[0x1A, 0x45, 0xDF, 0xA3, 1], "bin"), "webm");
    assert_eq!(ext_from_magic(b"ID3\x03", "bin"), "mp3");
    assert_eq!(ext_from_magic(&[0xFF, 0xFB, 0x90], "bin"), "mp3");
    assert_eq!(ext_from_magic(b"RIFF\0\0\0\0WAVEfmt ", "bin"), "wav");
    assert_eq!(ext_from_magic(b"OggS\0", "bin"), "ogg");
    assert_eq!(ext_from_magic(b"????", "png"), "png");
    assert_eq!(ext_from_magic(&[], "mp3"), "mp3");
}

fn mp4_v0(timescale: u32, duration: u32) -> Vec<u8> {
    let mut v = b"\0\0\0\x10ftypisom\0\0\0\x6cmoov\0\0\0\x64mvhd".to_vec();
    v.push(0); // version
    v.extend_from_slice(&[0, 0, 0]); // flags
    v.extend_from_slice(&[0; 8]); // creation + modification
    v.extend_from_slice(&timescale.to_be_bytes());
    v.extend_from_slice(&duration.to_be_bytes());
    v.extend_from_slice(&[0; 16]);
    v
}

#[test]
fn mp4_fields() {
    assert_eq!(mp4_duration_fields(&mp4_v0(1000, 5500)), Some((1000, 5500)));
    assert_eq!(mp4_duration_fields(&mp4_v0(0, 5500)), None);
    assert_eq!(mp4_duration_fields(b"no boxes here"), None);
    let mut v1 = b"moovmvhd".to_vec();
    v1.push(1);
    v1.extend_from_slice(&[0; 19]);
    v1.extend_from_slice(&600u32.to_be_bytes());
    v1.extend_from_slice(&(1u64 << 33).to_be_bytes());
    assert_eq!(mp4_duration_fields(&v1), Some((600, 1u64 << 33)));
}

#[test]
fn avi_fields() {
    let mut v = b"RIFF\0\0\0\0AVI LIST\0\0\0\0hdrlavih\x38\0\0\0".to_vec();
    v.extend_from_slice(&40000u32.to_le_bytes());
    v.extend_from_slice(&[0; 12]);
    v.extend_from_slice(&250u32.to_le_bytes());
    assert_eq!(avi_duration_fields(&v), Some((40000, 250)));
    assert_eq!(avi_duration_fields(b"RIFF\0\0\0\0WAVE"), None);
}

#[test]
fn flv_fields() {
    let mut v = b"FLV\x01\x05\0\0\0\x09onMetaData\x08duration".to_vec();
    v.push(0);
    v.extend_from_slice(&12.5f64.to_bits().to_be_bytes());
    assert_eq!(flv_duration_bits(&v).map(f64::from_bits), Some(12.5));
    assert_eq!(flv_duration_bits(b"FLVxduration\x01"), None);
    assert_eq!(flv_duration_bits(b"NOPE"), None);
}

#[test]
fn webm_fields() {
    let mut v = vec![0x1A, 0x45, 0xDF, 0xA3, 0x80];
    v.extend_from_slice(&[0x15, 0x49, 0xA9, 0x66, 0x90]);
    v.extend_from_slice(&[0x2A, 0xD7, 0xB1, 0x83]);
    v.extend_from_slice(&[0x0F, 0x42, 0x40]);
    v.extend_from_slice(&[0x44, 0x89, 0x84]);
    v.extend_from_slice(&2500.0f32.to_bits().to_be_bytes());
    match webm_duration_fields(&v) {
        Some((ts, WebmDuration::F32Bits(b))) => {
            assert_eq!(ts, 3);
            assert_eq!(f32::from_bits(b), 2500.0);
        }
        _ => panic!("expected a 4-byte duration"),
    }
    assert!(webm_duration_fields(&[0x15, 0x49, 0xA9, 0x66]).is_none());
    assert!(!webm_unreadable_vint(&v));
    let mut bad = vec![0x1A, 0x45, 0xDF, 0xA3, 0x15, 0x49, 0xA9, 0x66, 0x2A, 0xD7, 0xB1, 0x01];
    assert!(webm_unreadable_vint(&bad));
    bad[11] = 0x81;
    bad.extend_from_slice(&[0x44, 0x89, 0x01]);
    assert!(webm_unreadable_vint(&bad));
    bad.truncate(12);
    assert!(!webm_unreadable_vint(&bad));
}

use tokensbyte::media::collect_content_convert_tasks;

#[test]
fn content_items_to_convert() {
    let items: Vec<String> = vec![
        r#"{"type":"text","text":"hi"}"#.to_string(),
        r#"{"type":"image_url","image_url":{"url":"https://x/a.png"}}"#.to_string(),
        r#"{"type":"video_url","video_url":{"url":"asset://123"}}"#.to_string(),
        r#"{"type":"audio_url","audio_url":{"url":"data:audio/mp3;base64,AAAA"}}"#.to_string(),
        r#"{"type":"video_url","video_url":"https://bare"}"#.to_string(),
    ];
    let tasks = collect_content_convert_tasks(&items);
    assert_eq!(
        tasks,
        vec![
            (1, "image_url".to_string(), "Image".to_string(), "https://x/a.png".to_string(), "https://x/a.png".to_string()),
            (3, "audio_url".to_string(), "Audio".to_string(), "data:audio/mp3;base64,AAAA".to_string(), "base64数据".to_string()),
        ]
    );
}

#[test]
fn convert_ok_points_item_at_asset() {
    let url_obj = JsonValue::Object(vec![("url".to_string(), JsonValue::Str("http://a/x.png".to_string()))]);
    let item = JsonValue::Object(vec![
        ("type".to_string(), JsonValue::Str("image_url".to_string())),
        ("image_url".to_string(), url_obj),
    ]);
    let mut content = vec![item, JsonValue::Null];
    let mut logs = vec!["first".to_string()];
    push_convert_ok(&mut content, &mut logs, 0, "image_url", "Image", "http://a/x.png", "as-1", true);
    push_convert_ok(&mut content, &mut logs, 1, "image_url", "Image", "u", "as-2", false);
    push_convert_ok(&mut content, &mut logs, 9, "image_url", "Image", "u", "as-3", false);
    let want = JsonValue::Object(vec![("url".to_string(), JsonValue::Str("asset://as-1".to_string()))]);
    assert_eq!(content[0].get("image_url"), Some(&want));
    assert_eq!(content[1], JsonValue::Null);
    assert_eq!(logs, vec![
        "first".to_string(),
        "[Image] http://a/x.png ✓ asset://as-1 [命中缓存]".to_string(),
        "[Image] u ✓ asset://as-2".to_string(),
        "[Image] u ✓ asset://as-3".to_string(),
    ]);
}

fn sha_hex(s: &str) -> String {
    hex::encode(sha2::Sha256::digest(s.as_bytes()))
}

#[test]
fn metadata_fingerprints() {
    assert_eq!(
        meta_fingerprint_of("https://x/a.mp4?t=1#f", 206, "\"e\"", "", "bytes 0-0/1234", "1"),
        Some(sha_hex("https://x/a.mp4|1234|\"e\"|"))
    );
    assert_eq!(
        meta_fingerprint_of("https://x/a.mp4#frag", 200, "", "Mon, 01 Jan 2024 00:00:00 GMT", "", "99"),
        Some(sha_hex("https://x/a.mp4|99||Mon, 01 Jan 2024 00:00:00 GMT"))
    );
    assert_eq!(meta_fingerprint_of("https://x/a.mp4", 206, "", "", "", "5"), None);
    assert_eq!(sha_hex("abc"), "ba7816bf8f01cfea414140de5dae2223b00361a396177a9cb410ff61f20015ad");
}

#[test]
fn asset_names() {
    assert_eq!(create_asset_base_name("https://cdn/x/photo.png?sig=1", "Image"), "photo.png");
    assert_eq!(create_asset_base_name("https://cdn/x//", "Video"), "x");
    assert_eq!(create_asset_base_name("abc", "Image"), "tb_image_ba7816bf");
    assert_eq!(create_asset_base_name("", "Audio"), "tb_audio_e3b0c442");
    assert_eq!(create_asset_base_name("/", "IMAGE"), format!("tb_image_{}", &sha_hex("/")[..8]));
}

#[test]
fn awaiting_assets() {
    assert_eq!((asset_wait_secs("Image"), asset_wait_secs("Audio"), asset_wait_secs("Video")), (60, 120, 180));
    assert!(create_asset_retry_with_new_group("InvalidGroupId"));
    assert!(create_asset_retry_with_new_group("AuthFailure"));
    assert!(!create_asset_retry_with_new_group("timeout"));
    assert_eq!(group_after_failure("g1", Some(Some("g2"))), GroupRefresh::UseStored("g2".to_string()));
    assert_eq!(group_after_failure("g1", Some(Some("g1"))), GroupRefresh::CreateNew);
    assert_eq!(group_after_failure("g1", Some(None)), GroupRefresh::CreateNew);
    assert_eq!(group_after_failure("g1", None), GroupRefresh::CreateNew);
    assert_eq!(asset_fail_reason(Some(("bad", "E1")), "", ""), "bad");
    assert_eq!(asset_fail_reason(Some(("", "E1")), "", ""), "E1");
    assert_eq!(asset_fail_reason(Some(("", "")), "c", "r"), "审核未通过");
    assert_eq!(asset_fail_reason(None, "c", "r"), "[c] r");
    assert_eq!(asset_fail_reason(None, "c", ""), "[c]");
    assert_eq!(asset_fail_reason(None, "", "r"), "r");
    assert_eq!(asset_fail_reason(None, "", ""), "审核未通过");
    let mut p = AssetPoll::new("as-1", "Image");
    let mut polls = 0;
    while p.next() == AssetPollAction::Poll {
        polls += 1;
        if polls == 3 {
            p.on_error("net down".to_string());
        } else {
            assert_eq!(p.on_status("Processing", ""), AssetPollAction::Poll);
        }
    }
    assert_eq!(polls, 20);
    assert_eq!(p.next(), AssetPollAction::Fail("素材处理超时(60s): as-1, 错误: net down".to_string()));
    let mut p = AssetPoll::new("as-2", "Video");
    assert_eq!(p.on_status("Active", ""), AssetPollAction::Ready);
    assert_eq!(p.on_status("Failed", "审核未通过"), AssetPollAction::Fail("素材处理失败(as-2): 审核未通过".to_string()));
}
