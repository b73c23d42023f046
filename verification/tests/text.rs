use nota_bot::bot::IncomingAttachment;
use nota_bot::handling::{attachment_from_bytes, is_supported_image, supported_attachments, UsageTally};
use nota_bot::json::Json;
use nota_bot::llm::{PromptTokensDetails, Usage};
use nota_bot::skills::front_matter;
use nota_bot::text::{chars_equal, joined, decimal_text, parse_u64};

#[test]
fn parse_u64_follows_from_str() {
    for text in ["0", "7200", "+42", "", "+", "-1", "12a", " 1", "18446744073709551615", "18446744073709551616", "007", "99999999999999999999"] {
        assert_eq!(parse_u64(text), text.parse::<u64>().ok(), "text: {text:?}");
    }
}

#[test]
fn decimal_text_reads_back() {
    for n in [0u64, 9, 10, 33554432, u64::MAX] {
        assert_eq!(decimal_text(n), n.to_string());
        assert_eq!(parse_u64(&decimal_text(n)), Some(n));
    }
}

#[test]
fn joined_and_equality() {
    assert_eq!(joined("QQ", "Bot"), "QQBot");
    assert!(chars_equal("héllo", "héllo"));
    assert!(!chars_equal("hello", "hell"));
}

#[test]
fn front_matter_is_the_text_between_fences() {
    assert_eq!(
        front_matter("---\nname: greeter\ndescription: says hi\n---\nbody").as_deref(),
        Some("name: greeter\ndescription: says hi")
    );
    assert_eq!(front_matter("just markdown"), None);
    assert_eq!(front_matter("---\nname: a\n").as_deref(), Some("name: a"));
    assert_eq!(front_matter("----x---y").as_deref(), Some("-x"));
    let text = "---\u{3000} name: b \t\n---";
    assert_eq!(front_matter(text).as_deref(), Some(text.split("---").collect::<Vec<_>>()[1].trim()));
}

#[test]
fn only_jpeg_png_and_gif_are_taken_in() {
    assert!(is_supported_image("image/jpeg"));
    assert!(is_supported_image("image/png"));
    assert!(is_supported_image("image/gif"));
    assert!(!is_supported_image("image/webp"));
    assert!(!is_supported_image("application/pdf"));
}

#[test]
fn attachments_carry_base64_data() {
    let a = attachment_from_bytes("image/png", b"hello");
    assert_eq!(a.content_type, "image/png");
    assert_eq!(a.data, "aGVsbG8=");
    assert_eq!(a.get_url(), "data:image/png;base64,aGVsbG8=");
}

#[test]
fn base64_pads_the_last_group() {
    assert_eq!(attachment_from_bytes("image/gif", b"").data, "");
    assert_eq!(attachment_from_bytes("image/gif", b"M").data, "TQ==");
    assert_eq!(attachment_from_bytes("image/gif", b"Ma").data, "TWE=");
    assert_eq!(attachment_from_bytes("image/gif", b"Man").data, "TWFu");
    assert_eq!(attachment_from_bytes("image/gif", &[0xfb, 0xff, 0xbf]).data, "+/+/");
}

fn usage(prompt: isize, completion: isize, hit: Option<isize>, details: Option<isize>) -> Usage {
    Usage {
        prompt_tokens: prompt,
        completion_tokens: completion,
        total_tokens: prompt + completion,
        prompt_cache_hit_tokens: hit,
        prompt_cache_miss_tokens: None,
        prompt_tokens_details: details.map(|c| PromptTokensDetails { cached_tokens: c }),
        completion_tokens_details: Json::Null,
    }
}

#[test]
fn usage_tally_prefers_cache_hits_then_details() {
    let mut t = UsageTally::new();
    let first = usage(34, 12, Some(10), Some(99));
    assert!(t.fits(&first));
    t.add(&first);
    let second = usage(6, 8, None, Some(3));
    t.add(&second);
    let third = usage(1, 1, None, None);
    t.add(&third);
    assert_eq!((t.prompt_tokens, t.completion_tokens, t.cached_tokens), (41, 21, 13));
    let huge = usage(isize::MAX, 0, None, None);
    assert!(!t.fits(&huge));
}

#[test]
fn json_lookup_takes_members_of_objects_only() {
    let v = Json::Object(vec![
        ("a".to_string(), Json::Str("x".to_string())),
        ("n".to_string(), Json::Number("41250".to_string())),
    ]);
    assert_eq!(v.get("a").and_then(|j| j.as_str()), Some("x"));
    assert_eq!(v.get_str("n"), None);
    assert_eq!(v.get("n").unwrap().as_u64(), Some(41250));
    assert!(v.get("missing").is_none());
    assert!(Json::Array(vec![]).get("a").is_none());
    assert_eq!(Json::Number("4.1e4".to_string()).as_u64(), None);
}

#[test]
fn only_supported_images_are_taken_in_order() {
    let att = |t: &str, u: &str| IncomingAttachment { content_type: t.to_string(), url: u.to_string() };
    let list = vec![
        att("image/png", "https://x/1"),
        att("application/pdf", "https://x/2"),
        att("image/gif", "https://x/3"),
        att("image/webp", "https://x/4"),
        att("image/jpeg", "https://x/5"),
    ];
    let kept: Vec<(String, String)> =
        supported_attachments(&list).into_iter().map(|a| (a.content_type, a.url)).collect();
    assert_eq!(
        kept,
        vec![
            ("image/png".to_string(), "https://x/1".to_string()),
            ("image/gif".to_string(), "https://x/3".to_string()),
            ("image/jpeg".to_string(), "https://x/5".to_string()),
        ]
    );
    assert!(supported_attachments(&vec![]).is_empty());
}
