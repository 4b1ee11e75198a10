use xingtui::banners::build_banner;
use xingtui::error::AppError;
use xingtui::models::BannerInput;
use xingtui::text::{char_count, int_to_string, is_blank, trim, uint_to_string};

fn banner_input(image: &str, sort_order: i64, start: Option<&str>) -> BannerInput {
    BannerInput {
        image_url: image.to_string(),
        link_url: " /pages/plaza ".to_string(),
        title: " 新歌推广季 ".to_string(),
        subtitle: String::new(),
        sort_order,
        active: true,
        start_at: start.map(|s| s.to_string()),
        end_at: Some(String::new()),
    }
}

#[test]
fn trimming_follows_unicode_white_space() {
    let samples = [
        "  plain  ",
        "\u{3000}全角空格\u{3000}",
        "\t\n\r\u{0b}\u{0c}x\u{85}",
        "\u{a0}\u{2000}\u{200a}y\u{2028}\u{2029}\u{202f}\u{205f}\u{1680}",
        "\u{200b}zero width\u{200b}",
        "",
        "   ",
    ];
    for s in samples {
        assert_eq!(trim(s), s.trim(), "trimming {s:?}");
        assert_eq!(is_blank(s), s.trim().is_empty(), "blankness of {s:?}");
    }
    assert_eq!(char_count("星推ab"), 4);
}

#[test]
fn integers_are_written_in_decimal() {
    for n in [0i64, 7, -7, 10, 1234567890, i64::MAX, i64::MIN] {
        assert_eq!(int_to_string(n), n.to_string());
    }
    for n in [0u64, 9, 100, u64::MAX] {
        assert_eq!(uint_to_string(n), n.to_string());
    }
}

#[test]
fn banners_need_an_image_and_are_normalised() {
    let banner = build_banner("b1".to_string(), banner_input(" https://img/1.png ", -3, Some("2024-05-01"))).unwrap();
    assert_eq!(banner.id, "b1");
    assert_eq!(banner.image_url, "https://img/1.png");
    assert_eq!(banner.link_url, "/pages/plaza");
    assert_eq!(banner.title, "新歌推广季");
    assert_eq!(banner.sort_order, 0);
    assert!(banner.active);
    assert_eq!(banner.start_at.as_deref(), Some("2024-05-01"));
    assert_eq!(banner.end_at, None);
    let later = build_banner("b2".to_string(), banner_input("x.png", 5, None)).unwrap();
    assert_eq!(later.sort_order, 5);
    assert_eq!(later.start_at, None);
    match build_banner("b3".to_string(), banner_input("   ", 1, None)) {
        Err(AppError::BadRequest(m)) => assert_eq!(m, "banner image url is required"),
        _ => panic!("a banner without image is refused"),
    }
}
