use cv_render::model::{Meta, RawCv, RawHeadline, RawItem, RawItemBullet, RawItemHeading, RawSection};
use cv_render::view_model::{cv_dates_in_range, markdown_to_latex, render, ViewAnchor};

fn meta(lang: &str) -> Meta {
    Meta {
        lang: lang.to_string(),
        en_font: "Latin Modern".to_string(),
        cjk_font: "Noto Serif CJK".to_string(),
        font_size: 11,
    }
}

fn headline() -> RawHeadline {
    RawHeadline {
        name: "Ada Lovelace".to_string(),
        email: "ada@example.org".to_string(),
        phone: "+44 20 7946 0000".to_string(),
        website: "https://example.org".to_string(),
        github: "".to_string(),
    }
}

fn sample_cv(lang: &str) -> RawCv {
    RawCv {
        meta: meta(lang),
        headline: headline(),
        sections: vec![
            RawSection {
                title: "Experience".to_string(),
                items: vec![
                    RawItem {
                        heading: Some(RawItemHeading {
                            title: "Analyst".to_string(),
                            subtitle: "Engines".to_string(),
                            location: "London".to_string(),
                            start_date: "2019-06".to_string(),
                            end_date: Some("2022-01".to_string()),
                        }),
                        bullets: Some(vec![
                            RawItemBullet { content: "first bullet".to_string() },
                            RawItemBullet { content: "second bullet".to_string() },
                        ]),
                    },
                    RawItem { heading: None, bullets: Some(vec![RawItemBullet { content: "bare".to_string() }]) },
                ],
            },
            RawSection {
                title: "Education".to_string(),
                items: vec![
                    RawItem {
                        heading: Some(RawItemHeading {
                            title: "Mathematics".to_string(),
                            subtitle: "".to_string(),
                            location: "".to_string(),
                            start_date: "2021-03".to_string(),
                            end_date: None,
                        }),
                        bullets: None,
                    },
                    RawItem { heading: None, bullets: None },
                ],
            },
        ],
    }
}

#[test]
fn meta_and_headline_pass_through() {
    let cv = sample_cv("en");
    let out = render(&cv);
    assert_eq!(out.meta.lang, "en");
    assert_eq!(out.meta.en_font, "Latin Modern");
    assert_eq!(out.meta.cjk_font, "Noto Serif CJK");
    assert_eq!(out.meta.font_size, 11);
    assert_eq!(out.headline.name, "Ada Lovelace");
    assert_eq!(out.headline.email, "ada@example.org");
    assert_eq!(out.headline.phone, "+44 20 7946 0000");
    assert_eq!(out.headline.website, "https://example.org");
    assert_eq!(out.headline.github, "");
}

#[test]
fn anchor_follows_heading_presence() {
    let cv = sample_cv("en");
    let out = render(&cv);
    match &out.sections[0].items[0].anchor {
        ViewAnchor::Heading(h) => {
            assert_eq!(h.title, "Analyst");
            assert_eq!(h.subtitle, "Engines");
            assert_eq!(h.location, "London");
            assert_eq!(h.date_range, "Jun 2019 -- Jan 2022");
        }
        ViewAnchor::BareItem => panic!("item with a heading must give a Heading anchor"),
    }
    assert!(matches!(out.sections[0].items[1].anchor, ViewAnchor::BareItem));
    match &out.sections[1].items[0].anchor {
        ViewAnchor::Heading(h) => {
            assert_eq!(h.subtitle, "");
            assert_eq!(h.location, "");
            assert_eq!(h.date_range, "Mar 2021 -- Present");
        }
        ViewAnchor::BareItem => panic!("item with a heading must give a Heading anchor"),
    }
    assert!(matches!(out.sections[1].items[1].anchor, ViewAnchor::BareItem));
}

#[test]
fn order_is_preserved() {
    let cv = sample_cv("en");
    let out = render(&cv);
    assert_eq!(out.sections.len(), 2);
    assert_eq!(out.sections[0].title, "Experience");
    assert_eq!(out.sections[1].title, "Education");
    assert_eq!(out.sections[0].items.len(), 2);
    assert_eq!(out.sections[1].items.len(), 2);
    let bullets = &out.sections[0].items[0].bullets;
    assert_eq!(bullets.len(), 2);
    assert_eq!(bullets[0].content, "first bullet");
    assert_eq!(bullets[1].content, "second bullet");
    assert_eq!(out.sections[0].items[1].bullets[0].content, "bare");
}

#[test]
fn absent_bullets_give_empty_sequence() {
    let cv = sample_cv("en");
    let out = render(&cv);
    assert!(out.sections[1].items[0].bullets.is_empty());
    assert!(out.sections[1].items[1].bullets.is_empty());
}

#[test]
fn zh_document_renders_zh_ranges() {
    let cv = sample_cv("zh");
    let out = render(&cv);
    match &out.sections[0].items[0].anchor {
        ViewAnchor::Heading(h) => assert_eq!(h.date_range, "2019.6 -- 2022.1"),
        ViewAnchor::BareItem => panic!("item with a heading must give a Heading anchor"),
    }
    match &out.sections[1].items[0].anchor {
        ViewAnchor::Heading(h) => assert_eq!(h.date_range, "2021.3 至今"),
        ViewAnchor::BareItem => panic!("item with a heading must give a Heading anchor"),
    }
}

#[test]
fn malformed_date_degrades_to_empty_range() {
    let mut cv = sample_cv("en");
    if let Some(h) = &mut cv.sections[0].items[0].heading {
        h.start_date = "never".to_string();
    }
    let out = render(&cv);
    match &out.sections[0].items[0].anchor {
        ViewAnchor::Heading(h) => assert_eq!(h.date_range, ""),
        ViewAnchor::BareItem => panic!("item with a heading must give a Heading anchor"),
    }
    // the rest of the document still renders normally
    match &out.sections[1].items[0].anchor {
        ViewAnchor::Heading(h) => assert_eq!(h.date_range, "Mar 2021 -- Present"),
        ViewAnchor::BareItem => panic!("item with a heading must give a Heading anchor"),
    }
}

#[test]
fn date_validity_check_over_whole_document() {
    let cv = sample_cv("en");
    assert!(cv_dates_in_range(&cv));
    let mut bad = sample_cv("en");
    if let Some(h) = &mut bad.sections[1].items[0].heading {
        h.start_date = "2021-13".to_string();
    }
    assert!(!cv_dates_in_range(&bad));
    let mut zh = sample_cv("zh");
    if let Some(h) = &mut zh.sections[1].items[0].heading {
        h.start_date = "2021-13".to_string();
    }
    // "zh" never consults the month table, so any parsed month is in range
    assert!(cv_dates_in_range(&zh));
}

#[test]
fn markup_conversion_is_identity() {
    assert_eq!(markdown_to_latex("plain text with *markup*"), "plain text with *markup*");
    assert_eq!(markdown_to_latex(""), "");
}
