//! The transform engine: maps the raw input model to the view model that a
//! template engine consumes. Meta and the headline pass through unchanged,
//! each item becomes a tagged anchor, and bullet content runs through the
//! markup-conversion stage.

use vstd::prelude::*;

use crate::model;
use crate::render_model::{format_range, format_range_spec, token_month_ok, date_token_month_ok};

verus! {

/// A template-ready document: metadata passed through, a resolved contact
/// block, and sections whose items carry their chosen anchor.
pub struct ViewCv {
    pub meta: model::Meta,
    pub headline: ViewHeadline,
    pub sections: Vec<ViewSection>,
}

/// Ghost mirror of [`ViewCv`].
#[verifier::ext_equal]
pub struct ViewCvV {
    pub meta: model::MetaV,
    pub headline: ViewHeadlineV,
    pub sections: Seq<ViewSectionV>,
}

impl DeepView for ViewCv {
    type V = ViewCvV;

    open spec fn deep_view(&self) -> ViewCvV {
        ViewCvV {
            meta: self.meta.deep_view(),
            headline: self.headline.deep_view(),
            sections: self.sections.deep_view(),
        }
    }
}

/// The contact block as the template engine sees it.
pub struct ViewHeadline {
    pub name: String,
    pub email: String,
    pub phone: String,
    pub website: String,
    pub github: String,
}

/// Ghost mirror of [`ViewHeadline`].
#[verifier::ext_equal]
pub struct ViewHeadlineV {
    pub name: Seq<char>,
    pub email: Seq<char>,
    pub phone: Seq<char>,
    pub website: Seq<char>,
    pub github: Seq<char>,
}

impl DeepView for ViewHeadline {
    type V = ViewHeadlineV;

    open spec fn deep_view(&self) -> ViewHeadlineV {
        ViewHeadlineV {
            name: self.name.deep_view(),
            email: self.email.deep_view(),
            phone: self.phone.deep_view(),
            website: self.website.deep_view(),
            github: self.github.deep_view(),
        }
    }
}

/// A titled, ordered group of rendered items.
pub struct ViewSection {
    pub title: String,
    pub items: Vec<ViewItem>,
}

/// Ghost mirror of [`ViewSection`].
#[verifier::ext_equal]
pub struct ViewSectionV {
    pub title: Seq<char>,
    pub items: Seq<ViewItemV>,
}

impl DeepView for ViewSection {
    type V = ViewSectionV;

    open spec fn deep_view(&self) -> ViewSectionV {
        ViewSectionV { title: self.title.deep_view(), items: self.items.deep_view() }
    }
}

/// One rendered entry: its anchor and its converted bullets.
pub struct ViewItem {
    pub anchor: ViewAnchor,
    pub bullets: Vec<ViewItemBullet>,
}

/// Ghost mirror of [`ViewItem`].
#[verifier::ext_equal]
pub struct ViewItemV {
    pub anchor: ViewAnchorV,
    pub bullets: Seq<ViewItemBulletV>,
}

impl DeepView for ViewItem {
    type V = ViewItemV;

    open spec fn deep_view(&self) -> ViewItemV {
        ViewItemV { anchor: self.anchor.deep_view(), bullets: self.bullets.deep_view() }
    }
}

/// The tagged choice of rendering form for an entry: a titled heading with
/// a precomputed date range, or a bare list item with no payload. The
/// variant is chosen per item, never both.
pub enum ViewAnchor {
    Heading(ViewItemHeading),
    BareItem,
}

/// Ghost mirror of [`ViewAnchor`].
#[verifier::ext_equal]
pub enum ViewAnchorV {
    Heading(ViewItemHeadingV),
    BareItem,
}

impl DeepView for ViewAnchor {
    type V = ViewAnchorV;

    open spec fn deep_view(&self) -> ViewAnchorV {
        match self {
            ViewAnchor::Heading(h) => ViewAnchorV::Heading(h.deep_view()),
            ViewAnchor::BareItem => ViewAnchorV::BareItem,
        }
    }
}

/// The payload of a Heading anchor.
pub struct ViewItemHeading {
    pub title: String,
    pub subtitle: String,
    pub location: String,
    pub date_range: String,
}

/// Ghost mirror of [`ViewItemHeading`].
#[verifier::ext_equal]
pub struct ViewItemHeadingV {
    pub title: Seq<char>,
    pub subtitle: Seq<char>,
    pub location: Seq<char>,
    pub date_range: Seq<char>,
}

impl DeepView for ViewItemHeading {
    type V = ViewItemHeadingV;

    open spec fn deep_view(&self) -> ViewItemHeadingV {
        ViewItemHeadingV {
            title: self.title.deep_view(),
            subtitle: self.subtitle.deep_view(),
            location: self.location.deep_view(),
            date_range: self.date_range.deep_view(),
        }
    }
}

/// One bullet after markup conversion.
pub struct ViewItemBullet {
    pub content: String,
}

/// Ghost mirror of [`ViewItemBullet`].
#[verifier::ext_equal]
pub struct ViewItemBulletV {
    pub content: Seq<char>,
}

impl DeepView for ViewItemBullet {
    type V = ViewItemBulletV;

    open spec fn deep_view(&self) -> ViewItemBulletV {
        ViewItemBulletV { content: self.content.deep_view() }
    }
}

// ---------------------------------------------------------------------------
// The transform, at the spec level.
// ---------------------------------------------------------------------------

/// What the markup-conversion stage produces. Presently the identity: the
/// stage is a deliberate extension point, kept isolated so a real
/// conversion can replace it without touching the transform.
pub open spec fn markdown_to_latex_spec(s: Seq<char>) -> Seq<char> {
    s
}

pub open spec fn render_headline_spec(h: model::RawHeadlineV) -> ViewHeadlineV {
    ViewHeadlineV {
        name: h.name,
        email: h.email,
        phone: h.phone,
        website: h.website,
        github: h.github,
    }
}

/// The anchor-selection rule: a present heading becomes a Heading anchor
/// with its date range precomputed; an absent one becomes BareItem.
pub open spec fn render_anchor_spec(
    heading: Option<model::RawItemHeadingV>,
    lang: Seq<char>,
) -> ViewAnchorV {
    match heading {
        Some(h) => ViewAnchorV::Heading(
            ViewItemHeadingV {
                title: h.title,
                subtitle: h.subtitle,
                location: h.location,
                date_range: format_range_spec(h.start_date, h.end_date, lang),
            },
        ),
        None => ViewAnchorV::BareItem,
    }
}

pub open spec fn render_bullet_spec(b: model::RawItemBulletV) -> ViewItemBulletV {
    ViewItemBulletV { content: markdown_to_latex_spec(b.content) }
}

/// One item's rendering: the chosen anchor, and the bullets mapped in order
/// through the markup converter (absent bullets map to the empty sequence).
pub open spec fn render_item_spec(item: model::RawItemV, lang: Seq<char>) -> ViewItemV {
    ViewItemV {
        anchor: render_anchor_spec(item.heading, lang),
        bullets: match item.bullets {
            Some(bs) => bs.map_values(|b: model::RawItemBulletV| render_bullet_spec(b)),
            None => Seq::<ViewItemBulletV>::empty(),
        },
    }
}

pub open spec fn render_section_spec(section: model::RawSectionV, lang: Seq<char>) -> ViewSectionV {
    ViewSectionV {
        title: section.title,
        items: section.items.map_values(|i: model::RawItemV| render_item_spec(i, lang)),
    }
}

/// The whole transform: Meta passes through unchanged, the headline is
/// copied field for field, sections are mapped one-to-one in input order.
pub open spec fn render_spec(cv: model::RawCvV) -> ViewCvV {
    ViewCvV {
        meta: cv.meta,
        headline: render_headline_spec(cv.headline),
        sections: cv.sections.map_values(
            |s: model::RawSectionV| render_section_spec(s, cv.meta.lang),
        ),
    }
}

// ---------------------------------------------------------------------------
// Date-token validity over a whole document.
// ---------------------------------------------------------------------------

/// Validity of one item's date tokens for the document's locale (months in
/// the English table's range wherever the table would be consulted).
pub open spec fn item_dates_ok(item: model::RawItemV, lang: Seq<char>) -> bool {
    match item.heading {
        Some(h) => token_month_ok(h.start_date, lang) && (h.end_date matches Some(e)
            ==> token_month_ok(e, lang)),
        None => true,
    }
}

pub open spec fn section_dates_ok(section: model::RawSectionV, lang: Seq<char>) -> bool {
    forall|i: int|
        0 <= i < section.items.len() ==> item_dates_ok(#[trigger] section.items[i], lang)
}

pub open spec fn cv_dates_ok(cv: model::RawCvV) -> bool {
    forall|s: int|
        0 <= s < cv.sections.len() ==> section_dates_ok(#[trigger] cv.sections[s], cv.meta.lang)
}

// ---------------------------------------------------------------------------
// The transform, executable and verified.
// ---------------------------------------------------------------------------

/// The markup-conversion stage for bullet content. Presently the identity;
/// a richer conversion replaces this one function without touching the
/// transform.
pub fn markdown_to_latex(s: &str) -> (r: String)
    ensures
        r@ == markdown_to_latex_spec(s@),
{
    s.to_owned()
}

pub fn render_headline(headline: &model::RawHeadline) -> (r: ViewHeadline)
    ensures
        r.deep_view() == render_headline_spec(headline.deep_view()),
{
    let r = ViewHeadline {
        name: headline.name.clone(),
        email: headline.email.clone(),
        phone: headline.phone.clone(),
        website: headline.website.clone(),
        github: headline.github.clone(),
    };
    proof {
        assert(r.deep_view() =~= render_headline_spec(headline.deep_view()));
    }
    r
}

pub fn render_item(item: &model::RawItem, lang: &str) -> (r: ViewItem)
    requires
        item_dates_ok(item.deep_view(), lang@),
    ensures
        r.deep_view() == render_item_spec(item.deep_view(), lang@),
{
    let anchor = match &item.heading {
        Some(h) => {
            let end: Option<&str> = match &h.end_date {
                Some(e) => Some(e.as_str()),
                None => None,
            };
            ViewAnchor::Heading(
                ViewItemHeading {
                    title: h.title.clone(),
                    subtitle: h.subtitle.clone(),
                    location: h.location.clone(),
                    date_range: format_range(h.start_date.as_str(), end, lang),
                },
            )
        }
        None => ViewAnchor::BareItem,
    };
    proof {
        assert(anchor.deep_view() =~= render_anchor_spec(item.deep_view().heading, lang@));
    }
    let mut bullets: Vec<ViewItemBullet> = Vec::new();
    match &item.bullets {
        Some(bs) => {
            let n = bs.len();
            let mut k: usize = 0;
            while k < n
                invariant
                    k <= n,
                    n == bs.len(),
                    bullets.deep_view() =~= bs.deep_view().subrange(0, k as int).map_values(
                        |b: model::RawItemBulletV| render_bullet_spec(b),
                    ),
                decreases n - k,
            {
                let content = markdown_to_latex(bs[k].content.as_str());
                bullets.push(ViewItemBullet { content });
                proof {
                    assert(bs.deep_view().subrange(0, k + 1 as int).map_values(
                        |b: model::RawItemBulletV| render_bullet_spec(b),
                    ) =~= bs.deep_view().subrange(0, k as int).map_values(
                        |b: model::RawItemBulletV| render_bullet_spec(b),
                    ).push(render_bullet_spec(bs.deep_view()[k as int])));
                }
                k += 1;
            }
            proof {
                assert(bs.deep_view().subrange(0, n as int) =~= bs.deep_view());
            }
        }
        None => {}
    }
    let r = ViewItem { anchor, bullets };
    proof {
        assert(r.deep_view() =~= render_item_spec(item.deep_view(), lang@));
    }
    r
}

pub fn render_section(section: &model::RawSection, lang: &str) -> (r: ViewSection)
    requires
        section_dates_ok(section.deep_view(), lang@),
    ensures
        r.deep_view() == render_section_spec(section.deep_view(), lang@),
{
    let n = section.items.len();
    let mut items: Vec<ViewItem> = Vec::new();
    let mut i: usize = 0;
    while i < n
        invariant
            i <= n,
            n == section.items.len(),
            section_dates_ok(section.deep_view(), lang@),
            items.deep_view() =~= section.items.deep_view().subrange(0, i as int).map_values(
                |it: model::RawItemV| render_item_spec(it, lang@),
            ),
        decreases n - i,
    {
        proof {
            assert(section.deep_view().items[i as int] == section.items@[i as int].deep_view());
            assert(item_dates_ok(section.items@[i as int].deep_view(), lang@));
        }
        let item = render_item(&section.items[i], lang);
        items.push(item);
        proof {
            assert(section.items.deep_view().subrange(0, i + 1 as int).map_values(
                |it: model::RawItemV| render_item_spec(it, lang@),
            ) =~= section.items.deep_view().subrange(0, i as int).map_values(
                |it: model::RawItemV| render_item_spec(it, lang@),
            ).push(render_item_spec(section.items.deep_view()[i as int], lang@)));
        }
        i += 1;
    }
    proof {
        assert(section.items.deep_view().subrange(0, n as int) =~= section.items.deep_view());
    }
    let r = ViewSection { title: section.title.clone(), items };
    proof {
        assert(r.deep_view() =~= render_section_spec(section.deep_view(), lang@));
    }
    r
}

/// The whole transform. Total on every document whose date tokens are valid
/// for its locale; a malformed token only empties its own range.
pub fn render(cv: &model::RawCv) -> (r: ViewCv)
    requires
        cv_dates_ok(cv.deep_view()),
    ensures
        r.deep_view() == render_spec(cv.deep_view()),
{
    let n = cv.sections.len();
    let mut sections: Vec<ViewSection> = Vec::new();
    let mut s: usize = 0;
    while s < n
        invariant
            s <= n,
            n == cv.sections.len(),
            cv_dates_ok(cv.deep_view()),
            sections.deep_view() =~= cv.sections.deep_view().subrange(0, s as int).map_values(
                |sec: model::RawSectionV| render_section_spec(sec, cv.deep_view().meta.lang),
            ),
        decreases n - s,
    {
        proof {
            assert(cv.deep_view().sections[s as int] == cv.sections@[s as int].deep_view());
            assert(section_dates_ok(cv.sections@[s as int].deep_view(), cv.deep_view().meta.lang));
        }
        let section = render_section(&cv.sections[s], cv.meta.lang.as_str());
        sections.push(section);
        proof {
            assert(cv.sections.deep_view().subrange(0, s + 1 as int).map_values(
                |sec: model::RawSectionV| render_section_spec(sec, cv.deep_view().meta.lang),
            ) =~= cv.sections.deep_view().subrange(0, s as int).map_values(
                |sec: model::RawSectionV| render_section_spec(sec, cv.deep_view().meta.lang),
            ).push(render_section_spec(cv.sections.deep_view()[s as int], cv.deep_view().meta.lang)));
        }
        s += 1;
    }
    proof {
        assert(cv.sections.deep_view().subrange(0, n as int) =~= cv.sections.deep_view());
    }
    let r = ViewCv { meta: cv.meta.clone(), headline: render_headline(&cv.headline), sections };
    proof {
        assert(r.deep_view() =~= render_spec(cv.deep_view()));
    }
    r
}

// ---------------------------------------------------------------------------
// Executable date-validity checks, for unverified callers.
// ---------------------------------------------------------------------------

/// Tests one item's date tokens, so unverified callers can establish
/// [`render_item`]'s precondition before calling it.
pub fn item_dates_in_range(item: &model::RawItem, lang: &str) -> (b: bool)
    ensures
        b == item_dates_ok(item.deep_view(), lang@),
{
    match &item.heading {
        Some(h) => {
            let s_ok = date_token_month_ok(h.start_date.as_str(), lang);
            let e_ok = match &h.end_date {
                Some(e) => date_token_month_ok(e.as_str(), lang),
                None => true,
            };
            s_ok && e_ok
        }
        None => true,
    }
}

/// Tests one section's date tokens, so unverified callers can establish
/// [`render_section`]'s precondition before calling it.
pub fn section_dates_in_range(section: &model::RawSection, lang: &str) -> (b: bool)
    ensures
        b == section_dates_ok(section.deep_view(), lang@),
{
    let n = section.items.len();
    let mut i: usize = 0;
    while i < n
        invariant
            i <= n,
            n == section.items.len(),
            forall|j: int|
                0 <= j < i ==> item_dates_ok(#[trigger] section.items.deep_view()[j], lang@),
        decreases n - i,
    {
        if !item_dates_in_range(&section.items[i], lang) {
            proof {
                assert(!item_dates_ok(section.deep_view().items[i as int], lang@));
            }
            return false;
        }
        i += 1;
    }
    true
}

/// Tests a whole document's date tokens against its own locale, so
/// unverified callers can establish [`render`]'s precondition before
/// calling it.
pub fn cv_dates_in_range(cv: &model::RawCv) -> (b: bool)
    ensures
        b == cv_dates_ok(cv.deep_view()),
{
    let n = cv.sections.len();
    let mut s: usize = 0;
    while s < n
        invariant
            s <= n,
            n == cv.sections.len(),
            forall|j: int|
                0 <= j < s ==> section_dates_ok(
                    #[trigger] cv.sections.deep_view()[j],
                    cv.deep_view().meta.lang,
                ),
        decreases n - s,
    {
        if !section_dates_in_range(&cv.sections[s], cv.meta.lang.as_str()) {
            proof {
                assert(!section_dates_ok(cv.deep_view().sections[s as int], cv.deep_view().meta.lang));
            }
            return false;
        }
        s += 1;
    }
    true
}

// ---------------------------------------------------------------------------
// Laws of the transform.
// ---------------------------------------------------------------------------

/// Law: an item produces a Heading anchor exactly when its heading is
/// present, and a BareItem anchor exactly when it is absent; no item
/// produces both or neither.
pub proof fn lemma_anchor_selection(item: model::RawItemV, lang: Seq<char>)
    ensures
        (render_item_spec(item, lang).anchor is Heading) <==> (item.heading is Some),
        (render_item_spec(item, lang).anchor is BareItem) <==> (item.heading is None),
{
}

/// Law: the transform preserves order exactly: section for section, item
/// for item within each section, bullet for bullet within each item.
pub proof fn lemma_order_preserved(cv: model::RawCvV)
    ensures
        render_spec(cv).sections.len() == cv.sections.len(),
        forall|s: int|
            0 <= s < cv.sections.len() ==> #[trigger] render_spec(cv).sections[s]
                == render_section_spec(cv.sections[s], cv.meta.lang),
        forall|s: int|
            0 <= s < cv.sections.len() ==> (#[trigger] render_spec(cv).sections[s]).title
                == cv.sections[s].title && render_spec(cv).sections[s].items.len()
                == cv.sections[s].items.len(),
        forall|s: int, i: int|
            0 <= s < cv.sections.len() && 0 <= i < cv.sections[s].items.len()
                ==> #[trigger] render_spec(cv).sections[s].items[i] == render_item_spec(
                cv.sections[s].items[i],
                cv.meta.lang,
            ),
{
}

/// Law: within one item, bullets are mapped one-to-one in input order
/// through the markup converter; absent bullets give the empty sequence.
pub proof fn lemma_bullet_order(item: model::RawItemV, lang: Seq<char>)
    ensures
        match item.bullets {
            Some(bs) => render_item_spec(item, lang).bullets.len() == bs.len() && (forall|k: int|
                0 <= k < bs.len() ==> (#[trigger] render_item_spec(item, lang).bullets[k]).content
                    == markdown_to_latex_spec(bs[k].content)),
            None => render_item_spec(item, lang).bullets.len() == 0,
        },
{
}

/// Law: Meta and every headline field pass through the transform unchanged.
pub proof fn lemma_passthrough(cv: model::RawCvV)
    ensures
        render_spec(cv).meta == cv.meta,
        render_spec(cv).headline.name == cv.headline.name,
        render_spec(cv).headline.email == cv.headline.email,
        render_spec(cv).headline.phone == cv.headline.phone,
        render_spec(cv).headline.website == cv.headline.website,
        render_spec(cv).headline.github == cv.headline.github,
{
}

} // verus!
