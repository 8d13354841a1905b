//! The input model: user-authored document data, consumed read-only by the
//! transform. Each type has a ghost mirror (`*V`) over `Seq<char>` that the
//! contracts speak of, reached through `DeepView`.

use vstd::prelude::*;

verus! {

/// Presentation metadata: locale tag, fonts, font size. Passed through the
/// transform unchanged.
pub struct Meta {
    pub lang: String,
    pub en_font: String,
    pub cjk_font: String,
    pub font_size: u8,
}

/// Ghost mirror of [`Meta`].
#[verifier::ext_equal]
pub struct MetaV {
    pub lang: Seq<char>,
    pub en_font: Seq<char>,
    pub cjk_font: Seq<char>,
    pub font_size: u8,
}

impl DeepView for Meta {
    type V = MetaV;

    open spec fn deep_view(&self) -> MetaV {
        MetaV {
            lang: self.lang.deep_view(),
            en_font: self.en_font.deep_view(),
            cjk_font: self.cjk_font.deep_view(),
            font_size: self.font_size,
        }
    }
}

impl Clone for Meta {
    fn clone(&self) -> (r: Meta)
        ensures
            r == *self,
    {
        Meta {
            lang: self.lang.clone(),
            en_font: self.en_font.clone(),
            cjk_font: self.cjk_font.clone(),
            font_size: self.font_size,
        }
    }
}

/// A whole user-authored document.
pub struct RawCv {
    pub meta: Meta,
    pub headline: RawHeadline,
    pub sections: Vec<RawSection>,
}

/// Ghost mirror of [`RawCv`].
#[verifier::ext_equal]
pub struct RawCvV {
    pub meta: MetaV,
    pub headline: RawHeadlineV,
    pub sections: Seq<RawSectionV>,
}

impl DeepView for RawCv {
    type V = RawCvV;

    open spec fn deep_view(&self) -> RawCvV {
        RawCvV {
            meta: self.meta.deep_view(),
            headline: self.headline.deep_view(),
            sections: self.sections.deep_view(),
        }
    }
}

/// The contact block. Name, email and phone are required; website and
/// github default to the empty string when absent in the raw document.
pub struct RawHeadline {
    pub name: String,
    pub email: String,
    pub phone: String,
    pub website: String,
    pub github: String,
}

/// Ghost mirror of [`RawHeadline`].
#[verifier::ext_equal]
pub struct RawHeadlineV {
    pub name: Seq<char>,
    pub email: Seq<char>,
    pub phone: Seq<char>,
    pub website: Seq<char>,
    pub github: Seq<char>,
}

impl DeepView for RawHeadline {
    type V = RawHeadlineV;

    open spec fn deep_view(&self) -> RawHeadlineV {
        RawHeadlineV {
            name: self.name.deep_view(),
            email: self.email.deep_view(),
            phone: self.phone.deep_view(),
            website: self.website.deep_view(),
            github: self.github.deep_view(),
        }
    }
}

/// A titled, ordered group of items. Item order is meaningful and is
/// preserved by the transform.
pub struct RawSection {
    pub title: String,
    pub items: Vec<RawItem>,
}

/// Ghost mirror of [`RawSection`].
#[verifier::ext_equal]
pub struct RawSectionV {
    pub title: Seq<char>,
    pub items: Seq<RawItemV>,
}

impl DeepView for RawSection {
    type V = RawSectionV;

    open spec fn deep_view(&self) -> RawSectionV {
        RawSectionV { title: self.title.deep_view(), items: self.items.deep_view() }
    }
}

/// One entry of a section. It may have a heading, bullets, both, or
/// neither; nothing here assumes either is present.
pub struct RawItem {
    pub heading: Option<RawItemHeading>,
    pub bullets: Option<Vec<RawItemBullet>>,
}

/// Ghost mirror of [`RawItem`].
#[verifier::ext_equal]
pub struct RawItemV {
    pub heading: Option<RawItemHeadingV>,
    pub bullets: Option<Seq<RawItemBulletV>>,
}

impl DeepView for RawItem {
    type V = RawItemV;

    open spec fn deep_view(&self) -> RawItemV {
        RawItemV { heading: self.heading.deep_view(), bullets: self.bullets.deep_view() }
    }
}

/// The titled form of an item: subtitle and location default to empty,
/// start_date is expected as "YYYY-MM", an absent end_date means ongoing.
pub struct RawItemHeading {
    pub title: String,
    pub subtitle: String,
    pub location: String,
    pub start_date: String,
    pub end_date: Option<String>,
}

/// Ghost mirror of [`RawItemHeading`].
#[verifier::ext_equal]
pub struct RawItemHeadingV {
    pub title: Seq<char>,
    pub subtitle: Seq<char>,
    pub location: Seq<char>,
    pub start_date: Seq<char>,
    pub end_date: Option<Seq<char>>,
}

impl DeepView for RawItemHeading {
    type V = RawItemHeadingV;

    open spec fn deep_view(&self) -> RawItemHeadingV {
        RawItemHeadingV {
            title: self.title.deep_view(),
            subtitle: self.subtitle.deep_view(),
            location: self.location.deep_view(),
            start_date: self.start_date.deep_view(),
            end_date: self.end_date.deep_view(),
        }
    }
}

/// One bullet of free text in lightweight markup.
pub struct RawItemBullet {
    pub content: String,
}

/// Ghost mirror of [`RawItemBullet`].
#[verifier::ext_equal]
pub struct RawItemBulletV {
    pub content: Seq<char>,
}

impl DeepView for RawItemBullet {
    type V = RawItemBulletV;

    open spec fn deep_view(&self) -> RawItemBulletV {
        RawItemBulletV { content: self.content.deep_view() }
    }
}

} // verus!
