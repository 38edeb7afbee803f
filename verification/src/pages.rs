//! The pages of the site and the context that each is rendered with.

use crate::assets::{AssetFiles, AssetUrls};
use vstd::prelude::*;

verus! {

/// The parent template that every page is rendered within.
pub const LAYOUT: &'static str = "components/layout";

/// The page identifier of the page that stands for every failure.
pub const NOT_FOUND_PAGE: &'static str = "404";

/// The title key of that page.
pub const NOT_FOUND_TITLE: &'static str = "error404-page-title";

/// What a template is rendered with: made for one request and dropped with
/// its response.
pub struct Context<'a, T> {
    /// The page identifier; the template of the page has the same name.
    pub page: String,
    pub title: String,
    /// The layout that the page is rendered within.
    pub parent: &'static str,
    /// What the page shows of its own.
    pub data: T,
    pub assets: &'a AssetFiles,
}

/// A render context, as texts.
pub ghost struct ContextView<T> {
    pub page: Seq<char>,
    pub title: Seq<char>,
    pub parent: Seq<char>,
    pub data: T,
    pub assets: AssetUrls,
}

impl<'a, T> View for Context<'a, T> {
    type V = ContextView<T>;

    open spec fn view(&self) -> ContextView<T> {
        ContextView {
            page: self.page@,
            title: self.title@,
            parent: self.parent@,
            data: self.data,
            assets: self.assets@,
        }
    }
}

/// The context of a page without data of its own: its name is both its
/// identifier and its title key.
pub open spec fn simple_view(name: Seq<char>, assets: AssetUrls) -> ContextView<()> {
    ContextView { page: name, title: name, parent: LAYOUT@, data: (), assets }
}

/// The context of the page that is shown for a missing page and for a
/// failed handler alike.
pub open spec fn not_found_view(assets: AssetUrls) -> ContextView<()> {
    ContextView {
        page: NOT_FOUND_PAGE@,
        title: NOT_FOUND_TITLE@,
        parent: LAYOUT@,
        data: (),
        assets,
    }
}

impl<'a, T> Context<'a, T> {
    /// The context of `page` with the given title and data, within the
    /// layout of the site, referring to `assets`.
    pub fn new(page: String, title: &str, data: T, assets: &'a AssetFiles) -> (context: Self)
        ensures
            context@ == (ContextView {
                page: page@,
                title: title@,
                parent: LAYOUT@,
                data,
                assets: assets@,
            }),
            context.assets == assets,
    {
        Context { page, title: title.to_owned(), parent: LAYOUT, data, assets }
    }
}

/// The static pages of the site.
#[derive(Clone, Copy, Debug, PartialEq, Eq)]
pub enum Page {
    Index,
    Services,
    TipsAndTricks,
    AboutUs,
    Contact,
}

impl Page {
    /// The name of the page.
    pub open spec fn name_text(self) -> Seq<char> {
        match self {
            Page::Index => "index"@,
            Page::Services => "services"@,
            Page::TipsAndTricks => "tips-and-tricks"@,
            Page::AboutUs => "about-us"@,
            Page::Contact => "contact"@,
        }
    }

    /// The name of the page: that of its template.
    pub fn name(self) -> (name: &'static str)
        ensures
            name@ == self.name_text(),
    {
        match self {
            Page::Index => "index",
            Page::Services => "services",
            Page::TipsAndTricks => "tips-and-tricks",
            Page::AboutUs => "about-us",
            Page::Contact => "contact",
        }
    }

    /// The context that the page is rendered with: the name of the page is
    /// its identifier and its title key, and it has no data of its own.
    pub fn context<'a>(self, assets: &'a AssetFiles) -> (context: Context<'a, ()>)
        ensures
            context@ == simple_view(self.name_text(), assets@),
            context.page@ == self.name_text(),
            context.title@ == self.name_text(),
            context.assets == assets,
    {
        simple_page(self.name(), assets)
    }
}

/// Each page is rendered under its own name: the name is the identifier and
/// the title key of its context, and no two pages share a name, nor does
/// any share the identifier of the page for a missing page.
pub proof fn lemma_pages_are_named(page: Page, other: Page, assets: AssetUrls)
    ensures
        simple_view(page.name_text(), assets).page == page.name_text(),
        simple_view(page.name_text(), assets).title == page.name_text(),
        page != other ==> page.name_text() != other.name_text(),
        page.name_text() != NOT_FOUND_PAGE@,
{
    reveal_strlit("index");
    reveal_strlit("services");
    reveal_strlit("tips-and-tricks");
    reveal_strlit("about-us");
    reveal_strlit("contact");
    reveal_strlit("404");
    assert("index"@.len() == 5);
    assert("tips-and-tricks"@.len() == 15);
    assert("contact"@.len() == 7);
    assert("404"@.len() == 3);
    assert("services"@[0] != "about-us"@[0]);
}

/// Every context that is made from one asset table refers to the URLs of
/// that table, whatever its page: the renders of one run agree on them.
pub proof fn lemma_contexts_share_assets(first: Seq<char>, second: Seq<char>, assets: AssetUrls)
    ensures
        simple_view(first, assets).assets == assets,
        simple_view(second, assets).assets == simple_view(first, assets).assets,
        not_found_view(assets).assets == assets,
{
}

/// The context of the page `name`, which has no data of its own.
pub fn simple_page<'a>(name: &str, assets: &'a AssetFiles) -> (context: Context<'a, ()>)
    ensures
        context@ == simple_view(name@, assets@),
        context.assets == assets,
{
    let page = name.to_owned();
    Context::new(page, name, (), assets)
}

/// The context of the page that answers a request which no route matches.
pub fn not_found_page<'a>(assets: &'a AssetFiles) -> (context: Context<'a, ()>)
    ensures
        context@ == not_found_view(assets@),
        context.assets == assets,
{
    Context::new(NOT_FOUND_PAGE.to_owned(), NOT_FOUND_TITLE, (), assets)
}

/// The context of the page that answers a request whose handler failed. It
/// is the context of the page for a missing page: nothing of the failure is
/// shown.
pub fn error_page<'a>(assets: &'a AssetFiles) -> (context: Context<'a, ()>)
    ensures
        context@ == not_found_view(assets@),
        context.assets == assets,
{
    not_found_page(assets)
}

} // verus!
