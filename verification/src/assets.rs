//! The table of the public stylesheet URLs that every page refers to.

use vstd::prelude::*;

verus! {

/// The URLs of the stylesheets, as texts.
pub ghost struct CssUrls {
    pub app: Seq<char>,
    pub fonts: Seq<char>,
    pub vendor: Seq<char>,
}

/// The asset table, as texts.
pub ghost struct AssetUrls {
    pub css: CssUrls,
}

/// The public URLs of the three stylesheet bundles.
#[derive(Debug)]
pub struct CSSFiles {
    pub app: String,
    pub fonts: String,
    pub vendor: String,
}

impl View for CSSFiles {
    type V = CssUrls;

    open spec fn view(&self) -> CssUrls {
        CssUrls { app: self.app@, fonts: self.fonts@, vendor: self.vendor@ }
    }
}

impl Clone for CSSFiles {
    fn clone(&self) -> (copy: Self)
        ensures
            copy@ == self@,
    {
        CSSFiles {
            app: self.app.clone(),
            fonts: self.fonts.clone(),
            vendor: self.vendor.clone(),
        }
    }
}

/// The asset table: built once when the server starts, read by every render.
#[derive(Debug)]
pub struct AssetFiles {
    pub css: CSSFiles,
}

impl View for AssetFiles {
    type V = AssetUrls;

    open spec fn view(&self) -> AssetUrls {
        AssetUrls { css: self.css@ }
    }
}

impl Clone for AssetFiles {
    fn clone(&self) -> (copy: Self)
        ensures
            copy@ == self@,
    {
        AssetFiles { css: self.css.clone() }
    }
}

/// The path under which static files are served.
pub const STATIC_PREFIX: &'static str = "/static/";

/// The table of the stylesheets that were built and published beforehand.
pub open spec fn prebuilt_urls() -> AssetUrls {
    AssetUrls {
        css: CssUrls {
            app: "/static/styles/app_packaged.css"@,
            fonts: "/static/styles/fonts_packaged.css"@,
            vendor: "/static/styles/vendor_packaged.css"@,
        },
    }
}

impl AssetFiles {
    /// The asset table of a deployment whose stylesheets were built and
    /// published beforehand: it names those files and compiles nothing.
    pub fn prebuilt() -> (assets: AssetFiles)
        ensures
            assets@ == prebuilt_urls(),
    {
        AssetFiles {
            css: CSSFiles {
                app: "/static/styles/app_packaged.css".to_owned(),
                fonts: "/static/styles/fonts_packaged.css".to_owned(),
                vendor: "/static/styles/vendor_packaged.css".to_owned(),
            },
        }
    }
}

/// Each URL of the prebuilt table is non-empty and lies under the path
/// under which static files are served.
pub proof fn lemma_prebuilt_urls_are_served()
    ensures
        prebuilt_urls().css.app.len() > 0,
        prebuilt_urls().css.fonts.len() > 0,
        prebuilt_urls().css.vendor.len() > 0,
        STATIC_PREFIX@.is_prefix_of(prebuilt_urls().css.app),
        STATIC_PREFIX@.is_prefix_of(prebuilt_urls().css.fonts),
        STATIC_PREFIX@.is_prefix_of(prebuilt_urls().css.vendor),
{
    reveal_strlit("/static/");
    reveal_strlit("/static/styles/app_packaged.css");
    reveal_strlit("/static/styles/fonts_packaged.css");
    reveal_strlit("/static/styles/vendor_packaged.css");
    let prefix = STATIC_PREFIX@;
    assert(prebuilt_urls().css.app.subrange(0, 8) =~= prefix);
    assert(prebuilt_urls().css.fonts.subrange(0, 8) =~= prefix);
    assert(prebuilt_urls().css.vendor.subrange(0, 8) =~= prefix);
}

} // verus!
