use site_core::assets::AssetFiles;
use site_core::pages::{
    error_page, not_found_page, simple_page, Context, Page, LAYOUT, NOT_FOUND_PAGE,
    NOT_FOUND_TITLE,
};

const PAGES: [(Page, &str); 5] = [
    (Page::Index, "index"),
    (Page::Services, "services"),
    (Page::TipsAndTricks, "tips-and-tricks"),
    (Page::AboutUs, "about-us"),
    (Page::Contact, "contact"),
];

#[test]
fn layout_is_the_site_layout() {
    assert_eq!(LAYOUT, "components/layout");
}

#[test]
fn context_holds_what_it_was_made_of() {
    let assets = AssetFiles::prebuilt();
    let context = Context::new("pricing".to_string(), "pricing-title", 42u8, &assets);
    assert_eq!(context.page, "pricing");
    assert_eq!(context.title, "pricing-title");
    assert_eq!(context.parent, "components/layout");
    assert_eq!(context.data, 42);
    assert!(std::ptr::eq(context.assets, &assets));
}

#[test]
fn context_with_empty_title_has_an_empty_title() {
    let assets = AssetFiles::prebuilt();
    let context = Context::new("plain".to_string(), "", (), &assets);
    assert_eq!(context.page, "plain");
    assert_eq!(context.title, "");
    assert_eq!(context.parent, "components/layout");
}

#[test]
fn each_page_has_its_name() {
    for (page, name) in PAGES {
        assert_eq!(page.name(), name);
    }
}

#[test]
fn each_page_is_rendered_with_its_name_as_identifier_and_title() {
    let assets = AssetFiles::prebuilt();
    for (page, name) in PAGES {
        let context = page.context(&assets);
        assert_eq!(context.page, name);
        assert_eq!(context.title, name);
        assert_eq!(context.parent, "components/layout");
        assert_eq!(context.data, ());
        assert!(std::ptr::eq(context.assets, &assets));
    }
}

#[test]
fn simple_page_uses_the_name_twice() {
    let assets = AssetFiles::prebuilt();
    let context = simple_page("tips-and-tricks", &assets);
    assert_eq!(context.page, "tips-and-tricks");
    assert_eq!(context.title, "tips-and-tricks");
    assert_eq!(context.parent, "components/layout");
    assert_eq!(context.assets.css.vendor, "/static/styles/vendor_packaged.css");
}

#[test]
fn not_found_page_has_its_identifier_and_title_key() {
    let assets = AssetFiles::prebuilt();
    let context = not_found_page(&assets);
    assert_eq!(context.page, "404");
    assert_eq!(context.title, "error404-page-title");
    assert_eq!(context.parent, "components/layout");
    assert_eq!(NOT_FOUND_PAGE, "404");
    assert_eq!(NOT_FOUND_TITLE, "error404-page-title");
}

#[test]
fn failed_handler_is_answered_like_a_missing_page() {
    let assets = AssetFiles::prebuilt();
    let missing = not_found_page(&assets);
    let failed = error_page(&assets);
    assert_eq!(failed.page, missing.page);
    assert_eq!(failed.title, missing.title);
    assert_eq!(failed.parent, missing.parent);
    assert_eq!(failed.data, missing.data);
    assert!(std::ptr::eq(failed.assets, missing.assets));
}

#[test]
fn renders_of_one_process_refer_to_the_same_assets() {
    let assets = AssetFiles::prebuilt();
    let first = Page::Index.context(&assets);
    let second = Page::Index.context(&assets);
    assert_eq!(first.assets.css.app, second.assets.css.app);
    assert_eq!(first.assets.css.fonts, second.assets.css.fonts);
    assert_eq!(first.assets.css.vendor, second.assets.css.vendor);
    assert!(!first.assets.css.app.is_empty());
}
