//! What the server is started with, and the handlers that answer without a
//! template.

use crate::assets::{prebuilt_urls, AssetFiles};
use crate::caching::{texts, Cached, Caching};
use vstd::prelude::*;

verus! {

/// The body that tells every crawler to stay away.
pub const ROBOTS_DISALLOW_ALL: &'static str = "User-agent: *\nDisallow: /";

/// The directory that static files are read from.
pub const STATIC_ROOT: &'static str = "static/";

/// The one cache directive of a static file.
pub const STATIC_MAX_AGE: &'static str = "max-age=3600";

/// The state of the server: made once at start, read by every handler.
pub struct Site {
    pub assets: AssetFiles,
    /// Whether crawlers are told to stay away.
    pub robots_disallow_all: bool,
}

impl Site {
    /// The state of a server whose stylesheets were built beforehand.
    pub fn new(robots_disallow_all: bool) -> (site: Site)
        ensures
            site.assets@ == prebuilt_urls(),
            site.robots_disallow_all == robots_disallow_all,
    {
        Site { assets: AssetFiles::prebuilt(), robots_disallow_all }
    }
}

/// The answer to a request for `robots.txt`: the body that disallows
/// everything where crawlers are to stay away, and no answer otherwise, so
/// that the request ends as one for a missing page.
pub fn robots_txt(disallow_all: bool) -> (body: Option<&'static str>)
    ensures
        match body {
            Some(text) => disallow_all && text@ == ROBOTS_DISALLOW_ALL@,
            None => !disallow_all,
        },
{
    if disallow_all {
        Some(ROBOTS_DISALLOW_ALL)
    } else {
        None
    }
}

/// The answer to a request for a static file, given what came of opening
/// it: a file that was opened is served with the one cache directive, and
/// one that was not gets no answer, so that the request ends as one for a
/// missing page.
pub fn static_file<R, E>(opened: Result<R, E>) -> (answer: Option<Cached<R>>)
    ensures
        match opened {
            Ok(file) => answer matches Some(cached) && cached.wrapped() == file
                && cached.directive_texts() == seq![STATIC_MAX_AGE@],
            Err(_) => answer is None,
        },
{
    match opened {
        Ok(file) => {
            let mut directives: Vec<String> = Vec::new();
            directives.push(STATIC_MAX_AGE.to_owned());
            assert(texts(directives@) =~= seq![STATIC_MAX_AGE@]);
            Some(file.cached(directives))
        },
        Err(_) => None,
    }
}

/// How the server runs.
#[derive(Clone, Copy, Debug, PartialEq, Eq)]
pub enum LaunchMode {
    /// Behind a serverless host, which hands over one request at a time.
    Serverless,
    /// As a process of its own that binds and listens.
    Standalone,
}

/// The mode to launch in, by whether the process runs inside a serverless
/// host.
pub fn launch_mode(on_serverless_host: bool) -> (mode: LaunchMode)
    ensures
        on_serverless_host ==> mode == LaunchMode::Serverless,
        !on_serverless_host ==> mode == LaunchMode::Standalone,
{
    if on_serverless_host {
        LaunchMode::Serverless
    } else {
        LaunchMode::Standalone
    }
}

} // verus!
