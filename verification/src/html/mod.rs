//! The frame that every page of the service shares: the document around a
//! page's content, the bar at its top and the footer at its bottom.

use crate::engine::Elapsed;
use crate::text::{decimal, decimal_string, escape_html, push_escaped};
use vstd::prelude::*;
use vstd::string::*;

pub mod status;

verus! {

/// The text of an optional string.
pub open spec fn text_of(value: Option<String>) -> Option<Seq<char>> {
    match value {
        Some(text) => Some(text@),
        None => None,
    }
}

/// What the service is set up with when it starts, and keeps from then on.
#[derive(Debug)]
pub struct Config {
    /// The address under which the service itself is reached.
    pub base_url: String,
    /// The site identifier of the visitor statistics. Pages carry the
    /// tracking script only where there is one.
    pub gauges_site_id: Option<String>,
}

impl Config {
    /// The address that stands in while none is set.
    pub open spec fn default_base_url() -> Seq<char> {
        "http://localhost:8080"@
    }

    /// The settings for the base address and the site identifier that the
    /// service was started with. Without a base address the local one stands
    /// in.
    pub fn new(base_url: Option<String>, gauges_site_id: Option<String>) -> (config: Config)
        ensures
            config.base_url@ == match base_url {
                Some(url) => url@,
                None => Config::default_base_url(),
            },
            config.gauges_site_id == gauges_site_id,
    {
        let base_url = match base_url {
            Some(url) => url,
            None => String::from_str("http://localhost:8080"),
        };
        Config { base_url, gauges_site_id }
    }
}

/// A complete document, ready to be sent: its media type and its text.
#[derive(Debug)]
pub struct Document {
    pub content_type: String,
    pub body: String,
}

/// The script that reports a visit to the statistics of the site
/// `site_id`.
pub open spec fn tracking_script(site_id: Seq<char>) -> Seq<char> {
    "var _gauges = _gauges || [];\n(function() {\n    var t   = document.createElement('script');\n    t.type  = 'text/javascript';\n    t.async = true;\n    t.id    = 'gauges-tracker';\n    t.setAttribute('data-site-id', '"@
        + escape_html(site_id)
        + "');\n    t.setAttribute('data-track-path', 'https://track.gaug.es/track.gif');\n    t.src = 'https://d2fuc4clr7gvcn.cloudfront.net/track.js';\n    var s = document.getElementsByTagName('script')[0];\n    s.parentNode.insertBefore(t, s);\n})();"@
}

/// The tracking script as an element of the page, or nothing where the
/// service has no site identifier.
pub open spec fn tracking_html(site_id: Option<Seq<char>>) -> Seq<char> {
    match site_id {
        Some(id) => "<script type=\"text/javascript\">"@ + tracking_script(id) + "</script>"@,
        None => Seq::empty(),
    }
}

/// The document around the content `body` of a page with the title `title`.
pub open spec fn document_html(title: Seq<char>, body: Seq<char>, site_id: Option<Seq<char>>) -> Seq<
    char,
> {
    "<html><head><meta charset=\"utf-8\"><meta name=\"viewport\" content=\"width=device-width, initial-scale=1\"><title>"@
        + escape_html(title + " - Deps.rs"@)
        + "</title><link rel=\"icon\" type=\"image/png\" href=\"/static/favicon.png\"><link rel=\"stylesheet\" type=\"text/css\" href=\"/static/style.css\"><link rel=\"stylesheet\" type=\"text/css\" href=\"https://fonts.googleapis.com/css?family=Fira+Sans:400,500,600\"><link rel=\"stylesheet\" type=\"text/css\" href=\"https://fonts.googleapis.com/css?family=Source+Code+Pro\"><link rel=\"stylesheet\" type=\"text/css\" href=\"https://maxcdn.bootstrapcdn.com/font-awesome/4.7.0/css/font-awesome.min.css\"></head><body>"@
        + body + "<script type=\"text/javascript\" src=\"/static/app.js\">"@ + tracking_html(
        site_id,
    ) + "</script></body></html>"@
}

fn render_tracking(site_id: &Option<String>) -> (html: String)
    ensures
        html@ == tracking_html(text_of(*site_id)),
{
    match site_id {
        Some(id) => {
            let mut html = String::from_str("<script type=\"text/javascript\">");
            let mut script = String::from_str(
                "var _gauges = _gauges || [];\n(function() {\n    var t   = document.createElement('script');\n    t.type  = 'text/javascript';\n    t.async = true;\n    t.id    = 'gauges-tracker';\n    t.setAttribute('data-site-id', '",
            );
            push_escaped(&mut script, id.as_str());
            script.append(
                "');\n    t.setAttribute('data-track-path', 'https://track.gaug.es/track.gif');\n    t.src = 'https://d2fuc4clr7gvcn.cloudfront.net/track.js';\n    var s = document.getElementsByTagName('script')[0];\n    s.parentNode.insertBefore(t, s);\n})();",
            );
            html.append(script.as_str());
            html.append("</script>");
            html
        },
        None => String::new(),
    }
}

/// Puts the content of a page into the document that every page of the
/// service shares. The title is escaped; the content is markup and goes in
/// as it is.
pub fn render_html(title: &str, body: &str, config: &Config) -> (document: Document)
    ensures
        document.content_type@ == "text/html"@,
        document.body@ == document_html(title@, body@, text_of(config.gauges_site_id)),
{
    let mut full_title = String::from_str(title);
    full_title.append(" - Deps.rs");
    let tracking = render_tracking(&config.gauges_site_id);
    let mut html = String::from_str(
        "<html><head><meta charset=\"utf-8\"><meta name=\"viewport\" content=\"width=device-width, initial-scale=1\"><title>",
    );
    push_escaped(&mut html, full_title.as_str());
    html.append(
        "</title><link rel=\"icon\" type=\"image/png\" href=\"/static/favicon.png\"><link rel=\"stylesheet\" type=\"text/css\" href=\"/static/style.css\"><link rel=\"stylesheet\" type=\"text/css\" href=\"https://fonts.googleapis.com/css?family=Fira+Sans:400,500,600\"><link rel=\"stylesheet\" type=\"text/css\" href=\"https://fonts.googleapis.com/css?family=Source+Code+Pro\"><link rel=\"stylesheet\" type=\"text/css\" href=\"https://maxcdn.bootstrapcdn.com/font-awesome/4.7.0/css/font-awesome.min.css\"></head><body>",
    );
    html.append(body);
    html.append("<script type=\"text/javascript\" src=\"/static/app.js\">");
    html.append(tracking.as_str());
    html.append("</script></body></html>");
    Document { content_type: String::from_str("text/html"), body: html }
}

/// The bar at the top of a page, which links to the start page of the
/// service at `base_url`.
pub open spec fn navbar_html(base_url: Seq<char>) -> Seq<char> {
    "<header class=\"navbar\"><div class=\"container\"><div class=\"navbar-brand\"><a class=\"navbar-item is-dark\" href=\""@
        + escape_html(base_url) + "\"><h1 class=\"title is-3\">Deps.rs</h1></a></div></div></header>"@
}

/// Renders the bar at the top of a page.
pub fn render_navbar(config: &Config) -> (html: String)
    ensures
        html@ == navbar_html(config.base_url@),
{
    let mut html = String::from_str(
        "<header class=\"navbar\"><div class=\"container\"><div class=\"navbar-brand\"><a class=\"navbar-item is-dark\" href=\"",
    );
    push_escaped(&mut html, config.base_url.as_str());
    html.append("\"><h1 class=\"title is-3\">Deps.rs</h1></a></div></div></header>");
    html
}

/// The whole milliseconds of an elapsed time, if there is one.
pub open spec fn millis_of(duration: Option<Elapsed>) -> Option<nat> {
    match duration {
        Some(elapsed) => Some(elapsed.millis()),
        None => None,
    }
}

/// The line of the footer that tells how long the page took, or nothing
/// where no time was taken.
pub open spec fn timing_html(millis: Option<nat>) -> Seq<char> {
    match millis {
        Some(count) => "<p class=\"has-text-grey is-size-7\">(rendered in "@ + decimal(count)
            + " ms)</p>"@,
        None => Seq::empty(),
    }
}

/// The footer of a page. It tells how long the page took where `millis`
/// holds the milliseconds.
pub open spec fn footer_html(millis: Option<nat>) -> Seq<char> {
    "<footer class=\"footer\"><div class=\"container\"><div class=\"content has-text-centered\"><p><strong>Deps.rs</strong> is a service for the Rust community. It is open source on <a href=\"https://github.com/srijs/deps.rs\">GitHub</a>.</p><p>Please report any issues on the <a href=\"https://github.com/srijs/deps.rs/issues\">issue tracker</a>.</p>"@
        + timing_html(millis) + "</div></div></footer>"@
}

fn render_timing(duration: Option<Elapsed>) -> (html: String)
    ensures
        html@ == timing_html(millis_of(duration)),
{
    match duration {
        Some(elapsed) => {
            let mut html = String::from_str("<p class=\"has-text-grey is-size-7\">(rendered in ");
            html.append(decimal_string(elapsed.as_millis()).as_str());
            html.append(" ms)</p>");
            html
        },
        None => String::new(),
    }
}

/// Renders the footer of a page. With a duration it reports the time in
/// whole milliseconds: a thousand for each second and one for each full
/// million of the nanoseconds.
pub fn render_footer(duration: Option<Elapsed>) -> (html: String)
    ensures
        html@ == footer_html(millis_of(duration)),
{
    let timing = render_timing(duration);
    let mut html = String::from_str(
        "<footer class=\"footer\"><div class=\"container\"><div class=\"content has-text-centered\"><p><strong>Deps.rs</strong> is a service for the Rust community. It is open source on <a href=\"https://github.com/srijs/deps.rs\">GitHub</a>.</p><p>Please report any issues on the <a href=\"https://github.com/srijs/deps.rs/issues\">issue tracker</a>.</p>",
    );
    html.append(timing.as_str());
    html.append("</div></div></footer>");
    html
}

} // verus!
