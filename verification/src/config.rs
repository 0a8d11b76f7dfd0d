use vstd::prelude::*;

verus! {

/// The settings that the request handlers and the router read.
pub struct Config {
    /// The public address of the site, if one is set.
    pub site_url: Option<String>,
    /// Whether visitors without credentials may create links.
    pub public_mode: bool,
    /// The expiry delay forced on links made in public mode, if any.
    pub public_mode_expiry_delay: Option<i64>,
    /// Answer found links with a temporary redirect rather than a permanent one.
    pub use_temp_redirect: bool,
    /// The URL schemes that long links may use.
    pub allowed_protocols: Vec<String>,
    /// The name of the slug style, as it is shown to users.
    pub slug_style: String,
    pub slug_length: usize,
    pub try_longer_slug: bool,
    pub allow_capital_letters: bool,
    /// Serve no frontend files at all.
    pub disable_frontend: bool,
    /// A directory whose files replace the bundled landing page.
    pub custom_landing_directory: Option<String>,
    /// A `Cache-Control` value to add to replies that set none.
    pub cache_control_header: Option<String>,
    pub frontend_page_size: usize,
}

} // verus!
