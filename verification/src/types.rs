use vstd::prelude::*;

verus! {

/// The JSON body of most API replies.
pub struct JSONResponse {
    pub success: bool,
    pub error: bool,
    pub reason: String,
}

/// What a JSON reply says, as plain values.
pub struct JSONResponseView {
    pub success: bool,
    pub error: bool,
    pub reason: Seq<char>,
}

impl View for JSONResponse {
    type V = JSONResponseView;

    open spec fn view(&self) -> JSONResponseView {
        JSONResponseView { success: self.success, error: self.error, reason: self.reason@ }
    }
}

impl JSONResponse {
    /// A copy of this reply body.
    pub fn duplicate(&self) -> (r: JSONResponse)
        ensures
            r@ == self@,
    {
        JSONResponse { success: self.success, error: self.error, reason: self.reason.clone() }
    }
}

/// How a request was authenticated: by a valid API key, by a valid login
/// session, by an API key that failed validation, or not at all. The last two
/// carry the body that explains the refusal.
pub enum Auth {
    ValidAPIKey,
    ValidSession,
    InvalidAPIKey { result: JSONResponse },
    Missing { result: JSONResponse },
}

/// A request carries credentials that grant access to the protected routes.
pub open spec fn is_authenticated(auth: &Auth) -> bool {
    auth is ValidAPIKey || auth is ValidSession
}

/// The refusal body that an unauthenticated request carries.
pub open spec fn refusal_body(auth: &Auth) -> JSONResponseView
    recommends
        !is_authenticated(auth),
{
    match auth {
        Auth::InvalidAPIKey { result } => result@,
        Auth::Missing { result } => result@,
        _ => JSONResponseView { success: false, error: true, reason: Seq::empty() },
    }
}

/// The two ways a store operation can fail: a request the store refuses,
/// with its reason, or a failure of the store itself.
pub enum ChhotoError {
    ClientError { reason: String },
    ServerError,
}

/// The settings that the configuration endpoint reveals.
pub struct BackendConfig {
    pub version: String,
    pub allow_capital_letters: bool,
    pub public_mode: bool,
    pub public_mode_expiry_delay: i64,
    pub allowed_protocols: Vec<String>,
    pub site_url: Option<String>,
    pub slug_style: String,
    pub slug_length: usize,
    pub try_longer_slug: bool,
    pub frontend_page_size: usize,
}

/// A `BackendConfig` as plain values.
pub struct BackendConfigView {
    pub version: Seq<char>,
    pub allow_capital_letters: bool,
    pub public_mode: bool,
    pub public_mode_expiry_delay: i64,
    pub allowed_protocols: Seq<Seq<char>>,
    pub site_url: Option<Seq<char>>,
    pub slug_style: Seq<char>,
    pub slug_length: usize,
    pub try_longer_slug: bool,
    pub frontend_page_size: usize,
}

/// The text of an optional string.
pub open spec fn opt_text(o: Option<String>) -> Option<Seq<char>> {
    match o {
        Some(s) => Some(s@),
        None => None,
    }
}

/// The texts of a list of strings.
pub open spec fn texts(v: Seq<String>) -> Seq<Seq<char>> {
    v.map_values(|s: String| s@)
}

impl View for BackendConfig {
    type V = BackendConfigView;

    open spec fn view(&self) -> BackendConfigView {
        BackendConfigView {
            version: self.version@,
            allow_capital_letters: self.allow_capital_letters,
            public_mode: self.public_mode,
            public_mode_expiry_delay: self.public_mode_expiry_delay,
            allowed_protocols: texts(self.allowed_protocols@),
            site_url: opt_text(self.site_url),
            slug_style: self.slug_style@,
            slug_length: self.slug_length,
            try_longer_slug: self.try_longer_slug,
            frontend_page_size: self.frontend_page_size,
        }
    }
}

/// A copy of an optional string.
pub fn copy_opt_string(o: &Option<String>) -> (r: Option<String>)
    ensures
        opt_text(r) == opt_text(*o),
{
    match o {
        Some(s) => Some(s.clone()),
        None => None,
    }
}

/// A copy of a list of strings.
pub fn copy_strings(v: &Vec<String>) -> (r: Vec<String>)
    ensures
        texts(r@) == texts(v@),
        r@.len() == v@.len(),
        forall|i: int| 0 <= i < r@.len() ==> (#[trigger] r@[i])@ == v@[i]@,
{
    let mut r: Vec<String> = Vec::new();
    let n = v.len();
    for i in 0..n
        invariant
            n == v@.len(),
            r@.len() == i,
            forall|j: int| 0 <= j < i ==> #[trigger] r@[j]@ == v@[j]@,
    {
        r.push(v[i].clone());
    }
    assert(texts(r@) =~= texts(v@));
    r
}

} // verus!
