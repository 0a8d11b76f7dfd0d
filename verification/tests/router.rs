use chhoto_url::services::{build_router, Frontend, Handler, Method};
use chhoto_url::Config;

fn config() -> Config {
    Config {
        site_url: None,
        public_mode: false,
        public_mode_expiry_delay: None,
        use_temp_redirect: false,
        allowed_protocols: vec![String::from("https")],
        slug_style: String::from("Pair"),
        slug_length: 8,
        try_longer_slug: false,
        allow_capital_letters: false,
        disable_frontend: false,
        custom_landing_directory: None,
        cache_control_header: None,
        frontend_page_size: 10,
    }
}

#[test]
fn route_table_is_complete() {
    let plan = build_router(&config());
    let table: Vec<(Method, &str, Handler)> =
        plan.routes.iter().map(|r| (r.method, r.path.as_str(), r.handler)).collect();
    assert_eq!(table.len(), 12);
    assert_eq!(table[0], (Method::Get, "/api/all", Handler::GetAll));
    assert_eq!(table[9], (Method::Delete, "/api/logout", Handler::Logout));
    assert_eq!(table[10], (Method::Delete, "/api/del/{shortlink}", Handler::DeleteLink));
    assert_eq!(table[11], (Method::Get, "/{shortlink}", Handler::LinkHandler));
    assert!(plan.session.same_site_strict);
    assert!(!plan.session.secure);
    assert_eq!(plan.session.inactivity_days, 7);
    assert!(plan.session.fresh_in_memory_store);
    assert!(plan.trim_trailing_slash);
}

#[test]
fn bundled_frontend_served() {
    let plan = build_router(&config());
    match plan.frontend {
        Frontend::Serve { admin, landing, missing_files_not_found } => {
            assert!(admin.is_none());
            assert_eq!(landing.directory, "./frontend");
            assert!(landing.index_on_directories);
            assert!(missing_files_not_found);
        },
        Frontend::Disabled => panic!("frontend should be served"),
    }
}

#[test]
fn custom_landing_moves_bundled_frontend() {
    let mut conf = config();
    conf.custom_landing_directory = Some(String::from("/srv/landing"));
    let plan = build_router(&conf);
    match plan.frontend {
        Frontend::Serve { admin, landing, missing_files_not_found } => {
            let admin = admin.expect("bundled frontend should stay reachable");
            assert_eq!(admin.path, "/admin/manage");
            assert_eq!(admin.files.directory, "./frontend");
            assert!(admin.files.index_on_directories);
            assert_eq!(landing.directory, "/srv/landing");
            assert!(landing.index_on_directories);
            assert!(missing_files_not_found);
        },
        Frontend::Disabled => panic!("frontend should be served"),
    }
}

#[test]
fn disabled_frontend() {
    let mut conf = config();
    conf.disable_frontend = true;
    conf.custom_landing_directory = Some(String::from("/srv/landing"));
    assert!(matches!(build_router(&conf).frontend, Frontend::Disabled));
}

#[test]
fn cache_control_kept_when_valid() {
    let mut conf = config();
    conf.cache_control_header = Some(String::from("public, max-age=3600"));
    assert_eq!(build_router(&conf).cache_control, Some(String::from("public, max-age=3600")));
    conf.cache_control_header = Some(String::from("tab\tand ünïcode"));
    assert_eq!(build_router(&conf).cache_control, Some(String::from("tab\tand ünïcode")));
}

#[test]
fn cache_control_dropped_when_invalid() {
    let mut conf = config();
    conf.cache_control_header = Some(String::from("no-cache\r\nX-Injected: 1"));
    assert_eq!(build_router(&conf).cache_control, None);
    conf.cache_control_header = Some(String::from("del\u{7f}"));
    assert_eq!(build_router(&conf).cache_control, None);
    conf.cache_control_header = None;
    assert_eq!(build_router(&conf).cache_control, None);
}
