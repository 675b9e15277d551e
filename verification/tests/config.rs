use ginger_infra::config::{EnvironmentUrls, PortalConfig, ServiceConfig};

fn portal(access_group_id: Option<&str>) -> PortalConfig {
    PortalConfig {
        id: "abc".to_string(),
        friendly_name: "Portal".to_string(),
        logo_url: "http://x/logo.png".to_string(),
        disabled: false,
        access_group_id: access_group_id.map(str::to_string),
        tnc_url: None,
        allow_registration: true,
        auth_redirection_path: None,
        has_web_interface: true,
    }
}

#[test]
fn config_with_portal_and_access_group_has_its_required_fields() {
    let config = ServiceConfig { portal_config: Some(portal(Some("g1"))), urls: None };
    assert!(config.has_required_fields());
}

#[test]
fn config_without_portal_lacks_a_required_field() {
    let config = ServiceConfig { portal_config: None, urls: Some(EnvironmentUrls::new()) };
    assert!(!config.has_required_fields());
}

#[test]
fn config_without_access_group_lacks_a_required_field() {
    let config = ServiceConfig { portal_config: Some(portal(None)), urls: None };
    assert!(!config.has_required_fields());
}

#[test]
fn new_mapping_knows_no_environment() {
    let urls = EnvironmentUrls::new();
    assert_eq!(urls.get("dev"), None);
    assert_eq!(urls.get(""), None);
}

#[test]
fn inserted_url_is_found_under_its_name_only() {
    let mut urls = EnvironmentUrls::new();
    urls.insert("dev".to_string(), "http://dev".to_string());
    assert_eq!(urls.get("dev"), Some("http://dev".to_string()));
    assert_eq!(urls.get("stage"), None);
    assert_eq!(urls.get("Dev"), None);
}

#[test]
fn second_insert_replaces_the_first() {
    let mut urls = EnvironmentUrls::new();
    urls.insert("prod".to_string(), "http://old".to_string());
    urls.insert("prod".to_string(), "http://new".to_string());
    assert_eq!(urls.get("prod"), Some("http://new".to_string()));
}

#[test]
fn environments_are_independent() {
    let mut urls = EnvironmentUrls::new();
    urls.insert("dev".to_string(), "http://dev".to_string());
    urls.insert("stage".to_string(), "http://stage".to_string());
    urls.insert("prod".to_string(), "http://prod".to_string());
    assert_eq!(urls.get("dev"), Some("http://dev".to_string()));
    assert_eq!(urls.get("stage"), Some("http://stage".to_string()));
    assert_eq!(urls.get("prod"), Some("http://prod".to_string()));
}
