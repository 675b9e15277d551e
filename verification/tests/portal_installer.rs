use ginger_infra::config::{EnvironmentUrls, PackageDescriptor, PortalConfig, ServiceConfig};
use ginger_infra::output::{Colour, Line};
use ginger_infra::portal_installer::{install_or_update_portal, PortalInstall};
use ginger_infra::protocol::{Call, Ending, Fault, Reply, Step, EXIT_FAILURE, EXIT_SUCCESS};
use ginger_infra::request::CreateOrUpdateAppRequest;

fn portal() -> PortalConfig {
    PortalConfig {
        id: "abc".to_string(),
        friendly_name: "Portal".to_string(),
        logo_url: "http://x/logo.png".to_string(),
        disabled: false,
        access_group_id: Some("g1".to_string()),
        tnc_url: Some("http://x/tnc".to_string()),
        allow_registration: true,
        auth_redirection_path: Some("/auth".to_string()),
        has_web_interface: true,
    }
}

fn config_with_dev_url() -> ServiceConfig {
    let mut urls = EnvironmentUrls::new();
    urls.insert("dev".to_string(), "http://dev".to_string());
    ServiceConfig { portal_config: Some(portal()), urls: Some(urls) }
}

fn package() -> PackageDescriptor {
    PackageDescriptor {
        name: "portal".to_string(),
        version: "1.2.3".to_string(),
        description: "desc".to_string(),
        organization: "ginger-society".to_string(),
        internal_dependencies: Vec::new(),
    }
}

fn printed(lines: &[Line]) -> Vec<Vec<(&str, Colour)>> {
    lines
        .iter()
        .map(|line| line.segments.iter().map(|s| (s.text.as_str(), s.colour)).collect())
        .collect()
}

fn expect_exit(step: Step<PortalInstall>) -> (Vec<Line>, i32) {
    match step {
        Step::End(Ending::Exit { output, code }) => (output, code),
        Step::End(Ending::Abort(fault)) => panic!("aborted with {:?}", fault),
        Step::Ask(_, call) => panic!("asked for {:?}", call),
    }
}

fn expect_abort(step: Step<PortalInstall>) -> Fault {
    match step {
        Step::End(Ending::Abort(fault)) => fault,
        Step::End(Ending::Exit { code, .. }) => panic!("exited with {}", code),
        Step::Ask(_, call) => panic!("asked for {:?}", call),
    }
}

fn expect_upsert(step: Step<PortalInstall>) -> (PortalInstall, CreateOrUpdateAppRequest) {
    match step {
        Step::Ask(state, Call::CreateOrUpdateApp(request)) => (state, request),
        Step::Ask(_, call) => panic!("asked for {:?}", call),
        Step::End(ending) => panic!("ended with {:?}", ending),
    }
}

#[test]
fn installer_starts_by_asking_for_the_service_config() {
    assert!(matches!(
        PortalInstall::start(),
        Step::Ask(PortalInstall::AwaitingServiceConfig, Call::ReadServiceConfig)
    ));
}

#[test]
fn loaded_service_config_leads_to_the_package_descriptor() {
    let step = install_or_update_portal(
        PortalInstall::AwaitingServiceConfig,
        Reply::ServiceConfigLoaded(config_with_dev_url()),
    );
    match step {
        Step::Ask(PortalInstall::AwaitingPackage(config), Call::ReadPackageDescriptor) => {
            assert_eq!(config.portal_config.map(|p| p.id), Some("abc".to_string()));
            assert_eq!(
                config.urls.and_then(|urls| urls.get("dev")),
                Some("http://dev".to_string())
            );
        }
        _ => panic!("the package descriptor was not asked for"),
    }
}

#[test]
fn unreadable_service_config_exits_with_failure_before_any_request() {
    let step = install_or_update_portal(
        PortalInstall::AwaitingServiceConfig,
        Reply::ServiceConfigUnreadable("Os { code: 2, kind: NotFound }".to_string()),
    );
    let (output, code) = expect_exit(step);
    assert_eq!(code, 1);
    assert_eq!(code, EXIT_FAILURE);
    assert_eq!(
        printed(&output),
        vec![
            vec![("Os { code: 2, kind: NotFound }", Colour::Plain)],
            vec![
                (
                    "There is no service configuration found or the existing one is invalid. Please use ",
                    Colour::Plain
                ),
                ("ginger-connector init", Colour::Blue),
                (" to add one. Exiting", Colour::Plain),
            ],
        ]
    );
}

#[test]
fn loaded_package_leads_to_the_request() {
    let step = install_or_update_portal(
        PortalInstall::AwaitingPackage(config_with_dev_url()),
        Reply::PackageLoaded(package()),
    );
    let (state, request) = expect_upsert(step);
    assert!(matches!(state, PortalInstall::AwaitingUpsert));
    assert_eq!(request.client_id, "abc");
    assert_eq!(request.app_url_dev, Some(Some("http://dev".to_string())));
    assert_eq!(request.app_url_stage, Some(None));
    assert_eq!(request.description, Some(Some("desc".to_string())));
}

#[test]
fn missing_package_exits_with_failure() {
    let step = install_or_update_portal(
        PortalInstall::AwaitingPackage(config_with_dev_url()),
        Reply::PackageUnavailable,
    );
    let (output, code) = expect_exit(step);
    assert_eq!(code, 1);
    assert_eq!(
        printed(&output),
        vec![vec![("Failed to retrieve package.json information. Exiting.", Colour::Red)]]
    );
}

#[test]
fn missing_package_is_reported_even_without_portal_config() {
    let config = ServiceConfig { portal_config: None, urls: None };
    let step =
        install_or_update_portal(PortalInstall::AwaitingPackage(config), Reply::PackageUnavailable);
    let (_, code) = expect_exit(step);
    assert_eq!(code, 1);
}

#[test]
fn missing_portal_config_aborts_when_the_request_is_due() {
    let config = ServiceConfig { portal_config: None, urls: Some(EnvironmentUrls::new()) };
    let step = install_or_update_portal(
        PortalInstall::AwaitingPackage(config),
        Reply::PackageLoaded(package()),
    );
    assert_eq!(expect_abort(step), Fault::MissingRequiredField);
}

#[test]
fn missing_access_group_aborts_when_the_request_is_due() {
    let mut without_group = portal();
    without_group.access_group_id = None;
    let config = ServiceConfig { portal_config: Some(without_group), urls: None };
    let step = install_or_update_portal(
        PortalInstall::AwaitingPackage(config),
        Reply::PackageLoaded(package()),
    );
    assert_eq!(expect_abort(step), Fault::MissingRequiredField);
}

#[test]
fn optional_portal_fields_may_be_absent() {
    let mut bare = portal();
    bare.tnc_url = None;
    bare.auth_redirection_path = None;
    let config = ServiceConfig { portal_config: Some(bare), urls: None };
    let step = install_or_update_portal(
        PortalInstall::AwaitingPackage(config),
        Reply::PackageLoaded(package()),
    );
    let (_, request) = expect_upsert(step);
    assert_eq!(request.group_id, Some(Some("g1".to_string())));
    assert_eq!(request.tnc_link, Some(None));
    assert_eq!(request.auth_redirection_path, Some(None));
    assert_eq!(request.app_url_dev, Some(None));
}

#[test]
fn successful_answer_is_printed_and_exits_with_success() {
    let step = install_or_update_portal(
        PortalInstall::AwaitingUpsert,
        Reply::UpsertSucceeded("CreateOrUpdateAppResponse { id: 7 }".to_string()),
    );
    let (output, code) = expect_exit(step);
    assert_eq!(code, 0);
    assert_eq!(code, EXIT_SUCCESS);
    assert_eq!(
        printed(&output),
        vec![vec![("CreateOrUpdateAppResponse { id: 7 }", Colour::Plain)]]
    );
}

#[test]
fn failed_request_is_printed_and_still_exits_with_success() {
    let step = install_or_update_portal(
        PortalInstall::AwaitingUpsert,
        Reply::UpsertFailed("ResponseError(500)".to_string()),
    );
    let (output, code) = expect_exit(step);
    assert_eq!(code, 0);
    assert_eq!(printed(&output), vec![vec![("ResponseError(500)", Colour::Plain)]]);
}

#[test]
fn reply_to_another_call_aborts() {
    assert_eq!(
        expect_abort(install_or_update_portal(
            PortalInstall::AwaitingServiceConfig,
            Reply::PackageLoaded(package())
        )),
        Fault::UnexpectedReply
    );
    assert_eq!(
        expect_abort(install_or_update_portal(
            PortalInstall::AwaitingServiceConfig,
            Reply::TokenValidated
        )),
        Fault::UnexpectedReply
    );
    assert_eq!(
        expect_abort(install_or_update_portal(
            PortalInstall::AwaitingPackage(config_with_dev_url()),
            Reply::UpsertSucceeded("x".to_string())
        )),
        Fault::UnexpectedReply
    );
    assert_eq!(
        expect_abort(install_or_update_portal(
            PortalInstall::AwaitingUpsert,
            Reply::ServiceConfigLoaded(config_with_dev_url())
        )),
        Fault::UnexpectedReply
    );
    assert_eq!(
        expect_abort(install_or_update_portal(
            PortalInstall::AwaitingUpsert,
            Reply::TokenRejected("x".to_string())
        )),
        Fault::UnexpectedReply
    );
}

/// A stand-in for the identity service's application registry: it keeps one
/// record per client id and tells a creation from an update.
struct StubRegistry {
    records: Vec<CreateOrUpdateAppRequest>,
    created: usize,
    updated: usize,
}

impl StubRegistry {
    fn new() -> Self {
        StubRegistry { records: Vec::new(), created: 0, updated: 0 }
    }

    fn create_or_update(&mut self, request: CreateOrUpdateAppRequest) -> String {
        match self.records.iter().position(|r| r.client_id == request.client_id) {
            Some(at) => {
                self.records[at] = request;
                self.updated += 1;
                "updated".to_string()
            }
            None => {
                self.records.push(request);
                self.created += 1;
                "created".to_string()
            }
        }
    }
}

fn run_installer(registry: &mut StubRegistry) -> (Vec<Line>, i32) {
    let mut step = PortalInstall::start();
    loop {
        match step {
            Step::End(Ending::Exit { output, code }) => return (output, code),
            Step::End(Ending::Abort(fault)) => panic!("aborted with {:?}", fault),
            Step::Ask(state, call) => {
                let reply = match call {
                    Call::ValidateToken => panic!("the installer validates no token"),
                    Call::ReadServiceConfig => Reply::ServiceConfigLoaded(config_with_dev_url()),
                    Call::ReadPackageDescriptor => Reply::PackageLoaded(package()),
                    Call::CreateOrUpdateApp(request) => {
                        Reply::UpsertSucceeded(registry.create_or_update(request))
                    }
                };
                step = install_or_update_portal(state, reply);
            }
        }
    }
}

#[test]
fn same_configuration_twice_updates_the_one_record() {
    let mut registry = StubRegistry::new();

    let (first, first_code) = run_installer(&mut registry);
    let (second, second_code) = run_installer(&mut registry);

    assert_eq!(first_code, 0);
    assert_eq!(second_code, 0);
    assert_eq!(printed(&first), vec![vec![("created", Colour::Plain)]]);
    assert_eq!(printed(&second), vec![vec![("updated", Colour::Plain)]]);
    assert_eq!(registry.created, 1);
    assert_eq!(registry.updated, 1);
    assert_eq!(registry.records.len(), 1);
    assert_eq!(registry.records[0].client_id, "abc");
    assert_eq!(registry.records[0].app_url_dev, Some(Some("http://dev".to_string())));
}
