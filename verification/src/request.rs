//! The request that registers a portal with the identity service.

use crate::config::{
    url_of, EnvironmentUrls, PackageDescriptor, PackageDescriptorView, ServiceConfig,
    ServiceConfigView,
};
use vstd::prelude::*;

verus! {

/// The body of the identity service's "create or update application" call.
///
/// Apart from `client_id`, every field is optional twice over: the outer
/// `Option` says whether the field is sent at all, the inner one whether the
/// value sent is null.
#[derive(Debug)]
pub struct CreateOrUpdateAppRequest {
    pub client_id: String,
    pub name: Option<Option<String>>,
    pub logo_url: Option<Option<String>>,
    pub disabled: Option<Option<bool>>,
    pub app_url_dev: Option<Option<String>>,
    pub app_url_stage: Option<Option<String>>,
    pub app_url_prod: Option<Option<String>>,
    pub group_id: Option<Option<String>>,
    pub tnc_link: Option<Option<String>>,
    pub allow_registration: Option<Option<bool>>,
    pub description: Option<Option<String>>,
    pub auth_redirection_path: Option<Option<String>>,
    pub web_interface: Option<Option<bool>>,
}

/// The mathematical value of a [`CreateOrUpdateAppRequest`].
pub struct CreateOrUpdateAppRequestView {
    pub client_id: Seq<char>,
    pub name: Option<Option<Seq<char>>>,
    pub logo_url: Option<Option<Seq<char>>>,
    pub disabled: Option<Option<bool>>,
    pub app_url_dev: Option<Option<Seq<char>>>,
    pub app_url_stage: Option<Option<Seq<char>>>,
    pub app_url_prod: Option<Option<Seq<char>>>,
    pub group_id: Option<Option<Seq<char>>>,
    pub tnc_link: Option<Option<Seq<char>>>,
    pub allow_registration: Option<Option<bool>>,
    pub description: Option<Option<Seq<char>>>,
    pub auth_redirection_path: Option<Option<Seq<char>>>,
    pub web_interface: Option<Option<bool>>,
}

impl View for CreateOrUpdateAppRequest {
    type V = CreateOrUpdateAppRequestView;

    open spec fn view(&self) -> CreateOrUpdateAppRequestView {
        CreateOrUpdateAppRequestView {
            client_id: self.client_id@,
            name: self.name.deep_view(),
            logo_url: self.logo_url.deep_view(),
            disabled: self.disabled.deep_view(),
            app_url_dev: self.app_url_dev.deep_view(),
            app_url_stage: self.app_url_stage.deep_view(),
            app_url_prod: self.app_url_prod.deep_view(),
            group_id: self.group_id.deep_view(),
            tnc_link: self.tnc_link.deep_view(),
            allow_registration: self.allow_registration.deep_view(),
            description: self.description.deep_view(),
            auth_redirection_path: self.auth_redirection_path.deep_view(),
            web_interface: self.web_interface.deep_view(),
        }
    }
}

/// The URL configured for the environment `name`: none where the
/// configuration has no URL mapping, or the mapping has no such environment.
pub open spec fn environment_url(
    urls: Option<Map<Seq<char>, Seq<char>>>,
    name: Seq<char>,
) -> Option<Seq<char>> {
    match urls {
        Some(known) => url_of(known, name),
        None => None,
    }
}

/// The request that a service configuration with its required fields and a
/// package descriptor give rise to. Every field is sent. The portal's name,
/// logo, flags and access group and the package's description are never
/// null; the terms-and-conditions link and the redirection path are null
/// where the portal configuration has none, and so is the URL of an
/// environment that is not configured.
pub open spec fn upsert_request(
    config: ServiceConfigView,
    package: PackageDescriptorView,
) -> CreateOrUpdateAppRequestView
    recommends
        config.has_required_fields(),
{
    let portal = config.portal_config->0;
    CreateOrUpdateAppRequestView {
        client_id: portal.id,
        name: Some(Some(portal.friendly_name)),
        logo_url: Some(Some(portal.logo_url)),
        disabled: Some(Some(portal.disabled)),
        app_url_dev: Some(environment_url(config.urls, "dev"@)),
        app_url_stage: Some(environment_url(config.urls, "stage"@)),
        app_url_prod: Some(environment_url(config.urls, "prod"@)),
        group_id: Some(Some(portal.access_group_id->0)),
        tnc_link: Some(portal.tnc_url),
        allow_registration: Some(Some(portal.allow_registration)),
        description: Some(Some(package.description)),
        auth_redirection_path: Some(portal.auth_redirection_path),
        web_interface: Some(Some(portal.has_web_interface)),
    }
}

/// Looks up the URL of the environment `name` in an optional mapping.
fn lookup_environment_url(urls: &Option<EnvironmentUrls>, name: &str) -> (url: Option<String>)
    ensures
        url.deep_view() == environment_url(urls.deep_view(), name@),
{
    match urls {
        Some(known) => known.get(name),
        None => None,
    }
}

impl CreateOrUpdateAppRequest {
    /// Projects a service configuration and a package descriptor onto the
    /// request that registers the portal. The configuration must hold its
    /// required fields; whether it holds environment URLs is free.
    pub fn build(config: ServiceConfig, package: PackageDescriptor) -> (request:
        CreateOrUpdateAppRequest)
        requires
            config@.has_required_fields(),
        ensures
            request@ == upsert_request(config@, package@),
    {
        let app_url_dev = lookup_environment_url(&config.urls, "dev");
        let app_url_stage = lookup_environment_url(&config.urls, "stage");
        let app_url_prod = lookup_environment_url(&config.urls, "prod");
        let portal = config.portal_config.unwrap();
        CreateOrUpdateAppRequest {
            client_id: portal.id,
            name: Some(Some(portal.friendly_name)),
            logo_url: Some(Some(portal.logo_url)),
            disabled: Some(Some(portal.disabled)),
            app_url_dev: Some(app_url_dev),
            app_url_stage: Some(app_url_stage),
            app_url_prod: Some(app_url_prod),
            group_id: Some(Some(portal.access_group_id.unwrap())),
            tnc_link: Some(portal.tnc_url),
            allow_registration: Some(Some(portal.allow_registration)),
            description: Some(Some(package.description)),
            auth_redirection_path: Some(portal.auth_redirection_path),
            web_interface: Some(Some(portal.has_web_interface)),
        }
    }
}

/// A configuration without environment URLs yields a request whose three
/// application URLs are sent as null.
pub proof fn lemma_no_urls_gives_null_app_urls(
    config: ServiceConfigView,
    package: PackageDescriptorView,
)
    requires
        config.has_required_fields(),
        config.urls is None,
    ensures
        upsert_request(config, package).app_url_dev == Some(None::<Seq<char>>),
        upsert_request(config, package).app_url_stage == Some(None::<Seq<char>>),
        upsert_request(config, package).app_url_prod == Some(None::<Seq<char>>),
{
}

/// An environment that the URL mapping does not name yields a null URL in
/// the request, whatever else the mapping holds; one that it names yields
/// the URL configured for it.
pub proof fn lemma_app_urls_follow_mapping(
    config: ServiceConfigView,
    package: PackageDescriptorView,
    urls: Map<Seq<char>, Seq<char>>,
)
    requires
        config.has_required_fields(),
        config.urls == Some(urls),
    ensures
        upsert_request(config, package).app_url_dev == Some(url_of(urls, "dev"@)),
        upsert_request(config, package).app_url_stage == Some(url_of(urls, "stage"@)),
        upsert_request(config, package).app_url_prod == Some(url_of(urls, "prod"@)),
{
}

} // verus!
