//! The local configuration that the portal installer works from.

use vstd::hash_map::StringHashMap;
use vstd::prelude::*;

verus! {

/// How a portal presents itself to the identity service.
#[derive(Debug)]
pub struct PortalConfig {
    /// The identifier under which the portal is registered.
    pub id: String,
    pub logo_url: String,
    pub disabled: bool,
    /// The access group of the portal's users. The file may leave it out;
    /// the registration cannot do without it.
    pub access_group_id: Option<String>,
    /// Where the terms and conditions are to be read.
    pub tnc_url: Option<String>,
    pub allow_registration: bool,
    pub auth_redirection_path: Option<String>,
    pub has_web_interface: bool,
    /// The name the portal is shown under.
    pub friendly_name: String,
}

/// The mathematical value of a [`PortalConfig`].
pub struct PortalConfigView {
    pub id: Seq<char>,
    pub logo_url: Seq<char>,
    pub disabled: bool,
    pub access_group_id: Option<Seq<char>>,
    pub tnc_url: Option<Seq<char>>,
    pub allow_registration: bool,
    pub auth_redirection_path: Option<Seq<char>>,
    pub has_web_interface: bool,
    pub friendly_name: Seq<char>,
}

impl DeepView for PortalConfig {
    type V = PortalConfigView;

    open spec fn deep_view(&self) -> PortalConfigView {
        PortalConfigView {
            id: self.id@,
            logo_url: self.logo_url@,
            disabled: self.disabled,
            access_group_id: self.access_group_id.deep_view(),
            tnc_url: self.tnc_url.deep_view(),
            allow_registration: self.allow_registration,
            auth_redirection_path: self.auth_redirection_path.deep_view(),
            has_web_interface: self.has_web_interface,
            friendly_name: self.friendly_name@,
        }
    }
}

impl View for PortalConfig {
    type V = PortalConfigView;

    open spec fn view(&self) -> PortalConfigView {
        self.deep_view()
    }
}

/// The URL under which the application runs in each environment, by the
/// environment's name.
pub struct EnvironmentUrls {
    entries: StringHashMap<String>,
}

impl DeepView for EnvironmentUrls {
    type V = Map<Seq<char>, Seq<char>>;

    closed spec fn deep_view(&self) -> Map<Seq<char>, Seq<char>> {
        self.entries@.map_values(|url: String| url@)
    }
}

impl View for EnvironmentUrls {
    type V = Map<Seq<char>, Seq<char>>;

    open spec fn view(&self) -> Map<Seq<char>, Seq<char>> {
        self.deep_view()
    }
}

/// The URL that `urls` holds for the environment `name`, if any.
pub open spec fn url_of(urls: Map<Seq<char>, Seq<char>>, name: Seq<char>) -> Option<Seq<char>> {
    if urls.contains_key(name) {
        Some(urls[name])
    } else {
        None
    }
}

impl EnvironmentUrls {
    /// A mapping without any environment.
    pub fn new() -> (urls: EnvironmentUrls)
        ensures
            urls@ == Map::<Seq<char>, Seq<char>>::empty(),
    {
        let urls = EnvironmentUrls { entries: StringHashMap::new() };
        assert(urls@ =~= Map::<Seq<char>, Seq<char>>::empty());
        urls
    }

    /// Sets the URL of the environment `name`, in place of an earlier one.
    pub fn insert(&mut self, name: String, url: String)
        ensures
            final(self)@ == old(self)@.insert(name@, url@),
    {
        self.entries.insert(name, url);
        assert(self@ =~= old(self)@.insert(name@, url@));
    }

    /// Looks up the URL of the environment `name`.
    pub fn get(&self, name: &str) -> (url: Option<String>)
        ensures
            url.deep_view() == url_of(self@, name@),
    {
        match self.entries.get(name) {
            Some(url) => Some(url.clone()),
            None => None,
        }
    }
}

/// What the service-configuration file says, as far as the tool reads it.
pub struct ServiceConfig {
    pub portal_config: Option<PortalConfig>,
    pub urls: Option<EnvironmentUrls>,
}

/// The mathematical value of a [`ServiceConfig`].
pub struct ServiceConfigView {
    pub portal_config: Option<PortalConfigView>,
    pub urls: Option<Map<Seq<char>, Seq<char>>>,
}

impl View for ServiceConfig {
    type V = ServiceConfigView;

    open spec fn view(&self) -> ServiceConfigView {
        ServiceConfigView {
            portal_config: self.portal_config.deep_view(),
            urls: self.urls.deep_view(),
        }
    }
}

impl ServiceConfigView {
    /// Whether the configuration holds what the registration of a portal
    /// cannot do without: a portal configuration, and in it the identifier
    /// of the access group.
    pub open spec fn has_required_fields(self) -> bool {
        self.portal_config matches Some(portal) && portal.access_group_id is Some
    }
}

impl ServiceConfig {
    /// Tells whether the configuration holds a portal configuration with
    /// the identifier of the access group.
    pub fn has_required_fields(&self) -> (complete: bool)
        ensures
            complete == self@.has_required_fields(),
    {
        match &self.portal_config {
            Some(portal) => portal.access_group_id.is_some(),
            None => false,
        }
    }
}

/// What the package-descriptor file says about the package.
#[derive(Debug)]
pub struct PackageDescriptor {
    pub name: String,
    pub version: String,
    pub description: String,
    pub organization: String,
    pub internal_dependencies: Vec<String>,
}

/// The mathematical value of a [`PackageDescriptor`].
pub struct PackageDescriptorView {
    pub name: Seq<char>,
    pub version: Seq<char>,
    pub description: Seq<char>,
    pub organization: Seq<char>,
    pub internal_dependencies: Seq<Seq<char>>,
}

impl View for PackageDescriptor {
    type V = PackageDescriptorView;

    open spec fn view(&self) -> PackageDescriptorView {
        PackageDescriptorView {
            name: self.name@,
            version: self.version@,
            description: self.description@,
            organization: self.organization@,
            internal_dependencies: self.internal_dependencies.deep_view(),
        }
    }
}

} // verus!
