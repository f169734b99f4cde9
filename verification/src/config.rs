//! The configuration that the engine is set up from, and its builder.
use crate::inertia::{InertiaVersion, SsrClient};
use crate::json::JsonMap;
use vstd::prelude::*;

verus! {

/// A configuration for setting the engine up. Fill the struct directly or
/// use the builder: `InertiaConfig::builder()`, the setters, and `build()`.
///
/// * `url`                    - a valid href of the application
/// * `version`                - the current version of the assets
/// * `template_path`          - the path of the root html template
/// * `template_resolver`      - the function that renders the root template
/// * `template_resolver_data` - what the template resolver is given as its
///                              third argument
/// * `with_ssr`               - whether server-side rendering is on
/// * `custom_ssr_client`      - where the renderer listens; `None` stands
///                              for `SsrClient::default()`
/// * `view_data`              - extra data for the root template
pub struct InertiaConfig<R, T: 'static, V, F> {
    pub url: &'static str,
    pub version: InertiaVersion<V, F>,
    pub template_path: &'static str,
    pub template_resolver: R,
    pub template_resolver_data: &'static T,
    pub with_ssr: bool,
    pub custom_ssr_client: Option<SsrClient>,
    pub view_data: Option<JsonMap>,
}

impl<R, T: 'static, V, F> InertiaConfig<R, T, V, F> {
    /// Where the renderer listens: the custom address, if one is set, and
    /// else the default one.
    pub open spec fn ssr_client(&self) -> SsrClient {
        match self.custom_ssr_client {
            Some(client) => client,
            None => SsrClient::default_client(),
        }
    }

    /// A builder with nothing set.
    pub fn builder() -> (builder: InertiaConfigBuilder<R, T, V, F>)
        ensures
            builder.is_blank(),
    {
        InertiaConfigBuilder::new()
    }
}

pub struct InertiaConfigBuilder<R, T: 'static, V, F> {
    pub url: Option<&'static str>,
    pub version: Option<InertiaVersion<V, F>>,
    pub template_path: Option<&'static str>,
    pub template_resolver: Option<R>,
    pub template_resolver_data: Option<&'static T>,
    pub with_ssr: bool,
    pub custom_ssr_client: Option<SsrClient>,
    pub view_data: Option<JsonMap>,
}

impl<R, T: 'static, V, F> Default for InertiaConfigBuilder<R, T, V, F> {
    fn default() -> (builder: Self)
        ensures
            builder.is_blank(),
    {
        Self::new()
    }
}

impl<R, T: 'static, V, F> InertiaConfigBuilder<R, T, V, F> {
    /// Whether nothing is set.
    pub open spec fn is_blank(&self) -> bool {
        &&& self.url is None
        &&& self.version is None
        &&& self.template_path is None
        &&& self.template_resolver is None
        &&& self.template_resolver_data is None
        &&& self.view_data is None
        &&& !self.with_ssr
        &&& self.custom_ssr_client is None
    }

    /// Whether every mandatory field is set: `url`, `template_path`,
    /// `template_resolver`, `template_resolver_data` and `version`.
    pub open spec fn is_complete(&self) -> bool {
        &&& self.url is Some
        &&& self.template_path is Some
        &&& self.template_resolver is Some
        &&& self.template_resolver_data is Some
        &&& self.version is Some
    }

    /// A builder with nothing set.
    pub fn new() -> (builder: Self)
        ensures
            builder.is_blank(),
    {
        Self {
            url: None,
            version: None,
            template_path: None,
            template_resolver: None,
            template_resolver_data: None,
            view_data: None,
            with_ssr: false,
            custom_ssr_client: None,
        }
    }

    pub fn set_ssr_client(self, ssr_client: SsrClient) -> (builder: Self)
        ensures
            builder == (Self { custom_ssr_client: Some(ssr_client), ..self }),
    {
        Self { custom_ssr_client: Some(ssr_client), ..self }
    }

    pub fn set_url(self, url: &'static str) -> (builder: Self)
        ensures
            builder == (Self { url: Some(url), ..self }),
    {
        Self { url: Some(url), ..self }
    }

    pub fn set_version(self, version: InertiaVersion<V, F>) -> (builder: Self)
        ensures
            builder == (Self { version: Some(version), ..self }),
    {
        Self { version: Some(version), ..self }
    }

    pub fn set_template_path(self, template_path: &'static str) -> (builder: Self)
        ensures
            builder == (Self { template_path: Some(template_path), ..self }),
    {
        Self { template_path: Some(template_path), ..self }
    }

    pub fn set_template_resolver(self, template_resolver: R) -> (builder: Self)
        ensures
            builder == (Self { template_resolver: Some(template_resolver), ..self }),
    {
        Self { template_resolver: Some(template_resolver), ..self }
    }

    pub fn set_template_resolver_data(self, data: &'static T) -> (builder: Self)
        ensures
            builder == (Self { template_resolver_data: Some(data), ..self }),
    {
        Self { template_resolver_data: Some(data), ..self }
    }

    pub fn set_view_data(self, view_data: JsonMap) -> (builder: Self)
        ensures
            builder == (Self { view_data: Some(view_data), ..self }),
    {
        Self { view_data: Some(view_data), ..self }
    }

    pub fn enable_ssr(self) -> (builder: Self)
        ensures
            builder == (Self { with_ssr: true, ..self }),
    {
        Self { with_ssr: true, ..self }
    }

    /// Whether `build` may be called: every mandatory field is set.
    pub fn can_build(&self) -> (complete: bool)
        ensures
            complete == self.is_complete(),
    {
        self.url.is_some() && self.template_path.is_some() && self.template_resolver.is_some()
            && self.template_resolver_data.is_some() && self.version.is_some()
    }

    /// Turns the builder into a configuration. Every mandatory field must
    /// be set: `url`, `template_path`, `template_resolver`,
    /// `template_resolver_data` and `version`.
    pub fn build(self) -> (config: InertiaConfig<R, T, V, F>)
        requires
            self.is_complete(),
        ensures
            Some(config.url) == self.url,
            Some(config.template_path) == self.template_path,
            Some(config.template_resolver) == self.template_resolver,
            Some(config.template_resolver_data) == self.template_resolver_data,
            Some(config.version) == self.version,
            config.view_data == self.view_data,
            config.with_ssr == self.with_ssr,
            config.custom_ssr_client == self.custom_ssr_client,
    {
        InertiaConfig {
            url: self.url.unwrap(),
            template_path: self.template_path.unwrap(),
            template_resolver: self.template_resolver.unwrap(),
            template_resolver_data: self.template_resolver_data.unwrap(),
            version: self.version.unwrap(),
            view_data: self.view_data,
            with_ssr: self.with_ssr,
            custom_ssr_client: self.custom_ssr_client,
        }
    }
}

} // verus!
