//! The process-wide state of the engine: the version of the assets, the
//! address of the renderer and what the root template needs.
use crate::config::InertiaConfig;
use crate::error::{io_error_other, InertiaError, NodeJsError};
use crate::node_process::{NodeCommand, NodeJsProc, ScriptPath};
use crate::json::{json_entries, JsonMap};
use crate::page::{InertiaPage, InertiaSSRPage};
use crate::text::{contains_text, decimal, has_substring, push_decimal};
use crate::url::{parsed_url, ServerUrl};
use std::fmt::Display;
use vstd::prelude::*;
use vstd::string::to_string_from_display_ensures;

verus! {

/// `String::leak` hands the string out as a slice that lives for the rest
/// of the process, with the same text.
#[verifier::external_body]
fn leak(s: String) -> (leaked: &'static str)
    ensures
        leaked@ == s@,
{
    s.leak()
}

/// The version of the assets: given as it is, or computed once when the
/// engine is set up.
pub enum InertiaVersion<T, F> {
    Literal(T),
    Resolver(F),
}

/// Whether `text` is what `value` displays as.
pub open spec fn displays_as<T: Display>(value: T, text: Seq<char>) -> bool {
    exists|s: String| s@ == text && #[trigger] to_string_from_display_ensures::<T>(&value, s)
}

impl<T: Display, F: FnOnce() -> T> InertiaVersion<T, F> {
    /// Whether `version` is a text that the version resolves to.
    pub open spec fn resolves_to(self, version: Seq<char>) -> bool {
        match self {
            InertiaVersion::Literal(v) => displays_as(v, version),
            InertiaVersion::Resolver(resolver) => exists|v: T|
                resolver.ensures((), v) && #[trigger] displays_as(v, version),
        }
    }

    /// Whether the resolver, if there is one, may be called.
    pub open spec fn resolvable(self) -> bool {
        self matches InertiaVersion::Resolver(resolver) ==> resolver.requires(())
    }

    /// The version as text. A resolver is called once.
    pub fn resolve(self) -> (version: &'static str)
        requires
            self.resolvable(),
        ensures
            self.resolves_to(version@),
    {
        match self {
            InertiaVersion::Literal(v) => leak(v.to_string()),
            InertiaVersion::Resolver(resolver) => {
                let v = resolver();
                let version = leak(v.to_string());
                assert(displays_as(v, version@));
                version
            },
        }
    }
}

/// Where the renderer listens.
#[derive(PartialEq, Debug)]
pub struct SsrClient {
    host: &'static str,
    port: u16,
}

impl SsrClient {
    /// The host, as text.
    pub closed spec fn host(&self) -> Seq<char> {
        self.host@
    }

    /// The port.
    pub closed spec fn port(&self) -> u16 {
        self.port
    }

    /// The address that the renderer listens on unless told otherwise:
    /// port 13714 of the local host.
    pub closed spec fn default_client() -> SsrClient {
        SsrClient { host: "127.0.0.1", port: 13714 }
    }

    /// The address of the renderer as text: host and port, under the
    /// `http` scheme unless the host names a scheme itself.
    pub open spec fn address(&self) -> Seq<char> {
        if has_substring(self.host(), "://"@) {
            self.host() + ":"@ + decimal(self.port() as nat)
        } else {
            "http://"@ + self.host() + ":"@ + decimal(self.port() as nat)
        }
    }

    /// Makes a custom `SsrClient`. Unless the renderer has to listen
    /// elsewhere, prefer `SsrClient::default`.
    ///
    /// * `host` - the host of the renderer (normally `127.0.0.1`)
    /// * `port` - the port of the renderer
    pub fn new(host: &'static str, port: u16) -> (client: Self)
        ensures
            client.host() == host@,
            client.port() == port,
    {
        Self { host, port }
    }

    /// The address of the renderer as text.
    pub fn to_address(&self) -> (address: String)
        ensures
            address@ == self.address(),
    {
        let mut address = if contains_text(self.host, "://") {
            String::new()
        } else {
            String::from_str("http://")
        };
        address.append(self.host);
        address.append(":");
        push_decimal(&mut address, self.port as u64);
        address
    }
}

impl Default for SsrClient {
    fn default() -> (client: Self)
        ensures
            client == SsrClient::default_client(),
            client.host() == "127.0.0.1"@,
            client.port() == 13714,
    {
        Self { host: "127.0.0.1", port: 13714 }
    }
}

/// What the root template is rendered from.
#[derive(Debug, Clone, PartialEq, Eq)]
pub struct ViewData {
    pub page: InertiaPage,
    pub ssr_page: Option<InertiaSSRPage>,
    pub custom_props: JsonMap,
}

/// The engine's state, set up once before requests are served and read
/// only afterwards. `R` is the type of the function that renders the root
/// template and `T` the type of the data that it is given.
pub struct Inertia<R, T: 'static> {
    /// URL of the application, e.g. "https://myapp.com".
    pub url: &'static str,
    /// The path of the root html template.
    pub template_path: &'static str,
    /// The current version of the assets.
    pub version: &'static str,
    /// The function that renders the root template.
    pub template_resolver: R,
    /// The data that the template resolver is given.
    pub template_resolver_data: &'static T,
    /// The address of the renderer, where server-side rendering is on.
    pub ssr_url: Option<ServerUrl>,
    /// Extra data for the root template.
    pub custom_view_data: JsonMap,
}

/// The cause of the failure to start a renderer while server-side
/// rendering is off.
pub const SSR_DISABLED: &'static str =
    "Ssr is not enabled and, hence, a ssr server cannot be raised.";

/// The message that reports a renderer address that does not parse.
pub open spec fn bad_ssr_url_message(parser_message: Seq<char>) -> Seq<char> {
    "Failed to parse Inertia Server url: "@ + parser_message
}

/// The address of the renderer, given what parsing its text gave: the
/// parsed address, or the failure that tells the parser's message.
pub fn renderer_address(parsed: Result<ServerUrl, String>) -> (address: Result<
    ServerUrl,
    InertiaError,
>)
    ensures
        match parsed {
            Ok(url) => address == Ok::<ServerUrl, InertiaError>(url),
            Err(message) => address matches Err(InertiaError::SsrError(cause)) && cause@
                == bad_ssr_url_message(message@),
        },
{
    match parsed {
        Ok(url) => Ok(url),
        Err(message) => {
            let mut cause = String::from_str("Failed to parse Inertia Server url: ");
            cause.append(message.as_str());
            Err(InertiaError::SsrError(cause))
        },
    }
}

impl<R, T: 'static> Inertia<R, T> {
    /// Sets the engine up from a configuration. The version is resolved
    /// here, once. Where server-side rendering is on, the address of the
    /// renderer is parsed; the only failure is an address that does not
    /// parse.
    pub fn new<V: Display, F: FnOnce() -> V>(config: InertiaConfig<R, T, V, F>) -> (inertia: Result<
        Self,
        std::io::Error,
    >)
        requires
            config.version.resolvable(),
        ensures
            match inertia {
                Ok(inertia) => {
                    &&& inertia.url == config.url
                    &&& inertia.template_path == config.template_path
                    &&& config.version.resolves_to(inertia.version@)
                    &&& inertia.template_resolver == config.template_resolver
                    &&& inertia.template_resolver_data == config.template_resolver_data
                    &&& json_entries(inertia.custom_view_data) == (match config.view_data {
                        Some(data) => json_entries(data),
                        None => Map::empty(),
                    })
                    &&& match inertia.ssr_url {
                        Some(url) => config.with_ssr && parsed_url(config.ssr_client().address())
                            == Ok::<Seq<char>, Seq<char>>(url.href()),
                        None => !config.with_ssr,
                    }
                },
                Err(err) => {
                    &&& config.with_ssr
                    &&& parsed_url(config.ssr_client().address()) matches Err(message)
                    &&& err == io_error_other(bad_ssr_url_message(message))
                },
            },
    {
        let InertiaConfig {
            url,
            version,
            template_path,
            template_resolver,
            template_resolver_data,
            with_ssr,
            custom_ssr_client,
            view_data,
        } = config;
        let version = version.resolve();
        let ssr_url = if with_ssr {
            let client: SsrClient = match custom_ssr_client {
                Some(client) => client,
                None => SsrClient::default(),
            };
            match renderer_address(ServerUrl::parse(client.to_address().as_str())) {
                Err(error) => {
                    return Err(error.to_io_error());
                },
                Ok(url) => Some(url),
            }
        } else {
            None
        };
        let custom_view_data = match view_data {
            Some(data) => data,
            None => JsonMap::new(),
        };
        Ok(
            Self {
                url,
                template_path,
                version,
                template_resolver,
                template_resolver_data,
                ssr_url,
                custom_view_data,
            },
        )
    }

    /// The command that starts the renderer for the script at
    /// `server_file_path`, e.g. "dist/server/ssr.js", listening at the
    /// address of the engine.
    ///
    /// Fails where server-side rendering is off, and where the script is
    /// not one that `NodeJsProc::start` accepts.
    pub fn start_node_server(&self, server_file_path: &ScriptPath) -> (command: Result<
        NodeCommand,
        std::io::Error,
    >)
        ensures
            match command {
                Ok(command) => self.ssr_url matches Some(url) && NodeJsProc::starts(
                    *server_file_path,
                    url,
                    Ok(command),
                ),
                Err(err) => match self.ssr_url {
                    None => err == io_error_other(SSR_DISABLED@),
                    Some(url) => exists|node_err: NodeJsError|
                        #[trigger] NodeJsProc::starts(*server_file_path, url, Err(node_err)) && err
                            == io_error_other(InertiaError::NodeJsError(node_err).cause()),
                },
            },
    {
        let url = match &self.ssr_url {
            None => {
                let inertia_err = InertiaError::SsrError(String::from_str(SSR_DISABLED));
                return Err(inertia_err.to_io_error());
            },
            Some(url) => url,
        };
        match NodeJsProc::start(server_file_path, url) {
            Err(err) => Err(InertiaError::NodeJsError(err).to_io_error()),
            Ok(command) => Ok(command),
        }
    }

    /// The extra data for the root template.
    pub fn get_view_data(&self) -> (data: &JsonMap)
        ensures
            *data == self.custom_view_data,
    {
        &self.custom_view_data
    }

    /// The extra data for the root template, to be filled in while the
    /// engine is set up.
    pub fn get_view_data_mut(&mut self) -> (data: &mut JsonMap)
        ensures
            *data == old(self).custom_view_data,
            *final(self) == (Inertia { custom_view_data: *final(data), ..*old(self) }),
    {
        &mut self.custom_view_data
    }
}

} // verus!
