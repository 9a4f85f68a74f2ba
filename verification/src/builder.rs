//! The builder resource's sum-typed configuration: three variants with
//! their full, partial and diff forms, variant-aware defaults, merge,
//! and field-level diffing.

use vstd::prelude::*;

use crate::config::{DockerRegistry, GitProvider};

verus! {

// ---------------------------------------------------------------------
// Defaults
// ---------------------------------------------------------------------

/// The default periphery agent address of a url builder.
pub open spec fn spec_default_address() -> Seq<char> {
    "https://periphery:8120"@
}

pub fn default_address() -> (r: String)
    ensures
        r@ == spec_default_address(),
{
    String::from_str("https://periphery:8120")
}

/// The default AWS region of an aws builder.
pub open spec fn spec_aws_default_region() -> Seq<char> {
    "us-east-1"@
}

pub fn aws_default_region() -> (r: String)
    ensures
        r@ == spec_aws_default_region(),
{
    String::from_str("us-east-1")
}

/// The default EC2 instance type of an aws builder.
pub open spec fn spec_aws_default_instance_type() -> Seq<char> {
    "c5.2xlarge"@
}

pub fn aws_default_instance_type() -> (r: String)
    ensures
        r@ == spec_aws_default_instance_type(),
{
    String::from_str("c5.2xlarge")
}

/// The default volume size of an aws builder, in gb.
pub fn aws_default_volume_gb() -> (r: i32)
    ensures
        r == 20i32,
{
    20
}

/// The default port the periphery agent runs on.
pub fn default_port() -> (r: i32)
    ensures
        r == 8120i32,
{
    8120
}

/// Whether a builder connects to the periphery agent over https by default.
pub fn default_use_https() -> (r: bool)
    ensures
        r == true,
{
    true
}

// ---------------------------------------------------------------------
// Url builder config
// ---------------------------------------------------------------------

/// Configuration for a url builder: a periphery agent reachable at an
/// address.
#[derive(Clone, Debug, PartialEq, Eq)]
pub struct UrlBuilderConfig {
    /// The address of the periphery agent.
    pub address: String,
    /// A custom passkey to use. Otherwise, use the default passkey.
    pub passkey: String,
}

/// Partial form of [`UrlBuilderConfig`]: every field optional.
#[derive(Clone, Debug, PartialEq, Eq)]
pub struct PartialUrlBuilderConfig {
    pub address: Option<String>,
    pub passkey: Option<String>,
}

/// Field-level diff of [`UrlBuilderConfig`]: each field holds the new
/// value when it changed, and nothing otherwise.
#[derive(Clone, Debug, PartialEq, Eq)]
pub struct UrlBuilderConfigDiff {
    pub address: Option<String>,
    pub passkey: Option<String>,
}

/// A url config is at its documented defaults.
pub open spec fn url_is_default(c: UrlBuilderConfig) -> bool {
    &&& c.address@ == spec_default_address()
    &&& c.passkey@ == Seq::<char>::empty()
}

/// A url config resolved from a partial: fields present in the partial
/// carry the partial's value, absent fields carry the default.
pub open spec fn url_config_from_partial(c: UrlBuilderConfig, p: PartialUrlBuilderConfig) -> bool {
    &&& match p.address {
        Some(a) => c.address == a,
        None => c.address@ == spec_default_address(),
    }
    &&& match p.passkey {
        Some(k) => c.passkey == k,
        None => c.passkey@ == Seq::<char>::empty(),
    }
}

/// Field-wise merge of a partial into a base url config.
pub open spec fn spec_merge_url(
    c: UrlBuilderConfig,
    p: PartialUrlBuilderConfig,
) -> UrlBuilderConfig {
    UrlBuilderConfig {
        address: p.address.unwrap_or(c.address),
        passkey: p.passkey.unwrap_or(c.passkey),
    }
}

/// Field-level diff of a partial against a base url config: a field is
/// reported exactly when present in the partial with a differing value.
pub open spec fn spec_diff_url(
    c: UrlBuilderConfig,
    p: PartialUrlBuilderConfig,
) -> UrlBuilderConfigDiff {
    UrlBuilderConfigDiff {
        address: match p.address {
            Some(a) => if a@ != c.address@ { Some(a) } else { None },
            None => None,
        },
        passkey: match p.passkey {
            Some(k) => if k@ != c.passkey@ { Some(k) } else { None },
            None => None,
        },
    }
}

/// Lossless projection of a url config into its partial form.
pub open spec fn spec_url_to_partial(c: UrlBuilderConfig) -> PartialUrlBuilderConfig {
    PartialUrlBuilderConfig { address: Some(c.address), passkey: Some(c.passkey) }
}

/// A url partial with every field absent.
pub open spec fn url_partial_is_none(p: PartialUrlBuilderConfig) -> bool {
    &&& p.address is None
    &&& p.passkey is None
}

/// A url diff reporting no changed field.
pub open spec fn url_diff_is_none(d: UrlBuilderConfigDiff) -> bool {
    &&& d.address is None
    &&& d.passkey is None
}

impl Default for UrlBuilderConfig {
    fn default() -> (r: Self)
        ensures
            url_is_default(r),
    {
        UrlBuilderConfig { address: default_address(), passkey: String::new() }
    }
}

impl Default for PartialUrlBuilderConfig {
    fn default() -> (r: Self)
        ensures
            url_partial_is_none(r),
    {
        PartialUrlBuilderConfig { address: None, passkey: None }
    }
}

impl UrlBuilderConfig {
    /// Resolve a partial into a full config, filling absent fields with
    /// the documented defaults.
    pub fn from_partial(p: PartialUrlBuilderConfig) -> (r: Self)
        ensures
            url_config_from_partial(r, p),
    {
        UrlBuilderConfig {
            address: p.address.unwrap_or(default_address()),
            passkey: p.passkey.unwrap_or(String::new()),
        }
    }

    /// Project every field into the partial form.
    pub fn to_partial(self) -> (r: PartialUrlBuilderConfig)
        ensures
            r == spec_url_to_partial(self),
    {
        PartialUrlBuilderConfig { address: Some(self.address), passkey: Some(self.passkey) }
    }
}

// ---------------------------------------------------------------------
// Server builder config
// ---------------------------------------------------------------------

/// Configuration for a server builder: delegate builds to an existing
/// managed server.
#[derive(Clone, Debug, PartialEq, Eq)]
pub struct ServerBuilderConfig {
    /// The server id of the builder.
    pub server_id: String,
}

/// Partial form of [`ServerBuilderConfig`]: every field optional.
#[derive(Clone, Debug, PartialEq, Eq)]
pub struct PartialServerBuilderConfig {
    pub server_id: Option<String>,
}

/// Field-level diff of [`ServerBuilderConfig`].
#[derive(Clone, Debug, PartialEq, Eq)]
pub struct ServerBuilderConfigDiff {
    pub server_id: Option<String>,
}

/// A server config is at its documented defaults.
pub open spec fn server_is_default(c: ServerBuilderConfig) -> bool {
    c.server_id@ == Seq::<char>::empty()
}

/// A server config resolved from a partial.
pub open spec fn server_config_from_partial(
    c: ServerBuilderConfig,
    p: PartialServerBuilderConfig,
) -> bool {
    match p.server_id {
        Some(s) => c.server_id == s,
        None => c.server_id@ == Seq::<char>::empty(),
    }
}

/// Field-wise merge of a partial into a base server config.
pub open spec fn spec_merge_server(
    c: ServerBuilderConfig,
    p: PartialServerBuilderConfig,
) -> ServerBuilderConfig {
    ServerBuilderConfig { server_id: p.server_id.unwrap_or(c.server_id) }
}

/// Field-level diff of a partial against a base server config.
pub open spec fn spec_diff_server(
    c: ServerBuilderConfig,
    p: PartialServerBuilderConfig,
) -> ServerBuilderConfigDiff {
    ServerBuilderConfigDiff {
        server_id: match p.server_id {
            Some(s) => if s@ != c.server_id@ { Some(s) } else { None },
            None => None,
        },
    }
}

/// Lossless projection of a server config into its partial form.
pub open spec fn spec_server_to_partial(c: ServerBuilderConfig) -> PartialServerBuilderConfig {
    PartialServerBuilderConfig { server_id: Some(c.server_id) }
}

/// A server partial with every field absent.
pub open spec fn server_partial_is_none(p: PartialServerBuilderConfig) -> bool {
    p.server_id is None
}

/// A server diff reporting no changed field.
pub open spec fn server_diff_is_none(d: ServerBuilderConfigDiff) -> bool {
    d.server_id is None
}

impl Default for ServerBuilderConfig {
    fn default() -> (r: Self)
        ensures
            server_is_default(r),
    {
        ServerBuilderConfig { server_id: String::new() }
    }
}

impl Default for PartialServerBuilderConfig {
    fn default() -> (r: Self)
        ensures
            server_partial_is_none(r),
    {
        PartialServerBuilderConfig { server_id: None }
    }
}

impl ServerBuilderConfig {
    /// Resolve a partial into a full config, filling absent fields with
    /// the documented defaults.
    pub fn from_partial(p: PartialServerBuilderConfig) -> (r: Self)
        ensures
            server_config_from_partial(r, p),
    {
        ServerBuilderConfig { server_id: p.server_id.unwrap_or(String::new()) }
    }

    /// Project every field into the partial form.
    pub fn to_partial(self) -> (r: PartialServerBuilderConfig)
        ensures
            r == spec_server_to_partial(self),
    {
        PartialServerBuilderConfig { server_id: Some(self.server_id) }
    }
}

// ---------------------------------------------------------------------
// Aws builder config
// ---------------------------------------------------------------------

/// Configuration for an aws builder: an EC2 instance spawned on demand
/// for each build.
#[derive(Clone, Debug, PartialEq, Eq)]
pub struct AwsBuilderConfig {
    /// The AWS region to create the instance in.
    pub region: String,
    /// The instance type to create for the build.
    pub instance_type: String,
    /// The size of the builder volume in gb.
    pub volume_gb: i32,
    /// The port periphery will be running on.
    pub port: i32,
    /// Whether to connect to periphery over https.
    pub use_https: bool,
    /// The EC2 ami id to create. The ami should have the periphery agent
    /// configured to start on startup.
    pub ami_id: String,
    /// The subnet id to create the instance in.
    pub subnet_id: String,
    /// The key pair name to attach to the instance.
    pub key_pair_name: String,
    /// Whether to assign the instance a public IP address.
    pub assign_public_ip: bool,
    /// Whether to communicate with periphery over the public IP.
    pub use_public_ip: bool,
    /// The security group ids to attach to the instance.
    pub security_group_ids: Vec<String>,
    /// The user data to deploy the instance with.
    pub user_data: String,
    /// Which git providers are available on the ami.
    pub git_providers: Vec<GitProvider>,
    /// Which docker registries are available on the ami.
    pub docker_registries: Vec<DockerRegistry>,
    /// Which secrets are available on the ami.
    pub secrets: Vec<String>,
}

/// Partial form of [`AwsBuilderConfig`]: every field optional.
#[derive(Clone, Debug, PartialEq, Eq)]
pub struct PartialAwsBuilderConfig {
    pub region: Option<String>,
    pub instance_type: Option<String>,
    pub volume_gb: Option<i32>,
    pub port: Option<i32>,
    pub use_https: Option<bool>,
    pub ami_id: Option<String>,
    pub subnet_id: Option<String>,
    pub key_pair_name: Option<String>,
    pub assign_public_ip: Option<bool>,
    pub use_public_ip: Option<bool>,
    pub security_group_ids: Option<Vec<String>>,
    pub user_data: Option<String>,
    pub git_providers: Option<Vec<GitProvider>>,
    pub docker_registries: Option<Vec<DockerRegistry>>,
    pub secrets: Option<Vec<String>>,
}

/// Field-level diff of [`AwsBuilderConfig`].
#[derive(Clone, Debug, PartialEq, Eq)]
pub struct AwsBuilderConfigDiff {
    pub region: Option<String>,
    pub instance_type: Option<String>,
    pub volume_gb: Option<i32>,
    pub port: Option<i32>,
    pub use_https: Option<bool>,
    pub ami_id: Option<String>,
    pub subnet_id: Option<String>,
    pub key_pair_name: Option<String>,
    pub assign_public_ip: Option<bool>,
    pub use_public_ip: Option<bool>,
    pub security_group_ids: Option<Vec<String>>,
    pub user_data: Option<String>,
    pub git_providers: Option<Vec<GitProvider>>,
    pub docker_registries: Option<Vec<DockerRegistry>>,
    pub secrets: Option<Vec<String>>,
}

/// An aws config is at its documented defaults.
pub open spec fn aws_is_default(c: AwsBuilderConfig) -> bool {
    &&& c.region@ == spec_aws_default_region()
    &&& c.instance_type@ == spec_aws_default_instance_type()
    &&& c.volume_gb == 20i32
    &&& c.port == 8120i32
    &&& c.use_https == true
    &&& c.ami_id@ == Seq::<char>::empty()
    &&& c.subnet_id@ == Seq::<char>::empty()
    &&& c.key_pair_name@ == Seq::<char>::empty()
    &&& c.assign_public_ip == false
    &&& c.use_public_ip == false
    &&& c.security_group_ids@ == Seq::<String>::empty()
    &&& c.user_data@ == Seq::<char>::empty()
    &&& c.git_providers@ == Seq::<GitProvider>::empty()
    &&& c.docker_registries@ == Seq::<DockerRegistry>::empty()
    &&& c.secrets@ == Seq::<String>::empty()
}

/// An aws config resolved from a partial: fields present in the partial
/// carry the partial's value, absent fields carry the default.
pub open spec fn aws_config_from_partial(
    c: AwsBuilderConfig,
    p: PartialAwsBuilderConfig,
) -> bool {
    &&& match p.region {
        Some(v) => c.region == v,
        None => c.region@ == spec_aws_default_region(),
    }
    &&& match p.instance_type {
        Some(v) => c.instance_type == v,
        None => c.instance_type@ == spec_aws_default_instance_type(),
    }
    &&& c.volume_gb == p.volume_gb.unwrap_or(20i32)
    &&& c.port == p.port.unwrap_or(8120i32)
    &&& c.use_https == p.use_https.unwrap_or(true)
    &&& match p.ami_id {
        Some(v) => c.ami_id == v,
        None => c.ami_id@ == Seq::<char>::empty(),
    }
    &&& match p.subnet_id {
        Some(v) => c.subnet_id == v,
        None => c.subnet_id@ == Seq::<char>::empty(),
    }
    &&& match p.key_pair_name {
        Some(v) => c.key_pair_name == v,
        None => c.key_pair_name@ == Seq::<char>::empty(),
    }
    &&& c.assign_public_ip == p.assign_public_ip.unwrap_or(false)
    &&& c.use_public_ip == p.use_public_ip.unwrap_or(false)
    &&& match p.security_group_ids {
        Some(v) => c.security_group_ids == v,
        None => c.security_group_ids@ == Seq::<String>::empty(),
    }
    &&& match p.user_data {
        Some(v) => c.user_data == v,
        None => c.user_data@ == Seq::<char>::empty(),
    }
    &&& match p.git_providers {
        Some(v) => c.git_providers == v,
        None => c.git_providers@ == Seq::<GitProvider>::empty(),
    }
    &&& match p.docker_registries {
        Some(v) => c.docker_registries == v,
        None => c.docker_registries@ == Seq::<DockerRegistry>::empty(),
    }
    &&& match p.secrets {
        Some(v) => c.secrets == v,
        None => c.secrets@ == Seq::<String>::empty(),
    }
}

/// Field-wise merge of a partial into a base aws config.
pub open spec fn spec_merge_aws(
    c: AwsBuilderConfig,
    p: PartialAwsBuilderConfig,
) -> AwsBuilderConfig {
    AwsBuilderConfig {
        region: p.region.unwrap_or(c.region),
        instance_type: p.instance_type.unwrap_or(c.instance_type),
        volume_gb: p.volume_gb.unwrap_or(c.volume_gb),
        port: p.port.unwrap_or(c.port),
        use_https: p.use_https.unwrap_or(c.use_https),
        ami_id: p.ami_id.unwrap_or(c.ami_id),
        subnet_id: p.subnet_id.unwrap_or(c.subnet_id),
        key_pair_name: p.key_pair_name.unwrap_or(c.key_pair_name),
        assign_public_ip: p.assign_public_ip.unwrap_or(c.assign_public_ip),
        use_public_ip: p.use_public_ip.unwrap_or(c.use_public_ip),
        security_group_ids: p.security_group_ids.unwrap_or(c.security_group_ids),
        user_data: p.user_data.unwrap_or(c.user_data),
        git_providers: p.git_providers.unwrap_or(c.git_providers),
        docker_registries: p.docker_registries.unwrap_or(c.docker_registries),
        secrets: p.secrets.unwrap_or(c.secrets),
    }
}

/// Field-level diff of a partial against a base aws config: a field is
/// reported exactly when present in the partial with a differing value.
/// String-valued fields compare by contents, list-valued fields by the
/// contents of every element.
pub open spec fn spec_diff_aws(
    c: AwsBuilderConfig,
    p: PartialAwsBuilderConfig,
) -> AwsBuilderConfigDiff {
    AwsBuilderConfigDiff {
        region: match p.region {
            Some(v) => if v@ != c.region@ { Some(v) } else { None },
            None => None,
        },
        instance_type: match p.instance_type {
            Some(v) => if v@ != c.instance_type@ { Some(v) } else { None },
            None => None,
        },
        volume_gb: match p.volume_gb {
            Some(v) => if v != c.volume_gb { Some(v) } else { None },
            None => None,
        },
        port: match p.port {
            Some(v) => if v != c.port { Some(v) } else { None },
            None => None,
        },
        use_https: match p.use_https {
            Some(v) => if v != c.use_https { Some(v) } else { None },
            None => None,
        },
        ami_id: match p.ami_id {
            Some(v) => if v@ != c.ami_id@ { Some(v) } else { None },
            None => None,
        },
        subnet_id: match p.subnet_id {
            Some(v) => if v@ != c.subnet_id@ { Some(v) } else { None },
            None => None,
        },
        key_pair_name: match p.key_pair_name {
            Some(v) => if v@ != c.key_pair_name@ { Some(v) } else { None },
            None => None,
        },
        assign_public_ip: match p.assign_public_ip {
            Some(v) => if v != c.assign_public_ip { Some(v) } else { None },
            None => None,
        },
        use_public_ip: match p.use_public_ip {
            Some(v) => if v != c.use_public_ip { Some(v) } else { None },
            None => None,
        },
        security_group_ids: match p.security_group_ids {
            Some(v) => if v.deep_view() != c.security_group_ids.deep_view() {
                Some(v)
            } else {
                None
            },
            None => None,
        },
        user_data: match p.user_data {
            Some(v) => if v@ != c.user_data@ { Some(v) } else { None },
            None => None,
        },
        git_providers: match p.git_providers {
            Some(v) => if v.deep_view() != c.git_providers.deep_view() { Some(v) } else { None },
            None => None,
        },
        docker_registries: match p.docker_registries {
            Some(v) => if v.deep_view() != c.docker_registries.deep_view() {
                Some(v)
            } else {
                None
            },
            None => None,
        },
        secrets: match p.secrets {
            Some(v) => if v.deep_view() != c.secrets.deep_view() { Some(v) } else { None },
            None => None,
        },
    }
}

/// Lossless projection of an aws config into its partial form.
pub open spec fn spec_aws_to_partial(c: AwsBuilderConfig) -> PartialAwsBuilderConfig {
    PartialAwsBuilderConfig {
        region: Some(c.region),
        instance_type: Some(c.instance_type),
        volume_gb: Some(c.volume_gb),
        port: Some(c.port),
        use_https: Some(c.use_https),
        ami_id: Some(c.ami_id),
        subnet_id: Some(c.subnet_id),
        key_pair_name: Some(c.key_pair_name),
        assign_public_ip: Some(c.assign_public_ip),
        use_public_ip: Some(c.use_public_ip),
        security_group_ids: Some(c.security_group_ids),
        user_data: Some(c.user_data),
        git_providers: Some(c.git_providers),
        docker_registries: Some(c.docker_registries),
        secrets: Some(c.secrets),
    }
}

/// An aws partial with every field absent.
pub open spec fn aws_partial_is_none(p: PartialAwsBuilderConfig) -> bool {
    &&& p.region is None
    &&& p.instance_type is None
    &&& p.volume_gb is None
    &&& p.port is None
    &&& p.use_https is None
    &&& p.ami_id is None
    &&& p.subnet_id is None
    &&& p.key_pair_name is None
    &&& p.assign_public_ip is None
    &&& p.use_public_ip is None
    &&& p.security_group_ids is None
    &&& p.user_data is None
    &&& p.git_providers is None
    &&& p.docker_registries is None
    &&& p.secrets is None
}

/// An aws diff reporting no changed field.
pub open spec fn aws_diff_is_none(d: AwsBuilderConfigDiff) -> bool {
    &&& d.region is None
    &&& d.instance_type is None
    &&& d.volume_gb is None
    &&& d.port is None
    &&& d.use_https is None
    &&& d.ami_id is None
    &&& d.subnet_id is None
    &&& d.key_pair_name is None
    &&& d.assign_public_ip is None
    &&& d.use_public_ip is None
    &&& d.security_group_ids is None
    &&& d.user_data is None
    &&& d.git_providers is None
    &&& d.docker_registries is None
    &&& d.secrets is None
}

impl Default for AwsBuilderConfig {
    fn default() -> (r: Self)
        ensures
            aws_is_default(r),
    {
        AwsBuilderConfig {
            region: aws_default_region(),
            instance_type: aws_default_instance_type(),
            volume_gb: aws_default_volume_gb(),
            port: default_port(),
            use_https: default_use_https(),
            ami_id: String::new(),
            subnet_id: String::new(),
            key_pair_name: String::new(),
            assign_public_ip: false,
            use_public_ip: false,
            security_group_ids: Vec::new(),
            user_data: String::new(),
            git_providers: Vec::new(),
            docker_registries: Vec::new(),
            secrets: Vec::new(),
        }
    }
}

impl Default for PartialAwsBuilderConfig {
    fn default() -> (r: Self)
        ensures
            aws_partial_is_none(r),
    {
        PartialAwsBuilderConfig {
            region: None,
            instance_type: None,
            volume_gb: None,
            port: None,
            use_https: None,
            ami_id: None,
            subnet_id: None,
            key_pair_name: None,
            assign_public_ip: None,
            use_public_ip: None,
            security_group_ids: None,
            user_data: None,
            git_providers: None,
            docker_registries: None,
            secrets: None,
        }
    }
}

impl AwsBuilderConfig {
    /// Resolve a partial into a full config, filling absent fields with
    /// the documented defaults.
    pub fn from_partial(p: PartialAwsBuilderConfig) -> (r: Self)
        ensures
            aws_config_from_partial(r, p),
    {
        AwsBuilderConfig {
            region: p.region.unwrap_or(aws_default_region()),
            instance_type: p.instance_type.unwrap_or(aws_default_instance_type()),
            volume_gb: p.volume_gb.unwrap_or(20),
            port: p.port.unwrap_or(8120),
            use_https: p.use_https.unwrap_or(true),
            ami_id: p.ami_id.unwrap_or(String::new()),
            subnet_id: p.subnet_id.unwrap_or(String::new()),
            key_pair_name: p.key_pair_name.unwrap_or(String::new()),
            assign_public_ip: p.assign_public_ip.unwrap_or(false),
            use_public_ip: p.use_public_ip.unwrap_or(false),
            security_group_ids: p.security_group_ids.unwrap_or(Vec::new()),
            user_data: p.user_data.unwrap_or(String::new()),
            git_providers: p.git_providers.unwrap_or(Vec::new()),
            docker_registries: p.docker_registries.unwrap_or(Vec::new()),
            secrets: p.secrets.unwrap_or(Vec::new()),
        }
    }

    /// Project every field into the partial form.
    pub fn to_partial(self) -> (r: PartialAwsBuilderConfig)
        ensures
            r == spec_aws_to_partial(self),
    {
        PartialAwsBuilderConfig {
            region: Some(self.region),
            instance_type: Some(self.instance_type),
            volume_gb: Some(self.volume_gb),
            port: Some(self.port),
            use_https: Some(self.use_https),
            ami_id: Some(self.ami_id),
            subnet_id: Some(self.subnet_id),
            key_pair_name: Some(self.key_pair_name),
            assign_public_ip: Some(self.assign_public_ip),
            use_public_ip: Some(self.use_public_ip),
            security_group_ids: Some(self.security_group_ids),
            user_data: Some(self.user_data),
            git_providers: Some(self.git_providers),
            docker_registries: Some(self.docker_registries),
            secrets: Some(self.secrets),
        }
    }
}

// ---------------------------------------------------------------------
// Struct-level diffing
// ---------------------------------------------------------------------

impl UrlBuilderConfig {
    /// Fields the partial would change on this config, with their new
    /// values.
    pub fn partial_diff(&self, partial: PartialUrlBuilderConfig) -> (d: UrlBuilderConfigDiff)
        ensures
            d == spec_diff_url(*self, partial),
    {
        UrlBuilderConfigDiff {
            address: match partial.address {
                Some(a) => if a == self.address { None } else { Some(a) },
                None => None,
            },
            passkey: match partial.passkey {
                Some(k) => if k == self.passkey { None } else { Some(k) },
                None => None,
            },
        }
    }
}

impl ServerBuilderConfig {
    /// Fields the partial would change on this config, with their new
    /// values.
    pub fn partial_diff(&self, partial: PartialServerBuilderConfig) -> (d: ServerBuilderConfigDiff)
        ensures
            d == spec_diff_server(*self, partial),
    {
        ServerBuilderConfigDiff {
            server_id: match partial.server_id {
                Some(s) => if s == self.server_id { None } else { Some(s) },
                None => None,
            },
        }
    }
}

impl AwsBuilderConfig {
    /// Fields the partial would change on this config, with their new
    /// values.
    pub fn partial_diff(&self, partial: PartialAwsBuilderConfig) -> (d: AwsBuilderConfigDiff)
        ensures
            d == spec_diff_aws(*self, partial),
    {
        AwsBuilderConfigDiff {
            region: match partial.region {
                Some(v) => if v == self.region { None } else { Some(v) },
                None => None,
            },
            instance_type: match partial.instance_type {
                Some(v) => if v == self.instance_type { None } else { Some(v) },
                None => None,
            },
            volume_gb: match partial.volume_gb {
                Some(v) => if v == self.volume_gb { None } else { Some(v) },
                None => None,
            },
            port: match partial.port {
                Some(v) => if v == self.port { None } else { Some(v) },
                None => None,
            },
            use_https: match partial.use_https {
                Some(v) => if v == self.use_https { None } else { Some(v) },
                None => None,
            },
            ami_id: match partial.ami_id {
                Some(v) => if v == self.ami_id { None } else { Some(v) },
                None => None,
            },
            subnet_id: match partial.subnet_id {
                Some(v) => if v == self.subnet_id { None } else { Some(v) },
                None => None,
            },
            key_pair_name: match partial.key_pair_name {
                Some(v) => if v == self.key_pair_name { None } else { Some(v) },
                None => None,
            },
            assign_public_ip: match partial.assign_public_ip {
                Some(v) => if v == self.assign_public_ip { None } else { Some(v) },
                None => None,
            },
            use_public_ip: match partial.use_public_ip {
                Some(v) => if v == self.use_public_ip { None } else { Some(v) },
                None => None,
            },
            security_group_ids: match partial.security_group_ids {
                Some(v) => if crate::config::string_vec_eq(&v, &self.security_group_ids) {
                    None
                } else {
                    Some(v)
                },
                None => None,
            },
            user_data: match partial.user_data {
                Some(v) => if v == self.user_data { None } else { Some(v) },
                None => None,
            },
            git_providers: match partial.git_providers {
                Some(v) => if crate::config::git_provider_vec_eq(&v, &self.git_providers) {
                    None
                } else {
                    Some(v)
                },
                None => None,
            },
            docker_registries: match partial.docker_registries {
                Some(v) => if crate::config::docker_registry_vec_eq(&v, &self.docker_registries) {
                    None
                } else {
                    Some(v)
                },
                None => None,
            },
            secrets: match partial.secrets {
                Some(v) => if crate::config::string_vec_eq(&v, &self.secrets) {
                    None
                } else {
                    Some(v)
                },
                None => None,
            },
        }
    }
}

// ---------------------------------------------------------------------
// The sum-typed builder config
// ---------------------------------------------------------------------

/// The builder config: one of three mutually exclusive shapes.
#[derive(Clone, Debug, PartialEq, Eq)]
pub enum BuilderConfig {
    /// Use a periphery agent address as a builder.
    Url(UrlBuilderConfig),
    /// Use a connected server as a builder.
    Server(ServerBuilderConfig),
    /// Use EC2 instances spawned on demand as a builder.
    Aws(AwsBuilderConfig),
}

/// Partial form of [`BuilderConfig`]: the variant chooses a shape, every
/// field within it is optional.
#[derive(Clone, Debug, PartialEq, Eq)]
pub enum PartialBuilderConfig {
    Url(PartialUrlBuilderConfig),
    Server(PartialServerBuilderConfig),
    Aws(PartialAwsBuilderConfig),
}

/// Field-level diff of [`BuilderConfig`], mirroring its variants.
#[derive(Clone, Debug, PartialEq, Eq)]
pub enum BuilderConfigDiff {
    Url(UrlBuilderConfigDiff),
    Server(ServerBuilderConfigDiff),
    Aws(AwsBuilderConfigDiff),
}

/// The base config and the partial specify the same variant.
pub open spec fn same_variant(c: BuilderConfig, p: PartialBuilderConfig) -> bool {
    match (c, p) {
        (BuilderConfig::Url(_), PartialBuilderConfig::Url(_)) => true,
        (BuilderConfig::Server(_), PartialBuilderConfig::Server(_)) => true,
        (BuilderConfig::Aws(_), PartialBuilderConfig::Aws(_)) => true,
        _ => false,
    }
}

/// A config resolved from a partial alone: it has the partial's variant,
/// fields present in the partial carry the partial's value, absent
/// fields carry that variant's default.
pub open spec fn builder_config_from_partial(r: BuilderConfig, p: PartialBuilderConfig) -> bool {
    match p {
        PartialBuilderConfig::Url(pp) => r matches BuilderConfig::Url(u)
            && url_config_from_partial(u, pp),
        PartialBuilderConfig::Server(pp) => r matches BuilderConfig::Server(s)
            && server_config_from_partial(s, pp),
        PartialBuilderConfig::Aws(pp) => r matches BuilderConfig::Aws(a)
            && aws_config_from_partial(a, pp),
    }
}

/// The merge rule. Same variant: field-by-field merge within the
/// variant. Different variant: the result is the partial's variant
/// resolved from the partial alone — the prior variant's values are
/// discarded entirely.
pub open spec fn builder_config_merged(
    c: BuilderConfig,
    p: PartialBuilderConfig,
    r: BuilderConfig,
) -> bool {
    match p {
        PartialBuilderConfig::Url(pp) => match c {
            BuilderConfig::Url(cc) => r == BuilderConfig::Url(spec_merge_url(cc, pp)),
            _ => builder_config_from_partial(r, p),
        },
        PartialBuilderConfig::Server(pp) => match c {
            BuilderConfig::Server(cc) => r == BuilderConfig::Server(spec_merge_server(cc, pp)),
            _ => builder_config_from_partial(r, p),
        },
        PartialBuilderConfig::Aws(pp) => match c {
            BuilderConfig::Aws(cc) => r == BuilderConfig::Aws(spec_merge_aws(cc, pp)),
            _ => builder_config_from_partial(r, p),
        },
    }
}

/// Diff of a partial against the default of the url variant, for
/// cross-variant diffs.
pub open spec fn spec_diff_url_from_default(p: PartialUrlBuilderConfig) -> UrlBuilderConfigDiff {
    UrlBuilderConfigDiff {
        address: match p.address {
            Some(a) => if a@ != spec_default_address() { Some(a) } else { None },
            None => None,
        },
        passkey: match p.passkey {
            Some(k) => if k@ != Seq::<char>::empty() { Some(k) } else { None },
            None => None,
        },
    }
}

/// Diff of a partial against the default of the server variant, for
/// cross-variant diffs.
pub open spec fn spec_diff_server_from_default(
    p: PartialServerBuilderConfig,
) -> ServerBuilderConfigDiff {
    ServerBuilderConfigDiff {
        server_id: match p.server_id {
            Some(s) => if s@ != Seq::<char>::empty() { Some(s) } else { None },
            None => None,
        },
    }
}

/// Diff of a partial against the default of the aws variant, for
/// cross-variant diffs.
pub open spec fn spec_diff_aws_from_default(p: PartialAwsBuilderConfig) -> AwsBuilderConfigDiff {
    AwsBuilderConfigDiff {
        region: match p.region {
            Some(v) => if v@ != spec_aws_default_region() { Some(v) } else { None },
            None => None,
        },
        instance_type: match p.instance_type {
            Some(v) => if v@ != spec_aws_default_instance_type() { Some(v) } else { None },
            None => None,
        },
        volume_gb: match p.volume_gb {
            Some(v) => if v != 20i32 { Some(v) } else { None },
            None => None,
        },
        port: match p.port {
            Some(v) => if v != 8120i32 { Some(v) } else { None },
            None => None,
        },
        use_https: match p.use_https {
            Some(v) => if v != true { Some(v) } else { None },
            None => None,
        },
        ami_id: match p.ami_id {
            Some(v) => if v@ != Seq::<char>::empty() { Some(v) } else { None },
            None => None,
        },
        subnet_id: match p.subnet_id {
            Some(v) => if v@ != Seq::<char>::empty() { Some(v) } else { None },
            None => None,
        },
        key_pair_name: match p.key_pair_name {
            Some(v) => if v@ != Seq::<char>::empty() { Some(v) } else { None },
            None => None,
        },
        assign_public_ip: match p.assign_public_ip {
            Some(v) => if v != false { Some(v) } else { None },
            None => None,
        },
        use_public_ip: match p.use_public_ip {
            Some(v) => if v != false { Some(v) } else { None },
            None => None,
        },
        security_group_ids: match p.security_group_ids {
            Some(v) => if v.deep_view() != Seq::<Seq<char>>::empty() { Some(v) } else { None },
            None => None,
        },
        user_data: match p.user_data {
            Some(v) => if v@ != Seq::<char>::empty() { Some(v) } else { None },
            None => None,
        },
        git_providers: match p.git_providers {
            Some(v) => if v.deep_view() != Seq::<Seq<char>>::empty() { Some(v) } else { None },
            None => None,
        },
        docker_registries: match p.docker_registries {
            Some(v) => if v.deep_view() != Seq::<Seq<char>>::empty() { Some(v) } else { None },
            None => None,
        },
        secrets: match p.secrets {
            Some(v) => if v.deep_view() != Seq::<Seq<char>>::empty() { Some(v) } else { None },
            None => None,
        },
    }
}

/// The diff rule. Same variant: field-level diff within the variant.
/// Different variant: diff against the default of the partial's target
/// variant, reporting "switching to that variant with these non-default
/// fields".
pub open spec fn spec_builder_partial_diff(
    c: BuilderConfig,
    p: PartialBuilderConfig,
) -> BuilderConfigDiff {
    match p {
        PartialBuilderConfig::Url(pp) => match c {
            BuilderConfig::Url(cc) => BuilderConfigDiff::Url(spec_diff_url(cc, pp)),
            _ => BuilderConfigDiff::Url(spec_diff_url_from_default(pp)),
        },
        PartialBuilderConfig::Server(pp) => match c {
            BuilderConfig::Server(cc) => BuilderConfigDiff::Server(spec_diff_server(cc, pp)),
            _ => BuilderConfigDiff::Server(spec_diff_server_from_default(pp)),
        },
        PartialBuilderConfig::Aws(pp) => match c {
            BuilderConfig::Aws(cc) => BuilderConfigDiff::Aws(spec_diff_aws(cc, pp)),
            _ => BuilderConfigDiff::Aws(spec_diff_aws_from_default(pp)),
        },
    }
}

/// Lossless projection of a config into its partial form: every field
/// becomes present.
pub open spec fn spec_builder_to_partial(c: BuilderConfig) -> PartialBuilderConfig {
    match c {
        BuilderConfig::Url(cc) => PartialBuilderConfig::Url(spec_url_to_partial(cc)),
        BuilderConfig::Server(cc) => PartialBuilderConfig::Server(spec_server_to_partial(cc)),
        BuilderConfig::Aws(cc) => PartialBuilderConfig::Aws(spec_aws_to_partial(cc)),
    }
}

/// A partial with every field absent, whatever its variant tag.
pub open spec fn builder_partial_is_none(p: PartialBuilderConfig) -> bool {
    match p {
        PartialBuilderConfig::Url(pp) => url_partial_is_none(pp),
        PartialBuilderConfig::Server(pp) => server_partial_is_none(pp),
        PartialBuilderConfig::Aws(pp) => aws_partial_is_none(pp),
    }
}

/// A diff reporting no changed field, whatever its variant tag.
pub open spec fn builder_diff_is_none(d: BuilderConfigDiff) -> bool {
    match d {
        BuilderConfigDiff::Url(dd) => url_diff_is_none(dd),
        BuilderConfigDiff::Server(dd) => server_diff_is_none(dd),
        BuilderConfigDiff::Aws(dd) => aws_diff_is_none(dd),
    }
}

/// The partial a diff stands for: each changed field becomes a present
/// field.
pub open spec fn spec_builder_diff_to_partial(d: BuilderConfigDiff) -> PartialBuilderConfig {
    match d {
        BuilderConfigDiff::Url(dd) => PartialBuilderConfig::Url(
            PartialUrlBuilderConfig { address: dd.address, passkey: dd.passkey },
        ),
        BuilderConfigDiff::Server(dd) => PartialBuilderConfig::Server(
            PartialServerBuilderConfig { server_id: dd.server_id },
        ),
        BuilderConfigDiff::Aws(dd) => PartialBuilderConfig::Aws(
            PartialAwsBuilderConfig {
                region: dd.region,
                instance_type: dd.instance_type,
                volume_gb: dd.volume_gb,
                port: dd.port,
                use_https: dd.use_https,
                ami_id: dd.ami_id,
                subnet_id: dd.subnet_id,
                key_pair_name: dd.key_pair_name,
                assign_public_ip: dd.assign_public_ip,
                use_public_ip: dd.use_public_ip,
                security_group_ids: dd.security_group_ids,
                user_data: dd.user_data,
                git_providers: dd.git_providers,
                docker_registries: dd.docker_registries,
                secrets: dd.secrets,
            },
        ),
    }
}

impl Default for BuilderConfig {
    fn default() -> (r: Self)
        ensures
            r matches BuilderConfig::Aws(a) && aws_is_default(a),
    {
        BuilderConfig::Aws(AwsBuilderConfig::default())
    }
}

impl Default for PartialBuilderConfig {
    fn default() -> (r: Self)
        ensures
            r matches PartialBuilderConfig::Url(p) && url_partial_is_none(p),
            builder_partial_is_none(r),
    {
        PartialBuilderConfig::Url(PartialUrlBuilderConfig::default())
    }
}

impl PartialBuilderConfig {
    /// The emptiness check: true exactly when no field is present, so a
    /// caller can short-circuit a no-op update.
    pub fn is_none(&self) -> (r: bool)
        ensures
            r == builder_partial_is_none(*self),
    {
        match self {
            PartialBuilderConfig::Url(config) => {
                config.address.is_none() && config.passkey.is_none()
            },
            PartialBuilderConfig::Server(config) => config.server_id.is_none(),
            PartialBuilderConfig::Aws(config) => {
                config.region.is_none() && config.instance_type.is_none()
                    && config.volume_gb.is_none() && config.port.is_none()
                    && config.use_https.is_none() && config.ami_id.is_none()
                    && config.subnet_id.is_none() && config.key_pair_name.is_none()
                    && config.assign_public_ip.is_none() && config.use_public_ip.is_none()
                    && config.security_group_ids.is_none() && config.user_data.is_none()
                    && config.git_providers.is_none() && config.docker_registries.is_none()
                    && config.secrets.is_none()
            },
        }
    }

    /// Lossless projection of a full config: every field becomes present.
    pub fn from(value: BuilderConfig) -> (r: Self)
        ensures
            r == spec_builder_to_partial(value),
    {
        match value {
            BuilderConfig::Url(config) => PartialBuilderConfig::Url(config.to_partial()),
            BuilderConfig::Server(config) => PartialBuilderConfig::Server(config.to_partial()),
            BuilderConfig::Aws(config) => PartialBuilderConfig::Aws(config.to_partial()),
        }
    }

    /// The partial a diff stands for, to re-apply an audited change.
    pub fn from_diff(value: BuilderConfigDiff) -> (r: Self)
        ensures
            r == spec_builder_diff_to_partial(value),
    {
        match value {
            BuilderConfigDiff::Url(diff) => PartialBuilderConfig::Url(
                PartialUrlBuilderConfig { address: diff.address, passkey: diff.passkey },
            ),
            BuilderConfigDiff::Server(diff) => PartialBuilderConfig::Server(
                PartialServerBuilderConfig { server_id: diff.server_id },
            ),
            BuilderConfigDiff::Aws(diff) => PartialBuilderConfig::Aws(
                PartialAwsBuilderConfig {
                    region: diff.region,
                    instance_type: diff.instance_type,
                    volume_gb: diff.volume_gb,
                    port: diff.port,
                    use_https: diff.use_https,
                    ami_id: diff.ami_id,
                    subnet_id: diff.subnet_id,
                    key_pair_name: diff.key_pair_name,
                    assign_public_ip: diff.assign_public_ip,
                    use_public_ip: diff.use_public_ip,
                    security_group_ids: diff.security_group_ids,
                    user_data: diff.user_data,
                    git_providers: diff.git_providers,
                    docker_registries: diff.docker_registries,
                    secrets: diff.secrets,
                },
            ),
        }
    }
}

impl BuilderConfig {
    /// Resolve a partial into a full, default-backed config.
    pub fn from(value: PartialBuilderConfig) -> (r: BuilderConfig)
        ensures
            builder_config_from_partial(r, value),
    {
        match value {
            PartialBuilderConfig::Url(p) => BuilderConfig::Url(UrlBuilderConfig::from_partial(p)),
            PartialBuilderConfig::Server(p) => BuilderConfig::Server(
                ServerBuilderConfig::from_partial(p),
            ),
            PartialBuilderConfig::Aws(p) => BuilderConfig::Aws(AwsBuilderConfig::from_partial(p)),
        }
    }

    /// Merge a partial into this config: fields present in the partial
    /// override, absent fields keep their base value; a partial of a
    /// different variant replaces the config with that variant resolved
    /// from the partial alone.
    pub fn merge_partial(self, partial: PartialBuilderConfig) -> (r: BuilderConfig)
        ensures
            builder_config_merged(self, partial, r),
    {
        match partial {
            PartialBuilderConfig::Url(partial) => match self {
                BuilderConfig::Url(config) => {
                    let config = UrlBuilderConfig {
                        address: partial.address.unwrap_or(config.address),
                        passkey: partial.passkey.unwrap_or(config.passkey),
                    };
                    BuilderConfig::Url(config)
                },
                _ => BuilderConfig::Url(UrlBuilderConfig::from_partial(partial)),
            },
            PartialBuilderConfig::Server(partial) => match self {
                BuilderConfig::Server(config) => {
                    let config = ServerBuilderConfig {
                        server_id: partial.server_id.unwrap_or(config.server_id),
                    };
                    BuilderConfig::Server(config)
                },
                _ => BuilderConfig::Server(ServerBuilderConfig::from_partial(partial)),
            },
            PartialBuilderConfig::Aws(partial) => match self {
                BuilderConfig::Aws(config) => {
                    let config = AwsBuilderConfig {
                        region: partial.region.unwrap_or(config.region),
                        instance_type: partial.instance_type.unwrap_or(config.instance_type),
                        volume_gb: partial.volume_gb.unwrap_or(config.volume_gb),
                        port: partial.port.unwrap_or(config.port),
                        use_https: partial.use_https.unwrap_or(config.use_https),
                        ami_id: partial.ami_id.unwrap_or(config.ami_id),
                        subnet_id: partial.subnet_id.unwrap_or(config.subnet_id),
                        key_pair_name: partial.key_pair_name.unwrap_or(config.key_pair_name),
                        assign_public_ip: partial.assign_public_ip.unwrap_or(
                            config.assign_public_ip,
                        ),
                        use_public_ip: partial.use_public_ip.unwrap_or(config.use_public_ip),
                        security_group_ids: partial.security_group_ids.unwrap_or(
                            config.security_group_ids,
                        ),
                        user_data: partial.user_data.unwrap_or(config.user_data),
                        git_providers: partial.git_providers.unwrap_or(config.git_providers),
                        docker_registries: partial.docker_registries.unwrap_or(
                            config.docker_registries,
                        ),
                        secrets: partial.secrets.unwrap_or(config.secrets),
                    };
                    BuilderConfig::Aws(config)
                },
                _ => BuilderConfig::Aws(AwsBuilderConfig::from_partial(partial)),
            },
        }
    }

    /// Diff a partial against this config: the fields that would change,
    /// with their new values. A partial of a different variant is diffed
    /// against that variant's default instead of this config.
    pub fn partial_diff(&self, partial: PartialBuilderConfig) -> (d: BuilderConfigDiff)
        ensures
            d == spec_builder_partial_diff(*self, partial),
    {
        match self {
            BuilderConfig::Url(original) => match partial {
                PartialBuilderConfig::Url(partial) => BuilderConfigDiff::Url(
                    original.partial_diff(partial),
                ),
                PartialBuilderConfig::Server(partial) => {
                    let default = ServerBuilderConfig::default();
                    BuilderConfigDiff::Server(default.partial_diff(partial))
                },
                PartialBuilderConfig::Aws(partial) => {
                    let default = AwsBuilderConfig::default();
                    let diff = default.partial_diff(partial);
                    proof {
                        assert(default.security_group_ids.deep_view()
                            =~= Seq::<Seq<char>>::empty());
                        assert(default.git_providers.deep_view() =~= Seq::<Seq<char>>::empty());
                        assert(default.docker_registries.deep_view()
                            =~= Seq::<Seq<char>>::empty());
                        assert(default.secrets.deep_view() =~= Seq::<Seq<char>>::empty());
                    }
                    BuilderConfigDiff::Aws(diff)
                },
            },
            BuilderConfig::Server(original) => match partial {
                PartialBuilderConfig::Server(partial) => BuilderConfigDiff::Server(
                    original.partial_diff(partial),
                ),
                PartialBuilderConfig::Url(partial) => {
                    let default = UrlBuilderConfig::default();
                    BuilderConfigDiff::Url(default.partial_diff(partial))
                },
                PartialBuilderConfig::Aws(partial) => {
                    let default = AwsBuilderConfig::default();
                    let diff = default.partial_diff(partial);
                    proof {
                        assert(default.security_group_ids.deep_view()
                            =~= Seq::<Seq<char>>::empty());
                        assert(default.git_providers.deep_view() =~= Seq::<Seq<char>>::empty());
                        assert(default.docker_registries.deep_view()
                            =~= Seq::<Seq<char>>::empty());
                        assert(default.secrets.deep_view() =~= Seq::<Seq<char>>::empty());
                    }
                    BuilderConfigDiff::Aws(diff)
                },
            },
            BuilderConfig::Aws(original) => match partial {
                PartialBuilderConfig::Aws(partial) => BuilderConfigDiff::Aws(
                    original.partial_diff(partial),
                ),
                PartialBuilderConfig::Url(partial) => {
                    let default = UrlBuilderConfig::default();
                    BuilderConfigDiff::Url(default.partial_diff(partial))
                },
                PartialBuilderConfig::Server(partial) => {
                    let default = ServerBuilderConfig::default();
                    BuilderConfigDiff::Server(default.partial_diff(partial))
                },
            },
        }
    }
}

// ---------------------------------------------------------------------
// Field-level audit entries
// ---------------------------------------------------------------------

/// One changed field of a config diff, named for audit trails and
/// dry-run previews.
#[derive(Clone, Debug, PartialEq, Eq)]
pub struct FieldDiff {
    /// The name of the changed field.
    pub field: String,
}

/// The names a field diff list should carry for a url diff, in field
/// order.
pub open spec fn url_diff_field_names(d: UrlBuilderConfigDiff) -> Seq<Seq<char>> {
    (if d.address is Some { seq!["address"@] } else { Seq::<Seq<char>>::empty() })
        + (if d.passkey is Some { seq!["passkey"@] } else { Seq::<Seq<char>>::empty() })
}

/// The names a field diff list should carry for a server diff.
pub open spec fn server_diff_field_names(d: ServerBuilderConfigDiff) -> Seq<Seq<char>> {
    if d.server_id is Some { seq!["server_id"@] } else { Seq::<Seq<char>>::empty() }
}

/// The names an aws diff carries for its instance-shape fields.
pub open spec fn aws_diff_field_names_shape(d: AwsBuilderConfigDiff) -> Seq<Seq<char>> {
    (if d.region is Some { seq!["region"@] } else { Seq::<Seq<char>>::empty() })
        + (if d.instance_type is Some { seq!["instance_type"@] } else {
            Seq::<Seq<char>>::empty()
        })
        + (if d.volume_gb is Some { seq!["volume_gb"@] } else { Seq::<Seq<char>>::empty() })
        + (if d.port is Some { seq!["port"@] } else { Seq::<Seq<char>>::empty() })
        + (if d.use_https is Some { seq!["use_https"@] } else { Seq::<Seq<char>>::empty() })
}

/// The names an aws diff carries for its network and placement fields.
pub open spec fn aws_diff_field_names_network(d: AwsBuilderConfigDiff) -> Seq<Seq<char>> {
    (if d.ami_id is Some { seq!["ami_id"@] } else { Seq::<Seq<char>>::empty() })
        + (if d.subnet_id is Some { seq!["subnet_id"@] } else { Seq::<Seq<char>>::empty() })
        + (if d.key_pair_name is Some { seq!["key_pair_name"@] } else {
            Seq::<Seq<char>>::empty()
        })
        + (if d.assign_public_ip is Some { seq!["assign_public_ip"@] } else {
            Seq::<Seq<char>>::empty()
        })
        + (if d.use_public_ip is Some { seq!["use_public_ip"@] } else {
            Seq::<Seq<char>>::empty()
        })
}

/// The names an aws diff carries for its provisioning fields.
pub open spec fn aws_diff_field_names_image(d: AwsBuilderConfigDiff) -> Seq<Seq<char>> {
    (if d.security_group_ids is Some { seq!["security_group_ids"@] } else {
        Seq::<Seq<char>>::empty()
    })
        + (if d.user_data is Some { seq!["user_data"@] } else { Seq::<Seq<char>>::empty() })
        + (if d.git_providers is Some { seq!["git_providers"@] } else {
            Seq::<Seq<char>>::empty()
        })
        + (if d.docker_registries is Some { seq!["docker_registries"@] } else {
            Seq::<Seq<char>>::empty()
        })
        + (if d.secrets is Some { seq!["secrets"@] } else { Seq::<Seq<char>>::empty() })
}

/// The names a field diff list should carry for an aws diff, in field
/// order.
pub open spec fn aws_diff_field_names(d: AwsBuilderConfigDiff) -> Seq<Seq<char>> {
    aws_diff_field_names_shape(d) + aws_diff_field_names_network(d) + aws_diff_field_names_image(
        d,
    )
}

/// The names a field diff list should carry, per variant.
pub open spec fn builder_diff_field_names(d: BuilderConfigDiff) -> Seq<Seq<char>> {
    match d {
        BuilderConfigDiff::Url(dd) => url_diff_field_names(dd),
        BuilderConfigDiff::Server(dd) => server_diff_field_names(dd),
        BuilderConfigDiff::Aws(dd) => aws_diff_field_names(dd),
    }
}

/// The names of a field diff list, as character sequences.
pub open spec fn field_names_of(v: Seq<FieldDiff>) -> Seq<Seq<char>> {
    v.map_values(|f: FieldDiff| f.field@)
}

/// Append the named audit entries for the instance-shape fields of an
/// aws diff.
fn push_aws_shape_fields(diff: &AwsBuilderConfigDiff, v: &mut Vec<FieldDiff>)
    ensures
        field_names_of(final(v)@) == field_names_of(old(v)@) + aws_diff_field_names_shape(*diff),
{
    let ghost v0 = v@;
    if diff.region.is_some() {
        v.push(FieldDiff { field: String::from_str("region") });
    }
    if diff.instance_type.is_some() {
        v.push(FieldDiff { field: String::from_str("instance_type") });
    }
    if diff.volume_gb.is_some() {
        v.push(FieldDiff { field: String::from_str("volume_gb") });
    }
    if diff.port.is_some() {
        v.push(FieldDiff { field: String::from_str("port") });
    }
    if diff.use_https.is_some() {
        v.push(FieldDiff { field: String::from_str("use_https") });
    }
    proof {
        assert(field_names_of(v@) =~= field_names_of(v0) + aws_diff_field_names_shape(*diff));
    }
}

/// Append the named audit entries for the network and placement fields
/// of an aws diff.
fn push_aws_network_fields(diff: &AwsBuilderConfigDiff, v: &mut Vec<FieldDiff>)
    ensures
        field_names_of(final(v)@) == field_names_of(old(v)@) + aws_diff_field_names_network(*diff),
{
    let ghost v0 = v@;
    if diff.ami_id.is_some() {
        v.push(FieldDiff { field: String::from_str("ami_id") });
    }
    if diff.subnet_id.is_some() {
        v.push(FieldDiff { field: String::from_str("subnet_id") });
    }
    if diff.key_pair_name.is_some() {
        v.push(FieldDiff { field: String::from_str("key_pair_name") });
    }
    if diff.assign_public_ip.is_some() {
        v.push(FieldDiff { field: String::from_str("assign_public_ip") });
    }
    if diff.use_public_ip.is_some() {
        v.push(FieldDiff { field: String::from_str("use_public_ip") });
    }
    proof {
        assert(field_names_of(v@) =~= field_names_of(v0) + aws_diff_field_names_network(*diff));
    }
}

/// Append the named audit entries for the provisioning fields of an aws
/// diff.
fn push_aws_image_fields(diff: &AwsBuilderConfigDiff, v: &mut Vec<FieldDiff>)
    ensures
        field_names_of(final(v)@) == field_names_of(old(v)@) + aws_diff_field_names_image(*diff),
{
    let ghost v0 = v@;
    if diff.security_group_ids.is_some() {
        v.push(FieldDiff { field: String::from_str("security_group_ids") });
    }
    if diff.user_data.is_some() {
        v.push(FieldDiff { field: String::from_str("user_data") });
    }
    if diff.git_providers.is_some() {
        v.push(FieldDiff { field: String::from_str("git_providers") });
    }
    if diff.docker_registries.is_some() {
        v.push(FieldDiff { field: String::from_str("docker_registries") });
    }
    if diff.secrets.is_some() {
        v.push(FieldDiff { field: String::from_str("secrets") });
    }
    proof {
        assert(field_names_of(v@) =~= field_names_of(v0) + aws_diff_field_names_image(*diff));
    }
}

impl BuilderConfigDiff {
    /// A diff with no changed field, so a caller can skip an audit entry.
    pub fn is_none(&self) -> (r: bool)
        ensures
            r == builder_diff_is_none(*self),
    {
        match self {
            BuilderConfigDiff::Url(config) => {
                config.address.is_none() && config.passkey.is_none()
            },
            BuilderConfigDiff::Server(config) => config.server_id.is_none(),
            BuilderConfigDiff::Aws(config) => {
                config.region.is_none() && config.instance_type.is_none()
                    && config.volume_gb.is_none() && config.port.is_none()
                    && config.use_https.is_none() && config.ami_id.is_none()
                    && config.subnet_id.is_none() && config.key_pair_name.is_none()
                    && config.assign_public_ip.is_none() && config.use_public_ip.is_none()
                    && config.security_group_ids.is_none() && config.user_data.is_none()
                    && config.git_providers.is_none() && config.docker_registries.is_none()
                    && config.secrets.is_none()
            },
        }
    }

    /// The changed fields of this diff as named audit entries, in field
    /// order.
    pub fn iter_field_diffs(&self) -> (r: Vec<FieldDiff>)
        ensures
            field_names_of(r@) == builder_diff_field_names(*self),
    {
        let mut v: Vec<FieldDiff> = Vec::new();
        match self {
            BuilderConfigDiff::Url(diff) => {
                if diff.address.is_some() {
                    v.push(FieldDiff { field: String::from_str("address") });
                }
                if diff.passkey.is_some() {
                    v.push(FieldDiff { field: String::from_str("passkey") });
                }
                proof {
                    assert(field_names_of(v@) =~= url_diff_field_names(*diff));
                }
            },
            BuilderConfigDiff::Server(diff) => {
                if diff.server_id.is_some() {
                    v.push(FieldDiff { field: String::from_str("server_id") });
                }
                proof {
                    assert(field_names_of(v@) =~= server_diff_field_names(*diff));
                }
            },
            BuilderConfigDiff::Aws(diff) => {
                push_aws_shape_fields(diff, &mut v);
                push_aws_network_fields(diff, &mut v);
                push_aws_image_fields(diff, &mut v);
                proof {
                    assert(field_names_of(v@) =~= aws_diff_field_names(*diff));
                }
            },
        }
        v
    }
}

// ---------------------------------------------------------------------
// Step-wise construction
// ---------------------------------------------------------------------

/// A required field was never given to a config builder.
#[derive(Clone, Debug, PartialEq, Eq)]
pub struct UninitializedFieldError {
    /// The name of the missing field.
    pub field: String,
}

/// Step-wise constructor for [`UrlBuilderConfig`]: both fields are
/// required.
#[derive(Clone, Debug, PartialEq, Eq)]
pub struct UrlBuilderConfigBuilder {
    pub address: Option<String>,
    pub passkey: Option<String>,
}

impl UrlBuilderConfigBuilder {
    pub fn address(self, value: String) -> (r: Self)
        ensures
            r.address == Some(value),
            r.passkey == self.passkey,
    {
        UrlBuilderConfigBuilder { address: Some(value), ..self }
    }

    pub fn passkey(self, value: String) -> (r: Self)
        ensures
            r.passkey == Some(value),
            r.address == self.address,
    {
        UrlBuilderConfigBuilder { passkey: Some(value), ..self }
    }

    /// Succeeds exactly when every required field was given, with those
    /// values; otherwise names the first missing field.
    pub fn build(self) -> (r: Result<UrlBuilderConfig, UninitializedFieldError>)
        ensures
            self.address is Some && self.passkey is Some ==> (r matches Ok(c)
                && c.address == self.address.unwrap() && c.passkey == self.passkey.unwrap()),
            self.address is None ==> (r matches Err(e) && e.field@ == "address"@),
            self.address is Some && self.passkey is None ==> (r matches Err(e)
                && e.field@ == "passkey"@),
    {
        match self.address {
            None => Err(UninitializedFieldError { field: String::from_str("address") }),
            Some(address) => match self.passkey {
                None => Err(UninitializedFieldError { field: String::from_str("passkey") }),
                Some(passkey) => Ok(UrlBuilderConfig { address, passkey }),
            },
        }
    }
}

impl UrlBuilderConfig {
    /// An empty step-wise constructor.
    pub fn builder() -> (r: UrlBuilderConfigBuilder)
        ensures
            r.address is None,
            r.passkey is None,
    {
        UrlBuilderConfigBuilder { address: None, passkey: None }
    }
}

/// Step-wise constructor for [`ServerBuilderConfig`]: the server id is
/// required.
#[derive(Clone, Debug, PartialEq, Eq)]
pub struct ServerBuilderConfigBuilder {
    pub server_id: Option<String>,
}

impl ServerBuilderConfigBuilder {
    pub fn server_id(self, value: String) -> (r: Self)
        ensures
            r.server_id == Some(value),
    {
        ServerBuilderConfigBuilder { server_id: Some(value) }
    }

    /// Succeeds exactly when the server id was given, with that value.
    pub fn build(self) -> (r: Result<ServerBuilderConfig, UninitializedFieldError>)
        ensures
            self.server_id matches Some(s) ==> (r matches Ok(c) && c.server_id == s),
            self.server_id is None ==> (r matches Err(e) && e.field@ == "server_id"@),
    {
        match self.server_id {
            None => Err(UninitializedFieldError { field: String::from_str("server_id") }),
            Some(server_id) => Ok(ServerBuilderConfig { server_id }),
        }
    }
}

impl ServerBuilderConfig {
    /// An empty step-wise constructor.
    pub fn builder() -> (r: ServerBuilderConfigBuilder)
        ensures
            r.server_id is None,
    {
        ServerBuilderConfigBuilder { server_id: None }
    }
}

/// Step-wise constructor for [`AwsBuilderConfig`]: every field has a
/// default, so building never fails.
#[derive(Clone, Debug, PartialEq, Eq)]
pub struct AwsBuilderConfigBuilder {
    /// The fields given so far.
    pub config: PartialAwsBuilderConfig,
}

impl AwsBuilderConfigBuilder {
    pub fn region(self, value: String) -> (r: Self)
        ensures
            r.config == (PartialAwsBuilderConfig { region: Some(value), ..self.config }),
    {
        AwsBuilderConfigBuilder {
            config: PartialAwsBuilderConfig { region: Some(value), ..self.config },
        }
    }

    pub fn instance_type(self, value: String) -> (r: Self)
        ensures
            r.config == (PartialAwsBuilderConfig { instance_type: Some(value), ..self.config }),
    {
        AwsBuilderConfigBuilder {
            config: PartialAwsBuilderConfig { instance_type: Some(value), ..self.config },
        }
    }

    pub fn volume_gb(self, value: i32) -> (r: Self)
        ensures
            r.config == (PartialAwsBuilderConfig { volume_gb: Some(value), ..self.config }),
    {
        AwsBuilderConfigBuilder {
            config: PartialAwsBuilderConfig { volume_gb: Some(value), ..self.config },
        }
    }

    pub fn port(self, value: i32) -> (r: Self)
        ensures
            r.config == (PartialAwsBuilderConfig { port: Some(value), ..self.config }),
    {
        AwsBuilderConfigBuilder {
            config: PartialAwsBuilderConfig { port: Some(value), ..self.config },
        }
    }

    pub fn use_https(self, value: bool) -> (r: Self)
        ensures
            r.config == (PartialAwsBuilderConfig { use_https: Some(value), ..self.config }),
    {
        AwsBuilderConfigBuilder {
            config: PartialAwsBuilderConfig { use_https: Some(value), ..self.config },
        }
    }

    pub fn ami_id(self, value: String) -> (r: Self)
        ensures
            r.config == (PartialAwsBuilderConfig { ami_id: Some(value), ..self.config }),
    {
        AwsBuilderConfigBuilder {
            config: PartialAwsBuilderConfig { ami_id: Some(value), ..self.config },
        }
    }

    pub fn subnet_id(self, value: String) -> (r: Self)
        ensures
            r.config == (PartialAwsBuilderConfig { subnet_id: Some(value), ..self.config }),
    {
        AwsBuilderConfigBuilder {
            config: PartialAwsBuilderConfig { subnet_id: Some(value), ..self.config },
        }
    }

    pub fn key_pair_name(self, value: String) -> (r: Self)
        ensures
            r.config == (PartialAwsBuilderConfig { key_pair_name: Some(value), ..self.config }),
    {
        AwsBuilderConfigBuilder {
            config: PartialAwsBuilderConfig { key_pair_name: Some(value), ..self.config },
        }
    }

    pub fn assign_public_ip(self, value: bool) -> (r: Self)
        ensures
            r.config == (PartialAwsBuilderConfig { assign_public_ip: Some(value), ..self.config }),
    {
        AwsBuilderConfigBuilder {
            config: PartialAwsBuilderConfig { assign_public_ip: Some(value), ..self.config },
        }
    }

    pub fn use_public_ip(self, value: bool) -> (r: Self)
        ensures
            r.config == (PartialAwsBuilderConfig { use_public_ip: Some(value), ..self.config }),
    {
        AwsBuilderConfigBuilder {
            config: PartialAwsBuilderConfig { use_public_ip: Some(value), ..self.config },
        }
    }

    pub fn security_group_ids(self, value: Vec<String>) -> (r: Self)
        ensures
            r.config == (PartialAwsBuilderConfig {
                security_group_ids: Some(value),
                ..self.config
            }),
    {
        AwsBuilderConfigBuilder {
            config: PartialAwsBuilderConfig { security_group_ids: Some(value), ..self.config },
        }
    }

    pub fn user_data(self, value: String) -> (r: Self)
        ensures
            r.config == (PartialAwsBuilderConfig { user_data: Some(value), ..self.config }),
    {
        AwsBuilderConfigBuilder {
            config: PartialAwsBuilderConfig { user_data: Some(value), ..self.config },
        }
    }

    pub fn git_providers(self, value: Vec<GitProvider>) -> (r: Self)
        ensures
            r.config == (PartialAwsBuilderConfig { git_providers: Some(value), ..self.config }),
    {
        AwsBuilderConfigBuilder {
            config: PartialAwsBuilderConfig { git_providers: Some(value), ..self.config },
        }
    }

    pub fn docker_registries(self, value: Vec<DockerRegistry>) -> (r: Self)
        ensures
            r.config == (PartialAwsBuilderConfig {
                docker_registries: Some(value),
                ..self.config
            }),
    {
        AwsBuilderConfigBuilder {
            config: PartialAwsBuilderConfig { docker_registries: Some(value), ..self.config },
        }
    }

    pub fn secrets(self, value: Vec<String>) -> (r: Self)
        ensures
            r.config == (PartialAwsBuilderConfig { secrets: Some(value), ..self.config }),
    {
        AwsBuilderConfigBuilder {
            config: PartialAwsBuilderConfig { secrets: Some(value), ..self.config },
        }
    }

    /// Resolve the fields given so far into a full config; every field
    /// has a default, so this never fails.
    pub fn build(self) -> (r: Result<AwsBuilderConfig, UninitializedFieldError>)
        ensures
            r matches Ok(c) && aws_config_from_partial(c, self.config),
    {
        Ok(AwsBuilderConfig::from_partial(self.config))
    }
}

impl AwsBuilderConfig {
    /// An empty step-wise constructor.
    pub fn builder() -> (r: AwsBuilderConfigBuilder)
        ensures
            aws_partial_is_none(r.config),
    {
        AwsBuilderConfigBuilder { config: PartialAwsBuilderConfig::default() }
    }
}

// ---------------------------------------------------------------------
// List projection and query types
// ---------------------------------------------------------------------

/// Summary info shown for a builder in list views.
#[derive(Clone, Debug, PartialEq, Eq)]
pub struct BuilderListItemInfo {
    /// The variant of the builder: url, server or aws.
    pub builder_type: String,
    /// For a server builder, the server id; for an aws builder, the
    /// instance type; for a url builder, nothing.
    pub instance_type: Option<String>,
}

/// Builder-specific query filters; the builder kind defines none.
#[derive(Clone, Debug, PartialEq, Eq, Default)]
pub struct BuilderQuerySpecifics {}

// ---------------------------------------------------------------------
// Laws of merge and diff
// ---------------------------------------------------------------------

/// Law: merging the lossless partial projection of a config back into
/// that config gives the config itself.
pub proof fn lemma_merge_to_partial_roundtrip(c: BuilderConfig, r: BuilderConfig)
    requires
        builder_config_merged(c, spec_builder_to_partial(c), r),
    ensures
        r == c,
{
}

/// Law: a partial with no fields and the base's own variant merges to
/// the base itself; together with the emptiness predicate this lets a
/// caller short-circuit no-op updates.
pub proof fn lemma_merge_empty_partial(c: BuilderConfig, p: PartialBuilderConfig, r: BuilderConfig)
    requires
        builder_partial_is_none(p),
        same_variant(c, p),
        builder_config_merged(c, p, r),
    ensures
        r == c,
{
}

/// Contents equality of two url configs.
pub open spec fn url_view_eq(a: UrlBuilderConfig, b: UrlBuilderConfig) -> bool {
    &&& a.address@ == b.address@
    &&& a.passkey@ == b.passkey@
}

/// Contents equality of two server configs.
pub open spec fn server_view_eq(a: ServerBuilderConfig, b: ServerBuilderConfig) -> bool {
    a.server_id@ == b.server_id@
}

/// Contents equality of two aws configs.
pub open spec fn aws_view_eq(a: AwsBuilderConfig, b: AwsBuilderConfig) -> bool {
    &&& a.region@ == b.region@
    &&& a.instance_type@ == b.instance_type@
    &&& a.volume_gb == b.volume_gb
    &&& a.port == b.port
    &&& a.use_https == b.use_https
    &&& a.ami_id@ == b.ami_id@
    &&& a.subnet_id@ == b.subnet_id@
    &&& a.key_pair_name@ == b.key_pair_name@
    &&& a.assign_public_ip == b.assign_public_ip
    &&& a.use_public_ip == b.use_public_ip
    &&& a.security_group_ids.deep_view() == b.security_group_ids.deep_view()
    &&& a.user_data@ == b.user_data@
    &&& a.git_providers.deep_view() == b.git_providers.deep_view()
    &&& a.docker_registries.deep_view() == b.docker_registries.deep_view()
    &&& a.secrets.deep_view() == b.secrets.deep_view()
}

/// Contents equality of two builder configs: the same variant with the
/// same field contents.
pub open spec fn builder_view_eq(a: BuilderConfig, b: BuilderConfig) -> bool {
    match (a, b) {
        (BuilderConfig::Url(aa), BuilderConfig::Url(bb)) => url_view_eq(aa, bb),
        (BuilderConfig::Server(aa), BuilderConfig::Server(bb)) => server_view_eq(aa, bb),
        (BuilderConfig::Aws(aa), BuilderConfig::Aws(bb)) => aws_view_eq(aa, bb),
        _ => false,
    }
}

/// Law: a merge that switches variants does not depend on the base.
/// Merging one partial into two bases, each of a different variant than
/// the partial, gives results with the same contents.
pub proof fn lemma_cross_variant_merge_independent(
    c1: BuilderConfig,
    c2: BuilderConfig,
    p: PartialBuilderConfig,
    r1: BuilderConfig,
    r2: BuilderConfig,
)
    requires
        !same_variant(c1, p),
        !same_variant(c2, p),
        builder_config_merged(c1, p, r1),
        builder_config_merged(c2, p, r2),
    ensures
        builder_view_eq(r1, r2),
{
}

/// Law: for a partial of the base's own variant, the diff reports a
/// field exactly when the merge would change that field's contents, and
/// it reports the merged value.
pub proof fn lemma_diff_lists_exactly_changed_url(
    c: UrlBuilderConfig,
    p: PartialUrlBuilderConfig,
)
    ensures
        spec_diff_url(c, p).address is Some <==> spec_merge_url(c, p).address@ != c.address@,
        spec_diff_url(c, p).address matches Some(a) ==> a == spec_merge_url(c, p).address,
        spec_diff_url(c, p).passkey is Some <==> spec_merge_url(c, p).passkey@ != c.passkey@,
        spec_diff_url(c, p).passkey matches Some(k) ==> k == spec_merge_url(c, p).passkey,
{
}

/// Law: for a partial of the base's own variant, the diff reports a
/// field exactly when the merge would change that field's contents, and
/// it reports the merged value.
pub proof fn lemma_diff_lists_exactly_changed_server(
    c: ServerBuilderConfig,
    p: PartialServerBuilderConfig,
)
    ensures
        spec_diff_server(c, p).server_id is Some <==> spec_merge_server(c, p).server_id@
            != c.server_id@,
        spec_diff_server(c, p).server_id matches Some(s) ==> s == spec_merge_server(
            c,
            p,
        ).server_id,
{
}

/// Law: for a partial of the base's own variant, the diff reports a
/// field exactly when the merge would change that field's contents, and
/// it reports the merged value.
pub proof fn lemma_diff_lists_exactly_changed_aws(c: AwsBuilderConfig, p: PartialAwsBuilderConfig)
    ensures
        spec_diff_aws(c, p).region is Some <==> spec_merge_aws(c, p).region@ != c.region@,
        spec_diff_aws(c, p).region matches Some(v) ==> v == spec_merge_aws(c, p).region,
        spec_diff_aws(c, p).instance_type is Some <==> spec_merge_aws(c, p).instance_type@
            != c.instance_type@,
        spec_diff_aws(c, p).instance_type matches Some(v) ==> v == spec_merge_aws(
            c,
            p,
        ).instance_type,
        spec_diff_aws(c, p).volume_gb is Some <==> spec_merge_aws(c, p).volume_gb != c.volume_gb,
        spec_diff_aws(c, p).port is Some <==> spec_merge_aws(c, p).port != c.port,
        spec_diff_aws(c, p).use_https is Some <==> spec_merge_aws(c, p).use_https != c.use_https,
        spec_diff_aws(c, p).ami_id is Some <==> spec_merge_aws(c, p).ami_id@ != c.ami_id@,
        spec_diff_aws(c, p).subnet_id is Some <==> spec_merge_aws(c, p).subnet_id@
            != c.subnet_id@,
        spec_diff_aws(c, p).key_pair_name is Some <==> spec_merge_aws(c, p).key_pair_name@
            != c.key_pair_name@,
        spec_diff_aws(c, p).assign_public_ip is Some <==> spec_merge_aws(c, p).assign_public_ip
            != c.assign_public_ip,
        spec_diff_aws(c, p).use_public_ip is Some <==> spec_merge_aws(c, p).use_public_ip
            != c.use_public_ip,
        spec_diff_aws(c, p).security_group_ids is Some <==> spec_merge_aws(
            c,
            p,
        ).security_group_ids.deep_view() != c.security_group_ids.deep_view(),
        spec_diff_aws(c, p).user_data is Some <==> spec_merge_aws(c, p).user_data@
            != c.user_data@,
        spec_diff_aws(c, p).git_providers is Some <==> spec_merge_aws(
            c,
            p,
        ).git_providers.deep_view() != c.git_providers.deep_view(),
        spec_diff_aws(c, p).docker_registries is Some <==> spec_merge_aws(
            c,
            p,
        ).docker_registries.deep_view() != c.docker_registries.deep_view(),
        spec_diff_aws(c, p).secrets is Some <==> spec_merge_aws(c, p).secrets.deep_view()
            != c.secrets.deep_view(),
{
}

/// Law: a merge with a partial of the base's own variant changes only
/// the fields present in the partial: every absent field keeps the
/// base's value.
pub proof fn lemma_merge_changes_only_present_aws(c: AwsBuilderConfig, p: PartialAwsBuilderConfig)
    ensures
        p.region is None ==> spec_merge_aws(c, p).region == c.region,
        p.instance_type is None ==> spec_merge_aws(c, p).instance_type == c.instance_type,
        p.volume_gb is None ==> spec_merge_aws(c, p).volume_gb == c.volume_gb,
        p.port is None ==> spec_merge_aws(c, p).port == c.port,
        p.use_https is None ==> spec_merge_aws(c, p).use_https == c.use_https,
        p.ami_id is None ==> spec_merge_aws(c, p).ami_id == c.ami_id,
        p.subnet_id is None ==> spec_merge_aws(c, p).subnet_id == c.subnet_id,
        p.key_pair_name is None ==> spec_merge_aws(c, p).key_pair_name == c.key_pair_name,
        p.assign_public_ip is None ==> spec_merge_aws(c, p).assign_public_ip
            == c.assign_public_ip,
        p.use_public_ip is None ==> spec_merge_aws(c, p).use_public_ip == c.use_public_ip,
        p.security_group_ids is None ==> spec_merge_aws(c, p).security_group_ids
            == c.security_group_ids,
        p.user_data is None ==> spec_merge_aws(c, p).user_data == c.user_data,
        p.git_providers is None ==> spec_merge_aws(c, p).git_providers == c.git_providers,
        p.docker_registries is None ==> spec_merge_aws(c, p).docker_registries
            == c.docker_registries,
        p.secrets is None ==> spec_merge_aws(c, p).secrets == c.secrets,
{
}

/// Law: a merge with a partial of the base's own variant changes only
/// the fields present in the partial: every absent field keeps the
/// base's value.
pub proof fn lemma_merge_changes_only_present_url(c: UrlBuilderConfig, p: PartialUrlBuilderConfig)
    ensures
        p.address is None ==> spec_merge_url(c, p).address == c.address,
        p.passkey is None ==> spec_merge_url(c, p).passkey == c.passkey,
        p.address matches Some(a) ==> spec_merge_url(c, p).address == a,
        p.passkey matches Some(k) ==> spec_merge_url(c, p).passkey == k,
{
}

/// Law: a merge with a partial of the base's own variant changes only
/// the fields present in the partial: every absent field keeps the
/// base's value.
pub proof fn lemma_merge_changes_only_present_server(
    c: ServerBuilderConfig,
    p: PartialServerBuilderConfig,
)
    ensures
        p.server_id is None ==> spec_merge_server(c, p).server_id == c.server_id,
        p.server_id matches Some(s) ==> spec_merge_server(c, p).server_id == s,
{
}

} // verus!


