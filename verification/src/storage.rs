//! Providers and their configuration.

use vstd::prelude::*;
use vstd::string::*;
use crate::entry::option_view;
use crate::error::{Error, ErrorView};
use crate::text::{clone_option, lowercase_equals, reads_as};

verus! {

/// The storage providers the tool can talk to.
#[derive(Debug, Clone, Copy, PartialEq, Eq, Structural)]
pub enum StorageProvider {
    Oss,
    S3,
    Cos,
    Fs,
    Hdfs,
}

/// How a command renders a machine-readable result.
#[derive(Debug, Clone, Copy, PartialEq, Eq, Structural)]
pub enum OutputFormat {
    /// Lines for people.
    Human,
    /// `key=value` lines.
    Raw,
    /// One line of JSON.
    Json,
}

/// The provider a name stands for, if any. The case of ASCII letters is
/// ignored; `minio` is served by the S3 provider.
pub open spec fn provider_named(name: Seq<char>) -> Option<StorageProvider> {
    if reads_as(name, "oss"@) {
        Some(StorageProvider::Oss)
    } else if reads_as(name, "s3"@) || reads_as(name, "minio"@) {
        Some(StorageProvider::S3)
    } else if reads_as(name, "cos"@) {
        Some(StorageProvider::Cos)
    } else if reads_as(name, "fs"@) {
        Some(StorageProvider::Fs)
    } else if reads_as(name, "hdfs"@) {
        Some(StorageProvider::Hdfs)
    } else {
        None
    }
}

impl StorageProvider {
    /// Reads a provider's name. An unknown name is reported back in the
    /// error, as it was given.
    pub fn from_name(name: &str) -> (r: Result<StorageProvider, Error>)
        ensures
            match r {
                Ok(p) => provider_named(name@) == Some(p),
                Err(e) => provider_named(name@) is None && e@ == (ErrorView::UnsupportedProvider {
                    provider: name@,
                }),
            },
    {
        if lowercase_equals(name, "oss") {
            Ok(StorageProvider::Oss)
        } else if lowercase_equals(name, "s3") || lowercase_equals(name, "minio") {
            Ok(StorageProvider::S3)
        } else if lowercase_equals(name, "cos") {
            Ok(StorageProvider::Cos)
        } else if lowercase_equals(name, "fs") {
            Ok(StorageProvider::Fs)
        } else if lowercase_equals(name, "hdfs") {
            Ok(StorageProvider::Hdfs)
        } else {
            Err(Error::UnsupportedProvider { provider: String::from_str(name) })
        }
    }
}

impl std::str::FromStr for StorageProvider {
    type Err = Error;

    /// Reads a provider's name, as [`StorageProvider::from_name`] does: the
    /// provider that the name stands for, or the name back in the error.
    fn from_str(s: &str) -> (r: Result<StorageProvider, Error>)
        ensures
            match r {
                Ok(p) => provider_named(s@) == Some(p),
                Err(e) => provider_named(s@) is None && e@ == (ErrorView::UnsupportedProvider {
                    provider: s@,
                }),
            },
    {
        StorageProvider::from_name(s)
    }
}

/// One configuration for every provider. Which fields matter depends on the
/// provider.
#[derive(Debug, Clone)]
pub struct StorageConfig {
    pub provider: StorageProvider,
    pub bucket: String,
    pub access_key_id: Option<String>,
    pub access_key_secret: Option<String>,
    pub endpoint: Option<String>,
    pub region: Option<String>,
    pub root_path: Option<String>,
    pub name_node: Option<String>,
}

/// The mathematical value of a [`StorageConfig`].
pub struct StorageConfigView {
    pub provider: StorageProvider,
    pub bucket: Seq<char>,
    pub access_key_id: Option<Seq<char>>,
    pub access_key_secret: Option<Seq<char>>,
    pub endpoint: Option<Seq<char>>,
    pub region: Option<Seq<char>>,
    pub root_path: Option<Seq<char>>,
    pub name_node: Option<Seq<char>>,
}

impl View for StorageConfig {
    type V = StorageConfigView;

    open spec fn view(&self) -> StorageConfigView {
        StorageConfigView {
            provider: self.provider,
            bucket: self.bucket@,
            access_key_id: option_view(self.access_key_id),
            access_key_secret: option_view(self.access_key_secret),
            endpoint: option_view(self.endpoint),
            region: option_view(self.region),
            root_path: option_view(self.root_path),
            name_node: option_view(self.name_node),
        }
    }
}

/// The configuration of a cloud provider that is addressed by bucket and a
/// pair of keys.
pub open spec fn cloud_config(
    provider: StorageProvider,
    bucket: Seq<char>,
    key_id: Seq<char>,
    key_secret: Seq<char>,
    region: Option<Seq<char>>,
) -> StorageConfigView {
    StorageConfigView {
        provider,
        bucket,
        access_key_id: Some(key_id),
        access_key_secret: Some(key_secret),
        endpoint: None,
        region,
        root_path: None,
        name_node: None,
    }
}

impl StorageConfig {
    /// A configuration for Alibaba OSS.
    pub fn oss(
        bucket: String,
        access_key_id: String,
        access_key_secret: String,
        region: Option<String>,
    ) -> (r: StorageConfig)
        ensures
            r@ == cloud_config(
                StorageProvider::Oss,
                bucket@,
                access_key_id@,
                access_key_secret@,
                option_view(region),
            ),
    {
        StorageConfig {
            provider: StorageProvider::Oss,
            bucket,
            access_key_id: Some(access_key_id),
            access_key_secret: Some(access_key_secret),
            endpoint: None,
            region,
            root_path: None,
            name_node: None,
        }
    }

    /// A configuration for S3 and what speaks its protocol.
    pub fn s3(
        bucket: String,
        access_key_id: String,
        secret_access_key: String,
        region: Option<String>,
    ) -> (r: StorageConfig)
        ensures
            r@ == cloud_config(
                StorageProvider::S3,
                bucket@,
                access_key_id@,
                secret_access_key@,
                option_view(region),
            ),
    {
        StorageConfig {
            provider: StorageProvider::S3,
            bucket,
            access_key_id: Some(access_key_id),
            access_key_secret: Some(secret_access_key),
            endpoint: None,
            region,
            root_path: None,
            name_node: None,
        }
    }

    /// A configuration for Tencent COS.
    pub fn cos(bucket: String, secret_id: String, secret_key: String, region: Option<String>) -> (r:
        StorageConfig)
        ensures
            r@ == cloud_config(
                StorageProvider::Cos,
                bucket@,
                secret_id@,
                secret_key@,
                option_view(region),
            ),
    {
        StorageConfig {
            provider: StorageProvider::Cos,
            bucket,
            access_key_id: Some(secret_id),
            access_key_secret: Some(secret_key),
            endpoint: None,
            region,
            root_path: None,
            name_node: None,
        }
    }

    /// A configuration for a directory of the local file system.
    pub fn fs(root_path: String) -> (r: StorageConfig)
        ensures
            r@ == (StorageConfigView {
                provider: StorageProvider::Fs,
                bucket: "local"@,
                access_key_id: None,
                access_key_secret: None,
                endpoint: None,
                region: None,
                root_path: Some(root_path@),
                name_node: None,
            }),
    {
        StorageConfig {
            provider: StorageProvider::Fs,
            bucket: String::from_str("local"),
            access_key_id: None,
            access_key_secret: None,
            endpoint: None,
            region: None,
            root_path: Some(root_path),
            name_node: None,
        }
    }

    /// A configuration for HDFS. The bucket is a placeholder: HDFS has none.
    pub fn hdfs(name_node: String, root_path: String) -> (r: StorageConfig)
        ensures
            r@ == (StorageConfigView {
                provider: StorageProvider::Hdfs,
                bucket: "hdfs"@,
                access_key_id: None,
                access_key_secret: None,
                endpoint: None,
                region: None,
                root_path: Some(root_path@),
                name_node: Some(name_node@),
            }),
    {
        StorageConfig {
            provider: StorageProvider::Hdfs,
            bucket: String::from_str("hdfs"),
            access_key_id: None,
            access_key_secret: None,
            endpoint: None,
            region: None,
            root_path: Some(root_path),
            name_node: Some(name_node),
        }
    }
}

/// What a backend is built from, per provider: the settings that are applied,
/// with defaults filled in.
#[derive(Debug, PartialEq, Eq)]
#[allow(inconsistent_fields)]
pub enum OperatorSettings {
    Oss {
        bucket: String,
        access_key_id: Option<String>,
        access_key_secret: Option<String>,
        endpoint: Option<String>,
    },
    S3 {
        bucket: String,
        access_key_id: Option<String>,
        secret_access_key: Option<String>,
        region: Option<String>,
        endpoint: Option<String>,
    },
    Cos { bucket: String, secret_id: Option<String>, secret_key: Option<String>, endpoint: String },
    Fs { root: String },
    Hdfs { root: String, name_node: String },
}

/// The mathematical value of [`OperatorSettings`].
#[allow(inconsistent_fields)]
pub enum OperatorSettingsView {
    Oss {
        bucket: Seq<char>,
        access_key_id: Option<Seq<char>>,
        access_key_secret: Option<Seq<char>>,
        endpoint: Option<Seq<char>>,
    },
    S3 {
        bucket: Seq<char>,
        access_key_id: Option<Seq<char>>,
        secret_access_key: Option<Seq<char>>,
        region: Option<Seq<char>>,
        endpoint: Option<Seq<char>>,
    },
    Cos {
        bucket: Seq<char>,
        secret_id: Option<Seq<char>>,
        secret_key: Option<Seq<char>>,
        endpoint: Seq<char>,
    },
    Fs { root: Seq<char> },
    Hdfs { root: Seq<char>, name_node: Seq<char> },
}

impl View for OperatorSettings {
    type V = OperatorSettingsView;

    open spec fn view(&self) -> OperatorSettingsView {
        match self {
            OperatorSettings::Oss { bucket, access_key_id, access_key_secret, endpoint } => {
                OperatorSettingsView::Oss {
                    bucket: bucket@,
                    access_key_id: option_view(*access_key_id),
                    access_key_secret: option_view(*access_key_secret),
                    endpoint: option_view(*endpoint),
                }
            },
            OperatorSettings::S3 {
                bucket,
                access_key_id,
                secret_access_key,
                region,
                endpoint,
            } => OperatorSettingsView::S3 {
                bucket: bucket@,
                access_key_id: option_view(*access_key_id),
                secret_access_key: option_view(*secret_access_key),
                region: option_view(*region),
                endpoint: option_view(*endpoint),
            },
            OperatorSettings::Cos { bucket, secret_id, secret_key, endpoint } => {
                OperatorSettingsView::Cos {
                    bucket: bucket@,
                    secret_id: option_view(*secret_id),
                    secret_key: option_view(*secret_key),
                    endpoint: endpoint@,
                }
            },
            OperatorSettings::Fs { root } => OperatorSettingsView::Fs { root: root@ },
            OperatorSettings::Hdfs { root, name_node } => OperatorSettingsView::Hdfs {
                root: root@,
                name_node: name_node@,
            },
        }
    }
}

/// An optional text, or a default where it is absent.
pub open spec fn or_default(o: Option<Seq<char>>, default: Seq<char>) -> Seq<char> {
    match o {
        Some(s) => s,
        None => default,
    }
}

/// The settings a configuration asks for.
///
/// * COS without an endpoint goes to `https://cos.myqcloud.com`.
/// * The local file system without a root is rooted at `./`.
/// * HDFS without a root is rooted at `/`, and without a name node has an
///   empty one. Where HDFS support is not built in, the provider is
///   unsupported.
pub open spec fn settings_for(config: StorageConfigView, hdfs_enabled: bool) -> Result<
    OperatorSettingsView,
    ErrorView,
> {
    match config.provider {
        StorageProvider::Oss => Ok(
            OperatorSettingsView::Oss {
                bucket: config.bucket,
                access_key_id: config.access_key_id,
                access_key_secret: config.access_key_secret,
                endpoint: config.endpoint,
            },
        ),
        StorageProvider::S3 => Ok(
            OperatorSettingsView::S3 {
                bucket: config.bucket,
                access_key_id: config.access_key_id,
                secret_access_key: config.access_key_secret,
                region: config.region,
                endpoint: config.endpoint,
            },
        ),
        StorageProvider::Cos => Ok(
            OperatorSettingsView::Cos {
                bucket: config.bucket,
                secret_id: config.access_key_id,
                secret_key: config.access_key_secret,
                endpoint: or_default(config.endpoint, "https://cos.myqcloud.com"@),
            },
        ),
        StorageProvider::Fs => Ok(
            OperatorSettingsView::Fs { root: or_default(config.root_path, "./"@) },
        ),
        StorageProvider::Hdfs => if hdfs_enabled {
            Ok(
                OperatorSettingsView::Hdfs {
                    root: or_default(config.root_path, "/"@),
                    name_node: or_default(config.name_node, ""@),
                },
            )
        } else {
            Err(ErrorView::UnsupportedProvider { provider: "hdfs (feature disabled)"@ })
        },
    }
}

/// A copy of an optional text, or of the default where it is absent.
fn text_or(o: &Option<String>, default: &str) -> (r: String)
    ensures
        r@ == or_default(option_view(*o), default@),
{
    match o {
        Some(s) => s.clone(),
        None => String::from_str(default),
    }
}

/// Works out the settings to build a backend from.
pub fn operator_settings(config: &StorageConfig, hdfs_enabled: bool) -> (r: Result<
    OperatorSettings,
    Error,
>)
    ensures
        match r {
            Ok(s) => settings_for(config@, hdfs_enabled) == Ok::<OperatorSettingsView, ErrorView>(
                s@,
            ),
            Err(e) => settings_for(config@, hdfs_enabled) == Err::<
                OperatorSettingsView,
                ErrorView,
            >(e@),
        },
{
    match config.provider {
        StorageProvider::Oss => Ok(
            OperatorSettings::Oss {
                bucket: config.bucket.clone(),
                access_key_id: clone_option(&config.access_key_id),
                access_key_secret: clone_option(&config.access_key_secret),
                endpoint: clone_option(&config.endpoint),
            },
        ),
        StorageProvider::S3 => Ok(
            OperatorSettings::S3 {
                bucket: config.bucket.clone(),
                access_key_id: clone_option(&config.access_key_id),
                secret_access_key: clone_option(&config.access_key_secret),
                region: clone_option(&config.region),
                endpoint: clone_option(&config.endpoint),
            },
        ),
        StorageProvider::Cos => Ok(
            OperatorSettings::Cos {
                bucket: config.bucket.clone(),
                secret_id: clone_option(&config.access_key_id),
                secret_key: clone_option(&config.access_key_secret),
                endpoint: text_or(&config.endpoint, "https://cos.myqcloud.com"),
            },
        ),
        StorageProvider::Fs => Ok(OperatorSettings::Fs { root: text_or(&config.root_path, "./") }),
        StorageProvider::Hdfs => {
            if hdfs_enabled {
                Ok(
                    OperatorSettings::Hdfs {
                        root: text_or(&config.root_path, "/"),
                        name_node: text_or(&config.name_node, ""),
                    },
                )
            } else {
                Err(
                    Error::UnsupportedProvider {
                        provider: String::from_str("hdfs (feature disabled)"),
                    },
                )
            }
        },
    }
}

} // verus!
