//! Building a configuration from the values of named settings.
//!
//! A setting can go by several names, and the first name that has a value
//! wins. Looking the names up is up to the caller; this module says which
//! names to look up for a provider, and builds the configuration from what
//! the lookups returned.

use vstd::prelude::*;
use vstd::string::*;
use crate::constants::DEFAULT_FS_ROOT;
use crate::entry::option_view;
use crate::error::{Error, ErrorView};
use crate::storage::{cloud_config, or_default, StorageConfig, StorageConfigView, StorageProvider};
use crate::text::{joined, lowercase_equals, reads_as};

verus! {

/// The names under which the settings of a cloud provider are looked up, in
/// the order they are tried.
#[derive(Debug)]
pub struct ProviderKeys {
    pub bucket: Vec<&'static str>,
    pub access_key_id: Vec<&'static str>,
    pub secret_key: Vec<&'static str>,
    pub region: Vec<&'static str>,
    pub endpoint: Vec<&'static str>,
}

/// The texts of a list of names.
pub open spec fn names(v: Seq<&'static str>) -> Seq<Seq<char>> {
    Seq::new(v.len(), |i: int| v[i]@)
}

/// The values of a list of lookups.
pub open spec fn lookups(v: Seq<Option<String>>) -> Seq<Option<Seq<char>>> {
    Seq::new(v.len(), |i: int| option_view(v[i]))
}

/// The first value that is set, if any.
pub open spec fn first_set(values: Seq<Option<Seq<char>>>) -> Option<Seq<char>>
    decreases values.len(),
{
    if values.len() == 0 {
        None
    } else if values[0] is Some {
        values[0]
    } else {
        first_set(values.drop_first())
    }
}

/// A list of two names.
fn pair(first: &'static str, second: &'static str) -> (r: Vec<&'static str>)
    ensures
        names(r@) == seq![first@, second@],
{
    let mut v: Vec<&'static str> = Vec::new();
    v.push(first);
    v.push(second);
    assert(names(v@) =~= seq![first@, second@]);
    v
}

/// A list of one name.
fn single(only: &'static str) -> (r: Vec<&'static str>)
    ensures
        names(r@) == seq![only@],
{
    let mut v: Vec<&'static str> = Vec::new();
    v.push(only);
    assert(names(v@) =~= seq![only@]);
    v
}

impl ProviderKeys {
    /// The names for Alibaba OSS.
    pub fn for_oss() -> (r: ProviderKeys)
        ensures
            names(r.bucket@) == seq!["STORAGE_BUCKET"@, "OSS_BUCKET"@],
            names(r.access_key_id@) == seq!["STORAGE_ACCESS_KEY_ID"@, "OSS_ACCESS_KEY_ID"@],
            names(r.secret_key@) == seq!["STORAGE_ACCESS_KEY_SECRET"@, "OSS_ACCESS_KEY_SECRET"@],
            names(r.region@) == seq!["STORAGE_REGION"@, "OSS_REGION"@],
            names(r.endpoint@) == seq!["STORAGE_ENDPOINT"@, "OSS_ENDPOINT"@],
    {
        ProviderKeys {
            bucket: pair("STORAGE_BUCKET", "OSS_BUCKET"),
            access_key_id: pair("STORAGE_ACCESS_KEY_ID", "OSS_ACCESS_KEY_ID"),
            secret_key: pair("STORAGE_ACCESS_KEY_SECRET", "OSS_ACCESS_KEY_SECRET"),
            region: pair("STORAGE_REGION", "OSS_REGION"),
            endpoint: pair("STORAGE_ENDPOINT", "OSS_ENDPOINT"),
        }
    }

    /// The names for AWS S3.
    pub fn for_aws() -> (r: ProviderKeys)
        ensures
            names(r.bucket@) == seq!["STORAGE_BUCKET"@, "AWS_S3_BUCKET"@],
            names(r.access_key_id@) == seq!["STORAGE_ACCESS_KEY_ID"@, "AWS_ACCESS_KEY_ID"@],
            names(r.secret_key@) == seq!["STORAGE_ACCESS_KEY_SECRET"@, "AWS_SECRET_ACCESS_KEY"@],
            names(r.region@) == seq!["STORAGE_REGION"@, "AWS_DEFAULT_REGION"@],
            names(r.endpoint@) == seq!["STORAGE_ENDPOINT"@],
    {
        ProviderKeys {
            bucket: pair("STORAGE_BUCKET", "AWS_S3_BUCKET"),
            access_key_id: pair("STORAGE_ACCESS_KEY_ID", "AWS_ACCESS_KEY_ID"),
            secret_key: pair("STORAGE_ACCESS_KEY_SECRET", "AWS_SECRET_ACCESS_KEY"),
            region: pair("STORAGE_REGION", "AWS_DEFAULT_REGION"),
            endpoint: single("STORAGE_ENDPOINT"),
        }
    }

    /// The names for MinIO.
    pub fn for_minio() -> (r: ProviderKeys)
        ensures
            names(r.bucket@) == seq!["STORAGE_BUCKET"@, "MINIO_BUCKET"@],
            names(r.access_key_id@) == seq!["STORAGE_ACCESS_KEY_ID"@, "MINIO_ACCESS_KEY"@],
            names(r.secret_key@) == seq!["STORAGE_ACCESS_KEY_SECRET"@, "MINIO_SECRET_KEY"@],
            names(r.region@) == seq!["STORAGE_REGION"@, "MINIO_DEFAULT_REGION"@],
            names(r.endpoint@) == seq!["STORAGE_ENDPOINT"@, "MINIO_ENDPOINT"@],
    {
        ProviderKeys {
            bucket: pair("STORAGE_BUCKET", "MINIO_BUCKET"),
            access_key_id: pair("STORAGE_ACCESS_KEY_ID", "MINIO_ACCESS_KEY"),
            secret_key: pair("STORAGE_ACCESS_KEY_SECRET", "MINIO_SECRET_KEY"),
            region: pair("STORAGE_REGION", "MINIO_DEFAULT_REGION"),
            endpoint: pair("STORAGE_ENDPOINT", "MINIO_ENDPOINT"),
        }
    }
}

/// The names for a provider that speaks the S3 protocol: those of MinIO if
/// the provider was named `minio`, in any case of letters, else those of AWS.
pub fn s3_like_keys(provider_str: &str) -> (r: ProviderKeys)
    ensures
        names(r.bucket@) == if reads_as(provider_str@, "minio"@) {
            seq!["STORAGE_BUCKET"@, "MINIO_BUCKET"@]
        } else {
            seq!["STORAGE_BUCKET"@, "AWS_S3_BUCKET"@]
        },
        names(r.endpoint@) == if reads_as(provider_str@, "minio"@) {
            seq!["STORAGE_ENDPOINT"@, "MINIO_ENDPOINT"@]
        } else {
            seq!["STORAGE_ENDPOINT"@]
        },
        names(r.access_key_id@) == if reads_as(provider_str@, "minio"@) {
            seq!["STORAGE_ACCESS_KEY_ID"@, "MINIO_ACCESS_KEY"@]
        } else {
            seq!["STORAGE_ACCESS_KEY_ID"@, "AWS_ACCESS_KEY_ID"@]
        },
        names(r.secret_key@) == if reads_as(provider_str@, "minio"@) {
            seq!["STORAGE_ACCESS_KEY_SECRET"@, "MINIO_SECRET_KEY"@]
        } else {
            seq!["STORAGE_ACCESS_KEY_SECRET"@, "AWS_SECRET_ACCESS_KEY"@]
        },
        names(r.region@) == if reads_as(provider_str@, "minio"@) {
            seq!["STORAGE_REGION"@, "MINIO_DEFAULT_REGION"@]
        } else {
            seq!["STORAGE_REGION"@, "AWS_DEFAULT_REGION"@]
        },
{
    if lowercase_equals(provider_str, "minio") {
        ProviderKeys::for_minio()
    } else {
        ProviderKeys::for_aws()
    }
}

/// The value of the first name that has one. `values` holds what looking up
/// each name returned, in the order of the names.
pub fn env_any(values: &Vec<Option<String>>) -> (r: Option<String>)
    ensures
        option_view(r) == first_set(lookups(values@)),
{
    let ghost all = lookups(values@);
    let mut i: usize = 0;
    assert(all.skip(0) =~= all);
    while i < values.len()
        invariant
            i <= values.len(),
            all == lookups(values@),
            first_set(all) == first_set(all.skip(i as int)),
        decreases values.len() - i,
    {
        proof {
            assert(all.skip(i as int)[0] == option_view(values@[i as int]));
            assert(all.skip(i as int).drop_first() =~= all.skip(i + 1));
        }
        match &values[i] {
            Some(v) => {
                return Some(v.clone());
            },
            None => {},
        }
        i += 1;
    }
    assert(all.skip(i as int).len() == 0);
    None
}

/// The names of a setting as they appear in a failure: separated by ` or `.
pub fn key_list(keys: &Vec<&'static str>) -> (r: String)
    ensures
        r@ == joined(names(keys@), " or "@),
{
    let ghost all = names(keys@);
    let mut r = String::new();
    let mut i: usize = 0;
    assert(all.take(0) =~= Seq::<Seq<char>>::empty());
    while i < keys.len()
        invariant
            i <= keys.len(),
            all == names(keys@),
            r@ == joined(all.take(i as int), " or "@),
        decreases keys.len() - i,
    {
        proof {
            assert(all.take(i + 1).drop_last() =~= all.take(i as int));
            assert(all.take(i + 1).last() == keys@[i as int]@);
        }
        if i > 0 {
            r.append(" or ");
        }
        r.append(keys[i]);
        i += 1;
        assert(r@ =~= joined(all.take(i as int), " or "@));
    }
    assert(all.take(keys.len() as int) =~= all);
    r
}

/// The value of a setting that must be set: that of the first name that has
/// one, or a failure that lists all names.
pub fn env_any_required(keys: &Vec<&'static str>, values: &Vec<Option<String>>) -> (r: Result<
    String,
    Error,
>)
    ensures
        match r {
            Ok(v) => first_set(lookups(values@)) == Some(v@),
            Err(e) => first_set(lookups(values@)) is None && e@ == (ErrorView::MissingEnvVar {
                key: joined(names(keys@), " or "@),
            }),
        },
{
    match env_any(values) {
        Some(v) => Ok(v),
        None => Err(Error::MissingEnvVar { key: key_list(keys) }),
    }
}

/// What looking up the names of a cloud provider's settings returned, per
/// setting, in the order of the names.
#[derive(Debug)]
pub struct CloudValues {
    pub bucket: Vec<Option<String>>,
    pub access_key_id: Vec<Option<String>>,
    pub secret_key: Vec<Option<String>>,
    pub region: Vec<Option<String>>,
    pub endpoint: Vec<Option<String>>,
}

/// The configuration of a cloud provider, or the first required setting that
/// is missing: bucket, then key id, then secret.
pub open spec fn cloud_config_from(
    provider: StorageProvider,
    keys: ProviderKeys,
    values: CloudValues,
) -> Result<StorageConfigView, ErrorView> {
    let bucket = first_set(lookups(values.bucket@));
    let key_id = first_set(lookups(values.access_key_id@));
    let secret = first_set(lookups(values.secret_key@));
    if bucket is None {
        Err(ErrorView::MissingEnvVar { key: joined(names(keys.bucket@), " or "@) })
    } else if key_id is None {
        Err(ErrorView::MissingEnvVar { key: joined(names(keys.access_key_id@), " or "@) })
    } else if secret is None {
        Err(ErrorView::MissingEnvVar { key: joined(names(keys.secret_key@), " or "@) })
    } else {
        Ok(
            StorageConfigView {
                endpoint: first_set(lookups(values.endpoint@)),
                ..cloud_config(
                    provider,
                    bucket->Some_0,
                    key_id->Some_0,
                    secret->Some_0,
                    first_set(lookups(values.region@)),
                )
            },
        )
    }
}

/// Builds the configuration of a cloud provider from the values of its
/// settings.
pub fn load_cloud_config(provider: StorageProvider, keys: &ProviderKeys, values: &CloudValues) -> (r:
    Result<StorageConfig, Error>)
    ensures
        match r {
            Ok(c) => cloud_config_from(provider, *keys, *values) == Ok::<
                StorageConfigView,
                ErrorView,
            >(c@),
            Err(e) => cloud_config_from(provider, *keys, *values) == Err::<
                StorageConfigView,
                ErrorView,
            >(e@),
        },
{
    let bucket = match env_any_required(&keys.bucket, &values.bucket) {
        Ok(v) => v,
        Err(e) => {
            return Err(e);
        },
    };
    let access_key_id = match env_any_required(&keys.access_key_id, &values.access_key_id) {
        Ok(v) => v,
        Err(e) => {
            return Err(e);
        },
    };
    let secret_key = match env_any_required(&keys.secret_key, &values.secret_key) {
        Ok(v) => v,
        Err(e) => {
            return Err(e);
        },
    };
    let region = env_any(&values.region);
    let endpoint = env_any(&values.endpoint);
    Ok(
        StorageConfig {
            provider,
            bucket,
            access_key_id: Some(access_key_id),
            access_key_secret: Some(secret_key),
            endpoint,
            region,
            root_path: None,
            name_node: None,
        },
    )
}

/// The name of the provider to use: the one that is set, or `oss`.
pub fn provider_name(value: Option<String>) -> (r: String)
    ensures
        r@ == or_default(option_view(value), "oss"@),
{
    match value {
        Some(v) => v,
        None => String::from_str("oss"),
    }
}

/// Builds the configuration of the local file system provider: rooted at the
/// given path, or at the default root.
pub fn load_fs_config(root_path: Option<String>) -> (r: StorageConfig)
    ensures
        r@.provider == StorageProvider::Fs,
        r@.root_path == Some(or_default(option_view(root_path), DEFAULT_FS_ROOT@)),
        r@.bucket == "local"@,
        r@.access_key_id is None && r@.access_key_secret is None && r@.endpoint is None
            && r@.region is None && r@.name_node is None,
{
    let root = match root_path {
        Some(p) => p,
        None => String::from_str(DEFAULT_FS_ROOT),
    };
    StorageConfig::fs(root)
}

/// Builds the configuration of HDFS. The name node must be set; the root
/// defaults to `/`.
pub fn load_hdfs_config(name_node: Option<String>, root_path: Option<String>) -> (r: Result<
    StorageConfig,
    Error,
>)
    ensures
        match r {
            Ok(c) => name_node is Some && c@.provider == StorageProvider::Hdfs && c@.name_node
                == option_view(name_node) && c@.root_path == Some(
                or_default(option_view(root_path), "/"@),
            ) && c@.bucket == "hdfs"@ && c@.access_key_id is None && c@.access_key_secret is None
                && c@.endpoint is None && c@.region is None,
            Err(e) => name_node is None && e@ == (ErrorView::MissingEnvVar {
                key: "HDFS_NAME_NODE"@,
            }),
        },
{
    match name_node {
        None => Err(Error::MissingEnvVar { key: String::from_str("HDFS_NAME_NODE") }),
        Some(node) => {
            let root = match root_path {
                Some(p) => p,
                None => String::from_str("/"),
            };
            Ok(StorageConfig::hdfs(node, root))
        },
    }
}

/// The first value that is set stands at a position before which nothing is
/// set; if nothing is set at all, there is none.
pub proof fn lemma_first_set_is_first(values: Seq<Option<Seq<char>>>)
    ensures
        first_set(values) is None <==> forall|i: int|
            0 <= i < values.len() ==> (#[trigger] values[i]) is None,
        first_set(values) is Some ==> exists|k: int|
            0 <= k < values.len() && #[trigger] values[k] == first_set(values) && forall|i: int|
                0 <= i < k ==> (#[trigger] values[i]) is None,
    decreases values.len(),
{
    if values.len() > 0 {
        if values[0] is Some {
            assert(values[0] == first_set(values));
        } else {
            let rest = values.drop_first();
            lemma_first_set_is_first(rest);
            if first_set(rest) is Some {
                let k = choose|k: int|
                    0 <= k < rest.len() && #[trigger] rest[k] == first_set(rest) && forall|i: int|
                        0 <= i < k ==> (#[trigger] rest[i]) is None;
                assert(values[k + 1] == rest[k]);
                assert forall|i: int| 0 <= i < k + 1 implies (#[trigger] values[i]) is None by {
                    if i > 0 {
                        assert(values[i] == rest[i - 1]);
                    }
                }
            } else {
                assert forall|i: int| 0 <= i < values.len() implies (#[trigger] values[i]) is None by {
                    if i > 0 {
                        assert(values[i] == rest[i - 1]);
                    }
                }
            }
            if forall|i: int| 0 <= i < values.len() ==> (#[trigger] values[i]) is None {
                assert forall|i: int| 0 <= i < rest.len() implies (#[trigger] rest[i]) is None by {
                    assert(rest[i] == values[i + 1]);
                }
            }
        }
    }
}

} // verus!
