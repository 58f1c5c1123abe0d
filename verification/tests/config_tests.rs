use storify::cli::parse_validated_path;
use storify::config::{
    env_any, env_any_required, key_list, load_cloud_config, load_fs_config, load_hdfs_config,
    provider_name, s3_like_keys, CloudValues, ProviderKeys,
};
use storify::constants::{
    CAT_CONFIRM_SIZE_THRESHOLD, DEFAULT_BUFFER_SIZE, DEFAULT_CHUNK_SIZE, DEFAULT_FS_ROOT,
    PROGRESS_UPDATE_INTERVAL,
};
use storify::error::Error;
use storify::storage::{operator_settings, OperatorSettings, StorageConfig, StorageProvider};

fn some(s: &str) -> Option<String> {
    Some(s.to_string())
}

#[test]
fn provider_names_are_read_in_any_case() {
    assert_eq!(StorageProvider::from_name("oss"), Ok(StorageProvider::Oss));
    assert_eq!(StorageProvider::from_name("OSS"), Ok(StorageProvider::Oss));
    assert_eq!(StorageProvider::from_name("s3"), Ok(StorageProvider::S3));
    assert_eq!(StorageProvider::from_name("MinIO"), Ok(StorageProvider::S3));
    assert_eq!(StorageProvider::from_name("cos"), Ok(StorageProvider::Cos));
    assert_eq!(StorageProvider::from_name("Fs"), Ok(StorageProvider::Fs));
    assert_eq!(StorageProvider::from_name("hdfs"), Ok(StorageProvider::Hdfs));
}

#[test]
fn unknown_provider_is_reported_as_given() {
    assert_eq!(
        StorageProvider::from_name("Azure"),
        Err(Error::UnsupportedProvider { provider: "Azure".to_string() })
    );
    assert!(StorageProvider::from_name("").is_err());
    assert!(StorageProvider::from_name("s33").is_err());
    assert!(StorageProvider::from_name("o\u{17f}s").is_err());
}

#[test]
fn constructors_fill_the_fields_of_their_provider() {
    let c = StorageConfig::oss("b".to_string(), "id".to_string(), "sec".to_string(), some("r"));
    assert_eq!(c.provider, StorageProvider::Oss);
    assert_eq!(c.bucket, "b");
    assert_eq!(c.access_key_id, some("id"));
    assert_eq!(c.access_key_secret, some("sec"));
    assert_eq!(c.region, some("r"));
    assert_eq!(c.endpoint, None);
    assert_eq!(c.root_path, None);
    assert_eq!(c.name_node, None);
    let c = StorageConfig::s3("b".to_string(), "id".to_string(), "sec".to_string(), None);
    assert_eq!(c.provider, StorageProvider::S3);
    assert_eq!(c.region, None);
    let c = StorageConfig::cos("b".to_string(), "id".to_string(), "sec".to_string(), None);
    assert_eq!(c.provider, StorageProvider::Cos);
    assert_eq!(c.access_key_id, some("id"));
    let c = StorageConfig::fs("/data".to_string());
    assert_eq!(c.provider, StorageProvider::Fs);
    assert_eq!(c.bucket, "local");
    assert_eq!(c.root_path, some("/data"));
    assert_eq!(c.access_key_id, None);
    let c = StorageConfig::hdfs("nn:8020".to_string(), "/".to_string());
    assert_eq!(c.provider, StorageProvider::Hdfs);
    assert_eq!(c.bucket, "hdfs");
    assert_eq!(c.name_node, some("nn:8020"));
    assert_eq!(c.root_path, some("/"));
}

#[test]
fn settings_take_defaults_where_nothing_is_configured() {
    let mut cos = StorageConfig::cos("b".to_string(), "id".to_string(), "sec".to_string(), None);
    assert_eq!(
        operator_settings(&cos, false),
        Ok(OperatorSettings::Cos {
            bucket: "b".to_string(),
            secret_id: some("id"),
            secret_key: some("sec"),
            endpoint: "https://cos.myqcloud.com".to_string(),
        })
    );
    cos.endpoint = some("https://example.test");
    match operator_settings(&cos, false) {
        Ok(OperatorSettings::Cos { endpoint, .. }) => assert_eq!(endpoint, "https://example.test"),
        other => panic!("unexpected {other:?}"),
    }
    let mut fs = StorageConfig::fs("/data".to_string());
    assert_eq!(
        operator_settings(&fs, false),
        Ok(OperatorSettings::Fs { root: "/data".to_string() })
    );
    fs.root_path = None;
    assert_eq!(operator_settings(&fs, false), Ok(OperatorSettings::Fs { root: "./".to_string() }));
}

#[test]
fn settings_of_s3_and_oss_pass_what_is_set() {
    let mut s3 = StorageConfig::s3("b".to_string(), "id".to_string(), "sec".to_string(), some("r"));
    s3.endpoint = some("http://minio:9000");
    assert_eq!(
        operator_settings(&s3, true),
        Ok(OperatorSettings::S3 {
            bucket: "b".to_string(),
            access_key_id: some("id"),
            secret_access_key: some("sec"),
            region: some("r"),
            endpoint: some("http://minio:9000"),
        })
    );
    let oss = StorageConfig::oss("b".to_string(), "id".to_string(), "sec".to_string(), some("r"));
    assert_eq!(
        operator_settings(&oss, true),
        Ok(OperatorSettings::Oss {
            bucket: "b".to_string(),
            access_key_id: some("id"),
            access_key_secret: some("sec"),
            endpoint: None,
        })
    );
}

#[test]
fn hdfs_needs_to_be_enabled() {
    let mut hdfs = StorageConfig::hdfs("nn".to_string(), "/r".to_string());
    assert_eq!(
        operator_settings(&hdfs, false),
        Err(Error::UnsupportedProvider { provider: "hdfs (feature disabled)".to_string() })
    );
    assert_eq!(
        operator_settings(&hdfs, true),
        Ok(OperatorSettings::Hdfs { root: "/r".to_string(), name_node: "nn".to_string() })
    );
    hdfs.root_path = None;
    hdfs.name_node = None;
    assert_eq!(
        operator_settings(&hdfs, true),
        Ok(OperatorSettings::Hdfs { root: "/".to_string(), name_node: String::new() })
    );
}

#[test]
fn names_of_the_settings_per_provider() {
    let oss = ProviderKeys::for_oss();
    assert_eq!(oss.bucket, vec!["STORAGE_BUCKET", "OSS_BUCKET"]);
    assert_eq!(oss.access_key_id, vec!["STORAGE_ACCESS_KEY_ID", "OSS_ACCESS_KEY_ID"]);
    assert_eq!(oss.secret_key, vec!["STORAGE_ACCESS_KEY_SECRET", "OSS_ACCESS_KEY_SECRET"]);
    assert_eq!(oss.region, vec!["STORAGE_REGION", "OSS_REGION"]);
    assert_eq!(oss.endpoint, vec!["STORAGE_ENDPOINT", "OSS_ENDPOINT"]);
    let aws = ProviderKeys::for_aws();
    assert_eq!(aws.bucket, vec!["STORAGE_BUCKET", "AWS_S3_BUCKET"]);
    assert_eq!(aws.secret_key, vec!["STORAGE_ACCESS_KEY_SECRET", "AWS_SECRET_ACCESS_KEY"]);
    assert_eq!(aws.endpoint, vec!["STORAGE_ENDPOINT"]);
    let minio = ProviderKeys::for_minio();
    assert_eq!(minio.access_key_id, vec!["STORAGE_ACCESS_KEY_ID", "MINIO_ACCESS_KEY"]);
    assert_eq!(minio.region, vec!["STORAGE_REGION", "MINIO_DEFAULT_REGION"]);
    assert_eq!(s3_like_keys("MINIO").bucket, vec!["STORAGE_BUCKET", "MINIO_BUCKET"]);
    assert_eq!(s3_like_keys("s3").bucket, vec!["STORAGE_BUCKET", "AWS_S3_BUCKET"]);
}

#[test]
fn first_name_with_a_value_wins() {
    assert_eq!(env_any(&vec![None, some("b"), some("c")]), some("b"));
    assert_eq!(env_any(&vec![some("a"), some("b")]), some("a"));
    assert_eq!(env_any(&vec![None, None]), None);
    assert_eq!(env_any(&Vec::new()), None);
}

#[test]
fn missing_required_setting_lists_all_its_names() {
    let keys = vec!["STORAGE_BUCKET", "OSS_BUCKET"];
    assert_eq!(key_list(&keys), "STORAGE_BUCKET or OSS_BUCKET");
    assert_eq!(
        env_any_required(&keys, &vec![None, None]),
        Err(Error::MissingEnvVar { key: "STORAGE_BUCKET or OSS_BUCKET".to_string() })
    );
    assert_eq!(env_any_required(&keys, &vec![None, some("b")]), Ok("b".to_string()));
    assert_eq!(key_list(&vec!["ONLY"]), "ONLY");
}

#[test]
fn cloud_configuration_from_looked_up_values() {
    let keys = ProviderKeys::for_oss();
    let values = CloudValues {
        bucket: vec![None, some("bk")],
        access_key_id: vec![some("id"), None],
        secret_key: vec![some("sec"), some("other")],
        region: vec![None, None],
        endpoint: vec![None, some("https://oss.test")],
    };
    let c = load_cloud_config(StorageProvider::Oss, &keys, &values).unwrap();
    assert_eq!(c.provider, StorageProvider::Oss);
    assert_eq!(c.bucket, "bk");
    assert_eq!(c.access_key_id, some("id"));
    assert_eq!(c.access_key_secret, some("sec"));
    assert_eq!(c.region, None);
    assert_eq!(c.endpoint, some("https://oss.test"));
    assert_eq!(c.root_path, None);
}

#[test]
fn cloud_configuration_reports_the_first_missing_setting() {
    let keys = ProviderKeys::for_aws();
    let values = CloudValues {
        bucket: vec![some("bk"), None],
        access_key_id: vec![None, None],
        secret_key: vec![None, None],
        region: vec![None, None],
        endpoint: vec![None],
    };
    match load_cloud_config(StorageProvider::S3, &keys, &values) {
        Err(e) => assert_eq!(
            e,
            Error::MissingEnvVar { key: "STORAGE_ACCESS_KEY_ID or AWS_ACCESS_KEY_ID".to_string() }
        ),
        Ok(c) => panic!("unexpected {c:?}"),
    }
}

#[test]
fn provider_defaults_to_oss() {
    assert_eq!(provider_name(None), "oss");
    assert_eq!(provider_name(some("fs")), "fs");
}

#[test]
fn file_system_and_hdfs_configuration() {
    assert_eq!(load_fs_config(None).root_path, some("./storage"));
    assert_eq!(load_fs_config(some("/d")).root_path, some("/d"));
    assert_eq!(DEFAULT_FS_ROOT, "./storage");
    let c = load_hdfs_config(some("nn"), None).unwrap();
    assert_eq!(c.name_node, some("nn"));
    assert_eq!(c.root_path, some("/"));
    match load_hdfs_config(None, some("/r")) {
        Err(e) => assert_eq!(e, Error::MissingEnvVar { key: "HDFS_NAME_NODE".to_string() }),
        Ok(c) => panic!("unexpected {c:?}"),
    }
}

#[test]
fn constants_have_their_documented_values() {
    assert_eq!(DEFAULT_BUFFER_SIZE, 8192);
    assert_eq!(DEFAULT_CHUNK_SIZE, 1024 * 1024);
    assert_eq!(PROGRESS_UPDATE_INTERVAL, 100);
    assert_eq!(CAT_CONFIRM_SIZE_THRESHOLD, 10 * 1024 * 1024);
}

#[test]
fn blank_path_arguments_are_refused() {
    assert_eq!(parse_validated_path("a/b"), Ok("a/b".to_string()));
    assert_eq!(parse_validated_path(" a "), Ok(" a ".to_string()));
    assert_eq!(parse_validated_path(""), Err(Error::InvalidPath { path: String::new() }));
    assert_eq!(
        parse_validated_path(" \t\n"),
        Err(Error::InvalidPath { path: " \t\n".to_string() })
    );
    assert!(parse_validated_path("\u{2003}\u{3000}").is_err());
    assert!(parse_validated_path("\u{200b}").is_ok());
}
