use komodo_core::builder::{
    AwsBuilderConfig, BuilderConfig, BuilderConfigDiff, PartialAwsBuilderConfig,
    PartialBuilderConfig, PartialServerBuilderConfig, PartialUrlBuilderConfig,
    ServerBuilderConfig, UrlBuilderConfig, aws_default_instance_type, aws_default_region,
    aws_default_volume_gb, default_address, default_port, default_use_https,
};
use komodo_core::config::{GitProvider, StringOrList, coerce_string_list};

fn partial_aws(region: Option<&str>) -> PartialAwsBuilderConfig {
    let mut p = PartialAwsBuilderConfig::default();
    p.region = region.map(String::from);
    p
}

#[test]
fn aws_defaults_match_documentation() {
    let c = AwsBuilderConfig::default();
    assert_eq!(c.region, "us-east-1");
    assert_eq!(c.instance_type, "c5.2xlarge");
    assert_eq!(c.volume_gb, 20);
    assert_eq!(c.port, 8120);
    assert!(c.use_https);
    assert_eq!(c.ami_id, "");
    assert!(c.security_group_ids.is_empty());
    assert!(c.git_providers.is_empty());
    assert!(c.secrets.is_empty());
}

#[test]
fn default_helpers_match_documentation() {
    assert_eq!(default_address(), "https://periphery:8120");
    assert_eq!(aws_default_region(), "us-east-1");
    assert_eq!(aws_default_instance_type(), "c5.2xlarge");
    assert_eq!(aws_default_volume_gb(), 20);
    assert_eq!(default_port(), 8120);
    assert!(default_use_https());
}

#[test]
fn create_aws_builder_with_only_region_set() {
    let partial = PartialBuilderConfig::Aws(partial_aws(Some("eu-west-1")));
    let config = BuilderConfig::from(partial);
    match config {
        BuilderConfig::Aws(c) => {
            assert_eq!(c.region, "eu-west-1");
            assert_eq!(c.instance_type, "c5.2xlarge");
            assert_eq!(c.volume_gb, 20);
            assert_eq!(c.port, 8120);
            assert!(c.use_https);
        }
        _ => panic!("expected an aws config"),
    }
}

#[test]
fn update_url_builder_to_server_variant_discards_url_fields() {
    let base = BuilderConfig::Url(UrlBuilderConfig {
        address: String::from("https://10.0.0.2:8120"),
        passkey: String::from("SECRET-REDACTED"),
    });
    let partial = PartialBuilderConfig::Server(PartialServerBuilderConfig {
        server_id: Some(String::from("abc")),
    });
    let merged = base.merge_partial(partial);
    match merged {
        BuilderConfig::Server(c) => assert_eq!(c.server_id, "abc"),
        _ => panic!("expected a server config"),
    }
}

#[test]
fn merge_same_variant_changes_only_present_fields() {
    let mut base = AwsBuilderConfig::default();
    base.ami_id = String::from("ami-1234");
    base.secrets = vec![String::from("token")];
    let mut partial = partial_aws(Some("ap-south-1"));
    partial.port = Some(9000);
    let merged = BuilderConfig::Aws(base.clone()).merge_partial(PartialBuilderConfig::Aws(partial));
    match merged {
        BuilderConfig::Aws(c) => {
            assert_eq!(c.region, "ap-south-1");
            assert_eq!(c.port, 9000);
            assert_eq!(c.ami_id, "ami-1234");
            assert_eq!(c.secrets, vec![String::from("token")]);
            assert_eq!(c.instance_type, base.instance_type);
            assert_eq!(c.volume_gb, base.volume_gb);
        }
        _ => panic!("expected an aws config"),
    }
}

#[test]
fn diff_lists_exactly_the_changed_fields() {
    let base = AwsBuilderConfig::default();
    let mut partial = partial_aws(Some("eu-central-1"));
    partial.instance_type = Some(String::from("c5.2xlarge"));
    let diff = BuilderConfig::Aws(base).partial_diff(PartialBuilderConfig::Aws(partial));
    match &diff {
        BuilderConfigDiff::Aws(d) => {
            assert_eq!(d.region.as_deref(), Some("eu-central-1"));
            assert!(d.instance_type.is_none());
            assert!(d.volume_gb.is_none());
        }
        _ => panic!("expected an aws diff"),
    }
    let names: Vec<String> = diff.iter_field_diffs().into_iter().map(|f| f.field).collect();
    assert_eq!(names, vec![String::from("region")]);
    assert!(!diff.is_none());
}

#[test]
fn diff_of_unchanged_partial_is_none() {
    let base = UrlBuilderConfig {
        address: String::from("https://periphery:8120"),
        passkey: String::new(),
    };
    let partial = PartialUrlBuilderConfig {
        address: Some(String::from("https://periphery:8120")),
        passkey: None,
    };
    let diff = BuilderConfig::Url(base).partial_diff(PartialBuilderConfig::Url(partial));
    assert!(diff.is_none());
    assert!(diff.iter_field_diffs().is_empty());
}

#[test]
fn cross_variant_diff_compares_against_target_default() {
    let base = BuilderConfig::Url(UrlBuilderConfig {
        address: String::from("https://somewhere"),
        passkey: String::new(),
    });
    let mut partial = partial_aws(Some("us-east-1"));
    partial.volume_gb = Some(50);
    let diff = base.partial_diff(PartialBuilderConfig::Aws(partial));
    match diff {
        BuilderConfigDiff::Aws(d) => {
            // the region equals the aws default, so it is not reported
            assert!(d.region.is_none());
            assert_eq!(d.volume_gb, Some(50));
        }
        _ => panic!("expected an aws diff"),
    }
}

#[test]
fn cross_variant_merge_is_independent_of_the_base() {
    let base_a = BuilderConfig::Url(UrlBuilderConfig {
        address: String::from("https://a"),
        passkey: String::from("SECRET-REDACTED"),
    });
    let base_b = BuilderConfig::Aws(AwsBuilderConfig::default());
    let partial = PartialServerBuilderConfig { server_id: Some(String::from("srv-1")) };
    let merged_a = base_a.merge_partial(PartialBuilderConfig::Server(partial.clone()));
    let merged_b = base_b.merge_partial(PartialBuilderConfig::Server(partial));
    assert_eq!(merged_a, merged_b);
}

#[test]
fn merge_of_lossless_partial_is_identity() {
    let mut aws = AwsBuilderConfig::default();
    aws.region = String::from("sa-east-1");
    aws.git_providers = vec![GitProvider { domain: String::from("github.com") }];
    let config = BuilderConfig::Aws(aws);
    let partial = PartialBuilderConfig::from(config.clone());
    assert!(!partial.is_none());
    let merged = config.clone().merge_partial(partial);
    assert_eq!(merged, config);
}

#[test]
fn empty_partial_is_reported_empty_and_merges_to_identity() {
    let empty = PartialBuilderConfig::default();
    assert!(empty.is_none());
    let config = BuilderConfig::Url(UrlBuilderConfig {
        address: String::from("https://x"),
        passkey: String::new(),
    });
    let merged = config.clone().merge_partial(PartialBuilderConfig::Url(
        PartialUrlBuilderConfig::default(),
    ));
    assert_eq!(merged, config);
}

#[test]
fn url_builder_requires_its_fields() {
    let built = UrlBuilderConfig::builder()
        .address(String::from("https://p:8120"))
        .passkey(String::from("SECRET-REDACTED"))
        .build()
        .unwrap();
    assert_eq!(built.address, "https://p:8120");
    let missing = UrlBuilderConfig::builder().build();
    assert_eq!(missing.unwrap_err().field, "address");
    let missing_passkey = UrlBuilderConfig::builder().address(String::from("a")).build();
    assert_eq!(missing_passkey.unwrap_err().field, "passkey");
}

#[test]
fn server_builder_requires_the_server_id() {
    let built = ServerBuilderConfig::builder().server_id(String::from("s1")).build().unwrap();
    assert_eq!(built.server_id, "s1");
    assert_eq!(ServerBuilderConfig::builder().build().unwrap_err().field, "server_id");
}

#[test]
fn aws_builder_falls_back_to_defaults() {
    let built = AwsBuilderConfig::builder().region(String::from("eu-west-1")).build().unwrap();
    assert_eq!(built.region, "eu-west-1");
    assert_eq!(built.instance_type, "c5.2xlarge");
    assert_eq!(built.volume_gb, 20);
    assert_eq!(built.port, 8120);
    assert!(built.use_https);
}

#[test]
fn from_diff_turns_a_diff_back_into_a_partial() {
    let base = BuilderConfig::Server(ServerBuilderConfig { server_id: String::from("one") });
    let partial = PartialBuilderConfig::Server(PartialServerBuilderConfig {
        server_id: Some(String::from("two")),
    });
    let diff = base.partial_diff(partial);
    let back = PartialBuilderConfig::from_diff(diff);
    match back {
        PartialBuilderConfig::Server(p) => assert_eq!(p.server_id.as_deref(), Some("two")),
        _ => panic!("expected a server partial"),
    }
}

#[test]
fn scalar_or_list_input_coerces_to_a_list() {
    let one = coerce_string_list(StringOrList::One(String::from("sg-1")));
    assert_eq!(one, vec![String::from("sg-1")]);
    let many = coerce_string_list(StringOrList::Many(vec![
        String::from("sg-1"),
        String::from("sg-2"),
    ]));
    assert_eq!(many.len(), 2);
}
