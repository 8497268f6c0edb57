use ash::aws::aggregate::{discovered, discovery_request, update_sshconfig, Discovered};
use ash::aws::cache;
use ash::aws::credential::{instant_is_past, AwsConfig, Credential, Timestamp};
use ash::aws::delegation::{assume_role_request, assume_role_url, get_sts_creds, Reply};
use ash::aws::discovery::{
    describe_instances_request, describe_instances_url, hosts_from_document, update_from_aws_api,
};
use ash::aws::error::{Action, AwsError, Field, Reason, Store};
use ash::aws::profiles::{load_profiles, load_statics};
use ash::aws::resolver::{
    complete, delegated, get_credentials, get_env_credentials, get_shared_credentials, Environment,
    Source, Stores,
};
use ash::aws::sign::aws_sign;
use ash::name_map::NameMap;
use ash::xml::XmlDocument;

fn credential(profile: &str, token: &str, expiration: &str) -> Credential {
    Credential {
        profile: profile.to_string(),
        access_key: "AKIDEXAMPLE".to_string(),
        secret_key: "wJalrXUtnFEMI/K7MDENG+bPxRfiCYEXAMPLEKEY".to_string(),
        session_token: token.to_string(),
        region: "us-east-1".to_string(),
        expiration: expiration.to_string(),
    }
}

fn header<'a>(headers: &'a [(String, String)], name: &str) -> Option<&'a str> {
    headers.iter().find(|(k, _)| k == name).map(|(_, v)| v.as_str())
}

// 2015-08-30T12:36:00Z
const VECTOR_TIME: i64 = 1440938160;

#[test]
fn signing_gives_the_signature_of_the_published_example() {
    let signed = aws_sign(
        "https://example.amazonaws.com/",
        "service",
        &credential("default", "", ""),
        VECTOR_TIME,
    )
    .unwrap();
    assert_eq!(signed.url, "https://example.amazonaws.com/");
    assert_eq!(header(&signed.headers, "x-amz-date"), Some("20150830T123600Z"));
    assert_eq!(
        header(&signed.headers, "authorization"),
        Some("AWS4-HMAC-SHA256 Credential=AKIDEXAMPLE/20150830/us-east-1/service/aws4_request, SignedHeaders=host;x-amz-date, Signature=5fa00fa31553b73ebf1942676e86291e8372ff2a2260956d9b8aae1d763fbf31")
    );
    assert_eq!(header(&signed.headers, "x-amz-security-token"), None);
    assert_eq!(signed.headers.len(), 2);
}

#[test]
fn signing_attaches_the_session_token_only_when_there_is_one() {
    let with = aws_sign(
        "https://example.amazonaws.com/",
        "service",
        &credential("prod", "TOKEN123", ""),
        VECTOR_TIME,
    )
    .unwrap();
    assert_eq!(header(&with.headers, "x-amz-security-token"), Some("TOKEN123"));
    assert!(header(&with.headers, "authorization")
        .unwrap()
        .contains("SignedHeaders=host;x-amz-date;x-amz-security-token"));
    let without = aws_sign(
        "https://example.amazonaws.com/",
        "service",
        &credential("prod", "", ""),
        VECTOR_TIME,
    )
    .unwrap();
    assert_eq!(header(&without.headers, "x-amz-security-token"), None);
}

#[test]
fn signing_is_a_function_of_its_inputs() {
    let c = credential("p", "t", "");
    let a = aws_sign("https://ec2.eu-west-1.amazonaws.com/?Action=X", "ec2", &c, 1700000000).unwrap();
    let b = aws_sign("https://ec2.eu-west-1.amazonaws.com/?Action=X", "ec2", &c, 1700000000).unwrap();
    assert_eq!(a.headers, b.headers);
    let later = aws_sign("https://ec2.eu-west-1.amazonaws.com/?Action=X", "ec2", &c, 1700000001).unwrap();
    assert_ne!(a.headers, later.headers);
}

fn signing_fails(url: &str, service: &str, c: &Credential, time: i64) {
    match aws_sign(url, service, c, time) {
        Err(AwsError::Signing { profile }) => assert_eq!(profile, c.profile),
        _ => panic!("signing was expected to fail"),
    }
}

#[test]
fn signing_refuses_what_the_signer_cannot_take() {
    let c = credential("p", "", "");
    signing_fails("/only/a/path", "ec2", &c, VECTOR_TIME);
    signing_fails("*", "ec2", &c, VECTOR_TIME);
    signing_fails("", "ec2", &c, VECTOR_TIME);
    signing_fails("example.com", "ec2", &c, VECTOR_TIME);
    signing_fails("example.com/path?a=b", "ec2", &c, VECTOR_TIME);
    signing_fails("ftp://example.com/", "ec2", &c, VECTOR_TIME);
    signing_fails("https://", "ec2", &c, VECTOR_TIME);
    signing_fails("https:///path", "ec2", &c, VECTOR_TIME);
    assert!(aws_sign("http://example.com", "ec2", &c, VECTOR_TIME).is_ok());
    assert!(aws_sign("https://example.com/a/../b/./c?x=1&a=%20", "ec2", &c, VECTOR_TIME).is_ok());
    signing_fails("https://exa mple.com/", "ec2", &c, VECTOR_TIME);
    signing_fails("https://example.com/", "e\nc2", &c, VECTOR_TIME);
    signing_fails("https://example.com/", "ec2", &c, -1);
    signing_fails("https://example.com/", "ec2", &c, 253402300800);
    let mut odd = credential("p", "", "");
    odd.access_key = "AK\u{7f}".to_string();
    signing_fails("https://example.com/", "ec2", &odd, VECTOR_TIME);
    let mut far = credential("p", "", "");
    far.region = "eu\twest".to_string();
    signing_fails("https://example.com/", "ec2", &far, VECTOR_TIME);
    let mut token = credential("p", "bad\ntoken", "");
    token.region = "eu-west-1".to_string();
    signing_fails("https://example.com/", "ec2", &token, VECTOR_TIME);
    assert!(aws_sign("https://example.com/", "ec2", &c, 253402300799).is_ok());
    assert!(aws_sign("https://example.com/", "ec2", &c, 0).is_ok());
}

#[test]
fn expiry_is_strict_and_needs_an_instant() {
    let at = |secs: i64, nanos: u32| Timestamp { secs, nanos };
    // 2023-01-01T00:00:00Z is 1672531200
    let c = credential("p", "t", "2023-01-01T00:00:00Z");
    assert!(c.is_expired_at(at(1672531201, 0)));
    assert!(c.is_expired_at(at(1672531200, 1)));
    assert!(!c.is_expired_at(at(1672531200, 0)));
    assert!(!c.is_expired_at(at(1672531199, 999_999_999)));
    let offset = credential("p", "t", "2023-01-01T02:00:00+02:00");
    assert!(!offset.is_expired_at(at(1672531200, 0)));
    assert!(offset.is_expired_at(at(1672531200, 1)));
    let fraction = credential("p", "t", "2023-01-01T00:00:00.5Z");
    assert!(!fraction.is_expired_at(at(1672531200, 500_000_000)));
    assert!(fraction.is_expired_at(at(1672531200, 500_000_001)));
}

#[test]
fn an_expiration_that_is_no_instant_never_expires() {
    let far = Timestamp { secs: i64::MAX, nanos: 0 };
    assert!(!credential("p", "t", "").is_expired_at(far));
    assert!(!credential("p", "t", "tomorrow").is_expired_at(far));
    assert!(!credential("p", "t", "2023-13-45T00:00:00Z").is_expired_at(far));
    assert!(!credential("p", "t", "").is_expired());
    assert!(!credential("p", "t", "not a date").is_expired());
    assert!(credential("p", "t", "2001-01-01T00:00:00Z").is_expired());
    assert!(!credential("p", "t", "9000-01-01T00:00:00Z").is_expired());
    assert!(!instant_is_past(None, far));
    assert!(instant_is_past(Some(Timestamp { secs: 1, nanos: 5 }), Timestamp { secs: 1, nanos: 6 }));
    assert!(!instant_is_past(Some(Timestamp { secs: 1, nanos: 6 }), Timestamp { secs: 1, nanos: 6 }));
    assert!(!instant_is_past(Some(Timestamp { secs: 2, nanos: 0 }), Timestamp { secs: 1, nanos: 6 }));
}

#[test]
fn a_document_is_its_nodes_in_order() {
    let doc = XmlDocument::parse("<a><b>text</b><!--c--><d x='1'/>tail</a>").unwrap();
    assert_eq!(doc.len(), 7);
    let names: Vec<&str> = doc.nodes.iter().map(|n| n.name.as_str()).collect();
    assert_eq!(names, vec!["", "a", "b", "", "", "d", ""]);
    let parents: Vec<Option<usize>> = doc.nodes.iter().map(|n| n.parent).collect();
    assert_eq!(parents, vec![None, Some(0), Some(1), Some(2), Some(1), Some(1), Some(1)]);
    let elements: Vec<bool> = doc.nodes.iter().map(|n| n.element).collect();
    assert_eq!(elements, vec![false, true, true, false, false, true, false]);
    assert_eq!(doc.nodes[2].text.as_deref(), Some("text"));
    assert_eq!(doc.nodes[1].text, None);
    assert_eq!(doc.nodes[5].text, None);
    assert_eq!(doc.find_tag("d"), Some(5));
    assert_eq!(doc.find_tag("x"), None);
    assert_eq!(doc.find_child(1, "d"), Some(5));
    assert_eq!(doc.find_child(0, "b"), None);
    assert_eq!(doc.first_element_child(0), Some(1));
    assert_eq!(doc.first_element_child(2), None);
    assert_eq!(doc.text(Some(2)).map(|s| s.as_str()), Some("text"));
    assert_eq!(doc.text(Some(99)), None);
    assert!(XmlDocument::parse("<a><b></a>").is_none());
    assert!(XmlDocument::parse("").is_none());
}

#[test]
fn tags_are_found_by_their_local_name() {
    let doc = XmlDocument::parse("<r xmlns='https://sts.amazonaws.com/doc/2011-06-15/'><k>v</k></r>").unwrap();
    assert_eq!(doc.find_tag("k"), Some(2));
    assert!(doc.has_tag_name(2, "k"));
    assert!(!doc.has_tag_name(3, "k"));
}

fn prod_config() -> AwsConfig {
    AwsConfig {
        profile: "prod".to_string(),
        role_arn: "arn:aws:iam::123:role/X".to_string(),
        source_profile: "default".to_string(),
        region: "eu-west-1".to_string(),
    }
}

const STS_OK: &str = r#"<AssumeRoleResponse xmlns="https://sts.amazonaws.com/doc/2011-06-15/">
  <AssumeRoleResult>
    <AssumedRoleUser><Arn>arn:aws:sts::123:assumed-role/X/prod</Arn></AssumedRoleUser>
    <Credentials>
      <AccessKeyId>ASIAEXAMPLE</AccessKeyId>
      <SecretAccessKey>secret/value</SecretAccessKey>
      <SessionToken>token==</SessionToken>
      <Expiration>2030-01-01T00:00:00Z</Expiration>
    </Credentials>
  </AssumeRoleResult>
</AssumeRoleResponse>"#;

fn response(status: i32, reason: &str, body: &str) -> Reply {
    Reply::Response { status, reason: reason.to_string(), body: body.to_string() }
}

#[test]
fn the_delegation_request_names_role_session_and_duration() {
    assert_eq!(
        assume_role_url(&prod_config()),
        "https://sts.eu-west-1.amazonaws.com/?Version=2011-06-15&Action=AssumeRole&RoleSessionName=prod&RoleArn=arn:aws:iam::123:role/X&DurationSeconds=3600"
    );
    let source = credential("default", "", "");
    let request = assume_role_request(&prod_config(), &source, VECTOR_TIME).unwrap();
    assert_eq!(request.url, assume_role_url(&prod_config()));
    assert!(header(&request.headers, "authorization")
        .unwrap()
        .starts_with("AWS4-HMAC-SHA256 Credential=AKIDEXAMPLE/20150830/us-east-1/sts/aws4_request"));
    let direct = aws_sign(&request.url, "sts", &source, VECTOR_TIME).unwrap();
    assert_eq!(direct.headers, request.headers);
    match assume_role_request(&prod_config(), &source, -5) {
        Err(AwsError::Signing { profile }) => assert_eq!(profile, "prod"),
        _ => panic!("the request cannot be signed"),
    }
}

#[test]
fn a_delegation_response_gives_a_credential_for_the_profile() {
    let c = get_sts_creds(&prod_config(), &response(200, "OK", STS_OK)).unwrap();
    assert_eq!(c.profile, "prod");
    assert_eq!(c.access_key, "ASIAEXAMPLE");
    assert_eq!(c.secret_key, "secret/value");
    assert_eq!(c.session_token, "token==");
    assert_eq!(c.region, "eu-west-1");
    assert_eq!(c.expiration, "2030-01-01T00:00:00Z");
    assert!(c.is_delegated());
}

#[test]
fn a_delegation_response_needs_all_four_fields() {
    for (tag, field) in [
        ("AccessKeyId", Field::AccessKey),
        ("SecretAccessKey", Field::Secret),
        ("SessionToken", Field::Token),
        ("Expiration", Field::Expiration),
    ] {
        let body = STS_OK.replace(&format!("<{tag}>"), "<Other>").replace(&format!("</{tag}>"), "</Other>");
        match get_sts_creds(&prod_config(), &response(200, "OK", &body)) {
            Err(AwsError::Parse { profile, field: Some(f) }) => {
                assert_eq!(profile, "prod");
                assert_eq!(f, field);
            }
            _ => panic!("a missing field is a failure"),
        }
    }
    let empty = STS_OK.replace("token==", "");
    assert!(matches!(
        get_sts_creds(&prod_config(), &response(200, "OK", &empty)),
        Err(AwsError::Parse { field: Some(Field::Token), .. })
    ));
    assert!(matches!(
        get_sts_creds(&prod_config(), &response(200, "OK", "not xml")),
        Err(AwsError::Parse { field: None, .. })
    ));
}

#[test]
fn a_delegation_answer_outside_the_200s_is_an_api_failure() {
    for status in [199, 300, 403, 500, -1] {
        match get_sts_creds(&prod_config(), &response(status, "Forbidden", STS_OK)) {
            Err(AwsError::Api { action, status: s, reason, profile }) => {
                assert_eq!(action, Action::AssumeRole);
                assert_eq!(s, status);
                assert_eq!(reason, "Forbidden");
                assert_eq!(profile, "prod");
            }
            _ => panic!("an api failure was expected"),
        }
    }
    assert!(get_sts_creds(&prod_config(), &response(299, "OK", STS_OK)).is_ok());
    match get_sts_creds(&prod_config(), &Reply::Failed { message: "timeout".to_string() }) {
        Err(AwsError::Transport { profile, message }) => {
            assert_eq!(profile, "prod");
            assert_eq!(message, "timeout");
        }
        _ => panic!("a transport failure was expected"),
    }
}

const INSTANCES: &str = r#"<DescribeInstancesResponse xmlns="http://ec2.amazonaws.com/doc/2016-11-15/">
  <reservationSet>
    <item>
      <instancesSet>
        <item>
          <keyName>prod-key</keyName>
          <ipAddress>54.1.2.3</ipAddress>
          <privateIpAddress>10.0.0.3</privateIpAddress>
          <tagSet>
            <item><key>Team</key><value>core</value></item>
            <item><key>Name</key><value>web server 1</value></item>
            <item><key>Name</key><value>second name</value></item>
          </tagSet>
          <platformDetails>Linux/UNIX</platformDetails>
        </item>
        <item>
          <keyName>never-seen</keyName>
          <ipAddress>54.9.9.9</ipAddress>
          <privateIpAddress>10.0.0.9</privateIpAddress>
          <tagSet><item><key>Name</key><value>second of the set</value></item></tagSet>
          <platformDetails>Linux/UNIX</platformDetails>
        </item>
      </instancesSet>
    </item>
    <item>
      <instancesSet>
        <item>
          <keyName>prod-key</keyName>
          <ipAddress>54.1.2.4</ipAddress>
          <privateIpAddress>10.0.0.4</privateIpAddress>
          <tagSet><item><key>Team</key><value>core</value></item></tagSet>
          <platformDetails>Linux/UNIX</platformDetails>
        </item>
      </instancesSet>
    </item>
    <item>
      <instancesSet>
        <item>
          <keyName>win-key</keyName>
          <privateIpAddress>10.0.0.5</privateIpAddress>
          <tagSet><item><key>Name</key><value>rdp</value></item></tagSet>
          <platformDetails>Windows</platformDetails>
        </item>
      </instancesSet>
    </item>
  </reservationSet>
</DescribeInstancesResponse>"#;

#[test]
fn the_discovery_request_asks_for_running_instances() {
    assert_eq!(
        describe_instances_url("eu-west-1"),
        "https://ec2.eu-west-1.amazonaws.com/?Action=DescribeInstances&Version=2016-11-15&Filter.1.Name=instance-state-name&Filter.1.Value.1=running"
    );
    let c = credential("prod", "tok", "");
    let request = describe_instances_request(&c, VECTOR_TIME).unwrap();
    assert_eq!(request.url, describe_instances_url("us-east-1"));
    assert_eq!(header(&request.headers, "x-amz-security-token"), Some("tok"));
    assert!(header(&request.headers, "authorization")
        .unwrap()
        .contains("/us-east-1/ec2/aws4_request"));
    assert!(discovery_request(&c, VECTOR_TIME).is_ok());
    match discovery_request(&c, -1) {
        Err(Discovered { profile, result: Err(AwsError::Signing { .. }) }) => assert_eq!(profile, "prod"),
        _ => panic!("the request cannot be signed"),
    }
}

#[test]
fn discovery_reads_public_addresses_without_a_bastion() {
    let c = credential("prod", "", "");
    let hosts = update_from_aws_api(&c, None, &response(200, "OK", INSTANCES)).unwrap();
    assert_eq!(hosts.len(), 1);
    let h = &hosts[0];
    assert_eq!(h.name, "web-server-1");
    assert_eq!(h.address, "54.1.2.3");
    assert_eq!(h.identity_file_path, "prod-key");
    assert_eq!(h.platform, "Linux/UNIX");
    assert_eq!(h.profile, "prod");
    assert_eq!(h.via_bastion, None);
    assert_eq!(h.user(), "ubuntu");
    let same = update_from_aws_api(&c, Some(""), &response(200, "OK", INSTANCES)).unwrap();
    assert_eq!(same.len(), 1);
    assert_eq!(same[0].address, "54.1.2.3");
    assert_eq!(same[0].via_bastion.as_deref(), Some(""));
}

#[test]
fn discovery_reads_private_addresses_behind_a_bastion() {
    let c = credential("prod", "", "");
    let hosts = update_from_aws_api(&c, Some("gate"), &response(200, "OK", INSTANCES)).unwrap();
    let found: Vec<(&str, &str)> = hosts.iter().map(|h| (h.name.as_str(), h.address.as_str())).collect();
    assert_eq!(found, vec![("web-server-1", "10.0.0.3"), ("rdp", "10.0.0.5")]);
    assert_eq!(hosts[1].via_bastion.as_deref(), Some("gate"));
    assert_eq!(hosts[1].user(), "administrator");
}

#[test]
fn an_instance_without_name_tag_is_left_out_without_failure() {
    let body = r#"<r><instancesSet><item><keyName>k</keyName><ipAddress>1.1.1.1</ipAddress><tagSet><item><key>Team</key><value>x</value></item></tagSet><platformDetails>Linux/UNIX</platformDetails></item></instancesSet><instancesSet><item><keyName>k</keyName><ipAddress>2.2.2.2</ipAddress><tagSet><item><key>Name</key><value>kept</value></item></tagSet><platformDetails>Linux/UNIX</platformDetails></item></instancesSet></r>"#;
    let hosts = update_from_aws_api(&credential("p", "", ""), None, &response(200, "OK", body)).unwrap();
    assert_eq!(hosts.len(), 1);
    assert_eq!(hosts[0].name, "kept");
    let doc = XmlDocument::parse(body).unwrap();
    assert_eq!(hosts_from_document(&doc, "p", None).len(), 1);
    let none = update_from_aws_api(&credential("p", "", ""), None, &response(200, "OK", "<r/>")).unwrap();
    assert!(none.is_empty());
}

#[test]
fn an_instance_that_lacks_any_field_is_left_out() {
    let full = "<instancesSet><item><keyName>k</keyName><ipAddress>1.1.1.1</ipAddress><tagSet><item><key>Name</key><value>n</value></item></tagSet><platformDetails>L</platformDetails></item></instancesSet>";
    let c = credential("p", "", "");
    assert_eq!(update_from_aws_api(&c, None, &response(200, "OK", full)).unwrap().len(), 1);
    for part in [
        "<keyName>k</keyName>",
        "<ipAddress>1.1.1.1</ipAddress>",
        "<tagSet><item><key>Name</key><value>n</value></item></tagSet>",
        "<value>n</value>",
        "<platformDetails>L</platformDetails>",
    ] {
        let body = full.replace(part, "");
        assert!(update_from_aws_api(&c, None, &response(200, "OK", &body)).unwrap().is_empty());
    }
    let empty_set = "<instancesSet/>";
    assert!(update_from_aws_api(&c, None, &response(200, "OK", empty_set)).unwrap().is_empty());
}

#[test]
fn a_refused_discovery_is_an_auth_failure_that_asks_for_a_purge() {
    let c = credential("prod", "tok", "");
    match update_from_aws_api(&c, None, &response(401, "Unauthorized", INSTANCES)) {
        Err(e) => {
            assert!(e.asks_for_purge());
            match e {
                AwsError::Auth { profile } => assert_eq!(profile, "prod"),
                _ => panic!("an auth failure was expected"),
            }
        }
        Ok(_) => panic!("an auth failure was expected"),
    }
    match update_from_aws_api(&c, None, &response(403, "Forbidden", "")) {
        Err(AwsError::Api { action, status, reason, profile }) => {
            assert_eq!((action, status), (Action::DescribeInstances, 403));
            assert_eq!(reason, "Forbidden");
            assert_eq!(profile, "prod");
        }
        _ => panic!("an api failure was expected"),
    }
    assert!(matches!(
        update_from_aws_api(&c, None, &response(200, "OK", "<broken")),
        Err(AwsError::Parse { field: None, .. })
    ));
    assert!(matches!(
        update_from_aws_api(&c, None, &Reply::Failed { message: "down".to_string() }),
        Err(AwsError::Transport { .. })
    ));
    assert!(!AwsError::NoCredentials.asks_for_purge());
}

#[test]
fn aggregation_isolates_the_failure_of_one_profile() {
    let a = credential("a", "", "");
    let b = credential("b", "tok", "");
    let c = credential("c", "", "");
    let outcomes = vec![
        discovered(&a, None, &response(200, "OK", INSTANCES)),
        discovered(&b, None, &response(401, "Unauthorized", "")),
        discovered(&c, Some("gate"), &response(200, "OK", INSTANCES)),
    ];
    let list = update_sshconfig(&outcomes).unwrap();
    let found: Vec<(&str, &str)> = list.hosts.iter().map(|h| (h.profile.as_str(), h.name.as_str())).collect();
    assert_eq!(found, vec![("a", "web-server-1"), ("c", "web-server-1"), ("c", "rdp")]);
    assert_eq!(list.errors.len(), 1);
    assert_eq!(list.errors[0].profile, "b");
    assert!(matches!(list.errors[0].error, AwsError::Auth { .. }));
    assert!(list.purge_cache);

    let without = vec![
        discovered(&a, None, &response(200, "OK", INSTANCES)),
        discovered(&c, Some("gate"), &response(200, "OK", INSTANCES)),
    ];
    let calm = update_sshconfig(&without).unwrap();
    let again: Vec<(&str, &str)> = calm.hosts.iter().map(|h| (h.profile.as_str(), h.name.as_str())).collect();
    assert_eq!(again, found);
    assert!(calm.errors.is_empty());
    assert!(!calm.purge_cache);
}

#[test]
fn aggregation_fails_only_without_any_credential() {
    assert!(matches!(update_sshconfig(&Vec::new()), Err(AwsError::NoCredentials)));
    let all_failed = vec![discovered(
        &credential("a", "", ""),
        None,
        &response(500, "Internal", ""),
    )];
    let list = update_sshconfig(&all_failed).unwrap();
    assert!(list.hosts.is_empty());
    assert_eq!(list.errors.len(), 1);
    assert!(!list.purge_cache);
}

#[test]
fn the_environment_gives_one_credential_for_the_sentinel_profile() {
    let env = Environment {
        access_key: Some("AK".to_string()),
        secret_key: Some("SK".to_string()),
        region: Some("eu-west-1".to_string()),
    };
    match get_credentials(&env) {
        Source::Environment { credentials } => {
            assert_eq!(credentials.len(), 1);
            let c = &credentials[0];
            assert_eq!(c.profile, "default");
            assert_eq!(c.access_key, "AK");
            assert_eq!(c.secret_key, "SK");
            assert_eq!(c.region, "eu-west-1");
            assert_eq!(c.session_token, "");
            assert_eq!(c.expiration, "");
        }
        Source::Stores => panic!("the environment is complete"),
    }
    let empty = Environment {
        access_key: Some(String::new()),
        secret_key: Some(String::new()),
        region: Some(String::new()),
    };
    assert!(get_env_credentials(&empty).is_some());
}

#[test]
fn an_incomplete_environment_sends_resolution_to_the_stores() {
    for missing in 0..3 {
        let mut env = Environment {
            access_key: Some("AK".to_string()),
            secret_key: Some("SK".to_string()),
            region: Some("r".to_string()),
        };
        match missing {
            0 => env.access_key = None,
            1 => env.secret_key = None,
            _ => env.region = None,
        }
        assert!(get_env_credentials(&env).is_none());
        assert!(matches!(get_credentials(&env), Source::Stores));
    }
}

const CONFIG: &str = "[default]\nregion = eu-west-1\n\n[profile prod]\nregion = eu-west-1\nrole_arn = arn:aws:iam::123:role/X\nsource_profile = default\n";
const SECRETS: &str = "[default]\naws_access_key_id = AKIDEXAMPLE\naws_secret_access_key = wJalrXUtnFEMI/K7MDENG+bPxRfiCYEXAMPLEKEY\n";

fn now() -> Timestamp {
    // 2024-01-01T00:00:00Z
    Timestamp { secs: 1704067200, nanos: 0 }
}

fn stores(cache: Vec<Credential>) -> Stores {
    Stores { config: Some(CONFIG.to_string()), secrets: Some(SECRETS.to_string()), cache }
}

#[test]
fn profiles_are_read_with_empty_defaults() {
    let p = load_profiles(CONFIG).unwrap();
    assert_eq!(p.len(), 2);
    let d = p.get("default").unwrap();
    assert_eq!((d.profile.as_str(), d.region.as_str()), ("default", "eu-west-1"));
    assert_eq!((d.role_arn.as_str(), d.source_profile.as_str()), ("", ""));
    let prod = p.get("prod").unwrap();
    assert_eq!(prod.profile, "prod");
    assert_eq!(prod.role_arn, "arn:aws:iam::123:role/X");
    assert_eq!(prod.source_profile, "default");
    assert!(p.get("profile prod").is_none());
    let marked = load_profiles("\u{feff}[a]\nregion=x\n").unwrap();
    assert_eq!(marked.get("a").unwrap().region, "x");
    assert_eq!(load_profiles("").unwrap().len(), 0);
}

#[test]
fn a_later_section_for_a_profile_stands() {
    let p = load_profiles("[a]\nregion = one\n[profile a]\nregion = two\n[b]\n").unwrap();
    assert_eq!(p.len(), 2);
    assert_eq!(p.name_at(0), "a");
    assert_eq!(p.get("a").unwrap().region, "two");
}

#[test]
fn a_store_that_cannot_be_read_is_a_config_failure() {
    assert!(matches!(
        load_profiles("[unclosed\nregion = x"),
        Err(AwsError::Config { store: Store::Config })
    ));
    assert!(matches!(
        load_profiles("region = x\n[a]\n"),
        Err(AwsError::Config { store: Store::Config })
    ));
    let profiles = load_profiles(CONFIG).unwrap();
    assert!(matches!(
        load_statics("[unclosed", &profiles),
        Err(AwsError::Config { store: Store::Secrets })
    ));
    let no_secrets = Stores { config: Some(CONFIG.to_string()), secrets: None, cache: vec![] };
    assert!(matches!(
        get_shared_credentials(&no_secrets, now()),
        Err(AwsError::Config { store: Store::Secrets })
    ));
}

#[test]
fn static_credentials_need_both_keys_and_a_configured_region() {
    let profiles = load_profiles(CONFIG).unwrap();
    let text = "stray = 1\n[default]\naws_access_key_id = A\naws_secret_access_key = S\n[prod]\naws_access_key_id = only\n[other]\naws_access_key_id = A\naws_secret_access_key = S\n";
    let statics = load_statics(text, &profiles).unwrap();
    assert_eq!(statics.len(), 1);
    let d = statics.get("default").unwrap();
    assert_eq!((d.access_key.as_str(), d.secret_key.as_str()), ("A", "S"));
    assert_eq!(d.region, "eu-west-1");
    assert_eq!((d.session_token.as_str(), d.expiration.as_str()), ("", ""));
}

#[test]
fn resolution_delegates_once_for_a_profile_whose_source_is_static() {
    let plan = get_shared_credentials(&stores(vec![]), now()).unwrap();
    assert_eq!(plan.resolved.len(), 1);
    assert_eq!(plan.resolved.name_at(0), "default");
    assert_eq!(plan.pending.len(), 1);
    assert_eq!(plan.pending[0].config.profile, "prod");
    assert_eq!(plan.pending[0].source.profile, "default");
    assert_eq!(plan.pending[0].source.access_key, "AKIDEXAMPLE");
    assert!(plan.unresolved.is_empty());

    let request = assume_role_request(&plan.pending[0].config, &plan.pending[0].source, VECTOR_TIME).unwrap();
    assert!(header(&request.headers, "authorization")
        .unwrap()
        .starts_with("AWS4-HMAC-SHA256 Credential=AKIDEXAMPLE/20150830/eu-west-1/sts/aws4_request"));

    let outcomes = vec![delegated(&plan.pending[0], &response(200, "OK", STS_OK))];
    let done = complete(plan, &outcomes);
    let profiles: Vec<&str> = done.credentials.iter().map(|c| c.profile.as_str()).collect();
    assert_eq!(profiles, vec!["default", "prod"]);
    assert!(done.errors.is_empty());
    assert_eq!(done.cache.len(), 1);
    assert_eq!(done.cache[0].profile, "prod");
    assert_eq!(done.cache[0].session_token, "token==");
}

#[test]
fn a_cached_credential_is_reused_and_no_delegation_is_planned() {
    let cached = credential("prod", "cached-token", "2030-01-01T00:00:00Z");
    let plan = get_shared_credentials(&stores(vec![cached.clone()]), now()).unwrap();
    assert!(plan.pending.is_empty());
    let kept = plan.resolved.get("prod").unwrap();
    assert_eq!(kept.session_token, "cached-token");
    assert_eq!(kept.access_key, cached.access_key);
    assert_eq!(kept.secret_key, cached.secret_key);
    assert_eq!(kept.region, cached.region);
    assert_eq!(kept.expiration, cached.expiration);
    let done = complete(plan, &vec![]);
    assert_eq!(done.credentials.len(), 2);
    assert_eq!(done.cache.len(), 1);
    assert_eq!(done.cache[0].session_token, "cached-token");
}

#[test]
fn an_expired_cached_credential_is_not_reused() {
    let old = credential("prod", "old-token", "2023-12-31T23:59:59Z");
    let plan = get_shared_credentials(&stores(vec![old]), now()).unwrap();
    assert!(plan.resolved.get("prod").is_none());
    assert_eq!(plan.pending.len(), 1);
    let loaded = cache::load(
        &vec![
            credential("a", "t", "2023-12-31T23:59:59Z"),
            credential("b", "t", "2024-01-01T00:00:00Z"),
            credential("c", "t", "garbage"),
            credential("b", "newer", "2024-06-01T00:00:00Z"),
        ],
        now(),
    );
    assert_eq!(loaded.len(), 2);
    assert!(loaded.get("a").is_none());
    assert_eq!(loaded.get("b").unwrap().session_token, "newer");
    assert_eq!(loaded.get("c").unwrap().expiration, "garbage");
}

#[test]
fn a_static_credential_comes_before_a_cached_one() {
    let cached = credential("default", "cached-token", "2030-01-01T00:00:00Z");
    let plan = get_shared_credentials(&stores(vec![cached]), now()).unwrap();
    assert_eq!(plan.resolved.get("default").unwrap().session_token, "");
}

#[test]
fn a_saved_credential_comes_back_field_for_field() {
    let mut set: NameMap<Credential> = NameMap::new();
    set.insert("default".to_string(), credential("default", "", ""));
    set.insert("prod".to_string(), credential("prod", "tok", "2030-01-01T00:00:00Z"));
    let saved = cache::save(&set);
    assert_eq!(saved.len(), 1);
    let loaded = cache::load(&saved, now());
    let back = loaded.get("prod").unwrap();
    let sent = set.get("prod").unwrap();
    assert_eq!(back.profile, sent.profile);
    assert_eq!(back.access_key, sent.access_key);
    assert_eq!(back.secret_key, sent.secret_key);
    assert_eq!(back.session_token, sent.session_token);
    assert_eq!(back.region, sent.region);
    assert_eq!(back.expiration, sent.expiration);
    assert!(loaded.get("default").is_none());
}

#[test]
fn a_failed_delegation_takes_nothing_from_the_others() {
    let config = "[default]\nregion = r\n[a]\nsource_profile = default\nrole_arn = x\n[b]\nsource_profile = default\nrole_arn = y\n[c]\nsource_profile = a\n[d]\n";
    let s = Stores { config: Some(config.to_string()), secrets: Some(SECRETS.to_string()), cache: vec![] };
    let plan = get_shared_credentials(&s, now()).unwrap();
    let pending: Vec<&str> = plan.pending.iter().map(|d| d.config.profile.as_str()).collect();
    assert_eq!(pending, vec!["a", "b"]);
    assert_eq!(plan.unresolved.len(), 2);
    match &plan.unresolved[0] {
        AwsError::Resolution { profile, cause } => {
            assert_eq!(profile, "c");
            assert_eq!(*cause, Reason::UnresolvedDependency);
        }
        _ => panic!("c waits for a"),
    }
    match &plan.unresolved[1] {
        AwsError::Resolution { profile, cause } => {
            assert_eq!(profile, "d");
            assert_eq!(*cause, Reason::MissingSecret);
        }
        _ => panic!("d has nothing"),
    }
    let outcomes = vec![
        delegated(&plan.pending[0], &response(403, "Forbidden", "")),
        delegated(&plan.pending[1], &response(200, "OK", STS_OK)),
    ];
    let done = complete(plan, &outcomes);
    let profiles: Vec<&str> = done.credentials.iter().map(|c| c.profile.as_str()).collect();
    assert_eq!(profiles, vec!["default", "b"]);
    let failed: Vec<&str> = done.errors.iter().map(|e| e.profile.as_str()).collect();
    assert_eq!(failed, vec!["c", "d", "a"]);
    assert!(matches!(done.errors[2].error, AwsError::Api { status: 403, .. }));
}

#[test]
fn without_configuration_there_are_no_profiles() {
    let s = Stores { config: None, secrets: Some(SECRETS.to_string()), cache: vec![] };
    let plan = get_shared_credentials(&s, now()).unwrap();
    assert_eq!(plan.resolved.len(), 0);
    assert!(plan.pending.is_empty());
}

#[test]
fn failures_say_what_happened_and_to_which_profile() {
    let p = || "prod".to_string();
    assert_eq!(AwsError::Config { store: Store::Config }.message(), "Can't load aws config");
    assert_eq!(AwsError::Config { store: Store::Secrets }.message(), "Can't load aws credentials");
    assert_eq!(
        AwsError::Auth { profile: p() }.message(),
        "Authorization failed for profile prod. Credential cache cleared. Please retry"
    );
    assert_eq!(
        AwsError::Api { action: Action::AssumeRole, status: 403, reason: "Forbidden".to_string(), profile: p() }
            .message(),
        "Error assuming role for prod, 403, Forbidden"
    );
    assert_eq!(
        AwsError::Api {
            action: Action::DescribeInstances,
            status: -1,
            reason: String::new(),
            profile: p()
        }
        .message(),
        "Error getting instances for prod, -1, "
    );
    assert_eq!(
        AwsError::Parse { profile: p(), field: Some(Field::AccessKey) }.message(),
        "can't get access_key for prod"
    );
    assert_eq!(
        AwsError::Parse { profile: p(), field: Some(Field::Secret) }.message(),
        "can't get secret for prod"
    );
    assert_eq!(
        AwsError::Parse { profile: p(), field: Some(Field::Token) }.message(),
        "can't get token for prod"
    );
    assert_eq!(
        AwsError::Parse { profile: p(), field: Some(Field::Expiration) }.message(),
        "can't get expiration for prod"
    );
    assert_eq!(
        AwsError::Parse { profile: p(), field: None }.message(),
        "can't read the response for prod"
    );
    assert_eq!(AwsError::Signing { profile: p() }.message(), "Can't sign the request for prod");
    assert_eq!(
        AwsError::Resolution { profile: p(), cause: Reason::MissingSecret }.message(),
        "No credentials for prod"
    );
    assert_eq!(
        AwsError::Resolution { profile: p(), cause: Reason::UnresolvedDependency }.message(),
        "No credentials for the source profile of prod"
    );
    assert_eq!(
        AwsError::Transport { profile: p(), message: "timeout".to_string() }.message(),
        "No answer for prod: timeout"
    );
    assert_eq!(AwsError::NoCredentials.message(), "No credentials found");
}

#[test]
fn no_two_resolved_credentials_are_for_one_profile() {
    let config = "[a]\nregion = one\n[profile a]\nregion = two\n[b]\nsource_profile = a\n";
    let secrets = "[a]\naws_access_key_id = K1\naws_secret_access_key = S1\n[a]\naws_access_key_id = K2\naws_secret_access_key = S2\n";
    let s = Stores {
        config: Some(config.to_string()),
        secrets: Some(secrets.to_string()),
        cache: vec![
            credential("b", "first", "2030-01-01T00:00:00Z"),
            credential("b", "second", "2030-01-01T00:00:00Z"),
            credential("a", "cached", "2030-01-01T00:00:00Z"),
        ],
    };
    let plan = get_shared_credentials(&s, now()).unwrap();
    assert!(plan.pending.is_empty());
    let done = complete(plan, &vec![]);
    let found: Vec<(&str, &str)> =
        done.credentials.iter().map(|c| (c.profile.as_str(), c.session_token.as_str())).collect();
    assert_eq!(found, vec![("a", ""), ("b", "second")]);
    assert_eq!(done.credentials[0].access_key, "K2");
    assert_eq!(done.credentials[0].region, "two");
}

#[test]
fn where_all_discoveries_are_needed_the_first_failure_fails_the_whole() {
    let a = credential("a", "", "");
    let b = credential("b", "", "");
    let fine = vec![
        discovered(&a, None, &response(200, "OK", INSTANCES)),
        discovered(&b, Some("gate"), &response(200, "OK", INSTANCES)),
    ];
    let hosts = ash::aws::aggregate::join_all(&fine).unwrap();
    let found: Vec<(&str, &str)> = hosts.iter().map(|h| (h.profile.as_str(), h.name.as_str())).collect();
    assert_eq!(found, vec![("a", "web-server-1"), ("b", "web-server-1"), ("b", "rdp")]);
    let broken = vec![
        discovered(&a, None, &response(200, "OK", INSTANCES)),
        discovered(&b, None, &response(500, "first", "")),
        discovered(&a, None, &response(404, "second", "")),
    ];
    match ash::aws::aggregate::join_all(&broken) {
        Err(AwsError::Api { status, reason, .. }) => {
            assert_eq!((status, reason.as_str()), (500, "first"));
        }
        _ => panic!("the first failure was expected"),
    }
    assert!(ash::aws::aggregate::join_all(&vec![]).unwrap().is_empty());
}
