use ash::parsers::ini_parser::{parse_ini, IniError};
use ash::parsers::ssh_config_parser::{parse_ssh_config, Fault, Platform, SshConfigError};

const INI: &str = r#"
    [default]
    region = eu-west-1
    
    [profile test]
    role_arn =arn:aws:iam::123123123:role/DescribeInstances
    source_profile = default
    region = eu-west-1
    
    [profile prod]
    role_arn = arn:aws:iam::123123123:role/DescribeInstances
    source_profile = default
    region = eu-west-1
      
"#;

#[test]
fn parse_ini_succeeds() {
    let res = parse_ini(INI);
    match res {
        Ok(r) => assert_eq!(r.len(), 4),
        Err(err) => panic!("{err:#}", err = err.message()),
    }
}

#[test]
fn parse_ini_keeps_sections_in_order_and_values_trimmed() {
    let r = parse_ini(INI).unwrap();
    assert_eq!(r.name_at(0), "");
    assert_eq!(r.name_at(1), "default");
    assert_eq!(r.name_at(2), "profile test");
    assert_eq!(r.name_at(3), "profile prod");
    assert!(r.get("").unwrap().is_empty());
    let test = r.get("profile test").unwrap();
    assert_eq!(test.len(), 3);
    assert_eq!(
        test.get("role_arn").unwrap(),
        "arn:aws:iam::123123123:role/DescribeInstances"
    );
    assert_eq!(test.get("source_profile").unwrap(), "default");
    assert_eq!(test.get("region").unwrap(), "eu-west-1");
    assert!(r.get("profile none").is_none());
}

#[test]
fn parse_ini_lowers_keys_and_keeps_the_last_value() {
    let r = parse_ini("Region = a\nREGION=b\n; comment\n# comment\n[s]\nKey=1\n[s]\nother = 2 = 3\n")
        .unwrap();
    assert_eq!(r.len(), 2);
    let general = r.get("").unwrap();
    assert_eq!(general.len(), 1);
    assert_eq!(general.get("region").unwrap(), "b");
    let s = r.get("s").unwrap();
    assert_eq!(s.len(), 2);
    assert_eq!(s.get("key").unwrap(), "1");
    assert_eq!(s.get("other").unwrap(), "2 = 3");
}

#[test]
fn parse_ini_of_nothing_has_the_section_without_name() {
    let r = parse_ini("").unwrap();
    assert_eq!(r.len(), 1);
    assert_eq!(r.name_at(0), "");
}

#[test]
fn parse_ini_reports_the_first_line_it_cannot_read() {
    assert_eq!(parse_ini("a = 1\nno value here\n[open\n").err(), Some(IniError { line: 2 }));
    assert_eq!(parse_ini("[open").err(), Some(IniError { line: 1 }));
    assert_eq!(parse_ini("\n\n = value").err(), Some(IniError { line: 3 }));
    assert_eq!(IniError { line: 12 }.message(), "can't read line 12");
}

#[test]
fn parse_ini_takes_carriage_returns_as_blanks() {
    let r = parse_ini("[a]\r\nk = v\r\n").unwrap();
    assert_eq!(r.get("a").unwrap().get("k").unwrap(), "v");
}

const SSH_CONFIG: &str = r#"
Host *
StrictHostKeyChecking no

Host mybastionexample
    HostName 3.248.182.201
    User ubuntu

Host audit
# profile prod
    HostName 52.208.85.57
    User ubuntu
    IdentityFile /Users/paolo/.ssh/m4cprod-key
    
           # test
        
Host RRM-01-(mago)
# profile prod
    HostName 108.128.124.210

    User ubuntu
    # aaa
    IdentityFile /Users/paolo/.ssh/m4cprod-key    
"#;

#[test]
fn parse_ssh_config_succeeds() {
    let res = parse_ssh_config(SSH_CONFIG);
    match res {
        Ok(r) => assert_eq!(r.len(), 3),
        Err(err) => panic!("{err:#}", err = err.message()),
    }
}

#[test]
fn parse_ssh_config_reads_the_options_of_each_host() {
    let r = parse_ssh_config(SSH_CONFIG).unwrap();
    assert!(r.get("*").is_none());
    assert_eq!(r.name_at(0), "mybastionexample");
    assert_eq!(r.name_at(1), "audit");
    assert_eq!(r.name_at(2), "RRM-01-(mago)");
    let audit = r.get("audit").unwrap();
    assert_eq!(audit.name, "audit");
    assert_eq!(audit.address, "52.208.85.57");
    assert_eq!(audit.profile, "others");
    assert_eq!(audit.platform, Platform::Lnx);
    assert_eq!(audit.user.as_deref(), Some("ubuntu"));
    assert_eq!(audit.key.as_deref(), Some("/Users/paolo/.ssh/m4cprod-key"));
    assert_eq!(audit.bastion, None);
    let last = r.get("RRM-01-(mago)").unwrap();
    assert_eq!(last.key.as_deref(), Some("/Users/paolo/.ssh/m4cprod-key"));
    let bastion = r.get("mybastionexample").unwrap();
    assert_eq!(bastion.key, None);
}

#[test]
fn parse_ssh_config_reads_profile_and_platform() {
    let text = "host win1\n  # profile: prod , win\n  hostname 10.0.0.1\n  ProxyJump gate\nHost lnx1\n#profile:test,lnx\nHostName 10.0.0.2\n";
    let r = parse_ssh_config(text).unwrap();
    assert_eq!(r.len(), 2);
    let w = r.get("win1").unwrap();
    assert_eq!(w.profile, "prod");
    assert_eq!(w.platform, Platform::Win);
    assert_eq!(w.bastion.as_deref(), Some("gate"));
    let l = r.get("lnx1").unwrap();
    assert_eq!(l.profile, "test");
    assert_eq!(l.platform, Platform::Lnx);
}

#[test]
fn parse_ssh_config_reports_what_is_wrong() {
    assert_eq!(
        parse_ssh_config("Host a\n# profile: prod\n").err(),
        Some(SshConfigError { line: 2, fault: Fault::Profile })
    );
    assert_eq!(
        parse_ssh_config("Host a\nHostName\n").err(),
        Some(SshConfigError { line: 2, fault: Fault::Syntax })
    );
    assert_eq!(
        SshConfigError { line: 2, fault: Fault::Profile }.message(),
        "can't get profile and platform from line 2"
    );
    assert_eq!(SshConfigError { line: 7, fault: Fault::Syntax }.message(), "can't read line 7");
}

#[test]
fn parse_ssh_config_keeps_the_last_of_two_options_and_joins_hosts_of_one_name() {
    let r = parse_ssh_config("Host a\nUser x\nHost b\nHostName 2\nHost a\nHostName 1\nUser y\n").unwrap();
    assert_eq!(r.len(), 2);
    assert_eq!(r.name_at(0), "a");
    assert_eq!(r.get("a").unwrap().user.as_deref(), Some("y"));
    assert_eq!(r.get("a").unwrap().address, "1");
}

#[test]
fn a_host_needs_a_host_name_among_its_options() {
    let mut options: ash::name_map::NameMap<String> = ash::name_map::NameMap::new();
    options.insert("user".to_string(), "me".to_string());
    assert!(ash::parsers::ssh_config_parser::host_from("a", &options).is_none());
    options.insert("hostname".to_string(), "1.2.3.4".to_string());
    options.insert("platform".to_string(), "win".to_string());
    options.insert("proxyjump".to_string(), "gate".to_string());
    let h = ash::parsers::ssh_config_parser::host_from("a", &options).unwrap();
    assert_eq!((h.name.as_str(), h.address.as_str(), h.profile.as_str()), ("a", "1.2.3.4", "others"));
    assert_eq!(h.platform, Platform::Win);
    assert_eq!(h.user.as_deref(), Some("me"));
    assert_eq!(h.bastion.as_deref(), Some("gate"));
    assert_eq!(h.key, None);
}
