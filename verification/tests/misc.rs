use ash::config::{common_tsh_args, Config, CONFIG_FILE_NAME};
use ash::describe_instances::{
    update, update_from_aws_cli, DescribeInstances, Described, DescribedTag, Instance, Reservation,
    State, Tag,
};
use ash::executable::Vsdbg;
use ash::history::{add_recents, History};
use ash::not_empty_string::NotEmptyString;
use ash::option_not_empty_string::OptionNotEmptyString;
use ash::prelude::{fst, snd, stopwatch_guard};
use ash::select::{decide, label_of, pad, select, select_teleport_host, width_of, Preselection, SelectError};
use ash::teleport::{check_ash_update, get_hosts, ssh, Metadata, Spec, WelcomeElement};
use ash::text;

#[test]
fn pairs_come_apart() {
    assert_eq!(fst((1, "a")), 1);
    assert_eq!(snd((1, "a")), "a");
}

#[test]
fn a_stopwatch_reports_its_name_and_the_milliseconds() {
    let guard = stopwatch_guard("ini parse");
    assert_eq!(guard.name, "ini parse");
    assert_eq!(guard.report(0), "ini parse took 0ms");
    assert_eq!(guard.report(1234), "ini parse took 1234ms");
    let now = guard.stop();
    assert!(now.starts_with("ini parse took ") && now.ends_with("ms"));
    assert!(guard.elapsed_ms() < 60_000);
}

#[test]
fn an_empty_text_counts_as_absent() {
    assert_eq!(*NotEmptyString::from("").as_option(), None);
    assert_eq!(NotEmptyString::from("x").as_option().as_deref(), Some("x"));
    assert_eq!(*NotEmptyString::from(String::new()), None);
    assert_eq!(NotEmptyString::from("abc".to_string()).as_deref(), Some("abc"));
    assert_eq!(*NotEmptyString::from(None::<String>), None);
    assert_eq!(*NotEmptyString::from(Some(String::new())), None);
    assert_eq!(NotEmptyString::from(Some("y")).as_deref(), Some("y"));
    assert_eq!(*NotEmptyString::from(Some("")), None);
    assert_eq!(*NotEmptyString::from(None::<&str>), None);
    assert_eq!(*NotEmptyString::none(), None);
    assert_eq!(NotEmptyString::none().to_text(), "None");
    assert_eq!(NotEmptyString::from("shown").to_text(), "shown");
    assert_eq!(*NotEmptyString::new(String::new()), None);
}

#[test]
fn an_optional_text_is_never_empty() {
    assert_eq!(*OptionNotEmptyString::from(""), None);
    assert_eq!(OptionNotEmptyString::from("x").as_deref(), Some("x"));
    assert_eq!(*OptionNotEmptyString::from(Some(String::new())), None);
    assert_eq!(OptionNotEmptyString::from(Some("y".to_string())).as_deref(), Some("y"));
    assert_eq!(*OptionNotEmptyString::from(None::<&str>), None);
    assert_eq!(OptionNotEmptyString::from("z".to_string()).to_text(), "z");
    assert_eq!(OptionNotEmptyString::from(String::new()).to_text(), "None");
    assert_eq!(OptionNotEmptyString::new("w".to_string()).as_option().as_deref(), Some("w"));
}

#[test]
fn the_files_of_the_tool_are_below_the_home_directory() {
    let c = Config::new("/home/me".to_string(), false, vec![]);
    assert_eq!(c.home_dir().base, "/home/me");
    assert!(c.home_dir().parts.is_empty());
    assert_eq!(c.config_dir().parts, vec![".config", "ash"]);
    assert_eq!(c.config_path().parts, vec![".config", "ash", "ash.config.json"]);
    assert_eq!(c.history_path().parts, vec![".config", "ash", "history"]);
    assert_eq!(c.cache_path().parts, vec![".config", "ash", "cache.json"]);
    assert_eq!(c.vsdbgsh_path().parts, vec![".config", "ash", "vsdbg.sh"]);
    assert_eq!(c.config_path().base, "/home/me");
    assert_eq!(c.code_cmd(), "code");
    assert_eq!(Config::new(String::new(), true, vec![]).code_cmd(), "code.cmd");
    assert_eq!(CONFIG_FILE_NAME, "ash.config.json");
    assert_eq!(c.home_dir().join("a").join("b").parts, vec!["a", "b"]);
    match Config::user_dirs(true, vec!["-q".to_string()]) {
        Some(found) => {
            assert!(found.windows);
            assert_eq!(found.ssh_args, vec!["-q"]);
        }
        None => {}
    }
}

#[test]
fn texts_are_split_trimmed_and_counted() {
    assert_eq!(text::chars_of("héllo"), vec!['h', 'é', 'l', 'l', 'o']);
    assert_eq!(text::text_of(&text::chars_of("hello"), 1, 3), "el");
    assert!(text::str_eq("a", "a") && !text::str_eq("a", "b"));
    assert_eq!(text::join2("ab", "cd"), "abcd");
    let v = text::chars_of("a:b:c");
    assert_eq!(text::find_char(&v, 0, 5, ':'), 1);
    assert_eq!(text::find_char(&v, 2, 5, ':'), 3);
    assert_eq!(text::find_char(&v, 4, 5, ':'), 5);
    assert_eq!(text::rfind_char(&v, 0, 5, ':'), Some(3));
    assert_eq!(text::rfind_char(&v, 0, 1, ':'), None);
    assert!(text::contains_char("a:b", ':') && !text::contains_char("ab", ':'));
    let t = text::chars_of(" \t x y \r");
    assert_eq!(text::trim_range(&t, 0, t.len()), (3, 6));
    let blanks = text::chars_of("  \t ");
    let (a, b) = text::trim_range(&blanks, 0, blanks.len());
    assert_eq!(a, b);
    assert_eq!(text::strip_prefix("profile x", "profile ").as_deref(), Some("x"));
    assert_eq!(text::strip_prefix("profile", "profile "), None);
    assert_eq!(text::strip_prefix("abc", "").as_deref(), Some("abc"));
    assert_eq!(text::replace_char("a b  c", ' ', '-'), "a-b--c");
    assert!(text::ends_with_char("dir/", '/') && !text::ends_with_char("", '/'));
    let s = text::chars_of("a,,b,");
    assert_eq!(text::split_ranges(&s, 0, s.len(), ','), vec![(0, 1), (2, 2), (3, 4), (5, 5)]);
    let e = text::chars_of("");
    assert_eq!(text::split_ranges(&e, 0, 0, ','), vec![(0, 0)]);
    let w = text::chars_of("Host  name");
    assert_eq!(text::word_end(&w, 0, w.len()), 4);
    assert_eq!(text::word_end(&w, 4, w.len()), 4);
}

fn lines_of(s: &str) -> Vec<String> {
    let v = text::chars_of(s);
    text::line_ranges(&v).into_iter().map(|(a, b)| text::text_of(&v, a, b)).collect()
}

#[test]
fn lines_are_those_of_the_standard_library() {
    for s in ["", "\n", "a", "a\n", "a\nb", "a\r\nb\r\n", "a\r", "\r\n\r\n", "a\n\nb\n\n", "x\r\r\ny"] {
        let expected: Vec<String> = s.lines().map(String::from).collect();
        assert_eq!(lines_of(s), expected, "the lines of {s:?}");
    }
}

#[test]
fn numbers_are_written_in_decimal() {
    assert_eq!(text::decimal_text(0), "0");
    assert_eq!(text::decimal_text(7), "7");
    assert_eq!(text::decimal_text(10), "10");
    assert_eq!(text::decimal_text(3389), "3389");
    assert_eq!(text::decimal_text(u64::MAX), "18446744073709551615");
    assert_eq!(text::signed_decimal_text(-1), "-1");
    assert_eq!(text::signed_decimal_text(i32::MIN), "-2147483648");
    assert_eq!(text::signed_decimal_text(401), "401");
}

fn instance(name: Option<&str>, key: Option<&str>) -> Instance {
    let mut tags = vec![Tag { key: "Team".to_string(), value: "core".to_string() }];
    if let Some(n) = name {
        tags.push(Tag { key: "Name".to_string(), value: n.to_string() });
        tags.push(Tag { key: "Name".to_string(), value: "later".to_string() });
    }
    Instance {
        image_id: "ami-1".to_string(),
        instance_id: "i-1".to_string(),
        instance_type: "t3.micro".to_string(),
        key_name: key.map(String::from),
        private_ip_address: "10.0.0.1".to_string(),
        public_ip_address: "54.0.0.1".to_string(),
        state: State { code: 16, name: "running".to_string() },
        tags,
        platform_details: "Linux/UNIX".to_string(),
        platform: None,
    }
}

#[test]
fn a_description_gives_the_named_instances_that_have_a_key() {
    let description = DescribeInstances {
        reservations: vec![
            Reservation { instances: vec![instance(Some("web 1"), Some("k1")), instance(None, Some("k2"))] },
            Reservation { instances: vec![] },
            Reservation { instances: vec![instance(Some("db"), None), instance(Some("api 2 b"), Some("k3"))] },
        ],
    };
    let hosts = update_from_aws_cli(&description, "prod", None);
    let found: Vec<(&str, &str, &str)> = hosts
        .iter()
        .map(|h| (h.name.as_str(), h.address.as_str(), h.identity_file_path.as_str()))
        .collect();
    assert_eq!(found, vec![("web-1", "54.0.0.1", "k1"), ("api-2-b", "54.0.0.1", "k3")]);
    assert_eq!(hosts[0].profile, "prod");
    assert_eq!(hosts[0].platform, "Linux/UNIX");
    assert_eq!(hosts[0].via_bastion, None);
    let empty_proxy = update_from_aws_cli(&description, "prod", Some(""));
    assert_eq!(empty_proxy[0].address, "54.0.0.1");
    let proxied = update_from_aws_cli(&description, "prod", Some("gate"));
    assert_eq!(proxied[0].address, "10.0.0.1");
    assert_eq!(proxied[0].via_bastion.as_deref(), Some("gate"));
}

fn described(tags: Option<Vec<(Option<&str>, Option<&str>)>>) -> Described {
    Described {
        tags: tags.map(|t| {
            t.into_iter()
                .map(|(k, v)| DescribedTag { key: k.map(String::from), value: v.map(String::from) })
                .collect()
        }),
        key_name: Some("k".to_string()),
        private_ip_address: Some("10.0.0.1".to_string()),
        public_ip_address: Some("54.0.0.1".to_string()),
        platform_details: Some("Windows".to_string()),
    }
}

#[test]
fn an_instance_with_missing_fields_is_left_out() {
    let named = described(Some(vec![(None, Some("x")), (Some("Name"), Some("a b"))]));
    let hosts = update(&vec![vec![named.clone()]], "p", None);
    assert_eq!(hosts.len(), 1);
    assert_eq!((hosts[0].name.as_str(), hosts[0].address.as_str()), ("a-b", "54.0.0.1"));
    // a proxy that is given counts, even when it is empty
    let proxied = update(&vec![vec![named.clone()]], "p", Some(""));
    assert_eq!(proxied[0].address, "10.0.0.1");

    let mut broken = vec![
        described(None),
        described(Some(vec![])),
        described(Some(vec![(Some("Name"), None), (Some("Name"), Some("late"))])),
    ];
    let mut no_key = named.clone();
    no_key.key_name = None;
    let mut no_address = named.clone();
    no_address.public_ip_address = None;
    let mut no_platform = named.clone();
    no_platform.platform_details = None;
    broken.extend([no_key, no_address, no_platform]);
    assert!(update(&vec![broken.clone()], "p", None).is_empty());
    let mixed = update(&vec![broken, vec![named]], "p", None);
    assert_eq!(mixed.len(), 1);
}

fn listed(name: &str, hostname: &str, labels: &[(&str, &str)]) -> WelcomeElement {
    WelcomeElement {
        kind: "node".to_string(),
        version: "v2".to_string(),
        metadata: Metadata {
            name: name.to_string(),
            labels: labels.iter().map(|(k, v)| (k.to_string(), v.to_string())).collect(),
            expires: String::new(),
            id: 1.5f64.to_bits(),
        },
        spec: Spec {
            addr: "1.2.3.4:3022".to_string(),
            hostname: hostname.to_string(),
            use_tunnel: None,
            version: "9".to_string(),
            public_addr: None,
        },
    }
}

fn names(hosts: &[WelcomeElement]) -> Vec<&str> {
    hosts.iter().map(|h| h.metadata.name.as_str()).collect()
}

#[test]
fn listed_hosts_are_the_same_when_their_names_are() {
    assert!(listed("a", "x", &[]) == listed("a", "y", &[("k", "v")]));
    assert!(listed("a", "x", &[]) != listed("b", "x", &[]));
}

#[test]
fn the_history_puts_the_last_choice_first() {
    let mut h = History::new();
    h.update(&listed("a", "ha", &[]));
    h.update(&listed("b", "hb", &[]));
    h.update(&listed("c", "hc", &[]));
    h.update(&listed("a", "ha2", &[]));
    assert_eq!(names(&h.entries), vec!["a", "c", "b"]);
    assert_eq!(h.entries[0].spec.hostname, "ha2");
    h.intersect(&vec![listed("b", "", &[]), listed("a", "", &[]), listed("z", "", &[])]);
    assert_eq!(names(&h.entries), vec!["a", "b"]);
    h.intersect(&vec![]);
    assert!(h.entries.is_empty());
}

#[test]
fn recent_hosts_come_before_the_others() {
    let mut h = History { entries: vec![listed("c", "", &[]), listed("gone", "", &[]), listed("a", "", &[])] };
    let all = add_recents(
        vec![listed("a", "", &[]), listed("b", "", &[]), listed("c", "", &[]), listed("d", "", &[])],
        &mut h,
    );
    assert_eq!(names(&all), vec!["c", "a", "b", "d"]);
    assert_eq!(names(&h.entries), vec!["c", "a"]);
}

#[test]
fn hosts_are_shown_with_their_labels() {
    let h = listed("n", "web", &[("env", "prod"), ("teleport.internal/x", "1"), ("team", "core")]);
    assert_eq!(h.display(), "env: prod, team: core");
    assert_eq!(listed("n", "web", &[("teleport.internal", "1")]).display(), "");
    assert_eq!(label_of(&h, 6), "web    [env: prod, team: core]");
    assert_eq!(label_of(&h, 2), "web [env: prod, team: core]");
    assert_eq!(pad("ab", 4), "ab  ");
    assert_eq!(pad("abcd", 4), "abcd");
    assert_eq!(pad("é", 3), format!("{:3}", "é"));
    let hosts = vec![listed("1", "a", &[]), listed("2", "héllo", &[]), listed("3", "abc", &[])];
    assert_eq!(width_of(&hosts), 6);
    assert_eq!(width_of(&vec![]), 20);
    let labels = select_teleport_host(&hosts, &hosts);
    let expected: Vec<String> = hosts.iter().map(|h| format!("{:6} []", h.spec.hostname)).collect();
    assert_eq!(labels, expected);
}

#[test]
fn one_match_is_chosen_without_asking() {
    let options = vec!["web-prod".to_string(), "web-test".to_string(), "db-prod".to_string()];
    assert_eq!(select(&options, "db"), Ok(Preselection::Chosen(2)));
    assert_eq!(select(&options, "DBP"), Ok(Preselection::Chosen(2)));
    assert_eq!(select(&options, "web"), Ok(Preselection::Ask));
    assert_eq!(select(&options, ""), Ok(Preselection::Ask));
    assert_eq!(select(&options, "zzz"), Err(SelectError::NoHostFound));
    assert_eq!(select(&vec![], "web"), Err(SelectError::EmptyList));
    assert_eq!(select(&vec![], ""), Err(SelectError::EmptyList));
    assert_eq!(ash::select::matching(&options, "prod"), vec![0, 2]);
    assert_eq!(decide(3, true, &vec![1]), Ok(Preselection::Chosen(1)));
    assert_eq!(decide(3, false, &vec![1]), Ok(Preselection::Ask));
    assert_eq!(decide(3, true, &vec![]), Err(SelectError::NoHostFound));
    assert_eq!(decide(0, true, &vec![1]), Err(SelectError::EmptyList));
    assert_eq!(SelectError::EmptyList.message(), "Host list is empty");
    assert_eq!(SelectError::NoHostFound.message(), "No host found");
}

#[test]
fn teleport_is_called_with_its_common_arguments() {
    assert_eq!(common_tsh_args(), vec!["--proxy", "teleport.mago.cloud", "--auth", "github"]);
    let line = ssh(&listed("n", "web-1", &[]));
    assert_eq!(line.program, "tsh");
    assert_eq!(
        line.args,
        vec!["--proxy", "teleport.mago.cloud", "--auth", "github", "ssh", "ubuntu@web-1"]
    );
    assert_eq!(
        get_hosts().args,
        vec!["--proxy", "teleport.mago.cloud", "--auth", "github", "ls", "-f", "json"]
    );
    assert!(check_ash_update(false).is_none());
    let update = check_ash_update(true).unwrap();
    assert_eq!(update.program, "scoop.cmd");
    assert_eq!(update.args, vec!["update", "-k", "ash"]);
}

#[test]
fn the_debugger_lists_containers_by_label() {
    let found = Vsdbg::containers("1a,web,nginx\nnot a container\n2b,db,pg,extra\n1a,web,nginx\nx,y\n");
    assert_eq!(found.len(), 2);
    assert_eq!(found.name_at(0), "1a - web - nginx");
    assert_eq!(found.get("2b - db - pg").unwrap(), "2b");
    assert_eq!(found.get("1a - web - nginx").unwrap(), "1a");
}

#[test]
fn what_a_shell_printed_is_read_without_padding_and_white_space() {
    assert_eq!(ash::ssh::read("  /home/ubuntu\n\0\0\0"), "/home/ubuntu");
    assert_eq!(ash::ssh::read("a b\t\n"), "a b");
    assert_eq!(ash::ssh::read("\0\0"), "");
    assert_eq!(ash::ssh::read(" \n\t \0"), "");
    assert_eq!(ash::ssh::read(""), "");
    assert_eq!(ash::ssh::read("x\0y\0"), "x\0y");
    assert_eq!(ash::ssh::read("\u{a0}x\u{2003}\0"), "x");
    for raw in ["  a  ", "\0 a", "a\0 \0", "\n\nls\r\n\0\0"] {
        assert_eq!(ash::ssh::read(raw), raw.trim_end_matches(char::from(0)).trim());
    }
}
