use ash::commands::{containers, label, parse_ls_output, read_dir, select_container, Browse, Commands, Entry};
use ash::config::{Config, FilePath, Service};
use ash::executable::{
    CommandError, Effect, Exec, Executable, Hosts, Info, Scp, ScpArgs, Tunnel, TunnelArgs,
};
use ash::name_map::NameMap;
use ash::parsers::ssh_config_parser::parse_ssh_config;

#[test]
fn parse_ls_output_succeeds() {
    const LS: &str = r#"
./
../
.DS_Store
.git/
.gitignore
.vscode/
Cargo.lock
Cargo.toml
ash
ash.config.json
clippy.sh
res/
rustfmt.toml
src/
target/
test.txt
"#;

    let res = parse_ls_output(LS, &"/test/");
    assert!(res.is_ok());
    println!("{:#?}", res.unwrap());
}

#[test]
fn parse_ls_output_puts_directories_first_and_keeps_their_order() {
    let entries = parse_ls_output("b.txt\nz/\n\na/\nc\n", "/base").unwrap();
    let names: Vec<&str> = entries.iter().map(|e| e.file_name.as_str()).collect();
    assert_eq!(names, vec!["z/", "a/", "b.txt", "", "c"]);
    assert!(entries[0].is_dir && entries[1].is_dir);
    assert!(!entries[2].is_dir && !entries[3].is_dir && !entries[4].is_dir);
    assert!(entries.iter().all(|e| !e.is_selected));
    assert_eq!(entries[0].path.base, "/base");
    assert_eq!(entries[0].path.parts, vec!["z/".to_string()]);
}

fn entry(name: &str, is_dir: bool) -> Entry {
    Entry {
        path: FilePath { base: "/".to_string(), parts: vec![name.to_string()] },
        file_name: name.to_string(),
        is_dir,
        is_selected: false,
    }
}

#[test]
fn read_dir_orders_directories_first_and_each_kind_by_name() {
    let sorted = read_dir(vec![
        entry("b", false),
        entry("zeta", true),
        entry("a", false),
        entry("alpha", true),
        entry("B", false),
    ]);
    let names: Vec<&str> = sorted.iter().map(|e| e.file_name.as_str()).collect();
    assert_eq!(names, vec!["alpha", "zeta", "B", "a", "b"]);
}

fn config() -> Config {
    Config::new("/home/me".to_string(), false, vec!["-F".to_string(), "cfg".to_string()])
}

fn hosts(bastion: &str) -> Hosts {
    let text = "Host gate\nHostName 1.1.1.1\nHost web\nHostName 10.0.0.5\nHost win\n# profile: prod, win\nHostName 10.0.0.9\n";
    Hosts {
        hosts: parse_ssh_config(text).unwrap(),
        start_value: String::new(),
        bastion: bastion.to_string(),
    }
}

fn run(effect: Effect) -> (String, Vec<String>) {
    match effect {
        Effect::Run(i) => (i.program, i.args),
        Effect::Show(_) => panic!("a command line was expected"),
    }
}

#[test]
fn tunnel_joins_the_ports_through_the_bastion() {
    let t = Tunnel::from_ports(TunnelArgs { local: 8080, remote: 80 }, &hosts("gate"), "web").unwrap();
    let (program, args) = run(t.exec(&config()));
    assert_eq!(program, "ssh");
    assert_eq!(args, vec!["-F", "cfg", "-N", "-L", "8080:10.0.0.5:80", "gate"]);
}

#[test]
fn tunnel_for_a_service_uses_its_port_on_both_ends() {
    for (service, port) in [
        (Service::Rdp, 3389u16),
        (Service::Redis, 6379),
        (Service::Rds, 5432),
        (Service::RabbitMq, 5672),
    ] {
        let t = Tunnel::from_service(&service, &hosts("gate"), "web").unwrap();
        assert_eq!((t.local, t.remote), (port, port));
        assert_eq!(service.port(), port);
    }
    let line = Commands::tunnel_from_service(&Service::Rds, &hosts("gate"), "web", &config()).unwrap();
    assert_eq!(line.args, vec!["-F", "cfg", "-N", "-L", "5432:10.0.0.5:5432", "gate"]);
}

#[test]
fn tunnel_needs_a_bastion_that_is_known() {
    let args = TunnelArgs { local: 1, remote: 2 };
    assert!(matches!(
        Tunnel::from_ports(args, &hosts(""), "web"),
        Err(CommandError::NoBastion)
    ));
    match Tunnel::from_ports(args, &hosts("nowhere"), "web") {
        Err(CommandError::UnknownBastion { name }) => assert_eq!(name, "nowhere"),
        _ => panic!("the bastion is not among the hosts"),
    }
    match Tunnel::from_ports(args, &hosts("gate"), "nobody") {
        Err(CommandError::UnknownHost { name }) => assert_eq!(name, "nobody"),
        _ => panic!("the host is not among the hosts"),
    }
    // the bastion is looked at before the host
    assert!(matches!(
        Tunnel::from_ports(args, &hosts(""), "nobody"),
        Err(CommandError::NoBastion)
    ));
    assert_eq!(CommandError::NoBastion.message(), "Can't tunnel without bastion");
}

#[test]
fn scp_copies_from_the_chosen_host_to_this_directory() {
    let args = ScpArgs { from: "we:logs/app.log".to_string(), to: None };
    assert_eq!(Scp::start_value(&args).unwrap(), "we");
    let s = Scp::new(&args, &hosts(""), "web").unwrap();
    assert_eq!((s.from.as_str(), s.to.as_str()), ("web:logs/app.log", "."));
    let (program, args) = run(s.exec(&config()));
    assert_eq!(program, "scp");
    assert_eq!(args, vec!["-F", "cfg", "-r", "web:logs/app.log", "."]);
}

#[test]
fn scp_copies_to_the_home_of_the_chosen_host_when_no_target_is_given() {
    let args = ScpArgs { from: "fake.toml".to_string(), to: Some(String::new()) };
    assert_eq!(Scp::start_value(&args).unwrap(), "");
    let s = Scp::new(&args, &hosts(""), "web").unwrap();
    assert_eq!((s.from.as_str(), s.to.as_str()), ("fake.toml", "web:"));
    let line = Commands::cp(&args, &hosts(""), "web", &config()).unwrap();
    assert_eq!(line.args, vec!["-F", "cfg", "-r", "fake.toml", "web:"]);
}

#[test]
fn scp_splits_at_the_last_colon() {
    let args = ScpArgs { from: "a".to_string(), to: Some("x:y:z".to_string()) };
    assert_eq!(Scp::start_value(&args).unwrap(), "x:y");
    let s = Scp::new(&args, &hosts(""), "web").unwrap();
    assert_eq!(s.to, "web:z");
}

#[test]
fn scp_wants_exactly_one_remote_side_with_a_path_to_copy_from() {
    let both = ScpArgs { from: "a:b".to_string(), to: Some("c:d".to_string()) };
    assert!(matches!(Scp::new(&both, &hosts(""), "web"), Err(CommandError::BothRemote)));
    assert!(matches!(Scp::start_value(&both), Err(CommandError::BothRemote)));
    let none = ScpArgs { from: "a".to_string(), to: Some("b".to_string()) };
    assert!(matches!(Scp::new(&none, &hosts(""), "web"), Err(CommandError::NoRemote)));
    let no_path = ScpArgs { from: "web:".to_string(), to: None };
    assert!(matches!(Scp::new(&no_path, &hosts(""), "web"), Err(CommandError::FromWithoutPath)));
    let unknown = ScpArgs { from: "web:f".to_string(), to: None };
    assert!(matches!(
        Scp::new(&unknown, &hosts(""), "nobody"),
        Err(CommandError::UnknownHost { .. })
    ));
    assert_eq!(
        CommandError::BothRemote.message(),
        "Both 'From' and 'To' contain ':'. Use ':' for remote host only"
    );
    assert_eq!(
        CommandError::NoRemote.message(),
        "Either 'From' or 'To' must contain ':'. Use ':' for remote host only"
    );
    assert_eq!(
        CommandError::FromWithoutPath.message(),
        "FROM must contain a path to file or folder"
    );
}

#[test]
fn exec_runs_the_command_on_the_host() {
    let x = Exec::new("uptime", &hosts(""), "web").unwrap();
    let (program, args) = run(x.exec(&config()));
    assert_eq!(program, "ssh");
    assert_eq!(args, vec!["-F", "cfg", "web", "uptime"]);
    assert_eq!(Commands::exec("uptime", "web", &config()).args, vec!["-F", "cfg", "web", "uptime"]);
    assert_eq!(Commands::ssh("web", &config()).args, vec!["-F", "cfg", "web"]);
}

#[test]
fn code_opens_the_editor_without_the_arguments_of_ssh() {
    let line = Commands::code("web", &config());
    assert_eq!(line.program, "code");
    assert_eq!(line.args, vec!["--folder-uri", "vscode-remote://ssh-remote+web/"]);
    let windows = Config::new("C:/Users/me".to_string(), true, vec![]);
    assert_eq!(Commands::code("web", &windows).program, "code.cmd");
}

#[test]
fn info_shows_the_host() {
    let i = Info::new(&hosts(""), "win").unwrap();
    match i.exec(&config()) {
        Effect::Show(h) => {
            assert_eq!(h.name, "win");
            assert_eq!(h.address, "10.0.0.9");
            assert_eq!(h.profile, "prod");
        }
        Effect::Run(_) => panic!("a host was expected"),
    }
    assert!(matches!(Commands::info(&hosts(""), "nobody"), Err(CommandError::UnknownHost { .. })));
}

#[test]
fn event_logs_are_for_windows_hosts_only() {
    assert!(matches!(
        Commands::win_event_log(&hosts(""), "web", &config()),
        Err(CommandError::WindowsOnly)
    ));
    let plan = Commands::win_event_log(&hosts(""), "win", &config()).unwrap();
    assert_eq!(plan.len(), 2);
    assert_eq!(plan[0].program, "ssh");
    assert_eq!(
        plan[0].args,
        vec![
            "-F",
            "cfg",
            "win",
            r#"cmd /C "del /Q *.evtx & wevtutil epl System sys.evtx & wevtutil epl Application app.evtx & tar -acf evtx.zip *.evtx""#
        ]
    );
    assert_eq!(plan[1].program, "scp");
    assert_eq!(plan[1].args, vec!["-F", "cfg", "win:evtx.zip", "."]);
    assert_eq!(CommandError::WindowsOnly.message(), "This command works for Windows only");
}

#[test]
fn container_event_logs_take_three_steps() {
    let plan = Commands::win_container_event_log(&hosts(""), "win", "abc", &config()).unwrap();
    assert_eq!(plan.len(), 3);
    assert_eq!(
        plan[0].args[3],
        r#"docker exec abc cmd /C "del /Q \*.evtx & wevtutil epl System \sys.evtx & wevtutil epl Application \app.evtx & tar -acf \evtx.zip \*.evtx""#
    );
    assert_eq!(plan[1].args[3], r#"docker cp abc:\evtx.zip .""#);
    assert_eq!(plan[2].args, vec!["-F", "cfg", "win:evtx.zip", "."]);
    assert!(matches!(
        Commands::win_container_event_log(&hosts(""), "web", "abc", &config()),
        Err(CommandError::WindowsOnly)
    ));
}

#[test]
fn vsdbg_copies_the_script_and_runs_it() {
    let plan = Commands::vsdbg(&hosts(""), "web", "c1", "/home/me/.config/ash/vsdbg.sh", &config()).unwrap();
    assert_eq!(plan.len(), 2);
    assert_eq!(plan[0].program, "scp");
    assert_eq!(plan[0].args, vec!["-F", "cfg", "/home/me/.config/ash/vsdbg.sh", "web:"]);
    assert_eq!(plan[1].args, vec!["-F", "cfg", "web", "sudo bash vsdbg.sh c1 4444"]);
}

#[test]
fn files_go_to_this_directory_and_to_the_home_of_the_host() {
    assert_eq!(Commands::get_file("web:/var/log/x", &config()).args, vec!["-F", "cfg", "web:/var/log/x", "."]);
    assert_eq!(Commands::put_file("/tmp/x", "web", &config()).args, vec!["-F", "cfg", "/tmp/x", "web:"]);
}

#[test]
fn containers_are_the_lines_of_three_fields() {
    let listing = "1a,web,nginx:1\nbroken line\n2b,db,postgres\nx,y\n3c,a,b,c\n";
    let found = containers(listing);
    assert_eq!(found.len(), 2);
    assert_eq!(label(&found[0]), "1a - web - nginx:1");
    assert_eq!(label(&found[1]), "2b - db - postgres");
    assert_eq!(select_container(listing, 1).as_deref(), Some("2b"));
    assert_eq!(select_container(listing, 2), None);
}

#[test]
fn the_container_query_runs_as_root_on_linux_only() {
    let h = hosts("");
    let web = h.hosts.get("web").unwrap();
    let win = h.hosts.get("win").unwrap();
    assert_eq!(
        ash::commands::select_container_query(&config(), web).args,
        vec!["-F", "cfg", "web", r#"sudo docker ps --format "{{.ID}},{{.Names}},{{.Image}}""#]
    );
    assert_eq!(
        ash::commands::select_container_query(&config(), win).args,
        vec!["-F", "cfg", "win", r#"docker ps --format "{{.ID}},{{.Names}},{{.Image}}""#]
    );
}

#[test]
fn browsing_enters_directories_and_picks_files() {
    let entries = parse_ls_output("./\n../\nsrc/\nnotes.txt\n", "/").unwrap();
    assert_eq!(Commands::browse_options(&entries), vec!["../", "src/", "notes.txt"]);
    match Commands::browse_remote("web", "/home/u", Some("/home"), &entries, "src/") {
        Browse::Enter(d) => assert_eq!(d, "/home/u/src/"),
        _ => panic!("a directory is entered"),
    }
    match Commands::browse_remote("web", "/home/u", Some("/home"), &entries, "../") {
        Browse::Enter(d) => assert_eq!(d, "/home"),
        _ => panic!("the parent is entered"),
    }
    match Commands::browse_remote("web", "/", None, &entries, "../") {
        Browse::Enter(d) => assert_eq!(d, "/"),
        _ => panic!("without parent the directory stays"),
    }
    match Commands::browse_remote("web", "/home/u", Some("/home"), &entries, "notes.txt") {
        Browse::Picked(p) => assert_eq!(p, "web:/home/u/notes.txt"),
        _ => panic!("a file is picked"),
    }
    match Commands::browse_local("/home/u", Some("/home"), &entries, "notes.txt") {
        Browse::Picked(p) => assert_eq!(p, "/home/u/notes.txt"),
        _ => panic!("a file is picked"),
    }
    assert!(matches!(
        Commands::browse_local("/home/u", None, &entries, "absent"),
        Browse::Unknown
    ));
}

#[test]
fn a_name_map_keeps_the_first_place_of_a_name_and_its_last_value() {
    let mut m: NameMap<String> = NameMap::new();
    assert!(m.is_empty());
    m.insert("a".to_string(), "1".to_string());
    m.insert("b".to_string(), "2".to_string());
    m.insert("a".to_string(), "3".to_string());
    assert_eq!(m.len(), 2);
    assert_eq!(m.name_at(0), "a");
    assert_eq!(m.value_at(0), "3");
    assert_eq!(m.get("b").unwrap(), "2");
    assert_eq!(m.position("b"), Some(1));
    assert!(m.contains_key("a") && !m.contains_key("c"));
    assert_eq!(m.swap_value(1, "4".to_string()), "2");
    assert_eq!(m.get("b").unwrap(), "4");
}
