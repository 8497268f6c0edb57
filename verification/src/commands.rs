//! The commands of this tool, each prepared as the command lines to run
//! once the user has chosen a host, and the readers of what those command
//! lines print.

use vstd::prelude::*;
use vstd::string::StringExecFns;
use itertools::Itertools;
use crate::config::{texts_view, Config, FilePath, FilePathView, Service};
use crate::executable::{
    chosen_host,
    command_line,
    editor,
    editor_line,
    host_result,
    invocation,
    maybe_view,
    pick,
    scp_of,
    tunnel_of,
    CommandError,
    CommandErrorView,
    Exec,
    Hosts,
    Invocation,
    InvocationView,
    Scp,
    ScpArgs,
    ScpView,
    Tunnel,
    TunnelArgs,
    TunnelView,
};
use crate::name_map::lookup;
use crate::parsers::ssh_config_parser::{Host, HostView, Platform};
use crate::text::{
    chars_of,
    ends_with_char,
    line_ranges,
    lines,
    owned,
    pieces,
    split,
    split_ranges,
    str_eq,
    text_of,
};

verus! {

/// What the user asks for.
#[derive(Clone, Debug)]
pub enum Commands {
    /// Copy file/folder from remote
    Cp(ScpArgs),
    /// Create a tunnel for a predefined service
    Service { service: Service },
    /// Create a tunnel for custom ports
    Tunnel(TunnelArgs),
    /// Execute a command remotely
    Exec { command: String },
    /// Connect vscode to remote host
    Code,
    /// Output selected host info
    Info,
    /// Try to setup remote container for remote debug
    Vsdbg,
    /// Get windows event logs
    EventLog,
    /// Get windows container event logs
    ContainerEventLog,
    /// Get file
    Get,
    /// Put file
    Put,
}

/// An entry of a directory.
#[derive(Debug)]
pub struct Entry {
    pub path: FilePath,
    pub file_name: String,
    pub is_dir: bool,
    pub is_selected: bool,
}

pub struct EntryView {
    pub path: FilePathView,
    pub file_name: Seq<char>,
    pub is_dir: bool,
    pub is_selected: bool,
}

impl View for Entry {
    type V = EntryView;

    open spec fn view(&self) -> EntryView {
        EntryView {
            path: self.path@,
            file_name: self.file_name@,
            is_dir: self.is_dir,
            is_selected: self.is_selected,
        }
    }
}

/// Entries as their views.
pub open spec fn entries_view(entries: Seq<Entry>) -> Seq<EntryView> {
    entries.map_values(|e: Entry| e@)
}

/// Whether `a` comes before `b`, or is `b`, in the order of texts: by the
/// first character in which they differ, a text coming before those that it
/// begins.
pub open spec fn text_le(a: Seq<char>, b: Seq<char>) -> bool
    decreases a.len(),
{
    if a.len() == 0 {
        true
    } else if b.len() == 0 {
        false
    } else if a[0] != b[0] {
        (a[0] as u32) < (b[0] as u32)
    } else {
        text_le(a.drop_first(), b.drop_first())
    }
}

/// The key that entries are ordered by: directories before files, and
/// then, where `by_name` is set, by name.
pub open spec fn key_of(e: EntryView, by_name: bool) -> Seq<char> {
    (if e.is_dir {
        "a"@
    } else {
        "b"@
    }) + (if by_name {
        e.file_name
    } else {
        Seq::empty()
    })
}

/// The key that `e` is ordered by.
pub fn entry_key(e: &Entry, by_name: bool) -> (r: String)
    ensures
        r@ == key_of(e@, by_name),
{
    let kind = if e.is_dir {
        "a"
    } else {
        "b"
    };
    if by_name {
        owned(kind).concat(e.file_name.as_str())
    } else {
        let r = owned(kind);
        assert(r@ + Seq::<char>::empty() == r@);
        r
    }
}

/// `itertools::Itertools::sorted_by_key`, which sorts stably, with
/// `entry_key` as the key and texts in the order of `String`. The contract
/// states the order of the keys and that the entries are the same; without
/// names in the key, where a stable sort keeps the directories in their
/// order and the files in theirs, it states the result itself.
#[verifier::external_body]
fn sorted_entries(entries: Vec<Entry>, by_name: bool) -> (r: Vec<Entry>)
    ensures
        entries_view(r@).to_multiset() == entries_view(entries@).to_multiset(),
        forall|i: int, j: int|
            0 <= i <= j < r@.len() ==> text_le(
                key_of(#[trigger] entries_view(r@)[i], by_name),
                key_of(#[trigger] entries_view(r@)[j], by_name),
            ),
        !by_name ==> entries_view(r@) == entries_view(entries@).filter(|e: EntryView| e.is_dir)
            + entries_view(entries@).filter(|e: EntryView| !e.is_dir),
{
    entries.into_iter().sorted_by_key(|e| entry_key(e, by_name)).collect()
}

/// The entry that a line of a listing stands for, below `base`: its name is
/// the line, and it is a directory where the line ends with `/`.
pub open spec fn entry_of(line: Seq<char>, base: Seq<char>) -> EntryView {
    EntryView {
        path: FilePathView { base, parts: seq![line] },
        file_name: line,
        is_dir: line.len() > 0 && line.last() == '/',
        is_selected: false,
    }
}

/// The entries that the lines of a listing stand for, in their order.
pub open spec fn listed(output: Seq<char>, base: Seq<char>) -> Seq<EntryView> {
    lines(output).map_values(|l: Seq<char>| entry_of(l, base))
}

/// What a listing holds: the directories in their order, then the files in
/// theirs.
pub open spec fn parsed_listing(output: Seq<char>, base: Seq<char>) -> Seq<EntryView> {
    listed(output, base).filter(|e: EntryView| e.is_dir) + listed(output, base).filter(
        |e: EntryView| !e.is_dir,
    )
}

/// Reads what `ls -p1` printed for the directory `base_path`: one entry
/// for every line, the directories first.
pub fn parse_ls_output(ls_output: &str, base_path: &str) -> (r: Result<Vec<Entry>, CommandError>)
    ensures
        r matches Ok(entries) && entries_view(entries@) == parsed_listing(ls_output@, base_path@),
{
    let v = chars_of(ls_output);
    let ranges = line_ranges(&v);
    let mut entries: Vec<Entry> = Vec::new();
    let mut i: usize = 0;
    while i < ranges.len()
        invariant
            i <= ranges.len(),
            v@ == ls_output@,
            pieces(v@, ranges@) == lines(ls_output@),
            crate::text::ranges_within(ranges@, 0, v.len() as int),
            entries_view(entries@) == listed(ls_output@, base_path@).take(i as int),
        decreases ranges.len() - i,
    {
        let (a, b) = ranges[i];
        let ghost before = entries@;
        let ghost line = v@.subrange(a as int, b as int);
        assert(lines(ls_output@)[i as int] == line);
        let name = text_of(&v, a, b);
        let mut parts: Vec<String> = Vec::new();
        parts.push(name.clone());
        assert(texts_view(parts@) == seq![line]);
        let e = Entry {
            path: FilePath { base: owned(base_path), parts },
            file_name: name,
            is_dir: b > a && v[b - 1] == '/',
            is_selected: false,
        };
        assert(line.len() > 0 ==> line.last() == v@[b - 1]);
        assert(e@ == entry_of(line, base_path@));
        entries.push(e);
        assert(entries_view(entries@) == entries_view(before).push(e@));
        assert(listed(ls_output@, base_path@).take(i + 1) == listed(ls_output@, base_path@).take(
            i as int,
        ).push(listed(ls_output@, base_path@)[i as int]));
        i += 1;
    }
    assert(listed(ls_output@, base_path@).take(i as int) == listed(ls_output@, base_path@));
    Ok(sorted_entries(entries, false))
}

/// Orders the entries of a directory: the directories first, and each kind
/// by name.
pub fn read_dir(entries: Vec<Entry>) -> (r: Vec<Entry>)
    ensures
        entries_view(r@).to_multiset() == entries_view(entries@).to_multiset(),
        forall|i: int, j: int|
            0 <= i <= j < r@.len() ==> text_le(
                key_of(#[trigger] entries_view(r@)[i], true),
                key_of(#[trigger] entries_view(r@)[j], true),
            ),
{
    sorted_entries(entries, true)
}

/// A container that runs on a host.
#[derive(Clone, Debug)]
pub struct Container {
    pub id: String,
    pub name: String,
    pub image: String,
}

pub struct ContainerView {
    pub id: Seq<char>,
    pub name: Seq<char>,
    pub image: Seq<char>,
}

impl View for Container {
    type V = ContainerView;

    open spec fn view(&self) -> ContainerView {
        ContainerView { id: self.id@, name: self.name@, image: self.image@ }
    }
}

/// Containers as their views.
pub open spec fn containers_view(c: Seq<Container>) -> Seq<ContainerView> {
    c.map_values(|x: Container| x@)
}

/// The container that a line of `docker ps` stands for: the line must hold
/// three fields between commas.
pub open spec fn container_of(line: Seq<char>) -> Option<ContainerView> {
    let fields = split(line, ',');
    if fields.len() == 3 {
        Some(ContainerView { id: fields[0], name: fields[1], image: fields[2] })
    } else {
        None
    }
}

/// The containers among the first `n` lines.
pub open spec fn containers_upto(all: Seq<Seq<char>>, n: int) -> Seq<ContainerView>
    decreases n,
{
    if n <= 0 {
        Seq::empty()
    } else {
        let before = containers_upto(all, n - 1);
        match container_of(all[n - 1]) {
            Some(c) => before.push(c),
            None => before,
        }
    }
}

/// The containers that `docker ps` listed.
pub open spec fn containers_of(listing: Seq<char>) -> Seq<ContainerView> {
    containers_upto(lines(listing), lines(listing).len() as int)
}

/// How a container is shown for the user to choose.
pub open spec fn container_label(c: ContainerView) -> Seq<char> {
    c.id + " - "@ + c.name + " - "@ + c.image
}

/// The format that `docker ps` is asked to list containers in.
pub open spec fn docker_ps() -> Seq<char> {
    "docker ps --format \"{{.ID}},{{.Names}},{{.Image}}\""@
}

/// The command that lists the containers of a host: as root where the host
/// runs Linux.
pub open spec fn container_query(platform: Platform) -> Seq<char> {
    if platform == Platform::Lnx {
        "sudo "@ + docker_ps()
    } else {
        docker_ps()
    }
}

/// The script that collects the event logs of a Windows host.
pub open spec fn collect_logs() -> Seq<char> {
    "cmd /C \"del /Q *.evtx & wevtutil epl System sys.evtx & wevtutil epl Application app.evtx & tar -acf evtx.zip *.evtx\""@
}

/// The script that collects the event logs of a container on a Windows
/// host.
pub open spec fn collect_container_logs(container: Seq<char>) -> Seq<char> {
    "docker exec "@ + container
        + " cmd /C \"del /Q \\*.evtx & wevtutil epl System \\sys.evtx & wevtutil epl Application \\app.evtx & tar -acf \\evtx.zip \\*.evtx\""@
}

/// The command that copies the collected logs out of a container.
pub open spec fn copy_container_logs(container: Seq<char>) -> Seq<char> {
    "docker cp "@ + container + ":\\evtx.zip .\""@
}

/// The command that starts the debugger in a container.
pub open spec fn start_debugger(container: Seq<char>) -> Seq<char> {
    "sudo bash vsdbg.sh "@ + container + " 4444"@
}

/// Command lines as their views.
pub open spec fn invocations_view(c: Seq<Invocation>) -> Seq<InvocationView> {
    c.map_values(|x: Invocation| x@)
}

/// The command line of `ssh` that runs `command` on `host`.
pub open spec fn remote_line(common: Seq<Seq<char>>, host: Seq<char>, command: Seq<char>) -> InvocationView {
    command_line("ssh"@, common, seq![host, command])
}

/// The command line of `scp` that copies `from` to `to`.
pub open spec fn copy_line(common: Seq<Seq<char>>, from: Seq<char>, to: Seq<char>) -> InvocationView {
    command_line("scp"@, common, seq![from, to])
}

/// The command line of `ssh` that runs `command` on `host`.
pub fn ssh_execute(config: &Config, host: &str, command: &str) -> (r: Invocation)
    ensures
        r@ == remote_line(texts_view(config.ssh_args@), host@, command@),
{
    let mut rest: Vec<String> = Vec::new();
    rest.push(owned(host));
    rest.push(owned(command));
    assert(texts_view(rest@) == seq![host@, command@]);
    invocation("ssh", config, rest)
}

/// The command line of `scp` that copies `from` to `to`.
pub fn scp_execute(config: &Config, from: &str, to: &str) -> (r: Invocation)
    ensures
        r@ == copy_line(texts_view(config.ssh_args@), from@, to@),
{
    let mut rest: Vec<String> = Vec::new();
    rest.push(owned(from));
    rest.push(owned(to));
    assert(texts_view(rest@) == seq![from@, to@]);
    invocation("scp", config, rest)
}

/// The command line that lists the containers of `host`.
pub fn select_container_query(config: &Config, host: &Host) -> (r: Invocation)
    ensures
        r@ == remote_line(texts_view(config.ssh_args@), host@.name, container_query(host@.platform)),
{
    let format = "docker ps --format \"{{.ID}},{{.Names}},{{.Image}}\"";
    let command = match host.platform {
        Platform::Lnx => owned("sudo ").concat(format),
        Platform::Win => owned(format),
    };
    ssh_execute(config, host.name.as_str(), command.as_str())
}

/// Reads what `docker ps` printed: one container for every line of three
/// fields.
pub fn containers(listing: &str) -> (r: Vec<Container>)
    ensures
        containers_view(r@) == containers_of(listing@),
{
    let v = chars_of(listing);
    let ranges = line_ranges(&v);
    let ghost all = lines(listing@);
    let mut found: Vec<Container> = Vec::new();
    let mut i: usize = 0;
    while i < ranges.len()
        invariant
            i <= ranges.len(),
            v@ == listing@,
            all == lines(listing@),
            pieces(v@, ranges@) == all,
            crate::text::ranges_within(ranges@, 0, v.len() as int),
            containers_view(found@) == containers_upto(all, i as int),
        decreases ranges.len() - i,
    {
        let (a, b) = ranges[i];
        assert(all[i as int] == v@.subrange(a as int, b as int));
        let fields = split_ranges(&v, a, b, ',');
        if fields.len() == 3 {
            let ghost before = found@;
            let ghost parts = split(all[i as int], ',');
            assert(pieces(v@, fields@)[0] == parts[0]);
            assert(pieces(v@, fields@)[1] == parts[1]);
            assert(pieces(v@, fields@)[2] == parts[2]);
            let c = Container {
                id: text_of(&v, fields[0].0, fields[0].1),
                name: text_of(&v, fields[1].0, fields[1].1),
                image: text_of(&v, fields[2].0, fields[2].1),
            };
            found.push(c);
            assert(containers_view(found@) == containers_view(before).push(c@));
        } else {
            assert(pieces(v@, fields@).len() == fields.len());
        }
        i += 1;
    }
    found
}

/// How `c` is shown for the user to choose.
pub fn label(c: &Container) -> (r: String)
    ensures
        r@ == container_label(c@),
{
    c.id.clone().concat(" - ").concat(c.name.as_str()).concat(" - ").concat(c.image.as_str())
}

/// The container that the user chose among those that `docker ps` listed,
/// by its position: its id.
pub fn select_container(listing: &str, chosen: usize) -> (r: Option<String>)
    ensures
        match r {
            Some(id) => chosen < containers_of(listing@).len() && id@ == containers_of(
                listing@,
            )[chosen as int].id,
            None => chosen >= containers_of(listing@).len(),
        },
{
    let found = containers(listing);
    if chosen < found.len() {
        assert(containers_view(found@)[chosen as int] == found@[chosen as int]@);
        Some(found[chosen].id.clone())
    } else {
        None
    }
}

/// Views of the outcome of preparing command lines.
pub open spec fn lines_result(r: Result<Vec<Invocation>, CommandError>) -> Result<
    Seq<InvocationView>,
    CommandErrorView,
> {
    match r {
        Ok(i) => Ok(invocations_view(i@)),
        Err(e) => Err(e@),
    }
}

/// The host named `choice`, which must run Windows.
pub open spec fn windows_host(hosts: Seq<(Seq<char>, HostView)>, choice: Seq<char>) -> Result<
    HostView,
    CommandErrorView,
> {
    match lookup(hosts, choice) {
        None => Err(CommandErrorView::UnknownHost { name: choice }),
        Some(h) => if h.platform == Platform::Win {
            Ok(h)
        } else {
            Err(CommandErrorView::WindowsOnly)
        },
    }
}

/// What one step of browsing comes to.
pub enum Browse {
    /// The directory to list next.
    Enter(String),
    /// The file that was chosen, as `scp` takes it.
    Picked(String),
    /// Nothing: the name that was chosen is not among the entries.
    Unknown,
}

pub enum BrowseView {
    Enter(Seq<char>),
    Picked(Seq<char>),
    Unknown,
}

impl View for Browse {
    type V = BrowseView;

    open spec fn view(&self) -> BrowseView {
        match self {
            Browse::Enter(d) => BrowseView::Enter(d@),
            Browse::Picked(p) => BrowseView::Picked(p@),
            Browse::Unknown => BrowseView::Unknown,
        }
    }
}

/// Position of the first of the first `n` entries named `file`, or `n`.
pub open spec fn entry_index(entries: Seq<EntryView>, file: Seq<char>, n: int) -> int
    decreases n,
{
    if n <= 0 {
        0
    } else {
        let before = entry_index(entries, file, n - 1);
        if before < n - 1 {
            before
        } else if entries[n - 1].file_name == file {
            n - 1
        } else {
            n
        }
    }
}

/// The names to choose from among the first `n` entries: all but `./`.
pub open spec fn options_upto(entries: Seq<EntryView>, n: int) -> Seq<Seq<char>>
    decreases n,
{
    if n <= 0 {
        Seq::empty()
    } else {
        let before = options_upto(entries, n - 1);
        if entries[n - 1].file_name == "./"@ {
            before
        } else {
            before.push(entries[n - 1].file_name)
        }
    }
}

/// What choosing `file` among `entries` of the directory `base_dir` comes
/// to, `prefix` standing before the path of a file that is picked. A
/// directory is entered; `../` leads to `parent`, and nowhere if there is
/// none.
pub open spec fn browsed(
    prefix: Seq<char>,
    base_dir: Seq<char>,
    parent: Option<Seq<char>>,
    entries: Seq<EntryView>,
    file: Seq<char>,
) -> BrowseView {
    let at = entry_index(entries, file, entries.len() as int);
    if at >= entries.len() {
        BrowseView::Unknown
    } else if !entries[at].is_dir {
        BrowseView::Picked(prefix + base_dir + "/"@ + file)
    } else if file == "../"@ {
        match parent {
            Some(p) => BrowseView::Enter(p),
            None => BrowseView::Enter(base_dir),
        }
    } else {
        BrowseView::Enter(base_dir + "/"@ + file)
    }
}

impl Commands {
    /// The command line that opens a tunnel between the ports of `args`, to
    /// the host named `choice`.
    pub fn tunnel_from_ports(args: TunnelArgs, hosts: &Hosts, choice: &str, config: &Config) -> (r:
        Result<Invocation, CommandError>)
        ensures
            match r {
                Ok(line) => tunnel_of(
                    args.local,
                    args.remote,
                    hosts.hosts@,
                    hosts.bastion@,
                    choice@,
                ) matches Ok(t) && line@ == command_line(
                    "ssh"@,
                    texts_view(config.ssh_args@),
                    seq![
                        "-N"@,
                        "-L"@,
                        crate::executable::forward(t.local, t.host.address, t.remote),
                        t.bastion.name,
                    ],
                ),
                Err(e) => tunnel_of(args.local, args.remote, hosts.hosts@, hosts.bastion@, choice@)
                    == Err::<TunnelView, CommandErrorView>(e@),
            },
    {
        match Tunnel::from_ports(args, hosts, choice) {
            Ok(t) => Ok(t.command(config)),
            Err(e) => Err(e),
        }
    }

    /// The command line that opens a tunnel for `service`, to the host
    /// named `choice`.
    pub fn tunnel_from_service(service: &Service, hosts: &Hosts, choice: &str, config: &Config) -> (r:
        Result<Invocation, CommandError>)
        ensures
            match r {
                Ok(line) => tunnel_of(
                    crate::config::service_port(*service),
                    crate::config::service_port(*service),
                    hosts.hosts@,
                    hosts.bastion@,
                    choice@,
                ) matches Ok(t) && line@ == command_line(
                    "ssh"@,
                    texts_view(config.ssh_args@),
                    seq![
                        "-N"@,
                        "-L"@,
                        crate::executable::forward(t.local, t.host.address, t.remote),
                        t.bastion.name,
                    ],
                ),
                Err(e) => tunnel_of(
                    crate::config::service_port(*service),
                    crate::config::service_port(*service),
                    hosts.hosts@,
                    hosts.bastion@,
                    choice@,
                ) == Err::<TunnelView, CommandErrorView>(e@),
            },
    {
        let port = service.port();
        Commands::tunnel_from_ports(TunnelArgs { local: port, remote: port }, hosts, choice, config)
    }

    /// The command line that makes the copy that `args` ask for, with the
    /// host named `choice` on its remote side.
    pub fn cp(args: &ScpArgs, hosts: &Hosts, choice: &str, config: &Config) -> (r: Result<
        Invocation,
        CommandError,
    >)
        ensures
            match r {
                Ok(line) => scp_of(args.from@, maybe_view(args.to), hosts.hosts@, choice@) matches Ok(
                    s,
                ) && line@ == command_line(
                    "scp"@,
                    texts_view(config.ssh_args@),
                    seq!["-r"@, s.from, s.to],
                ),
                Err(e) => scp_of(args.from@, maybe_view(args.to), hosts.hosts@, choice@) == Err::<
                    ScpView,
                    CommandErrorView,
                >(e@),
            },
    {
        match Scp::new(args, hosts, choice) {
            Ok(s) => Ok(s.command(config)),
            Err(e) => Err(e),
        }
    }

    /// The command line that opens a shell on the host named `choice`.
    pub fn ssh(choice: &str, config: &Config) -> (r: Invocation)
        ensures
            r@ == command_line("ssh"@, texts_view(config.ssh_args@), seq![choice@]),
    {
        let mut rest: Vec<String> = Vec::new();
        rest.push(owned(choice));
        assert(texts_view(rest@) == seq![choice@]);
        invocation("ssh", config, rest)
    }

    /// The command line that runs `command` on the host named `choice`.
    pub fn exec(command: &str, choice: &str, config: &Config) -> (r: Invocation)
        ensures
            r@ == remote_line(texts_view(config.ssh_args@), choice@, command@),
    {
        ssh_execute(config, choice, command)
    }

    /// The command line that opens the editor on the host named `choice`.
    pub fn code(choice: &str, config: &Config) -> (r: Invocation)
        ensures
            r@ == editor_line(config.windows, choice@),
    {
        editor(config, choice)
    }

    /// The host named `choice`, to show what is known of it.
    pub fn info(hosts: &Hosts, choice: &str) -> (r: Result<Host, CommandError>)
        ensures
            host_result(r) == chosen_host(hosts.hosts@, choice@),
    {
        pick(hosts, choice)
    }

    /// The host named `choice`, which must run Windows.
    pub fn require_windows(hosts: &Hosts, choice: &str) -> (r: Result<Host, CommandError>)
        ensures
            host_result(r) == windows_host(hosts.hosts@, choice@),
    {
        match pick(hosts, choice) {
            Ok(h) => {
                if h.platform == Platform::Win {
                    Ok(h)
                } else {
                    Err(CommandError::WindowsOnly)
                }
            },
            Err(e) => Err(e),
        }
    }

    /// The command lines that set the container `container` of the host
    /// named `choice` up for remote debugging: the script `script` is
    /// copied to the host, and run there.
    pub fn vsdbg(hosts: &Hosts, choice: &str, container: &str, script: &str, config: &Config) -> (r:
        Result<Vec<Invocation>, CommandError>)
        ensures
            lines_result(r) == match chosen_host(hosts.hosts@, choice@) {
                Ok(_) => Ok(
                    seq![
                        copy_line(texts_view(config.ssh_args@), script@, choice@ + ":"@),
                        remote_line(texts_view(config.ssh_args@), choice@, start_debugger(container@)),
                    ],
                ),
                Err(e) => Err(e),
            },
    {
        match pick(hosts, choice) {
            Ok(_) => {},
            Err(e) => {
                return Err(e);
            },
        }
        let target = owned(choice).concat(":");
        let command = owned("sudo bash vsdbg.sh ").concat(container).concat(" 4444");
        let mut plan: Vec<Invocation> = Vec::new();
        let first = scp_execute(config, script, target.as_str());
        let second = ssh_execute(config, choice, command.as_str());
        plan.push(first);
        plan.push(second);
        assert(invocations_view(plan@) == seq![first@, second@]);
        Ok(plan)
    }

    /// The command lines that fetch the event logs of the host named
    /// `choice`, which must run Windows: the logs are collected there, and
    /// copied here.
    pub fn win_event_log(hosts: &Hosts, choice: &str, config: &Config) -> (r: Result<
        Vec<Invocation>,
        CommandError,
    >)
        ensures
            lines_result(r) == match windows_host(hosts.hosts@, choice@) {
                Ok(_) => Ok(
                    seq![
                        remote_line(texts_view(config.ssh_args@), choice@, collect_logs()),
                        copy_line(texts_view(config.ssh_args@), choice@ + ":evtx.zip"@, "."@),
                    ],
                ),
                Err(e) => Err(e),
            },
    {
        match Commands::require_windows(hosts, choice) {
            Ok(_) => {},
            Err(e) => {
                return Err(e);
            },
        }
        let source = owned(choice).concat(":evtx.zip");
        let mut plan: Vec<Invocation> = Vec::new();
        let first = ssh_execute(
            config,
            choice,
            "cmd /C \"del /Q *.evtx & wevtutil epl System sys.evtx & wevtutil epl Application app.evtx & tar -acf evtx.zip *.evtx\"",
        );
        let second = scp_execute(config, source.as_str(), ".");
        plan.push(first);
        plan.push(second);
        assert(invocations_view(plan@) == seq![first@, second@]);
        Ok(plan)
    }

    /// The command lines that fetch the event logs of the container
    /// `container` on the host named `choice`, which must run Windows: the
    /// logs are collected in the container, copied to the host, and copied
    /// here.
    pub fn win_container_event_log(hosts: &Hosts, choice: &str, container: &str, config: &Config) -> (r:
        Result<Vec<Invocation>, CommandError>)
        ensures
            lines_result(r) == match windows_host(hosts.hosts@, choice@) {
                Ok(_) => Ok(
                    seq![
                        remote_line(
                            texts_view(config.ssh_args@),
                            choice@,
                            collect_container_logs(container@),
                        ),
                        remote_line(
                            texts_view(config.ssh_args@),
                            choice@,
                            copy_container_logs(container@),
                        ),
                        copy_line(texts_view(config.ssh_args@), choice@ + ":evtx.zip"@, "."@),
                    ],
                ),
                Err(e) => Err(e),
            },
    {
        match Commands::require_windows(hosts, choice) {
            Ok(_) => {},
            Err(e) => {
                return Err(e);
            },
        }
        let collect = owned("docker exec ").concat(container).concat(
            " cmd /C \"del /Q \\*.evtx & wevtutil epl System \\sys.evtx & wevtutil epl Application \\app.evtx & tar -acf \\evtx.zip \\*.evtx\"",
        );
        let copy = owned("docker cp ").concat(container).concat(":\\evtx.zip .\"");
        let source = owned(choice).concat(":evtx.zip");
        let mut plan: Vec<Invocation> = Vec::new();
        let first = ssh_execute(config, choice, collect.as_str());
        let second = ssh_execute(config, choice, copy.as_str());
        let third = scp_execute(config, source.as_str(), ".");
        plan.push(first);
        plan.push(second);
        plan.push(third);
        assert(invocations_view(plan@) == seq![first@, second@, third@]);
        Ok(plan)
    }

    /// The command line that copies the remote file `path`, as browsing
    /// picked it, to this directory.
    pub fn get_file(path: &str, config: &Config) -> (r: Invocation)
        ensures
            r@ == copy_line(texts_view(config.ssh_args@), path@, "."@),
    {
        scp_execute(config, path, ".")
    }

    /// The command line that copies the local file `path`, as browsing
    /// picked it, to the home of the host named `choice`.
    pub fn put_file(path: &str, choice: &str, config: &Config) -> (r: Invocation)
        ensures
            r@ == copy_line(texts_view(config.ssh_args@), path@, choice@ + ":"@),
    {
        let target = owned(choice).concat(":");
        scp_execute(config, path, target.as_str())
    }

    /// The names to choose from while browsing `entries`: all but `./`.
    pub fn browse_options(entries: &Vec<Entry>) -> (r: Vec<String>)
        ensures
            texts_view(r@) == options_upto(entries_view(entries@), entries@.len() as int),
    {
        let here = owned("./");
        let mut names: Vec<String> = Vec::new();
        let mut i: usize = 0;
        while i < entries.len()
            invariant
                i <= entries.len(),
                here@ == "./"@,
                texts_view(names@) == options_upto(entries_view(entries@), i as int),
            decreases entries.len() - i,
        {
            assert(entries_view(entries@)[i as int] == entries@[i as int]@);
            if entries[i].file_name != here {
                let ghost before = names@;
                let n = entries[i].file_name.clone();
                names.push(n);
                assert(texts_view(names@) == texts_view(before).push(n@));
            }
            i += 1;
        }
        names
    }

    /// One step of browsing: the user chose `file` among `entries` of the
    /// directory `base_dir`, whose parent is `parent`. `prefix` stands
    /// before the path of a file that is picked.
    pub fn browse(
        prefix: &str,
        base_dir: &str,
        parent: Option<&str>,
        entries: &Vec<Entry>,
        file: &str,
    ) -> (r: Browse)
        ensures
            r@ == browsed(
                prefix@,
                base_dir@,
                crate::aws::discovery::option_view(parent),
                entries_view(entries@),
                file@,
            ),
    {
        let wanted = owned(file);
        let mut i: usize = 0;
        while i < entries.len()
            invariant
                i <= entries.len(),
                wanted@ == file@,
                entry_index(entries_view(entries@), file@, i as int) == i,
            decreases entries.len() - i,
        {
            assert(entries_view(entries@)[i as int] == entries@[i as int]@);
            if entries[i].file_name == wanted {
                proof {
                    lemma_entry_index(entries_view(entries@), file@, i as int, entries@.len() as int);
                }
                if !entries[i].is_dir {
                    return Browse::Picked(
                        owned(prefix).concat(base_dir).concat("/").concat(file),
                    );
                }
                if str_eq(file, "../") {
                    return match parent {
                        Some(p) => Browse::Enter(owned(p)),
                        None => Browse::Enter(owned(base_dir)),
                    };
                }
                return Browse::Enter(owned(base_dir).concat("/").concat(file));
            }
            i += 1;
        }
        Browse::Unknown
    }

    /// One step of browsing a host: a file that is picked is named as `scp`
    /// takes it, with the host before its path.
    pub fn browse_remote(
        host_name: &str,
        base_dir: &str,
        parent: Option<&str>,
        entries: &Vec<Entry>,
        file: &str,
    ) -> (r: Browse)
        ensures
            r@ == browsed(
                host_name@ + ":"@,
                base_dir@,
                crate::aws::discovery::option_view(parent),
                entries_view(entries@),
                file@,
            ),
    {
        let prefix = owned(host_name).concat(":");
        Commands::browse(prefix.as_str(), base_dir, parent, entries, file)
    }

    /// One step of browsing this machine.
    pub fn browse_local(
        base_dir: &str,
        parent: Option<&str>,
        entries: &Vec<Entry>,
        file: &str,
    ) -> (r: Browse)
        ensures
            r@ == browsed(
                Seq::empty(),
                base_dir@,
                crate::aws::discovery::option_view(parent),
                entries_view(entries@),
                file@,
            ),
    {
        let r = Commands::browse("", base_dir, parent, entries, file);
        proof {
            reveal_strlit("");
            assert(""@ == Seq::<char>::empty());
        }
        r
    }
}

/// Once an entry named `file` is found at `k` with none before it, it is
/// the one that `entry_index` gives however many entries follow.
pub proof fn lemma_entry_index(entries: Seq<EntryView>, file: Seq<char>, k: int, n: int)
    requires
        0 <= k < n <= entries.len(),
        entry_index(entries, file, k) == k,
        entries[k].file_name == file,
    ensures
        entry_index(entries, file, n) == k,
    decreases n,
{
    if n > k + 1 {
        lemma_entry_index(entries, file, k, n - 1);
    }
}

} // verus!
