//! The things this tool can do on a chosen host, each prepared as a command
//! line to run or as a host to show.

use vstd::prelude::*;
use vstd::string::StringExecFns;
use crate::config::{service_port, texts_view, Config, Service};
use crate::name_map::{lookup, NameMap};
use crate::parsers::ssh_config_parser::{Host, HostView};
use crate::text::{
    chars_of,
    contains_char,
    decimal,
    decimal_text,
    last_index,
    lemma_last_index,
    owned,
    rfind_char,
    text_of,
};

verus! {

/// The hosts to choose from, the text to seed the choice with, and the name
/// of the bastion host, empty where there is none.
pub struct Hosts {
    pub hosts: NameMap<Host>,
    pub start_value: String,
    pub bastion: String,
}

/// The two ends of a tunnel.
#[derive(Clone, Copy, Debug)]
pub struct TunnelArgs {
    /// Local port
    pub local: u16,
    /// Remote port
    pub remote: u16,
}

/// What to copy, and where to. The side that holds `:` is the remote one:
/// what stands before the last `:` seeds the choice of the host, what
/// stands after it is the path there.
#[derive(Clone, Debug)]
pub struct ScpArgs {
    pub from: String,
    pub to: Option<String>,
}

/// A command line: the program to run, and its arguments.
#[derive(Clone, Debug)]
pub struct Invocation {
    pub program: String,
    pub args: Vec<String>,
}

pub struct InvocationView {
    pub program: Seq<char>,
    pub args: Seq<Seq<char>>,
}

impl View for Invocation {
    type V = InvocationView;

    open spec fn view(&self) -> InvocationView {
        InvocationView { program: self.program@, args: texts_view(self.args@) }
    }
}

/// What doing a thing comes to: a command line to run, or a host to show.
pub enum Effect {
    Run(Invocation),
    Show(Host),
}

pub enum EffectView {
    Run(InvocationView),
    Show(HostView),
}

impl View for Effect {
    type V = EffectView;

    open spec fn view(&self) -> EffectView {
        match self {
            Effect::Run(i) => EffectView::Run(i@),
            Effect::Show(h) => EffectView::Show(h@),
        }
    }
}

/// Why a thing cannot be prepared.
#[derive(Clone, Debug)]
pub enum CommandError {
    /// A tunnel needs a bastion, and none is named.
    NoBastion,
    /// The bastion that is named is not among the hosts.
    UnknownBastion { name: String },
    /// The host that was chosen is not among the hosts.
    UnknownHost { name: String },
    /// Both sides of a copy hold `:`.
    BothRemote,
    /// Neither side of a copy holds `:`.
    NoRemote,
    /// The remote side to copy from names no path.
    FromWithoutPath,
    /// The host does not run Windows.
    WindowsOnly,
}

pub enum CommandErrorView {
    NoBastion,
    UnknownBastion { name: Seq<char> },
    UnknownHost { name: Seq<char> },
    BothRemote,
    NoRemote,
    FromWithoutPath,
    WindowsOnly,
}

impl View for CommandError {
    type V = CommandErrorView;

    open spec fn view(&self) -> CommandErrorView {
        match self {
            CommandError::NoBastion => CommandErrorView::NoBastion,
            CommandError::UnknownBastion { name } => CommandErrorView::UnknownBastion { name: name@ },
            CommandError::UnknownHost { name } => CommandErrorView::UnknownHost { name: name@ },
            CommandError::BothRemote => CommandErrorView::BothRemote,
            CommandError::NoRemote => CommandErrorView::NoRemote,
            CommandError::FromWithoutPath => CommandErrorView::FromWithoutPath,
            CommandError::WindowsOnly => CommandErrorView::WindowsOnly,
        }
    }
}

/// What an error says to the user.
pub open spec fn error_text(e: CommandErrorView) -> Seq<char> {
    match e {
        CommandErrorView::NoBastion => "Can't tunnel without bastion"@,
        CommandErrorView::UnknownBastion { name } => "Can't find bastion "@ + name,
        CommandErrorView::UnknownHost { name } => "Can't find host "@ + name,
        CommandErrorView::BothRemote =>
            "Both 'From' and 'To' contain ':'. Use ':' for remote host only"@,
        CommandErrorView::NoRemote =>
            "Either 'From' or 'To' must contain ':'. Use ':' for remote host only"@,
        CommandErrorView::FromWithoutPath => "FROM must contain a path to file or folder"@,
        CommandErrorView::WindowsOnly => "This command works for Windows only"@,
    }
}

impl CommandError {
    /// What this error says to the user.
    pub fn message(&self) -> (r: String)
        ensures
            r@ == error_text(self@),
    {
        match self {
            CommandError::NoBastion => owned("Can't tunnel without bastion"),
            CommandError::UnknownBastion { name } => owned("Can't find bastion ").concat(
                name.as_str(),
            ),
            CommandError::UnknownHost { name } => owned("Can't find host ").concat(name.as_str()),
            CommandError::BothRemote => owned(
                "Both 'From' and 'To' contain ':'. Use ':' for remote host only",
            ),
            CommandError::NoRemote => owned(
                "Either 'From' or 'To' must contain ':'. Use ':' for remote host only",
            ),
            CommandError::FromWithoutPath => owned("FROM must contain a path to file or folder"),
            CommandError::WindowsOnly => owned("This command works for Windows only"),
        }
    }
}

/// A thing that this tool can do, once it is prepared.
pub trait Executable {
    /// What doing it comes to.
    fn exec(&self, config: &Config) -> Effect;
}

/// The host named `name`, or the failure to find it.
pub open spec fn chosen_host(hosts: Seq<(Seq<char>, HostView)>, name: Seq<char>) -> Result<
    HostView,
    CommandErrorView,
> {
    match lookup(hosts, name) {
        Some(h) => Ok(h),
        None => Err(CommandErrorView::UnknownHost { name }),
    }
}

/// Views of the outcome of a choice.
pub open spec fn host_result(r: Result<Host, CommandError>) -> Result<HostView, CommandErrorView> {
    match r {
        Ok(h) => Ok(h@),
        Err(e) => Err(e@),
    }
}

/// The host that was chosen.
pub fn pick(hosts: &Hosts, choice: &str) -> (r: Result<Host, CommandError>)
    ensures
        host_result(r) == chosen_host(hosts.hosts@, choice@),
{
    match hosts.hosts.get(choice) {
        Some(h) => Ok(h.duplicate()),
        None => Err(CommandError::UnknownHost { name: owned(choice) }),
    }
}

/// The command line of `program`: the common arguments of `config`, then
/// `rest`.
pub open spec fn command_line(
    program: Seq<char>,
    common: Seq<Seq<char>>,
    rest: Seq<Seq<char>>,
) -> InvocationView {
    InvocationView { program, args: common + rest }
}

/// The command line of `program`: the common arguments of `config`, then
/// `rest`.
pub fn invocation(program: &str, config: &Config, rest: Vec<String>) -> (r: Invocation)
    ensures
        r@ == command_line(program@, texts_view(config.ssh_args@), texts_view(rest@)),
{
    let mut args: Vec<String> = Vec::new();
    let mut i: usize = 0;
    while i < config.ssh_args.len()
        invariant
            i <= config.ssh_args.len(),
            texts_view(args@) == texts_view(config.ssh_args@).take(i as int),
        decreases config.ssh_args.len() - i,
    {
        let ghost before = args@;
        let a = config.ssh_args[i].clone();
        args.push(a);
        assert(texts_view(args@) == texts_view(before).push(a@));
        assert(texts_view(config.ssh_args@).take(i + 1) == texts_view(config.ssh_args@).take(
            i as int,
        ).push(texts_view(config.ssh_args@)[i as int]));
        i += 1;
    }
    assert(texts_view(config.ssh_args@).take(i as int) == texts_view(config.ssh_args@));
    let mut j: usize = 0;
    while j < rest.len()
        invariant
            j <= rest.len(),
            texts_view(args@) == texts_view(config.ssh_args@) + texts_view(rest@).take(j as int),
        decreases rest.len() - j,
    {
        let ghost before = args@;
        let a = rest[j].clone();
        args.push(a);
        assert(texts_view(args@) == texts_view(before).push(a@));
        assert(texts_view(rest@).take(j + 1) == texts_view(rest@).take(j as int).push(
            texts_view(rest@)[j as int],
        ));
        j += 1;
    }
    assert(texts_view(rest@).take(j as int) == texts_view(rest@));
    Invocation { program: owned(program), args }
}

/// A tunnel from a local port to a port of a host, through the bastion.
#[derive(Clone, Debug)]
pub struct Tunnel {
    pub local: u16,
    pub remote: u16,
    pub host: Host,
    pub bastion: Host,
}

pub struct TunnelView {
    pub local: u16,
    pub remote: u16,
    pub host: HostView,
    pub bastion: HostView,
}

impl View for Tunnel {
    type V = TunnelView;

    open spec fn view(&self) -> TunnelView {
        TunnelView {
            local: self.local,
            remote: self.remote,
            host: self.host@,
            bastion: self.bastion@,
        }
    }
}

/// The tunnel between `local` and `remote` of the host named `choice`. It
/// needs a bastion that is named and is among the hosts; only then does the
/// chosen host count.
pub open spec fn tunnel_of(
    local: u16,
    remote: u16,
    hosts: Seq<(Seq<char>, HostView)>,
    bastion: Seq<char>,
    choice: Seq<char>,
) -> Result<TunnelView, CommandErrorView> {
    if bastion.len() == 0 {
        Err(CommandErrorView::NoBastion)
    } else {
        match lookup(hosts, bastion) {
            None => Err(CommandErrorView::UnknownBastion { name: bastion }),
            Some(b) => match lookup(hosts, choice) {
                None => Err(CommandErrorView::UnknownHost { name: choice }),
                Some(h) => Ok(TunnelView { local, remote, host: h, bastion: b }),
            },
        }
    }
}

/// Views of the outcome of preparing a tunnel.
pub open spec fn tunnel_result(r: Result<Tunnel, CommandError>) -> Result<TunnelView, CommandErrorView> {
    match r {
        Ok(t) => Ok(t@),
        Err(e) => Err(e@),
    }
}

/// The argument that tells `ssh` which ports to join.
pub open spec fn forward(local: u16, address: Seq<char>, remote: u16) -> Seq<char> {
    decimal(local as nat) + ":"@ + address + ":"@ + decimal(remote as nat)
}

impl Tunnel {
    /// The bastion of `hosts`: it must be named, and be among the hosts.
    pub fn bastion_of(hosts: &Hosts) -> (r: Result<Host, CommandError>)
        ensures
            host_result(r) == if hosts.bastion@.len() == 0 {
                Err(CommandErrorView::NoBastion)
            } else {
                match lookup(hosts.hosts@, hosts.bastion@) {
                    Some(b) => Ok(b),
                    None => Err(CommandErrorView::UnknownBastion { name: hosts.bastion@ }),
                }
            },
    {
        if hosts.bastion.as_str().is_empty() {
            return Err(CommandError::NoBastion);
        }
        match hosts.hosts.get(hosts.bastion.as_str()) {
            Some(b) => Ok(b.duplicate()),
            None => Err(CommandError::UnknownBastion { name: hosts.bastion.clone() }),
        }
    }

    /// The tunnel between the ports of `args`, to the host named `choice`.
    pub fn from_ports(args: TunnelArgs, hosts: &Hosts, choice: &str) -> (r: Result<
        Tunnel,
        CommandError,
    >)
        ensures
            tunnel_result(r) == tunnel_of(
                args.local,
                args.remote,
                hosts.hosts@,
                hosts.bastion@,
                choice@,
            ),
    {
        let bastion = match Tunnel::bastion_of(hosts) {
            Ok(b) => b,
            Err(e) => {
                return Err(e);
            },
        };
        let host = match pick(hosts, choice) {
            Ok(h) => h,
            Err(e) => {
                return Err(e);
            },
        };
        Ok(Tunnel { local: args.local, remote: args.remote, host, bastion })
    }

    /// The tunnel for `service`, to the host named `choice`.
    pub fn from_service(service: &Service, hosts: &Hosts, choice: &str) -> (r: Result<
        Tunnel,
        CommandError,
    >)
        ensures
            tunnel_result(r) == tunnel_of(
                service_port(*service),
                service_port(*service),
                hosts.hosts@,
                hosts.bastion@,
                choice@,
            ),
    {
        let port = service.port();
        Tunnel::from_ports(TunnelArgs { local: port, remote: port }, hosts, choice)
    }

    /// The command line that opens this tunnel.
    pub fn command(&self, config: &Config) -> (r: Invocation)
        ensures
            r@ == command_line(
                "ssh"@,
                texts_view(config.ssh_args@),
                seq![
                    "-N"@,
                    "-L"@,
                    forward(self.local, self.host@.address, self.remote),
                    self.bastion@.name,
                ],
            ),
    {
        let ports = decimal_text(self.local as u64).concat(":").concat(
            self.host.address.as_str(),
        ).concat(":").concat(decimal_text(self.remote as u64).as_str());
        let mut rest: Vec<String> = Vec::new();
        rest.push(owned("-N"));
        rest.push(owned("-L"));
        rest.push(ports);
        rest.push(self.bastion.name.clone());
        assert(texts_view(rest@) == seq![
            "-N"@,
            "-L"@,
            forward(self.local, self.host@.address, self.remote),
            self.bastion@.name,
        ]);
        invocation("ssh", config, rest)
    }
}

impl Executable for Tunnel {
    fn exec(&self, config: &Config) -> (r: Effect)
        ensures
            r@ == EffectView::Run(
                command_line(
                    "ssh"@,
                    texts_view(config.ssh_args@),
                    seq![
                        "-N"@,
                        "-L"@,
                        forward(self.local, self.host@.address, self.remote),
                        self.bastion@.name,
                    ],
                ),
            ),
    {
        Effect::Run(self.command(config))
    }
}

/// A copy between this machine and a host.
#[derive(Clone, Debug)]
pub struct Scp {
    pub from: String,
    pub to: String,
}

pub struct ScpView {
    pub from: Seq<char>,
    pub to: Seq<char>,
}

impl View for Scp {
    type V = ScpView;

    open spec fn view(&self) -> ScpView {
        ScpView { from: self.from@, to: self.to@ }
    }
}

/// The side to copy to: as given, or, where none is given, this directory
/// when the copy comes from a host and the home of the host otherwise.
pub open spec fn target_of(from: Seq<char>, to: Option<Seq<char>>) -> Seq<char> {
    let given = match to {
        Some(t) => t,
        None => Seq::empty(),
    };
    if given.len() > 0 {
        given
    } else if from.contains(':') {
        "."@
    } else {
        ":"@
    }
}

/// What is wrong with the two sides of a copy, if anything is: exactly one
/// of them must hold `:`, and the one to copy from must then name a path.
pub open spec fn sides_fault(from: Seq<char>, to: Seq<char>) -> Option<CommandErrorView> {
    if from.contains(':') && to.contains(':') {
        Some(CommandErrorView::BothRemote)
    } else if !from.contains(':') && !to.contains(':') {
        Some(CommandErrorView::NoRemote)
    } else if from.contains(':') && last_index(from, ':') == from.len() - 1 {
        Some(CommandErrorView::FromWithoutPath)
    } else {
        None
    }
}

/// A side of a copy with the host `name` put before its last `:`; a side
/// without `:` stays as it is.
pub open spec fn expanded(side: Seq<char>, name: Seq<char>) -> Seq<char> {
    if side.contains(':') {
        name + side.skip(last_index(side, ':'))
    } else {
        side
    }
}

/// What stands before the last `:` of the remote side of a copy: the text
/// that seeds the choice of the host.
pub open spec fn seed_of(from: Seq<char>, to: Seq<char>) -> Seq<char> {
    if from.contains(':') {
        from.take(last_index(from, ':'))
    } else {
        to.take(last_index(to, ':'))
    }
}

/// The copy that `args` ask for, with the host named `choice`.
pub open spec fn scp_of(
    from: Seq<char>,
    to: Option<Seq<char>>,
    hosts: Seq<(Seq<char>, HostView)>,
    choice: Seq<char>,
) -> Result<ScpView, CommandErrorView> {
    let target = target_of(from, to);
    match sides_fault(from, target) {
        Some(e) => Err(e),
        None => match lookup(hosts, choice) {
            None => Err(CommandErrorView::UnknownHost { name: choice }),
            Some(h) => Ok(
                ScpView { from: expanded(from, h.name), to: expanded(target, h.name) },
            ),
        },
    }
}

/// Views of the outcome of preparing a copy.
pub open spec fn scp_result(r: Result<Scp, CommandError>) -> Result<ScpView, CommandErrorView> {
    match r {
        Ok(s) => Ok(s@),
        Err(e) => Err(e@),
    }
}

/// The view of an optional text.
pub open spec fn maybe_view(s: Option<String>) -> Option<Seq<char>> {
    match s {
        Some(t) => Some(t@),
        None => None,
    }
}

/// The side to copy to.
pub fn target(args: &ScpArgs) -> (r: String)
    ensures
        r@ == target_of(args.from@, maybe_view(args.to)),
{
    let given = match &args.to {
        Some(t) => t.clone(),
        None => String::new(),
    };
    if !given.as_str().is_empty() {
        given
    } else if contains_char(args.from.as_str(), ':') {
        owned(".")
    } else {
        owned(":")
    }
}

/// What is wrong with the two sides of a copy, if anything is.
pub fn check_sides(from: &str, to: &str) -> (r: Option<CommandError>)
    ensures
        match r {
            Some(e) => sides_fault(from@, to@) == Some(e@),
            None => sides_fault(from@, to@) is None,
        },
{
    let from_remote = contains_char(from, ':');
    let to_remote = contains_char(to, ':');
    if from_remote && to_remote {
        return Some(CommandError::BothRemote);
    }
    if !from_remote && !to_remote {
        return Some(CommandError::NoRemote);
    }
    if from_remote {
        let v = chars_of(from);
        assert(v@.subrange(0, v.len() as int) == v@);
        match rfind_char(&v, 0, v.len(), ':') {
            Some(i) => {
                if i + 1 == v.len() {
                    return Some(CommandError::FromWithoutPath);
                }
            },
            None => {},
        }
    }
    None
}

/// A side of a copy with the host `name` put before its last `:`.
pub fn expand(side: &str, name: &str) -> (r: String)
    ensures
        r@ == expanded(side@, name@),
{
    let v = chars_of(side);
    assert(v@.subrange(0, v.len() as int) == v@);
    proof {
        lemma_last_index(v@, ':');
    }
    match rfind_char(&v, 0, v.len(), ':') {
        Some(i) => {
            let rest = text_of(&v, i, v.len());
            assert(v@.subrange(i as int, v.len() as int) == v@.skip(i as int));
            owned(name).concat(rest.as_str())
        },
        None => owned(side),
    }
}

impl Scp {
    /// The text that seeds the choice of the host for the copy that `args`
    /// ask for, or what is wrong with its two sides.
    pub fn start_value(args: &ScpArgs) -> (r: Result<String, CommandError>)
        ensures
            match r {
                Ok(seed) => sides_fault(args.from@, target_of(args.from@, maybe_view(args.to)))
                    is None && seed@ == seed_of(
                    args.from@,
                    target_of(args.from@, maybe_view(args.to)),
                ),
                Err(e) => sides_fault(args.from@, target_of(args.from@, maybe_view(args.to)))
                    == Some(e@),
            },
    {
        let to = target(args);
        match check_sides(args.from.as_str(), to.as_str()) {
            Some(e) => {
                return Err(e);
            },
            None => {},
        }
        let side = if contains_char(args.from.as_str(), ':') {
            chars_of(args.from.as_str())
        } else {
            chars_of(to.as_str())
        };
        assert(side@.subrange(0, side.len() as int) == side@);
        proof {
            lemma_last_index(side@, ':');
        }
        match rfind_char(&side, 0, side.len(), ':') {
            Some(i) => {
                let seed = text_of(&side, 0, i);
                assert(side@.subrange(0, i as int) == side@.take(i as int));
                Ok(seed)
            },
            None => Ok(String::new()),
        }
    }

    /// The copy that `args` ask for, with the host named `choice` on its
    /// remote side.
    pub fn new(args: &ScpArgs, hosts: &Hosts, choice: &str) -> (r: Result<Scp, CommandError>)
        ensures
            scp_result(r) == scp_of(args.from@, maybe_view(args.to), hosts.hosts@, choice@),
    {
        let to = target(args);
        match check_sides(args.from.as_str(), to.as_str()) {
            Some(e) => {
                return Err(e);
            },
            None => {},
        }
        let host = match pick(hosts, choice) {
            Ok(h) => h,
            Err(e) => {
                return Err(e);
            },
        };
        Ok(
            Scp {
                from: expand(args.from.as_str(), host.name.as_str()),
                to: expand(to.as_str(), host.name.as_str()),
            },
        )
    }

    /// The command line that makes this copy.
    pub fn command(&self, config: &Config) -> (r: Invocation)
        ensures
            r@ == command_line(
                "scp"@,
                texts_view(config.ssh_args@),
                seq!["-r"@, self.from@, self.to@],
            ),
    {
        let mut rest: Vec<String> = Vec::new();
        rest.push(owned("-r"));
        rest.push(self.from.clone());
        rest.push(self.to.clone());
        assert(texts_view(rest@) == seq!["-r"@, self.from@, self.to@]);
        invocation("scp", config, rest)
    }
}

impl Executable for Scp {
    fn exec(&self, config: &Config) -> (r: Effect)
        ensures
            r@ == EffectView::Run(
                command_line(
                    "scp"@,
                    texts_view(config.ssh_args@),
                    seq!["-r"@, self.from@, self.to@],
                ),
            ),
    {
        Effect::Run(self.command(config))
    }
}

/// A shell on a host.
#[derive(Clone, Debug)]
pub struct Ssh {
    pub host: Host,
}

impl Ssh {
    /// A shell on the host named `choice`.
    pub fn new(hosts: &Hosts, choice: &str) -> (r: Result<Ssh, CommandError>)
        ensures
            match r {
                Ok(s) => chosen_host(hosts.hosts@, choice@) == Ok::<HostView, CommandErrorView>(
                    s.host@,
                ),
                Err(e) => chosen_host(hosts.hosts@, choice@) == Err::<HostView, CommandErrorView>(
                    e@,
                ),
            },
    {
        match pick(hosts, choice) {
            Ok(host) => Ok(Ssh { host }),
            Err(e) => Err(e),
        }
    }

    /// The command line that opens this shell.
    pub fn command(&self, config: &Config) -> (r: Invocation)
        ensures
            r@ == command_line("ssh"@, texts_view(config.ssh_args@), seq![self.host@.name]),
    {
        let mut rest: Vec<String> = Vec::new();
        rest.push(self.host.name.clone());
        assert(texts_view(rest@) == seq![self.host@.name]);
        invocation("ssh", config, rest)
    }
}

impl Executable for Ssh {
    fn exec(&self, config: &Config) -> (r: Effect)
        ensures
            r@ == EffectView::Run(
                command_line("ssh"@, texts_view(config.ssh_args@), seq![self.host@.name]),
            ),
    {
        Effect::Run(self.command(config))
    }
}

/// A command to run on a host.
#[derive(Clone, Debug)]
pub struct Exec {
    pub host: Host,
    pub command: String,
}

impl Exec {
    /// The run of `command` on the host named `choice`.
    pub fn new(command: &str, hosts: &Hosts, choice: &str) -> (r: Result<Exec, CommandError>)
        ensures
            match r {
                Ok(x) => x.command@ == command@ && chosen_host(hosts.hosts@, choice@) == Ok::<
                    HostView,
                    CommandErrorView,
                >(x.host@),
                Err(e) => chosen_host(hosts.hosts@, choice@) == Err::<HostView, CommandErrorView>(
                    e@,
                ),
            },
    {
        match pick(hosts, choice) {
            Ok(host) => Ok(Exec { host, command: owned(command) }),
            Err(e) => Err(e),
        }
    }

    /// The command line that runs the command on the host.
    pub fn command(&self, config: &Config) -> (r: Invocation)
        ensures
            r@ == command_line(
                "ssh"@,
                texts_view(config.ssh_args@),
                seq![self.host@.name, self.command@],
            ),
    {
        let mut rest: Vec<String> = Vec::new();
        rest.push(self.host.name.clone());
        rest.push(self.command.clone());
        assert(texts_view(rest@) == seq![self.host@.name, self.command@]);
        invocation("ssh", config, rest)
    }
}

impl Executable for Exec {
    fn exec(&self, config: &Config) -> (r: Effect)
        ensures
            r@ == EffectView::Run(
                command_line(
                    "ssh"@,
                    texts_view(config.ssh_args@),
                    seq![self.host@.name, self.command@],
                ),
            ),
    {
        Effect::Run(self.command(config))
    }
}

/// The address under which the editor finds the host `name`.
pub open spec fn remote_folder(name: Seq<char>) -> Seq<char> {
    "vscode-remote://ssh-remote+"@ + name + "/"@
}

/// The command line that opens the editor on the host `name`. It does not
/// take the common arguments of `ssh`.
pub open spec fn editor_line(windows: bool, name: Seq<char>) -> InvocationView {
    InvocationView {
        program: if windows {
            "code.cmd"@
        } else {
            "code"@
        },
        args: seq!["--folder-uri"@, remote_folder(name)],
    }
}

/// The command line that opens the editor on the host `name`.
pub fn editor(config: &Config, name: &str) -> (r: Invocation)
    ensures
        r@ == editor_line(config.windows, name@),
{
    let mut args: Vec<String> = Vec::new();
    args.push(owned("--folder-uri"));
    args.push(owned("vscode-remote://ssh-remote+").concat(name).concat("/"));
    assert(texts_view(args@) == seq!["--folder-uri"@, remote_folder(name@)]);
    Invocation { program: config.code_cmd(), args }
}

/// The editor, opened on a host.
#[derive(Clone, Debug)]
pub struct Code {
    pub host: Host,
}

impl Code {
    /// The editor on the host named `choice`.
    pub fn new(hosts: &Hosts, choice: &str) -> (r: Result<Code, CommandError>)
        ensures
            match r {
                Ok(c) => chosen_host(hosts.hosts@, choice@) == Ok::<HostView, CommandErrorView>(
                    c.host@,
                ),
                Err(e) => chosen_host(hosts.hosts@, choice@) == Err::<HostView, CommandErrorView>(
                    e@,
                ),
            },
    {
        match pick(hosts, choice) {
            Ok(host) => Ok(Code { host }),
            Err(e) => Err(e),
        }
    }

    /// The command line that opens the editor on the host.
    pub fn command(&self, config: &Config) -> (r: Invocation)
        ensures
            r@ == editor_line(config.windows, self.host@.name),
    {
        editor(config, self.host.name.as_str())
    }
}

impl Executable for Code {
    fn exec(&self, config: &Config) -> (r: Effect)
        ensures
            r@ == EffectView::Run(editor_line(config.windows, self.host@.name)),
    {
        Effect::Run(self.command(config))
    }
}

/// What is known of a host.
#[derive(Clone, Debug)]
pub struct Info {
    pub host: Host,
}

impl Info {
    /// What is known of the host named `choice`.
    pub fn new(hosts: &Hosts, choice: &str) -> (r: Result<Info, CommandError>)
        ensures
            match r {
                Ok(i) => chosen_host(hosts.hosts@, choice@) == Ok::<HostView, CommandErrorView>(
                    i.host@,
                ),
                Err(e) => chosen_host(hosts.hosts@, choice@) == Err::<HostView, CommandErrorView>(
                    e@,
                ),
            },
    {
        match pick(hosts, choice) {
            Ok(host) => Ok(Info { host }),
            Err(e) => Err(e),
        }
    }
}

impl Executable for Info {
    fn exec(&self, config: &Config) -> (r: Effect)
        ensures
            r@ == EffectView::Show(self.host@),
    {
        Effect::Show(self.host.duplicate())
    }
}


/// A host whose containers can be set up for remote debugging.
#[derive(Clone, Debug)]
pub struct Vsdbg {
    pub host: Host,
}

/// How the container that a line of `docker ps` stands for is shown, and
/// its id: the line must hold three fields between commas at least, of
/// which the first is the id.
pub open spec fn labelled(line: Seq<char>) -> Option<(Seq<char>, Seq<char>)> {
    let fields = crate::text::split(line, ',');
    if fields.len() >= 3 {
        Some((fields[0] + " - "@ + fields[1] + " - "@ + fields[2], fields[0]))
    } else {
        None
    }
}

/// The ids of the containers among the first `n` lines, by how the
/// containers are shown.
pub open spec fn labelled_upto(all: Seq<Seq<char>>, n: int) -> Seq<(Seq<char>, Seq<char>)>
    decreases n,
{
    if n <= 0 {
        Seq::empty()
    } else {
        let before = labelled_upto(all, n - 1);
        match labelled(all[n - 1]) {
            Some((label, id)) => crate::name_map::upsert(before, label, id),
            None => before,
        }
    }
}

impl Vsdbg {
    /// The host named `choice`.
    pub fn new(hosts: &Hosts, choice: &str) -> (r: Result<Vsdbg, CommandError>)
        ensures
            match r {
                Ok(v) => chosen_host(hosts.hosts@, choice@) == Ok::<HostView, CommandErrorView>(
                    v.host@,
                ),
                Err(e) => chosen_host(hosts.hosts@, choice@) == Err::<HostView, CommandErrorView>(
                    e@,
                ),
            },
    {
        match pick(hosts, choice) {
            Ok(host) => Ok(Vsdbg { host }),
            Err(e) => Err(e),
        }
    }

    /// The command line that lists the containers of the host.
    pub fn query(&self, config: &Config) -> (r: Invocation)
        ensures
            r@ == command_line(
                "ssh"@,
                texts_view(config.ssh_args@),
                seq![self.host@.name, "sudo docker ps --format \"{{.ID}},{{.Names}},{{.Image}}\""@],
            ),
    {
        let mut rest: Vec<String> = Vec::new();
        let a = self.host.name.clone();
        let b = owned("sudo docker ps --format \"{{.ID}},{{.Names}},{{.Image}}\"");
        rest.push(a);
        rest.push(b);
        assert(texts_view(rest@) == seq![a@, b@]);
        invocation("ssh", config, rest)
    }

    /// Reads what `docker ps` printed: the ids of the containers, by how
    /// the containers are shown for the user to choose.
    pub fn containers(listing: &str) -> (r: NameMap<String>)
        ensures
            r@ == labelled_upto(
                crate::text::lines(listing@),
                crate::text::lines(listing@).len() as int,
            ),
    {
        let v = chars_of(listing);
        let ranges = crate::text::line_ranges(&v);
        let ghost all = crate::text::lines(listing@);
        let mut found: NameMap<String> = NameMap::new();
        let mut i: usize = 0;
        while i < ranges.len()
            invariant
                i <= ranges.len(),
                v@ == listing@,
                all == crate::text::lines(listing@),
                crate::text::pieces(v@, ranges@) == all,
                crate::text::ranges_within(ranges@, 0, v.len() as int),
                found@ == labelled_upto(all, i as int),
            decreases ranges.len() - i,
        {
            let (a, b) = ranges[i];
            assert(all[i as int] == v@.subrange(a as int, b as int));
            let fields = crate::text::split_ranges(&v, a, b, ',');
            assert(crate::text::pieces(v@, fields@).len() == fields.len());
            if fields.len() >= 3 {
                let ghost parts = crate::text::split(all[i as int], ',');
                assert(crate::text::pieces(v@, fields@)[0] == parts[0]);
                assert(crate::text::pieces(v@, fields@)[1] == parts[1]);
                assert(crate::text::pieces(v@, fields@)[2] == parts[2]);
                let id = text_of(&v, fields[0].0, fields[0].1);
                let name = text_of(&v, fields[1].0, fields[1].1);
                let image = text_of(&v, fields[2].0, fields[2].1);
                let label = id.clone().concat(" - ").concat(name.as_str()).concat(" - ").concat(
                    image.as_str(),
                );
                found.insert(label, id);
            }
            i += 1;
        }
        found
    }
}

impl Executable for Vsdbg {
    fn exec(&self, config: &Config) -> (r: Effect)
        ensures
            r@ == EffectView::Show(self.host@),
    {
        Effect::Show(self.host.duplicate())
    }
}

} // verus!
