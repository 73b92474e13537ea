//! Decisions of the cluster deployer: how the mayastor instances are named
//! and started, and where the message bus is.
use crate::text::{decimal, push_decimal, string_of};
use vstd::prelude::*;
use vstd::string::StringExecFns;

verus! {

/// The deployer options that the infrastructure components read.
#[derive(Debug, Clone, Default)]
pub struct StartOptions {
    /// Build the mayastor binary before starting.
    pub build: bool,
    /// Number of mayastor instances.
    pub mayastors: u32,
    /// gRPC address that a single mayastor instance should listen on.
    pub grpc_mayastor_ip: Option<String>,
    /// Address of an existing NATS server to use as the message bus.
    pub nats_server: Option<String>,
}

/// The name of mayastor instance `i` among `count`: "mayastor" when there is
/// only one, "mayastor-<i+1>" otherwise.
pub open spec fn mayastor_name(i: nat, count: nat) -> Seq<char> {
    if count == 1 {
        seq!['m', 'a', 'y', 'a', 's', 't', 'o', 'r']
    } else {
        seq!['m', 'a', 'y', 'a', 's', 't', 'o', 'r', '-'] + decimal(i + 1)
    }
}

/// The mayastor component of the deployer.
pub struct Mayastor {}

/// Where a mayastor instance finds the message bus.
#[derive(Debug, Clone, PartialEq, Eq)]
pub enum NatsArg {
    /// The given NATS server, passed as "-n <server>".
    Server(String),
    /// The NATS container of the deployment, which the composer passes with "-n".
    Composer,
}

/// The characters of each of the strings.
pub open spec fn texts(v: Seq<String>) -> Seq<Seq<char>> {
    v.map_values(|s: String| s@)
}

/// The arguments of a mayastor instance named `name` that listens on `grpc`:
/// "-N <name>", then "-n <server>" where a NATS server is given (else the
/// composer adds "-n" with its own bus), then "-g <grpc>".
pub open spec fn mayastor_args(name: Seq<char>, nats_server: Option<Seq<char>>, grpc: Seq<char>) -> Seq<Seq<char>> {
    seq![seq!['-', 'N'], name] + match nats_server {
        Some(server) => seq![seq!['-', 'n'], server],
        None => Seq::<Seq<char>>::empty(),
    } + seq![seq!['-', 'g'], grpc]
}

/// How to run one mayastor instance: the "mayastor" program with "-N
/// <name>", the bus argument, and "-g <grpc endpoint>".
#[derive(Debug, Clone)]
pub struct MayastorBinary {
    /// The program to run: "mayastor".
    pub program: String,
    /// The program's arguments, as `mayastor_args` lays them out.
    pub args: Vec<String>,
    /// Name of the instance (and of its container).
    pub name: String,
    /// Where the instance finds the message bus.
    pub nats: NatsArg,
    /// The gRPC endpoint the instance listens on.
    pub grpc_endpoint: String,
}

impl Mayastor {
    /// The name of mayastor instance `i`.
    pub fn name(i: u32, options: &StartOptions) -> (s: String)
        requires
            options.mayastors == 1 || i < u32::MAX,
        ensures
            s@ == mayastor_name(i as nat, options.mayastors as nat),
    {
        proof {
            reveal_strlit("mayastor");
            reveal_strlit("mayastor-");
        }
        if options.mayastors == 1 {
            let s = string_of("mayastor");
            assert(s@ =~= mayastor_name(i as nat, options.mayastors as nat));
            s
        } else {
            let mut s = string_of("mayastor-");
            push_decimal(&mut s, (i + 1) as u64);
            assert(s@ =~= mayastor_name(i as nat, options.mayastors as nat));
            s
        }
    }

    /// The names of all mayastor instances, in order.
    pub fn names(options: &StartOptions) -> (v: Vec<String>)
        ensures
            v@.len() == options.mayastors,
            forall|i: int| 0 <= i < v@.len() ==> #[trigger] v@[i]@ == mayastor_name(i as nat, options.mayastors as nat),
    {
        let mut v: Vec<String> = Vec::new();
        let mut i: u32 = 0;
        while i < options.mayastors
            invariant
                i <= options.mayastors,
                v@.len() == i,
                forall|j: int| 0 <= j < v@.len() ==> #[trigger] v@[j]@ == mayastor_name(j as nat, options.mayastors as nat),
            decreases options.mayastors - i,
        {
            let name = Self::name(i, options);
            v.push(name);
            i = i + 1;
        }
        v
    }

    /// Whether the options can be deployed: a fixed gRPC address serves only
    /// a single instance.
    pub fn supported(options: &StartOptions) -> (b: bool)
        ensures
            b == !(options.grpc_mayastor_ip is Some && options.mayastors > 1),
    {
        !(options.grpc_mayastor_ip.is_some() && options.mayastors > 1)
    }

    /// How to run instance `i`, whose container got address `container_ip`:
    /// the bus is the given NATS server or else the composer's, and the gRPC
    /// endpoint is the given address or else "<container_ip>:10124".
    pub fn binary(i: u32, options: &StartOptions, container_ip: &str) -> (b: MayastorBinary)
        requires
            !(options.grpc_mayastor_ip is Some && options.mayastors > 1),
            options.mayastors == 1 || i < u32::MAX,
        ensures
            b.program@ == seq!['m', 'a', 'y', 'a', 's', 't', 'o', 'r'],
            texts(b.args@) == mayastor_args(
                b.name@,
                match options.nats_server {
                    Some(server) => Some(server@),
                    None => None,
                },
                b.grpc_endpoint@,
            ),
            b.name@ == mayastor_name(i as nat, options.mayastors as nat),
            match options.nats_server {
                Some(server) => b.nats matches NatsArg::Server(s) && s@ == server@,
                None => b.nats == NatsArg::Composer,
            },
            match options.grpc_mayastor_ip {
                Some(grpc) => b.grpc_endpoint@ == grpc@,
                None => b.grpc_endpoint@ == container_ip@ + seq![':', '1', '0', '1', '2', '4'],
            },
    {
        let name = Self::name(i, options);
        let nats = match &options.nats_server {
            Some(server) => NatsArg::Server(server.clone()),
            None => NatsArg::Composer,
        };
        let grpc_endpoint = match &options.grpc_mayastor_ip {
            Some(grpc) => grpc.clone(),
            None => {
                proof {
                    reveal_strlit(":10124");
                }
                let mut socket = string_of(container_ip);
                socket.append(":10124");
                assert(socket@ =~= container_ip@ + seq![':', '1', '0', '1', '2', '4']);
                socket
            },
        };
        proof {
            reveal_strlit("mayastor");
            reveal_strlit("-N");
            reveal_strlit("-n");
            reveal_strlit("-g");
        }
        let mut args: Vec<String> = Vec::new();
        args.push(string_of("-N"));
        args.push(name.clone());
        if let Some(server) = &options.nats_server {
            args.push(string_of("-n"));
            args.push(server.clone());
        }
        args.push(string_of("-g"));
        args.push(grpc_endpoint.clone());
        let program = string_of("mayastor");
        let b = MayastorBinary { program, args, name, nats, grpc_endpoint };
        assert(b.args@[0]@ =~= seq!['-', 'N']);
        assert(options.nats_server is Some ==> b.args@[2]@ =~= seq!['-', 'n']);
        assert(options.nats_server is Some ==> b.args@[4]@ =~= seq!['-', 'g']);
        assert(options.nats_server is None ==> b.args@[2]@ =~= seq!['-', 'g']);
        assert(texts(b.args@) =~= mayastor_args(
            b.name@,
            match options.nats_server {
                Some(server) => Some(server@),
                None => None,
            },
            b.grpc_endpoint@,
        ));
        b
    }
}

/// Distinct instances of a deployment with more than one instance have
/// distinct names.
pub proof fn lemma_mayastor_names_distinct(i: nat, j: nat, count: nat)
    requires
        count != 1,
        mayastor_name(i, count) == mayastor_name(j, count),
    ensures
        i == j,
{
    let p = seq!['m', 'a', 'y', 'a', 's', 't', 'o', 'r', '-'];
    assert(decimal(i + 1) =~= mayastor_name(i, count).subrange(9, mayastor_name(i, count).len() as int));
    assert(decimal(j + 1) =~= mayastor_name(j, count).subrange(9, mayastor_name(j, count).len() as int));
    crate::text::lemma_digits_injective(i + 1, j + 1, 10);
}

/// The NATS component of the deployer.
pub struct Nats {}

/// The NATS container that a deployment without a given NATS server runs.
#[derive(Debug, Clone)]
pub struct NatsContainer {
    /// The container's name: "nats".
    pub name: String,
    /// The program it runs: "nats-server".
    pub program: String,
    /// The program's arguments: "-DV".
    pub args: Vec<String>,
    /// The port published on the host: "4222".
    pub host_port: String,
    /// The container port that the host port maps to: "4222".
    pub container_port: String,
}

/// Where the deployment's message bus is.
#[derive(Debug, Clone)]
pub struct NatsPlan {
    /// Whether the deployment runs its own NATS container, named "nats".
    pub start_container: bool,
    /// That container, where the deployment runs one.
    pub container: Option<NatsContainer>,
    /// The address to connect to the bus at.
    pub endpoint: String,
}

/// `c` is the deployment's own NATS container: "nats", running
/// "nats-server -DV", with port 4222 mapped to 4222.
pub open spec fn is_nats_container(c: NatsContainer) -> bool {
    &&& c.name@ == seq!['n', 'a', 't', 's']
    &&& c.program@ == seq!['n', 'a', 't', 's', '-', 's', 'e', 'r', 'v', 'e', 'r']
    &&& texts(c.args@) == seq![seq!['-', 'D', 'V']]
    &&& c.host_port@ == seq!['4', '2', '2', '2']
    &&& c.container_port@ == seq!['4', '2', '2', '2']
}

impl Nats {
    /// The message bus of a deployment: the given NATS server, or else a
    /// NATS container of its own, reached as "nats".
    pub fn plan(options: &StartOptions) -> (p: NatsPlan)
        ensures
            p.start_container == (options.nats_server is None),
            p.start_container == (p.container is Some),
            p.container matches Some(c) ==> is_nats_container(c),
            match options.nats_server {
                Some(server) => p.endpoint@ == server@,
                None => p.endpoint@ == seq!['n', 'a', 't', 's'],
            },
    {
        match &options.nats_server {
            Some(server) => NatsPlan { start_container: false, container: None, endpoint: server.clone() },
            None => {
                proof {
                    reveal_strlit("nats");
                    reveal_strlit("nats-server");
                    reveal_strlit("-DV");
                    reveal_strlit("4222");
                }
                let mut args: Vec<String> = Vec::new();
                args.push(string_of("-DV"));
                let c = NatsContainer {
                    name: string_of("nats"),
                    program: string_of("nats-server"),
                    args,
                    host_port: string_of("4222"),
                    container_port: string_of("4222"),
                };
                assert(c.args@[0]@ =~= seq!['-', 'D', 'V']);
                assert(texts(c.args@) =~= seq![seq!['-', 'D', 'V']]);
                assert(c.name@ =~= seq!['n', 'a', 't', 's']);
                assert(c.program@ =~= seq!['n', 'a', 't', 's', '-', 's', 'e', 'r', 'v', 'e', 'r']);
                assert(c.host_port@ =~= seq!['4', '2', '2', '2']);
                assert(c.container_port@ =~= seq!['4', '2', '2', '2']);
                let endpoint = string_of("nats");
                assert(endpoint@ =~= seq!['n', 'a', 't', 's']);
                NatsPlan { start_container: true, container: Some(c), endpoint }
            },
        }
    }
}

} // verus!
