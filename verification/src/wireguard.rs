//! The WireGuard tunnel driver: the interface's state and the exact `ip` and
//! `wg` command lines that set it up, add, update and remove peers, and tear
//! it down. Running the commands is left to the caller.

use vstd::prelude::*;
use crate::overlay_ip::{Ipv4Addr, dotted, overlay_cidr, OVERLAY_PREFIX_LEN};
use crate::text::{decimal, push_decimal, string_views, joined, join_with_spaces};

verus! {

#[verifier::external_type_specification]
#[verifier::external_body]
pub struct ExIoError(std::io::Error);

/// Failures of tunnel management.
#[derive(Debug)]
pub enum WgError {
    CommandFailed { cmd: String, stderr: String },
    WgNotFound,
    IpNotFound,
    Io(std::io::Error),
}

/// Calls `<std::io::Error as Display>::fmt` through `format!`. Nothing is
/// claimed of the text, which the operating system's message decides.
#[verifier::external_body]
fn io_error_text(e: &std::io::Error) -> String {
    format!("{e}")
}

impl WgError {
    /// The human-readable description of the failure.
    pub fn message(&self) -> (m: String)
        ensures
            match self {
                WgError::CommandFailed { cmd, stderr } => m@ == "command failed: "@ + cmd@ + ": "@
                    + stderr@,
                WgError::WgNotFound => m@ == "wg tool not found — is wireguard-tools installed?"@,
                WgError::IpNotFound => m@ == "ip tool not found"@,
                WgError::Io(_) => "io error: "@.is_prefix_of(m@),
            },
    {
        match self {
            WgError::CommandFailed { cmd, stderr } => {
                let mut m = String::from_str("command failed: ");
                m.append(cmd.as_str());
                m.append(": ");
                m.append(stderr.as_str());
                m
            },
            WgError::WgNotFound => String::from_str("wg tool not found — is wireguard-tools installed?"),
            WgError::IpNotFound => String::from_str("ip tool not found"),
            WgError::Io(e) => {
                let mut m = String::from_str("io error: ");
                let ghost head = m@;
                m.append(io_error_text(e).as_str());
                proof {
                    assert(head == "io error: "@);
                    assert(m@.subrange(0, head.len() as int) =~= head);
                }
                m
            },
        }
    }
}

/// A WireGuard keypair, both keys base64-encoded as `wg` produces them.
#[derive(Debug, Clone)]
pub struct WgKeypair {
    pub private_key: String,
    pub public_key: String,
}

/// A program and its arguments.
#[derive(Debug)]
pub struct CommandLine {
    pub program: String,
    pub args: Vec<String>,
}

/// The program and argument texts of a command line.
pub open spec fn command_view(c: CommandLine) -> (Seq<char>, Seq<Seq<char>>) {
    (c.program@, string_views(c.args@))
}

/// The text of a command line as it is reported when the command fails: the
/// program, a space, and the arguments joined by spaces.
pub fn command_text(c: &CommandLine) -> (s: String)
    ensures
        s@ == c.program@ + " "@ + joined(string_views(c.args@), " "@),
{
    let mut s = c.program.clone();
    s.append(" ");
    let rest = join_with_spaces(&c.args);
    s.append(rest.as_str());
    s
}

fn push_arg(args: &mut Vec<String>, a: &str)
    ensures
        string_views(final(args)@) == string_views(old(args)@).push(a@),
{
    args.push(String::from_str(a));
    proof {
        assert(string_views(args@) =~= string_views(old(args)@).push(a@));
    }
}

/// A managed WireGuard interface.
#[derive(Debug)]
pub struct WgInterface {
    pub name: String,
    pub listen_port: u16,
    pub keypair: WgKeypair,
    pub overlay_ip: Ipv4Addr,
}

/// The command that creates the interface `name`.
pub open spec fn link_add_args(name: Seq<char>) -> Seq<Seq<char>> {
    seq!["link"@, "add"@, name, "type"@, "wireguard"@]
}

/// The arguments that set the listen port and the private key file of `name`.
pub open spec fn set_key_args(name: Seq<char>, port: u16, key_file: Seq<char>) -> Seq<Seq<char>> {
    seq!["set"@, name, "listen-port"@, decimal(port as nat), "private-key"@, key_file]
}

/// The key-setting command names the interface and carries the configured
/// listen port, in decimal, right after `listen-port`, and the key file right
/// after `private-key`.
pub proof fn lemma_set_key_carries_port(name: Seq<char>, port: u16, key_file: Seq<char>)
    ensures
        set_key_args(name, port, key_file).len() == 6,
        set_key_args(name, port, key_file)[1] == name,
        set_key_args(name, port, key_file)[2] == "listen-port"@,
        set_key_args(name, port, key_file)[3] == decimal(port as nat),
        set_key_args(name, port, key_file)[5] == key_file,
{
}

/// The arguments that assign the overlay address `cidr` to `name`.
pub open spec fn addr_add_args(name: Seq<char>, cidr: Seq<char>) -> Seq<Seq<char>> {
    seq!["addr"@, "add"@, cidr, "dev"@, name]
}

/// The arguments that bring `name` up.
pub open spec fn link_up_args(name: Seq<char>) -> Seq<Seq<char>> {
    seq!["link"@, "set"@, name, "up"@]
}

/// The arguments that add a peer to `name`, routing `allowed` to it, with an
/// optional direct endpoint and a 25-second keepalive to hold NAT mappings.
pub open spec fn add_peer_args(
    name: Seq<char>,
    pubkey: Seq<char>,
    endpoint: Option<Seq<char>>,
    allowed: u32,
) -> Seq<Seq<char>> {
    seq!["set"@, name, "peer"@, pubkey, "allowed-ips"@, dotted(allowed) + "/32"@] + (match endpoint {
        Some(e) => seq!["endpoint"@, e],
        None => Seq::empty(),
    }) + seq!["persistent-keepalive"@, "25"@]
}

/// The view of an optional text.
pub open spec fn opt_view(o: Option<&str>) -> Option<Seq<char>> {
    match o {
        Some(s) => Some(s@),
        None => None,
    }
}

impl WgInterface {
    /// The state of the interface `name` listening on `listen_port`, with
    /// `keypair` and the overlay address `overlay_ip`.
    pub fn new(name: &str, listen_port: u16, keypair: WgKeypair, overlay_ip: Ipv4Addr) -> (w:
        WgInterface)
        ensures
            w.name@ == name@,
            w.listen_port == listen_port,
            w.keypair == keypair,
            w.overlay_ip == overlay_ip,
    {
        WgInterface { name: String::from_str(name), listen_port, keypair, overlay_ip }
    }

    /// The public key that remote peers need to accept this tunnel.
    pub fn public_key(&self) -> (k: &str)
        ensures
            k@ == self.keypair.public_key@,
    {
        self.keypair.public_key.as_str()
    }

    /// The overlay address of the interface.
    pub fn overlay_ip(&self) -> (ip: Ipv4Addr)
        ensures
            ip == self.overlay_ip,
    {
        self.overlay_ip
    }

    /// The name of the interface.
    pub fn interface_name(&self) -> (n: &str)
        ensures
            n@ == self.name@,
    {
        self.name.as_str()
    }

    /// The temporary file the private key is handed to `wg` through.
    pub fn private_key_file(&self) -> (p: String)
        ensures
            p@ == "/tmp/.wg-"@ + self.name@ + "-privkey"@,
    {
        let mut p = String::from_str("/tmp/.wg-");
        p.append(self.name.as_str());
        p.append("-privkey");
        p
    }

    /// The commands that create the interface, set its listen port and
    /// private key, assign its overlay address with the overlay prefix and
    /// bring it up, in that order.
    pub fn setup_commands(&self) -> (cmds: Vec<CommandLine>)
        ensures
            cmds@.len() == 4,
            command_view(cmds@[0]) == ("ip"@, link_add_args(self.name@)),
            command_view(cmds@[1]) == ("wg"@, set_key_args(
                self.name@,
                self.listen_port,
                "/tmp/.wg-"@ + self.name@ + "-privkey"@,
            )),
            command_view(cmds@[2]) == ("ip"@, addr_add_args(
                self.name@,
                dotted(self.overlay_ip@) + seq!['/'] + decimal(OVERLAY_PREFIX_LEN as nat),
            )),
            command_view(cmds@[3]) == ("ip"@, link_up_args(self.name@)),
            string_views(cmds@[1].args@)[2] == "listen-port"@,
            string_views(cmds@[1].args@)[3] == decimal(self.listen_port as nat),
    {
        let name = self.name.as_str();
        let mut a0: Vec<String> = Vec::new();
        push_arg(&mut a0, "link");
        push_arg(&mut a0, "add");
        push_arg(&mut a0, name);
        push_arg(&mut a0, "type");
        push_arg(&mut a0, "wireguard");

        let mut port = String::new();
        push_decimal(&mut port, self.listen_port as u64);
        let key_file = self.private_key_file();
        let mut a1: Vec<String> = Vec::new();
        push_arg(&mut a1, "set");
        push_arg(&mut a1, name);
        push_arg(&mut a1, "listen-port");
        push_arg(&mut a1, port.as_str());
        push_arg(&mut a1, "private-key");
        push_arg(&mut a1, key_file.as_str());

        let cidr = overlay_cidr(self.overlay_ip);
        let mut a2: Vec<String> = Vec::new();
        push_arg(&mut a2, "addr");
        push_arg(&mut a2, "add");
        push_arg(&mut a2, cidr.as_str());
        push_arg(&mut a2, "dev");
        push_arg(&mut a2, name);

        let mut a3: Vec<String> = Vec::new();
        push_arg(&mut a3, "link");
        push_arg(&mut a3, "set");
        push_arg(&mut a3, name);
        push_arg(&mut a3, "up");

        proof {
            assert(string_views(a0@) =~= link_add_args(self.name@));
            assert(string_views(a1@) =~= set_key_args(
                self.name@,
                self.listen_port,
                "/tmp/.wg-"@ + self.name@ + "-privkey"@,
            ));
            assert(string_views(a2@) =~= addr_add_args(
                self.name@,
                dotted(self.overlay_ip@) + seq!['/'] + decimal(OVERLAY_PREFIX_LEN as nat),
            ));
            assert(string_views(a3@) =~= link_up_args(self.name@));
        }
        let mut cmds: Vec<CommandLine> = Vec::new();
        cmds.push(CommandLine { program: String::from_str("ip"), args: a0 });
        cmds.push(CommandLine { program: String::from_str("wg"), args: a1 });
        cmds.push(CommandLine { program: String::from_str("ip"), args: a2 });
        cmds.push(CommandLine { program: String::from_str("ip"), args: a3 });
        cmds
    }

    /// The command that adds the peer with tunnel key `pubkey`, routing
    /// `allowed_ip` (as a /32) to it, with its direct endpoint when known and
    /// a 25-second keepalive.
    pub fn add_peer_command(&self, pubkey: &str, endpoint: Option<&str>, allowed_ip: Ipv4Addr) -> (c:
        CommandLine)
        ensures
            command_view(c) == ("wg"@, add_peer_args(
                self.name@,
                pubkey@,
                opt_view(endpoint),
                allowed_ip@,
            )),
    {
        let mut allowed = allowed_ip.to_string();
        allowed.append("/32");
        let mut args: Vec<String> = Vec::new();
        push_arg(&mut args, "set");
        push_arg(&mut args, self.name.as_str());
        push_arg(&mut args, "peer");
        push_arg(&mut args, pubkey);
        push_arg(&mut args, "allowed-ips");
        push_arg(&mut args, allowed.as_str());
        match endpoint {
            Some(ep) => {
                push_arg(&mut args, "endpoint");
                push_arg(&mut args, ep);
            },
            None => {},
        }
        push_arg(&mut args, "persistent-keepalive");
        push_arg(&mut args, "25");
        proof {
            assert(string_views(args@) =~= add_peer_args(
                self.name@,
                pubkey@,
                opt_view(endpoint),
                allowed_ip@,
            ));
        }
        CommandLine { program: String::from_str("wg"), args }
    }

    /// The command that changes the direct endpoint of the peer `pubkey`.
    pub fn update_peer_endpoint_command(&self, pubkey: &str, endpoint: &str) -> (c: CommandLine)
        ensures
            command_view(c) == ("wg"@, seq![
                "set"@,
                self.name@,
                "peer"@,
                pubkey@,
                "endpoint"@,
                endpoint@,
            ]),
    {
        let mut args: Vec<String> = Vec::new();
        push_arg(&mut args, "set");
        push_arg(&mut args, self.name.as_str());
        push_arg(&mut args, "peer");
        push_arg(&mut args, pubkey);
        push_arg(&mut args, "endpoint");
        push_arg(&mut args, endpoint);
        proof {
            assert(string_views(args@) =~= seq![
                "set"@,
                self.name@,
                "peer"@,
                pubkey@,
                "endpoint"@,
                endpoint@,
            ]);
        }
        CommandLine { program: String::from_str("wg"), args }
    }

    /// The command that removes the peer `pubkey` from the tunnel.
    pub fn remove_peer_command(&self, pubkey: &str) -> (c: CommandLine)
        ensures
            command_view(c) == ("wg"@, seq!["set"@, self.name@, "peer"@, pubkey@, "remove"@]),
    {
        let mut args: Vec<String> = Vec::new();
        push_arg(&mut args, "set");
        push_arg(&mut args, self.name.as_str());
        push_arg(&mut args, "peer");
        push_arg(&mut args, pubkey);
        push_arg(&mut args, "remove");
        proof {
            assert(string_views(args@) =~= seq!["set"@, self.name@, "peer"@, pubkey@, "remove"@]);
        }
        CommandLine { program: String::from_str("wg"), args }
    }

    /// The command that deletes the interface.
    pub fn teardown_command(&self) -> (c: CommandLine)
        ensures
            command_view(c) == ("ip"@, seq!["link"@, "del"@, self.name@]),
    {
        let mut args: Vec<String> = Vec::new();
        push_arg(&mut args, "link");
        push_arg(&mut args, "del");
        push_arg(&mut args, self.name.as_str());
        proof {
            assert(string_views(args@) =~= seq!["link"@, "del"@, self.name@]);
        }
        CommandLine { program: String::from_str("ip"), args }
    }
}

} // verus!
