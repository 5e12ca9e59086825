//! Where the HTTP service listens: the address, the port, and what to do
//! when a port is taken.

use vstd::prelude::*;
use vstd::string::StringExecFns;
use crate::decimal::{decimal_digits, push_decimal};

verus! {

pub const DEFAULT_IPADDR: [u8; 4] = [127, 0, 0, 1];

pub const PORT_RANGE_START: u16 = 7000;

pub const PORT_RANGE_END: u16 = 9000;

pub const DEFAULT_SOCKET_RETRIES: u8 = 8;

pub const DEFAULT_IDLE_SHUTDOWN_TIMEOUT: u8 = 60;

/// A network interface as the system lists it: its name, and its IPv4
/// address if it has one.
#[derive(Debug)]
pub struct InterfaceAddress {
    pub interface_name: String,
    pub ipv4: Option<[u8; 4]>,
}

/// Why no listener could be had.
#[derive(Debug)]
pub enum ListenerError {
    /// The system's error for the failed listing of interfaces, in words.
    InterfaceProbeFail(String),
    InterfaceAddressResolveFail(String),
    AddressInUse([u8; 4], u16),
    /// The address, and the kind of the failure in words.
    BindFailure([u8; 4], u16, String),
}

/// How an attempt to bind ended.
#[derive(Debug)]
pub enum BindOutcome {
    Bound,
    AddressInUse,
    /// Another failure, by its kind in words.
    Failed(String),
}

/// What to do after an attempt to bind.
#[derive(Debug)]
pub enum BindDecision {
    /// Listen on the address that was bound.
    Listen,
    /// Try another port; this will be attempt number `attempt`.
    Retry { attempt: u8 },
    GiveUp(ListenerError),
}

/// An IPv4 address in dotted notation.
pub open spec fn ip_text(ip: [u8; 4]) -> Seq<char> {
    decimal_digits(ip[0] as nat) + seq!['.'] + decimal_digits(ip[1] as nat) + seq!['.']
        + decimal_digits(ip[2] as nat) + seq!['.'] + decimal_digits(ip[3] as nat)
}

/// A socket address: the IP address, a colon, the port.
pub open spec fn socket_text(ip: [u8; 4], port: u16) -> Seq<char> {
    ip_text(ip) + seq![':'] + decimal_digits(port as nat)
}

pub open spec fn listener_error_text(err: ListenerError) -> Seq<char> {
    match err {
        ListenerError::AddressInUse(ip, port) => "address "@ + socket_text(ip, port)
            + " is already in use"@,
        ListenerError::BindFailure(ip, port, kind) => "could not bind to address "@ + socket_text(
            ip,
            port,
        ) + " - error kind: "@ + kind@,
        ListenerError::InterfaceProbeFail(errno) =>
            "could not probe for available interfaces - error number: "@ + errno@,
        ListenerError::InterfaceAddressResolveFail(if_name) =>
            "could not resolve ip address for provided interface "@ + if_name@,
    }
}

/// Appends the socket address to `out`.
fn push_socket(out: &mut String, ip: &[u8; 4], port: u16)
    ensures
        final(out)@ == old(out)@ + socket_text(*ip, port),
{
    proof {
        reveal_strlit(".");
        reveal_strlit(":");
        assert("."@ =~= seq!['.']);
        assert(":"@ =~= seq![':']);
    }
    push_decimal(out, ip[0] as usize);
    out.append(".");
    push_decimal(out, ip[1] as usize);
    out.append(".");
    push_decimal(out, ip[2] as usize);
    out.append(".");
    push_decimal(out, ip[3] as usize);
    out.append(":");
    push_decimal(out, port as usize);
    assert(out@ =~= old(out)@ + socket_text(*ip, port));
}

impl ListenerError {
    /// The failure in words.
    pub fn message(&self) -> (out: String)
        ensures
            out@ == listener_error_text(*self),
    {
        match self {
            ListenerError::AddressInUse(ip, port) => {
                let mut out = String::from_str("address ");
                push_socket(&mut out, ip, *port);
                out.append(" is already in use");
                out
            },
            ListenerError::BindFailure(ip, port, kind) => {
                let mut out = String::from_str("could not bind to address ");
                push_socket(&mut out, ip, *port);
                out.append(" - error kind: ");
                out.append(kind.as_str());
                out
            },
            ListenerError::InterfaceProbeFail(errno) => String::from_str(
                "could not probe for available interfaces - error number: ",
            ).concat(errno.as_str()),
            ListenerError::InterfaceAddressResolveFail(if_name) => String::from_str(
                "could not resolve ip address for provided interface ",
            ).concat(if_name.as_str()),
        }
    }
}

/// Calls `rand::random_range` on the inclusive range from `low` to `high`.
/// Believed: the value lies in that range. Left out by `requires`: an empty
/// range, on which the call panics.
#[verifier::external_body]
fn random_in_range(low: u16, high: u16) -> (n: u16)
    requires
        low <= high,
    ensures
        low <= n <= high,
{
    rand::random_range(low..=high)
}

/// The port to try: the one asked for, else `drawn`.
pub fn choose_port(requested: Option<u16>, drawn: u16) -> (port: u16)
    ensures
        port == match requested {
            Some(p) => p,
            None => drawn,
        },
{
    match requested {
        Some(p) => p,
        None => drawn,
    }
}

/// The port to try: the one asked for, else one drawn at random from the
/// range of ports that the program uses.
pub fn decide_port(requested: Option<u16>) -> (port: u16)
    ensures
        requested is Some ==> port == requested->0,
        requested is None ==> PORT_RANGE_START <= port <= PORT_RANGE_END,
{
    let drawn = random_in_range(PORT_RANGE_START, PORT_RANGE_END);
    choose_port(requested, drawn)
}

/// Whether `interfaces[i]` is the first entry that bears `name` and has an
/// IPv4 address.
pub open spec fn first_usable(interfaces: Seq<InterfaceAddress>, name: Seq<char>, i: int) -> bool {
    &&& 0 <= i < interfaces.len()
    &&& usable(interfaces[i], name)
    &&& forall|j: int| 0 <= j < i ==> !usable(#[trigger] interfaces[j], name)
}

pub open spec fn usable(interface: InterfaceAddress, name: Seq<char>) -> bool {
    interface.interface_name@ == name && interface.ipv4 is Some
}

/// The IPv4 address of the first listed interface of the given name that has
/// one.
pub fn interface_ip(name: &String, interfaces: &Vec<InterfaceAddress>) -> (r: Result<
    [u8; 4],
    ListenerError,
>)
    ensures
        match r {
            Ok(ip) => exists|i: int|
                #[trigger] first_usable(interfaces@, name@, i) && interfaces@[i].ipv4 == Some(ip),
            Err(err) => err matches ListenerError::InterfaceAddressResolveFail(n) && n@ == name@
                && forall|i: int|
                0 <= i < interfaces@.len() ==> !usable(#[trigger] interfaces@[i], name@),
        },
{
    let mut i: usize = 0;
    while i < interfaces.len()
        invariant
            i <= interfaces@.len(),
            forall|j: int| 0 <= j < i ==> !usable(#[trigger] interfaces@[j], name@),
        decreases interfaces@.len() - i,
    {
        if interfaces[i].interface_name == *name {
            match interfaces[i].ipv4 {
                Some(ip) => {
                    assert(first_usable(interfaces@, name@, i as int) && interfaces@[i as int].ipv4
                        == Some(ip));
                    return Ok(ip);
                },
                None => {},
            }
        }
        i += 1;
    }
    Err(ListenerError::InterfaceAddressResolveFail(name.clone()))
}

/// The address to listen on: `ip_address` when no interface is named, else
/// the address of that interface.
pub fn decide_ip(
    interface: Option<&String>,
    ip_address: [u8; 4],
    interfaces: &Vec<InterfaceAddress>,
) -> (r: Result<[u8; 4], ListenerError>)
    ensures
        match interface {
            None => r == Ok::<[u8; 4], ListenerError>(ip_address),
            Some(name) => match r {
                Ok(ip) => exists|i: int|
                    #[trigger] first_usable(interfaces@, name@, i) && interfaces@[i].ipv4 == Some(
                        ip,
                    ),
                Err(err) => err matches ListenerError::InterfaceAddressResolveFail(n) && n@
                    == name@ && forall|i: int|
                    0 <= i < interfaces@.len() ==> !usable(#[trigger] interfaces@[i], name@),
            },
        },
{
    match interface {
        Some(name) => interface_ip(name, interfaces),
        None => Ok(ip_address),
    }
}

/// What follows bind attempt number `bind_attempts` on `ip_address:port`.
/// A taken port is tried again at another port unless the port was fixed by
/// the user or the attempts are used up; any other failure is final.
pub fn after_bind(
    outcome: BindOutcome,
    port_fixed: bool,
    bind_attempts: u8,
    socket_retries: u8,
    ip_address: [u8; 4],
    port: u16,
) -> (decision: BindDecision)
    ensures
        decision == match outcome {
            BindOutcome::Bound => BindDecision::Listen,
            BindOutcome::AddressInUse => if port_fixed || bind_attempts >= socket_retries {
                BindDecision::GiveUp(ListenerError::AddressInUse(ip_address, port))
            } else {
                BindDecision::Retry { attempt: (bind_attempts + 1) as u8 }
            },
            BindOutcome::Failed(kind) => BindDecision::GiveUp(
                ListenerError::BindFailure(ip_address, port, kind),
            ),
        },
{
    match outcome {
        BindOutcome::Bound => BindDecision::Listen,
        BindOutcome::AddressInUse => if port_fixed || bind_attempts >= socket_retries {
            BindDecision::GiveUp(ListenerError::AddressInUse(ip_address, port))
        } else {
            BindDecision::Retry { attempt: bind_attempts + 1 }
        },
        BindOutcome::Failed(kind) => BindDecision::GiveUp(
            ListenerError::BindFailure(ip_address, port, kind),
        ),
    }
}

/// The idle timeout in force: `idle_shutdown_timeout` when idle shutdown is
/// enabled, none otherwise.
pub fn idle_shutdown_interval(enabled: bool, idle_shutdown_timeout: u32) -> (interval: Option<u32>)
    ensures
        interval == if enabled {
            Some(idle_shutdown_timeout)
        } else {
            None
        },
{
    if enabled {
        Some(idle_shutdown_timeout)
    } else {
        None
    }
}

} // verus!
