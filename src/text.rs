//! The lines that the pipeline emits, and the settings it runs with.

use crate::pipeline::{classify_frame, frame_outcome, Ipv4Address, Outcome, UdpReport};
use vstd::prelude::*;
use vstd::string::*;

verus! {

/// The decimal digit `d`, for `d` below ten.
pub open spec fn digit_char(d: int) -> char {
    if d == 0 {
        '0'
    } else if d == 1 {
        '1'
    } else if d == 2 {
        '2'
    } else if d == 3 {
        '3'
    } else if d == 4 {
        '4'
    } else if d == 5 {
        '5'
    } else if d == 6 {
        '6'
    } else if d == 7 {
        '7'
    } else if d == 8 {
        '8'
    } else {
        '9'
    }
}

/// `n` in decimal, without leading zeros.
pub open spec fn decimal(n: nat) -> Seq<char>
    decreases n,
{
    if n < 10 {
        seq![digit_char(n as int)]
    } else {
        decimal(n / 10).push(digit_char((n % 10) as int))
    }
}

/// An address in dotted-quad form.
pub open spec fn address_text(a: Ipv4Address) -> Seq<char> {
    decimal(a.a as nat) + "."@ + decimal(a.b as nat) + "."@ + decimal(a.c as nat) + "."@
        + decimal(a.d as nat)
}

/// The line that reports a datagram sent to the configured group.
pub open spec fn report_line(interface: Seq<char>, r: UdpReport) -> Seq<char> {
    "["@ + interface + "]: UDP Packet: "@ + address_text(r.source) + ":"@ + decimal(
        r.source_port as nat,
    ) + " > "@ + address_text(r.destination) + ":"@ + decimal(r.destination_port as nat)
        + "; length: "@ + decimal(r.length as nat) + ":"@
}

/// The line that reports a datagram too short for its IPv4 header.
pub open spec fn malformed_ipv4_line(interface: Seq<char>) -> Seq<char> {
    "["@ + interface + "]: Malformed IPv4 Packet"@
}

/// The line that reports a segment too short for its UDP header.
pub open spec fn malformed_udp_line(interface: Seq<char>) -> Seq<char> {
    "["@ + interface + "]: Malformed UDP Packet"@
}

/// The line, if any, that an outcome is reported with.
pub open spec fn message(o: Outcome, interface: Seq<char>) -> Option<Seq<char>> {
    match o {
        Outcome::Report(r) => Some(report_line(interface, r)),
        Outcome::MalformedIpv4 => Some(malformed_ipv4_line(interface)),
        Outcome::MalformedUdp => Some(malformed_udp_line(interface)),
        _ => None,
    }
}

/// What the pipeline emits for one captured frame.
pub open spec fn emitted(interface: Seq<char>, target: Ipv4Address, frame: Seq<u8>) -> Option<
    Seq<char>,
> {
    message(frame_outcome(target, frame), interface)
}

/// The text of an optional line.
pub open spec fn text_of(r: Option<String>) -> Option<Seq<char>> {
    match r {
        Some(s) => Some(s@),
        None => None,
    }
}

fn digit_str(d: u32) -> (r: &'static str)
    requires
        d < 10,
    ensures
        r@ == seq![digit_char(d as int)],
{
    proof {
        reveal_strlit("0");
        reveal_strlit("1");
        reveal_strlit("2");
        reveal_strlit("3");
        reveal_strlit("4");
        reveal_strlit("5");
        reveal_strlit("6");
        reveal_strlit("7");
        reveal_strlit("8");
        reveal_strlit("9");
    }
    if d == 0 {
        "0"
    } else if d == 1 {
        "1"
    } else if d == 2 {
        "2"
    } else if d == 3 {
        "3"
    } else if d == 4 {
        "4"
    } else if d == 5 {
        "5"
    } else if d == 6 {
        "6"
    } else if d == 7 {
        "7"
    } else if d == 8 {
        "8"
    } else {
        "9"
    }
}

/// Appends `n` in decimal.
pub fn push_decimal(s: &mut String, n: u32)
    ensures
        final(s)@ == old(s)@ + decimal(n as nat),
    decreases n,
{
    if n >= 10 {
        push_decimal(s, n / 10);
    }
    s.append(digit_str(n % 10));
    proof {
        if n >= 10 {
            assert(old(s)@ + decimal(n as nat) =~= old(s)@ + decimal((n / 10) as nat) + seq![
                digit_char((n % 10) as int),
            ]);
        } else {
            assert(old(s)@ + decimal(n as nat) =~= old(s)@ + seq![digit_char(n as int)]);
        }
    }
}

/// Appends an address in dotted-quad form.
pub fn push_address(s: &mut String, a: Ipv4Address)
    ensures
        final(s)@ == old(s)@ + address_text(a),
{
    push_decimal(s, a.a as u32);
    s.append(".");
    push_decimal(s, a.b as u32);
    s.append(".");
    push_decimal(s, a.c as u32);
    s.append(".");
    push_decimal(s, a.d as u32);
    assert(final(s)@ =~= old(s)@ + address_text(a));
}

impl Ipv4Address {
    /// The address in dotted-quad form, such as `239.12.255.254`.
    pub fn to_text(&self) -> (r: String)
        ensures
            r@ == address_text(*self),
    {
        let mut s = String::new();
        push_address(&mut s, *self);
        assert(s@ =~= address_text(*self));
        s
    }
}

/// The report line of a datagram sent to the configured group.
pub fn format_report(interface: &str, r: &UdpReport) -> (s: String)
    ensures
        s@ == report_line(interface@, *r),
{
    let mut s = String::from_str("[");
    s.append(interface);
    s.append("]: UDP Packet: ");
    push_address(&mut s, r.source);
    s.append(":");
    push_decimal(&mut s, r.source_port as u32);
    s.append(" > ");
    push_address(&mut s, r.destination);
    s.append(":");
    push_decimal(&mut s, r.destination_port as u32);
    s.append("; length: ");
    push_decimal(&mut s, r.length as u32);
    s.append(":");
    assert(s@ =~= report_line(interface@, *r));
    s
}

impl Outcome {
    /// The line that this outcome is reported with: a report, a malformed
    /// IPv4 or UDP header, or nothing for the quietly dropped cases.
    pub fn message(&self, interface: &str) -> (r: Option<String>)
        ensures
            text_of(r) == message(*self, interface@),
    {
        match self {
            Outcome::Report(rep) => Some(format_report(interface, rep)),
            Outcome::MalformedIpv4 => {
                let mut s = String::from_str("[");
                s.append(interface);
                s.append("]: Malformed IPv4 Packet");
                Some(s)
            },
            Outcome::MalformedUdp => {
                let mut s = String::from_str("[");
                s.append(interface);
                s.append("]: Malformed UDP Packet");
                Some(s)
            },
            _ => None,
        }
    }
}

/// The settings the pipeline runs with: the name of the interface that the
/// lines are tagged with, and the multicast group whose datagrams are reported.
#[derive(Debug)]
pub struct Config {
    pub interface: String,
    pub target: Ipv4Address,
}

impl Config {
    pub fn new(interface: &str, target: Ipv4Address) -> (r: Config)
        ensures
            r.interface@ == interface@,
            r.target == target,
    {
        Config { interface: String::from_str(interface), target }
    }
}

/// Runs the whole pipeline on one captured frame and returns the line it
/// emits, if any.
pub fn handle_ethernet_frame(config: &Config, frame: &[u8]) -> (r: Option<String>)
    ensures
        text_of(r) == emitted(config.interface@, config.target, frame@),
{
    let o = classify_frame(config.target, frame);
    o.message(config.interface.as_str())
}

} // verus!
