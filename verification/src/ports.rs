//! Port enumeration support: transport classification of a discovered port
//! and the report lines printed for one enumeration.
use crate::decimal::{decimal_chars, u64_to_decimal};
use vstd::prelude::*;
use vstd::string::*;

verus! {

/// Coarse classification of the bus a serial port is exposed over. Every
/// host-reported variant maps to exactly one of these, `Unknown` being the
/// catch-all for anything that is not USB, PCI or Bluetooth.
#[derive(Clone, Copy, Debug, PartialEq, Eq, Structural)]
pub enum PortKind {
    Usb,
    Pci,
    Bluetooth,
    Unknown,
}

/// One discovered serial port: its platform name and its transport.
pub struct PortDescriptor {
    /// Platform-specific path or symbolic name.
    pub name: String,
    /// Classified transport of the port.
    pub kind: PortKind,
}

/// The label printed for each transport.
pub open spec fn kind_label(k: PortKind) -> Seq<char> {
    match k {
        PortKind::Usb => "usb"@,
        PortKind::Pci => "pci"@,
        PortKind::Bluetooth => "bluetooth"@,
        PortKind::Unknown => "unknown"@,
    }
}

/// Map a transport to its printed label: a total function with one label
/// per transport.
pub fn get_port_type(kind: PortKind) -> (r: String)
    ensures
        r@ == kind_label(kind),
{
    match kind {
        PortKind::Usb => String::from_str("usb"),
        PortKind::Pci => String::from_str("pci"),
        PortKind::Bluetooth => String::from_str("bluetooth"),
        PortKind::Unknown => String::from_str("unknown"),
    }
}

/// The summary line for a non-empty enumeration of `n` ports.
pub open spec fn count_line(n: int) -> Seq<char> {
    "Ports found: "@ + decimal_chars(n)
}

/// The line printed for one port: tab, name, tab, transport label.
pub open spec fn port_line(name: Seq<char>, k: PortKind) -> Seq<char> {
    "\t"@ + name + "\t"@ + kind_label(k)
}

/// The per-port lines of a report, in the order the host reported them.
pub open spec fn port_lines(ports: Seq<PortDescriptor>) -> Seq<Seq<char>> {
    ports.map_values(|p: PortDescriptor| port_line(p.name@, p.kind))
}

/// The full report for one enumeration: a single notice when no port was
/// found, else a summary line followed by one line per port, in the order
/// the host reported them.
pub open spec fn report_lines(ports: Seq<PortDescriptor>) -> Seq<Seq<char>> {
    if ports.len() == 0 {
        seq!["No serial ports found"@]
    } else {
        seq![count_line(ports.len() as int)] + port_lines(ports)
    }
}

/// Build the lines that one enumeration prints, in order.
pub fn list_report(ports: &Vec<PortDescriptor>) -> (r: Vec<String>)
    ensures
        r.deep_view() == report_lines(ports@),
{
    let mut r: Vec<String> = Vec::new();
    if ports.len() == 0 {
        r.push(String::from_str("No serial ports found"));
        proof {
            assert(r.deep_view() =~= report_lines(ports@));
        }
        return r;
    }
    let count = u64_to_decimal(ports.len() as u64);
    r.push(String::from_str("Ports found: ").concat(count.as_str()));
    let mut i: usize = 0;
    while i < ports.len()
        invariant
            0 <= i <= ports@.len(),
            ports@.len() > 0,
            r.deep_view() =~= seq![count_line(ports@.len() as int)] + port_lines(
                ports@.take(i as int),
            ),
        decreases ports@.len() - i,
    {
        let p = &ports[i];
        let label = get_port_type(p.kind);
        let line = String::from_str("\t").concat(p.name.as_str()).concat("\t").concat(
            label.as_str(),
        );
        let ghost prev = r.deep_view();
        let ghost pl = port_line(ports@[i as int].name@, ports@[i as int].kind);
        r.push(line);
        proof {
            assert(line@ == pl);
            assert(r.deep_view() =~= prev.push(line@));
            assert(port_lines(ports@.take(i + 1)) =~= port_lines(ports@.take(i as int)).push(pl));
            assert((seq![count_line(ports@.len() as int)] + port_lines(ports@.take(i as int))).push(
                pl,
            ) =~= seq![count_line(ports@.len() as int)] + port_lines(ports@.take(i + 1)));
        }
        i = i + 1;
    }
    proof {
        assert(ports@.take(ports@.len() as int) =~= ports@);
        assert(r.deep_view() =~= report_lines(ports@));
    }
    r
}

/// The report depends only on the names and transports of the ports, in
/// order: two enumerations that find the same devices print the same lines.
pub proof fn lemma_report_identical(a: Seq<PortDescriptor>, b: Seq<PortDescriptor>)
    requires
        a.len() == b.len(),
        forall|i: int|
            0 <= i < a.len() ==> (#[trigger] a[i]).name@ == b[i].name@ && a[i].kind == b[i].kind,
    ensures
        report_lines(a) == report_lines(b),
{
    if a.len() == 0 {
        assert(report_lines(a) =~= report_lines(b));
    } else {
        assert(a.map_values(|p: PortDescriptor| port_line(p.name@, p.kind)) =~= b.map_values(
            |p: PortDescriptor| port_line(p.name@, p.kind),
        ));
        assert(report_lines(a) =~= report_lines(b));
    }
}

} // verus!
