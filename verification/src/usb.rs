//! Finding the serial port of a USB device.

use crate::client::MCUmgrClient;
use crate::text::{
    decimal, decimal_number, ends_with, hex_digits, hex_limit, hex_number, law_decimal_reads_back,
    law_hex_digits_read_back, push_decimal, push_hex, starts_with,
};
use vstd::prelude::*;
use vstd::string::*;

verus! {

/// The errors of the pattern compiler.
#[verifier::external_type_specification]
#[verifier::external_body]
pub struct ExRegexError(regex::Error);

/// The pattern is a valid regular expression.
pub uninterp spec fn regex_compiles(
    pattern: Seq<char>,
    case_insensitive: bool,
    unicode: bool,
) -> bool;

/// Where the first match of a pattern starts in a text, in bytes.
pub uninterp spec fn regex_first_match(
    pattern: Seq<char>,
    case_insensitive: bool,
    unicode: bool,
    text: Seq<char>,
) -> Option<usize>;

/// Trusted: `regex::RegexBuilder::build` accepts or rejects a pattern by nothing but the pattern
/// and the two options, here named [`regex_compiles`]. Where `regex::Regex::find` finds the first
/// match depends on nothing but these and the text, and is here named [`regex_first_match`]. Why
/// a pattern is rejected is left open.
#[verifier::external_body]
fn find_start(pattern: &str, case_insensitive: bool, unicode: bool, text: &str) -> (r: Result<
    Option<usize>,
    regex::Error,
>)
    ensures
        r is Ok <==> regex_compiles(pattern@, case_insensitive, unicode),
        r matches Ok(start) ==> start == regex_first_match(
            pattern@,
            case_insensitive,
            unicode,
            text@,
        ),
{
    let mut builder = regex::RegexBuilder::new(pattern);
    let regex = builder.case_insensitive(case_insensitive).unicode(unicode).build()?;
    Ok(regex.find(text).map(|m| m.start()))
}

/// Upper and lower case letters of an identifier are the same.
pub const CASE_INSENSITIVE: bool = true;

/// Identifiers are matched as Unicode texts.
pub const UNICODE: bool = true;

/// What a USB serial port tells about itself.
#[derive(Debug, PartialEq, Eq)]
pub struct UsbPortInfo {
    /// The vendor ID
    pub vid: u16,
    /// The product ID
    pub pid: u16,
    /// The serial number
    pub serial_number: Option<String>,
    /// The name of the manufacturer
    pub manufacturer: Option<String>,
    /// The name of the product
    pub product: Option<String>,
    /// The number of the interface
    pub interface: Option<u8>,
}

/// A serial port of the system.
#[derive(Clone, Debug, PartialEq, Eq)]
pub struct SystemPort {
    /// The name of the port
    pub port_name: String,
    /// Information about the port, if it is a USB port
    pub usb: Option<UsbPortInfo>,
}

/// Information about a serial port
#[derive(Debug, PartialEq, Eq)]
pub struct UsbSerialPortInfo {
    /// The identifier that the regex will match against
    pub identifier: String,
    /// The name of the port
    pub port_name: String,
    /// Information about the port
    pub port_info: UsbPortInfo,
}

/// A list of available serial ports
///
/// Used for pretty error messages.
#[derive(Clone, Debug, PartialEq, Eq)]
pub struct UsbSerialPorts(pub Vec<UsbSerialPortInfo>);

/// Possible error values of [`MCUmgrClient::new_from_usb_serial`](crate::client::MCUmgrClient::new_from_usb_serial).
#[derive(Debug)]
pub enum UsbSerialError {
    /// Serialport error
    SerialPortError(String),
    /// No port matched the given identifier
    NoMatchingPort {
        /// The original identifier provided by the user
        identifier: String,
        /// A list of available ports
        available: UsbSerialPorts,
    },
    /// More than one port matched the given identifier
    MultipleMatchingPorts {
        /// The original identifier provided by the user
        identifier: String,
        /// The matching ports
        ports: UsbSerialPorts,
    },
    /// Returned when the identifier was empty;
    /// can be used to query all available ports
    IdentifierEmpty {
        /// A list of available ports
        ports: UsbSerialPorts,
    },
    /// The given identifier was not a valid RegEx
    RegexError(regex::Error),
}

fn clone_text(text: &Option<String>) -> (r: Option<String>)
    ensures
        r == *text,
{
    match text {
        Some(text) => Some(text.clone()),
        None => None,
    }
}

impl Clone for UsbPortInfo {
    fn clone(&self) -> (r: UsbPortInfo)
        ensures
            r == *self,
    {
        UsbPortInfo {
            vid: self.vid,
            pid: self.pid,
            serial_number: clone_text(&self.serial_number),
            manufacturer: clone_text(&self.manufacturer),
            product: clone_text(&self.product),
            interface: self.interface,
        }
    }
}

impl Clone for UsbSerialPortInfo {
    fn clone(&self) -> (r: UsbSerialPortInfo)
        ensures
            r == *self,
    {
        UsbSerialPortInfo {
            identifier: self.identifier.clone(),
            port_name: self.port_name.clone(),
            port_info: self.port_info.clone(),
        }
    }
}

/// The vendor ID, the product ID and the interface of a port, as far as it has one.
pub open spec fn identifier_text(info: UsbPortInfo) -> Seq<char> {
    let ids = hex_digits(info.vid as nat, 4) + ":"@ + hex_digits(info.pid as nat, 4);
    match info.interface {
        Some(interface) => ids + ":"@ + decimal(interface as nat),
        None => ids,
    }
}

/// Returns the identifier of a port.
pub fn port_identifier(info: &UsbPortInfo) -> (s: String)
    ensures
        s@ == identifier_text(*info),
{
    let mut s = String::new();
    push_hex(&mut s, info.vid as u32, 4);
    s.append(":");
    push_hex(&mut s, info.pid as u32, 4);
    if let Some(interface) = info.interface {
        s.append(":");
        push_decimal(&mut s, interface as u64);
    }
    assert(s@ =~= identifier_text(*info));
    s
}

/// The list entry describes the USB port of the system.
pub open spec fn describes(entry: UsbSerialPortInfo, port: SystemPort) -> bool {
    &&& entry.identifier@ == identifier_text(entry.port_info)
    &&& entry.port_name == port.port_name
    &&& port.usb == Some(entry.port_info)
}

/// The list holds an entry for every USB port of the system, in order.
pub open spec fn lists_usb_ports(
    entries: Seq<UsbSerialPortInfo>,
    ports: Seq<SystemPort>,
) -> bool {
    let usb_ports = ports.filter(|port: SystemPort| port.usb is Some);
    &&& entries.len() == usb_ports.len()
    &&& forall|i: int| 0 <= i < entries.len() ==> describes(#[trigger] entries[i], usb_ports[i])
}

/// Lists the USB ports of the system.
pub fn usb_ports(ports: Vec<SystemPort>) -> (list: UsbSerialPorts)
    ensures
        lists_usb_ports(list.0@, ports@),
{
    let ghost is_usb = |port: SystemPort| port.usb is Some;
    let ghost all = ports@;
    let mut list: Vec<UsbSerialPortInfo> = Vec::new();
    let mut i: usize = 0;
    assert(all.take(0) =~= Seq::empty());
    assert(all.take(0).filter(is_usb) =~= Seq::empty()) by {
        reveal(Seq::filter);
    }
    while i < ports.len()
        invariant
            i <= ports@.len(),
            ports@ == all,
            is_usb == (|port: SystemPort| port.usb is Some),
            lists_usb_ports(list@, all.take(i as int)),
        decreases ports@.len() - i,
    {
        proof {
            reveal(Seq::filter);
            assert(all.take(i + 1).drop_last() =~= all.take(i as int));
            assert(all.take(i + 1).last() == all[i as int]);
        }
        let port = &ports[i];
        if let Some(port_info) = &port.usb {
            list.push(
                UsbSerialPortInfo {
                    identifier: port_identifier(port_info),
                    port_name: port.port_name.clone(),
                    port_info: port_info.clone(),
                },
            );
        }
        i += 1;
    }
    assert(all.take(i as int) =~= all);
    UsbSerialPorts(list)
}

/// The identifier is a valid pattern.
pub open spec fn is_pattern(identifier: Seq<char>) -> bool {
    regex_compiles(identifier, CASE_INSENSITIVE, UNICODE)
}

/// Where the first match of a pattern starts in the identifier of each port.
pub open spec fn first_matches(pattern: Seq<char>, ports: Seq<UsbSerialPortInfo>) -> Seq<
    Option<usize>,
> {
    ports.map_values(
        |port: UsbSerialPortInfo|
            regex_first_match(pattern, CASE_INSENSITIVE, UNICODE, port.identifier@),
    )
}

/// The ports that a pattern matches from the beginning of their identifier, in order, if its
/// first match in the identifier of each port starts at the given positions.
pub open spec fn matched_ports(
    ports: Seq<UsbSerialPortInfo>,
    starts: Seq<Option<usize>>,
) -> Seq<UsbSerialPortInfo>
    decreases ports.len(),
{
    if ports.len() == 0 {
        Seq::empty()
    } else {
        let before = matched_ports(ports.drop_last(), starts.drop_last());
        if starts.last() == Some(0usize) {
            before.push(ports.last())
        } else {
            before
        }
    }
}

/// The result of choosing a port, if the first match of the pattern in the identifier of each
/// port starts at the given positions. The pattern has to match exactly one port.
pub open spec fn chooses_port(
    identifier: Seq<char>,
    ports: UsbSerialPorts,
    starts: Seq<Option<usize>>,
    r: Result<String, UsbSerialError>,
) -> bool {
    let matching = matched_ports(ports.0@, starts);
    if matching.len() > 1 {
        r matches Err(
            UsbSerialError::MultipleMatchingPorts { identifier: given, ports: listed },
        ) && given@ == identifier && listed.0@ == matching
    } else if matching.len() == 0 {
        r matches Err(
            UsbSerialError::NoMatchingPort { identifier: given, available },
        ) && given@ == identifier && available == ports
    } else {
        r matches Ok(port_name) && port_name == matching[0].port_name
    }
}

/// Chooses the port of a device, once it is known where the pattern matches.
///
/// # Arguments
///
/// * `identifier` - The regex that identifies the device.
/// * `ports` - The available USB ports.
/// * `starts` - Where the first match of the regex starts in the identifier of each port.
///
/// # Return
///
/// The name of the only port whose identifier the regex matches from its beginning.
pub fn choose_port(
    identifier: &str,
    ports: UsbSerialPorts,
    starts: &Vec<Option<usize>>,
) -> (r: Result<String, UsbSerialError>)
    requires
        starts@.len() == ports.0@.len(),
        identifier@.len() > 0,
    ensures
        chooses_port(identifier@, ports, starts@, r),
{
    let mut matches: Vec<UsbSerialPortInfo> = Vec::new();
    let mut i: usize = 0;
    while i < ports.0.len()
        invariant
            i <= ports.0@.len(),
            starts@.len() == ports.0@.len(),
            matches@ == matched_ports(ports.0@.take(i as int), starts@.take(i as int)),
        decreases ports.0@.len() - i,
    {
        proof {
            assert(ports.0@.take(i + 1).drop_last() =~= ports.0@.take(i as int));
            assert(starts@.take(i + 1).drop_last() =~= starts@.take(i as int));
        }
        // Only accept if the regex matches at the beginning of the string
        if let Some(start) = starts[i] {
            if start == 0 {
                matches.push(ports.0[i].clone());
            }
        }
        i += 1;
    }
    assert(ports.0@.take(i as int) =~= ports.0@);
    assert(starts@.take(i as int) =~= starts@);
    if matches.len() > 1 {
        return Err(
            UsbSerialError::MultipleMatchingPorts {
                identifier: identifier.to_owned(),
                ports: UsbSerialPorts(matches),
            },
        );
    }
    if matches.len() == 0 {
        return Err(
            UsbSerialError::NoMatchingPort { identifier: identifier.to_owned(), available: ports },
        );
    }
    Ok(matches[0].port_name.clone())
}

/// Finds where the first match of a pattern starts in the identifier of each port.
fn find_matches(identifier: &str, ports: &Vec<UsbSerialPortInfo>) -> (r: Result<
    Vec<Option<usize>>,
    regex::Error,
>)
    ensures
        r is Ok <==> is_pattern(identifier@),
        r matches Ok(starts) ==> starts@ == first_matches(identifier@, ports@),
{
    // The pattern has to be valid even if there are no ports to match it against
    if let Err(err) = find_start(identifier, CASE_INSENSITIVE, UNICODE, "") {
        return Err(err);
    }
    let mut starts: Vec<Option<usize>> = Vec::new();
    let mut i: usize = 0;
    while i < ports.len()
        invariant
            i <= ports@.len(),
            is_pattern(identifier@),
            starts@ == first_matches(identifier@, ports@.take(i as int)),
        decreases ports@.len() - i,
    {
        match find_start(identifier, CASE_INSENSITIVE, UNICODE, ports[i].identifier.as_str()) {
            Ok(start) => starts.push(start),
            Err(err) => {
                return Err(err);
            },
        }
        i += 1;
        assert(starts@ =~= first_matches(identifier@, ports@.take(i as int)));
    }
    assert(ports@.take(i as int) =~= ports@);
    Ok(starts)
}

/// The result of selecting a port from a list.
///
/// An empty identifier is rejected, and so is an invalid pattern. Otherwise the pattern has to
/// match exactly one port.
pub open spec fn selects_port(
    identifier: Seq<char>,
    ports: UsbSerialPorts,
    r: Result<String, UsbSerialError>,
) -> bool {
    if identifier.len() == 0 {
        r matches Err(UsbSerialError::IdentifierEmpty { ports: listed }) && listed == ports
    } else if !is_pattern(identifier) {
        r matches Err(UsbSerialError::RegexError(_))
    } else {
        chooses_port(identifier, ports, first_matches(identifier, ports.0@), r)
    }
}

/// Selects the port of a device.
///
/// # Arguments
///
/// * `identifier` - A regex that identifies the device.
/// * `ports` - The available USB ports.
///
/// # Return
///
/// The name of the only port whose identifier the regex matches from its beginning.
pub fn select_port(identifier: &str, ports: UsbSerialPorts) -> (r: Result<String, UsbSerialError>)
    ensures
        selects_port(identifier@, ports, r),
{
    if identifier.is_empty() {
        return Err(UsbSerialError::IdentifierEmpty { ports });
    }
    match find_matches(identifier, &ports.0) {
        Ok(starts) => choose_port(identifier, ports, &starts),
        Err(err) => Err(UsbSerialError::RegexError(err)),
    }
}

/// The name of a port in brackets.
pub open spec fn bracketed(name: Seq<char>) -> Seq<char> {
    "("@ + name + ")"@
}

/// The product name already starts with the name of the manufacturer.
pub open spec fn names_manufacturer(info: UsbPortInfo) -> bool {
    info.manufacturer is Some && info.product is Some && info.manufacturer->0@.is_prefix_of(
        info.product->0@,
    )
}

/// The product name already ends with the name of the port in brackets.
pub open spec fn names_port(port: UsbSerialPortInfo) -> bool {
    port.port_info.product is Some && bracketed(port.port_name@).is_suffix_of(
        port.port_info.product->0@,
    )
}

/// The names of the manufacturer and the product, as far as there are any.
pub open spec fn product_text(info: UsbPortInfo) -> Seq<char> {
    if info.manufacturer is None && info.product is None {
        Seq::empty()
    } else {
        " -"@ + (if info.manufacturer is Some && !names_manufacturer(info) {
            " "@ + info.manufacturer->0@
        } else {
            Seq::empty()
        }) + (if info.product is Some {
            " "@ + info.product->0@
        } else {
            Seq::empty()
        })
    }
}

/// The line that describes a port.
pub open spec fn port_text(port: UsbSerialPortInfo) -> Seq<char> {
    "\n"@ + " - "@ + port.identifier@ + product_text(port.port_info) + (if names_port(port) {
        Seq::empty()
    } else {
        " "@ + bracketed(port.port_name@)
    })
}

/// The lines that describe several ports.
pub open spec fn port_lines(ports: Seq<UsbSerialPortInfo>) -> Seq<char>
    decreases ports.len(),
{
    if ports.len() == 0 {
        Seq::empty()
    } else {
        port_lines(ports.drop_last()) + port_text(ports.last())
    }
}

fn append_product(out: &mut String, info: &UsbPortInfo)
    ensures
        final(out)@ == old(out)@ + product_text(*info),
{
    if info.manufacturer.is_some() || info.product.is_some() {
        out.append(" -");
        if let Some(manufacturer) = &info.manufacturer {
            let mut print_manufacturer = true;
            if let Some(product) = &info.product {
                if starts_with(product.as_str(), manufacturer.as_str()) {
                    print_manufacturer = false;
                }
            }
            if print_manufacturer {
                out.append(" ");
                out.append(manufacturer.as_str());
            }
        }
        if let Some(product) = &info.product {
            out.append(" ");
            out.append(product.as_str());
        }
    }
    assert(out@ =~= old(out)@ + product_text(*info));
}

fn append_port(out: &mut String, port: &UsbSerialPortInfo)
    ensures
        final(out)@ == old(out)@ + port_text(*port),
{
    out.append("\n");
    out.append(" - ");
    out.append(port.identifier.as_str());
    append_product(out, &port.port_info);
    let mut port_string = String::new();
    port_string.append("(");
    port_string.append(port.port_name.as_str());
    port_string.append(")");
    assert(port_string@ =~= bracketed(port.port_name@));
    let mut print_port_string = true;
    if let Some(product) = &port.port_info.product {
        if ends_with(product.as_str(), port_string.as_str()) {
            print_port_string = false;
        }
    }
    if print_port_string {
        out.append(" ");
        out.append(port_string.as_str());
    }
    assert(out@ =~= old(out)@ + port_text(*port));
}

impl UsbSerialPorts {
    /// Describes the ports, one per line.
    pub fn to_string(&self) -> (s: String)
        ensures
            s@ == if self.0@.len() == 0 {
                "\n"@ + " - None -"@
            } else {
                port_lines(self.0@)
            },
    {
        let mut out = String::new();
        if self.0.is_empty() {
            out.append("\n");
            out.append(" - None -");
            assert(out@ =~= "\n"@ + " - None -"@);
            return out;
        }
        let mut i: usize = 0;
        while i < self.0.len()
            invariant
                i <= self.0@.len(),
                out@ == port_lines(self.0@.take(i as int)),
            decreases self.0@.len() - i,
        {
            append_port(&mut out, &self.0[i]);
            assert(self.0@.take(i + 1).drop_last() =~= self.0@.take(i as int));
            i += 1;
        }
        assert(self.0@.take(i as int) =~= self.0@);
        out
    }
}

/// The identifier of a port consists of its vendor and product ID, each with four lower-case
/// hexadecimal digits, and of the number of its interface in decimal, whenever it has one.
pub proof fn law_identifier_names_port(info: UsbPortInfo, s: String)
    requires
        call_ensures(port_identifier, (&info,), s),
    ensures
        s@.len() >= 9,
        hex_number(s@.subrange(0, 4)) == Some(info.vid as nat),
        s@[4] == ':',
        hex_number(s@.subrange(5, 9)) == Some(info.pid as nat),
        info.interface is None ==> s@.len() == 9,
        info.interface is Some ==> {
            &&& s@.len() > 10
            &&& s@[9] == ':'
            &&& decimal_number(s@.skip(10)) == Some(info.interface->0 as nat)
            &&& s@[10] == '0' ==> s@.len() == 11
        },
{
    reveal_strlit(":");
    reveal_with_fuel(hex_limit, 5);
    law_hex_digits_read_back(info.vid as nat, 4);
    law_hex_digits_read_back(info.pid as nat, 4);
    assert(s@.subrange(0, 4) =~= hex_digits(info.vid as nat, 4));
    assert(s@.subrange(5, 9) =~= hex_digits(info.pid as nat, 4));
    if info.interface is Some {
        let interface = info.interface->0 as nat;
        law_decimal_reads_back(interface);
        assert(s@.skip(10) =~= decimal(interface));
    }
}

/// Two ports have the same identifier exactly if they have the same vendor, the same product and
/// the same interface.
pub proof fn law_identifiers_tell_ports_apart(
    a: UsbPortInfo,
    b: UsbPortInfo,
    identifier_a: String,
    identifier_b: String,
)
    requires
        call_ensures(port_identifier, (&a,), identifier_a),
        call_ensures(port_identifier, (&b,), identifier_b),
    ensures
        identifier_a@ == identifier_b@ <==> a.vid == b.vid && a.pid == b.pid && a.interface
            == b.interface,
{
    law_identifier_names_port(a, identifier_a);
    law_identifier_names_port(b, identifier_b);
}

/// How many of the first `n` ports are USB ports.
pub open spec fn usb_before(ports: Seq<SystemPort>, n: int) -> int
    decreases n,
{
    if n <= 0 {
        0
    } else {
        usb_before(ports, n - 1) + (if ports[n - 1].usb is Some {
            1int
        } else {
            0
        })
    }
}

proof fn lemma_usb_before(a: Seq<SystemPort>, b: Seq<SystemPort>, n: int)
    requires
        n <= a.len(),
        n <= b.len(),
        forall|i: int| 0 <= i < n ==> a[i] == b[i],
    ensures
        usb_before(a, n) == usb_before(b, n),
        0 <= usb_before(a, n),
    decreases n,
{
    if n > 0 {
        lemma_usb_before(a, b, n - 1);
    }
}

proof fn lemma_usb_count(ports: Seq<SystemPort>)
    ensures
        ports.filter(|port: SystemPort| port.usb is Some).len() == usb_before(
            ports,
            ports.len() as int,
        ),
    decreases ports.len(),
{
    reveal(Seq::filter);
    if ports.len() > 0 {
        lemma_usb_count(ports.drop_last());
        lemma_usb_before(ports, ports.drop_last(), ports.len() - 1);
    }
}

proof fn lemma_usb_rank(ports: Seq<SystemPort>, i: int)
    requires
        0 <= i < ports.len(),
        ports[i].usb is Some,
    ensures
        ({
            let usb = ports.filter(|port: SystemPort| port.usb is Some);
            let rank = usb_before(ports, i);
            0 <= rank < usb.len() && usb[rank] == ports[i]
        }),
    decreases ports.len(),
{
    reveal(Seq::filter);
    let shorter = ports.drop_last();
    lemma_usb_before(ports, shorter, i);
    if i == ports.len() - 1 {
        lemma_usb_count(shorter);
    } else {
        lemma_usb_rank(shorter, i);
    }
}

/// The list of USB ports holds every USB port of the system, and nothing else, in the order of
/// the system, each with its own identifier.
pub proof fn law_usb_ports_are_listed(
    ports: Vec<SystemPort>,
    list: UsbSerialPorts,
    i: int,
    identifier: String,
)
    requires
        call_ensures(usb_ports, (ports,), list),
        0 <= i < ports@.len(),
        ports@[i].usb is Some ==> call_ensures(
            port_identifier,
            (&ports@[i].usb->0,),
            identifier,
        ),
    ensures
        list.0@.len() == usb_before(ports@, ports@.len() as int),
        ports@[i].usb is Some ==> {
            let rank = usb_before(ports@, i);
            &&& 0 <= rank < list.0@.len()
            &&& list.0@[rank].port_name == ports@[i].port_name
            &&& Some(list.0@[rank].port_info) == ports@[i].usb
            &&& list.0@[rank].identifier@ == identifier@
        },
{
    lemma_usb_count(ports@);
    if ports@[i].usb is Some {
        lemma_usb_rank(ports@, i);
        let rank = usb_before(ports@, i);
        assert(describes(
            list.0@[rank],
            ports@.filter(|port: SystemPort| port.usb is Some)[rank],
        ));
    }
}

/// How many of the first `n` matches start at the beginning.
pub open spec fn matches_before(starts: Seq<Option<usize>>, n: int) -> int
    decreases n,
{
    if n <= 0 {
        0
    } else {
        matches_before(starts, n - 1) + (if starts[n - 1] == Some(0usize) {
            1int
        } else {
            0
        })
    }
}

proof fn lemma_matches_before(a: Seq<Option<usize>>, b: Seq<Option<usize>>, n: int)
    requires
        n <= a.len(),
        n <= b.len(),
        forall|i: int| 0 <= i < n ==> a[i] == b[i],
    ensures
        matches_before(a, n) == matches_before(b, n),
        0 <= matches_before(a, n),
    decreases n,
{
    if n > 0 {
        lemma_matches_before(a, b, n - 1);
    }
}

proof fn lemma_matched_ports(ports: Seq<UsbSerialPortInfo>, starts: Seq<Option<usize>>)
    requires
        ports.len() == starts.len(),
    ensures
        matched_ports(ports, starts).len() == matches_before(starts, starts.len() as int),
        forall|i: int|
            #![trigger starts[i]]
            0 <= i < starts.len() && starts[i] == Some(0usize) ==> 0 <= matches_before(starts, i)
                < matched_ports(ports, starts).len() && matched_ports(ports, starts)[matches_before(
                starts,
                i,
            )] == ports[i],
    decreases ports.len(),
{
    if ports.len() > 0 {
        let n = ports.len() - 1;
        lemma_matched_ports(ports.drop_last(), starts.drop_last());
        lemma_matches_before(starts, starts.drop_last(), n);
        assert forall|i: int|
            #![trigger starts[i]]
            0 <= i < starts.len() && starts[i] == Some(0usize) implies 0 <= matches_before(
            starts,
            i,
        ) < matched_ports(ports, starts).len() && matched_ports(ports, starts)[matches_before(
            starts,
            i,
        )] == ports[i] by {
            lemma_matches_before(starts, starts.drop_last(), i);
            if i < n {
                assert(starts.drop_last()[i] == starts[i]);
            }
        }
    }
}

/// A port is chosen exactly if the pattern matches one identifier from its beginning and no
/// other. If it matches none, all ports are listed, and if it matches several, those are.
pub proof fn law_choice_is_unique(
    identifier: &str,
    ports: UsbSerialPorts,
    starts: Vec<Option<usize>>,
    r: Result<String, UsbSerialError>,
    i: int,
)
    requires
        call_ensures(choose_port, (identifier, ports, &starts), r),
        starts@.len() == ports.0@.len(),
        identifier@.len() > 0,
        0 <= i < starts@.len() && starts@[i] == Some(0usize),
    ensures
        r matches Ok(name) ==> name == ports.0@[i].port_name,
        r is Ok <==> (forall|j: int|
            0 <= j < starts@.len() && #[trigger] starts@[j] == Some(0usize) ==> j == i),
        r is Err ==> (r->Err_0 matches UsbSerialError::MultipleMatchingPorts {
            identifier: given,
            ports: listed,
        } && given@ == identifier@ && listed.0@.len() == matches_before(
            starts@,
            starts@.len() as int,
        ) && listed.0@[matches_before(starts@, i)] == ports.0@[i]),
{
    lemma_matched_ports(ports.0@, starts@);
    let matching = matched_ports(ports.0@, starts@);
    if forall|j: int|
        0 <= j < starts@.len() && #[trigger] starts@[j] == Some(0usize) ==> j == i {
        lemma_single_match(starts@, i, starts@.len() as int);
    } else {
        let j = choose|j: int|
            0 <= j < starts@.len() && #[trigger] starts@[j] == Some(0usize) && j != i;
        if i < j {
            lemma_two_matches(starts@, i, j);
        } else {
            lemma_two_matches(starts@, j, i);
        }
    }
}

proof fn lemma_single_match(starts: Seq<Option<usize>>, i: int, n: int)
    requires
        0 <= i < starts.len(),
        0 <= n <= starts.len(),
        starts[i] == Some(0usize),
        forall|j: int| 0 <= j < starts.len() && #[trigger] starts[j] == Some(0usize) ==> j == i,
    ensures
        matches_before(starts, n) == (if i < n {
            1int
        } else {
            0
        }),
    decreases n,
{
    if n > 0 {
        lemma_single_match(starts, i, n - 1);
    }
}

proof fn lemma_two_matches(starts: Seq<Option<usize>>, i: int, j: int)
    requires
        0 <= i < j < starts.len(),
        starts[i] == Some(0usize),
        starts[j] == Some(0usize),
    ensures
        matches_before(starts, i) < matches_before(starts, j),
        matches_before(starts, j) < matches_before(starts, starts.len() as int),
        0 <= matches_before(starts, i),
{
    lemma_matches_before(starts, starts, i);
    lemma_matches_grow(starts, i + 1, j);
    lemma_matches_grow(starts, j + 1, starts.len() as int);
}

proof fn lemma_matches_grow(starts: Seq<Option<usize>>, m: int, n: int)
    requires
        0 <= m <= n <= starts.len(),
    ensures
        matches_before(starts, m) <= matches_before(starts, n),
    decreases n - m,
{
    if m < n {
        lemma_matches_grow(starts, m, n - 1);
    }
}

/// If the pattern matches no identifier from its beginning, no port is chosen and all of them are
/// listed.
pub proof fn law_no_choice_without_match(
    identifier: &str,
    ports: UsbSerialPorts,
    starts: Vec<Option<usize>>,
    r: Result<String, UsbSerialError>,
)
    requires
        call_ensures(choose_port, (identifier, ports, &starts), r),
        starts@.len() == ports.0@.len(),
        identifier@.len() > 0,
        forall|j: int| 0 <= j < starts@.len() ==> #[trigger] starts@[j] != Some(0usize),
    ensures
        r matches Err(UsbSerialError::NoMatchingPort { identifier: given, available }) && given@
            == identifier@ && available == ports,
{
    lemma_matched_ports(ports.0@, starts@);
    lemma_no_matches(starts@, starts@.len() as int);
}

proof fn lemma_no_matches(starts: Seq<Option<usize>>, n: int)
    requires
        0 <= n <= starts.len(),
        forall|j: int| 0 <= j < starts.len() ==> #[trigger] starts[j] != Some(0usize),
    ensures
        matches_before(starts, n) == 0,
    decreases n,
{
    if n > 0 {
        lemma_no_matches(starts, n - 1);
    }
}

/// Where the case-insensitive Unicode pattern first matches the identifier of a port.
pub open spec fn match_start(pattern: Seq<char>, port: UsbSerialPortInfo) -> Option<usize> {
    regex_first_match(pattern, true, true, port.identifier@)
}

proof fn lemma_selection_is_unique(
    identifier: Seq<char>,
    ports: UsbSerialPorts,
    r: Result<String, UsbSerialError>,
)
    requires
        selects_port(identifier, ports, r),
    ensures
        identifier.len() == 0 ==> (r matches Err(UsbSerialError::IdentifierEmpty { ports: listed })
            && listed == ports),
        identifier.len() > 0 && !regex_compiles(identifier, true, true) ==> (r matches Err(
            UsbSerialError::RegexError(_),
        )),
        identifier.len() > 0 && regex_compiles(identifier, true, true) ==> forall|i: int|
            0 <= i < ports.0@.len() && match_start(identifier, #[trigger] ports.0@[i]) == Some(
                0usize,
            ) ==> {
                &&& r matches Ok(name) ==> name == ports.0@[i].port_name
                &&& r is Ok <==> (forall|j: int|
                    0 <= j < ports.0@.len() && match_start(identifier, #[trigger] ports.0@[j])
                        == Some(0usize) ==> j == i)
                &&& r is Err ==> (r->Err_0 matches UsbSerialError::MultipleMatchingPorts {
                    identifier: given,
                    ports: listed,
                } && given@ == identifier && listed.0@.contains(ports.0@[i]))
            },
        identifier.len() > 0 && regex_compiles(identifier, true, true) && (forall|j: int|
            0 <= j < ports.0@.len() ==> match_start(identifier, #[trigger] ports.0@[j]) != Some(
                0usize,
            )) ==> (r matches Err(UsbSerialError::NoMatchingPort { identifier: given, available })
            && given@ == identifier && available == ports),
{
    let starts = first_matches(identifier, ports.0@);
    lemma_matched_ports(ports.0@, starts);
    if identifier.len() > 0 && regex_compiles(identifier, true, true) {
        assert forall|i: int|
            0 <= i < ports.0@.len() && match_start(identifier, #[trigger] ports.0@[i]) == Some(
                0usize,
            ) implies {
            &&& r matches Ok(name) ==> name == ports.0@[i].port_name
            &&& r is Ok <==> (forall|j: int|
                0 <= j < ports.0@.len() && match_start(identifier, #[trigger] ports.0@[j]) == Some(
                    0usize,
                ) ==> j == i)
            &&& r is Err ==> (r->Err_0 matches UsbSerialError::MultipleMatchingPorts {
                identifier: given,
                ports: listed,
            } && given@ == identifier && listed.0@.contains(ports.0@[i]))
        } by {
            assert(starts[i] == Some(0usize));
            let matching = matched_ports(ports.0@, starts);
            assert(matching[matches_before(starts, i)] == ports.0@[i]);
            assert(matching.contains(ports.0@[i]));
            if forall|j: int|
                0 <= j < ports.0@.len() && match_start(identifier, #[trigger] ports.0@[j]) == Some(
                    0usize,
                ) ==> j == i {
                assert forall|j: int|
                    0 <= j < starts.len() && #[trigger] starts[j] == Some(0usize) implies j
                    == i by {
                    assert(match_start(identifier, ports.0@[j]) == Some(0usize));
                }
                lemma_single_match(starts, i, i);
                lemma_single_match(starts, i, starts.len() as int);
            } else {
                let j = choose|j: int|
                    0 <= j < ports.0@.len() && match_start(identifier, #[trigger] ports.0@[j])
                        == Some(0usize) && j != i;
                assert(starts[j] == Some(0usize));
                if i < j {
                    lemma_two_matches(starts, i, j);
                } else {
                    lemma_two_matches(starts, j, i);
                }
            }
        }
        if forall|j: int|
            0 <= j < ports.0@.len() ==> match_start(identifier, #[trigger] ports.0@[j]) != Some(
                0usize,
            ) {
            assert forall|j: int| 0 <= j < starts.len() implies #[trigger] starts[j] != Some(
                0usize,
            ) by {
                assert(match_start(identifier, ports.0@[j]) != Some(0usize));
            }
            lemma_no_matches(starts, starts.len() as int);
        }
    }
}

/// Selecting a port rejects an empty identifier and an invalid pattern. A port is selected exactly
/// if the pattern matches its identifier from the beginning, in either case, and no other.
pub proof fn law_selection_is_unique(
    identifier: &str,
    ports: UsbSerialPorts,
    r: Result<String, UsbSerialError>,
)
    requires
        call_ensures(select_port, (identifier, ports), r),
    ensures
        identifier@.len() == 0 ==> (r matches Err(UsbSerialError::IdentifierEmpty { ports: listed })
            && listed == ports),
        identifier@.len() > 0 && !regex_compiles(identifier@, true, true) ==> (r matches Err(
            UsbSerialError::RegexError(_),
        )),
        identifier@.len() > 0 && regex_compiles(identifier@, true, true) ==> forall|i: int|
            0 <= i < ports.0@.len() && match_start(identifier@, #[trigger] ports.0@[i]) == Some(
                0usize,
            ) ==> {
                &&& r matches Ok(name) ==> name == ports.0@[i].port_name
                &&& r is Ok <==> (forall|j: int|
                    0 <= j < ports.0@.len() && match_start(identifier@, #[trigger] ports.0@[j])
                        == Some(0usize) ==> j == i)
                &&& r is Err ==> (r->Err_0 matches UsbSerialError::MultipleMatchingPorts {
                    identifier: given,
                    ports: listed,
                } && given@ == identifier@ && listed.0@.contains(ports.0@[i]))
            },
        identifier@.len() > 0 && regex_compiles(identifier@, true, true) && (forall|j: int|
            0 <= j < ports.0@.len() ==> match_start(identifier@, #[trigger] ports.0@[j]) != Some(
                0usize,
            )) ==> (r matches Err(UsbSerialError::NoMatchingPort { identifier: given, available })
            && given@ == identifier@ && available == ports),
{
    lemma_selection_is_unique(identifier@, ports, r);
}

/// The system port is a USB port whose identifier a case-insensitive Unicode pattern matches from
/// the beginning.
pub open spec fn is_matched(pattern: Seq<char>, port: SystemPort) -> bool {
    port.usb is Some && regex_first_match(pattern, true, true, identifier_text(port.usb->0)) == Some(
        0usize,
    )
}

proof fn lemma_usb_unrank(ports: Seq<SystemPort>, rank: int) -> (i: int)
    requires
        0 <= rank < ports.filter(|port: SystemPort| port.usb is Some).len(),
    ensures
        0 <= i < ports.len(),
        ports[i].usb is Some,
        usb_before(ports, i) == rank,
    decreases ports.len(),
{
    reveal(Seq::filter);
    let is_usb = |port: SystemPort| port.usb is Some;
    if ports.len() == 0 {
        0
    } else {
        let shorter = ports.drop_last();
        lemma_usb_count(shorter);
        if rank < shorter.filter(is_usb).len() {
            let i = lemma_usb_unrank(shorter, rank);
            lemma_usb_before(ports, shorter, i);
            i
        } else {
            let n = ports.len() - 1;
            lemma_usb_before(ports, shorter, n);
            n
        }
    }
}

proof fn lemma_usb_grow(ports: Seq<SystemPort>, i: int, j: int)
    requires
        0 <= i < j <= ports.len(),
        ports[i].usb is Some,
    ensures
        usb_before(ports, i) < usb_before(ports, j),
    decreases j - i,
{
    if j > i + 1 {
        lemma_usb_grow(ports, i, j - 1);
    }
}

proof fn lemma_listed_match(
    pattern: Seq<char>,
    ports: Seq<SystemPort>,
    listed: UsbSerialPorts,
    i: int,
)
    requires
        lists_usb_ports(listed.0@, ports),
        0 <= i < ports.len(),
        ports[i].usb is Some,
    ensures
        ({
            let rank = usb_before(ports, i);
            &&& 0 <= rank < listed.0@.len()
            &&& listed.0@[rank].port_name == ports[i].port_name
            &&& match_start(pattern, listed.0@[rank]) == Some(0usize) <==> is_matched(
                pattern,
                ports[i],
            )
        }),
{
    lemma_usb_rank(ports, i);
    assert(describes(
        listed.0@[usb_before(ports, i)],
        ports.filter(|port: SystemPort| port.usb is Some)[usb_before(ports, i)],
    ));
}

/// The port of a device is selected among the ports of the system by the pattern alone. It is
/// selected exactly if it is a USB port whose identifier the pattern matches from the beginning,
/// and no other port is.
pub proof fn law_system_port_is_selected<T>(
    identifier: &str,
    ports: Vec<SystemPort>,
    r: Result<String, UsbSerialError>,
    i: int,
)
    requires
        call_ensures(
            MCUmgrClient::<T>::new_from_usb_serial,
            (identifier, Ok::<Vec<SystemPort>, String>(ports)),
            r,
        ),
        identifier@.len() > 0,
        0 <= i < ports@.len(),
    ensures
        !regex_compiles(identifier@, true, true) ==> (r matches Err(UsbSerialError::RegexError(_))),
        regex_compiles(identifier@, true, true) && is_matched(identifier@, ports@[i]) ==> {
            &&& r matches Ok(name) ==> name == ports@[i].port_name
            &&& r is Ok <==> (forall|j: int|
                0 <= j < ports@.len() && is_matched(identifier@, #[trigger] ports@[j]) ==> j == i)
            &&& r is Err ==> r->Err_0 is MultipleMatchingPorts
        },
        regex_compiles(identifier@, true, true) && (forall|j: int|
            0 <= j < ports@.len() ==> !is_matched(identifier@, #[trigger] ports@[j])) ==> (
        r matches Err(UsbSerialError::NoMatchingPort { .. })),
{
    let listed = choose|listed: UsbSerialPorts|
        #[trigger] lists_usb_ports(listed.0@, ports@) && selects_port(identifier@, listed, r);
    let pattern = identifier@;
    lemma_selection_is_unique(pattern, listed, r);
    if is_matched(pattern, ports@[i]) {
        lemma_listed_match(pattern, ports@, listed, i);
        let rank = usb_before(ports@, i);
        assert(match_start(pattern, listed.0@[rank]) == Some(0usize));
        if forall|j: int|
            0 <= j < ports@.len() && is_matched(pattern, #[trigger] ports@[j]) ==> j == i {
            assert forall|k: int|
                0 <= k < listed.0@.len() && match_start(pattern, #[trigger] listed.0@[k]) == Some(
                    0usize,
                ) implies k == rank by {
                let j = lemma_usb_unrank(ports@, k);
                lemma_listed_match(pattern, ports@, listed, j);
                assert(is_matched(pattern, ports@[j]));
            }
        } else {
            let j = choose|j: int|
                0 <= j < ports@.len() && is_matched(pattern, #[trigger] ports@[j]) && j != i;
            lemma_listed_match(pattern, ports@, listed, j);
            if i < j {
                lemma_usb_grow(ports@, i, j);
            } else {
                lemma_usb_grow(ports@, j, i);
            }
            assert(match_start(pattern, listed.0@[usb_before(ports@, j)]) == Some(0usize));
        }
    }
    if forall|j: int| 0 <= j < ports@.len() ==> !is_matched(pattern, #[trigger] ports@[j]) {
        assert forall|k: int| 0 <= k < listed.0@.len() implies match_start(
            pattern,
            #[trigger] listed.0@[k],
        ) != Some(0usize) by {
            let j = lemma_usb_unrank(ports@, k);
            lemma_listed_match(pattern, ports@, listed, j);
            assert(!is_matched(pattern, ports@[j]));
        }
    }
}

/// An error of the system is passed on, and an empty identifier lists the USB ports.
pub proof fn law_ports_of_system_are_needed<T>(
    identifier: &str,
    available: Result<Vec<SystemPort>, String>,
    r: Result<String, UsbSerialError>,
)
    requires
        call_ensures(MCUmgrClient::<T>::new_from_usb_serial, (identifier, available), r),
    ensures
        available matches Err(err) ==> r == Err::<String, UsbSerialError>(
            UsbSerialError::SerialPortError(err),
        ),
        identifier@.len() == 0 ==> (available matches Ok(ports) ==> (r matches Err(
            UsbSerialError::IdentifierEmpty { ports: listed },
        ) && listed.0@.len() == usb_before(ports@, ports@.len() as int))),
{
    if let Ok(ports) = available {
        lemma_usb_count(ports@);
    }
}

/// Where the names of the manufacturer and the product stand, next to each other unless the
/// product starts with the name of the manufacturer.
pub open spec fn shown_names(manufacturer: Option<Seq<char>>, product: Option<Seq<char>>) -> Seq<
    char,
> {
    match (manufacturer, product) {
        (None, None) => Seq::empty(),
        (Some(m), None) => " - "@ + m,
        (None, Some(p)) => " - "@ + p,
        (Some(m), Some(p)) => if p.len() >= m.len() && p.take(m.len() as int) == m {
            " - "@ + p
        } else {
            " - "@ + m + " "@ + p
        },
    }
}

/// The name of the port in brackets, unless the product ends with it.
pub open spec fn shown_port(name: Seq<char>, product: Option<Seq<char>>) -> Seq<char> {
    let brackets = "("@ + name + ")"@;
    match product {
        Some(p) => if p.len() >= brackets.len() && p.skip(p.len() - brackets.len()) == brackets {
            Seq::empty()
        } else {
            " "@ + brackets
        },
        None => " "@ + brackets,
    }
}

/// A list of ports is described with a line for every port, in order. The line tells the
/// identifier, the names of the manufacturer and the product, and the name of the port, without
/// repeating a name. An empty list is described as such.
pub proof fn law_ports_are_described(
    ports: UsbSerialPorts,
    s: String,
    shorter: UsbSerialPorts,
    s_shorter: String,
)
    requires
        call_ensures(UsbSerialPorts::to_string, (&ports,), s),
        ports.0@.len() > 0 ==> shorter.0@ == ports.0@.drop_last(),
        call_ensures(UsbSerialPorts::to_string, (&shorter,), s_shorter),
    ensures
        ports.0@.len() == 0 ==> s@ == "\n - None -"@,
        ports.0@.len() > 0 ==> {
            let port = ports.0@.last();
            let manufacturer = match port.port_info.manufacturer {
                Some(m) => Some(m@),
                None => None,
            };
            let product = match port.port_info.product {
                Some(p) => Some(p@),
                None => None,
            };
            let before = if ports.0@.len() == 1 {
                Seq::empty()
            } else {
                s_shorter@
            };
            s@ == before + "\n - "@ + port.identifier@ + shown_names(manufacturer, product)
                + shown_port(port.port_name@, product)
        },
{
    reveal_strlit("\n");
    reveal_strlit(" - ");
    reveal_strlit("\n - ");
    reveal_strlit(" - None -");
    reveal_strlit("\n - None -");
    reveal_strlit(" -");
    reveal_strlit(" ");
    assert("\n"@ + " - None -"@ =~= "\n - None -"@);
    if ports.0@.len() > 0 {
        let port = ports.0@.last();
        let info = port.port_info;
        let manufacturer = match info.manufacturer {
            Some(m) => Some(m@),
            None => None,
        };
        let product = match info.product {
            Some(p) => Some(p@),
            None => None,
        };
        if info.manufacturer is Some && info.product is Some {
            let m = info.manufacturer->0@;
            let p = info.product->0@;
            assert(p.len() >= m.len() ==> p.subrange(0, m.len() as int) =~= p.take(
                m.len() as int,
            ));
        }
        assert(product_text(info) =~= shown_names(manufacturer, product));
        let brackets = bracketed(port.port_name@);
        if info.product is Some {
            let p = info.product->0@;
            assert(p.len() >= brackets.len() ==> p.subrange(
                p.len() - brackets.len(),
                p.len() as int,
            ) =~= p.skip(p.len() - brackets.len()));
        }
        let before = if ports.0@.len() == 1 {
            Seq::empty()
        } else {
            s_shorter@
        };
        assert(port_lines(shorter.0@) =~= before);
        assert(s@ =~= before + "\n - "@ + port.identifier@ + shown_names(manufacturer, product)
            + shown_port(port.port_name@, product));
    }
}

/// A copy of a port is the same port.
pub proof fn law_port_is_copied(
    port: UsbSerialPortInfo,
    copy: UsbSerialPortInfo,
    info: UsbPortInfo,
    info_copy: UsbPortInfo,
)
    requires
        call_ensures(UsbSerialPortInfo::clone, (&port,), copy),
        call_ensures(UsbPortInfo::clone, (&info,), info_copy),
    ensures
        copy == port,
        info_copy == info,
{
}

} // verus!
