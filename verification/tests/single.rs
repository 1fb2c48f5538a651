use dualstack_resolve::address::{
    find_first_address, Family, IpAddress, Record, RecordKind, AddrError, SocketAddress,
};
use dualstack_resolve::resolve::{resolve_addr, Query, Step};
use dualstack_resolve::text::{find_last_colon, parse_port};

fn v4(a: u8, b: u8, c: u8, d: u8, port: u16) -> SocketAddress {
    SocketAddress { ip: IpAddress::V4(a, b, c, d), port }
}

fn ask(domain: &str, port: u16, kind: RecordKind) -> Step {
    Step::Ask(Query { domain: domain.to_string(), port, kind })
}

/// Resolves `addr`, which is no literal, with the two answers at hand, and
/// counts the queries that were asked.
fn settle(addr: &str, aaaa: &Vec<Record>, a: &Vec<Record>) -> (Result<SocketAddress, AddrError>, usize) {
    let mut asked = 0;
    let mut step = resolve_addr(addr, None);
    loop {
        match step {
            Step::Resolved(s) => return (Ok(s), asked),
            Step::Failed(e) => return (Err(e), asked),
            Step::Ask(q) => {
                asked += 1;
                let records = match q.kind {
                    RecordKind::Aaaa => aaaa,
                    RecordKind::A => a,
                };
                step = q.answer(records);
            }
        }
    }
}

#[test]
fn literal_ipv4_is_returned_unchanged() {
    let lit = v4(1, 2, 3, 4, 80);
    assert_eq!(resolve_addr("1.2.3.4:80", Some(lit)), Step::Resolved(lit));
}

#[test]
fn literal_ipv6_is_returned_unchanged() {
    let lit = SocketAddress { ip: IpAddress::V6(0, 0, 0, 0, 0, 0, 0, 1), port: 8080 };
    assert_eq!(resolve_addr("[::1]:8080", Some(lit)), Step::Resolved(lit));
}

#[test]
fn literal_wins_over_the_text() {
    let lit = v4(10, 0, 0, 1, 9);
    assert_eq!(resolve_addr("no colon here", Some(lit)), Step::Resolved(lit));
}

#[test]
fn text_without_colon_is_invalid_format() {
    assert_eq!(resolve_addr("bad", None), Step::Failed(AddrError::InvalidFormat));
    assert_eq!(resolve_addr("", None), Step::Failed(AddrError::InvalidFormat));
    assert_eq!(resolve_addr("example.org", None), Step::Failed(AddrError::InvalidFormat));
}

#[test]
fn bad_port_is_invalid_port() {
    for addr in [
        "example.org:",
        "example.org:http",
        "example.org:65536",
        "example.org:-1",
        "example.org:+",
        "example.org: 80",
        "example.org:80 ",
        "example.org:8_0",
        "example.org:99999999999999999999",
    ] {
        assert_eq!(resolve_addr(addr, None), Step::Failed(AddrError::InvalidPort), "{}", addr);
    }
}

#[test]
fn domain_with_port_asks_for_ipv6_first() {
    assert_eq!(resolve_addr("example.org:443", None), ask("example.org", 443, RecordKind::Aaaa));
    assert_eq!(resolve_addr("example.org:0", None), ask("example.org", 0, RecordKind::Aaaa));
    assert_eq!(resolve_addr("example.org:65535", None), ask("example.org", 65535, RecordKind::Aaaa));
    assert_eq!(resolve_addr("example.org:+80", None), ask("example.org", 80, RecordKind::Aaaa));
    assert_eq!(resolve_addr("example.org:00080", None), ask("example.org", 80, RecordKind::Aaaa));
    assert_eq!(resolve_addr(":53", None), ask("", 53, RecordKind::Aaaa));
}

#[test]
fn text_is_split_at_its_last_colon() {
    assert_eq!(resolve_addr("a:b:80", None), ask("a:b", 80, RecordKind::Aaaa));
    assert_eq!(resolve_addr("a:80:", None), Step::Failed(AddrError::InvalidPort));
    assert_eq!(resolve_addr("b\u{fc}cher.example:8080", None), ask("b\u{fc}cher.example", 8080, RecordKind::Aaaa));
}

#[test]
fn ipv4_answer_is_used_when_there_is_no_ipv6() {
    let a = vec![Record::Address(IpAddress::V4(93, 184, 216, 34))];
    let (outcome, asked) = settle("example.org:443", &vec![], &a);
    assert_eq!(outcome, Ok(v4(93, 184, 216, 34, 443)));
    assert_eq!(asked, 2);
    assert_eq!(outcome.unwrap().ip.family(), Family::V4);
}

#[test]
fn ipv6_answer_is_preferred() {
    let six = IpAddress::V6(0x2606, 0x2800, 0x220, 1, 0x248, 0x1893, 0x25c8, 0x1946);
    let aaaa = vec![Record::Address(six)];
    let a = vec![Record::Address(IpAddress::V4(93, 184, 216, 34))];
    let (outcome, asked) = settle("example.org:443", &aaaa, &a);
    assert_eq!(outcome, Ok(SocketAddress { ip: six, port: 443 }));
    assert_eq!(asked, 1);
    assert_eq!(six.family(), Family::V6);
}

#[test]
fn no_answer_fails_after_both_queries() {
    let (outcome, asked) = settle("nowhere.invalid:25", &vec![], &vec![Record::Other]);
    assert_eq!(outcome, Err(AddrError::ResolutionFailed("nowhere.invalid".to_string())));
    assert_eq!(asked, 2);
}

#[test]
fn empty_ipv6_answer_asks_for_ipv4() {
    let q = Query { domain: "example.org".to_string(), port: 7, kind: RecordKind::Aaaa };
    assert_eq!(q.answer(&vec![]), ask("example.org", 7, RecordKind::A));
}

#[test]
fn empty_ipv4_answer_fails() {
    let q = Query { domain: "example.org".to_string(), port: 7, kind: RecordKind::A };
    assert_eq!(
        q.answer(&vec![Record::Other, Record::Other]),
        Step::Failed(AddrError::ResolutionFailed("example.org".to_string()))
    );
}

#[test]
fn first_address_of_an_answer_is_taken() {
    let first = IpAddress::V4(10, 0, 0, 1);
    let second = IpAddress::V4(10, 0, 0, 2);
    let records = vec![Record::Other, Record::Address(first), Record::Address(second)];
    assert_eq!(find_first_address(&records), Some(first));
    assert_eq!(find_first_address(&vec![Record::Other]), None);
    assert_eq!(find_first_address(&vec![]), None);
    let q = Query { domain: "x".to_string(), port: 1234, kind: RecordKind::A };
    assert_eq!(q.answer(&records), Step::Resolved(SocketAddress { ip: first, port: 1234 }));
}

#[test]
fn port_is_never_altered_by_an_answer() {
    let six = IpAddress::V6(0xfe80, 0, 0, 0, 0, 0, 0, 2);
    for port in [0u16, 1, 53, 8080, 65535] {
        let q = Query { domain: "h".to_string(), port, kind: RecordKind::Aaaa };
        assert_eq!(q.answer(&vec![Record::Address(six)]), Step::Resolved(SocketAddress { ip: six, port }));
    }
}

#[test]
fn parse_port_reads_decimal_numbers() {
    assert_eq!(parse_port("0"), Some(0));
    assert_eq!(parse_port("80"), Some(80));
    assert_eq!(parse_port("+443"), Some(443));
    assert_eq!(parse_port("65535"), Some(65535));
    assert_eq!(parse_port("0000000000000000000000065535"), Some(65535));
    assert_eq!(parse_port("65536"), None);
    assert_eq!(parse_port("70000"), None);
    assert_eq!(parse_port("4294967376"), None);
    assert_eq!(parse_port(""), None);
    assert_eq!(parse_port("+"), None);
    assert_eq!(parse_port("++1"), None);
    assert_eq!(parse_port("-0"), None);
    assert_eq!(parse_port("12a"), None);
    assert_eq!(parse_port("\u{661}\u{662}"), None);
}

#[test]
fn parse_port_agrees_with_the_standard_parser() {
    for text in ["0", "1", "+1", "007", "65535", "65536", "", "+", "-", "1 ", " 1", "0x10", "9999999"] {
        assert_eq!(parse_port(text), text.parse::<u16>().ok(), "{:?}", text);
    }
}

#[test]
fn find_last_colon_counts_characters() {
    assert_eq!(find_last_colon(""), None);
    assert_eq!(find_last_colon("abc"), None);
    assert_eq!(find_last_colon(":"), Some(0));
    assert_eq!(find_last_colon("a:b:c"), Some(3));
    assert_eq!(find_last_colon("\u{fc}\u{fc}:1"), Some(2));
}
