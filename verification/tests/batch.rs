use dualstack_resolve::address::{IpAddress, Record, AddrError, SocketAddress};
use dualstack_resolve::batch::{resolve_addrs, BatchStep};
use dualstack_resolve::resolve::{resolve_addr, Step};

/// Runs a batch without any name server: each address comes with the literal
/// that it denotes, if any, and every query is answered with `answer`.
fn run(list: &[(&str, Option<SocketAddress>)], answer: &Vec<Record>) -> (Result<Vec<SocketAddress>, AddrError>, Vec<String>) {
    let addrs: Vec<String> = list.iter().map(|(text, _)| text.to_string()).collect();
    let mut visited = Vec::new();
    let mut step = resolve_addrs(addrs);
    loop {
        match step {
            BatchStep::Done(all) => return (Ok(all), visited),
            BatchStep::Failed(e) => return (Err(e), visited),
            BatchStep::Next(batch) => {
                let text = batch.current().to_string();
                let literal = list[visited.len()].1;
                visited.push(text.clone());
                let mut one = resolve_addr(&text, literal);
                let outcome = loop {
                    match one {
                        Step::Resolved(s) => break Ok(s),
                        Step::Failed(e) => break Err(e),
                        Step::Ask(q) => one = q.answer(answer),
                    }
                };
                step = batch.record(outcome);
            }
        }
    }
}

fn v4(a: u8, b: u8, c: u8, d: u8, port: u16) -> SocketAddress {
    SocketAddress { ip: IpAddress::V4(a, b, c, d), port }
}

#[test]
fn empty_list_is_done_at_once() {
    match resolve_addrs(Vec::new()) {
        BatchStep::Done(all) => assert!(all.is_empty()),
        _ => panic!("an empty list has nothing to resolve"),
    }
}

#[test]
fn first_failure_ends_the_batch_without_a_list() {
    let list = [("1.2.3.4:80", Some(v4(1, 2, 3, 4, 80))), ("bad", None)];
    let (outcome, visited) = run(&list, &vec![]);
    assert_eq!(outcome, Err(AddrError::InvalidFormat));
    assert_eq!(visited, vec!["1.2.3.4:80".to_string(), "bad".to_string()]);
}

#[test]
fn nothing_after_the_first_failure_is_resolved() {
    let list = [
        ("1.2.3.4:80", Some(v4(1, 2, 3, 4, 80))),
        ("host:http", None),
        ("bad", None),
        ("5.6.7.8:90", Some(v4(5, 6, 7, 8, 90))),
    ];
    let (outcome, visited) = run(&list, &vec![]);
    assert_eq!(outcome, Err(AddrError::InvalidPort));
    assert_eq!(visited.len(), 2);
}

#[test]
fn literal_list_keeps_its_order() {
    let a = v4(1, 2, 3, 4, 80);
    let b = SocketAddress { ip: IpAddress::V6(0, 0, 0, 0, 0, 0, 0, 1), port: 8080 };
    let c = v4(9, 9, 9, 9, 53);
    let list = [("1.2.3.4:80", Some(a)), ("[::1]:8080", Some(b)), ("9.9.9.9:53", Some(c))];
    let (outcome, visited) = run(&list, &vec![]);
    assert_eq!(outcome, Ok(vec![a, b, c]));
    assert_eq!(visited, vec!["1.2.3.4:80".to_string(), "[::1]:8080".to_string(), "9.9.9.9:53".to_string()]);
}

#[test]
fn resolved_domains_keep_the_order_of_the_list() {
    let ip = IpAddress::V4(192, 0, 2, 7);
    let list = [("one.example:1", None), ("2.2.2.2:2", Some(v4(2, 2, 2, 2, 2))), ("three.example:3", None)];
    let (outcome, _) = run(&list, &vec![Record::Address(ip)]);
    assert_eq!(
        outcome,
        Ok(vec![SocketAddress { ip, port: 1 }, v4(2, 2, 2, 2, 2), SocketAddress { ip, port: 3 }])
    );
}

#[test]
fn unresolved_domain_fails_the_batch_with_its_name() {
    let list = [("1.2.3.4:80", Some(v4(1, 2, 3, 4, 80))), ("gone.example:80", None)];
    let (outcome, _) = run(&list, &vec![]);
    assert_eq!(outcome, Err(AddrError::ResolutionFailed("gone.example".to_string())));
}

#[test]
fn single_address_batch() {
    let a = v4(127, 0, 0, 1, 1);
    let (outcome, visited) = run(&[("127.0.0.1:1", Some(a))], &vec![]);
    assert_eq!(outcome, Ok(vec![a]));
    assert_eq!(visited.len(), 1);
}
