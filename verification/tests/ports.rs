use runtimes::connection::{
    connection_info, from_peeking_ports, ConnectionInfo, ConnectionNegotiation, ConnectionStep,
    Transport, CHANNELS,
};
use runtimes::ports::{peek_ports, PortError, PortNegotiation, PortsStep};
use std::cell::Cell;

/// Negotiates `num` ports with a system that answers the attempts to bind with
/// `bound`, in order. Gives the outcome and the number of attempts.
fn negotiate(num: usize, bound: &[Option<u16>]) -> (Result<Vec<u16>, PortError>, usize) {
    let binds = Cell::new(0);
    let bind = |address: String| {
        assert_eq!(address, "127.0.0.1");
        binds.set(binds.get() + 1);
        bound[binds.get() - 1]
    };
    let outcome = peek_ports("127.0.0.1".to_string(), num, &bind);
    (outcome, binds.get())
}

/// The same, by a caller that takes the steps itself.
fn negotiate_in_steps(num: usize, bound: &[Option<u16>]) -> (Result<Vec<u16>, PortError>, usize) {
    let mut step = PortNegotiation::start("127.0.0.1".to_string(), num);
    let mut binds = 0;
    loop {
        match step {
            PortsStep::Bind(negotiation) => {
                assert_eq!(negotiation.ip(), "127.0.0.1");
                let outcome = bound[binds];
                binds += 1;
                step = negotiation.resume(outcome);
            }
            PortsStep::Done(outcome) => return (outcome, binds),
        }
    }
}

#[test]
fn negotiation_in_steps_ends_as_the_whole_does() {
    let all = [Some(40001), Some(40005), Some(40003), Some(40002), Some(40004), Some(1)];
    let some = [Some(1), Some(2), None, Some(4), Some(5)];
    for num in 0..6 {
        assert_eq!(negotiate_in_steps(num, &all), negotiate(num, &all));
    }
    for num in 0..3 {
        assert_eq!(negotiate_in_steps(num, &some), negotiate(num, &some));
        assert_eq!(negotiate(num, &some).0, Ok(some[..num].iter().map(|port| port.unwrap()).collect()));
    }
    for num in 3..6 {
        assert_eq!(negotiate_in_steps(num, &some), negotiate(num, &some));
        assert_eq!(negotiate(num, &some), (Err(PortError::PortAcquisitionFailed), 3));
    }
}

#[test]
fn negotiation_gives_the_bound_ports_in_order() {
    let bound = [Some(40001), Some(40005), Some(40003), Some(40002), Some(40004), Some(1)];
    assert_eq!(negotiate(5, &bound), (Ok(vec![40001, 40005, 40003, 40002, 40004]), 5));
    assert_eq!(negotiate(1, &bound), (Ok(vec![40001]), 1));
    assert_eq!(negotiate(3, &bound), (Ok(vec![40001, 40005, 40003]), 3));
}

#[test]
fn negotiation_for_no_port_binds_nothing() {
    assert_eq!(negotiate(0, &[]), (Ok(vec![]), 0));
}

#[test]
fn negotiation_gives_exactly_the_wanted_number_of_distinct_ports() {
    for num in 1..20usize {
        let bound: Vec<Option<u16>> = (0..num).map(|i| Some(50000 + i as u16)).collect();
        let (outcome, binds) = negotiate(num, &bound);
        let ports = outcome.unwrap();
        assert_eq!(binds, num);
        assert_eq!(ports.len(), num);
        for i in 0..num {
            for j in 0..i {
                assert_ne!(ports[i], ports[j]);
            }
        }
    }
}

#[test]
fn negotiation_keeps_a_port_that_the_system_assigned_twice() {
    assert_eq!(negotiate(2, &[Some(40000), Some(40000)]), (Ok(vec![40000, 40000]), 2));
}

#[test]
fn negotiation_fails_as_a_whole() {
    assert_eq!(negotiate(5, &[None]), (Err(PortError::PortAcquisitionFailed), 1));
    assert_eq!(
        negotiate(5, &[Some(1), Some(2), None, Some(4), Some(5)]),
        (Err(PortError::PortAcquisitionFailed), 3)
    );
    assert_eq!(
        negotiate(3, &[Some(1), Some(2), None]),
        (Err(PortError::PortAcquisitionFailed), 3)
    );
}

#[test]
fn connection_takes_its_ports_by_position() {
    let info = connection_info(
        "127.0.0.1".to_string(),
        &vec![1, 2, 3, 4, 5],
        "key".to_string(),
        "python".to_string(),
    )
    .unwrap();
    assert_eq!(info.transport, Transport::Tcp);
    assert_eq!(info.ip, "127.0.0.1");
    assert_eq!(info.stdin_port, 1);
    assert_eq!(info.control_port, 2);
    assert_eq!(info.hb_port, 3);
    assert_eq!(info.shell_port, 4);
    assert_eq!(info.iopub_port, 5);
    assert_eq!(info.signature_scheme, "hmac-sha256");
    assert_eq!(info.key, "key");
    assert_eq!(info.kernel_name, Some("python".to_string()));
}

#[test]
fn connection_needs_five_ports() {
    assert_eq!(CHANNELS, 5);
    for ports in [vec![], vec![1], vec![1, 2, 3, 4], vec![1, 2, 3, 4, 5, 6]] {
        assert_eq!(
            connection_info("::1".to_string(), &ports, "key".to_string(), "deno".to_string()),
            None
        );
    }
}

#[test]
fn transports_have_their_words() {
    assert_eq!(Transport::Tcp.name(), "tcp");
    assert_eq!(Transport::Ipc.name(), "ipc");
}

fn connect(bound: &[Option<u16>]) -> (Result<ConnectionInfo, PortError>, usize) {
    let binds = Cell::new(0);
    let bind = |address: String| {
        assert_eq!(address, "127.0.0.1");
        binds.set(binds.get() + 1);
        bound[binds.get() - 1]
    };
    let outcome = from_peeking_ports("127.0.0.1".to_string(), "python".to_string(), &bind);
    (outcome, binds.get())
}

fn connect_in_steps(bound: &[Option<u16>]) -> (Result<ConnectionInfo, PortError>, usize) {
    let mut step = ConnectionStep::Bind(ConnectionNegotiation::start(
        "127.0.0.1".to_string(),
        "python".to_string(),
    ));
    let mut binds = 0;
    loop {
        match step {
            ConnectionStep::Bind(negotiation) => {
                assert_eq!(negotiation.ip(), "127.0.0.1");
                let outcome = bound[binds];
                binds += 1;
                step = negotiation.resume(outcome);
            }
            ConnectionStep::Done(outcome) => return (outcome, binds),
        }
    }
}

fn assert_fresh_key(key: &str) {
    let chars: Vec<char> = key.chars().collect();
    assert_eq!(chars.len(), 36);
    for (i, c) in chars.iter().enumerate() {
        if i == 8 || i == 13 || i == 18 || i == 23 {
            assert_eq!(*c, '-');
        } else {
            assert!(matches!(*c, '0'..='9' | 'a'..='f'), "{:?} at {}", c, i);
        }
    }
    assert_eq!(chars[14], '4');
}

#[test]
fn connection_from_peeked_ports() {
    let bound = [Some(9001), Some(9002), Some(9003), Some(9004), Some(9005), Some(9006)];
    let (outcome, binds) = connect(&bound);
    let info = outcome.unwrap();
    assert_eq!(binds, 5);
    assert_eq!(info.transport, Transport::Tcp);
    assert_eq!(info.ip, "127.0.0.1");
    assert_eq!(
        (info.stdin_port, info.control_port, info.hb_port, info.shell_port, info.iopub_port),
        (9001, 9002, 9003, 9004, 9005)
    );
    assert_eq!(info.signature_scheme, "hmac-sha256");
    assert_eq!(info.kernel_name, Some("python".to_string()));
    assert_fresh_key(&info.key);
}

#[test]
fn connections_have_keys_of_their_own() {
    let bound = [Some(9001), Some(9002), Some(9003), Some(9004), Some(9005)];
    let first = connect(&bound).0.unwrap();
    let second = connect(&bound).0.unwrap();
    assert_fresh_key(&first.key);
    assert_fresh_key(&second.key);
    assert_ne!(first.key, second.key);
}

#[test]
fn connection_fails_with_its_ports() {
    let (outcome, binds) = connect(&[Some(9001), Some(9002), None]);
    assert_eq!(outcome, Err(PortError::PortAcquisitionFailed));
    assert_eq!(binds, 3);
    let (outcome, binds) = connect_in_steps(&[Some(9001), Some(9002), None]);
    assert_eq!(outcome, Err(PortError::PortAcquisitionFailed));
    assert_eq!(binds, 3);
}

#[test]
fn connection_in_steps() {
    let bound = [Some(9001), Some(9002), Some(9003), Some(9004), Some(9005), Some(9006)];
    let (outcome, binds) = connect_in_steps(&bound);
    let info = outcome.unwrap();
    assert_eq!(binds, 5);
    assert_fresh_key(&info.key);
    let key = info.key.clone();
    assert_eq!(
        Some(info),
        connection_info(
            "127.0.0.1".to_string(),
            &vec![9001, 9002, 9003, 9004, 9005],
            key,
            "python".to_string(),
        )
    );
}
