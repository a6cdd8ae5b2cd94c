//! What holds of every snapshot, on chosen snapshots.

use listening_ports::{ports_in_text, Mode, PortRange};

const SNAPSHOTS: [&str; 6] = [
    "",
    "LISTEN 0 128 0.0.0.0:22 0.0.0.0:*\nLISTEN 0 128 [::]:22 [::]:*\n",
    "LISTEN 0 128 0.0.0.0:1 *:*\nLISTEN 0 128 0.0.0.0:1023 *:*\nLISTEN 0 1 *:1024 *:*\nLISTEN 0 1 *:65535 *:*",
    "State Recv-Q Send-Q Local Peer\nLISTEN 0 128 0.0.0.0:8080 *:*\n\nLISTEN 0 128\n",
    "LISTEN 0 128 0.0.0.0:70000 *:*\nLISTEN 0 128 0.0.0.0:http *:*\nLISTEN 0 128 *:0 *:*\n",
    "UNCONN 0 0 127.0.0.53%lo:53 *:*\nUNCONN 0 0 0.0.0.0:5353 *:*\nUNCONN 0 0 0.0.0.0:5353 *:*\n",
];

const RANGES: [PortRange; 2] = [PortRange::Privileged, PortRange::Unprivileged];

fn listed(text: &str, range: PortRange, mode: Mode) -> Vec<u16> {
    let found = ports_in_text(text, range, mode);
    assert_ne!(found, Some(Vec::new()));
    found.unwrap_or_default()
}

#[test]
fn listed_ports_lie_within_the_range() {
    for text in SNAPSHOTS {
        for range in RANGES {
            for mode in [Mode::Used, Mode::Free] {
                for port in listed(text, range, mode) {
                    assert!(range.low() <= port && port <= range.high());
                    assert!(range.contains(port));
                }
            }
        }
    }
}

#[test]
fn used_and_free_part_the_range() {
    for text in SNAPSHOTS {
        for range in RANGES {
            let used = listed(text, range, Mode::Used);
            let free = listed(text, range, Mode::Free);
            for port in &used {
                assert!(!free.contains(port));
            }
            let mut both: Vec<u16> = used.iter().chain(free.iter()).copied().collect();
            both.sort_unstable();
            let all: Vec<u16> = (range.low()..=range.high()).collect();
            assert_eq!(both, all);
        }
    }
}

#[test]
fn reading_twice_gives_the_same_answer() {
    for text in SNAPSHOTS {
        for range in RANGES {
            for mode in [Mode::Used, Mode::Free] {
                assert_eq!(ports_in_text(text, range, mode), ports_in_text(text, range, mode));
            }
        }
    }
}

#[test]
fn listed_ports_ascend_strictly() {
    for text in SNAPSHOTS {
        for range in RANGES {
            for mode in [Mode::Used, Mode::Free] {
                let ports = listed(text, range, mode);
                for pair in ports.windows(2) {
                    assert!(pair[0] < pair[1]);
                }
            }
        }
    }
}

#[test]
fn duplicate_lines_collapse_to_one_entry() {
    let once = "LISTEN 0 128 0.0.0.0:22 *:*\nLISTEN 0 128 0.0.0.0:80 *:*\n";
    let twice = "LISTEN 0 128 0.0.0.0:22 *:*\nLISTEN 0 128 0.0.0.0:80 *:*\nLISTEN 0 128 0.0.0.0:22 *:*\nLISTEN 0 128 [::]:22 *:*\n";
    assert_eq!(ports_in_text(twice, PortRange::Privileged, Mode::Used), Some(vec![22, 80]));
    for range in RANGES {
        for mode in [Mode::Used, Mode::Free] {
            assert_eq!(ports_in_text(twice, range, mode), ports_in_text(once, range, mode));
        }
    }
}

fn with_line(head: &str, line: &str, tail: &str) -> String {
    format!("{head}{line}\n{tail}")
}

#[test]
fn short_line_changes_no_answer() {
    let head = "LISTEN 0 128 0.0.0.0:22 *:*\n";
    let tail = "LISTEN 0 128 0.0.0.0:8080 *:*\n";
    for line in ["", "   ", "LISTEN", "LISTEN 0 128", "a:1 b:2 c:3", "State Recv-Q Send-Q"] {
        let with = with_line(head, line, tail);
        let without = format!("{head}{tail}");
        for range in RANGES {
            for mode in [Mode::Used, Mode::Free] {
                assert_eq!(ports_in_text(&with, range, mode), ports_in_text(&without, range, mode));
            }
        }
    }
}

#[test]
fn unreadable_port_changes_no_answer() {
    let head = "LISTEN 0 128 0.0.0.0:22 *:*\n";
    let tail = "LISTEN 0 128 0.0.0.0:8080 *:*";
    for address in ["*:*", "0.0.0.0:", "0.0.0.0:x", "0.0.0.0:65536", "0.0.0.0:999999", "0.0.0.0", "[::]:-1"] {
        let line = format!("LISTEN 0 128 {address} *:*");
        let with = with_line(head, &line, tail);
        let without = format!("{head}{tail}");
        for range in RANGES {
            for mode in [Mode::Used, Mode::Free] {
                assert_eq!(ports_in_text(&with, range, mode), ports_in_text(&without, range, mode));
            }
        }
    }
}

#[test]
fn port_of_the_other_range_changes_no_answer() {
    let head = "LISTEN 0 128 0.0.0.0:22 *:*\n";
    let tail = "LISTEN 0 128 0.0.0.0:8080 *:*\n";
    let with = with_line(head, "LISTEN 0 128 0.0.0.0:9090 *:*", tail);
    let without = format!("{head}{tail}");
    for mode in [Mode::Used, Mode::Free] {
        assert_eq!(
            ports_in_text(&with, PortRange::Privileged, mode),
            ports_in_text(&without, PortRange::Privileged, mode)
        );
        assert_ne!(
            ports_in_text(&with, PortRange::Unprivileged, mode),
            ports_in_text(&without, PortRange::Unprivileged, mode)
        );
    }
}

#[test]
fn empty_answer_is_absent_never_an_empty_list() {
    for text in SNAPSHOTS {
        for range in RANGES {
            for mode in [Mode::Used, Mode::Free] {
                assert_ne!(ports_in_text(text, range, mode), Some(Vec::new()));
            }
        }
    }
}
