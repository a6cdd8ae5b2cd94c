//! The eight queries, each on a capture of its own protocol.

use listening_ports::{
    privileged_tcp_free, privileged_tcp_used, privileged_udp_free, privileged_udp_used,
    unprivileged_tcp_free, unprivileged_tcp_used, unprivileged_udp_free, unprivileged_udp_used,
    Capture, Protocol,
};

fn tcp_capture() -> Capture {
    let text = "LISTEN 0      128          0.0.0.0:22         0.0.0.0:*\n\
                LISTEN 0      4096      127.0.0.53%lo:53        0.0.0.0:*\n\
                LISTEN 0      511          0.0.0.0:8080       0.0.0.0:*\n\
                LISTEN 0      128             [::]:22            [::]:*\n\
                LISTEN 0      4096            [::1]:6010          [::]:*\n";
    Capture::Exited { code: Some(0), output: text.as_bytes().to_vec() }
}

fn udp_capture() -> Capture {
    let text = "UNCONN 0      0      127.0.0.53%lo:53        0.0.0.0:*\n\
                UNCONN 0      0            0.0.0.0:68        0.0.0.0:*\n\
                UNCONN 0      0            0.0.0.0:5353      0.0.0.0:*\n\
                UNCONN 0      0               [::]:5353         [::]:*\n\
                UNCONN 0      0      [fe80::1]%eth0:546          [::]:*\n";
    Capture::Exited { code: Some(0), output: text.as_bytes().to_vec() }
}

#[test]
fn unprivileged_tcp_free_test() {
    match unprivileged_tcp_free(&tcp_capture()) {
        Ok(Some(ports)) => {
            println!("Unprivileged TCP ports FREE ({} total): {:?}", ports.len(), ports);
            assert_eq!(ports.len(), 64512 - 2);
            assert_eq!(ports[0], 1024);
            assert!(!ports.contains(&8080));
            assert!(!ports.contains(&6010));
            assert!(ports.contains(&8081));
            assert_eq!(ports[ports.len() - 1], 65535);
        }
        Ok(None) => {
            println!("All unprivileged TCP ports (1024‑65535) are currently listening.");
            panic!("two unprivileged ports are in use, not all");
        }
        Err(e) => {
            println!("Failed to run `ss`: {}", e.message());
            panic!("the capture is of a run that succeeded");
        }
    }
}

#[test]
fn unprivileged_tcp_used_test() {
    match unprivileged_tcp_used(&tcp_capture()) {
        Ok(Some(ports)) => {
            println!("Unprivileged TCP ports IN USE ({} total): {:?}", ports.len(), ports);
            assert_eq!(ports, vec![6010, 8080]);
        }
        Ok(None) => {
            println!("No unprivileged TCP ports (1024‑65535) are currently listening.");
            panic!("two unprivileged ports are in use");
        }
        Err(e) => {
            println!("Failed to run `ss`: {}", e.message());
            panic!("the capture is of a run that succeeded");
        }
    }
}

#[test]
fn privileged_tcp_free_test() {
    match privileged_tcp_free(&tcp_capture()) {
        Ok(Some(ports)) => {
            println!("Privileged TCP ports FREE ({} total): {:?}", ports.len(), ports);
            assert_eq!(ports.len(), 1023 - 2);
            assert!(!ports.contains(&22));
            assert!(!ports.contains(&53));
            assert_eq!(ports[0], 1);
            assert_eq!(ports[ports.len() - 1], 1023);
        }
        Ok(None) => {
            println!("All privileged TCP ports (1‑1023) are currently listening.");
            panic!("two privileged ports are in use, not all");
        }
        Err(e) => {
            println!("Failed to run `ss`: {}", e.message());
            panic!("the capture is of a run that succeeded");
        }
    }
}

#[test]
fn privileged_tcp_used_test() {
    match privileged_tcp_used(&tcp_capture()) {
        Ok(Some(ports)) => {
            println!("Privileged TCP ports in use ({} total): {:?}", ports.len(), ports);
            assert_eq!(ports, vec![22, 53]);
        }
        Ok(None) => {
            println!("No privileged TCP ports are currently listening.");
            panic!("two privileged ports are in use");
        }
        Err(e) => {
            println!("Failed to run `ss`: {}", e.message());
            panic!("the capture is of a run that succeeded");
        }
    }
}

#[test]
fn privileged_udp_used_test() {
    match privileged_udp_used(&udp_capture()) {
        Ok(Some(ports)) => {
            println!("Privileged UDP ports IN USE ({} total): {:?}", ports.len(), ports);
            assert_eq!(ports, vec![53, 68, 546]);
        }
        Ok(None) => {
            println!("No privileged UDP ports (1‑1023) are currently listening.");
            panic!("three privileged ports are in use");
        }
        Err(e) => {
            println!("Failed to run `ss`: {}", e.message());
            panic!("the capture is of a run that succeeded");
        }
    }
}

#[test]
fn unprivileged_udp_used_test() {
    match unprivileged_udp_used(&udp_capture()) {
        Ok(Some(ports)) => {
            println!("Unprivileged UDP ports IN USE ({} total): {:?}", ports.len(), ports);
            assert_eq!(ports, vec![5353]);
        }
        Ok(None) => {
            println!("No unprivileged UDP ports (1024‑65535) are currently listening.");
            panic!("one unprivileged port is in use");
        }
        Err(e) => {
            println!("Failed to run `ss`: {}", e.message());
            panic!("the capture is of a run that succeeded");
        }
    }
}

#[test]
fn privileged_udp_free_test() {
    match privileged_udp_free(&udp_capture()) {
        Ok(Some(ports)) => {
            println!("Privileged UDP ports FREE ({} total): {:?}", ports.len(), ports);
            assert_eq!(ports.len(), 1023 - 3);
            assert!(!ports.contains(&53));
            assert!(!ports.contains(&68));
            assert!(!ports.contains(&546));
            assert!(ports.contains(&67));
        }
        Ok(None) => {
            println!("All privileged UDP ports (1‑1023) are currently listening.");
            panic!("three privileged ports are in use, not all");
        }
        Err(e) => {
            println!("Failed to run `ss`: {}", e.message());
            panic!("the capture is of a run that succeeded");
        }
    }
}

#[test]
fn unprivileged_udp_free_test() {
    match unprivileged_udp_free(&udp_capture()) {
        Ok(Some(ports)) => {
            println!("Unprivileged UDP ports FREE ({} total): {:?}", ports.len(), ports);
            assert_eq!(ports.len(), 64512 - 1);
            assert!(!ports.contains(&5353));
            assert!(ports.contains(&5354));
        }
        Ok(None) => {
            println!("All unprivileged UDP ports (1024‑65535) are currently listening.");
            panic!("one unprivileged port is in use, not all");
        }
        Err(e) => {
            println!("Failed to run `ss`: {}", e.message());
            panic!("the capture is of a run that succeeded");
        }
    }
}

#[test]
fn selectors_name_the_protocol() {
    assert_eq!(Protocol::Tcp.selector(), "-tlnH");
    assert_eq!(Protocol::Udp.selector(), "-ulnH");
}
