use backend_launcher::decimal::decimal_string;
use backend_launcher::sidecar::{sidecar_args, PORT_FLAG, SIDECAR_PROGRAM};

#[test]
fn decimal_of_single_digits() {
    assert_eq!(decimal_string(0), "0");
    assert_eq!(decimal_string(7), "7");
    assert_eq!(decimal_string(9), "9");
}

#[test]
fn decimal_of_round_numbers() {
    assert_eq!(decimal_string(10), "10");
    assert_eq!(decimal_string(100), "100");
    assert_eq!(decimal_string(8000), "8000");
    assert_eq!(decimal_string(60000), "60000");
}

#[test]
fn decimal_of_largest_port() {
    assert_eq!(decimal_string(65535), "65535");
}

#[test]
fn decimal_agrees_with_std_for_every_port() {
    for port in 0..=u16::MAX {
        assert_eq!(decimal_string(port), port.to_string());
    }
}

#[test]
fn decimal_reads_back_as_the_number() {
    for port in [0u16, 1, 9, 10, 99, 101, 8000, 49152, 65535] {
        assert_eq!(decimal_string(port).parse::<u16>(), Ok(port));
    }
}

#[test]
fn sidecar_names() {
    assert_eq!(SIDECAR_PROGRAM, "binaries/ai-reader-backend");
    assert_eq!(PORT_FLAG, "--port");
}

#[test]
fn sidecar_args_for_fixed_port() {
    assert_eq!(sidecar_args(8000), vec!["--port", "8000"]);
}

#[test]
fn sidecar_args_for_assigned_port() {
    assert_eq!(sidecar_args(49733), vec!["--port", "49733"]);
    assert_eq!(sidecar_args(65535), vec!["--port", "65535"]);
    assert_eq!(sidecar_args(1), vec!["--port", "1"]);
}

#[test]
fn sidecar_args_are_flag_then_value() {
    for port in [0u16, 5, 80, 443, 8000, 32768, 65535] {
        let args = sidecar_args(port);
        assert_eq!(args.len(), 2);
        assert_eq!(args[0], "--port");
        assert_eq!(args[1], port.to_string());
    }
}
