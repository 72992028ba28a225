use scooter_gateway::commands::parser::parse_command;
use scooter_gateway::server::handler::{extract_imei, imei_number};
use scooter_gateway::server::registry::Registry;

#[test]
fn second_registration_displaces_the_first() {
    let mut registry: Registry<&str> = Registry::new();
    assert_eq!(registry.register("123456789012345", "c1"), None);
    assert_eq!(registry.register("123456789012345", "c2"), Some("c1"));
    assert_eq!(registry.checkout("123456789012345"), Ok(&"c2"));
}

#[test]
fn sessions_of_other_scooters_stay() {
    let mut registry: Registry<u8> = Registry::new();
    assert_eq!(registry.register("000000000000001", 1), None);
    assert_eq!(registry.register("000000000000010", 2), None);
    assert_eq!(registry.register("100000000000000", 3), None);
    assert_eq!(registry.checkout("000000000000001"), Ok(&1));
    assert_eq!(registry.checkout("000000000000010"), Ok(&2));
    assert_eq!(registry.checkout("100000000000000"), Ok(&3));
    assert_eq!(registry.unregister("000000000000010"), Some(2));
    assert_eq!(registry.unregister("000000000000010"), None);
    assert_eq!(registry.checkout("000000000000001"), Ok(&1));
    assert_eq!(
        registry.checkout("000000000000010"),
        Err("Client with IMEI 000000000000010 not found".to_string())
    );
}

#[test]
fn a_text_that_is_no_imei_has_no_session() {
    let mut registry: Registry<u8> = Registry::new();
    assert_eq!(registry.register("12345678901234", 1), Some(1));
    assert_eq!(registry.register("1234567890123456", 2), Some(2));
    assert_eq!(registry.register("12345678901234x", 3), Some(3));
    assert_eq!(registry.register("+12345678901234", 4), Some(4));
    assert_eq!(registry.register("", 5), Some(5));
    assert_eq!(registry.register("000000000000000", 6), None);
    assert_eq!(registry.checkout("0"), Err("Client with IMEI 0 not found".to_string()));
    assert_eq!(registry.checkout(""), Err("Client with IMEI  not found".to_string()));
    assert_eq!(registry.unregister("0"), None);
    assert_eq!(registry.checkout("000000000000000"), Ok(&6));
}

#[test]
fn imei_number_reads_fifteen_digits() {
    assert_eq!(imei_number("123456789012345"), Some(123456789012345));
    assert_eq!(imei_number("000000000000000"), Some(0));
    assert_eq!(imei_number("999999999999999"), Some(999999999999999));
    assert_eq!(imei_number("99999999999999"), None);
    assert_eq!(imei_number("12345678901234a"), None);
    assert_eq!(imei_number("１２３４５６７８９０１２３４５"), None);
}

#[test]
fn a_connection_is_registered_for_a_sign_in_only() {
    assert_eq!(
        extract_imei("*SCOR,LZ,123456789012345,Q0,412,80,28#\n"),
        Some("123456789012345".to_string())
    );
    assert_eq!(extract_imei("*SCOR,OM,123456789012345,Q0,412,80,28#\n"), None);
    assert_eq!(extract_imei("*SCOR,LZ,123456789012345,Q0,412,80#\n"), None);
    assert_eq!(extract_imei("*SCOR,LZ,123456789012345,Q0,412,80,x#\n"), None);
    assert_eq!(extract_imei("*SCOR,LZ,12345,Q0,412,80,28#\n"), None);
    assert_eq!(extract_imei("*SCOR,LZ,123456789012345,H0,0,3780,22,78,0#\n"), None);
    assert_eq!(extract_imei(""), None);
    assert_eq!(extract_imei("*SCOR,LZ,123456789012345,Q0,412,80,28"), None);
    assert_eq!(extract_imei("*SCOR,LZ,123456789012345,Q0,412,80,28#"), None);
    assert_eq!(extract_imei("*SCOR,LZ,１２３４５６７８９０１２３４５,Q0,412,80,28#\n"), None);
    assert_eq!(extract_imei(" *SCOR,LZ,123456789012345,Q0,412,80,28#\n"), None);
}

#[test]
fn telemetry_is_what_a_scooter_sends_unasked() {
    let unasked = [
        "*SCOR,LZ,123456789012345,H0,0,3780,22,78,0#\n",
        "*SCOR,LZ,123456789012345,W0,1#\n",
        "*SCOR,LZ,123456789012345,V0,2#\n",
        "*SCOR,LZ,123456789012345,D0,0,124458.00,A,2237.7514,N,11408.6214,E,6,1.5,151216,25.3,M,A#\n",
    ];
    for frame in unasked {
        let command = parse_command(frame).unwrap();
        assert!(command.is_telemetry(), "{}", frame);
        assert_eq!(command.imei(), "123456789012345");
    }
    let answers = [
        "*SCOR,LZ,123456789012345,R0,0,55,1234,1497689816#\n",
        "*SCOR,LZ,123456789012345,L0,0,1234,1497689819#\n",
        "*SCOR,LZ,123456789012345,L1,0,1234,1497700000,87#\n",
        "*SCOR,LZ,123456789012345,S7,0,3,0,0#\n",
        "*SCOR,LZ,123456789012345,Q0,412,80,28#\n",
    ];
    for frame in answers {
        let command = parse_command(frame).unwrap();
        assert!(!command.is_telemetry(), "{}", frame);
        assert_eq!(command.imei(), "123456789012345");
    }
}
