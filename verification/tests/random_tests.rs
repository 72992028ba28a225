use rand::Rng;
use scooter_gateway::commands::parser::{parse_coordinates, parse_frame};
use scooter_gateway::decimal::{parse_unsigned, signed_to_string, unsigned_to_string};
use scooter_gateway::server::commands::generate_command;
use scooter_gateway::server::protocol::validate_command;
use scooter_gateway::server::registry::Registry;
use scooter_gateway::text::{join, split};

const PLAIN: &[u8] = b"ABCDEFGHIJKLMNOPQRSTUVWXYZabcdefghijklmnopqrstuvwxyz0123456789 _-=&";

fn plain_text(rng: &mut impl Rng, max_len: usize) -> String {
    let len = rng.gen_range(0..=max_len);
    (0..len).map(|_| PLAIN[rng.gen_range(0..PLAIN.len())] as char).collect()
}

fn any_text(rng: &mut impl Rng, max_len: usize) -> String {
    let alphabet = ['a', ',', ',', '#', '\n', '0', 'é', ' ', '.'];
    let len = rng.gen_range(0..=max_len);
    (0..len).map(|_| alphabet[rng.gen_range(0..alphabet.len())]).collect()
}

fn digits(rng: &mut impl Rng, len: usize) -> String {
    (0..len).map(|_| (b'0' + rng.gen_range(0..10u8)) as char).collect()
}

#[test]
fn random_frames_read_back_as_their_tuples() {
    let mut rng = rand::thread_rng();
    for _ in 0..300 {
        let imei = plain_text(&mut rng, 15);
        let command = plain_text(&mut rng, 4);
        let count = rng.gen_range(0..6);
        let content: Vec<String> = (0..count).map(|_| plain_text(&mut rng, 8)).collect();
        let fields: Vec<&str> = content.iter().map(|field| field.as_str()).collect();
        let sent = generate_command(&imei, &command, &fields);
        assert_eq!(sent, generate_command(&imei, &command, &fields));
        let received = sent.replacen("0xFFFF*SCOS", "*SCOR", 1);
        let read = parse_frame(&received).unwrap();
        assert_eq!(read.imei, imei);
        assert_eq!(read.command, command);
        assert_eq!(read.additional_fields, content);
    }
}

#[test]
fn random_texts_split_and_join_back() {
    let mut rng = rand::thread_rng();
    for _ in 0..500 {
        let text = any_text(&mut rng, 12);
        let fields = split(&text, ',');
        let expected: Vec<&str> = text.split(',').collect();
        assert_eq!(fields, expected);
        assert_eq!(join(&fields, ","), text);
        assert_eq!(join(&fields, "::"), expected.join("::"));
    }
}

#[test]
fn random_encoded_frames_pass_their_validator() {
    let mut rng = rand::thread_rng();
    for _ in 0..200 {
        let imei = digits(&mut rng, 15);
        let command = plain_text(&mut rng, 3);
        let count = rng.gen_range(1..6);
        let content: Vec<String> = (0..count).map(|_| plain_text(&mut rng, 8)).collect();
        let fields: Vec<&str> = content.iter().map(|field| field.as_str()).collect();
        let echoed = generate_command(&imei, &command, &fields).replacen("0xFFFF*SCOS", "*SCOR", 1);
        assert_eq!(validate_command(&echoed, &imei, &command, &fields), Ok(()), "{:?}", echoed);
    }
}

#[test]
fn random_changes_of_one_byte_fail_the_validator() {
    let mut rng = rand::thread_rng();
    for _ in 0..200 {
        let imei = digits(&mut rng, 15);
        let command = plain_text(&mut rng, 3);
        let count = rng.gen_range(1..5);
        let content: Vec<String> = (0..count).map(|_| plain_text(&mut rng, 6)).collect();
        let fields: Vec<&str> = content.iter().map(|field| field.as_str()).collect();
        let valid = generate_command(&imei, &command, &fields).replacen("0xFFFF*SCOS", "*SCOR", 1);
        let mut bytes = valid.clone().into_bytes();
        let at = rng.gen_range(0..bytes.len());
        let mut other = PLAIN[rng.gen_range(0..PLAIN.len())];
        while other == bytes[at] {
            other = PLAIN[rng.gen_range(0..PLAIN.len())];
        }
        bytes[at] = other;
        let changed = String::from_utf8(bytes).unwrap();
        assert!(
            validate_command(&changed, &imei, &command, &fields).is_err(),
            "{:?} passed for {:?}",
            changed,
            valid
        );
    }
}

#[test]
fn random_numbers_are_written_and_read_as_std_does() {
    let mut rng = rand::thread_rng();
    for _ in 0..500 {
        let unsigned: u64 = rng.gen();
        assert_eq!(unsigned_to_string(unsigned), unsigned.to_string());
        let signed: i64 = rng.gen();
        assert_eq!(signed_to_string(signed), signed.to_string());
        let small: u32 = rng.gen();
        assert_eq!(parse_unsigned(&small.to_string(), u32::MAX), Some(small));
        let text = any_text(&mut rng, 4).replace('a', "7");
        assert_eq!(parse_unsigned(&text, u32::MAX), text.parse::<u32>().ok());
        assert_eq!(parse_unsigned(&text, 255).map(|v| v as u8), text.parse::<u8>().ok());
    }
}

#[test]
fn random_coordinates_follow_the_formula() {
    let mut rng = rand::thread_rng();
    for _ in 0..500 {
        let degrees: u32 = rng.gen_range(0..1000);
        let minutes: u32 = rng.gen_range(0..100);
        let fraction: u32 = rng.gen_range(0..10_000);
        let letter = ["N", "S", "E", "W"][rng.gen_range(0..4)];
        let value = if degrees < 100 && rng.gen() {
            format!("{:02}{:02}.{:04}", degrees, minutes, fraction)
        } else {
            format!("{:03}{:02}.{:04}", degrees, minutes, fraction)
        };
        let parsed = parse_coordinates(&value, letter);
        if minutes >= 60 {
            assert_eq!(parsed.unwrap_err(), "Minutes should be in the range 0 to 59.999");
            continue;
        }
        let raw: f64 = value.parse().unwrap();
        let mut expected = (raw / 100.0).floor() + (raw % 100.0) / 60.0;
        if letter == "S" || letter == "W" {
            expected = -expected;
        }
        let coordinate = parsed.unwrap();
        assert!((coordinate.units as f64 / 600_000.0 - expected).abs() < 1e-6, "{}", value);
        assert!((coordinate.microdegrees() as f64 / 1e6 - expected).abs() < 2e-6, "{}", value);
    }
}

#[test]
fn random_registrations_keep_one_session_for_each_imei() {
    let mut rng = rand::thread_rng();
    let mut registry: Registry<u32> = Registry::new();
    let mut model = std::collections::HashMap::new();
    let imeis: Vec<String> = (0..8).map(|_| digits(&mut rng, 15)).collect();
    for round in 0..400u32 {
        let imei = &imeis[rng.gen_range(0..imeis.len())];
        match rng.gen_range(0..3) {
            0 => assert_eq!(registry.register(imei, round), model.insert(imei.clone(), round)),
            1 => assert_eq!(registry.unregister(imei), model.remove(imei)),
            _ => assert_eq!(registry.checkout(imei).ok(), model.get(imei)),
        }
    }
}
