use scooter_gateway::commands::alarm_command::AlarmType;
use scooter_gateway::commands::beep_command::BeepPlayContent;
use scooter_gateway::commands::hearbeat_command::{ChargingStatus, ScooterStatus};
use scooter_gateway::commands::parser::{
    parse_command, parse_coordinates, parse_date, parse_datetime, parse_number, parse_time,
    CalendarDate, ClockTime, Coordinate, Decimal, UtcDateTime, UNITS_PER_DEGREE,
};
use scooter_gateway::commands::positioning_command::{
    Hemisphere, Mode, PositioningIdentifier, PositioningStatus,
};
use scooter_gateway::commands::scooter_command::ScooterCommand;
use scooter_gateway::commands::scooter_setting_command::{
    HeadlightSwitch, ModeSetting, TaillightsFlashing, ThrottleResponse,
};
use scooter_gateway::server::command_enums::{SpeedMode, Turn};
use scooter_gateway::server::commands::{generate_s7_command, R0Operation, Status};

const D0: &str = "*SCOR,LZ,123456789012345,D0,0,124458.00,A,2237.7514,N,11408.6214,E,6,1.5,151216,25.3,M,A#\n";

fn refusal_of(frame: &str) -> String {
    parse_command(frame).unwrap_err()
}

#[test]
fn coordinates_convert_to_decimal_degrees() {
    let north = parse_coordinates("2237.7514", "N").unwrap();
    assert_eq!(north.units, 22 * 600_000 + 377_514);
    assert_eq!(north.microdegrees(), 22_629_190);
    assert!((north.units as f64 / UNITS_PER_DEGREE as f64 - 22.62919).abs() < 1e-6);
    let west = parse_coordinates("11408.6214", "W").unwrap();
    assert_eq!(west.units, -(114 * 600_000 + 86_214));
    assert_eq!(west.microdegrees(), -114_143_690);
    assert!((west.units as f64 / UNITS_PER_DEGREE as f64 + 114.14369).abs() < 1e-6);
    assert_eq!(
        parse_coordinates("2237.7514", "X").unwrap_err(),
        "Invalid hemisphere. Expected one of: N, S, E, W."
    );
}

#[test]
fn coordinates_follow_the_formula_at_the_edges() {
    assert_eq!(parse_coordinates("0000.0000", "N"), Ok(Coordinate { units: 0 }));
    assert_eq!(parse_coordinates("0000.0000", "S"), Ok(Coordinate { units: 0 }));
    assert_eq!(parse_coordinates("0059.9999", "E"), Ok(Coordinate { units: 599_999 }));
    assert_eq!(parse_coordinates("9959.9999", "S"), Ok(Coordinate { units: -59_999_999 }));
    assert_eq!(parse_coordinates("99959.9999", "W"), Ok(Coordinate { units: -599_999_999 }));
    assert_eq!(parse_coordinates("18000.0000", " E "), Ok(Coordinate { units: 108_000_000 }));
    assert_eq!(Coordinate { units: 1 }.microdegrees(), 1);
    assert_eq!(Coordinate { units: 2 }.microdegrees(), 3);
    assert_eq!(Coordinate { units: -2 }.microdegrees(), -3);
    assert_eq!(Coordinate { units: i32::MIN }.microdegrees(), -3_579_139_413);
}

#[test]
fn coordinates_are_refused_in_the_order_shape_minutes_hemisphere() {
    let shape = "Invalid coordinate format. Expected ddmm.mmmm or dddmm.mmmm.";
    let minutes = "Minutes should be in the range 0 to 59.999";
    assert_eq!(parse_coordinates("2260.0000", "N").unwrap_err(), minutes);
    assert_eq!(parse_coordinates("2299.9999", "X").unwrap_err(), minutes);
    assert_eq!(parse_coordinates("12360.0000", "E").unwrap_err(), minutes);
    assert_eq!(parse_coordinates("22377514", "N").unwrap_err(), shape);
    assert_eq!(parse_coordinates("223.7514", "N").unwrap_err(), shape);
    assert_eq!(parse_coordinates("2237.751", "N").unwrap_err(), shape);
    assert_eq!(parse_coordinates("2237.75144", "N").unwrap_err(), shape);
    assert_eq!(parse_coordinates("123456.7890", "N").unwrap_err(), shape);
    assert_eq!(parse_coordinates("+237.7514", "N").unwrap_err(), shape);
    assert_eq!(parse_coordinates("2237,7514", "N").unwrap_err(), shape);
    assert_eq!(parse_coordinates(" 2237.7514", "N").unwrap_err(), shape);
    assert_eq!(parse_coordinates("", "N").unwrap_err(), shape);
    assert_eq!(parse_coordinates("2260.0000", "").unwrap_err(), minutes);
    assert!(parse_coordinates("2237.7514", "n").is_err());
    assert!(parse_coordinates("2237.7514", "NS").is_err());
    assert!(parse_coordinates("2237.7514", "").is_err());
}

#[test]
fn timestamps_are_read_from_time_and_date() {
    let moment = parse_datetime("123045", "151216").unwrap();
    assert_eq!(moment.to_string(), "2016-12-15 12:30:45 UTC");
    assert_eq!(
        moment,
        UtcDateTime {
            date: CalendarDate { year: 2016, month: 12, day: 15 },
            time: ClockTime { hour: 12, minute: 30, second: 45 },
        }
    );
    assert!(parse_datetime("250045", "151216").unwrap_err().contains("out of range"));
    assert_eq!(parse_date("290216").unwrap().to_string(), "2016-02-29");
    assert_eq!(
        parse_datetime("250045", "321216").unwrap_err(),
        "Invalid time. Hours, minutes, or seconds out of range."
    );
}

#[test]
fn times_of_day_have_their_bounds() {
    assert_eq!(parse_time("000000").unwrap().to_string(), "00:00:00");
    assert_eq!(parse_time("235959").unwrap().to_string(), "23:59:59");
    assert_eq!(parse_time("090807"), Ok(ClockTime { hour: 9, minute: 8, second: 7 }));
    assert!(parse_time("240000").is_err());
    assert!(parse_time("236000").is_err());
    assert!(parse_time("235960").is_err());
    assert_eq!(parse_time("+1+2+3"), Ok(ClockTime { hour: 1, minute: 2, second: 3 }));
    assert_eq!(parse_time("1234567").unwrap_err(), "Invalid time format. Expected hhmmss (6 characters).");
    assert_eq!(parse_time("").unwrap_err(), "Invalid time format. Expected hhmmss (6 characters).");
    assert_eq!(parse_time("xx3045").unwrap_err(), "Invalid hours. Ensure it's a number.");
    assert_eq!(parse_time("1230-5").unwrap_err(), "Invalid seconds. Ensure it's a number.");
}

#[test]
fn dates_follow_the_calendar() {
    assert_eq!(parse_date("010100").unwrap().to_string(), "2000-01-01");
    assert_eq!(parse_date("290200").unwrap().to_string(), "2000-02-29");
    assert_eq!(parse_date("311299").unwrap().to_string(), "2099-12-31");
    assert_eq!(parse_date("280217"), Ok(CalendarDate { year: 2017, month: 2, day: 28 }));
    let out_of_range = "Invalid date. Day, month, or year out of range.";
    assert_eq!(parse_date("290217").unwrap_err(), out_of_range);
    assert_eq!(parse_date("310416").unwrap_err(), out_of_range);
    assert_eq!(parse_date("000116").unwrap_err(), out_of_range);
    assert_eq!(parse_date("010016").unwrap_err(), out_of_range);
    assert_eq!(parse_date("1501-1").unwrap_err(), "Invalid year. Ensure it's a number.");
    assert_eq!(parse_date("1501+1").unwrap().to_string(), "2001-01-15");
    assert_eq!(parse_date("1512xx").unwrap_err(), "Invalid year. Ensure it's a number.");
    assert_eq!(parse_date("15xx16").unwrap_err(), "Invalid month. Ensure it's a number.");
    assert_eq!(parse_date("1512161").unwrap_err(), "Invalid date format. Expected ddmmyy (6 characters).");
}

#[test]
fn decimal_fields_are_kept_exactly() {
    assert_eq!(
        parse_number("25.30"),
        Some(Decimal { negative: false, whole: 25, fraction: 30, fraction_digits: 2 })
    );
    assert_eq!(
        parse_number("-3.05"),
        Some(Decimal { negative: true, whole: 3, fraction: 5, fraction_digits: 2 })
    );
    assert_eq!(
        parse_number("+7"),
        Some(Decimal { negative: false, whole: 7, fraction: 0, fraction_digits: 0 })
    );
    assert_eq!(
        parse_number("4294967295.999999999"),
        Some(Decimal { negative: false, whole: u32::MAX, fraction: 999_999_999, fraction_digits: 9 })
    );
    for refused in ["", "-", "+", ".", "1.", ".5", "1.2.3", "1e3", "abc", "4294967296", "1.0000000001", " 1", "--1"] {
        assert_eq!(parse_number(refused), None, "{:?}", refused);
    }
}

#[test]
fn an_r0_frame_carries_a_key() {
    match parse_command("*SCOR,LZ,123456789012345,R0,1,55,1234,1497689816#\n").unwrap() {
        ScooterCommand::UnlockOrLockResponse { imei, operation, key, user_id, timestamp } => {
            assert_eq!(imei, "123456789012345");
            assert_eq!(operation, R0Operation::Lock);
            assert_eq!(key, 55);
            assert_eq!(user_id, "1234");
            assert_eq!(timestamp, "1497689816");
        }
        other => panic!("{:?}", other),
    }
    assert_eq!(refusal_of("*SCOR,LZ,1,R0,0,55,1234#\n"), "Invalid R0 response: insufficient parts");
    assert_eq!(refusal_of("*SCOR,LZ,1,R0,4,55,1234,1#\n"), "Invalid operation field");
    assert_eq!(refusal_of("*SCOR,LZ,1,R0,0,256,1234,1#\n"), "Invalid key field");
    assert_eq!(refusal_of("*SCOR,LZ,1,R0,0,,1234,1#\n"), "Invalid key field");
    assert_eq!(refusal_of("*SCOR,LZ,1,R0,9,x,1234,1#\n"), "Invalid operation field");
}

#[test]
fn l0_and_l1_frames_carry_a_status() {
    match parse_command("*SCOR,LZ,123456789012345,L0,0,1234,1497689819#\n").unwrap() {
        ScooterCommand::UnlockResponse { imei, status, user_id, timestamp } => {
            assert_eq!(imei, "123456789012345");
            assert_eq!(status, Status::Success);
            assert_eq!(user_id, "1234");
            assert_eq!(timestamp, "1497689819");
        }
        other => panic!("{:?}", other),
    }
    match parse_command("*SCOR,LZ,123456789012345,L1,2,1234,1497700000,87#\n").unwrap() {
        ScooterCommand::LockResponse { status, cycling_time, user_id, timestamp, .. } => {
            assert_eq!(status, Status::KeyError);
            assert_eq!(cycling_time, 87);
            assert_eq!(user_id, "1234");
            assert_eq!(timestamp, "1497700000");
        }
        other => panic!("{:?}", other),
    }
    assert_eq!(refusal_of("*SCOR,LZ,1,L0,0,1234#\n"), "Invalid L0 response: insufficient parts");
    assert_eq!(refusal_of("*SCOR,LZ,1,L0,3,1234,1#\n"), "Invalid status code: 3");
    assert_eq!(refusal_of("*SCOR,LZ,1,L1,0,1234,1#\n"), "Invalid L1 response: insufficient parts");
    assert_eq!(refusal_of("*SCOR,LZ,1,L1,x,1234,1,87#\n"), "Invalid status code: x");
    assert_eq!(refusal_of("*SCOR,LZ,1,L1,0,1234,1,4294967296#\n"), "Invalid cycling time field");
    assert_eq!(refusal_of("*SCOR,LZ,1,L1,0,1234,1,-1#\n"), "Invalid cycling time field");
}

#[test]
fn a_d0_frame_is_a_positioning_report() {
    let report = match parse_command(D0).unwrap() {
        ScooterCommand::PositioningResponse(report) => report,
        other => panic!("{:?}", other),
    };
    assert_eq!(report.imei, "123456789012345");
    assert_eq!(report.identifier, PositioningIdentifier::ObtainPositioning);
    assert_eq!(report.utc_datetime.to_string(), "2016-12-15 12:44:58 UTC");
    assert_eq!(report.positioning_status, PositioningStatus::Effective);
    assert_eq!(report.latitude, Coordinate { units: 13_577_514 });
    assert_eq!(report.latitude_hemisphere, Hemisphere::North);
    assert_eq!(report.longitude, Coordinate { units: 68_486_214 });
    assert_eq!(report.longitude_hemisphere, Hemisphere::East);
    assert_eq!(report.satellites_number, 6);
    assert_eq!(
        report.positioning_accuracy,
        Decimal { negative: false, whole: 1, fraction: 5, fraction_digits: 1 }
    );
    assert_eq!(
        report.altitude,
        Decimal { negative: false, whole: 25, fraction: 3, fraction_digits: 1 }
    );
    assert_eq!(report.mode, Mode::Autonomous);
    assert_eq!(report.convert_latitude_to_wgs84(), Ok(Coordinate { units: 13_577_514 }));
    assert_eq!(report.convert_longitude_to_wgs84(), Ok(Coordinate { units: 68_486_214 }));
}

#[test]
fn a_d0_frame_in_the_south_west_is_negative() {
    let frame = D0.replace(",N,", ",S,").replace(",E,", ",W,").replace(",A#", ",Differential#");
    let report = match parse_command(&frame).unwrap() {
        ScooterCommand::PositioningResponse(report) => report,
        other => panic!("{:?}", other),
    };
    assert_eq!(report.latitude.units, -13_577_514);
    assert_eq!(report.longitude.units, -68_486_214);
    assert_eq!(report.latitude_hemisphere, Hemisphere::South);
    assert_eq!(report.longitude_hemisphere, Hemisphere::West);
    assert_eq!(report.mode, Mode::Differential);
}

#[test]
fn a_latitude_cannot_lie_east_or_west() {
    let frame = D0.replace(",N,", ",E,").replace("08.6214,E,", "08.6214,S,");
    let report = match parse_command(&frame).unwrap() {
        ScooterCommand::PositioningResponse(report) => report,
        other => panic!("{:?}", other),
    };
    assert_eq!(
        report.convert_latitude_to_wgs84(),
        Err("Invalid hemisphere for latitude: East".to_string())
    );
    assert_eq!(
        report.convert_longitude_to_wgs84(),
        Err("Invalid hemisphere for longitude: South".to_string())
    );
    assert_eq!(Hemisphere::West.name(), "West");
    assert_eq!(Hemisphere::North.name(), "North");
}

#[test]
fn a_d0_frame_is_refused_by_its_first_bad_field() {
    let with = |index: usize, field: &str| {
        let body = D0.trim_end_matches("#\n");
        let mut parts: Vec<&str> = body.split(',').collect();
        parts[index] = field;
        format!("{}#\n", parts.join(","))
    };
    assert_eq!(refusal_of(&with(4, "x")), "Invalid positioning identifier");
    assert_eq!(refusal_of(&with(4, "2")), "Invalid positioning identifier: 2");
    assert_eq!(refusal_of(&with(5, "1244")), "Invalid time format. Expected hhmmss (6 characters).");
    assert_eq!(refusal_of(&with(5, ".124458")), "Invalid time format. Expected hhmmss (6 characters).");
    assert_eq!(refusal_of(&with(6, "")), "Invalid positioning status");
    assert_eq!(refusal_of(&with(6, "B")), "Invalid positioning status: B");
    assert_eq!(refusal_of(&with(7, "2260.0000")), "Minutes should be in the range 0 to 59.999");
    assert_eq!(refusal_of(&with(8, "X")), "Invalid hemisphere. Expected one of: N, S, E, W.");
    assert_eq!(refusal_of(&with(8, " N")), "Invalid hemisphere:  N");
    assert_eq!(refusal_of(&with(9, "1408.62")), "Invalid coordinate format. Expected ddmm.mmmm or dddmm.mmmm.");
    assert_eq!(refusal_of(&with(11, "256")), "Invalid satellites number");
    assert_eq!(refusal_of(&with(12, "good")), "Invalid positioning accuracy");
    assert_eq!(refusal_of(&with(13, "311116")), "Invalid date. Day, month, or year out of range.");
    assert_eq!(refusal_of(&with(14, "")), "Invalid altitude");
    assert_eq!(refusal_of(&with(15, "m")), "Invalid height unit: m");
    assert_eq!(refusal_of(&with(16, "")), "Invalid mode");
    assert_eq!(refusal_of(&with(16, "X")), "Invalid mode: X");
    assert_eq!(refusal_of(&with(6, "V").replace(",6,1.5,", ",x,y,")), "Invalid satellites number");
    assert_eq!(
        refusal_of("*SCOR,LZ,1,D0,0,124458.00,A,2237.7514,N,11408.6214,E,6,1.5,151216,25.3,M#\n"),
        "Invalid D0 response: insufficient parts"
    );
    assert!(parse_command(&with(13, "151216.5")).is_ok());
    assert!(parse_command(&with(6, "Valid").replace("A,2237", "V,2237")).is_ok());
}

#[test]
fn w0_and_v0_frames_carry_one_code() {
    match parse_command("*SCOR,LZ,123456789012345,W0,6#\n").unwrap() {
        ScooterCommand::AlarmCommand { imei, alarm_type } => {
            assert_eq!(imei, "123456789012345");
            assert_eq!(alarm_type, AlarmType::LiftedUp);
        }
        other => panic!("{:?}", other),
    }
    match parse_command("*SCOR,LZ,123456789012345,V0,80#\n").unwrap() {
        ScooterCommand::BeepPlaybackCommand { imei, play_content } => {
            assert_eq!(imei, "123456789012345");
            assert_eq!(play_content, BeepPlayContent::TurnOffVoice);
        }
        other => panic!("{:?}", other),
    }
    assert_eq!(refusal_of("*SCOR,LZ,1,W0,5#\n"), "Invalid alarm type: 5");
    assert_eq!(refusal_of("*SCOR,LZ,1,W0,#\n"), "Invalid alarm type");
    assert_eq!(refusal_of("*SCOR,LZ,1,W0#\n"), "Invalid command format: insufficient parts");
    assert_eq!(refusal_of("*SCOR,LZ,1,V0,3#\n"), "Invalid beep play content: 3");
    assert_eq!(refusal_of("*SCOR,LZ,1,V0,x#\n"), "Invalid play content");
}

#[test]
fn an_s7_frame_carries_four_settings() {
    match parse_command("*SCOR,LZ,123456789012345,S7,2,3,1,0#\n").unwrap() {
        ScooterCommand::ScooterSetting {
            imei,
            headlight_switch,
            mode_setting,
            throttle_response,
            taillights_flashing,
        } => {
            assert_eq!(imei, "123456789012345");
            assert_eq!(headlight_switch, HeadlightSwitch::Open);
            assert_eq!(mode_setting, ModeSetting::HighSpeed);
            assert_eq!(throttle_response, ThrottleResponse::Shutdown);
            assert_eq!(taillights_flashing, TaillightsFlashing::NoSet);
        }
        other => panic!("{:?}", other),
    }
    assert_eq!(refusal_of("*SCOR,LZ,1,S7,2,3,1#\n"), "Invalid S7 response: insufficient parts");
    assert_eq!(refusal_of("*SCOR,LZ,1,S7,3,3,1,0#\n"), "Invalid headlight switch value: 3");
    assert_eq!(refusal_of("*SCOR,LZ,1,S7,x,3,1,0#\n"), "Invalid headlight switch value");
    assert_eq!(refusal_of("*SCOR,LZ,1,S7,2,4,1,0#\n"), "Invalid mode setting value: 4");
    assert_eq!(refusal_of("*SCOR,LZ,1,S7,2,,1,0#\n"), "Invalid mode setting value");
    assert_eq!(refusal_of("*SCOR,LZ,1,S7,2,3,3,0#\n"), "Invalid throttle response value: 3");
    assert_eq!(refusal_of("*SCOR,LZ,1,S7,2,3,a,0#\n"), "Invalid throttle response value");
    assert_eq!(refusal_of("*SCOR,LZ,1,S7,2,3,1,9#\n"), "Invalid taillights flashing value: 9");
    assert_eq!(refusal_of("*SCOR,LZ,1,S7,2,3,1,#\n"), "Invalid taillights flashing value");
}

#[test]
fn q0_and_h0_frames_report_the_battery() {
    match parse_command("*SCOR,LZ,123456789012345,Q0,412,80,28#\n").unwrap() {
        ScooterCommand::SigningIn { imei, voltage, power, signal } => {
            assert_eq!(imei, "123456789012345");
            assert_eq!(
                voltage,
                Decimal { negative: false, whole: 412, fraction: 0, fraction_digits: 0 }
            );
            assert_eq!(power, 80);
            assert_eq!(signal, 28);
        }
        other => panic!("{:?}", other),
    }
    match parse_command("*SCOR,LZ,123456789012345,H0,0,3780,22,78,1#\n").unwrap() {
        ScooterCommand::HeartBeat { imei, status, voltage, signal, power, charging } => {
            assert_eq!(imei, "123456789012345");
            assert_eq!(status, ScooterStatus::Unlocked);
            assert_eq!(voltage.whole, 3780);
            assert_eq!(signal, 22);
            assert_eq!(power, 78);
            assert_eq!(charging, ChargingStatus::Charging);
        }
        other => panic!("{:?}", other),
    }
    assert_eq!(refusal_of("*SCOR,LZ,1,Q0,412,80#\n"), "Invalid Q0 response: insufficient parts");
    assert_eq!(refusal_of("*SCOR,LZ,1,Q0,412,80,28,1#\n"), "Invalid Q0 response: insufficient parts");
    assert_eq!(refusal_of("*SCOR,LZ,1,Q0,v,80,28#\n"), "Invalid voltage");
    assert_eq!(refusal_of("*SCOR,LZ,1,Q0,412,300,28#\n"), "Invalid power");
    assert_eq!(refusal_of("*SCOR,LZ,1,Q0,412,80,-1#\n"), "Invalid signal");
    assert_eq!(refusal_of("*SCOR,LZ,1,H0,0,3780,22,78#\n"), "Invalid H0 response: insufficient parts");
    assert_eq!(refusal_of("*SCOR,LZ,1,H0,2,3780,22,78,0#\n"), "Invalid scooter status: 2");
    assert_eq!(refusal_of("*SCOR,LZ,1,H0,x,3780,22,78,0#\n"), "Invalid scooter status");
    assert_eq!(refusal_of("*SCOR,LZ,1,H0,0,,22,78,0#\n"), "Invalid voltage");
    assert_eq!(refusal_of("*SCOR,LZ,1,H0,0,3780,s,78,0#\n"), "Invalid signal");
    assert_eq!(refusal_of("*SCOR,LZ,1,H0,0,3780,22,p,0#\n"), "Invalid power");
    assert_eq!(refusal_of("*SCOR,LZ,1,H0,0,3780,22,78,2#\n"), "Invalid charging status: 2");
    assert_eq!(refusal_of("*SCOR,LZ,1,H0,0,3780,22,78,#\n"), "Invalid charging status");
}

#[test]
fn a_command_code_outside_the_protocol_is_named() {
    assert_eq!(refusal_of("*SCOR,LZ,1,S6,80#\n"), "Unknown command: S6");
    assert_eq!(refusal_of("*SCOR,LZ,1,r0,0,55,1234,1#\n"), "Unknown command: r0");
    assert_eq!(refusal_of("*SCOR,LZ,1,,0#\n"), "Unknown command: ");
    let parts: &[&str] = &["anything", "goes", "1", "W0", "1"];
    assert!(matches!(
        ScooterCommand::try_from(parts),
        Ok(ScooterCommand::AlarmCommand { alarm_type: AlarmType::IllegalMovement, .. })
    ));
}

#[test]
fn letters_and_hemispheres_are_decoded_or_shown() {
    assert_eq!(PositioningStatus::try_from('A'), Ok(PositioningStatus::Effective));
    assert_eq!(PositioningStatus::try_from('V'), Ok(PositioningStatus::Invalid));
    assert_eq!(
        PositioningStatus::try_from('a'),
        Err("Invalid positioning status: a".to_string())
    );
    assert_eq!(Mode::try_from('A'), Ok(Mode::Autonomous));
    assert_eq!(Mode::try_from('D'), Ok(Mode::Differential));
    assert_eq!(Mode::try_from('E'), Ok(Mode::Estimate));
    assert_eq!(Mode::try_from('N'), Ok(Mode::InvalidData));
    assert_eq!(Mode::try_from('é'), Err("Invalid mode: é".to_string()));
    assert_eq!(Hemisphere::try_from("N"), Ok(Hemisphere::North));
    assert_eq!(Hemisphere::try_from("S"), Ok(Hemisphere::South));
    assert_eq!(Hemisphere::try_from("E"), Ok(Hemisphere::East));
    assert_eq!(Hemisphere::try_from("W"), Ok(Hemisphere::West));
    assert_eq!(Hemisphere::try_from("North"), Err("Invalid hemisphere: North".to_string()));
}

#[test]
fn the_echo_of_a_settings_command_decodes_to_what_was_sent() {
    let sent =
        generate_s7_command("123456789012345", &Turn::On, &SpeedMode::Low, &Turn::DontSet, &Turn::Off);
    let echo = sent.replacen("0xFFFF*SCOS", "*SCOR", 1);
    match parse_command(&echo).unwrap() {
        ScooterCommand::ScooterSetting {
            imei,
            headlight_switch,
            mode_setting,
            throttle_response,
            taillights_flashing,
        } => {
            assert_eq!(imei, "123456789012345");
            assert_eq!(headlight_switch, HeadlightSwitch::Open);
            assert_eq!(mode_setting, ModeSetting::LowSpeed);
            assert_eq!(throttle_response, ThrottleResponse::NoSet);
            assert_eq!(taillights_flashing, TaillightsFlashing::Shutdown);
        }
        other => panic!("{:?}", other),
    }
}
