use quake3_log_analyser::ordering::{in_name_order, sort_names, sort_tally, text_less};
use quake3_log_analyser::deserializer_logs::{deserialize_log_line, EventParsingError, LogParsingError, Quake3FullEvents};
use quake3_log_analyser::presentation::{render_game, serialize_map, serialize_set, serialize_vec, signed_decimal};
use quake3_log_analyser::report::GameMatchSummary;
use quake3_log_analyser::text::{decimal, parse_i32, parse_u32, IntErrorKind};

#[test]
fn integers() {
    assert_eq!(parse_u32("4294967295"), Ok(4294967295));
    assert_eq!(parse_u32("+7"), Ok(7));
    assert_eq!(parse_u32("4294967296"), Err(IntErrorKind::PosOverflow));
    assert_eq!(parse_u32(""), Err(IntErrorKind::Empty));
    assert_eq!(parse_u32("-1"), Err(IntErrorKind::InvalidDigit));
    assert_eq!(parse_u32("+"), Err(IntErrorKind::InvalidDigit));
    assert_eq!(parse_i32("-2147483648"), Ok(i32::MIN));
    assert_eq!(parse_i32("-2147483649"), Err(IntErrorKind::NegOverflow));
    assert_eq!(parse_i32("2147483647"), Ok(i32::MAX));
    assert_eq!(decimal(0), "0");
    assert_eq!(decimal(1022), "1022");
    assert_eq!(signed_decimal(-77), "-77");
    assert_eq!(signed_decimal(i32::MIN), "-2147483648");
}

#[test]
fn kill_data_errors() {
    assert_eq!(deserialize_log_line("20:54 Kill: x 2 22: <world> killed Isgalamido by MOD_TRIGGER_HURT"),
        Err(LogParsingError::EventParsingError {
            event_name: "Kill".to_string(),
            event_parsing_error: EventParsingError::UnknownDataFormat {
                description: "Can't parse KILLER_ID from `Kill` data in the form '<KILLER_ID> <VICTIM_ID> <REASON_ID>: <TEXT_DESCRIPTION>' -- 'x 2 22: <world> killed Isgalamido by MOD_TRIGGER_HURT': invalid digit found in string".to_string(),
            },
        }));
    assert_eq!(deserialize_log_line("20:54 Kill: 1 2 22 <world> killed Isgalamido by MOD_TRIGGER_HURT"),
        Err(LogParsingError::EventParsingError {
            event_name: "Kill".to_string(),
            event_parsing_error: EventParsingError::UnknownDataFormat {
                description: "`Kill` data doesn't appear to be in the form '<KILLER_ID> <VICTIM_ID> <REASON_ID>: <TEXT_DESCRIPTION>': data is '1 2 22 <world> killed Isgalamido by MOD_TRIGGER_HURT'".to_string(),
            },
        }));
    assert_eq!(deserialize_log_line("20:54 Kill: 1 2 22: a killed b by c by d"),
        Ok(Quake3FullEvents::Kill {
            killer_id: 1,
            victim_id: 2,
            reason_id: 22,
            killer_name: "a".to_string(),
            victim_name: "b by c".to_string(),
            reason_name: "d".to_string(),
        }));
}

#[test]
fn rendering() {
    assert_eq!(serialize_set(&vec!["A".to_string(), "B".to_string()]), "[\"A\", \"B\"]");
    assert_eq!(serialize_set(&vec![]), "[]");
    assert_eq!(serialize_map("    ", &vec![("A".to_string(), 1), ("B".to_string(), -2)]), "{\n      \"A\": 1,\n      \"B\": -2\n    }");
    assert_eq!(serialize_vec("    ", &vec![(1, "Bartolo".to_string(), 1)]), "[\n      {\"id\": 1, \"name\": \"Bartolo\", \"frags\": 1}\n    ]");
    let summary = GameMatchSummary {
        total_kills: 2,
        players: vec!["A".to_string()],
        kills: vec![("A".to_string(), 2)],
        means_of_death: None,
        game_reported_scores: None,
        disconnected_players: None,
    };
    assert_eq!(render_game(2, &summary),
        ",\n  \"game_2\": {\n    \"total_kills\": 2,\n    \"players\": [\"A\"],\n    \"kills\": {\n      \"A\": 2\n    }\n  }");
}

#[test]
fn name_order() {
    assert!(text_less("Zeh", "a"));
    assert!(text_less("Dono", "Dono da bola"));
    assert!(!text_less("b", "b"));
    assert_eq!(sort_names(vec!["Zeh".to_string(), "Isgalamido".to_string(), "Dono da bola".to_string()]),
        vec!["Dono da bola".to_string(), "Isgalamido".to_string(), "Zeh".to_string()]);
    assert_eq!(sort_tally(vec![("b".to_string(), 1), ("a".to_string(), -1), ("ab".to_string(), 0)]),
        vec![("a".to_string(), -1), ("ab".to_string(), 0), ("b".to_string(), 1)]);
    let summary = GameMatchSummary {
        total_kills: 3,
        players: vec!["B".to_string(), "A".to_string()],
        kills: vec![("B".to_string(), 2), ("A".to_string(), 1)],
        means_of_death: Some(vec![("Y".to_string(), 1), ("X".to_string(), 2)]),
        game_reported_scores: None,
        disconnected_players: Some(vec![(9, "Z".to_string(), 0), (1, "C".to_string(), 4)]),
    };
    let ordered = in_name_order(summary.clone());
    assert_eq!(ordered.players, vec!["A".to_string(), "B".to_string()]);
    assert_eq!(ordered.kills, vec![("A".to_string(), 1), ("B".to_string(), 2)]);
    assert_eq!(ordered.means_of_death, Some(vec![("X".to_string(), 2), ("Y".to_string(), 1)]));
    assert_eq!(ordered.disconnected_players, summary.disconnected_players);
}
