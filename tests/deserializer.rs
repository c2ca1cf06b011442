use quake3_log_analyser::deserializer::{deserialize_log_line, EventParsingError, LogParsingError, Quake3Events};

#[test]
fn deserializer_unconventional_hours() {
    assert_stamped_parse(r#"  0:37 ------------------------------------------------------------"#, Quake3Events::Comment);
    assert_stamped_parse(r#" 80:37 ------------------------------------------------------------"#, Quake3Events::Comment);
    assert_stamped_parse(r#"980:37 ------------------------------------------------------------"#, Quake3Events::Comment);
}

#[test]
fn deserializer_comment() {
    assert_stamped_parse(r#"20:37 ------------------------------------------------------------"#, Quake3Events::Comment);
}

#[test]
fn deserializer_init_game() {
    assert_stamped_parse(r#" 1:47 InitGame: \sv_floodProtect\1\sv_maxPing\0\sv_minPing\0\sv_maxRate\10000\sv_minRate\0\sv_hostname\Code Miner Server\g_gametype\0\sv_privateClients\2\sv_maxclients\16\sv_allowDownload\0\bot_minplayers\0\dmflags\0\fraglimit\20\timelimit\15\g_maxGameClients\0\capturelimit\8\version\ioq3 1.36 linux-x86_64 Apr 12 2009\protocol\68\mapname\q3dm17\gamename\baseq3\g_needpass\0"#,
                       Quake3Events::InitGame {
                           frag_limit: Some(20),
                           capture_limit: Some(8),
                           time_limit_min: Some(15),
                       });
    assert_stamped_parse(r#" 2:33 InitGame: \capturelimit\8\g_maxGameClients\0\timelimit\15\fraglimit\20\dmflags\0\bot_minplayers\0\sv_allowDownload\0\sv_maxclients\16\sv_privateClients\2\g_gametype\4\sv_hostname\Code Miner Server\sv_minRate\0\sv_maxRate\10000\sv_minPing\0\sv_maxPing\0\sv_floodProtect\1\version\ioq3 1.36 linux-x86_64 Apr 12 2009\protocol\68\mapname\Q3TOURNEY6_CTF\gamename\baseq3\g_needpass\0"#,
                       Quake3Events::InitGame {
                           frag_limit: Some(20),
                           capture_limit: Some(8),
                           time_limit_min: Some(15),
                       });
}

#[test]
fn deserializer_client_connect() {
    assert_stamped_parse(r#" 2:33 ClientConnect: 2"#, Quake3Events::ClientConnect {id: 2});
}

#[test]
fn deserializer_client_info() {
    assert_stamped_parse(r#"2:33 ClientUserinfoChanged: 2 n\Isgalamido\t\1\model\uriel/zael\hmodel\uriel/zael\g_redteam\\g_blueteam\\c1\5\c2\5\hc\100\w\0\l\0\tt\0\tl\0"#,
                       Quake3Events::ClientUserinfoChanged { id: 2, name: "Isgalamido".to_string() })
}

#[test]
fn deserializer_client_begin() {
    assert_stamped_parse(r#" 2:33 ClientBegin: 2"#, Quake3Events::ClientBegin {id: 2})
}

#[test]
fn deserializer_client_disconnect() {
    assert_stamped_parse(r#" 2:33 ClientDisconnect: 2"#, Quake3Events::ClientDisconnect {id: 2});
}

#[test]
fn deserializer_item() {
    assert_stamped_parse(r#" 2:36 Item: 2 ammo_rockets"#, Quake3Events::Item)
}

#[test]
fn deserializer_say() {
    assert_stamped_parse(r#"981:26 say: Isgalamido: team blue"#, Quake3Events::Say)
}

#[test]
fn deserializer_kill_event() {
    assert_stamped_parse(r#"20:54 Kill: 1022 2 22: <world> killed Isgalamido by MOD_TRIGGER_HURT"#,
                       Quake3Events::Kill {
                           killer_id: 1022,
                           victim_id: 2,
                           reason_id: 22,
                           killer_name: "<world>".to_string(),
                           victim_name: "Isgalamido".to_string(),
                           reason_name: "MOD_TRIGGER_HURT".to_string(),
                       });
}

#[test]
fn deserializer_exit() {
    assert_stamped_parse(r#"10:12 Exit: Capturelimit hit."#, Quake3Events::Exit)
}

#[test]
fn deserializer_capture_the_flag_score() {
    assert_stamped_parse(r#"10:12 red:8  blue:6"#, Quake3Events::CaptureTheFlagResults { red: 8, blue: 6 })
}

#[test]
fn deserializer_score() {
    assert_stamped_parse(r#"10:12 score: 77  ping: 3  client: 2 Isgalamido"#, Quake3Events::Score { frags: 77, id: 2, name: String::from("Isgalamido") });
    assert_stamped_parse(r#"10:12 score: -77  ping: 3  client: 5 Dono da Bola"#, Quake3Events::Score { frags: -77, id: 5, name: String::from("Dono da Bola") })
}

#[test]
fn deserializer_shutdown() {
    assert_stamped_parse(r#"10:28 ShutdownGame:"#, Quake3Events::ShutdownGame)
}

fn assert_stamped_parse(log_line: &str, expected_log_event: Quake3Events) {
    let deserialization_result = deserialize_log_line(log_line);
    assert!(deserialization_result.is_ok(), "Log line '{log_line}' couldn't be deserialized: LogParsingError::{:?}", deserialization_result.unwrap_err());
    assert_eq!(deserialization_result.unwrap(), expected_log_event, "Log line '{log_line}' wasn't correctly deserialized");
}

#[test]
fn deserializer_empty_line() {
    assert_stamped_error(r#""#, LogParsingError::EmptyLine);
}

#[test]
fn deserializer_misformatted() {
    assert_stamped_error(r#"20|37 ------------------------------------------------------------"#, LogParsingError::UnrecognizedLineFormat);
    assert_stamped_error(r#"a0:37 ------------------------------------------------------------"#, LogParsingError::UnrecognizedLineFormat);
    assert_stamped_error(r#" a:37 ------------------------------------------------------------"#, LogParsingError::UnrecognizedLineFormat);
    assert_stamped_error(r#" 0:a7 ------------------------------------------------------------"#, LogParsingError::UnrecognizedLineFormat);
}

#[test]
fn deserializer_unknown_event() {
    assert_stamped_error(r#" 1:47 Init_Game: \sv_floodProtect\1\sv_maxPing\0\sv_minPing\0\sv_maxRate\10000\sv_minRate\0\sv_hostname\Code Miner Server\g_gametype\0\sv_privateClients\2\sv_maxclients\16\sv_allowDownload\0\bot_minplayers\0\dmflags\0\fraglimit\20\timelimit\15\g_maxGameClients\0\capturelimit\8\version\ioq3 1.36 linux-x86_64 Apr 12 2009\protocol\68\mapname\q3dm17\gamename\baseq3\g_needpass\0"#,
                             LogParsingError::EventParsingError { event_name: "Init_Game".to_string(), event_parsing_error: EventParsingError::UnknownEventName });
}

#[test]
fn deserializer_bad_client_connect() {
    assert_stamped_error(r#" 2:33 ClientConnect: 2a"#,
                             LogParsingError::EventParsingError { event_name: String::from("ClientConnect"), event_parsing_error: EventParsingError::UnparseableNumber { key_name: "client id", observed_data: String::from("2a") } });
    assert_stamped_error(r#" 2:33 ClientConnect:  2"#,
                             LogParsingError::EventParsingError { event_name: String::from("ClientConnect"), event_parsing_error: EventParsingError::UnparseableNumber { key_name: "client id", observed_data: String::from(" 2") } });
}

#[test]
fn deserializer_bad_client_info() {
    assert_stamped_error(r#"2:33 ClientUserinfoChanged: 2 not_n\Isgalamido\t\1\model\uriel/zael\hmodel\uriel/zael\g_redteam\\g_blueteam\\c1\5\c2\5\hc\100\w\0\l\0\tt\0\tl\0"#,
                             LogParsingError::EventParsingError {
                                 event_name: String::from("ClientUserinfoChanged"),
                                 event_parsing_error: EventParsingError::AbsentKey { key_name: "n" } });
    assert_stamped_error(r#"2:33 ClientUserinfoChanged: n\Isgalamido\t\1\model\uriel/zael\hmodel\uriel/zael\g_redteam\\g_blueteam\\c1\5\c2\5\hc\100\w\0\l\0\tt\0\tl\0"#,
                             LogParsingError::EventParsingError {
                                 event_name: String::from("ClientUserinfoChanged"),
                                 event_parsing_error: EventParsingError::UnknownDataFormat {
                                     description: String::from(r#"event data doesn't appear to be in the form <CLIENT_ID> <SPACE> key1\val1\key2\val2\...: log data: 'n\Isgalamido\t\1\model\uriel/zael\hmodel\uriel/zael\g_redteam\\g_blueteam\\c1\5\c2\5\hc\100\w\0\l\0\tt\0\tl\0'"#)
                                 }
                             });

    assert_stamped_error(r#"2:33 ClientUserinfoChanged: _2_ n\Isgalamido\t\1\model\uriel/zael\hmodel\uriel/zael\g_redteam\\g_blueteam\\c1\5\c2\5\hc\100\w\0\l\0\tt\0\tl\0"#,
                             LogParsingError::EventParsingError {
                                 event_name: String::from("ClientUserinfoChanged"),
                                 event_parsing_error: EventParsingError::UnparseableNumber {
                                     key_name: "client id",
                                     observed_data: "_2_".to_string()
                                 }
                             });
}

fn assert_stamped_error(log_line: &str, expected_log_parsing_error: LogParsingError) {
    let deserialization_result = deserialize_log_line(log_line);
    assert!(deserialization_result.is_err(), "The bad log line '{log_line}' did not fail in the deserialization (as it should). The unexpected Ok parsing result was {:?}", deserialization_result.unwrap());
    assert_eq!(deserialization_result.unwrap_err(), expected_log_parsing_error, "The bad log line '{log_line}' did not produce the expected error");
}
