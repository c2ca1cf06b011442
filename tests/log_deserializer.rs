use quake3_log_analyser::log_deserializer::{deserialize_log_line, EventParsingError, LogParsingError};
use quake3_log_analyser::quake3_logs::LogEvent;

#[test]
fn unpadded_hour() {
    assert_light_parse(r#" 0:37 ------------------------------------------------------------"#, LogEvent::Comment);
}

#[test]
fn mod_comment() {
    assert_light_parse(r#"20:37 ------------------------------------------------------------"#, LogEvent::Comment);
}

#[test]
fn mod_init_game() {
    assert_light_parse(r#" 1:47 InitGame: \sv_floodProtect\1\sv_maxPing\0\sv_minPing\0\sv_maxRate\10000\sv_minRate\0\sv_hostname\Code Miner Server\g_gametype\0\sv_privateClients\2\sv_maxclients\16\sv_allowDownload\0\bot_minplayers\0\dmflags\0\fraglimit\20\timelimit\15\g_maxGameClients\0\capturelimit\8\version\ioq3 1.36 linux-x86_64 Apr 12 2009\protocol\68\mapname\q3dm17\gamename\baseq3\g_needpass\0"#,
                       LogEvent::InitGame {
                           frag_limit: Some(20),
                           capture_limit: Some(8),
                           time_limit_min: Some(15),
                       });
    assert_light_parse(r#" 2:33 InitGame: \capturelimit\8\g_maxGameClients\0\timelimit\15\fraglimit\20\dmflags\0\bot_minplayers\0\sv_allowDownload\0\sv_maxclients\16\sv_privateClients\2\g_gametype\4\sv_hostname\Code Miner Server\sv_minRate\0\sv_maxRate\10000\sv_minPing\0\sv_maxPing\0\sv_floodProtect\1\version\ioq3 1.36 linux-x86_64 Apr 12 2009\protocol\68\mapname\Q3TOURNEY6_CTF\gamename\baseq3\g_needpass\0"#,
                       LogEvent::InitGame {
                           frag_limit: Some(20),
                           capture_limit: Some(8),
                           time_limit_min: Some(15),
                       });
}

#[test]
fn mod_client_connect() {
    assert_light_parse(r#" 2:33 ClientConnect: 2"#, LogEvent::ClientConnect {id: 2});
}

#[test]
fn mod_client_info() {
    assert_light_parse(r#"2:33 ClientUserinfoChanged: 2 n\Isgalamido\t\1\model\uriel/zael\hmodel\uriel/zael\g_redteam\\g_blueteam\\c1\5\c2\5\hc\100\w\0\l\0\tt\0\tl\0"#,
                       LogEvent::ClientUserinfoChanged { id: 2, name: "Isgalamido".to_string() })
}

#[test]
fn mod_client_begin() {
    assert_light_parse(r#" 2:33 ClientBegin: 2"#, LogEvent::ClientBegin {id: 2})
}

#[test]
fn mod_item() {
    assert_light_parse(r#" 2:36 Item: 2 ammo_rockets"#, LogEvent::Item)
}

#[test]
fn mod_kill_event() {
    assert_light_parse(r#"20:54 Kill: 1022 2 22: <world> killed Isgalamido by MOD_TRIGGER_HURT"#, LogEvent::Kill);
}

#[test]
fn mod_exit() {
    assert_light_parse(r#"10:12 Exit: Capturelimit hit."#, LogEvent::Exit)
}

#[test]
fn mod_capture_the_flag_score() {
    assert_light_parse(r#"10:12 red:8  blue:6"#, LogEvent::CaptureTheFlagResults { red: 8, blue: 6 })
}

#[test]
fn mod_score() {
    assert_light_parse(r#"10:12 score: 77  ping: 3  client: 2 Isgalamido"#, LogEvent::Score { frags: 77, id: 2, name: String::from("Isgalamido") })
}

#[test]
fn mod_shutdown() {
    assert_light_parse(r#"10:28 ShutdownGame:"#, LogEvent::ShutdownGame)
}

fn assert_light_parse(log_line: &str, expected_log_event: LogEvent) {
    let deserialization_result = deserialize_log_line(log_line);
    assert!(deserialization_result.is_ok(), "Log line '{log_line}' couldn't be deserialized: LogParsingError::{:?}", deserialization_result.unwrap_err());
    assert_eq!(deserialization_result.unwrap(), expected_log_event, "Log line '{log_line}' wasn't correctly deserialized");
}

#[test]
fn mod_empty_line() {
    assert_light_error(r#""#, LogParsingError::EmptyLine);
}

#[test]
fn mod_misformatted() {
    assert_light_error(r#"20|37 ------------------------------------------------------------"#, LogParsingError::UnrecognizedLineFormat);
    assert_light_error(r#"a0:37 ------------------------------------------------------------"#, LogParsingError::UnrecognizedLineFormat);
    assert_light_error(r#" a:37 ------------------------------------------------------------"#, LogParsingError::UnrecognizedLineFormat);
    assert_light_error(r#" 0:a7 ------------------------------------------------------------"#, LogParsingError::UnrecognizedLineFormat);
}

#[test]
fn mod_unknown_event() {
    assert_light_error(r#" 1:47 Init_Game: \sv_floodProtect\1\sv_maxPing\0\sv_minPing\0\sv_maxRate\10000\sv_minRate\0\sv_hostname\Code Miner Server\g_gametype\0\sv_privateClients\2\sv_maxclients\16\sv_allowDownload\0\bot_minplayers\0\dmflags\0\fraglimit\20\timelimit\15\g_maxGameClients\0\capturelimit\8\version\ioq3 1.36 linux-x86_64 Apr 12 2009\protocol\68\mapname\q3dm17\gamename\baseq3\g_needpass\0"#,
                             LogParsingError::EventParsingError { event_name: "Init_Game".to_string(), event_parsing_error: EventParsingError::UnknownEventName });
}

#[test]
fn mod_bad_client_connect() {
    assert_light_error(r#" 2:33 ClientConnect: 2a"#,
                             LogParsingError::EventParsingError { event_name: String::from("ClientConnect"), event_parsing_error: EventParsingError::UnparseableNumber { key_name: "client id", observed_data: String::from("2a") } });
    assert_light_error(r#" 2:33 ClientConnect:  2"#,
                             LogParsingError::EventParsingError { event_name: String::from("ClientConnect"), event_parsing_error: EventParsingError::UnparseableNumber { key_name: "client id", observed_data: String::from(" 2") } });
}

#[test]
fn mod_bad_client_info() {
    assert_light_error(r#"2:33 ClientUserinfoChanged: 2 not_n\Isgalamido\t\1\model\uriel/zael\hmodel\uriel/zael\g_redteam\\g_blueteam\\c1\5\c2\5\hc\100\w\0\l\0\tt\0\tl\0"#,
                             LogParsingError::EventParsingError {
                                 event_name: String::from("ClientUserinfoChanged"),
                                 event_parsing_error: EventParsingError::AbsentKey { key_name: "n" } });
    assert_light_error(r#"2:33 ClientUserinfoChanged: n\Isgalamido\t\1\model\uriel/zael\hmodel\uriel/zael\g_redteam\\g_blueteam\\c1\5\c2\5\hc\100\w\0\l\0\tt\0\tl\0"#,
                             LogParsingError::EventParsingError {
                                 event_name: String::from("ClientUserinfoChanged"),
                                 event_parsing_error: EventParsingError::UnknownDataFormat {
                                     description: String::from(r#"event data doesn't appear to be in the form <CLIENT_ID> <SPACE> key1\val1\key2\val2\...: log data: 'n\Isgalamido\t\1\model\uriel/zael\hmodel\uriel/zael\g_redteam\\g_blueteam\\c1\5\c2\5\hc\100\w\0\l\0\tt\0\tl\0'"#)
                                 }
                             });

    assert_light_error(r#"2:33 ClientUserinfoChanged: _2_ n\Isgalamido\t\1\model\uriel/zael\hmodel\uriel/zael\g_redteam\\g_blueteam\\c1\5\c2\5\hc\100\w\0\l\0\tt\0\tl\0"#,
                             LogParsingError::EventParsingError {
                                 event_name: String::from("ClientUserinfoChanged"),
                                 event_parsing_error: EventParsingError::UnparseableNumber {
                                     key_name: "client id",
                                     observed_data: "_2_".to_string()
                                 }
                             });
}

fn assert_light_error(log_line: &str, expected_log_parsing_error: LogParsingError) {
    let deserialization_result = deserialize_log_line(log_line);
    assert!(deserialization_result.is_err(), "The bad log line '{log_line}' did not fail in the deserialization (as it should). The unexpected Ok parsing result was {:?}", deserialization_result.unwrap());
    assert_eq!(deserialization_result.unwrap_err(), expected_log_parsing_error, "The bad log line '{log_line}' did not produce the expected error");
}
