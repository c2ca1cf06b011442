use quake3_log_analyser::config::{Config, EventAnalyserOperations};
use quake3_log_analyser::deserializer_logs::Quake3FullEvents;
use quake3_log_analyser::dtos::{CompositeEvent, EventModelViolations, LogicEvents};
use quake3_log_analyser::events::Quake3Events;
use quake3_log_analyser::events_translation::translate_quake3_events;
use quake3_log_analyser::report::GameMatchSummary;
use quake3_log_analyser::stages::{game_reported_scores, kills, means_of_death, LifecycleComposer, PlayerIdentityResolver};
use quake3_log_analyser::summarizer::{SummaryError, Summarizer};
use quake3_log_analyser::summary_logic::{select_pipeline, ConfigError, Pipeline, SummaryLogic};

use EventAnalyserOperations::{GameReportedScores, Kills, MeansOfDeath, PlayerIdsAndNickNamesResolutions};

fn kill(event_id: u32, killer: &str, victim: &str, reason: &str) -> Quake3Events {
    Quake3Events::Kill {
        event_id,
        killer_id: if killer == "<world>" { 1022 } else { 1 },
        victim_id: 2,
        reason_id: 3,
        killer_name: killer.to_string(),
        victim_name: victim.to_string(),
        reason_name: reason.to_string(),
    }
}

fn run(ops: Vec<EventAnalyserOperations>, events: Vec<Quake3Events>) -> Vec<Result<GameMatchSummary, SummaryError>> {
    let logic = SummaryLogic::new(Config { processor_pipeline: ops, ..Config::default() });
    logic.summarize_games(events).expect("supported pipeline")
}

fn only_summary(items: Vec<Result<GameMatchSummary, SummaryError>>) -> GameMatchSummary {
    assert_eq!(items.len(), 1, "{items:?}");
    items.into_iter().next().unwrap().expect("a summary")
}

fn sorted<T: Ord + Clone>(v: &[T]) -> Vec<T> {
    let mut v = v.to_vec();
    v.sort();
    v
}

fn entry(name: &str, value: i32) -> (String, i32) {
    (name.to_string(), value)
}

#[test]
fn two_players_kill_each_other() {
    let s = only_summary(run(vec![Kills], vec![
        Quake3Events::InitGame { event_id: 1 },
        kill(2, "A", "B", "R"),
        kill(3, "B", "A", "R"),
        Quake3Events::ShutdownGame { event_id: 4 },
    ]));
    assert_eq!(s.total_kills, 2);
    assert_eq!(sorted(&s.players), vec!["A".to_string(), "B".to_string()]);
    assert_eq!(sorted(&s.kills), vec![entry("A", 1), entry("B", 1)]);
    let sum: i32 = s.kills.iter().map(|e| e.1).sum();
    assert_eq!(sum as u32, s.total_kills);
}

#[test]
fn world_kills_go_negative() {
    let s = only_summary(run(vec![Kills], vec![
        Quake3Events::InitGame { event_id: 1 },
        kill(2, "<world>", "A", "R"),
        kill(3, "<world>", "A", "R"),
        Quake3Events::ShutdownGame { event_id: 4 },
    ]));
    assert_eq!(s.total_kills, 2);
    assert_eq!(s.kills, vec![entry("A", -2)]);
    assert!(!s.kills.iter().any(|e| e.0 == "<world>"));
}

#[test]
fn connect_rename_disconnect_without_kills() {
    let s = only_summary(run(vec![Kills, PlayerIdsAndNickNamesResolutions], vec![
        Quake3Events::InitGame { event_id: 1 },
        Quake3Events::ClientConnect { event_id: 2, client_id: 1 },
        Quake3Events::ClientUserinfoChanged { event_id: 3, client_id: 1, name: "Bob".to_string() },
        Quake3Events::ClientDisconnect { event_id: 4, client_id: 1 },
        Quake3Events::ShutdownGame { event_id: 5 },
    ]));
    assert!(s.players.is_empty());
    assert_eq!(s.disconnected_players, None);
    assert_eq!(s.total_kills, 0);
}

#[test]
fn double_init_is_an_error_and_the_first_match_closes() {
    let items = run(vec![Kills], vec![
        Quake3Events::InitGame { event_id: 1 },
        Quake3Events::InitGame { event_id: 2 },
        Quake3Events::ShutdownGame { event_id: 3 },
    ]);
    assert_eq!(items.len(), 2);
    assert_eq!(items[0], Err(SummaryError::ModelViolation { event_id: 2, violation: EventModelViolations::DoubleInit }));
    assert_eq!(items[1], Ok(GameMatchSummary::new()));
}

#[test]
fn means_of_death_does_not_consume_kills() {
    let s = only_summary(run(vec![MeansOfDeath, Kills, PlayerIdsAndNickNamesResolutions, GameReportedScores], vec![
        Quake3Events::InitGame { event_id: 1 },
        kill(2, "A", "B", "R1"),
        kill(3, "B", "A", "R2"),
        Quake3Events::ShutdownGame { event_id: 4 },
    ]));
    assert_eq!(sorted(&s.means_of_death.unwrap()), vec![entry("R1", 1), entry("R2", 1)]);
    assert_eq!(s.total_kills, 2);
    assert_eq!(sorted(&s.kills), vec![entry("A", 1), entry("B", 1)]);
}

#[test]
fn rename_carries_the_score() {
    let s = only_summary(run(vec![Kills, PlayerIdsAndNickNamesResolutions], vec![
        Quake3Events::InitGame { event_id: 1 },
        Quake3Events::ClientConnect { event_id: 2, client_id: 1 },
        Quake3Events::ClientUserinfoChanged { event_id: 3, client_id: 1, name: "Old".to_string() },
        kill(4, "Old", "X", "R"),
        kill(5, "Old", "X", "R"),
        Quake3Events::ClientUserinfoChanged { event_id: 6, client_id: 1, name: "New".to_string() },
        Quake3Events::ShutdownGame { event_id: 7 },
    ]));
    assert_eq!(s.kills, vec![entry("New", 2)]);
    assert!(s.players.contains(&"New".to_string()));
    assert!(!s.players.contains(&"Old".to_string()));
}

#[test]
fn disconnect_keeps_the_frags_aside() {
    let s = only_summary(run(vec![Kills, PlayerIdsAndNickNamesResolutions], vec![
        Quake3Events::InitGame { event_id: 1 },
        Quake3Events::ClientConnect { event_id: 2, client_id: 7 },
        Quake3Events::ClientUserinfoChanged { event_id: 3, client_id: 7, name: "Gone".to_string() },
        kill(4, "<world>", "Gone", "R"),
        Quake3Events::ClientDisconnect { event_id: 5, client_id: 7 },
        Quake3Events::ShutdownGame { event_id: 6 },
    ]));
    assert_eq!(s.total_kills, 1);
    assert!(s.kills.is_empty());
    assert!(s.players.is_empty());
    assert_eq!(s.disconnected_players, Some(vec![(7, "Gone".to_string(), -1)]));
}

#[test]
fn pipeline_selection() {
    assert_eq!(select_pipeline(&vec![Kills]), Ok(Pipeline::Kills));
    assert_eq!(select_pipeline(&vec![GameReportedScores, Kills]), select_pipeline(&vec![Kills, GameReportedScores, Kills]));
    assert_eq!(select_pipeline(&vec![Kills, GameReportedScores]), Ok(Pipeline::KillsAndReportedScores));
    assert_eq!(select_pipeline(&vec![PlayerIdsAndNickNamesResolutions, Kills]), Ok(Pipeline::KillsAndPlayerIds));
    assert_eq!(select_pipeline(&vec![Kills, PlayerIdsAndNickNamesResolutions, GameReportedScores]), Ok(Pipeline::KillsPlayerIdsAndReportedScores));
    assert_eq!(select_pipeline(&vec![MeansOfDeath, Kills, PlayerIdsAndNickNamesResolutions, GameReportedScores]), Ok(Pipeline::Full));
    assert_eq!(select_pipeline(&vec![MeansOfDeath, Kills]), Err(ConfigError::UnknownCombination));
    assert_eq!(select_pipeline(&vec![]), Err(ConfigError::UnknownCombination));
    let logic = SummaryLogic::new(Config { processor_pipeline: vec![GameReportedScores], ..Config::default() });
    assert_eq!(logic.summarize_games(vec![Quake3Events::InitGame { event_id: 1 }]).err(), Some(ConfigError::UnknownCombination));
}

#[test]
fn composer_lifecycle() {
    let mut c = LifecycleComposer::new();
    assert_eq!(c.compose(Quake3Events::Exit { event_id: 1 }),
        Some(CompositeEvent::LogicEvent(LogicEvents::EventModelViolation { quake3_event_id: 1, violation: EventModelViolations::GameNotStarted })));
    assert_eq!(c.compose(Quake3Events::InitGame { event_id: 2 }), Some(CompositeEvent::LogicEvent(LogicEvents::NewGame { quake3_event_id: 2 })));
    assert_eq!(c.compose(Quake3Events::Exit { event_id: 3 }), None);
    assert_eq!(c.compose(Quake3Events::ShutdownGame { event_id: 4 }),
        Some(CompositeEvent::LogicEvent(LogicEvents::GameEndedGracefully { quake3_event_id: 4 })));
    assert_eq!(c.compose(Quake3Events::ShutdownGame { event_id: 5 }),
        Some(CompositeEvent::LogicEvent(LogicEvents::EventModelViolation { quake3_event_id: 5, violation: EventModelViolations::GameNotStarted })));
    assert_eq!(c.compose(Quake3Events::InitGame { event_id: 6 }), Some(CompositeEvent::LogicEvent(LogicEvents::NewGame { quake3_event_id: 6 })));
    assert_eq!(c.compose(Quake3Events::ShutdownGame { event_id: 7 }),
        Some(CompositeEvent::LogicEvent(LogicEvents::GameEndedManually { quake3_event_id: 7 })));
    assert_eq!(c.compose(Quake3Events::Error { event_id: 42, message: "boom".to_string() }),
        Some(CompositeEvent::GameEvent(Quake3Events::Error { event_id: 42, message: "Event #42: Feed error: boom".to_string() })));
}

#[test]
fn stage_rules_on_single_events() {
    let k = CompositeEvent::GameEvent(kill(9, "A", "B", "MOD_X"));
    let fanned = means_of_death(k.clone());
    assert_eq!(fanned, vec![
        CompositeEvent::LogicEvent(LogicEvents::MeanOfDeath { quake3_event_id: 9, mean_of_death: "MOD_X".to_string() }),
        k.clone(),
    ]);
    assert_eq!(kills(k), CompositeEvent::LogicEvent(LogicEvents::IncFrags { quake3_event_id: 9, client_id: 1, name: "A".to_string() }));
    let score = CompositeEvent::GameEvent(Quake3Events::Score { event_id: 3, frags: -4, client_id: 5, name: "Z".to_string() });
    assert_eq!(game_reported_scores(score),
        CompositeEvent::LogicEvent(LogicEvents::ReportedScore { quake3_event_id: 3, frags: -4, client_id: 5, name: "Z".to_string() }));
}

#[test]
fn resolver_violations() {
    let mut r = PlayerIdentityResolver::new();
    assert_eq!(r.resolve(CompositeEvent::GameEvent(Quake3Events::ClientUserinfoChanged { event_id: 1, client_id: 4, name: "N".to_string() }), false),
        Some(CompositeEvent::LogicEvent(LogicEvents::EventModelViolation {
            quake3_event_id: 1,
            violation: EventModelViolations::ClientNotConnected { id: 4, name: "N".to_string() },
        })));
    assert_eq!(r.resolve(CompositeEvent::GameEvent(Quake3Events::ClientDisconnect { event_id: 2, client_id: 4 }), false),
        Some(CompositeEvent::LogicEvent(LogicEvents::EventModelViolation {
            quake3_event_id: 2,
            violation: EventModelViolations::ClientNotConnected { id: 4, name: "<unknown>".to_string() },
        })));
    assert_eq!(r.resolve(CompositeEvent::GameEvent(Quake3Events::ClientConnect { event_id: 3, client_id: 4 }), false), None);
    assert_eq!(r.resolve(CompositeEvent::GameEvent(Quake3Events::ClientConnect { event_id: 4, client_id: 4 }), false),
        Some(CompositeEvent::LogicEvent(LogicEvents::EventModelViolation { quake3_event_id: 4, violation: EventModelViolations::DoubleConnect })));
    assert_eq!(r.resolve(CompositeEvent::GameEvent(Quake3Events::ClientUserinfoChanged { event_id: 5, client_id: 4, name: "N".to_string() }), false),
        Some(CompositeEvent::LogicEvent(LogicEvents::AddPlayer { quake3_event_id: 5, client_id: 4, name: "N".to_string() })));
    let frag = CompositeEvent::LogicEvent(LogicEvents::IncFrags { quake3_event_id: 6, client_id: 4, name: "M".to_string() });
    assert_eq!(r.resolve(frag.clone(), false), Some(frag.clone()));
    assert_eq!(r.resolve(frag, true),
        Some(CompositeEvent::LogicEvent(LogicEvents::EventModelViolation {
            quake3_event_id: 6,
            violation: EventModelViolations::DiscrepantPlayerName { id: 4, local_name: "N".to_string(), game_name: "M".to_string() },
        })));
    let unknown = CompositeEvent::LogicEvent(LogicEvents::DecFrags { quake3_event_id: 7, client_id: 9, name: "Q".to_string() });
    assert_eq!(r.resolve(unknown, true),
        Some(CompositeEvent::LogicEvent(LogicEvents::EventModelViolation {
            quake3_event_id: 7,
            violation: EventModelViolations::DiscrepantPlayerName { id: 9, local_name: "NONE".to_string(), game_name: "Q".to_string() },
        })));
    assert_eq!(r.resolve(CompositeEvent::GameEvent(Quake3Events::ClientDisconnect { event_id: 8, client_id: 4 }), false),
        Some(CompositeEvent::LogicEvent(LogicEvents::DeletePlayer { quake3_event_id: 8, client_id: 4, name: "N".to_string() })));
}

#[test]
fn summarizer_errors() {
    let mut s = Summarizer::new();
    let logic = |e: LogicEvents| CompositeEvent::LogicEvent(e);
    assert_eq!(s.summarize(logic(LogicEvents::GameEndedManually { quake3_event_id: 1 })),
        Some(Err(SummaryError::GameNotStarted { event_id: 1, graceful: false })));
    assert_eq!(s.summarize(logic(LogicEvents::IncFrags { quake3_event_id: 2, client_id: 1, name: "A".to_string() })), None);
    assert_eq!(s.summarize(logic(LogicEvents::NewGame { quake3_event_id: 3 })), None);
    assert_eq!(s.summarize(logic(LogicEvents::NewGame { quake3_event_id: 4 })), Some(Err(SummaryError::DoubleInit { event_id: 4 })));
    assert_eq!(s.summarize(logic(LogicEvents::AddPlayer { quake3_event_id: 5, client_id: 1, name: "A".to_string() })), None);
    assert_eq!(s.summarize(logic(LogicEvents::AddPlayer { quake3_event_id: 6, client_id: 1, name: "A".to_string() })),
        Some(Err(SummaryError::PlayerAlreadyRegistered { event_id: 6, client_id: 1, name: "A".to_string() })));
    assert_eq!(s.summarize(logic(LogicEvents::DeletePlayer { quake3_event_id: 7, client_id: 2, name: "B".to_string() })),
        Some(Err(SummaryError::PlayerNotRegistered { event_id: 7, client_id: 2, name: "B".to_string() })));
    assert_eq!(s.summarize(logic(LogicEvents::ReportedScore { quake3_event_id: 8, frags: 5, client_id: 1, name: "A".to_string() })), None);
    assert_eq!(s.summarize(logic(LogicEvents::ReportedScore { quake3_event_id: 9, frags: 7, client_id: 1, name: "A".to_string() })), None);
    assert_eq!(s.summarize(CompositeEvent::GameEvent(Quake3Events::InitGame { event_id: 10 })), None);
    assert_eq!(s.summarize(logic(LogicEvents::EventModelViolation { quake3_event_id: 11, violation: EventModelViolations::DoubleConnect })),
        Some(Err(SummaryError::ModelViolation { event_id: 11, violation: EventModelViolations::DoubleConnect })));
    let closed = s.summarize(logic(LogicEvents::GameEndedGracefully { quake3_event_id: 12 })).unwrap().unwrap();
    assert_eq!(closed.players, vec!["A".to_string()]);
    assert_eq!(closed.game_reported_scores, Some(vec![entry("A", 7)]));
    assert_eq!(closed.total_kills, 0);
    assert_eq!(s.summarize(logic(LogicEvents::GameEndedGracefully { quake3_event_id: 13 })),
        Some(Err(SummaryError::GameNotStarted { event_id: 13, graceful: true })));
}

#[test]
fn pedantic_run_reports_discrepant_names() {
    let logic = SummaryLogic::new(Config {
        stop_on_event_model_violations: true,
        processor_pipeline: vec![Kills, PlayerIdsAndNickNamesResolutions],
        ..Config::default()
    });
    let items = logic.summarize_games(vec![
        Quake3Events::InitGame { event_id: 1 },
        Quake3Events::ClientConnect { event_id: 2, client_id: 1 },
        Quake3Events::ClientUserinfoChanged { event_id: 3, client_id: 1, name: "A".to_string() },
        Quake3Events::Kill { event_id: 4, killer_id: 1, victim_id: 2, reason_id: 0, killer_name: "Other".to_string(), victim_name: "B".to_string(), reason_name: "R".to_string() },
        Quake3Events::ShutdownGame { event_id: 5 },
    ]).unwrap();
    assert_eq!(items.len(), 2);
    assert_eq!(items[0], Err(SummaryError::ModelViolation {
        event_id: 4,
        violation: EventModelViolations::DiscrepantPlayerName { id: 1, local_name: "A".to_string(), game_name: "Other".to_string() },
    }));
    assert_eq!(items[1].as_ref().unwrap().total_kills, 0);
}

#[test]
fn translation_keeps_what_the_summaries_need() {
    assert_eq!(translate_quake3_events(3, Ok(Quake3FullEvents::Say)), None);
    assert_eq!(translate_quake3_events(4, Ok(Quake3FullEvents::Comment)), None);
    assert_eq!(translate_quake3_events(5, Ok(Quake3FullEvents::ClientBegin { id: 1 })), None);
    assert_eq!(translate_quake3_events(6, Ok(Quake3FullEvents::InitGame { frag_limit: None, capture_limit: None, time_limit_min: None })),
        Some(Quake3Events::InitGame { event_id: 6 }));
    assert_eq!(translate_quake3_events(7, Ok(Quake3FullEvents::Score { frags: -1, id: 2, name: "P".to_string() })),
        Some(Quake3Events::Score { event_id: 7, frags: -1, client_id: 2, name: "P".to_string() }));
    assert_eq!(translate_quake3_events(8, Err("bad line".to_string())),
        Some(Quake3Events::Error { event_id: 8, message: "bad line".to_string() }));
}

#[test]
fn raw_event_accessors() {
    let e = Quake3Events::Error { event_id: 3, message: "m".to_string() };
    assert!(e.is_err());
    assert!(!e.is_ok());
    assert_eq!(e.unwrap_err(), "m");
    assert_eq!(e.event_id(), 3);
    let k = kill(11, "A", "B", "R");
    assert!(k.is_ok());
    assert_eq!(k.event_id(), 11);
    let c = CompositeEvent::LogicEvent(LogicEvents::EventModelViolation { quake3_event_id: 12, violation: EventModelViolations::DoubleInit });
    assert!(c.is_err());
    assert_eq!(c.event_id(), 12);
}

#[test]
fn repeated_connect_keeps_the_name() {
    let mut r = PlayerIdentityResolver::new();
    assert_eq!(r.resolve(CompositeEvent::GameEvent(Quake3Events::ClientConnect { event_id: 1, client_id: 4 }), false), None);
    assert_eq!(r.resolve(CompositeEvent::GameEvent(Quake3Events::ClientUserinfoChanged { event_id: 2, client_id: 4, name: "N".to_string() }), false),
        Some(CompositeEvent::LogicEvent(LogicEvents::AddPlayer { quake3_event_id: 2, client_id: 4, name: "N".to_string() })));
    assert_eq!(r.resolve(CompositeEvent::GameEvent(Quake3Events::ClientConnect { event_id: 3, client_id: 4 }), false),
        Some(CompositeEvent::LogicEvent(LogicEvents::EventModelViolation { quake3_event_id: 3, violation: EventModelViolations::DoubleConnect })));
    assert_eq!(r.resolve(CompositeEvent::GameEvent(Quake3Events::ClientUserinfoChanged { event_id: 4, client_id: 4, name: "M".to_string() }), false),
        Some(CompositeEvent::LogicEvent(LogicEvents::RenamePlayer { quake3_event_id: 4, client_id: 4, old_name: "N".to_string(), new_name: "M".to_string() })));
    let frag = CompositeEvent::LogicEvent(LogicEvents::IncFrags { quake3_event_id: 5, client_id: 4, name: "M".to_string() });
    assert_eq!(r.resolve(frag.clone(), true), Some(frag));
}

#[test]
fn frag_symmetry_with_other_events() {
    let s = only_summary(run(vec![MeansOfDeath, Kills, PlayerIdsAndNickNamesResolutions, GameReportedScores], vec![
        Quake3Events::InitGame { event_id: 1 },
        Quake3Events::ClientConnect { event_id: 2, client_id: 1 },
        Quake3Events::ClientUserinfoChanged { event_id: 3, client_id: 1, name: "A".to_string() },
        kill(4, "A", "B", "R1"),
        kill(5, "B", "A", "R2"),
        kill(6, "A", "B", "R1"),
        Quake3Events::Score { event_id: 7, frags: 9, client_id: 1, name: "A".to_string() },
        Quake3Events::ShutdownGame { event_id: 8 },
    ]));
    let sum: i32 = s.kills.iter().map(|e| e.1).sum();
    assert_eq!(sum as u32, s.total_kills);
    assert_eq!(s.total_kills, 3);
}
