use quake3_log_analyser::presentation::{JsonPresenter, Presentation};
use quake3_log_analyser::presentation_config::Config;
use quake3_log_analyser::report::GameMatchSummary;
use quake3_log_analyser::summarizer::SummaryError;

fn standard() -> GameMatchSummary {
    GameMatchSummary {
        total_kills: 45,
        players: vec!["Dono da bola".to_owned(), "Isgalamido".to_owned(), "Zeh".to_owned()],
        kills: vec![
            ("Dono da bola".to_owned(), 5),
            ("Isgalamido".to_owned(), 18),
            ("Zeh".to_owned(), 20),
        ],
        means_of_death: None,
        game_reported_scores: None,
        disconnected_players: None,
    }
}

fn to_json(items: Vec<Result<GameMatchSummary, SummaryError>>) -> String {
    let mut presenter = JsonPresenter::new(Config::default());
    let mut text = JsonPresenter::opening();
    for item in items {
        match presenter.present(&item) {
            Presentation::Write(t) => text.push_str(&t),
            Presentation::Reject { stop, .. } => assert!(!stop),
        }
    }
    text.push_str(&JsonPresenter::closing());
    text
}

fn assert_json(summaries: Vec<GameMatchSummary>) -> serde_json::Value {
    let json_string = to_json(summaries.into_iter().map(Ok).collect());
    println!("{json_string}");
    serde_json::from_str::<serde_json::Value>(&json_string).expect("The produced JSON is not valid")
}

#[test]
fn single_standard_summary() {
    let v = assert_json(vec![standard()]);
    assert_eq!(v["game_1"]["total_kills"], 45);
    assert_eq!(v["game_1"]["kills"]["Zeh"], 20);
}

#[test]
fn single_complete_summary() {
    let summary = GameMatchSummary {
        means_of_death: Some(vec![
            ("MOD_BRUTE_FORCE".to_owned(), 3),
            ("MOD_NAIL_IN_THE_HEAD".to_owned(), 3),
            ("MOD_PUNCH".to_owned(), 8),
        ]),
        game_reported_scores: Some(vec![
            ("Dono da bola".to_owned(), 5),
            ("Isgalamido".to_owned(), 18),
            ("Zeh".to_owned(), 20),
        ]),
        disconnected_players: Some(vec![
            (3, "Zeh Maneh".to_owned(), 2),
            (7, "Alcantara".to_owned(), -3),
        ]),
        ..standard()
    };
    let v = assert_json(vec![summary]);
    assert_eq!(v["game_1"]["kills_by_means"]["MOD_PUNCH"], 8);
    assert_eq!(v["game_1"]["disconnected_players"][1]["frags"], -3);
}

#[test]
fn double_standard_summaries() {
    let v = assert_json(vec![standard(), standard()]);
    assert_eq!(v["game_2"]["players"][2], "Zeh");
}

#[test]
fn errors_are_counted_and_skipped() {
    let text = to_json(vec![
        Err(SummaryError::DoubleInit { event_id: 1 }),
        Ok(standard()),
    ]);
    assert!(text.starts_with("{\n,\n  \"game_2\": {"));
    let mut presenter = JsonPresenter::new(Config { stop_on_errors: true, log_errors: false });
    assert_eq!(presenter.present(&Err(SummaryError::DoubleInit { event_id: 1 })),
        Presentation::Reject { game_id: 1, report: false, stop: true });
    assert_eq!(presenter.game_id, 2);
}
