//! The text rendering of summaries, one JSON-like object per match.
use vstd::prelude::*;
use vstd::string::*;

use crate::presentation_config::Config;
use crate::report::{departures_view, names_view, tally_view, GameMatchSummary, Tally};
use crate::summarizer::SummaryError;
use crate::text::{decimal, decimal_spec};

verus! {

/// `v` in decimal, with a leading `-` when negative.
pub open spec fn signed_decimal_spec(v: int) -> Seq<char> {
    if v < 0 {
        "-"@ + decimal_spec((-v) as nat)
    } else {
        decimal_spec(v as nat)
    }
}

/// `items` one after the other, with `sep` between neighbours.
pub open spec fn join(items: Seq<Seq<char>>, sep: Seq<char>) -> Seq<char>
    decreases items.len(),
{
    if items.len() == 0 {
        Seq::empty()
    } else if items.len() == 1 {
        items[0]
    } else {
        join(items.drop_last(), sep) + sep + items.last()
    }
}

pub open spec fn quoted(s: Seq<char>) -> Seq<char> {
    "\""@ + s + "\""@
}

/// A list of names: `["a", "b"]`.
pub open spec fn set_text(names: Seq<Seq<char>>) -> Seq<char> {
    "["@ + join(names.map_values(|n: Seq<char>| quoted(n)), ", "@) + "]"@
}

pub open spec fn map_entry_text(pre_ident: Seq<char>, e: (Seq<char>, i32)) -> Seq<char> {
    pre_ident + quoted(e.0) + ": "@ + signed_decimal_spec(e.1 as int)
}

/// A tally, one entry per line, indented by `pre_ident`.
pub open spec fn map_text(pre_ident: Seq<char>, t: Tally) -> Seq<char> {
    "{\n  "@ + join(t.map_values(|e: (Seq<char>, i32)| map_entry_text(pre_ident, e)), ",\n  "@) + "\n"@ + pre_ident + "}"@
}

pub open spec fn departure_text(pre_ident: Seq<char>, d: (u32, Seq<char>, i32)) -> Seq<char> {
    pre_ident + "{\"id\": "@ + decimal_spec(d.0 as nat) + ", \"name\": \""@ + d.1 + "\", \"frags\": "@
        + signed_decimal_spec(d.2 as int) + "}"@
}

/// The departures, one per line, indented by `pre_ident`.
pub open spec fn vec_text(pre_ident: Seq<char>, v: Seq<(u32, Seq<char>, i32)>) -> Seq<char> {
    "[\n  "@ + join(v.map_values(|d: (u32, Seq<char>, i32)| departure_text(pre_ident, d)), ",\n  "@) + "\n"@ + pre_ident + "]"@
}

/// Writes `v` in decimal.
pub fn signed_decimal(v: i32) -> (r: String)
    ensures
        r@ == signed_decimal_spec(v as int),
{
    if v < 0 {
        let magnitude: u32 = if v == i32::MIN { 0x8000_0000 } else { (-v) as u32 };
        let mut r = String::from_str("-");
        let digits = decimal(magnitude);
        r.append(digits.as_str());
        r
    } else {
        decimal(v as u32)
    }
}

proof fn lemma_join_step(items: Seq<Seq<char>>, sep: Seq<char>, i: int)
    requires
        0 <= i < items.len(),
    ensures
        join(items.take(i + 1), sep) == if i == 0 { items[0] } else { join(items.take(i), sep) + sep + items[i] },
{
    assert(items.take(i + 1).drop_last() =~= items.take(i));
}

/// Renders a list of names.
pub fn serialize_set(names: &Vec<String>) -> (r: String)
    ensures
        r@ == set_text(names_view(names@)),
{
    let ghost items = names_view(names@).map_values(|n: Seq<char>| quoted(n));
    let mut body = String::new();
    let mut i: usize = 0;
    assert(items.take(0) =~= Seq::<Seq<char>>::empty());
    while i < names.len()
        invariant
            i <= names.len(),
            items == names_view(names@).map_values(|n: Seq<char>| quoted(n)),
            body@ == join(items.take(i as int), ", "@),
        decreases names.len() - i,
    {
        proof {
            lemma_join_step(items, ", "@, i as int);
        }
        if i > 0 {
            body.append(", ");
        }
        body.append("\"");
        body.append(names[i].as_str());
        body.append("\"");
        i += 1;
    }
    assert(items.take(i as int) =~= items);
    let mut r = String::from_str("[");
    r.append(body.as_str());
    r.append("]");
    r
}

/// Renders a tally, its entries indented by `pre_ident`.
pub fn serialize_map(pre_ident: &str, tally: &Vec<(String, i32)>) -> (r: String)
    ensures
        r@ == map_text(pre_ident@, tally_view(tally@)),
{
    let ghost items = tally_view(tally@).map_values(|e: (Seq<char>, i32)| map_entry_text(pre_ident@, e));
    let mut body = String::new();
    let mut i: usize = 0;
    assert(items.take(0) =~= Seq::<Seq<char>>::empty());
    while i < tally.len()
        invariant
            i <= tally.len(),
            items == tally_view(tally@).map_values(|e: (Seq<char>, i32)| map_entry_text(pre_ident@, e)),
            body@ == join(items.take(i as int), ",\n  "@),
        decreases tally.len() - i,
    {
        proof {
            lemma_join_step(items, ",\n  "@, i as int);
        }
        if i > 0 {
            body.append(",\n  ");
        }
        body.append(pre_ident);
        body.append("\"");
        body.append(tally[i].0.as_str());
        body.append("\"");
        body.append(": ");
        let value = signed_decimal(tally[i].1);
        body.append(value.as_str());
        i += 1;
    }
    assert(items.take(i as int) =~= items);
    let mut r = String::from_str("{\n  ");
    r.append(body.as_str());
    r.append("\n");
    r.append(pre_ident);
    r.append("}");
    r
}

/// Renders the departures, indented by `pre_ident`.
pub fn serialize_vec(pre_ident: &str, departures: &Vec<(u32, String, i32)>) -> (r: String)
    ensures
        r@ == vec_text(pre_ident@, departures_view(departures@)),
{
    let ghost items = departures_view(departures@).map_values(|d: (u32, Seq<char>, i32)| departure_text(pre_ident@, d));
    let mut body = String::new();
    let mut i: usize = 0;
    assert(items.take(0) =~= Seq::<Seq<char>>::empty());
    while i < departures.len()
        invariant
            i <= departures.len(),
            items == departures_view(departures@).map_values(|d: (u32, Seq<char>, i32)| departure_text(pre_ident@, d)),
            body@ == join(items.take(i as int), ",\n  "@),
        decreases departures.len() - i,
    {
        proof {
            lemma_join_step(items, ",\n  "@, i as int);
        }
        if i > 0 {
            body.append(",\n  ");
        }
        body.append(pre_ident);
        body.append("{\"id\": ");
        let id = decimal(departures[i].0);
        body.append(id.as_str());
        body.append(", \"name\": \"");
        body.append(departures[i].1.as_str());
        body.append("\", \"frags\": ");
        let frags = signed_decimal(departures[i].2);
        body.append(frags.as_str());
        body.append("}");
        i += 1;
    }
    assert(items.take(i as int) =~= items);
    let mut r = String::from_str("[\n  ");
    r.append(body.as_str());
    r.append("\n");
    r.append(pre_ident);
    r.append("]");
    r
}

/// A labelled optional tally: nothing when absent.
pub open spec fn optional_map_text(label: Seq<char>, t: Option<Vec<(String, i32)>>) -> Seq<char> {
    match t {
        Some(t) => ",\n"@ + label + map_text("    "@, tally_view(t@)),
        None => Seq::empty(),
    }
}

/// The optional departures: nothing when absent.
pub open spec fn optional_vec_text(d: Option<Vec<(u32, String, i32)>>) -> Seq<char> {
    match d {
        Some(d) => ",\n"@ + "    \"disconnected_players\": "@ + vec_text("    "@, departures_view(d@)),
        None => Seq::empty(),
    }
}

/// The mandatory fields of the match numbered `game_id`.
pub open spec fn game_head_text(game_id: u32, s: GameMatchSummary) -> Seq<char> {
    (if game_id > 1 { ",\n"@ } else { Seq::empty() })
        + "  \"game_"@ + decimal_spec(game_id as nat) + "\": {\n"@
        + "    \"total_kills\": "@ + decimal_spec(s.total_kills as nat) + ",\n"@
        + "    \"players\": "@ + set_text(names_view(s.players@)) + ",\n"@
        + "    \"kills\": "@ + map_text("    "@, tally_view(s.kills@))
}

/// The rendering of the match numbered `game_id` (from 1); every match after the
/// first is preceded by a separator.
pub open spec fn game_text(game_id: u32, s: GameMatchSummary) -> Seq<char> {
    game_head_text(game_id, s)
        + optional_map_text("    \"kills_by_means\": "@, s.means_of_death)
        + optional_map_text("    \"game_reported_scores\": "@, s.game_reported_scores)
        + optional_vec_text(s.disconnected_players)
        + "\n  }"@
}

fn append_optional_map(r: &mut String, label: &str, t: &Option<Vec<(String, i32)>>)
    ensures
        final(r)@ == old(r)@ + optional_map_text(label@, *t),
{
    match t {
        Some(t) => {
            r.append(",\n");
            r.append(label);
            let text = serialize_map("    ", t);
            r.append(text.as_str());
        },
        None => {
            assert(r@ =~= old(r)@ + Seq::<char>::empty());
        },
    }
}

fn append_optional_vec(r: &mut String, d: &Option<Vec<(u32, String, i32)>>)
    ensures
        final(r)@ == old(r)@ + optional_vec_text(*d),
{
    match d {
        Some(d) => {
            r.append(",\n");
            r.append("    \"disconnected_players\": ");
            let text = serialize_vec("    ", d);
            r.append(text.as_str());
        },
        None => {
            assert(r@ =~= old(r)@ + Seq::<char>::empty());
        },
    }
}

fn game_head(game_id: u32, summary: &GameMatchSummary) -> (r: String)
    ensures
        r@ == game_head_text(game_id, *summary),
{
    let mut r = String::new();
    if game_id > 1 {
        r.append(",\n");
    }
    r.append("  \"game_");
    let id = decimal(game_id);
    r.append(id.as_str());
    r.append("\": {\n");
    r.append("    \"total_kills\": ");
    let total = decimal(summary.total_kills);
    r.append(total.as_str());
    r.append(",\n");
    r.append("    \"players\": ");
    let players = serialize_set(&summary.players);
    r.append(players.as_str());
    r.append(",\n");
    r.append("    \"kills\": ");
    let kills = serialize_map("    ", &summary.kills);
    r.append(kills.as_str());
    assert(r@ =~= game_head_text(game_id, *summary));
    r
}

/// Renders the match numbered `game_id`.
pub fn render_game(game_id: u32, summary: &GameMatchSummary) -> (r: String)
    ensures
        r@ == game_text(game_id, *summary),
{
    let mut r = game_head(game_id, summary);
    append_optional_map(&mut r, "    \"kills_by_means\": ", &summary.means_of_death);
    append_optional_map(&mut r, "    \"game_reported_scores\": ", &summary.game_reported_scores);
    append_optional_vec(&mut r, &summary.disconnected_players);
    r.append("\n  }");
    r
}

/// What becomes of one item of the output.
#[derive(Debug, Clone, PartialEq, Eq)]
pub enum Presentation {
    /// The text of a summary, to be written.
    Write(String),
    /// An error item, numbered `game_id`: to be reported when `report`, and
    /// ending the rendering when `stop`.
    Reject { game_id: u32, report: bool, stop: bool },
}

/// Renders the items of a run in order, numbering them from 1 (errors included).
pub struct JsonPresenter {
    pub config: Config,
    pub game_id: u32,
}

impl JsonPresenter {
    pub fn new(config: Config) -> (r: JsonPresenter)
        ensures
            r.config == config,
            r.game_id == 1,
    {
        JsonPresenter { config, game_id: 1 }
    }

    /// The text before the first item.
    pub fn opening() -> (r: String)
        ensures
            r@ == "{\n"@,
    {
        String::from_str("{\n")
    }

    /// The text after the last item.
    pub fn closing() -> (r: String)
        ensures
            r@ == "\n}"@,
    {
        String::from_str("\n}")
    }

    /// The presentation of the next item.
    pub fn present(&mut self, item: &Result<GameMatchSummary, SummaryError>) -> (r: Presentation)
        ensures
            final(self).config == old(self).config,
            final(self).game_id == if old(self).game_id < u32::MAX { (old(self).game_id + 1) as u32 } else { old(self).game_id },
            match item {
                Ok(s) => r matches Presentation::Write(t) && t@ == game_text(old(self).game_id, *s),
                Err(_) => r == Presentation::Reject {
                    game_id: old(self).game_id,
                    report: old(self).config.log_errors,
                    stop: old(self).config.stop_on_errors,
                },
            },
    {
        let game_id = self.game_id;
        if self.game_id < u32::MAX {
            self.game_id = self.game_id + 1;
        }
        match item {
            Ok(s) => Presentation::Write(render_game(game_id, s)),
            Err(_) => Presentation::Reject { game_id, report: self.config.log_errors, stop: self.config.stop_on_errors },
        }
    }
}

} // verus!
