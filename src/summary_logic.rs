//! The pipeline assembler and the run of a whole feed.
use vstd::prelude::*;

use crate::config::{Config, EventAnalyserOperations};
use crate::dtos::{opt_event_view, CompositeEvent, CompositeView};
use crate::events::{Quake3EventView, Quake3Events};
use crate::report::GameMatchSummary;
use crate::stages::{
    compose_spec, game_reported_scores, kills, kills_spec, means_of_death, means_of_death_spec,
    reported_scores_spec, resolve_spec, IdentityTable, LifecycleComposer, PlayerIdentityResolver,
};
use crate::summarizer::{
    opt_summary_view, result_view, summarize_step, ItemView, SummaryError, Summarizer,
};
use crate::report::SummaryView;

verus! {

/// The supported selections of analyses.
#[derive(Debug, Clone, Copy, PartialEq, Eq, Structural)]
pub enum Pipeline {
    Kills,
    KillsAndPlayerIds,
    KillsAndReportedScores,
    KillsPlayerIdsAndReportedScores,
    Full,
}

/// One stage of an assembled pipeline.
#[derive(Debug, Clone, Copy, PartialEq, Eq, Structural)]
pub enum Stage {
    Composer,
    MeansOfDeath,
    Kills,
    PlayerIdentity,
    ReportedScores,
    Summarizer,
}

/// A selection of analyses that no pipeline supports.
#[derive(Debug, Clone, Copy, PartialEq, Eq, Structural)]
pub enum ConfigError {
    UnknownCombination,
}

pub open spec fn has_means_of_death(p: Pipeline) -> bool {
    p is Full
}

pub open spec fn has_player_ids(p: Pipeline) -> bool {
    p is KillsAndPlayerIds || p is KillsPlayerIdsAndReportedScores || p is Full
}

pub open spec fn has_reported_scores(p: Pipeline) -> bool {
    p is KillsAndReportedScores || p is KillsPlayerIdsAndReportedScores || p is Full
}

/// The chain of a pipeline: the composer, the means-of-death analysis, the kills
/// analysis, the identity resolver, the reported-score analysis and the
/// summarizer, in that order, without the optional stages it leaves out.
pub open spec fn stages(p: Pipeline) -> Seq<Stage> {
    seq![Stage::Composer]
        + (if has_means_of_death(p) { seq![Stage::MeansOfDeath] } else { Seq::empty() })
        + seq![Stage::Kills]
        + (if has_player_ids(p) { seq![Stage::PlayerIdentity] } else { Seq::empty() })
        + (if has_reported_scores(p) { seq![Stage::ReportedScores] } else { Seq::empty() })
        + seq![Stage::Summarizer]
}

/// The pipeline for a set of analyses: the kills analysis alone; with the
/// identity resolver, the reported scores, or both; or all four. Any other set
/// has none.
pub open spec fn select_spec(ops: Set<EventAnalyserOperations>) -> Option<Pipeline> {
    let m = ops.contains(EventAnalyserOperations::MeansOfDeath);
    let k = ops.contains(EventAnalyserOperations::Kills);
    let p = ops.contains(EventAnalyserOperations::PlayerIdsAndNickNamesResolutions);
    let s = ops.contains(EventAnalyserOperations::GameReportedScores);
    if !k {
        None
    } else if !m && !p && !s {
        Some(Pipeline::Kills)
    } else if !m && p && !s {
        Some(Pipeline::KillsAndPlayerIds)
    } else if !m && !p && s {
        Some(Pipeline::KillsAndReportedScores)
    } else if !m && p && s {
        Some(Pipeline::KillsPlayerIdsAndReportedScores)
    } else if m && p && s {
        Some(Pipeline::Full)
    } else {
        None
    }
}

proof fn lemma_push_contains(s: Seq<EventAnalyserOperations>, x: EventAnalyserOperations, v: EventAnalyserOperations)
    ensures
        s.push(x).contains(v) == (s.contains(v) || x == v),
{
    if s.contains(v) {
        let j = choose|j: int| 0 <= j < s.len() && s[j] == v;
        assert(s.push(x)[j] == v);
    }
    if x == v {
        assert(s.push(x)[s.len() as int] == v);
    }
    if s.push(x).contains(v) {
        let j = choose|j: int| 0 <= j < s.len() + 1 && s.push(x)[j] == v;
        if j < s.len() {
            assert(s[j] == v);
        }
    }
}

/// Picks the pipeline for the analyses in `ops`, before any event is read.
pub fn select_pipeline(ops: &Vec<EventAnalyserOperations>) -> (r: Result<Pipeline, ConfigError>)
    ensures
        match select_spec(ops@.to_set()) {
            Some(p) => r == Ok::<Pipeline, ConfigError>(p),
            None => r == Err::<Pipeline, ConfigError>(ConfigError::UnknownCombination),
        },
{
    let mut m = false;
    let mut k = false;
    let mut p = false;
    let mut s = false;
    let mut i: usize = 0;
    while i < ops.len()
        invariant
            i <= ops.len(),
            m == ops@.take(i as int).contains(EventAnalyserOperations::MeansOfDeath),
            k == ops@.take(i as int).contains(EventAnalyserOperations::Kills),
            p == ops@.take(i as int).contains(EventAnalyserOperations::PlayerIdsAndNickNamesResolutions),
            s == ops@.take(i as int).contains(EventAnalyserOperations::GameReportedScores),
        decreases ops.len() - i,
    {
        let ghost before = ops@.take(i as int);
        assert(ops@.take(i + 1) =~= before.push(ops@[i as int]));
        proof {
            lemma_push_contains(before, ops@[i as int], EventAnalyserOperations::MeansOfDeath);
            lemma_push_contains(before, ops@[i as int], EventAnalyserOperations::Kills);
            lemma_push_contains(before, ops@[i as int], EventAnalyserOperations::PlayerIdsAndNickNamesResolutions);
            lemma_push_contains(before, ops@[i as int], EventAnalyserOperations::GameReportedScores);
        }
        match ops[i] {
            EventAnalyserOperations::MeansOfDeath => m = true,
            EventAnalyserOperations::Kills => k = true,
            EventAnalyserOperations::PlayerIdsAndNickNamesResolutions => p = true,
            EventAnalyserOperations::GameReportedScores => s = true,
        }
        i += 1;
    }
    assert(ops@.take(ops.len() as int) =~= ops@);
    if !k {
        Err(ConfigError::UnknownCombination)
    } else if !m && !p && !s {
        Ok(Pipeline::Kills)
    } else if !m && p && !s {
        Ok(Pipeline::KillsAndPlayerIds)
    } else if !m && !p && s {
        Ok(Pipeline::KillsAndReportedScores)
    } else if !m && p && s {
        Ok(Pipeline::KillsPlayerIdsAndReportedScores)
    } else if m && p && s {
        Ok(Pipeline::Full)
    } else {
        Err(ConfigError::UnknownCombination)
    }
}

/// The state of a run, as the model sees it.
pub struct RunView {
    pub composer: LifecycleComposer,
    pub table: IdentityTable,
    pub current: Option<SummaryView>,
}

impl RunView {
    /// The state before the first event.
    pub open spec fn initial() -> RunView {
        RunView {
            composer: LifecycleComposer { in_game: false, graceful_game_end: false },
            table: Seq::empty(),
            current: None,
        }
    }
}

/// One composite event through the stages after the composer (and after the
/// means-of-death analysis): kills, identity resolver, reported scores, summarizer.
pub open spec fn downstream(p: Pipeline, check_names: bool, st: RunView, e: CompositeView) -> (RunView, Seq<ItemView>) {
    let k = kills_spec(e);
    let (t, o) = if has_player_ids(p) { resolve_spec(st.table, k, check_names) } else { (st.table, Some(k)) };
    match o {
        None => (RunView { table: t, ..st }, Seq::empty()),
        Some(x) => {
            let y = if has_reported_scores(p) { reported_scores_spec(x) } else { x };
            let (cur, out) = summarize_step(st.current, y);
            (RunView { table: t, current: cur, ..st }, match out {
                Some(item) => seq![item],
                None => Seq::empty(),
            })
        },
    }
}

/// A sequence of composite events through [downstream], in order.
pub open spec fn downstream_all(p: Pipeline, check_names: bool, st: RunView, es: Seq<CompositeView>) -> (RunView, Seq<ItemView>)
    decreases es.len(),
{
    if es.len() == 0 {
        (st, Seq::empty())
    } else {
        let (mid, first) = downstream_all(p, check_names, st, es.drop_last());
        let (last, second) = downstream(p, check_names, mid, es.last());
        (last, first + second)
    }
}

/// One raw event through the whole pipeline: the state after it and the items
/// it yields.
pub open spec fn feed_spec(p: Pipeline, check_names: bool, st: RunView, e: Quake3EventView) -> (RunView, Seq<ItemView>) {
    let (composer, o) = compose_spec(st.composer, e);
    let st1 = RunView { composer, ..st };
    match o {
        None => (st1, Seq::empty()),
        Some(c) => downstream_all(
            p,
            check_names,
            st1,
            if has_means_of_death(p) { means_of_death_spec(c) } else { seq![c] },
        ),
    }
}

/// A whole feed through the pipeline.
pub open spec fn run_spec(p: Pipeline, check_names: bool, st: RunView, es: Seq<Quake3EventView>) -> (RunView, Seq<ItemView>)
    decreases es.len(),
{
    if es.len() == 0 {
        (st, Seq::empty())
    } else {
        let (mid, first) = run_spec(p, check_names, st, es.drop_last());
        let (last, second) = feed_spec(p, check_names, mid, es.last());
        (last, first + second)
    }
}

pub open spec fn items_view(v: Seq<Result<GameMatchSummary, SummaryError>>) -> Seq<ItemView> {
    v.map_values(|r: Result<GameMatchSummary, SummaryError>| result_view(r))
}

/// An assembled pipeline in the middle of a feed.
pub struct PipelineRun {
    pub pipeline: Pipeline,
    pub check_names: bool,
    pub composer: LifecycleComposer,
    pub resolver: PlayerIdentityResolver,
    pub summarizer: Summarizer,
}

impl PipelineRun {
    pub open spec fn state(&self) -> RunView {
        RunView {
            composer: self.composer,
            table: self.resolver.table(),
            current: opt_summary_view(self.summarizer.current),
        }
    }

    pub open spec fn wf(&self) -> bool {
        self.resolver.wf() && self.summarizer.wf()
    }

    /// A run of `pipeline` before the first event.
    pub fn new(pipeline: Pipeline, check_names: bool) -> (r: PipelineRun)
        ensures
            r.wf(),
            r.pipeline == pipeline,
            r.check_names == check_names,
            r.state() == RunView::initial(),
    {
        PipelineRun {
            pipeline,
            check_names,
            composer: LifecycleComposer::new(),
            resolver: PlayerIdentityResolver::new(),
            summarizer: Summarizer::new(),
        }
    }

    /// One composite event through the stages after the composer.
    fn downstream(&mut self, e: CompositeEvent, out: &mut Vec<Result<GameMatchSummary, SummaryError>>)
        requires
            old(self).wf(),
        ensures
            final(self).wf(),
            final(self).pipeline == old(self).pipeline,
            final(self).check_names == old(self).check_names,
            ({
                let (st, items) = downstream(old(self).pipeline, old(self).check_names, old(self).state(), e@);
                &&& final(self).state() == st
                &&& items_view(final(out)@) == items_view(old(out)@) + items
            }),
    {
        let k = kills(e);
        let resolved = if self.pipeline == Pipeline::KillsAndPlayerIds
            || self.pipeline == Pipeline::KillsPlayerIdsAndReportedScores
            || self.pipeline == Pipeline::Full {
            self.resolver.resolve(k, self.check_names)
        } else {
            Some(k)
        };
        let ghost o = opt_event_view(resolved);
        match resolved {
            None => {
                assert(items_view(out@) =~= items_view(old(out)@) + Seq::<ItemView>::empty());
            },
            Some(x) => {
                let y = if self.pipeline == Pipeline::KillsAndReportedScores
                    || self.pipeline == Pipeline::KillsPlayerIdsAndReportedScores
                    || self.pipeline == Pipeline::Full {
                    game_reported_scores(x)
                } else {
                    x
                };
                let item = self.summarizer.summarize(y);
                match item {
                    Some(i) => {
                        let ghost iv = result_view(i);
                        out.push(i);
                        assert(items_view(out@) =~= items_view(old(out)@) + seq![iv]);
                    },
                    None => {
                        assert(items_view(out@) =~= items_view(old(out)@) + Seq::<ItemView>::empty());
                    },
                }
            },
        }
    }

    /// One raw event through the whole pipeline; returns the items it completes.
    pub fn feed(&mut self, event: Quake3Events) -> (r: Vec<Result<GameMatchSummary, SummaryError>>)
        requires
            old(self).wf(),
        ensures
            final(self).wf(),
            final(self).pipeline == old(self).pipeline,
            final(self).check_names == old(self).check_names,
            ({
                let (st, items) = feed_spec(old(self).pipeline, old(self).check_names, old(self).state(), event@);
                &&& final(self).state() == st
                &&& items_view(r@) == items
            }),
    {
        let mut out: Vec<Result<GameMatchSummary, SummaryError>> = Vec::new();
        assert(items_view(out@) =~= Seq::<ItemView>::empty());
        let c = match self.composer.compose(event) {
            None => {
                return out;
            },
            Some(c) => c,
        };
        let mut queue = if self.pipeline == Pipeline::Full {
            means_of_death(c)
        } else {
            let mut q: Vec<CompositeEvent> = Vec::new();
            q.push(c);
            assert(q@.map_values(|x: CompositeEvent| x@) =~= seq![c@]);
            q
        };
        let ghost es = queue@.map_values(|x: CompositeEvent| x@);
        let ghost st1 = self.state();
        let ghost mut done: int = 0;
        assert(es.take(0) =~= Seq::<CompositeView>::empty());
        while queue.len() > 0
            invariant
                self.wf(),
                self.pipeline == old(self).pipeline,
                self.check_names == old(self).check_names,
                0 <= done <= es.len(),
                queue@.map_values(|x: CompositeEvent| x@) =~= es.skip(done),
                ({
                    let (st, items) = downstream_all(self.pipeline, self.check_names, st1, es.take(done));
                    &&& self.state() == st
                    &&& items_view(out@) == items
                }),
            decreases queue.len(),
        {
            let ghost qv = queue@.map_values(|x: CompositeEvent| x@);
            assert(qv.len() == queue@.len());
            assert(qv[0] == es[done]);
            let ghost oldq = queue@;
            let e = queue.remove(0);
            assert(e@ == es[done]);
            assert forall|j: int| 0 <= j < queue@.len() implies queue@[j]@ == es.skip(done + 1)[j] by {
                assert(queue@[j] == oldq[j + 1]);
                assert(qv[j + 1] == oldq[j + 1]@);
            }
            assert(es.take(done + 1).drop_last() =~= es.take(done));
            self.downstream(e, &mut out);
            proof {
                done = done + 1;
            }
            assert(queue@.map_values(|x: CompositeEvent| x@) =~= es.skip(done));
        }
        assert(queue@.map_values(|x: CompositeEvent| x@).len() == queue@.len());
        assert(es.take(done) =~= es);
        out
    }
}

/// The summarization logic, configured once.
pub struct SummaryLogic {
    pub config: Config,
}

impl SummaryLogic {
    pub fn new(config: Config) -> (r: SummaryLogic)
        ensures
            r.config == config,
    {
        SummaryLogic { config }
    }

    /// Assembles the pipeline that the configuration selects, or fails before
    /// any event is processed.
    pub fn start(&self) -> (r: Result<PipelineRun, ConfigError>)
        ensures
            match select_spec(self.config.processor_pipeline@.to_set()) {
                Some(p) => r matches Ok(run) && run.wf() && run.pipeline == p
                    && run.check_names == self.config.stop_on_event_model_violations
                    && run.state() == RunView::initial(),
                None => r == Err::<PipelineRun, ConfigError>(ConfigError::UnknownCombination),
            },
    {
        match select_pipeline(&self.config.processor_pipeline) {
            Ok(p) => Ok(PipelineRun::new(p, self.config.stop_on_event_model_violations)),
            Err(e) => Err(e),
        }
    }

    /// Summarizes a whole feed: one item per match that ended, or per error.
    pub fn summarize_games(&self, events: Vec<Quake3Events>) -> (r: Result<Vec<Result<GameMatchSummary, SummaryError>>, ConfigError>)
        ensures
            match select_spec(self.config.processor_pipeline@.to_set()) {
                Some(p) => r matches Ok(items) && items_view(items@) == run_spec(
                    p,
                    self.config.stop_on_event_model_violations,
                    RunView::initial(),
                    events@.map_values(|e: Quake3Events| e@),
                ).1,
                None => r == Err::<Vec<Result<GameMatchSummary, SummaryError>>, ConfigError>(ConfigError::UnknownCombination),
            },
    {
        let mut run = match self.start() {
            Ok(run) => run,
            Err(e) => {
                return Err(e);
            },
        };
        let ghost p = run.pipeline;
        let ghost check = run.check_names;
        let ghost es = events@.map_values(|e: Quake3Events| e@);
        let mut events = events;
        let mut out: Vec<Result<GameMatchSummary, SummaryError>> = Vec::new();
        let ghost mut done: int = 0;
        assert(es.take(0) =~= Seq::<Quake3EventView>::empty());
        assert(items_view(out@) =~= Seq::<ItemView>::empty());
        while events.len() > 0
            invariant
                run.wf(),
                run.pipeline == p,
                run.check_names == check,
                0 <= done <= es.len(),
                events@.map_values(|e: Quake3Events| e@) =~= es.skip(done),
                ({
                    let (st, items) = run_spec(p, check, RunView::initial(), es.take(done));
                    &&& run.state() == st
                    &&& items_view(out@) == items
                }),
            decreases events.len(),
        {
            let ghost ev = events@.map_values(|e: Quake3Events| e@);
            assert(ev.len() == events@.len());
            assert(ev[0] == es[done]);
            let ghost olde = events@;
            let e = events.remove(0);
            assert(e@ == es[done]);
            assert forall|j: int| 0 <= j < events@.len() implies events@[j]@ == es.skip(done + 1)[j] by {
                assert(events@[j] == olde[j + 1]);
                assert(ev[j + 1] == olde[j + 1]@);
            }
            assert(es.take(done + 1).drop_last() =~= es.take(done));
            let items = run.feed(e);
            let ghost before = items_view(out@);
            let mut items = items;
            let ghost added = items_view(items@);
            out.append(&mut items);
            assert(items_view(out@) =~= before + added);
            proof {
                done = done + 1;
            }
            assert(events@.map_values(|e: Quake3Events| e@) =~= es.skip(done));
        }
        assert(events@.map_values(|e: Quake3Events| e@).len() == events@.len());
        assert(es.take(done) =~= es);
        Ok(out)
    }
}

} // verus!
