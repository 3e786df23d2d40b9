//! The traverser: feeds each visited entry through the filter, normalizes
//! accepted paths to their display form, deduplicates against the displays
//! already emitted, and hands novel candidates to the channel. A bounded
//! sub-walk is requested for every target match. The whole behaviour is
//! pinned down by the functional model `run_spec`.

use vstd::prelude::*;
use crate::channel::CandidateChannel;
use crate::filter::{decide, decide_spec, DecisionV, FilterDecision};
use crate::text::{display_of, str_eq, tilde_display};
use crate::types::{Candidate, CandidateV, ConfigV, Entry, EntryV, TraversalConfig};

verus! {

/// The views of a sequence of candidates.
pub open spec fn cand_views(s: Seq<Candidate>) -> Seq<CandidateV> {
    s.map_values(|c: Candidate| c@)
}

/// The display strings of a sequence of candidate views.
pub open spec fn displays_of(s: Seq<CandidateV>) -> Seq<Seq<char>> {
    s.map_values(|c: CandidateV| c.display_path)
}

/// Observable state of one traversal run: the display strings already
/// emitted, and every candidate sent so far.
#[verifier::ext_equal]
pub struct TraceV {
    pub seen: Seq<Seq<char>>,
    pub sent: Seq<CandidateV>,
}

/// Effect of one visited entry on the trace, plus the sub-walk it requests,
/// if any.
#[verifier::ext_equal]
pub struct StepV {
    pub trace: TraceV,
    pub descend: Option<Seq<char>>,
}

/// Effect of a whole run: the final trace and the sub-walk roots requested,
/// in order.
#[verifier::ext_equal]
pub struct RunV {
    pub trace: TraceV,
    pub descents: Seq<Seq<char>>,
}

/// Emission of one accepted path: it is shown in display form, and only a
/// display never emitted before is sent.
pub open spec fn emit_spec(home: Seq<char>, t: TraceV, path: Seq<char>, is_directory: bool) -> TraceV {
    let d = display_of(path, home);
    if t.seen.contains(d) {
        t
    } else {
        TraceV {
            seen: t.seen.push(d),
            sent: t.sent.push(CandidateV { display_path: d, absolute_path: path, is_directory }),
        }
    }
}

/// Effect of one visited entry: entries beyond the depth bound are ignored
/// entirely; otherwise the filter decides, and a target match both emits the
/// matched directory and requests its sub-walk.
pub open spec fn step_spec(cfg: ConfigV, home: Seq<char>, t: TraceV, e: EntryV, in_sub_walk: bool) -> StepV {
    if e.depth > cfg.max_depth {
        StepV { trace: t, descend: None }
    } else {
        match decide_spec(cfg, e, in_sub_walk) {
            DecisionV::Reject => StepV { trace: t, descend: None },
            DecisionV::Accept { path, is_directory } => StepV {
                trace: emit_spec(home, t, path, is_directory),
                descend: None,
            },
            DecisionV::AcceptAndDescend { dir } => StepV {
                trace: emit_spec(home, t, dir, true),
                descend: Some(dir),
            },
        }
    }
}

/// The sub-walk roots one step contributes.
pub open spec fn descend_seq(d: Option<Seq<char>>) -> Seq<Seq<char>> {
    match d {
        Some(p) => seq![p],
        None => Seq::empty(),
    }
}

/// Effect of visiting the entries in order. With the consumer gone
/// (`open == false`) nothing at all happens: the run stops before visiting
/// a single further entry.
pub open spec fn run_spec(
    cfg: ConfigV,
    home: Seq<char>,
    open: bool,
    t: TraceV,
    entries: Seq<EntryV>,
    in_sub_walk: bool,
) -> RunV
    decreases entries.len(),
{
    if !open || entries.len() == 0 {
        RunV { trace: t, descents: Seq::empty() }
    } else {
        let s = step_spec(cfg, home, t, entries[0], in_sub_walk);
        let rest = run_spec(cfg, home, open, s.trace, entries.skip(1), in_sub_walk);
        RunV { trace: rest.trace, descents: descend_seq(s.descend) + rest.descents }
    }
}

/// The entries of a walk whose depth stays within the bound `d`.
pub open spec fn keep_shallow(d: nat, entries: Seq<EntryV>) -> Seq<EntryV>
    decreases entries.len(),
{
    if entries.len() == 0 {
        Seq::empty()
    } else if entries[0].depth <= d {
        seq![entries[0]] + keep_shallow(d, entries.skip(1))
    } else {
        keep_shallow(d, entries.skip(1))
    }
}

/// Law: a traversal never visits an entry deeper than the depth bound.
/// Entries beyond `max_depth` contribute nothing: the run over any entry
/// list equals the run over just its depth-bounded part.
pub proof fn lemma_depth_bound(
    cfg: ConfigV,
    home: Seq<char>,
    open: bool,
    t: TraceV,
    entries: Seq<EntryV>,
    in_sub_walk: bool,
)
    ensures
        run_spec(cfg, home, open, t, entries, in_sub_walk) == run_spec(
            cfg,
            home,
            open,
            t,
            keep_shallow(cfg.max_depth, entries),
            in_sub_walk,
        ),
    decreases entries.len(),
{
    let ks = keep_shallow(cfg.max_depth, entries);
    if !open {
        assert(run_spec(cfg, home, open, t, entries, in_sub_walk) =~= run_spec(
            cfg,
            home,
            open,
            t,
            ks,
            in_sub_walk,
        ));
    } else if entries.len() == 0 {
        assert(ks =~= Seq::<EntryV>::empty());
    } else {
        let e0 = entries[0];
        let s = step_spec(cfg, home, t, e0, in_sub_walk);
        lemma_depth_bound(cfg, home, open, s.trace, entries.skip(1), in_sub_walk);
        if e0.depth > cfg.max_depth {
            assert(s.trace == t);
            assert(descend_seq(s.descend) + run_spec(
                cfg,
                home,
                open,
                t,
                entries.skip(1),
                in_sub_walk,
            ).descents =~= run_spec(cfg, home, open, t, entries.skip(1), in_sub_walk).descents);
            assert(run_spec(cfg, home, open, t, entries, in_sub_walk) =~= run_spec(
                cfg,
                home,
                open,
                t,
                entries.skip(1),
                in_sub_walk,
            ));
        } else {
            let tail = keep_shallow(cfg.max_depth, entries.skip(1));
            assert(ks == seq![e0] + tail);
            assert(ks.len() > 0);
            assert(ks[0] == e0);
            assert(ks.skip(1) =~= tail);
        }
    }
}

/// Displays pairwise distinct.
pub open spec fn distinct_seqs(s: Seq<Seq<char>>) -> bool {
    forall|i: int, j: int| 0 <= i < j < s.len() ==> s[i] != s[j]
}

/// The seen-set is exactly the displays of the sent candidates.
pub open spec fn coupled(t: TraceV) -> bool {
    t.seen == displays_of(t.sent)
}

proof fn lemma_emit_dedup(home: Seq<char>, t: TraceV, path: Seq<char>, is_directory: bool)
    requires
        coupled(t),
        distinct_seqs(t.seen),
    ensures
        coupled(emit_spec(home, t, path, is_directory)),
        distinct_seqs(emit_spec(home, t, path, is_directory).seen),
{
    let d = display_of(path, home);
    if !t.seen.contains(d) {
        let c = CandidateV { display_path: d, absolute_path: path, is_directory };
        assert(displays_of(t.sent.push(c)) =~= displays_of(t.sent).push(d));
        let seen2 = t.seen.push(d);
        assert forall|i: int, j: int| 0 <= i < j < seen2.len() implies seen2[i] != seen2[j] by {
            if j == t.seen.len() {
                assert(seen2[i] == t.seen[i]);
                assert(!t.seen.contains(d));
                assert(t.seen[i] != d);
            }
        }
    }
}

proof fn lemma_step_dedup(cfg: ConfigV, home: Seq<char>, t: TraceV, e: EntryV, in_sub_walk: bool)
    requires
        coupled(t),
        distinct_seqs(t.seen),
    ensures
        coupled(step_spec(cfg, home, t, e, in_sub_walk).trace),
        distinct_seqs(step_spec(cfg, home, t, e, in_sub_walk).trace.seen),
{
    if e.depth <= cfg.max_depth {
        match decide_spec(cfg, e, in_sub_walk) {
            DecisionV::Reject => {},
            DecisionV::Accept { path, is_directory } => {
                lemma_emit_dedup(home, t, path, is_directory);
            },
            DecisionV::AcceptAndDescend { dir } => {
                lemma_emit_dedup(home, t, dir, true);
            },
        }
    }
}

/// Law: no two candidates emitted within one run share a display string.
/// Whenever the seen-set matches the displays sent so far and holds no
/// duplicate, the same is true after visiting any further entries — so a
/// run started from a fresh traverser and a fresh channel never sends the
/// same display twice, however many sibling entries match the target.
pub proof fn lemma_no_duplicate_displays(
    cfg: ConfigV,
    home: Seq<char>,
    open: bool,
    t: TraceV,
    entries: Seq<EntryV>,
    in_sub_walk: bool,
)
    requires
        coupled(t),
        distinct_seqs(t.seen),
    ensures
        coupled(run_spec(cfg, home, open, t, entries, in_sub_walk).trace),
        distinct_seqs(run_spec(cfg, home, open, t, entries, in_sub_walk).trace.seen),
        distinct_seqs(displays_of(run_spec(cfg, home, open, t, entries, in_sub_walk).trace.sent)),
    decreases entries.len(),
{
    if open && entries.len() > 0 {
        let s = step_spec(cfg, home, t, entries[0], in_sub_walk);
        lemma_step_dedup(cfg, home, t, entries[0], in_sub_walk);
        lemma_no_duplicate_displays(cfg, home, open, s.trace, entries.skip(1), in_sub_walk);
    }
}

/// A fresh pipeline — nothing seen, nothing sent — satisfies the dedup
/// invariant, so `lemma_no_duplicate_displays` covers every run that starts
/// from a fresh traverser and a fresh channel.
pub proof fn lemma_fresh_trace_deduplicates()
    ensures
        coupled(TraceV { seen: Seq::empty(), sent: Seq::empty() }),
        distinct_seqs(Seq::empty()),
{
    assert(Seq::<Seq<char>>::empty() =~= displays_of(Seq::<CandidateV>::empty()));
}

/// Law: abandonment is an unconditional stop signal. Once the consumer has
/// closed its receiving end, a traversal run examines no entry, emits no
/// candidate, and requests no sub-walk.
pub proof fn lemma_abandoned_consumer_stops(
    cfg: ConfigV,
    home: Seq<char>,
    t: TraceV,
    entries: Seq<EntryV>,
    in_sub_walk: bool,
)
    ensures
        run_spec(cfg, home, false, t, entries, in_sub_walk) == (RunV {
            trace: t,
            descents: Seq::<Seq<char>>::empty(),
        }),
{
    assert(run_spec(cfg, home, false, t, entries, in_sub_walk) =~= RunV {
        trace: t,
        descents: Seq::<Seq<char>>::empty(),
    });
}

/// A run only appends to the emission history: what was sent before it
/// stays sent, in place, in order.
pub proof fn lemma_run_appends(
    cfg: ConfigV,
    home: Seq<char>,
    open: bool,
    t: TraceV,
    entries: Seq<EntryV>,
    in_sub_walk: bool,
)
    ensures
        run_spec(cfg, home, open, t, entries, in_sub_walk).trace.sent.len() >= t.sent.len(),
        run_spec(cfg, home, open, t, entries, in_sub_walk).trace.sent.take(t.sent.len() as int)
            == t.sent,
    decreases entries.len(),
{
    assert(t.sent.take(t.sent.len() as int) =~= t.sent);
    if open && entries.len() > 0 {
        let s = step_spec(cfg, home, t, entries[0], in_sub_walk);
        lemma_run_appends(cfg, home, open, s.trace, entries.skip(1), in_sub_walk);
        assert(s.trace.sent.len() >= t.sent.len());
        assert(s.trace.sent.take(t.sent.len() as int) =~= t.sent);
        let r = run_spec(cfg, home, open, t, entries, in_sub_walk);
        assert(r.trace.sent.take(s.trace.sent.len() as int).take(t.sent.len() as int) =~= r.trace.sent.take(
            t.sent.len() as int,
        ));
    }
}

/// What the driver of one step is told to do next.
pub enum StepOutcome {
    /// Go on with the next entry.
    Continue,
    /// Go on, and also sub-walk this directory (feeding its entries back
    /// with `in_sub_walk` set).
    DescendInto(String),
    /// The consumer is gone: abandon the rest of the walk.
    Stop,
}

/// Result of running the traverser over a list of entries.
pub struct RunResult {
    /// Sub-walk roots requested, in order.
    pub descents: Vec<String>,
    /// Whether the run stopped because the consumer was gone.
    pub stopped: bool,
    /// How many of the entries were examined.
    pub examined: usize,
}

/// The traversal state: its immutable configuration, the home directory used
/// for display normalization, and the displays emitted so far.
pub struct Traverser {
    pub config: TraversalConfig,
    pub home: String,
    pub seen: Vec<String>,
}

/// Whether a display string is among those already seen.
fn seen_contains(seen: &Vec<String>, d: &str) -> (r: bool)
    ensures
        r == seen.deep_view().contains(d@),
{
    let mut i: usize = 0;
    while i < seen.len()
        invariant
            i <= seen@.len(),
            forall|k: int| 0 <= k < i ==> seen.deep_view()[k] != d@,
        decreases seen@.len() - i,
    {
        proof {
            assert(seen.deep_view()[i as int] == seen@[i as int]@);
        }
        if str_eq(seen[i].as_str(), d) {
            assert(seen.deep_view()[i as int] == d@);
            return true;
        }
        i += 1;
    }
    proof {
        assert(forall|k: int| 0 <= k < seen.deep_view().len() ==> seen.deep_view()[k] != d@);
    }
    false
}

impl Traverser {
    /// The trace this traverser forms together with a channel it has been
    /// emitting into.
    pub open spec fn trace_with(self, ch: CandidateChannel) -> TraceV {
        TraceV { seen: self.seen.deep_view(), sent: cand_views(ch.sent()) }
    }

    /// A fresh traverser: nothing seen yet.
    pub fn new(config: TraversalConfig, home: String) -> (t: Self)
        ensures
            t.config == config,
            t.home == home,
            t.seen.deep_view() == Seq::<Seq<char>>::empty(),
    {
        let t = Traverser { config, home, seen: Vec::new() };
        proof {
            assert(t.seen.deep_view() =~= Seq::<Seq<char>>::empty());
        }
        t
    }

    /// Emits one accepted path: normalizes it to display form, drops it if
    /// that display was already emitted, and sends it otherwise.
    fn emit(&mut self, path: String, is_directory: bool, chan: &mut CandidateChannel)
        requires
            old(chan).wf(),
            !old(chan).producer_done(),
            old(chan).consumer_open(),
        ensures
            final(chan).wf(),
            !final(chan).producer_done(),
            final(chan).consumer_open(),
            final(chan).taken() == old(chan).taken(),
            final(self).config == old(self).config,
            final(self).home == old(self).home,
            final(self).trace_with(*final(chan)) == emit_spec(
                old(self).home@,
                old(self).trace_with(*old(chan)),
                path@,
                is_directory,
            ),
    {
        let ghost t0 = old(self).trace_with(*old(chan));
        let disp = tilde_display(path.as_str(), self.home.as_str());
        if seen_contains(&self.seen, disp.as_str()) {
            proof {
                assert(final(self).trace_with(*final(chan)) =~= t0);
            }
        } else {
            let ghost seen0 = self.seen.deep_view();
            let ghost sent0 = chan.sent();
            self.seen.push(disp.clone());
            let c = Candidate { display_path: disp, absolute_path: path, is_directory };
            let ghost cv = c@;
            let ok = chan.send(c);
            proof {
                assert(self.seen.deep_view() =~= seen0.push(cv.display_path));
                assert(cand_views(chan.sent()) =~= cand_views(sent0).push(cv));
                assert(final(self).trace_with(*final(chan)) =~= emit_spec(
                    old(self).home@,
                    t0,
                    path@,
                    is_directory,
                ));
            }
        }
    }

    /// Feeds one visited entry through the filter and the channel. The
    /// consumer's absence is detected before anything else and stops the
    /// walk; an entry beyond the depth bound has no effect at all.
    pub fn offer(&mut self, e: &Entry, in_sub_walk: bool, chan: &mut CandidateChannel) -> (r:
        StepOutcome)
        requires
            old(chan).wf(),
            !old(chan).producer_done(),
        ensures
            final(chan).wf(),
            !final(chan).producer_done(),
            final(chan).consumer_open() == old(chan).consumer_open(),
            final(chan).taken() == old(chan).taken(),
            final(self).config == old(self).config,
            final(self).home == old(self).home,
            !old(chan).consumer_open() ==> {
                &&& r is Stop
                &&& *final(self) == *old(self)
                &&& *final(chan) == *old(chan)
            },
            old(chan).consumer_open() ==> ({
                let s = step_spec(
                    old(self).config@,
                    old(self).home@,
                    old(self).trace_with(*old(chan)),
                    e@,
                    in_sub_walk,
                );
                &&& final(self).trace_with(*final(chan)) == s.trace
                &&& (match r {
                    StepOutcome::Continue => s.descend is None,
                    StepOutcome::DescendInto(d) => s.descend == Some(d@),
                    StepOutcome::Stop => false,
                })
            }),
    {
        if !chan.is_open_for_send() {
            return StepOutcome::Stop;
        }
        if e.depth > self.config.max_depth {
            return StepOutcome::Continue;
        }
        let d = decide(&self.config, e, in_sub_walk);
        match d {
            FilterDecision::Reject => StepOutcome::Continue,
            FilterDecision::Accept { path, is_directory } => {
                self.emit(path, is_directory, chan);
                StepOutcome::Continue
            },
            FilterDecision::AcceptAndDescend { dir } => {
                self.emit(dir.clone(), true, chan);
                StepOutcome::DescendInto(dir)
            },
        }
    }

    /// Runs the traverser over a list of visited entries, in order. If the
    /// consumer is gone the run stops at once: not a single entry is
    /// examined and nothing is emitted.
    pub fn run(&mut self, entries: &Vec<Entry>, in_sub_walk: bool, chan: &mut CandidateChannel)
        -> (r: RunResult)
        requires
            old(chan).wf(),
            !old(chan).producer_done(),
        ensures
            final(chan).wf(),
            !final(chan).producer_done(),
            final(chan).consumer_open() == old(chan).consumer_open(),
            final(chan).taken() == old(chan).taken(),
            final(self).config == old(self).config,
            final(self).home == old(self).home,
            r.stopped == !old(chan).consumer_open(),
            r.stopped ==> r.examined == 0 && *final(self) == *old(self) && *final(chan) == *old(
                chan,
            ),
            !r.stopped ==> r.examined == entries.len(),
            ({
                let rv = run_spec(
                    old(self).config@,
                    old(self).home@,
                    old(chan).consumer_open(),
                    old(self).trace_with(*old(chan)),
                    entries.deep_view(),
                    in_sub_walk,
                );
                &&& final(self).trace_with(*final(chan)) == rv.trace
                &&& r.descents.deep_view() == rv.descents
            }),
    {
        let ghost cfg = self.config@;
        let ghost home = self.home@;
        let ghost ev = entries.deep_view();
        let ghost t0 = old(self).trace_with(*old(chan));
        let ghost full = run_spec(cfg, home, old(chan).consumer_open(), t0, ev, in_sub_walk);
        let mut descents: Vec<String> = Vec::new();
        if !chan.is_open_for_send() {
            proof {
                assert(descents.deep_view() =~= full.descents);
            }
            return RunResult { descents, stopped: true, examined: 0 };
        }
        proof {
            assert(ev.skip(0) =~= ev);
            assert(descents.deep_view() =~= Seq::<Seq<char>>::empty());
            assert(Seq::<Seq<char>>::empty() + full.descents =~= full.descents);
        }
        let mut i: usize = 0;
        while i < entries.len()
            invariant
                chan.wf(),
                !chan.producer_done(),
                chan.consumer_open(),
                chan.taken() == old(chan).taken(),
                self.config == old(self).config,
                self.home == old(self).home,
                cfg == self.config@,
                home == self.home@,
                ev == entries.deep_view(),
                ev.len() == entries@.len(),
                i <= entries@.len(),
                full == run_spec(cfg, home, true, t0, ev, in_sub_walk),
                ({
                    let rest = run_spec(
                        cfg,
                        home,
                        true,
                        self.trace_with(*chan),
                        ev.skip(i as int),
                        in_sub_walk,
                    );
                    &&& full.trace == rest.trace
                    &&& full.descents == descents.deep_view() + rest.descents
                }),
            decreases entries@.len() - i,
        {
            let ghost t_cur = self.trace_with(*chan);
            let ghost rem = ev.skip(i as int);
            proof {
                assert(rem[0] == ev[i as int]);
                assert(ev[i as int] == entries@[i as int]@);
                assert(rem.skip(1) =~= ev.skip(i + 1));
            }
            let out = self.offer(&entries[i], in_sub_walk, chan);
            match out {
                StepOutcome::Stop => {
                    proof {
                        assert(false);
                    }
                },
                StepOutcome::Continue => {
                    proof {
                        let s = step_spec(cfg, home, t_cur, ev[i as int], in_sub_walk);
                        assert(descend_seq(s.descend) =~= Seq::<Seq<char>>::empty());
                        assert(descend_seq(s.descend) + run_spec(
                            cfg,
                            home,
                            true,
                            s.trace,
                            ev.skip(i + 1),
                            in_sub_walk,
                        ).descents =~= run_spec(
                            cfg,
                            home,
                            true,
                            s.trace,
                            ev.skip(i + 1),
                            in_sub_walk,
                        ).descents);
                    }
                },
                StepOutcome::DescendInto(dir) => {
                    let ghost d0 = descents.deep_view();
                    descents.push(dir);
                    proof {
                        let s = step_spec(cfg, home, t_cur, ev[i as int], in_sub_walk);
                        assert(descents.deep_view() =~= d0 + descend_seq(s.descend));
                        assert(d0 + descend_seq(s.descend) + run_spec(
                            cfg,
                            home,
                            true,
                            s.trace,
                            ev.skip(i + 1),
                            in_sub_walk,
                        ).descents =~= d0 + (descend_seq(s.descend) + run_spec(
                            cfg,
                            home,
                            true,
                            s.trace,
                            ev.skip(i + 1),
                            in_sub_walk,
                        ).descents));
                    }
                },
            }
            i += 1;
        }
        proof {
            assert(ev.skip(i as int) =~= Seq::<EntryV>::empty());
            assert(descents.deep_view() + Seq::<Seq<char>>::empty() =~= descents.deep_view());
        }
        RunResult { descents, stopped: false, examined: i }
    }
}

} // verus!
