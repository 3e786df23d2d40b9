//! The selector: an incrementally fed, interactively narrowed list of
//! candidates. Rendering and fuzzy ranking belong to outside collaborators;
//! what is modelled here is the state machine those collaborators drive:
//! which candidates have arrived, the live query, and how each user or
//! stream event ends (or does not end) the session.

use vstd::prelude::*;
use crate::channel::{CandidateChannel, RecvOutcome};
use crate::traverse::cand_views;
use crate::types::{Candidate, CandidateV};

verus! {

/// The terminal outcome of one selection session.
pub struct SelectionResult {
    /// The user cancelled: the caller must treat this as "do nothing".
    pub aborted: bool,
    /// The text in the query box when the session ended.
    pub typed_query: String,
    /// The confirmed candidates, possibly empty.
    pub chosen: Vec<Candidate>,
}

/// Mathematical view of a `SelectionResult`.
#[verifier::ext_equal]
pub struct SelectionResultV {
    pub aborted: bool,
    pub typed_query: Seq<char>,
    pub chosen: Seq<CandidateV>,
}

impl View for SelectionResult {
    type V = SelectionResultV;

    open spec fn view(&self) -> SelectionResultV {
        SelectionResultV {
            aborted: self.aborted,
            typed_query: self.typed_query@,
            chosen: self.chosen.deep_view(),
        }
    }
}

/// One thing that can happen to a running selector.
pub enum SelectorEvent {
    /// A candidate arrived from the channel.
    Arrived(Candidate),
    /// The channel closed: the list is complete.
    StreamClosed,
    /// The user edited the query text.
    QueryChanged(String),
    /// The user confirmed, with the highlighted candidates given by their
    /// current list indices, in order.
    Accept(Vec<usize>),
    /// The user cancelled.
    Abort,
}

/// The candidates at the given indices, in index order.
pub open spec fn chosen_at(cands: Seq<CandidateV>, idxs: Seq<usize>) -> Seq<CandidateV> {
    idxs.map_values(|i: usize| cands[i as int])
}

/// The selection state machine. It is `Running` until an event produces a
/// result; arrivals never disturb the query the user has typed so far.
pub struct Selector {
    /// The live query text.
    pub query: String,
    /// Every candidate that has arrived, in arrival order.
    pub candidates: Vec<Candidate>,
    /// Whether the stream has closed (the list is complete).
    pub stream_closed: bool,
    /// Whether a terminal result has been produced.
    pub done: bool,
}

impl Selector {
    /// A fresh selector with the initial query text.
    pub fn new(initial_query: String) -> (s: Self)
        ensures
            s.query == initial_query,
            s.candidates.deep_view() == Seq::<CandidateV>::empty(),
            !s.stream_closed,
            !s.done,
    {
        let s = Selector {
            query: initial_query,
            candidates: Vec::new(),
            stream_closed: false,
            done: false,
        };
        proof {
            assert(s.candidates.deep_view() =~= Seq::<CandidateV>::empty());
        }
        s
    }

    /// Feeds one event to a running selector. `Some` is a terminal result:
    /// an abort yields an empty choice; a confirmation carries the
    /// highlighted candidates and, for the caller's fallback, the typed
    /// query; and a stream that closes with exactly one candidate ever
    /// arrived auto-confirms that candidate without any keypress.
    pub fn on_event(&mut self, ev: SelectorEvent) -> (r: Option<SelectionResult>)
        requires
            !old(self).done,
            ev is StreamClosed ==> !old(self).stream_closed,
            ev matches SelectorEvent::Accept(idxs) ==> forall|k: int|
                0 <= k < idxs@.len() ==> idxs@[k] < old(self).candidates@.len(),
        ensures
            final(self).done == (r is Some),
            ev matches SelectorEvent::Arrived(c) ==> {
                &&& r is None
                &&& final(self).candidates.deep_view() == old(self).candidates.deep_view().push(
                    c@,
                )
                &&& final(self).query == old(self).query
                &&& final(self).stream_closed == old(self).stream_closed
            },
            ev matches SelectorEvent::QueryChanged(q) ==> {
                &&& r is None
                &&& final(self).query == q
                &&& final(self).candidates == old(self).candidates
                &&& final(self).stream_closed == old(self).stream_closed
            },
            ev is StreamClosed && old(self).candidates@.len() == 1 ==> (r matches Some(res)
                && res@ == (SelectionResultV {
                aborted: false,
                typed_query: old(self).query@,
                chosen: old(self).candidates.deep_view(),
            })) && final(self).query == old(self).query && final(self).candidates == old(
                self,
            ).candidates,
            ev is StreamClosed && old(self).candidates@.len() != 1 ==> {
                &&& r is None
                &&& final(self).stream_closed
                &&& final(self).query == old(self).query
                &&& final(self).candidates == old(self).candidates
            },
            ev is Abort ==> (r matches Some(res) && res@ == (SelectionResultV {
                aborted: true,
                typed_query: old(self).query@,
                chosen: Seq::empty(),
            })),
            ev matches SelectorEvent::Accept(idxs) ==> (r matches Some(res) && res@
                == (SelectionResultV {
                aborted: false,
                typed_query: old(self).query@,
                chosen: chosen_at(old(self).candidates.deep_view(), idxs@),
            })),
    {
        match ev {
            SelectorEvent::Arrived(c) => {
                let ghost cv0 = self.candidates.deep_view();
                self.candidates.push(c);
                proof {
                    assert(self.candidates.deep_view() =~= cv0.push(
                        self.candidates@[cv0.len() as int]@,
                    ));
                }
                None
            },
            SelectorEvent::QueryChanged(q) => {
                self.query = q;
                None
            },
            SelectorEvent::StreamClosed => {
                if self.candidates.len() == 1 {
                    self.done = true;
                    let only = self.candidates[0].clone();
                    let mut chosen: Vec<Candidate> = Vec::new();
                    chosen.push(only);
                    let res = SelectionResult {
                        aborted: false,
                        typed_query: self.query.clone(),
                        chosen,
                    };
                    proof {
                        assert(res.chosen.deep_view() =~= old(self).candidates.deep_view());
                    }
                    Some(res)
                } else {
                    self.stream_closed = true;
                    None
                }
            },
            SelectorEvent::Abort => {
                self.done = true;
                let res = SelectionResult {
                    aborted: true,
                    typed_query: self.query.clone(),
                    chosen: Vec::new(),
                };
                proof {
                    assert(res.chosen.deep_view() =~= Seq::<CandidateV>::empty());
                }
                Some(res)
            },
            SelectorEvent::Accept(idxs) => {
                self.done = true;
                let ghost cands = self.candidates.deep_view();
                let mut chosen: Vec<Candidate> = Vec::new();
                let mut j: usize = 0;
                while j < idxs.len()
                    invariant
                        j <= idxs@.len(),
                        cands == self.candidates.deep_view(),
                        cands.len() == self.candidates@.len(),
                        forall|k: int| 0 <= k < idxs@.len() ==> idxs@[k] < cands.len(),
                        chosen.deep_view() == chosen_at(cands, idxs@.take(j as int)),
                    decreases idxs@.len() - j,
                {
                    let ghost ch0 = chosen.deep_view();
                    chosen.push(self.candidates[idxs[j]].clone());
                    proof {
                        assert(chosen.deep_view() =~= ch0.push(cands[idxs@[j as int] as int]));
                        assert(idxs@.take(j + 1).drop_last() =~= idxs@.take(j as int));
                        assert(chosen_at(cands, idxs@.take(j + 1)) =~= chosen_at(
                            cands,
                            idxs@.take(j as int),
                        ).push(cands[idxs@[j as int] as int]));
                    }
                    j += 1;
                }
                proof {
                    assert(idxs@.take(idxs@.len() as int) =~= idxs@);
                }
                let res = SelectionResult {
                    aborted: false,
                    typed_query: self.query.clone(),
                    chosen,
                };
                Some(res)
            },
        }
    }

    /// Drains every queued candidate from the channel, in order, and
    /// handles the stream's end. Returns a terminal result exactly when the
    /// stream closes with exactly one candidate ever arrived (the
    /// single-match shortcut); otherwise the selector stays interactive.
    pub fn pump(&mut self, chan: &mut CandidateChannel) -> (r: Option<SelectionResult>)
        requires
            !old(self).done,
            old(chan).wf(),
            old(chan).consumer_open(),
            old(self).stream_closed ==> old(chan).taken() == old(chan).sent().len(),
        ensures
            final(chan).wf(),
            final(chan).consumer_open(),
            final(chan).sent() == old(chan).sent(),
            final(chan).producer_done() == old(chan).producer_done(),
            final(chan).taken() == old(chan).sent().len(),
            final(self).query == old(self).query,
            final(self).candidates.deep_view() == old(self).candidates.deep_view() + cand_views(
                old(chan).sent().skip(old(chan).taken() as int),
            ),
            final(self).done == (r is Some),
            ({
                let arrived = old(self).candidates.deep_view() + cand_views(
                    old(chan).sent().skip(old(chan).taken() as int),
                );
                if old(chan).producer_done() && !old(self).stream_closed && arrived.len() == 1 {
                    (r matches Some(res) && res@ == (SelectionResultV {
                        aborted: false,
                        typed_query: old(self).query@,
                        chosen: arrived,
                    }))
                } else {
                    r is None && final(self).stream_closed == (old(self).stream_closed || old(
                        chan,
                    ).producer_done())
                }
            }),
    {
        proof {
            chan.taken_within_sent();
            assert(old(chan).sent().subrange(
                old(chan).taken() as int,
                old(chan).taken() as int,
            ) =~= Seq::<Candidate>::empty());
            assert(self.candidates.deep_view() =~= old(self).candidates.deep_view() + cand_views(
                old(chan).sent().subrange(old(chan).taken() as int, old(chan).taken() as int),
            ));
        }
        loop
            invariant
                chan.wf(),
                chan.consumer_open(),
                chan.sent() == old(chan).sent(),
                chan.producer_done() == old(chan).producer_done(),
                chan.taken() >= old(chan).taken(),
                chan.taken() <= chan.sent().len(),
                !self.done,
                self.stream_closed == old(self).stream_closed,
                self.stream_closed ==> chan.taken() == chan.sent().len(),
                self.query == old(self).query,
                self.candidates.deep_view() == old(self).candidates.deep_view() + cand_views(
                    old(chan).sent().subrange(old(chan).taken() as int, chan.taken() as int),
                ),
            decreases chan.sent().len() - chan.taken() + 1,
        {
            let ghost taken0 = chan.taken();
            match chan.try_recv() {
                RecvOutcome::Item(c) => {
                    let _ = self.on_event(SelectorEvent::Arrived(c));
                    proof {
                        chan.taken_within_sent();
                        let lo = old(chan).taken() as int;
                        assert(old(chan).sent().subrange(lo, taken0 as int + 1) =~= old(
                            chan,
                        ).sent().subrange(lo, taken0 as int).push(old(chan).sent()[taken0 as int]));
                        assert(cand_views(old(chan).sent().subrange(lo, taken0 as int + 1))
                            =~= cand_views(old(chan).sent().subrange(lo, taken0 as int)).push(
                            old(chan).sent()[taken0 as int]@,
                        ));
                        assert(self.candidates.deep_view() =~= old(self).candidates.deep_view()
                            + cand_views(
                            old(chan).sent().subrange(lo, chan.taken() as int),
                        ));
                    }
                },
                RecvOutcome::Pending => {
                    proof {
                        assert(old(chan).sent().subrange(
                            old(chan).taken() as int,
                            chan.taken() as int,
                        ) =~= old(chan).sent().skip(old(chan).taken() as int));
                    }
                    return None;
                },
                RecvOutcome::Done => {
                    proof {
                        assert(old(chan).sent().subrange(
                            old(chan).taken() as int,
                            chan.taken() as int,
                        ) =~= old(chan).sent().skip(old(chan).taken() as int));
                    }
                    if self.stream_closed {
                        return None;
                    }
                    let res = self.on_event(SelectorEvent::StreamClosed);
                    return res;
                },
            }
        }
    }
}

} // verus!
