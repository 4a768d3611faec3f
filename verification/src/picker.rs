//! Quick-Focus Picker: assigns a mnemonic symbol to each candidate window,
//! tracks the label overlays that were actually shown, resolves incoming
//! input events to an outcome, and guarantees that teardown destroys every
//! overlay it created, on every exit path.
//!
//! The picker is a pure state machine. The surrounding program owns the
//! protocol connection: it acquires the keyboard grab, draws each label,
//! blocks on the event stream, and feeds everything it learns into these
//! functions as plain values.

use vstd::prelude::*;

use crate::alphabet::{lemma_mnemonics_distinct, mnemonic_at, spec_mnemonic, ALPHABET_SIZE};
use crate::grab::acquire_from_responses;
use crate::keys::{resolve_key, spec_resolve_key, KeyResolution};

verus! {

/// One planned mnemonic: the symbol to draw and the candidate window it
/// selects.
#[derive(Clone, Copy, Debug, PartialEq, Eq, Structural)]
pub struct Assignment {
    /// The mnemonic symbol.
    pub symbol: char,
    /// The candidate window the symbol stands for.
    pub window: u32,
}

/// One label overlay that was actually shown: its symbol, the candidate
/// window it is anchored to, and the overlay surface handle to destroy at
/// teardown.
#[derive(Clone, Copy, Debug, PartialEq, Eq, Structural)]
pub struct LabelOverlay {
    /// The mnemonic symbol drawn on the overlay.
    pub symbol: char,
    /// The candidate window the overlay selects.
    pub window: u32,
    /// The overlay surface handle.
    pub overlay: u32,
}

/// Why a pick never started.
#[derive(Clone, Copy, Debug, PartialEq, Eq, Structural)]
pub enum UnavailableReason {
    /// There was no candidate window to label.
    NoCandidates,
    /// The server denied the keyboard grab on every attempt.
    GrabDenied,
}

/// How one pick ends.
#[derive(Clone, Copy, Debug, PartialEq, Eq, Structural)]
pub enum PickerOutcome {
    /// The user chose this candidate window.
    Resolved(u32),
    /// The user cancelled, the device mapping changed, or the event stream
    /// ended.
    Cancelled,
    /// The pick never started, for the carried reason.
    Unavailable(UnavailableReason),
}

/// One raw event of the picker's modal loop, as the surrounding program
/// classified it.
#[derive(Clone, Copy, Debug, PartialEq, Eq, Structural)]
pub enum PickerEvent {
    /// A key was pressed; carries the raw device key code.
    KeyPress(u8),
    /// A key was released.
    KeyRelease,
    /// A label surface needs its paint re-issued.
    Expose,
    /// The input device's key mapping changed mid-session.
    MappingChanged,
    /// Any other protocol event.
    Other,
    /// The event stream ended (connection closed).
    StreamClosed,
}

/// What the event loop must do after one event.
#[derive(Clone, Copy, Debug, PartialEq, Eq, Structural)]
pub enum PickerStep {
    /// Keep blocking for the next event.
    KeepWaiting,
    /// Re-issue the paint of the exposed label, then keep waiting.
    Redraw,
    /// Leave the loop with this outcome.
    Finish(PickerOutcome),
}

/// The number of candidates that get a mnemonic: all of them, capped at
/// the alphabet size. Candidates beyond the cap are left unlabeled.
pub open spec fn spec_label_budget(n_candidates: int) -> int {
    if n_candidates <= ALPHABET_SIZE {
        n_candidates
    } else {
        ALPHABET_SIZE as int
    }
}

/// The planned assignment: candidate `i` gets the `i`-th alphabet symbol,
/// up to the label budget.
pub open spec fn spec_plan(candidates: Seq<u32>) -> Seq<Assignment> {
    Seq::new(
        spec_label_budget(candidates.len() as int) as nat,
        |i: int| Assignment { symbol: spec_mnemonic(i), window: candidates[i] },
    )
}

/// No two recorded labels share a symbol.
pub open spec fn distinct_symbols(labels: Seq<LabelOverlay>) -> bool {
    forall|i: int, j: int|
        0 <= i < j < labels.len() ==> labels[i].symbol != labels[j].symbol
}

/// Some recorded label carries symbol `s`.
pub open spec fn has_symbol(labels: Seq<LabelOverlay>, s: char) -> bool {
    exists|i: int| 0 <= i < labels.len() && labels[i].symbol == s
}

/// The candidate window of the label that carries symbol `s`.
pub open spec fn window_for(labels: Seq<LabelOverlay>, s: char) -> u32 {
    labels[choose|i: int| 0 <= i < labels.len() && labels[i].symbol == s].window
}

/// The overlay surface handles of the recorded labels, in creation order.
pub open spec fn overlays_of(labels: Seq<LabelOverlay>) -> Seq<u32> {
    labels.map(|i: int, l: LabelOverlay| l.overlay)
}

/// What the event loop does with one event, given the recorded labels:
/// the cancel key and a mapping change or stream end finish the pick; a
/// mnemonic with a recorded label resolves its window; every other event
/// leaves the loop waiting.
pub open spec fn spec_handle_event(labels: Seq<LabelOverlay>, ev: PickerEvent) -> PickerStep {
    match ev {
        PickerEvent::KeyPress(code) => match spec_resolve_key(code) {
            KeyResolution::Cancel => PickerStep::Finish(PickerOutcome::Cancelled),
            KeyResolution::Symbol(s) => if has_symbol(labels, s) {
                PickerStep::Finish(PickerOutcome::Resolved(window_for(labels, s)))
            } else {
                PickerStep::KeepWaiting
            },
            KeyResolution::Unmapped => PickerStep::KeepWaiting,
        },
        PickerEvent::KeyRelease => PickerStep::KeepWaiting,
        PickerEvent::Expose => PickerStep::Redraw,
        PickerEvent::MappingChanged => PickerStep::Finish(PickerOutcome::Cancelled),
        PickerEvent::Other => PickerStep::KeepWaiting,
        PickerEvent::StreamClosed => PickerStep::Finish(PickerOutcome::Cancelled),
    }
}

/// The outcome of the modal loop over a whole event script: the outcome of
/// the first finishing event, or `Cancelled` if the script ends first (the
/// stream closed).
pub open spec fn spec_loop_outcome(labels: Seq<LabelOverlay>, events: Seq<PickerEvent>) -> PickerOutcome
    decreases events.len(),
{
    if events.len() == 0 {
        PickerOutcome::Cancelled
    } else {
        match spec_handle_event(labels, events[0]) {
            PickerStep::Finish(o) => o,
            _ => spec_loop_outcome(labels, events.drop_first()),
        }
    }
}

/// Law: when the cancel key arrives, the loop finishes with `Cancelled`,
/// whatever labels are recorded and whatever events would have followed.
pub proof fn lemma_cancel_key_cancels(labels: Seq<LabelOverlay>, code: u8, rest: Seq<PickerEvent>)
    requires
        spec_resolve_key(code) == KeyResolution::Cancel,
    ensures
        spec_loop_outcome(labels, seq![PickerEvent::KeyPress(code)] + rest)
            == PickerOutcome::Cancelled,
{
    let evs = seq![PickerEvent::KeyPress(code)] + rest;
    assert(evs[0] == PickerEvent::KeyPress(code));
}

/// Law: a key code outside the resolution table never terminates the
/// loop: the outcome is whatever the remaining events decide.
pub proof fn lemma_unmapped_key_keeps_waiting(
    labels: Seq<LabelOverlay>,
    code: u8,
    rest: Seq<PickerEvent>,
)
    requires
        spec_resolve_key(code) == KeyResolution::Unmapped,
    ensures
        spec_loop_outcome(labels, seq![PickerEvent::KeyPress(code)] + rest) == spec_loop_outcome(
            labels,
            rest,
        ),
{
    let evs = seq![PickerEvent::KeyPress(code)] + rest;
    assert(evs[0] == PickerEvent::KeyPress(code));
    assert(evs.drop_first() =~= rest);
}

/// The labels recorded after offering the first `n` planned assignments,
/// where `shows[i]` is the overlay handle the renderer produced for plan
/// entry `i`, or `None` if that label could not be drawn.
pub open spec fn spec_labels(plan: Seq<Assignment>, shows: Seq<Option<u32>>, n: int) -> Seq<
    LabelOverlay,
>
    decreases n,
{
    if n <= 0 {
        Seq::empty()
    } else {
        let pre = spec_labels(plan, shows, n - 1);
        match shows[n - 1] {
            Some(ov) => pre.push(
                LabelOverlay { symbol: plan[n - 1].symbol, window: plan[n - 1].window, overlay: ov },
            ),
            None => pre,
        }
    }
}

/// Symbol `s` belongs to one of the first `n` plan entries.
pub open spec fn plan_has_symbol(plan: Seq<Assignment>, n: int, s: char) -> bool {
    exists|k: int| 0 <= k < n && (#[trigger] plan[k]).symbol == s
}

/// Every symbol recorded among the first `n` offers comes from a plan
/// entry below `n`.
proof fn lemma_label_symbols_from_plan(plan: Seq<Assignment>, shows: Seq<Option<u32>>, n: int)
    requires
        0 <= n <= plan.len(),
    ensures
        forall|j: int|
            0 <= j < spec_labels(plan, shows, n).len() ==> plan_has_symbol(
                plan,
                n,
                (#[trigger] spec_labels(plan, shows, n)[j]).symbol,
            ),
    decreases n,
{
    if n > 0 {
        lemma_label_symbols_from_plan(plan, shows, n - 1);
        let pre = spec_labels(plan, shows, n - 1);
        let cur = spec_labels(plan, shows, n);
        assert forall|j: int| 0 <= j < cur.len() implies plan_has_symbol(
            plan,
            n,
            (#[trigger] cur[j]).symbol,
        ) by {
            if j < pre.len() {
                assert(cur[j] == pre[j]);
                assert(plan_has_symbol(plan, n - 1, pre[j].symbol));
                let k0 = choose|k: int| 0 <= k < n - 1 && (#[trigger] plan[k]).symbol == pre[j].symbol;
                assert(0 <= k0 < n && plan[k0].symbol == cur[j].symbol);
            } else {
                assert(cur[j].symbol == plan[n - 1].symbol);
            }
        }
    }
}

/// Assigns mnemonics to the candidates, in candidate order: candidate `i`
/// gets the `i`-th alphabet symbol. With `N` candidates, exactly
/// `min(N, alphabet size)` mnemonics are assigned, all pairwise distinct,
/// and each assignment carries its source candidate.
pub fn plan_mnemonics(candidates: &Vec<u32>) -> (plan: Vec<Assignment>)
    ensures
        plan@ == spec_plan(candidates@),
        plan@.len() == spec_label_budget(candidates@.len() as int),
        forall|i: int|
            0 <= i < plan@.len() ==> (#[trigger] plan@[i]).symbol == spec_mnemonic(i)
                && plan@[i].window == candidates@[i],
        forall|i: int, j: int|
            0 <= i < j < plan@.len() ==> plan@[i].symbol != plan@[j].symbol,
{
    let n = if candidates.len() < ALPHABET_SIZE {
        candidates.len()
    } else {
        ALPHABET_SIZE
    };
    let mut plan: Vec<Assignment> = Vec::new();
    let mut i: usize = 0;
    while i < n
        invariant
            i <= n,
            n == spec_label_budget(candidates@.len() as int),
            n <= candidates@.len(),
            n <= ALPHABET_SIZE,
            plan@.len() == i,
            forall|k: int|
                0 <= k < i ==> (#[trigger] plan@[k]).symbol == spec_mnemonic(k)
                    && plan@[k].window == candidates@[k],
        decreases n - i,
    {
        let symbol = mnemonic_at(i);
        plan.push(Assignment { symbol, window: candidates[i] });
        i = i + 1;
    }
    proof {
        lemma_mnemonics_distinct();
        assert(plan@ =~= spec_plan(candidates@));
    }
    plan
}

/// The labels of one picker invocation: created at setup, consulted by the
/// event loop, destroyed unconditionally at teardown.
pub struct PickerSession {
    entries: Vec<LabelOverlay>,
}

impl PickerSession {
    /// The labels recorded so far, in creation order.
    pub closed spec fn labels(&self) -> Seq<LabelOverlay> {
        self.entries@
    }

    /// A session is well formed when its symbols are pairwise distinct.
    pub open spec fn wf(&self) -> bool {
        distinct_symbols(self.labels())
    }

    /// A fresh session with no labels.
    pub fn new() -> (s: Self)
        ensures
            s.labels() == Seq::<LabelOverlay>::empty(),
            s.wf(),
    {
        let s = PickerSession { entries: Vec::new() };
        proof {
            assert(s.labels() =~= Seq::<LabelOverlay>::empty());
        }
        s
    }

    /// How many labels were recorded.
    pub fn label_count(&self) -> (n: usize)
        ensures
            n == self.labels().len(),
    {
        self.entries.len()
    }

    /// Records one successfully shown label. The symbol must be new to the
    /// session; mnemonics are assigned at most once per pick.
    pub fn record_label(&mut self, symbol: char, window: u32, overlay: u32)
        requires
            !has_symbol(old(self).labels(), symbol),
        ensures
            final(self).labels() == old(self).labels().push(
                LabelOverlay { symbol, window, overlay },
            ),
            old(self).wf() ==> final(self).wf(),
    {
        proof {
            let l = LabelOverlay { symbol, window, overlay };
            let post = old(self).labels().push(l);
            if distinct_symbols(old(self).labels()) {
                assert forall|i: int, j: int|
                    0 <= i < j < post.len() implies post[i].symbol != post[j].symbol by {
                    if j < post.len() - 1 {
                        assert(post[i] == old(self).labels()[i]);
                        assert(post[j] == old(self).labels()[j]);
                    } else {
                        assert(post[i] == old(self).labels()[i]);
                        assert(post[j].symbol == symbol);
                        if post[i].symbol == symbol {
                            assert(has_symbol(old(self).labels(), symbol));
                        }
                    }
                }
            }
        }
        self.entries.push(LabelOverlay { symbol, window, overlay });
    }

    /// The window recorded for symbol `s`, if any.
    pub fn lookup(&self, s: char) -> (r: Option<u32>)
        requires
            self.wf(),
        ensures
            match r {
                Some(w) => has_symbol(self.labels(), s) && w == window_for(self.labels(), s),
                None => !has_symbol(self.labels(), s),
            },
    {
        let n = self.entries.len();
        let mut i: usize = 0;
        while i < n
            invariant
                self.wf(),
                i <= n,
                n == self.labels().len(),
                forall|k: int| 0 <= k < i ==> (#[trigger] self.labels()[k]).symbol != s,
            decreases n - i,
        {
            if self.entries[i].symbol == s {
                proof {
                    let j = choose|j: int|
                        0 <= j < self.labels().len() && self.labels()[j].symbol == s;
                    if (i as int) < j {
                        assert(self.labels()[i as int].symbol != self.labels()[j].symbol);
                    } else if j < i as int {
                        assert(self.labels()[j].symbol != self.labels()[i as int].symbol);
                    }
                }
                return Some(self.entries[i].window);
            }
            i = i + 1;
        }
        None
    }

    /// Resolves one event of the modal loop against the recorded labels.
    /// The cancel key always finishes with `Cancelled`; an unmapped code,
    /// or a mnemonic whose label was never recorded (alphabet exhausted or
    /// render failed), never finishes the loop.
    pub fn handle_event(&self, ev: PickerEvent) -> (step: PickerStep)
        requires
            self.wf(),
        ensures
            step == spec_handle_event(self.labels(), ev),
    {
        match ev {
            PickerEvent::KeyPress(code) => match resolve_key(code) {
                KeyResolution::Cancel => PickerStep::Finish(PickerOutcome::Cancelled),
                KeyResolution::Symbol(s) => match self.lookup(s) {
                    Some(w) => PickerStep::Finish(PickerOutcome::Resolved(w)),
                    None => PickerStep::KeepWaiting,
                },
                KeyResolution::Unmapped => PickerStep::KeepWaiting,
            },
            PickerEvent::KeyRelease => PickerStep::KeepWaiting,
            PickerEvent::Expose => PickerStep::Redraw,
            PickerEvent::MappingChanged => PickerStep::Finish(PickerOutcome::Cancelled),
            PickerEvent::Other => PickerStep::KeepWaiting,
            PickerEvent::StreamClosed => PickerStep::Finish(PickerOutcome::Cancelled),
        }
    }

    /// Runs the modal loop over a whole event script, as the live loop
    /// runs over the event stream: the first finishing event decides; an
    /// exhausted script means the stream closed, which cancels.
    pub fn run_event_loop(&self, events: &Vec<PickerEvent>) -> (o: PickerOutcome)
        requires
            self.wf(),
        ensures
            o == spec_loop_outcome(self.labels(), events@),
    {
        let n = events.len();
        let mut i: usize = 0;
        proof {
            assert(events@.skip(0) =~= events@);
        }
        while i < n
            invariant
                self.wf(),
                i <= n,
                n == events@.len(),
                spec_loop_outcome(self.labels(), events@) == spec_loop_outcome(
                    self.labels(),
                    events@.skip(i as int),
                ),
            decreases n - i,
        {
            let step = self.handle_event(events[i]);
            proof {
                assert(events@.skip(i as int)[0] == events@[i as int]);
                assert(events@.skip(i as int).drop_first() =~= events@.skip(i as int + 1));
            }
            match step {
                PickerStep::Finish(o) => {
                    return o;
                },
                _ => {},
            }
            i = i + 1;
        }
        proof {
            assert(events@.skip(n as int).len() == 0);
        }
        PickerOutcome::Cancelled
    }

    /// The overlay surface handles to destroy at teardown: every overlay
    /// this session created, each exactly once, in creation order.
    pub fn teardown_overlays(&self) -> (v: Vec<u32>)
        ensures
            v@ == overlays_of(self.labels()),
    {
        let n = self.entries.len();
        let mut v: Vec<u32> = Vec::new();
        let mut i: usize = 0;
        while i < n
            invariant
                i <= n,
                n == self.labels().len(),
                v@.len() == i,
                forall|k: int| 0 <= k < i ==> v@[k] == (#[trigger] self.labels()[k]).overlay,
            decreases n - i,
        {
            v.push(self.entries[i].overlay);
            i = i + 1;
        }
        proof {
            assert(v@ =~= overlays_of(self.labels()));
        }
        v
    }
}

/// Everything one simulated pick did: its outcome, the overlays it
/// created and the overlays it destroyed, and whether the keyboard grab
/// was taken and released.
pub struct PickReport {
    /// How the pick ended.
    pub outcome: PickerOutcome,
    /// Overlay handles created during setup, in creation order.
    pub created: Vec<u32>,
    /// Overlay handles destroyed at teardown, in destruction order.
    pub destroyed: Vec<u32>,
    /// Whether the keyboard grab was acquired.
    pub grab_taken: bool,
    /// Whether the keyboard grab was released again.
    pub grab_released: bool,
}

/// One whole pick against a simulated protocol server, exactly as the
/// live pick runs against the real one: refuse an empty candidate list
/// without grabbing; acquire the grab with bounded retries; assign
/// mnemonics and record the labels the renderer managed to show; run the
/// modal loop over the event script; then, on every path that took the
/// grab, destroy every created overlay and release the grab.
///
/// `grab_responses[i]` answers the `i`-th grab attempt; `show_results[i]`
/// is the overlay handle drawn for plan entry `i`, or `None` where the
/// renderer failed.
pub fn run_pick(
    candidates: &Vec<u32>,
    grab_responses: &Vec<bool>,
    max_attempts: usize,
    show_results: &Vec<Option<u32>>,
    events: &Vec<PickerEvent>,
) -> (rep: PickReport)
    requires
        grab_responses@.len() >= max_attempts,
        show_results@.len() >= spec_label_budget(candidates@.len() as int),
    ensures
        rep.destroyed@ == rep.created@,
        rep.grab_released == rep.grab_taken,
        candidates@.len() == 0 ==> rep.outcome == PickerOutcome::Unavailable(
            UnavailableReason::NoCandidates,
        ) && !rep.grab_taken && rep.created@.len() == 0,
        candidates@.len() > 0 && (forall|i: int|
            0 <= i < max_attempts ==> !grab_responses@[i]) ==> rep.outcome
            == PickerOutcome::Unavailable(UnavailableReason::GrabDenied) && !rep.grab_taken
            && rep.created@.len() == 0,
        candidates@.len() > 0 && !(forall|i: int|
            0 <= i < max_attempts ==> !grab_responses@[i]) ==> {
            let labels = spec_labels(
                spec_plan(candidates@),
                show_results@,
                spec_label_budget(candidates@.len() as int),
            );
            &&& rep.grab_taken
            &&& rep.created@ == overlays_of(labels)
            &&& rep.outcome == spec_loop_outcome(labels, events@)
        },
{
    if candidates.len() == 0 {
        return PickReport {
            outcome: PickerOutcome::Unavailable(UnavailableReason::NoCandidates),
            created: Vec::new(),
            destroyed: Vec::new(),
            grab_taken: false,
            grab_released: false,
        };
    }
    let token = acquire_from_responses(grab_responses, max_attempts);
    if token.is_none() {
        return PickReport {
            outcome: PickerOutcome::Unavailable(UnavailableReason::GrabDenied),
            created: Vec::new(),
            destroyed: Vec::new(),
            grab_taken: false,
            grab_released: false,
        };
    }
    let plan = plan_mnemonics(candidates);
    let mut sess = PickerSession::new();
    let mut created: Vec<u32> = Vec::new();
    let n = plan.len();
    let mut i: usize = 0;
    while i < n
        invariant
            i <= n,
            n == plan@.len(),
            plan@ == spec_plan(candidates@),
            plan@.len() == spec_label_budget(candidates@.len() as int),
            show_results@.len() >= plan@.len(),
            forall|a: int, b: int|
                0 <= a < b < plan@.len() ==> plan@[a].symbol != plan@[b].symbol,
            sess.labels() == spec_labels(plan@, show_results@, i as int),
            sess.wf(),
            created@ == overlays_of(sess.labels()),
        decreases n - i,
    {
        match show_results[i] {
            Some(ov) => {
                proof {
                    lemma_label_symbols_from_plan(plan@, show_results@, i as int);
                    if has_symbol(sess.labels(), plan@[i as int].symbol) {
                        let j = choose|j: int|
                            0 <= j < sess.labels().len() && sess.labels()[j].symbol
                                == plan@[i as int].symbol;
                        assert(plan_has_symbol(plan@, i as int, sess.labels()[j].symbol));
                        let k = choose|k: int|
                            0 <= k < i && (#[trigger] plan@[k]).symbol == sess.labels()[j].symbol;
                        assert(plan@[k].symbol == plan@[i as int].symbol);
                        assert(false);
                    }
                }
                sess.record_label(plan[i].symbol, plan[i].window, ov);
                created.push(ov);
                proof {
                    assert(created@ =~= overlays_of(sess.labels()));
                }
            },
            None => {},
        }
        i = i + 1;
    }
    let outcome = sess.run_event_loop(events);
    let destroyed = sess.teardown_overlays();
    PickReport { outcome, created, destroyed, grab_taken: true, grab_released: true }
}

} // verus!
