//! The matching of connectors to CRTCs: a deterministic, greedy first fit in
//! the order in which the device reports its resources.

use super::registry::UdevHandlerImpl;
use super::resources::{lemma_no_connection_no_candidate, Candidate, DrmResources};
use crate::output::FlutterEngineOptions;
use vstd::prelude::*;

verus! {

/// No two bindings share a CRTC, and no two share a connector.
pub open spec fn is_injective(bindings: Seq<Candidate>) -> bool {
    forall|i: int, j: int|
        0 <= i < j < bindings.len() ==> bindings[i].crtc != bindings[j].crtc
            && bindings[i].connector != bindings[j].connector
}

/// Some binding holds this CRTC.
pub open spec fn claims(bindings: Seq<Candidate>, crtc: u32) -> bool {
    exists|i: int| 0 <= i < bindings.len() && bindings[i].crtc == crtc
}

/// Some binding is on this connector.
pub open spec fn binds(bindings: Seq<Candidate>, connector: u32) -> bool {
    exists|i: int| 0 <= i < bindings.len() && bindings[i].connector == connector
}

/// The candidate can still be bound: its CRTC is free, and its connector has no
/// output yet.
pub open spec fn admits(bindings: Seq<Candidate>, candidate: Candidate) -> bool {
    !claims(bindings, candidate.crtc) && !binds(bindings, candidate.connector)
}

/// The position of the first candidate at or after `from` that the bindings
/// admit; the number of candidates if there is none.
pub open spec fn next_admitted(candidates: Seq<Candidate>, bindings: Seq<Candidate>, from: nat)
    -> nat
    decreases candidates.len() - from,
{
    if from >= candidates.len() {
        candidates.len()
    } else if admits(bindings, candidates[from as int]) {
        from
    } else {
        next_admitted(candidates, bindings, from + 1)
    }
}

/// The bindings of one device, keyed by CRTC. Under every CRTC stands at most
/// one output, and every output stands under one CRTC.
#[derive(Debug, PartialEq, Eq)]
pub struct OutputMap {
    bindings: Vec<Candidate>,
}

impl View for OutputMap {
    type V = Seq<Candidate>;

    /// The bindings, in the order in which they were made.
    closed spec fn view(&self) -> Seq<Candidate> {
        self.bindings@
    }
}

impl OutputMap {
    #[verifier::type_invariant]
    spec fn inv(self) -> bool {
        is_injective(self.bindings@)
    }

    /// A map without bindings.
    pub fn new() -> (map: OutputMap)
        ensures
            map@ == Seq::<Candidate>::empty(),
    {
        OutputMap { bindings: Vec::new() }
    }

    /// The bindings, in the order in which they were made. No two of them share
    /// a CRTC or a connector.
    pub fn bindings(&self) -> (bindings: &Vec<Candidate>)
        ensures
            bindings@ == self@,
            is_injective(bindings@),
    {
        proof {
            use_type_invariant(self);
        }
        &self.bindings
    }

    /// Number of bindings.
    pub fn len(&self) -> (n: usize)
        ensures
            n == self@.len(),
    {
        self.bindings.len()
    }

    /// The binding under `crtc`, if there is one.
    pub fn get(&self, crtc: u32) -> (found: Option<Candidate>)
        ensures
            found is Some <==> claims(self@, crtc),
            found is Some ==> found->Some_0.crtc == crtc && self@.contains(found->Some_0),
    {
        let n = self.bindings.len();
        let mut i: usize = 0;
        while i < n
            invariant
                i <= n,
                n == self.bindings@.len(),
                forall|j: int| 0 <= j < i ==> self.bindings@[j].crtc != crtc,
            decreases n - i,
        {
            if self.bindings[i].crtc == crtc {
                return Some(self.bindings[i]);
            }
            i += 1;
        }
        None
    }

    /// Whether `candidate` can still be bound.
    pub fn admits(&self, candidate: &Candidate) -> (r: bool)
        ensures
            r == admits(self@, *candidate),
    {
        let n = self.bindings.len();
        let mut i: usize = 0;
        while i < n
            invariant
                i <= n,
                n == self.bindings@.len(),
                forall|j: int|
                    0 <= j < i ==> self.bindings@[j].crtc != candidate.crtc
                        && self.bindings@[j].connector != candidate.connector,
            decreases n - i,
        {
            if self.bindings[i].crtc == candidate.crtc || self.bindings[i].connector
                == candidate.connector {
                return false;
            }
            i += 1;
        }
        true
    }

    /// Binds `candidate`, unless its CRTC is claimed or its connector bound.
    pub fn insert(&mut self, candidate: Candidate) -> (inserted: bool)
        ensures
            inserted == admits(old(self)@, candidate),
            inserted ==> final(self)@ == old(self)@.push(candidate),
            !inserted ==> final(self)@ == old(self)@,
    {
        proof {
            use_type_invariant(&*self);
        }
        if self.admits(&candidate) {
            let mut bindings: Vec<Candidate> = Vec::new();
            core::mem::swap(&mut self.bindings, &mut bindings);
            bindings.push(candidate);
            core::mem::swap(&mut self.bindings, &mut bindings);
            true
        } else {
            false
        }
    }

    /// Takes the binding under `crtc` out of the map, if there is one. The
    /// other bindings stay, in their order.
    pub fn remove(&mut self, crtc: u32) -> (removed: Option<Candidate>)
        ensures
            removed is Some <==> claims(old(self)@, crtc),
            removed is Some ==> removed->Some_0.crtc == crtc && old(self)@.contains(
                removed->Some_0,
            ),
            final(self)@ == old(self)@.filter(|b: Candidate| b.crtc != crtc),
    {
        proof {
            use_type_invariant(&*self);
        }
        let n = self.bindings.len();
        let mut i: usize = 0;
        while i < n
            invariant
                i <= n,
                n == self.bindings@.len(),
                self.bindings@ == old(self).bindings@,
                is_injective(self.bindings@),
                forall|j: int| 0 <= j < i ==> self.bindings@[j].crtc != crtc,
            decreases n - i,
        {
            if self.bindings[i].crtc == crtc {
                let mut bindings: Vec<Candidate> = Vec::new();
                core::mem::swap(&mut self.bindings, &mut bindings);
                let removed = bindings.remove(i);
                core::mem::swap(&mut self.bindings, &mut bindings);
                proof {
                    lemma_filter_one(old(self).bindings@, i as int, crtc);
                }
                return Some(removed);
            }
            i += 1;
        }
        proof {
            lemma_filter_none(old(self).bindings@, crtc);
        }
        None
    }
}

/// Filtering out a CRTC that no binding holds changes nothing.
proof fn lemma_filter_none(bindings: Seq<Candidate>, crtc: u32)
    requires
        forall|j: int| 0 <= j < bindings.len() ==> bindings[j].crtc != crtc,
    ensures
        bindings.filter(|b: Candidate| b.crtc != crtc) == bindings,
    decreases bindings.len(),
{
    reveal(Seq::filter);
    if bindings.len() > 0 {
        lemma_filter_none(bindings.drop_last(), crtc);
    }
}

/// Filtering out the CRTC of the one binding that holds it removes that
/// binding.
proof fn lemma_filter_one(bindings: Seq<Candidate>, at: int, crtc: u32)
    requires
        0 <= at < bindings.len(),
        bindings[at].crtc == crtc,
        forall|j: int| 0 <= j < bindings.len() && j != at ==> bindings[j].crtc != crtc,
    ensures
        bindings.filter(|b: Candidate| b.crtc != crtc) == bindings.remove(at),
    decreases bindings.len(),
{
    reveal(Seq::filter);
    let last = bindings.len() - 1;
    if at == last {
        lemma_filter_none(bindings.drop_last(), crtc);
    } else {
        lemma_filter_one(bindings.drop_last(), at, crtc);
    }
}

/// The policy of the embedding program: which devices to use, and whether and
/// how to put an output on a CRTC. Implemented by the embedding program.
pub trait UdevOutputManagerHandler {
    /// What the program wants to run once an engine exists.
    type Callback;

    /// Whether the device at `path` is one to drive outputs with.
    fn should_use_gpu(&self, path: &str) -> bool;

    /// Asked once for every candidate whose CRTC and connector are free: the
    /// options for an output there, or `None` to decline.
    fn configure_output(&self) -> Option<FlutterEngineOptions<Self::Callback>>;
}

/// A scan under way: the candidates of a device, how far they have been
/// considered, and the bindings made so far.
///
/// The scan names the next candidate that can still be bound
/// ([`ConnectorScan::next_candidate`]); the policy's answer for it goes to
/// [`ConnectorScan::decide`].
pub struct ConnectorScan {
    candidates: Vec<Candidate>,
    cursor: usize,
    outputs: OutputMap,
    awaiting: bool,
}

impl ConnectorScan {
    #[verifier::type_invariant]
    spec fn inv(self) -> bool {
        &&& self.cursor <= self.candidates@.len()
        &&& self.awaiting ==> self.cursor < self.candidates@.len() && admits(
            self.outputs@,
            self.candidates@[self.cursor as int],
        )
    }

    /// The candidates that this scan goes through.
    pub closed spec fn candidates(self) -> Seq<Candidate> {
        self.candidates@
    }

    /// How many candidates are dealt with.
    pub closed spec fn cursor(self) -> nat {
        self.cursor as nat
    }

    /// The bindings made so far, with those the scan began with.
    pub closed spec fn outputs(self) -> Seq<Candidate> {
        self.outputs@
    }

    /// Whether the candidate at the cursor waits for the policy's answer.
    pub closed spec fn awaiting(self) -> bool {
        self.awaiting
    }

    /// Begins the scan of a device that has no outputs yet.
    pub fn new(resources: &DrmResources) -> (scan: ConnectorScan)
        ensures
            scan.candidates() == resources.candidates(),
            scan.cursor() == 0,
            scan.outputs() == Seq::<Candidate>::empty(),
            !scan.awaiting(),
    {
        ConnectorScan {
            candidates: resources.list_candidates(),
            cursor: 0,
            outputs: OutputMap::new(),
            awaiting: false,
        }
    }

    /// Begins the scan of a device that holds `existing` outputs. The scan
    /// leaves them as they are and considers only CRTCs and connectors that
    /// they leave free.
    pub fn resume(resources: &DrmResources, existing: OutputMap) -> (scan: ConnectorScan)
        ensures
            scan.candidates() == resources.candidates(),
            scan.cursor() == 0,
            scan.outputs() == existing@,
            !scan.awaiting(),
    {
        ConnectorScan {
            candidates: resources.list_candidates(),
            cursor: 0,
            outputs: existing,
            awaiting: false,
        }
    }

    /// Moves on to the next candidate whose CRTC and connector are free, and
    /// returns it: the policy is to be asked about it. `None` means that the
    /// scan is over.
    pub fn next_candidate(&mut self) -> (next: Option<Candidate>)
        ensures
            final(self).candidates() == old(self).candidates(),
            final(self).outputs() == old(self).outputs(),
            final(self).cursor() == next_admitted(
                old(self).candidates(),
                old(self).outputs(),
                old(self).cursor(),
            ),
            final(self).awaiting() == next is Some,
            next is Some <==> final(self).cursor() < old(self).candidates().len(),
            next is Some ==> next->Some_0 == old(self).candidates()[final(self).cursor() as int],
    {
        proof {
            use_type_invariant(&*self);
        }
        let n = self.candidates.len();
        let mut at: usize = self.cursor;
        while at < n && !self.outputs.admits(&self.candidates[at])
            invariant
                at <= n,
                n == self.candidates@.len(),
                next_admitted(self.candidates@, self.outputs@, at as nat) == next_admitted(
                    self.candidates@,
                    self.outputs@,
                    self.cursor as nat,
                ),
            decreases n - at,
        {
            at += 1;
        }
        if at < n {
            let next = self.candidates[at];
            self.cursor = at;
            self.awaiting = true;
            Some(next)
        } else {
            self.cursor = at;
            self.awaiting = false;
            None
        }
    }

    /// Takes the policy's answer for the candidate that
    /// [`ConnectorScan::next_candidate`] returned: the candidate is bound if it
    /// was accepted, and passed over if it was declined. Without a candidate
    /// waiting for an answer, nothing changes.
    pub fn decide(&mut self, accepted: bool)
        ensures
            final(self).candidates() == old(self).candidates(),
            !final(self).awaiting(),
            old(self).awaiting() ==> old(self).cursor() < old(self).candidates().len()
                && final(self).cursor() == old(self).cursor() + 1,
            old(self).awaiting() && accepted ==> final(self).outputs() == old(self).outputs().push(
                old(self).candidates()[old(self).cursor() as int],
            ),
            old(self).awaiting() && !accepted ==> final(self).outputs() == old(self).outputs(),
            !old(self).awaiting() ==> final(self).outputs() == old(self).outputs()
                && final(self).cursor() == old(self).cursor(),
    {
        proof {
            use_type_invariant(&*self);
        }
        if self.awaiting && self.cursor < self.candidates.len() {
            let candidate = self.candidates[self.cursor];
            self.awaiting = false;
            if accepted {
                let mut outputs = OutputMap::new();
                core::mem::swap(&mut self.outputs, &mut outputs);
                outputs.insert(candidate);
                core::mem::swap(&mut self.outputs, &mut outputs);
            }
            self.cursor = self.cursor + 1;
        }
    }

    /// Ends the scan and hands out the bindings. No two of them share a CRTC or
    /// a connector.
    pub fn finish(self) -> (outputs: OutputMap)
        ensures
            outputs@ == self.outputs(),
            is_injective(outputs@),
    {
        proof {
            use_type_invariant(&self.outputs);
        }
        self.outputs
    }
}

/// Where a scan stands after the policy has given `answers`, one for each
/// candidate it was asked about, in order: the bindings and the cursor. `None`
/// where there are more answers than the scan has questions.
pub open spec fn progress(
    candidates: Seq<Candidate>,
    existing: Seq<Candidate>,
    answers: Seq<bool>,
) -> Option<(Seq<Candidate>, nat)>
    decreases answers.len(),
{
    if answers.len() == 0 {
        Some((existing, 0nat))
    } else {
        match progress(candidates, existing, answers.drop_last()) {
            None => None,
            Some((bindings, cursor)) => {
                let at = next_admitted(candidates, bindings, cursor);
                if at >= candidates.len() {
                    None
                } else if answers.last() {
                    Some((bindings.push(candidates[at as int]), at + 1))
                } else {
                    Some((bindings, at + 1))
                }
            },
        }
    }
}

/// `outputs` is what the greedy first fit makes of `candidates` and `existing`
/// bindings when the policy answers with `answers`: every answer was asked for,
/// and no question is left.
pub open spec fn is_scan_outcome(
    candidates: Seq<Candidate>,
    existing: Seq<Candidate>,
    answers: Seq<bool>,
    outputs: Seq<Candidate>,
) -> bool {
    match progress(candidates, existing, answers) {
        None => false,
        Some((bindings, cursor)) => bindings == outputs && next_admitted(
            candidates,
            bindings,
            cursor,
        ) >= candidates.len(),
    }
}

/// `outputs` is the outcome of a greedy first fit over `candidates`, starting
/// from the `existing` bindings, for some answers of the policy.
pub open spec fn is_greedy_scan(
    candidates: Seq<Candidate>,
    existing: Seq<Candidate>,
    outputs: Seq<Candidate>,
) -> bool {
    exists|answers: Seq<bool>| is_scan_outcome(candidates, existing, answers, outputs)
}

/// The next candidate that can be bound is at or after the place the search
/// starts from, and within the candidates or just past them.
pub proof fn lemma_next_admitted_bounds(
    candidates: Seq<Candidate>,
    bindings: Seq<Candidate>,
    from: nat,
)
    requires
        from <= candidates.len(),
    ensures
        from <= next_admitted(candidates, bindings, from) <= candidates.len(),
        next_admitted(candidates, bindings, from) < candidates.len() ==> admits(
            bindings,
            candidates[next_admitted(candidates, bindings, from) as int],
        ),
    decreases candidates.len() - from,
{
    if from < candidates.len() && !admits(bindings, candidates[from as int]) {
        lemma_next_admitted_bounds(candidates, bindings, from + 1);
    }
}

/// A binding that the bindings admit can join them without breaking
/// injectivity.
pub proof fn lemma_admitted_keeps_injective(bindings: Seq<Candidate>, candidate: Candidate)
    requires
        is_injective(bindings),
        admits(bindings, candidate),
    ensures
        is_injective(bindings.push(candidate)),
{
}

/// Whatever the policy answers, a scan never makes two outputs share a CRTC or
/// a connector, and its cursor stays within the candidates.
pub proof fn lemma_scan_is_injective(
    candidates: Seq<Candidate>,
    existing: Seq<Candidate>,
    answers: Seq<bool>,
)
    requires
        is_injective(existing),
        progress(candidates, existing, answers) is Some,
    ensures
        is_injective(progress(candidates, existing, answers)->Some_0.0),
        progress(candidates, existing, answers)->Some_0.1 <= candidates.len(),
    decreases answers.len(),
{
    if answers.len() > 0 {
        lemma_scan_is_injective(candidates, existing, answers.drop_last());
        let (bindings, cursor) = progress(candidates, existing, answers.drop_last())->Some_0;
        lemma_next_admitted_bounds(candidates, bindings, cursor);
    }
}

/// Every output of a scan was there before the scan or is one of the
/// candidates, and the outputs that were there before are all still there, in
/// front and in their order.
pub proof fn lemma_scan_binds_candidates(
    candidates: Seq<Candidate>,
    existing: Seq<Candidate>,
    answers: Seq<bool>,
)
    requires
        progress(candidates, existing, answers) is Some,
    ensures
        ({
            let bindings = progress(candidates, existing, answers)->Some_0.0;
            &&& existing.len() <= bindings.len() <= existing.len() + answers.len()
            &&& bindings.subrange(0, existing.len() as int) == existing
            &&& forall|k: int|
                existing.len() <= k < bindings.len() ==> candidates.contains(#[trigger] bindings[k])
        }),
    decreases answers.len(),
{
    if answers.len() > 0 {
        lemma_scan_binds_candidates(candidates, existing, answers.drop_last());
    }
}

/// A device without candidates gets no new output: its scan asks nothing and
/// leaves the bindings as they were.
pub proof fn lemma_scan_without_candidates(existing: Seq<Candidate>, outputs: Seq<Candidate>)
    requires
        is_greedy_scan(Seq::<Candidate>::empty(), existing, outputs),
    ensures
        outputs == existing,
{
    // the answers of which `outputs` is the outcome: there are none, for the
    // scan has no question
    let answers = choose|answers: Seq<bool>|
        is_scan_outcome(Seq::<Candidate>::empty(), existing, answers, outputs);
}

/// The first candidate of a device without outputs is the first to be asked
/// about, and it is bound if the policy accepts it: the first output of the
/// scan is then on the first candidate, in the order of the device.
pub proof fn lemma_first_candidate_wins(candidates: Seq<Candidate>, answers: Seq<bool>)
    requires
        answers.len() > 0,
        answers[0],
        progress(candidates, Seq::<Candidate>::empty(), answers) is Some,
    ensures
        candidates.len() > 0,
        progress(candidates, Seq::<Candidate>::empty(), answers)->Some_0.0.len() > 0,
        progress(candidates, Seq::<Candidate>::empty(), answers)->Some_0.0[0] == candidates[0],
    decreases answers.len(),
{
    if answers.len() == 1 {
        // the scan stood at the first candidate, with nothing bound, before
        // the only answer
        assert(progress(candidates, Seq::<Candidate>::empty(), answers.drop_last()) == Some(
            (Seq::<Candidate>::empty(), 0nat),
        ));
    } else {
        lemma_first_candidate_wins(candidates, answers.drop_last());
    }
}

/// A candidate that the policy declines is passed over, and the scan goes on to
/// the next free candidate: with a first answer of no and a second of yes, the
/// first output of a device without outputs is on its second candidate, where
/// that one is free as well.
pub proof fn lemma_declined_candidate_is_passed_over(
    candidates: Seq<Candidate>,
    answers: Seq<bool>,
)
    requires
        answers.len() >= 2,
        !answers[0],
        answers[1],
        progress(candidates, Seq::<Candidate>::empty(), answers) is Some,
    ensures
        candidates.len() > 1,
        progress(candidates, Seq::<Candidate>::empty(), answers)->Some_0.0.len() > 0,
        progress(candidates, Seq::<Candidate>::empty(), answers)->Some_0.0[0] == candidates[1],
    decreases answers.len(),
{
    if answers.len() == 2 {
        // the scan stood at the first candidate, with nothing bound, before
        // the first answer
        assert(progress(candidates, Seq::<Candidate>::empty(), answers.drop_last().drop_last())
            == Some((Seq::<Candidate>::empty(), 0nat)));
    } else {
        lemma_declined_candidate_is_passed_over(candidates, answers.drop_last());
    }
}

/// For each of the handler's results, whether it accepted the candidate.
pub open spec fn answers_of<C>(results: Seq<Option<FlutterEngineOptions<C>>>) -> Seq<bool> {
    Seq::new(results.len(), |i: int| results[i] is Some)
}

/// The options among the handler's results, in the order in which they were
/// given.
pub open spec fn accepted_options<C>(results: Seq<Option<FlutterEngineOptions<C>>>) -> Seq<
    FlutterEngineOptions<C>,
>
    decreases results.len(),
{
    if results.len() == 0 {
        Seq::empty()
    } else {
        let before = accepted_options(results.drop_last());
        match results.last() {
            Some(options) => before.push(options),
            None => before,
        }
    }
}

/// `outputs` and `options` are what a scan of `candidates` yields when the
/// handler is asked once for every candidate that is free at its turn and
/// returns `results`, in this order: each result is one that the handler can
/// return, the outputs are the outcome of the greedy first fit for these
/// answers, and the options are those that the handler gave.
pub open spec fn is_scan_by<H: UdevOutputManagerHandler>(
    handler: &H,
    candidates: Seq<Candidate>,
    results: Seq<Option<FlutterEngineOptions<H::Callback>>>,
    outputs: Seq<Candidate>,
    options: Seq<FlutterEngineOptions<H::Callback>>,
) -> bool {
    &&& forall|i: int|
        0 <= i < results.len() ==> call_ensures(
            H::configure_output,
            (handler,),
            #[trigger] results[i],
        )
    &&& is_scan_outcome(candidates, Seq::<Candidate>::empty(), answers_of(results), outputs)
    &&& options == accepted_options(results)
}

impl UdevHandlerImpl {
    /// Scans a device that has no outputs: every candidate whose CRTC and
    /// connector are free is put to the handler, in the order of the device,
    /// and bound if the handler has options for it.
    ///
    /// Returns the bindings and, for each of them in the same order, the
    /// options that the handler gave.
    pub fn scan_connectors<H: UdevOutputManagerHandler>(device: &DrmResources, handler: &H) -> (found:
        (OutputMap, Vec<FlutterEngineOptions<H::Callback>>))
        ensures
            exists|results: Seq<Option<FlutterEngineOptions<H::Callback>>>| #[trigger]
                is_scan_by(handler, device.candidates(), results, found.0@, found.1@),
            is_greedy_scan(device.candidates(), Seq::<Candidate>::empty(), found.0@),
            is_injective(found.0@),
            found.1@.len() == found.0@.len(),
            device.candidates().len() == 0 ==> found.0@.len() == 0,
            (forall|i: int|
                0 <= i < device.connectors@.len() ==> !(device.connectors@[i].state is Connected))
                ==> found.0@.len() == 0,
    {
        proof {
            if forall|i: int|
                0 <= i < device.connectors@.len() ==> !(device.connectors@[i].state is Connected) {
                lemma_no_connection_no_candidate(*device, device.connectors@.len());
            }
        }
        let mut scan = ConnectorScan::new(device);
        let mut options: Vec<FlutterEngineOptions<H::Callback>> = Vec::new();
        let ghost candidates = device.candidates();
        let ghost existing = Seq::<Candidate>::empty();
        let ghost mut results: Seq<Option<FlutterEngineOptions<H::Callback>>> = Seq::empty();
        let ghost mut asked_from: nat = 0;
        let mut next = scan.next_candidate();
        while next.is_some()
            invariant
                scan.candidates() == candidates,
                progress(candidates, existing, answers_of(results)) == Some(
                    (scan.outputs(), asked_from),
                ),
                forall|i: int|
                    0 <= i < results.len() ==> call_ensures(
                        H::configure_output,
                        (handler,),
                        #[trigger] results[i],
                    ),
                options@ == accepted_options(results),
                asked_from <= candidates.len(),
                scan.cursor() == next_admitted(candidates, scan.outputs(), asked_from),
                scan.cursor() <= candidates.len(),
                scan.awaiting() == next is Some,
                next is Some <==> scan.cursor() < candidates.len(),
                options@.len() == scan.outputs().len(),
                candidates.len() == 0 ==> scan.outputs().len() == 0,
            decreases candidates.len() - scan.cursor(),
        {
            let ghost before = results;
            let ghost at = scan.cursor();
            let result = handler.configure_output();
            proof {
                results = before.push(result);
                assert(results.drop_last() =~= before);
                assert(answers_of(results).drop_last() =~= answers_of(before));
            }
            match result {
                Some(accepted) => {
                    scan.decide(true);
                    options.push(accepted);
                },
                None => {
                    scan.decide(false);
                },
            }
            proof {
                asked_from = at + 1;
                lemma_next_admitted_bounds(candidates, scan.outputs(), asked_from);
            }
            next = scan.next_candidate();
        }
        let ghost bound = scan.outputs();
        let outputs = scan.finish();
        proof {
            use_type_invariant(&outputs);
            assert(is_scan_outcome(candidates, existing, answers_of(results), bound));
        }
        let found = (outputs, options);
        // the results of the handler are the witness
        assert(is_scan_by(handler, device.candidates(), results, found.0@, found.1@));
        found
    }
}

} // verus!
