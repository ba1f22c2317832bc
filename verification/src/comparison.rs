//! The comparison of several providers on one request: every call settles on
//! its own, and the report is made only when all have settled.

use vstd::prelude::*;
use crate::analysis::{failure_view, AnalysisResult, AnalysisView};
use crate::clock::{fresh_identifier, timestamp_now};
use crate::dispatch::{
    dispatch_single, is_generate_call, is_tuned, prompt_of, provider_id, provider_name, ready,
    Dispatch, GenerateCall, ProviderKind, LOCAL_TIMEOUT_MS,
};
use crate::moondream_manager::{CloudCall, MoondreamManager, ProviderRequest};
use crate::ollama_manager::OllamaStatus;

verus! {

/// One provider's place in a comparison: its identifier, and its result once
/// its call has settled.
struct Slot {
    provider: String,
    result: Option<AnalysisResult>,
}

/// One provider's entry in a report.
pub struct TaggedResult {
    pub provider: String,
    pub result: AnalysisResult,
}

/// The outcome of one request put to several providers at once.
pub struct ComparisonReport {
    pub test_id: String,
    pub timestamp: String,
    pub entries: Vec<TaggedResult>,
    pub total_comparison_time_ms: u64,
}

/// A comparison under way.
pub struct Comparison {
    slots: Vec<Slot>,
}

/// The largest of the times, and zero where there is none.
pub open spec fn slowest(times: Seq<u64>) -> u64
    decreases times.len(),
{
    if times.len() == 0 {
        0
    } else {
        let before = slowest(times.drop_last());
        if times.last() > before {
            times.last()
        } else {
            before
        }
    }
}

/// No time is larger than the slowest.
pub proof fn lemma_slowest_bounds(times: Seq<u64>, i: int)
    requires
        0 <= i < times.len(),
    ensures
        times[i] <= slowest(times),
    decreases times.len(),
{
    if i < times.len() - 1 {
        lemma_slowest_bounds(times.drop_last(), i);
    }
}

/// The wall-clock time of a comparison: the time measured, lifted to the
/// slowest branch where the clocks disagree.
pub open spec fn total_time(measured_ms: u64, times: Seq<u64>) -> u64 {
    if measured_ms > slowest(times) {
        measured_ms
    } else {
        slowest(times)
    }
}

/// The total time of a comparison is no less than the time measured, and no
/// less than the time of any branch.
pub proof fn lemma_total_covers_every_branch(measured_ms: u64, times: Seq<u64>, i: int)
    requires
        0 <= i < times.len(),
    ensures
        total_time(measured_ms, times) >= measured_ms,
        total_time(measured_ms, times) >= times[i],
{
    lemma_slowest_bounds(times, i);
}

/// Settling one place leaves every other place as it was: a branch that
/// settles late, or fails, changes nothing of what an earlier one recorded.
pub proof fn lemma_settling_touches_one_place(
    outcomes: Seq<Option<AnalysisView>>,
    settled: int,
    other: int,
    result: AnalysisView,
)
    requires
        0 <= settled < outcomes.len(),
        0 <= other < outcomes.len(),
        settled != other,
    ensures
        outcomes.update(settled, Some(result)).len() == outcomes.len(),
        outcomes.update(settled, Some(result))[settled] == Some(result),
        outcomes.update(settled, Some(result))[other] == outcomes[other],
{
}

/// The items of a vector in reverse order.
fn reversed<T>(items: Vec<T>) -> (turned: Vec<T>)
    ensures
        turned@.len() == items@.len(),
        forall|k: int| 0 <= k < items@.len() ==> turned@[k] == items@[items@.len() - 1 - k],
{
    let ghost given = items@;
    let mut rest = items;
    let mut turned: Vec<T> = Vec::new();
    while rest.len() > 0
        invariant
            rest@.len() + turned@.len() == given.len(),
            forall|k: int| 0 <= k < rest@.len() ==> rest@[k] == given[k],
            forall|k: int| 0 <= k < turned@.len() ==> turned@[k] == given[given.len() - 1 - k],
        decreases rest@.len(),
    {
        match rest.pop() {
            Some(item) => {
                turned.push(item);
            },
            None => {},
        }
    }
    turned
}

impl ComparisonReport {
    /// The providers of the entries, in order.
    pub open spec fn providers(&self) -> Seq<Seq<char>> {
        Seq::new(self.entries@.len(), |i: int| self.entries@[i].provider@)
    }

    /// The results of the entries, in order.
    pub open spec fn results(&self) -> Seq<AnalysisView> {
        Seq::new(self.entries@.len(), |i: int| self.entries@[i].result@)
    }

    /// The elapsed times of the entries, in order.
    pub open spec fn times(&self) -> Seq<u64> {
        Seq::new(self.entries@.len(), |i: int| self.entries@[i].result.processing_time_ms)
    }

    /// The total time is no less than the time of any entry.
    pub open spec fn wf(&self) -> bool {
        forall|i: int| 0 <= i < self.entries@.len() ==> (#[trigger] self.times()[i])
            <= self.total_comparison_time_ms
    }
}

impl Comparison {
    /// The providers compared, in order.
    pub closed spec fn providers(&self) -> Seq<Seq<char>> {
        Seq::new(self.slots@.len(), |i: int| self.slots@[i].provider@)
    }

    /// What each provider's call came to, once it has settled.
    pub closed spec fn outcomes(&self) -> Seq<Option<AnalysisView>> {
        Seq::new(
            self.slots@.len(),
            |i: int|
                match self.slots@[i].result {
                    Some(result) => Some(result@),
                    None => None,
                },
        )
    }

    /// Every provider has its place.
    pub open spec fn wf(&self) -> bool {
        self.providers().len() == self.outcomes().len()
    }

    /// Every call has settled.
    pub open spec fn complete(&self) -> bool {
        forall|i: int| 0 <= i < self.outcomes().len() ==> (#[trigger] self.outcomes()[i]) is Some
    }

    /// A comparison of the given providers, none of whose calls has settled.
    pub fn begin(providers: &Vec<String>) -> (comparison: Comparison)
        ensures
            comparison.wf(),
            comparison.providers() == Seq::new(providers@.len(), |i: int| providers@[i]@),
            comparison.outcomes() == Seq::new(
                providers@.len(),
                |i: int| None::<AnalysisView>,
            ),
    {
        let mut slots: Vec<Slot> = Vec::new();
        let n: usize = providers.len();
        let mut i: usize = 0;
        while i < n
            invariant
                n == providers@.len(),
                0 <= i <= n,
                slots@.len() == i,
                forall|k: int| 0 <= k < i ==> (#[trigger] slots@[k]).provider@ == providers@[k]@,
                forall|k: int| 0 <= k < i ==> (#[trigger] slots@[k]).result is None,
            decreases n - i,
        {
            slots.push(Slot { provider: providers[i].clone(), result: None });
            i += 1;
        }
        let comparison = Comparison { slots };
        proof {
            assert(comparison.providers() =~= Seq::new(providers@.len(), |i: int| providers@[i]@));
            let blank = Seq::new(providers@.len(), |i: int| None::<AnalysisView>);
            assert forall|k: int| 0 <= k < blank.len() implies comparison.outcomes()[k]
                == blank[k] by {
                assert(comparison.slots@[k].result is None);
            }
            assert(comparison.outcomes() =~= blank);
        }
        comparison
    }

    /// The number of providers compared.
    pub fn len(&self) -> (n: usize)
        ensures
            n == self.providers().len(),
            n == self.outcomes().len(),
    {
        self.slots.len()
    }

    /// Records what the call of the provider at `index` came to. A call
    /// settles once: for a place that is not there, or that holds a result,
    /// nothing changes. The other places are never touched.
    pub fn settle(&mut self, index: usize, result: AnalysisResult) -> (accepted: bool)
        ensures
            accepted == (index < old(self).outcomes().len() && old(self).outcomes()[index as int]
                is None),
            final(self).providers() == old(self).providers(),
            final(self).wf(),
            accepted ==> final(self).outcomes() == old(self).outcomes().update(
                index as int,
                Some(result@),
            ),
            !accepted ==> final(self).outcomes() == old(self).outcomes(),
    {
        if index >= self.slots.len() {
            return false;
        }
        if self.slots[index].result.is_some() {
            return false;
        }
        let provider = self.slots[index].provider.clone();
        self.slots.set(index, Slot { provider, result: Some(result) });
        proof {
            assert(self.providers() =~= old(self).providers());
            assert(self.outcomes() =~= old(self).outcomes().update(index as int, Some(result@)));
        }
        true
    }

    /// Has every call settled?
    pub fn is_complete(&self) -> (complete: bool)
        ensures
            complete == self.complete(),
    {
        let n: usize = self.slots.len();
        let mut i: usize = 0;
        while i < n
            invariant
                n == self.slots@.len(),
                0 <= i <= n,
                forall|k: int| 0 <= k < i ==> self.slots@[k].result is Some,
            decreases n - i,
        {
            if self.slots[i].result.is_none() {
                proof {
                    assert(self.outcomes()[i as int] is None);
                }
                return false;
            }
            i += 1;
        }
        proof {
            assert forall|k: int| 0 <= k < self.outcomes().len() implies (
            #[trigger] self.outcomes()[k]) is Some by {
                assert(self.slots@[k].result is Some);
            }
        }
        true
    }

    /// The report of a comparison all of whose calls have settled: one entry
    /// for each provider, in order, holding what its call came to, and a
    /// total time that is no less than the time of any entry. A comparison
    /// with a call still under way makes no report and is handed back.
    pub fn finish(self, measured_ms: u64, test_id: String, timestamp: String) -> (outcome: Result<
        ComparisonReport,
        Comparison,
    >)
        ensures
            outcome is Ok <==> self.complete(),
            match outcome {
                Ok(report) => self.is_report(report, measured_ms, test_id@, timestamp@),
                Err(unfinished) => unfinished == self,
            },
    {
        if !self.is_complete() {
            return Err(self);
        }
        Ok(self.assemble(measured_ms, test_id, timestamp))
    }

    /// The report holds one entry for each provider, in order, with what its
    /// call came to, the total time of the comparison, and the identifier and
    /// timestamp given.
    pub open spec fn is_report(
        &self,
        report: ComparisonReport,
        measured_ms: u64,
        test_id: Seq<char>,
        timestamp: Seq<char>,
    ) -> bool {
        &&& report.providers() == self.providers()
        &&& report.results().len() == self.outcomes().len()
        &&& forall|i: int|
            0 <= i < report.results().len() ==> self.outcomes()[i] == Some(
                #[trigger] report.results()[i],
            )
        &&& report.total_comparison_time_ms == total_time(measured_ms, report.times())
        &&& report.test_id@ == test_id
        &&& report.timestamp@ == timestamp
        &&& report.wf()
    }

    /// The report of a comparison all of whose calls have settled.
    fn assemble(self, measured_ms: u64, test_id: String, timestamp: String) -> (report:
        ComparisonReport)
        requires
            self.complete(),
        ensures
            self.is_report(report, measured_ms, test_id@, timestamp@),
    {
        let ghost given = self.slots@;
        proof {
            assert forall|k: int| 0 <= k < given.len() implies given[k].result is Some by {
                assert(self.outcomes()[k] is Some);
            }
        }
        let mut backwards = reversed(self.slots);
        let mut entries: Vec<TaggedResult> = Vec::new();
        while backwards.len() > 0
            invariant
                backwards@.len() + entries@.len() == given.len(),
                forall|k: int| 0 <= k < given.len() ==> given[k].result is Some,
                forall|k: int|
                    0 <= k < backwards@.len() ==> backwards@[k] == given[given.len() - 1 - k],
                forall|k: int|
                    0 <= k < entries@.len() ==> entries@[k].provider == given[k].provider
                        && given[k].result == Some(entries@[k].result),
            decreases backwards@.len(),
        {
            match backwards.pop() {
                Some(slot) => {
                    match slot.result {
                        Some(result) => {
                            entries.push(TaggedResult { provider: slot.provider, result });
                        },
                        None => {},
                    }
                },
                None => {},
            }
        }
        let n: usize = entries.len();
        let ghost times = Seq::new(
            entries@.len(),
            |i: int| entries@[i].result.processing_time_ms,
        );
        let mut total: u64 = measured_ms;
        let mut i: usize = 0;
        while i < n
            invariant
                n == entries@.len(),
                0 <= i <= n,
                times == Seq::new(entries@.len(), |i: int| entries@[i].result.processing_time_ms),
                total == total_time(measured_ms, times.subrange(0, i as int)),
            decreases n - i,
        {
            proof {
                assert(times.subrange(0, i + 1).drop_last() =~= times.subrange(0, i as int));
                assert(times.subrange(0, i + 1).last() == times[i as int]);
            }
            if entries[i].result.processing_time_ms > total {
                total = entries[i].result.processing_time_ms;
            }
            i += 1;
        }
        let report = ComparisonReport {
            test_id,
            timestamp,
            entries,
            total_comparison_time_ms: total,
        };
        proof {
            assert(times.subrange(0, n as int) =~= times);
            assert(report.times() =~= times);
            assert(report.providers() =~= self.providers());
            assert forall|k: int| 0 <= k < report.entries@.len() implies (
            #[trigger] report.times()[k]) <= report.total_comparison_time_ms by {
                lemma_slowest_bounds(times, k);
            }
        }
        report
    }
}

/// What is to be done for one provider of a comparison.
pub enum Launch {
    /// Nothing: the provider is not ready and its place is settled.
    Settled,
    /// Send this to the local provider, and settle its place with the answer.
    Local(GenerateCall),
    /// Send this to the cloud provider, and settle its place with the answer.
    Cloud(CloudCall),
}

/// The launch is the one that the request, the provider and the server's
/// status call for, and `outcome` is what the provider's place holds after it:
/// the refusal for a local provider that is not ready, and nothing yet for a
/// call that is to be made.
pub open spec fn is_launch(
    launch: Launch,
    outcome: Option<AnalysisView>,
    wanted: ProviderRequest,
    kind: ProviderKind,
    status: Option<&OllamaStatus>,
    cloud: MoondreamManager,
) -> bool {
    match launch {
        Launch::Settled => {
            &&& kind == ProviderKind::Local
            &&& !(status is Some && ready(status.unwrap()@))
            &&& outcome == Some(failure_view("llava"@, 0, "Ollama not ready"@))
        },
        Launch::Local(call) => {
            &&& kind == ProviderKind::Local
            &&& status is Some
            &&& ready(status.unwrap()@)
            &&& is_generate_call(
                call,
                prompt_of(wanted),
                wanted.image_base64@,
                match wanted.timeout_ms {
                    Some(given) => given,
                    None => LOCAL_TIMEOUT_MS,
                },
            )
            &&& is_tuned(call)
            &&& outcome is None
        },
        Launch::Cloud(call) => {
            &&& kind == ProviderKind::Cloud
            &&& cloud.is_request(call, wanted)
            &&& outcome is None
        },
    }
}

/// Puts one request to each of the listed providers: a comparison with a
/// place for each, and for each what is to be done. A provider that is not
/// ready is settled at once and keeps no other from its call; each call is
/// made with its own timeout.
pub fn dispatch_comparison(
    wanted: &ProviderRequest,
    kinds: &Vec<ProviderKind>,
    status: Option<&OllamaStatus>,
    cloud: &MoondreamManager,
) -> (launched: (Comparison, Vec<Launch>))
    ensures
        launched.0.wf(),
        launched.0.providers() == Seq::new(kinds@.len(), |i: int| provider_name(kinds@[i])),
        launched.0.outcomes().len() == kinds@.len(),
        launched.1@.len() == kinds@.len(),
        forall|i: int|
            0 <= i < kinds@.len() ==> is_launch(
                #[trigger] launched.1@[i],
                launched.0.outcomes()[i],
                *wanted,
                kinds@[i],
                status,
                *cloud,
            ),
{
    let n: usize = kinds.len();
    let mut names: Vec<String> = Vec::new();
    let mut i: usize = 0;
    while i < n
        invariant
            n == kinds@.len(),
            0 <= i <= n,
            names@.len() == i,
            forall|k: int| 0 <= k < i ==> (#[trigger] names@[k])@ == provider_name(kinds@[k]),
        decreases n - i,
    {
        names.push(provider_id(kinds[i]));
        i += 1;
    }
    let mut comparison = Comparison::begin(&names);
    proof {
        assert(comparison.providers() =~= Seq::new(
            kinds@.len(),
            |i: int| provider_name(kinds@[i]),
        ));
    }
    let mut launches: Vec<Launch> = Vec::new();
    let mut j: usize = 0;
    while j < n
        invariant
            n == kinds@.len(),
            0 <= j <= n,
            comparison.wf(),
            comparison.providers() == Seq::new(kinds@.len(), |i: int| provider_name(kinds@[i])),
            comparison.outcomes().len() == n,
            launches@.len() == j,
            forall|k: int| j <= k < n ==> comparison.outcomes()[k] is None,
            forall|k: int|
                0 <= k < j ==> is_launch(
                    #[trigger] launches@[k],
                    comparison.outcomes()[k],
                    *wanted,
                    kinds@[k],
                    status,
                    *cloud,
                ),
        decreases n - j,
    {
        match dispatch_single(wanted, kinds[j], status, cloud) {
            Dispatch::Refused(refusal) => {
                comparison.settle(j, refusal);
                launches.push(Launch::Settled);
            },
            Dispatch::Local(call) => {
                launches.push(Launch::Local(call));
            },
            Dispatch::Cloud(call) => {
                launches.push(Launch::Cloud(call));
            },
        }
        j += 1;
    }
    (comparison, launches)
}

/// The report that compares the local provider's result with the cloud
/// provider's, under a fresh identifier and the time of day. Both results
/// stand in it, the local one first, whether or not they carry an error.
pub fn analyze_ab_test(llava: AnalysisResult, moondream: AnalysisResult, measured_ms: u64) -> (report:
    ComparisonReport)
    ensures
        report.providers() == seq!["llava"@, "cloud"@],
        report.results() == seq![llava@, moondream@],
        report.total_comparison_time_ms == total_time(
            measured_ms,
            seq![llava.processing_time_ms, moondream.processing_time_ms],
        ),
        report.test_id@.len() == 36,
        report.wf(),
{
    let mut providers: Vec<String> = Vec::new();
    providers.push("llava".to_owned());
    providers.push("cloud".to_owned());
    let mut comparison = Comparison::begin(&providers);
    comparison.settle(0, llava);
    comparison.settle(1, moondream);
    assert(comparison.complete());
    let test_id = fresh_identifier();
    let timestamp = timestamp_now();
    let report = comparison.assemble(measured_ms, test_id, timestamp);
    proof {
        assert(report.providers() =~= seq!["llava"@, "cloud"@]);
        assert(report.results() =~= seq![llava@, moondream@]);
        assert(report.times() =~= seq![llava.processing_time_ms, moondream.processing_time_ms]);
    }
    report
}

} // verus!
