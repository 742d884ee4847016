use vstd::prelude::*;
use vstd::string::*;
use crate::block::{blocks_view, BlockView, CodeBlock};
use crate::registry::EndpointRegistry;

verus! {

/// The fixed bound, in seconds, on each formatting call. A call that has
/// not reached a terminal state within this bound is treated like a failed
/// one: it produces no result and does not abort its siblings. All calls of
/// one batch run concurrently, so the bound also caps the batch's wall-clock
/// time.
pub const CALL_TIMEOUT_SECS: u64 = 3;

/// One planned formatting call: the originating block's language tag and
/// body together with the resolved endpoint address.
#[derive(Debug, PartialEq, Eq)]
pub struct DispatchRequest {
    pub language: String,
    pub code: String,
    pub address: String,
}

/// The mathematical content of a `DispatchRequest`.
pub ghost struct RequestView {
    pub language: Seq<char>,
    pub code: Seq<char>,
    pub address: Seq<char>,
}

impl View for DispatchRequest {
    type V = RequestView;

    open spec fn view(&self) -> RequestView {
        RequestView { language: self.language@, code: self.code@, address: self.address@ }
    }
}

/// The formatted body that came back for one block whose call succeeded
/// within the timeout. Failed or timed-out calls produce no `DispatchResult`.
#[derive(Debug, PartialEq, Eq)]
pub struct DispatchResult {
    pub language: String,
    pub formatted_body: String,
}

/// The mathematical content of a `DispatchResult`.
pub ghost struct ResultView {
    pub language: Seq<char>,
    pub formatted_body: Seq<char>,
}

impl View for DispatchResult {
    type V = ResultView;

    open spec fn view(&self) -> ResultView {
        ResultView { language: self.language@, formatted_body: self.formatted_body@ }
    }
}

/// The views of a sequence of requests.
pub open spec fn requests_view(s: Seq<DispatchRequest>) -> Seq<RequestView> {
    s.map_values(|r: DispatchRequest| r@)
}

/// The views of a sequence of results.
pub open spec fn results_view(s: Seq<DispatchResult>) -> Seq<ResultView> {
    s.map_values(|r: DispatchResult| r@)
}

/// The views of a sequence of call outcomes (`None` for a failure or
/// timeout).
pub open spec fn outcomes_view(s: Seq<Option<DispatchResult>>) -> Seq<Option<ResultView>> {
    s.map_values(
        |r: Option<DispatchResult>|
            match r {
                Some(x) => Some(x@),
                None => None,
            },
    )
}

/// A block survives the dispatch filter when both its tag and its body are
/// present and the tag resolves in the registry. Blocks that do not survive
/// are dropped with no error surfaced: best effort, by design.
pub open spec fn selected(b: BlockView, reg: Map<Seq<char>, Seq<char>>) -> bool {
    b.language is Some && b.code is Some && reg.contains_key(b.language->Some_0)
}

/// The call a selected block gives rise to.
pub open spec fn request_of(b: BlockView, reg: Map<Seq<char>, Seq<char>>) -> RequestView
    recommends
        selected(b, reg),
{
    RequestView {
        language: b.language->Some_0,
        code: b.code->Some_0,
        address: reg[b.language->Some_0],
    }
}

/// The planned calls for a sequence of blocks: one per selected block, in
/// the blocks' order.
pub open spec fn spec_plan(bs: Seq<BlockView>, reg: Map<Seq<char>, Seq<char>>) -> Seq<RequestView>
    decreases bs.len(),
{
    if bs.len() == 0 {
        seq![]
    } else if selected(bs.last(), reg) {
        spec_plan(bs.drop_last(), reg) + seq![request_of(bs.last(), reg)]
    } else {
        spec_plan(bs.drop_last(), reg)
    }
}

/// Filters the blocks against the registry and plans one call per surviving
/// block, preserving the blocks' order.
pub fn plan_dispatch(blocks: &Vec<CodeBlock>, registry: &EndpointRegistry) -> (plan: Vec<
    DispatchRequest,
>)
    ensures
        requests_view(plan@) == spec_plan(blocks_view(blocks@), registry@),
{
    let ghost bv = blocks_view(blocks@);
    let mut plan: Vec<DispatchRequest> = Vec::new();
    let mut i: usize = 0;
    while i < blocks.len()
        invariant
            bv == blocks_view(blocks@),
            i <= blocks@.len(),
            requests_view(plan@) == spec_plan(bv.take(i as int), registry@),
        decreases blocks@.len() - i,
    {
        proof {
            assert(bv.take(i + 1).drop_last() =~= bv.take(i as int));
            assert(bv.take(i + 1).last() == bv[i as int]);
        }
        let ghost pre = plan@;
        let b = &blocks[i];
        match (&b.language, &b.code) {
            (Some(lang), Some(code)) => {
                match registry.resolve(lang.as_str()) {
                    Some(address) => {
                        let req = DispatchRequest {
                            language: lang.clone(),
                            code: code.clone(),
                            address,
                        };
                        assert(req@ == request_of(bv[i as int], registry@));
                        plan.push(req);
                        assert(requests_view(plan@) =~= requests_view(pre) + seq![req@]);
                    },
                    None => {
                        assert(!selected(bv[i as int], registry@));
                    },
                }
            },
            _ => {
                assert(!selected(bv[i as int], registry@));
            },
        }
        i = i + 1;
    }
    assert(bv.take(blocks@.len() as int) =~= bv);
    plan
}

/// The request target for one planned call: the resolved address with the
/// fixed format path appended.
pub fn format_url(address: &str) -> (r: String)
    ensures
        r@ == address@ + "/format"@,
{
    let mut s = address.to_owned();
    s.append("/format");
    s
}

/// The successful calls' results, in their order; the `None`s — failed or
/// timed-out calls — are dropped silently.
pub open spec fn spec_collect(rs: Seq<Option<ResultView>>) -> Seq<ResultView>
    decreases rs.len(),
{
    if rs.len() == 0 {
        seq![]
    } else if rs.last() is Some {
        spec_collect(rs.drop_last()) + seq![rs.last()->Some_0]
    } else {
        spec_collect(rs.drop_last())
    }
}

/// Keeps the successful outcomes, preserving their relative order.
pub fn collect_successes(results: &Vec<Option<DispatchResult>>) -> (out: Vec<DispatchResult>)
    ensures
        results_view(out@) == spec_collect(outcomes_view(results@)),
{
    let ghost rv = outcomes_view(results@);
    let mut out: Vec<DispatchResult> = Vec::new();
    let mut i: usize = 0;
    while i < results.len()
        invariant
            rv == outcomes_view(results@),
            i <= results@.len(),
            results_view(out@) == spec_collect(rv.take(i as int)),
        decreases results@.len() - i,
    {
        proof {
            assert(rv.take(i + 1).drop_last() =~= rv.take(i as int));
            assert(rv.take(i + 1).last() == rv[i as int]);
        }
        let ghost pre = out@;
        match &results[i] {
            Some(r) => {
                let kept = DispatchResult {
                    language: r.language.clone(),
                    formatted_body: r.formatted_body.clone(),
                };
                assert(kept@ == rv[i as int]->Some_0);
                out.push(kept);
                assert(results_view(out@) =~= results_view(pre) + seq![kept@]);
            },
            None => {
                assert(rv[i as int] is None);
            },
        }
        i = i + 1;
    }
    assert(rv.take(results@.len() as int) =~= rv);
    out
}

/// The rendered form of one result: the formatted body wrapped back into a
/// fenced block tagged with its language, followed by a blank line. A
/// formatted body ends with the tool's final newline, so the closing fence
/// follows it directly.
pub open spec fn render_one(r: ResultView) -> Seq<char> {
    "```"@ + r.language + "\n"@ + r.formatted_body + "```\n\n"@
}

/// The rendering of an aggregate, in order; an empty aggregate renders as
/// the empty text.
pub open spec fn spec_render(rs: Seq<ResultView>) -> Seq<char>
    decreases rs.len(),
{
    if rs.len() == 0 {
        Seq::empty()
    } else {
        spec_render(rs.drop_last()) + render_one(rs.last())
    }
}

/// Concatenates the results into one payload, each wrapped back into fenced
/// form.
pub fn render_results(results: &Vec<DispatchResult>) -> (r: String)
    ensures
        r@ == spec_render(results_view(results@)),
{
    let ghost rv = results_view(results@);
    let mut out = String::new();
    let mut i: usize = 0;
    while i < results.len()
        invariant
            rv == results_view(results@),
            i <= results@.len(),
            out@ == spec_render(rv.take(i as int)),
        decreases results@.len() - i,
    {
        proof {
            assert(rv.take(i + 1).drop_last() =~= rv.take(i as int));
            assert(rv.take(i + 1).last() == rv[i as int]);
        }
        out.append("```");
        out.append(results[i].language.as_str());
        out.append("\n");
        out.append(results[i].formatted_body.as_str());
        out.append("```\n\n");
        i = i + 1;
    }
    assert(rv.take(results@.len() as int) =~= rv);
    out
}

/// Aggregates and renders in one step: the successful results, in order,
/// each wrapped back into fenced form; the empty payload when every call
/// failed or no call was planned.
pub fn render_aggregate(results: &Vec<Option<DispatchResult>>) -> (r: String)
    ensures
        r@ == spec_render(spec_collect(outcomes_view(results@))),
{
    let collected = collect_successes(results);
    render_results(&collected)
}

/// Isolation of the dispatch filter: a block the filter drops — missing tag,
/// missing body, or a language with no registered endpoint — yields no call,
/// and the plan for the remaining blocks is exactly the plan without it: no
/// sibling's call is affected.
pub proof fn lemma_plan_isolation(bs: Seq<BlockView>, reg: Map<Seq<char>, Seq<char>>, i: int)
    requires
        0 <= i < bs.len(),
        !selected(bs[i], reg),
    ensures
        spec_plan(bs.remove(i), reg) == spec_plan(bs, reg),
    decreases bs.len(),
{
    if i == bs.len() - 1 {
        assert(bs.remove(i) =~= bs.drop_last());
    } else {
        assert(bs.remove(i).drop_last() =~= bs.drop_last().remove(i));
        assert(bs.remove(i).last() == bs.last());
        lemma_plan_isolation(bs.drop_last(), reg, i);
    }
}

/// Isolation of the aggregate: a call that produced no result — a failure or
/// a timeout — leaves the aggregate exactly as if it had never been made; in
/// particular a sibling that answered within the timeout keeps its result.
pub proof fn lemma_aggregate_isolation(rs: Seq<Option<ResultView>>, i: int)
    requires
        0 <= i < rs.len(),
        rs[i] is None,
    ensures
        spec_collect(rs.remove(i)) == spec_collect(rs),
    decreases rs.len(),
{
    if i == rs.len() - 1 {
        assert(rs.remove(i) =~= rs.drop_last());
    } else {
        assert(rs.remove(i).drop_last() =~= rs.drop_last().remove(i));
        assert(rs.remove(i).last() == rs.last());
        lemma_aggregate_isolation(rs.drop_last(), i);
    }
}

} // verus!
