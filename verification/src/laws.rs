//! Properties that relate several operations of the library.
use vstd::prelude::*;

use crate::models::{
    as_text_entry, as_thought, collect_parts, Candidate, GenerationResponse, Part, ThinkingConfig,
};
use crate::tools::FunctionCall;

verus! {

/// Whether a text entry of `GenerationResponse::all_text` is a thought summary.
pub open spec fn is_thought_entry() -> spec_fn((String, bool)) -> bool {
    |e: (String, bool)| e.1
}

/// The text of a text entry of `GenerationResponse::all_text`.
pub open spec fn entry_text() -> spec_fn((String, bool)) -> String {
    |e: (String, bool)| e.0
}

/// `filter_map` distributes over concatenation.
pub proof fn lemma_filter_map_add<A, B>(a: Seq<A>, b: Seq<A>, f: spec_fn(A) -> Option<B>)
    ensures
        (a + b).filter_map(f) == a.filter_map(f) + b.filter_map(f),
    decreases b.len(),
{
    if b.len() == 0 {
        assert(a + b =~= a);
        assert(a.filter_map(f) + b.filter_map(f) =~= a.filter_map(f));
    } else {
        assert((a + b).drop_last() =~= a + b.drop_last());
        assert((a + b).last() == b.last());
        lemma_filter_map_add(a, b.drop_last(), f);
        match f(b.last()) {
            Some(x) => {
                assert(a.filter_map(f) + (b.drop_last().filter_map(f) + seq![x]) =~= (a.filter_map(f)
                    + b.drop_last().filter_map(f)) + seq![x]);
            },
            None => {},
        }
    }
}

/// `filter_map` of a non-empty sequence: what its first element gives,
/// followed by `filter_map` of the rest.
pub proof fn lemma_filter_map_first<A, B>(s: Seq<A>, f: spec_fn(A) -> Option<B>)
    requires
        s.len() > 0,
    ensures
        s.filter_map(f) == seq![s[0]].filter_map(f) + s.drop_first().filter_map(f),
{
    assert(s =~= seq![s[0]] + s.drop_first());
    lemma_filter_map_add(seq![s[0]], s.drop_first(), f);
}

/// Collecting over non-empty candidates: what the first candidate's parts
/// give, followed by what the other candidates give.
pub proof fn lemma_collect_parts_first<B>(cands: Seq<Candidate>, f: spec_fn(Part) -> Option<B>)
    requires
        cands.len() > 0,
    ensures
        collect_parts(cands, f) == cands[0].content.parts@.filter_map(f) + collect_parts(
            cands.drop_first(),
            f,
        ),
    decreases cands.len(),
{
    if cands.len() == 1 {
        assert(cands.drop_first().len() == 0);
        assert(cands.drop_last().len() == 0);
        assert(collect_parts(cands.drop_last(), f) == Seq::<B>::empty());
        assert(collect_parts(cands.drop_first(), f) == Seq::<B>::empty());
        assert(cands.last() == cands[0]);
        assert(Seq::<B>::empty() + cands[0].content.parts@.filter_map(f) =~= cands[0].content.parts@.filter_map(f));
        assert(cands[0].content.parts@.filter_map(f) + Seq::<B>::empty() =~= cands[0].content.parts@.filter_map(f));
    } else {
        lemma_collect_parts_first(cands.drop_last(), f);
        assert(cands.drop_last().drop_first() =~= cands.drop_first().drop_last());
        assert(cands.drop_first().last() == cands.last());
        assert(cands.drop_last()[0] == cands[0]);
        let head = cands[0].content.parts@.filter_map(f);
        let mid = collect_parts(cands.drop_first().drop_last(), f);
        let tail = cands.last().content.parts@.filter_map(f);
        assert((head + mid) + tail =~= head + (mid + tail));
    }
}

/// Law: reading parts over a list of candidates that is the concatenation
/// of two lists gives what the first list gives followed by what the second
/// gives; so `thoughts`, `function_calls` and `all_text` of a response whose
/// candidates are `a + b` are those of `a` followed by those of `b`.
pub proof fn law_collect_parts_distributes<B>(
    a: Seq<Candidate>,
    b: Seq<Candidate>,
    f: spec_fn(Part) -> Option<B>,
)
    ensures
        collect_parts(a + b, f) == collect_parts(a, f) + collect_parts(b, f),
    decreases b.len(),
{
    if b.len() == 0 {
        assert(a + b =~= a);
        assert(collect_parts(a, f) + collect_parts(b, f) =~= collect_parts(a, f));
    } else {
        assert((a + b).drop_last() =~= a + b.drop_last());
        assert((a + b).last() == b.last());
        law_collect_parts_distributes(a, b.drop_last(), f);
        let x = collect_parts(a, f);
        let y = collect_parts(b.drop_last(), f);
        let z = b.last().content.parts@.filter_map(f);
        assert((x + y) + z =~= x + (y + z));
    }
}

/// The thought summaries of one list of parts are the texts of its text
/// entries that are flagged as thoughts.
proof fn lemma_parts_thoughts(parts: Seq<Part>)
    ensures
        parts.filter_map(as_thought()) == parts.filter_map(as_text_entry()).filter(
            is_thought_entry(),
        ).map_values(entry_text()),
    decreases parts.len(),
{
    reveal(Seq::filter);
    if parts.len() == 0 {
        assert(parts.filter_map(as_text_entry()).filter(is_thought_entry()).map_values(entry_text())
            =~= Seq::<String>::empty());
    } else {
        let rest = parts.drop_last();
        lemma_parts_thoughts(rest);
        let entries = rest.filter_map(as_text_entry());
        match as_text_entry()(parts.last()) {
            Some(e) => {
                assert(parts.filter_map(as_text_entry()) == entries + seq![e]);
                Seq::filter_distributes_over_add(entries, seq![e], is_thought_entry());
                reveal_with_fuel(Seq::filter, 2);
                assert(seq![e].drop_last() =~= Seq::<(String, bool)>::empty());
                if e.1 {
                    assert(seq![e].filter(is_thought_entry()) =~= seq![e]);
                    assert((entries.filter(is_thought_entry()) + seq![e]).map_values(entry_text())
                        =~= entries.filter(is_thought_entry()).map_values(entry_text()) + seq![e.0]);
                } else {
                    assert(seq![e].filter(is_thought_entry()) =~= Seq::<(String, bool)>::empty());
                    assert(entries.filter(is_thought_entry()) + Seq::<(String, bool)>::empty()
                        =~= entries.filter(is_thought_entry()));
                }
            },
            None => {},
        }
    }
}

/// Law: the thought summaries of a response (`thoughts`) are exactly the
/// texts of the entries of `all_text` flagged as thoughts, in the same order.
pub proof fn law_thoughts_are_flagged_texts(r: GenerationResponse)
    ensures
        r.thought_texts() == r.text_entries().filter(is_thought_entry()).map_values(entry_text()),
{
    lemma_thoughts_of_candidates(r.candidates@);
}

proof fn lemma_thoughts_of_candidates(cands: Seq<Candidate>)
    ensures
        collect_parts(cands, as_thought()) == collect_parts(cands, as_text_entry()).filter(
            is_thought_entry(),
        ).map_values(entry_text()),
    decreases cands.len(),
{
    reveal(Seq::filter);
    if cands.len() == 0 {
        assert(collect_parts(cands, as_text_entry()).filter(is_thought_entry()).map_values(entry_text())
            =~= Seq::<String>::empty());
    } else {
        lemma_thoughts_of_candidates(cands.drop_last());
        let parts = cands.last().content.parts@;
        lemma_parts_thoughts(parts);
        let a = collect_parts(cands.drop_last(), as_text_entry());
        let b = parts.filter_map(as_text_entry());
        Seq::filter_distributes_over_add(a, b, is_thought_entry());
        assert((a.filter(is_thought_entry()) + b.filter(is_thought_entry())).map_values(entry_text())
            =~= a.filter(is_thought_entry()).map_values(entry_text()) + b.filter(
            is_thought_entry(),
        ).map_values(entry_text()));
    }
}

/// Law: where the first part of the first candidate is a text part, `text`
/// gives that text, and it is the first entry of `all_text`.
pub proof fn law_text_is_first_text_entry(r: GenerationResponse)
    requires
        r.first_part() matches Some(Part::Text { .. }),
    ensures
        r.text_entries().len() > 0,
        r.first_part() matches Some(Part::Text { text, .. }) && r.text_entries()[0].0 == text,
{
    let cands = r.candidates@;
    lemma_collect_parts_first(cands, as_text_entry());
    let parts = cands[0].content.parts@;
    lemma_filter_map_first(parts, as_text_entry());
    reveal_with_fuel(Seq::filter_map, 2);
    assert(seq![parts[0]].drop_last() =~= Seq::<Part>::empty());
}

/// Law: the thinking budget and the thought-summary choice are independent
/// settings; setting them in either order gives the same configuration, and
/// setting one keeps the other.
pub proof fn law_thinking_settings_commute(c: ThinkingConfig, budget: i32, enabled: bool)
    ensures
        c.budget_set(budget).thoughts_set(enabled) == c.thoughts_set(enabled).budget_set(budget),
        c.budget_set(budget).include_thoughts == c.include_thoughts,
        c.thoughts_set(enabled).thinking_budget == c.thinking_budget,
{
}

/// Law: a later setting of the same kind overrides an earlier one.
pub proof fn law_thinking_last_setting_wins(c: ThinkingConfig, b1: i32, b2: i32, e1: bool, e2: bool)
    ensures
        c.budget_set(b1).budget_set(b2) == c.budget_set(b2),
        c.thoughts_set(e1).thoughts_set(e2) == c.thoughts_set(e2),
{
}

/// Candidates that have no parts give nothing.
proof fn lemma_collect_nothing<B>(cands: Seq<Candidate>, f: spec_fn(Part) -> Option<B>)
    requires
        forall|i: int| 0 <= i < cands.len() ==> #[trigger] cands[i].content.parts@.len() == 0,
    ensures
        collect_parts(cands, f) == Seq::<B>::empty(),
    decreases cands.len(),
{
    if cands.len() > 0 {
        lemma_collect_nothing(cands.drop_last(), f);
        assert(cands[cands.len() - 1].content.parts@.len() == 0);
        assert(Seq::<B>::empty() + Seq::<B>::empty() =~= Seq::<B>::empty());
    }
}

/// A single candidate gives what its parts give.
proof fn lemma_collect_single<B>(c: Candidate, f: spec_fn(Part) -> Option<B>)
    ensures
        collect_parts(seq![c], f) == c.content.parts@.filter_map(f),
{
    assert(seq![c].drop_last() =~= Seq::<Candidate>::empty());
    assert(collect_parts(Seq::<Candidate>::empty(), f) == Seq::<B>::empty());
    assert(collect_parts(seq![c].drop_last(), f) == Seq::<B>::empty());
    assert(seq![c].last() == c);
    assert(Seq::<B>::empty() + c.content.parts@.filter_map(f) =~= c.content.parts@.filter_map(f));
}

/// Two one-candidate lists whose parts concatenate to those of a third
/// one-candidate list give, together, what the third gives.
proof fn lemma_collect_parts_concat<B>(
    c: Candidate,
    c1: Candidate,
    c2: Candidate,
    f: spec_fn(Part) -> Option<B>,
)
    requires
        c.content.parts@ == c1.content.parts@ + c2.content.parts@,
    ensures
        collect_parts(seq![c], f) == collect_parts(seq![c1], f) + collect_parts(seq![c2], f),
{
    lemma_collect_single(c, f);
    lemma_collect_single(c1, f);
    lemma_collect_single(c2, f);
    lemma_filter_map_add(c1.content.parts@, c2.content.parts@, f);
}

/// A one-part candidate gives what that part gives.
proof fn lemma_collect_one_part<B>(c: Candidate, f: spec_fn(Part) -> Option<B>)
    requires
        c.content.parts@.len() == 1,
    ensures
        collect_parts(seq![c], f) == match f(c.content.parts@[0]) {
            Some(x) => seq![x],
            None => Seq::<B>::empty(),
        },
{
    lemma_collect_single(c, f);
    assert(c.content.parts@ =~= seq![c.content.parts@[0]]);
    Seq::lemma_filter_map_singleton(c.content.parts@[0], f);
}

// Each accessor is pinned down by four laws: a response whose candidates
// have no parts gives nothing; candidates concatenate; within one candidate,
// parts concatenate; and one part gives exactly what its kind says. Any list
// of candidates is built from these, so together they fix the result.

/// Law: a response whose candidates carry no parts has no function calls.
pub proof fn law_calls_without_parts(r: GenerationResponse)
    requires
        forall|i: int| 0 <= i < r.candidates@.len() ==> #[trigger] r.candidates@[i].content.parts@.len() == 0,
    ensures
        r.calls() == Seq::<FunctionCall>::empty(),
{
    lemma_collect_nothing(r.candidates@, crate::models::as_function_call());
}

/// Law: the function calls of concatenated candidate lists are those of the
/// first list followed by those of the second.
pub proof fn law_calls_over_candidates(r: GenerationResponse, r1: GenerationResponse, r2: GenerationResponse)
    requires
        r.candidates@ == r1.candidates@ + r2.candidates@,
    ensures
        r.calls() == r1.calls() + r2.calls(),
{
    law_collect_parts_distributes(r1.candidates@, r2.candidates@, crate::models::as_function_call());
}

/// Law: within one candidate, the function calls of concatenated parts are
/// those of the first parts followed by those of the rest: every call part
/// counts, not only the first one.
pub proof fn law_calls_over_parts(r: GenerationResponse, r1: GenerationResponse, r2: GenerationResponse)
    requires
        r.candidates@.len() == 1,
        r1.candidates@.len() == 1,
        r2.candidates@.len() == 1,
        r.candidates@[0].content.parts@ == r1.candidates@[0].content.parts@
            + r2.candidates@[0].content.parts@,
    ensures
        r.calls() == r1.calls() + r2.calls(),
{
    assert(r.candidates@ =~= seq![r.candidates@[0]]);
    assert(r1.candidates@ =~= seq![r1.candidates@[0]]);
    assert(r2.candidates@ =~= seq![r2.candidates@[0]]);
    lemma_collect_parts_concat(
        r.candidates@[0],
        r1.candidates@[0],
        r2.candidates@[0],
        crate::models::as_function_call(),
    );
}

/// Law: a single function-call part gives exactly its call; any other
/// single part gives no call.
pub proof fn law_calls_of_one_part(r: GenerationResponse)
    requires
        r.candidates@.len() == 1,
        r.candidates@[0].content.parts@.len() == 1,
    ensures
        r.calls() == match r.candidates@[0].content.parts@[0] {
            Part::FunctionCall { function_call } => seq![function_call],
            _ => Seq::<FunctionCall>::empty(),
        },
{
    assert(r.candidates@ =~= seq![r.candidates@[0]]);
    lemma_collect_one_part(r.candidates@[0], crate::models::as_function_call());
}

/// Law: a response whose candidates carry no parts has no thought summaries.
pub proof fn law_thoughts_without_parts(r: GenerationResponse)
    requires
        forall|i: int| 0 <= i < r.candidates@.len() ==> #[trigger] r.candidates@[i].content.parts@.len() == 0,
    ensures
        r.thought_texts() == Seq::<String>::empty(),
{
    lemma_collect_nothing(r.candidates@, as_thought());
}

/// Law: the thought summaries of concatenated candidate lists are those of
/// the first list followed by those of the second.
pub proof fn law_thoughts_over_candidates(r: GenerationResponse, r1: GenerationResponse, r2: GenerationResponse)
    requires
        r.candidates@ == r1.candidates@ + r2.candidates@,
    ensures
        r.thought_texts() == r1.thought_texts() + r2.thought_texts(),
{
    law_collect_parts_distributes(r1.candidates@, r2.candidates@, as_thought());
}

/// Law: within one candidate, the thought summaries of concatenated parts
/// are those of the first parts followed by those of the rest.
pub proof fn law_thoughts_over_parts(r: GenerationResponse, r1: GenerationResponse, r2: GenerationResponse)
    requires
        r.candidates@.len() == 1,
        r1.candidates@.len() == 1,
        r2.candidates@.len() == 1,
        r.candidates@[0].content.parts@ == r1.candidates@[0].content.parts@
            + r2.candidates@[0].content.parts@,
    ensures
        r.thought_texts() == r1.thought_texts() + r2.thought_texts(),
{
    assert(r.candidates@ =~= seq![r.candidates@[0]]);
    assert(r1.candidates@ =~= seq![r1.candidates@[0]]);
    assert(r2.candidates@ =~= seq![r2.candidates@[0]]);
    lemma_collect_parts_concat(r.candidates@[0], r1.candidates@[0], r2.candidates@[0], as_thought());
}

/// Law: a single text part marked `thought: Some(true)` gives exactly its
/// text, whatever the text holds; any other single part gives nothing.
pub proof fn law_thoughts_of_one_part(r: GenerationResponse)
    requires
        r.candidates@.len() == 1,
        r.candidates@[0].content.parts@.len() == 1,
    ensures
        r.thought_texts() == match r.candidates@[0].content.parts@[0] {
            Part::Text { text, thought: Some(true) } => seq![text],
            _ => Seq::<String>::empty(),
        },
{
    assert(r.candidates@ =~= seq![r.candidates@[0]]);
    lemma_collect_one_part(r.candidates@[0], as_thought());
}

/// Law: a response whose candidates carry no parts has no text entries.
pub proof fn law_text_entries_without_parts(r: GenerationResponse)
    requires
        forall|i: int| 0 <= i < r.candidates@.len() ==> #[trigger] r.candidates@[i].content.parts@.len() == 0,
    ensures
        r.text_entries() == Seq::<(String, bool)>::empty(),
{
    lemma_collect_nothing(r.candidates@, as_text_entry());
}

/// Law: the text entries of concatenated candidate lists are those of the
/// first list followed by those of the second.
pub proof fn law_text_entries_over_candidates(
    r: GenerationResponse,
    r1: GenerationResponse,
    r2: GenerationResponse,
)
    requires
        r.candidates@ == r1.candidates@ + r2.candidates@,
    ensures
        r.text_entries() == r1.text_entries() + r2.text_entries(),
{
    law_collect_parts_distributes(r1.candidates@, r2.candidates@, as_text_entry());
}

/// Law: within one candidate, the text entries of concatenated parts are
/// those of the first parts followed by those of the rest.
pub proof fn law_text_entries_over_parts(r: GenerationResponse, r1: GenerationResponse, r2: GenerationResponse)
    requires
        r.candidates@.len() == 1,
        r1.candidates@.len() == 1,
        r2.candidates@.len() == 1,
        r.candidates@[0].content.parts@ == r1.candidates@[0].content.parts@
            + r2.candidates@[0].content.parts@,
    ensures
        r.text_entries() == r1.text_entries() + r2.text_entries(),
{
    assert(r.candidates@ =~= seq![r.candidates@[0]]);
    assert(r1.candidates@ =~= seq![r1.candidates@[0]]);
    assert(r2.candidates@ =~= seq![r2.candidates@[0]]);
    lemma_collect_parts_concat(r.candidates@[0], r1.candidates@[0], r2.candidates@[0], as_text_entry());
}

/// Law: a single text part gives exactly one entry, its text with its
/// thought flag (`false` where the flag is absent), whatever the text holds;
/// any other single part gives no entry.
pub proof fn law_text_entries_of_one_part(r: GenerationResponse)
    requires
        r.candidates@.len() == 1,
        r.candidates@[0].content.parts@.len() == 1,
    ensures
        r.text_entries() == match r.candidates@[0].content.parts@[0] {
            Part::Text { text, thought } => seq![
                (text, match thought {
                    Some(b) => b,
                    None => false,
                }),
            ],
            _ => Seq::<(String, bool)>::empty(),
        },
{
    assert(r.candidates@ =~= seq![r.candidates@[0]]);
    lemma_collect_one_part(r.candidates@[0], as_text_entry());
}

/// Law: the first part of a response is the first part of its first
/// candidate as soon as that candidate has one part or more, and there is
/// none otherwise.
pub proof fn law_first_part(r: GenerationResponse)
    ensures
        r.candidates@.len() > 0 && r.candidates@[0].content.parts@.len() > 0 ==> r.first_part()
            == Some(r.candidates@[0].content.parts@[0]),
        r.candidates@.len() == 0 || r.candidates@[0].content.parts@.len() == 0 ==> r.first_part()
            is None,
{
}

/// Law: setting the thinking budget to `b` gives the budget `b`, for every
/// `b`, and keeps the thought-summary choice; setting that choice gives it
/// and keeps the budget; the unset configuration has neither.
pub proof fn law_thinking_settings_are_kept(c: ThinkingConfig, b: i32, enabled: bool)
    ensures
        c.budget_set(b).thinking_budget == Some(b),
        c.budget_set(b).include_thoughts == c.include_thoughts,
        c.thoughts_set(enabled).include_thoughts == Some(enabled),
        c.thoughts_set(enabled).thinking_budget == c.thinking_budget,
        ThinkingConfig::unset().thinking_budget is None,
        ThinkingConfig::unset().include_thoughts is None,
{
}

} // verus!
