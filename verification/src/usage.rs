//! What a provider reports of the tokens that a request used.

use vstd::prelude::*;

use crate::json::{entry, field, i64_field, int_json, object, pairs_view, Json, JsonView};
use crate::keys::{key_code, lemma_entries_apart};

verus! {

/// The tokens that a request used.
#[derive(Clone, Copy, Debug)]
pub struct TokenUsage {
    pub input_tokens: i64,
    pub cached_input_tokens: i64,
    pub cache_write_input_tokens: i64,
    pub output_tokens: i64,
    pub reasoning_output_tokens: i64,
}

/// The integer in the range of `i64` that is nearest to `n`.
pub open spec fn clamp_i64(n: int) -> int {
    if n < i64::MIN {
        i64::MIN as int
    } else if n > i64::MAX {
        i64::MAX as int
    } else {
        n
    }
}

/// The difference, in the range of `i64`.
fn saturating_difference(a: i64, b: i64) -> (r: i64)
    ensures
        r == clamp_i64(a - b),
{
    let d: i128 = a as i128 - b as i128;
    if d < i64::MIN as i128 {
        i64::MIN
    } else if d > i64::MAX as i128 {
        i64::MAX
    } else {
        d as i64
    }
}

/// The input tokens that were neither read from the cache nor written to it.
pub open spec fn uncached_input_tokens(usage: TokenUsage) -> int {
    clamp_i64(
        clamp_i64(usage.input_tokens - usage.cached_input_tokens) - usage.cache_write_input_tokens,
    )
}

/// What is recorded of the tokens. The output already holds the reasoning.
pub open spec fn provider_usage_entries(usage: TokenUsage) -> Seq<(Seq<char>, JsonView)> {
    seq![
        ("input_tokens_total"@, int_json(usage.input_tokens as int)),
        ("cache_read_tokens"@, int_json(usage.cached_input_tokens as int)),
        ("cache_write_tokens"@, int_json(usage.cache_write_input_tokens as int)),
        ("uncached_input_tokens"@, int_json(uncached_input_tokens(usage))),
        ("billed_output_tokens"@, int_json(usage.output_tokens as int)),
        ("reasoning_tokens"@, int_json(usage.reasoning_output_tokens as int)),
    ]
}

/// What is recorded of the tokens.
pub fn provider_usage(usage: &TokenUsage) -> (json: Json)
    ensures
        json@ == object(provider_usage_entries(*usage)),
        i64_field(json@, "input_tokens_total"@) == Some(usage.input_tokens),
        i64_field(json@, "cache_read_tokens"@) == Some(usage.cached_input_tokens),
        i64_field(json@, "cache_write_tokens"@) == Some(usage.cache_write_input_tokens),
        i64_field(json@, "billed_output_tokens"@) == Some(usage.output_tokens),
        i64_field(json@, "reasoning_tokens"@) == Some(usage.reasoning_output_tokens),
{
    let uncached: i64 = saturating_difference(
        saturating_difference(usage.input_tokens, usage.cached_input_tokens),
        usage.cache_write_input_tokens,
    );
    let pairs = vec![
        entry("input_tokens_total", Json::signed(usage.input_tokens)),
        entry("cache_read_tokens", Json::signed(usage.cached_input_tokens)),
        entry("cache_write_tokens", Json::signed(usage.cache_write_input_tokens)),
        entry("uncached_input_tokens", Json::signed(uncached)),
        entry("billed_output_tokens", Json::signed(usage.output_tokens)),
        entry("reasoning_tokens", Json::signed(usage.reasoning_output_tokens)),
    ];
    assert(pairs_view(pairs@) =~= provider_usage_entries(*usage));
    proof {
        law_buckets_are_recorded_as_reported(*usage);
    }
    Json::Object(pairs)
}

/// Where the recorded numbers come from.
pub open spec fn usage_provenance_entries() -> Seq<(Seq<char>, JsonView)> {
    let reported = JsonView::Text("provider_reported_via_codex_token_usage"@);
    let normalized = JsonView::Text("codex_normalized_provider_detail_or_default_zero"@);
    seq![
        ("input_tokens_total"@, reported),
        ("cache_read_tokens"@, normalized),
        ("cache_write_tokens"@, normalized),
        ("uncached_input_tokens"@, JsonView::Text("host_derived_from_codex_normalized_buckets"@)),
        ("billed_output_tokens"@, reported),
        ("reasoning_tokens"@, normalized),
        ("visible_output_tokens"@, JsonView::Text("host_estimated_model_visible_items_v1"@)),
    ]
}

/// Where the recorded numbers come from.
pub(crate) fn usage_provenance() -> (json: Json)
    ensures
        json@ == object(usage_provenance_entries()),
{
    let reported = "provider_reported_via_codex_token_usage";
    let normalized = "codex_normalized_provider_detail_or_default_zero";
    let pairs = vec![
        entry("input_tokens_total", Json::text(reported)),
        entry("cache_read_tokens", Json::text(normalized)),
        entry("cache_write_tokens", Json::text(normalized)),
        entry("uncached_input_tokens", Json::text("host_derived_from_codex_normalized_buckets")),
        entry("billed_output_tokens", Json::text(reported)),
        entry("reasoning_tokens", Json::text(normalized)),
        entry("visible_output_tokens", Json::text("host_estimated_model_visible_items_v1")),
    ];
    assert(pairs_view(pairs@) =~= usage_provenance_entries());
    Json::Object(pairs)
}

/// The buckets add up to the input wherever neither subtraction leaves the range
/// of `i64`.
pub proof fn law_usage_buckets_add_up(usage: TokenUsage)
    requires
        i64::MIN <= usage.input_tokens - usage.cached_input_tokens <= i64::MAX,
        i64::MIN <= usage.input_tokens - usage.cached_input_tokens
            - usage.cache_write_input_tokens <= i64::MAX,
    ensures
        uncached_input_tokens(usage) + usage.cached_input_tokens + usage.cache_write_input_tokens
            == usage.input_tokens,
{
}

/// Each bucket is recorded under its own key: the input, what was read from and written
/// to the cache, the output that is billed, and the reasoning that the output already
/// holds, as the provider reports them.
pub proof fn law_buckets_are_recorded_as_reported(usage: TokenUsage)
    ensures
        i64_field(object(provider_usage_entries(usage)), "input_tokens_total"@) == Some(
            usage.input_tokens,
        ),
        i64_field(object(provider_usage_entries(usage)), "cache_read_tokens"@) == Some(
            usage.cached_input_tokens,
        ),
        i64_field(object(provider_usage_entries(usage)), "cache_write_tokens"@) == Some(
            usage.cache_write_input_tokens,
        ),
        i64_field(object(provider_usage_entries(usage)), "billed_output_tokens"@) == Some(
            usage.output_tokens,
        ),
        i64_field(object(provider_usage_entries(usage)), "reasoning_tokens"@) == Some(
            usage.reasoning_output_tokens,
        ),
{
    lemma_usage_fields(usage);
}

/// The input that is recorded as uncached is what is left of the input after what was
/// read from and written to the cache, where that stays in the range of `i64`. Below the
/// range it stops at its end, and above the range likewise.
pub proof fn law_uncached_input_is_what_is_left(usage: TokenUsage, recorded: i64)
    requires
        i64_field(object(provider_usage_entries(usage)), "uncached_input_tokens"@) == Some(
            recorded,
        ),
    ensures
        ({
            let first = usage.input_tokens - usage.cached_input_tokens;
            let left = first - usage.cache_write_input_tokens;
            &&& i64::MIN <= first <= i64::MAX && i64::MIN <= left <= i64::MAX ==> recorded == left
            &&& i64::MIN <= first <= i64::MAX && left < i64::MIN ==> recorded == i64::MIN
            &&& i64::MIN <= first <= i64::MAX && left > i64::MAX ==> recorded == i64::MAX
            &&& first < i64::MIN && usage.cache_write_input_tokens >= 0 ==> recorded == i64::MIN
            &&& first < i64::MIN && usage.cache_write_input_tokens < 0 ==> recorded == i64::MIN
                - usage.cache_write_input_tokens
            &&& first > i64::MAX && usage.cache_write_input_tokens <= 0 ==> recorded == i64::MAX
            &&& first > i64::MAX && usage.cache_write_input_tokens > 0 ==> recorded == i64::MAX
                - usage.cache_write_input_tokens
        }),
{
    lemma_usage_fields(usage);
}

/// Something is always recorded as uncached input, and what is billed as output depends
/// on the output alone.
pub proof fn law_billed_output_ignores_the_input(a: TokenUsage, b: TokenUsage)
    ensures
        i64_field(object(provider_usage_entries(a)), "uncached_input_tokens"@) is Some,
        a.output_tokens == b.output_tokens <==> field(
            object(provider_usage_entries(a)),
            "billed_output_tokens"@,
        ) == field(object(provider_usage_entries(b)), "billed_output_tokens"@),
{
    lemma_usage_fields(a);
    lemma_usage_fields(b);
}

/// What is recorded of the tokens has each of its entries.
proof fn lemma_usage_fields(usage: TokenUsage)
    ensures
        forall|i: int|
            0 <= i < provider_usage_entries(usage).len() ==> field(
                object(provider_usage_entries(usage)),
                (#[trigger] provider_usage_entries(usage)[i]).0,
            ) == Some(provider_usage_entries(usage)[i].1),
        provider_usage_entries(usage)[0].0 == "input_tokens_total"@,
        provider_usage_entries(usage)[1].0 == "cache_read_tokens"@,
        provider_usage_entries(usage)[2].0 == "cache_write_tokens"@,
        provider_usage_entries(usage)[3].0 == "uncached_input_tokens"@,
        provider_usage_entries(usage)[4].0 == "billed_output_tokens"@,
        provider_usage_entries(usage)[5].0 == "reasoning_tokens"@,
{
    reveal_strlit("input_tokens_total");
    assert(key_code("input_tokens_total"@) == 18_105_110);
    reveal_strlit("cache_read_tokens");
    assert(key_code("cache_read_tokens"@) == 17_099_097);
    reveal_strlit("cache_write_tokens");
    assert(key_code("cache_write_tokens"@) == 18_099_097);
    reveal_strlit("uncached_input_tokens");
    assert(key_code("uncached_input_tokens"@) == 21_117_110);
    reveal_strlit("billed_output_tokens");
    assert(key_code("billed_output_tokens"@) == 20_098_105);
    reveal_strlit("reasoning_tokens");
    assert(key_code("reasoning_tokens"@) == 16_114_101);
    lemma_entries_apart(provider_usage_entries(usage));
}

/// Where each recorded number comes from: the totals from the provider, the parts from
/// the normalized detail, and the rest from the host.
pub proof fn law_provenance_names_its_sources()
    ensures
        ({
            let v = object(usage_provenance_entries());
            &&& field(v, "input_tokens_total"@) == Some(
                JsonView::Text("provider_reported_via_codex_token_usage"@),
            )
            &&& field(v, "cache_read_tokens"@) == Some(
                JsonView::Text("codex_normalized_provider_detail_or_default_zero"@),
            )
            &&& field(v, "cache_write_tokens"@) == Some(
                JsonView::Text("codex_normalized_provider_detail_or_default_zero"@),
            )
            &&& field(v, "uncached_input_tokens"@) == Some(
                JsonView::Text("host_derived_from_codex_normalized_buckets"@),
            )
            &&& field(v, "billed_output_tokens"@) == Some(
                JsonView::Text("provider_reported_via_codex_token_usage"@),
            )
            &&& field(v, "reasoning_tokens"@) == Some(
                JsonView::Text("codex_normalized_provider_detail_or_default_zero"@),
            )
            &&& field(v, "visible_output_tokens"@) == Some(
                JsonView::Text("host_estimated_model_visible_items_v1"@),
            )
        }),
{
    reveal_strlit("input_tokens_total");
    assert(key_code("input_tokens_total"@) == 18_105_110);
    reveal_strlit("cache_read_tokens");
    assert(key_code("cache_read_tokens"@) == 17_099_097);
    reveal_strlit("cache_write_tokens");
    assert(key_code("cache_write_tokens"@) == 18_099_097);
    reveal_strlit("uncached_input_tokens");
    assert(key_code("uncached_input_tokens"@) == 21_117_110);
    reveal_strlit("billed_output_tokens");
    assert(key_code("billed_output_tokens"@) == 20_098_105);
    reveal_strlit("reasoning_tokens");
    assert(key_code("reasoning_tokens"@) == 16_114_101);
    reveal_strlit("visible_output_tokens");
    assert(key_code("visible_output_tokens"@) == 21_118_105);
    let entries = usage_provenance_entries();
    lemma_entries_apart(entries);
    assert(entries[0].0 == "input_tokens_total"@);
    assert(entries[1].0 == "cache_read_tokens"@);
    assert(entries[2].0 == "cache_write_tokens"@);
    assert(entries[3].0 == "uncached_input_tokens"@);
    assert(entries[4].0 == "billed_output_tokens"@);
    assert(entries[5].0 == "reasoning_tokens"@);
    assert(entries[6].0 == "visible_output_tokens"@);
}

} // verus!
