//! What carries thinking from a response into a later request.
use crate::claude_code::replay::{
    block_json, block_of, blocks_from, carried_over, decision, decision_for, envelope_json, ReplayDecisionModel,
    ReplayErrorModel, ThinkingReplayBlockModel, PREFIX,
};
use crate::fields::lemma_lookup_at;
use crate::json::{member, JsonModel};
use crate::protocol::InferenceDialect;
use crate::read::{number_at, text_at};
use crate::text::begins_with;
use vstd::prelude::*;

verus! {

proof fn lemma_envelope_names()
    ensures
        "version"@ != "dialect"@,
        "version"@ != "model"@,
        "version"@ != "blocks"@,
        "dialect"@ != "model"@,
        "dialect"@ != "blocks"@,
        "model"@ != "blocks"@,
{
    reveal_strlit("version");
    reveal_strlit("dialect");
    reveal_strlit("model");
    reveal_strlit("blocks");
    assert("version"@[0] != "dialect"@[0]);
    assert("version"@.len() != "model"@.len());
    assert("version"@.len() != "blocks"@.len());
    assert("dialect"@.len() != "model"@.len());
    assert("dialect"@.len() != "blocks"@.len());
    assert("model"@.len() != "blocks"@.len());
}

proof fn lemma_block_names()
    ensures
        "type"@ != "thinking"@,
        "type"@ != "signature"@,
        "type"@ != "data"@,
        "thinking"@ != "signature"@,
        "thinking"@ != "data"@,
        "signature"@ != "data"@,
{
    reveal_strlit("type");
    reveal_strlit("thinking");
    reveal_strlit("signature");
    reveal_strlit("data");
    assert("type"@.len() != "thinking"@.len());
    assert("type"@.len() != "signature"@.len());
    assert("type"@[0] != "data"@[0]);
    assert("thinking"@.len() != "signature"@.len());
    assert("thinking"@.len() != "data"@.len());
    assert("signature"@.len() != "data"@.len());
}

proof fn lemma_kinds()
    ensures
        "signed"@ != "redacted"@,
{
    reveal_strlit("signed");
    reveal_strlit("redacted");
    assert("signed"@.len() != "redacted"@.len());
}

proof fn lemma_dialects()
    ensures
        "open_ai"@ != "claude_code"@,
        "open_ai"@ != "kimi"@,
        "open_ai"@ != "grok"@,
        "claude_code"@ != "kimi"@,
        "claude_code"@ != "grok"@,
        "kimi"@ != "grok"@,
{
    reveal_strlit("open_ai");
    reveal_strlit("claude_code");
    reveal_strlit("kimi");
    reveal_strlit("grok");
    assert("open_ai"@.len() != "claude_code"@.len());
    assert("open_ai"@.len() != "kimi"@.len());
    assert("open_ai"@.len() != "grok"@.len());
    assert("claude_code"@.len() != "kimi"@.len());
    assert("claude_code"@.len() != "grok"@.len());
    assert("kimi"@[0] != "grok"@[0]);
}

/// Whether JSON is a block of thinking.
pub open spec fn is_block(json: JsonModel, block: ThinkingReplayBlockModel) -> bool {
    &&& json is Object
    &&& match block {
        ThinkingReplayBlockModel::Signed { thinking, signature } => {
            &&& text_at(json, "type"@, Some("signed"@))
            &&& text_at(json, "thinking"@, Some(thinking))
            &&& text_at(json, "signature"@, Some(signature))
        },
        ThinkingReplayBlockModel::Redacted { data } => {
            &&& text_at(json, "type"@, Some("redacted"@))
            &&& text_at(json, "data"@, Some(data))
        },
    }
}

/// The name that a dialect is written by.
pub open spec fn dialect_name(dialect: InferenceDialect) -> Seq<char> {
    match dialect {
        InferenceDialect::OpenAi => "open_ai"@,
        InferenceDialect::ClaudeCode => "claude_code"@,
        InferenceDialect::Kimi => "kimi"@,
        InferenceDialect::Grok => "grok"@,
    }
}

/// Whether JSON carries the thinking of a model, block for block.
pub open spec fn carries(
    json: JsonModel,
    dialect: InferenceDialect,
    model: Seq<char>,
    blocks: Seq<ThinkingReplayBlockModel>,
) -> bool {
    let list = member(json, "blocks"@);
    &&& number_at(json, "version"@, 1)
    &&& text_at(json, "dialect"@, Some(dialect_name(dialect)))
    &&& text_at(json, "model"@, Some(model))
    &&& list is Some && list->0 is Array && list->0->Array_0.len() == blocks.len()
    &&& forall|i: int| 0 <= i < blocks.len() ==> is_block(list->0->Array_0[i], #[trigger] blocks[i])
}

/// What carries thinking names the model and the dialect it is of and holds every
/// block of it in order.
pub proof fn law_every_block_is_carried(
    dialect: InferenceDialect,
    model: Seq<char>,
    blocks: Seq<ThinkingReplayBlockModel>,
)
    ensures
        carries(envelope_json(dialect, model, blocks), dialect, model, blocks),
{
    lemma_envelope_names();
    lemma_block_names();
    let json = envelope_json(dialect, model, blocks);
    let entries = json->Object_0;
    lemma_lookup_at(entries, 0);
    lemma_lookup_at(entries, 1);
    lemma_lookup_at(entries, 2);
    lemma_lookup_at(entries, 3);
    assert forall|i: int| 0 <= i < blocks.len() implies is_block(
        member(json, "blocks"@)->0->Array_0[i],
        #[trigger] blocks[i],
    ) by {
        let fields = block_json(blocks[i])->Object_0;
        lemma_lookup_at(fields, 0);
        lemma_lookup_at(fields, 1);
        if blocks[i] is Signed {
            lemma_lookup_at(fields, 2);
        }
    }
}

proof fn lemma_blocks(
    items: Seq<JsonModel>,
    at: int,
    done: Seq<ThinkingReplayBlockModel>,
    blocks: Seq<ThinkingReplayBlockModel>,
)
    requires
        0 <= at <= items.len() == blocks.len(),
        done == blocks.take(at),
        forall|i: int| 0 <= i < blocks.len() ==> is_block(items[i], #[trigger] blocks[i]),
    ensures
        blocks_from(items, at, done) == Ok::<Seq<ThinkingReplayBlockModel>, Seq<char>>(blocks),
    decreases items.len() - at,
{
    if at < items.len() {
        lemma_kinds();
        assert(is_block(items[at], blocks[at]));
        assert(block_of(items[at]) == Ok::<ThinkingReplayBlockModel, Seq<char>>(blocks[at]));
        assert(done.push(blocks[at]) =~= blocks.take(at + 1));
        lemma_blocks(items, at + 1, done.push(blocks[at]), blocks);
    } else {
        assert(blocks.take(at) =~= blocks);
    }
}

/// Thinking that is carried is given back, block for block, to the model and the
/// dialect it is of, and to no other: that gets what was visible of it.
pub proof fn law_thinking_goes_back_to_its_model_only(
    json: JsonModel,
    dialect: InferenceDialect,
    model: Seq<char>,
    blocks: Seq<ThinkingReplayBlockModel>,
    visible: Seq<Seq<char>>,
    target_dialect: InferenceDialect,
    target_model: Seq<char>,
)
    requires
        carries(json, dialect, model, blocks),
    ensures
        decision_for(Ok(json), visible, target_dialect, target_model) == Ok::<ReplayDecisionModel, ReplayErrorModel>(
            if target_dialect == dialect && target_model == model {
                ReplayDecisionModel::Native(blocks)
            } else {
                ReplayDecisionModel::ModelOrDialectChanged { visible }
            },
        ),
        carried_over(dialect, model, blocks, visible, target_dialect, target_model) == if target_dialect == dialect
            && target_model == model {
            ReplayDecisionModel::Native(blocks)
        } else {
            ReplayDecisionModel::ModelOrDialectChanged { visible }
        },
{
    lemma_dialects();
    assert(blocks.take(0) =~= Seq::empty());
    lemma_blocks(member(json, "blocks"@)->0->Array_0, 0, Seq::empty(), blocks);
}

/// What was not carried by this library says nothing of thinking: what was visible
/// is kept. What was, but by another version or in no form that is known, is an
/// error.
pub proof fn law_foreign_content_is_not_thinking(
    opaque: Seq<char>,
    json: JsonModel,
    version: u64,
    visible: Seq<Seq<char>>,
    dialect: InferenceDialect,
    model: Seq<char>,
)
    ensures
        !begins_with(opaque, PREFIX@) ==> decision(opaque, visible, dialect, model) == Ok::<_, ReplayErrorModel>(
            ReplayDecisionModel::UnrelatedOpaqueContent { visible },
        ),
        number_at(json, "version"@, version) && version != 1 ==> decision_for(Ok(json), visible, dialect, model)
            == Err::<ReplayDecisionModel, _>(ReplayErrorModel::UnknownVersion(version)),
        member(json, "version"@) is None ==> decision_for(Ok(json), visible, dialect, model) is Err,
{
}

} // verus!
