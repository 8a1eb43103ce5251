//! Request-side declarations and the conversation normalizer.
//!
//! `process_messages` repairs an arbitrary caller-supplied message sequence
//! into the strict form the vendor API requires: no empty messages, roles
//! strictly alternating starting with the user, and no trailing whitespace in
//! a final assistant message.

use vstd::prelude::*;
use vstd::seq_lib::*;

use crate::messages::{
    BaseContentBlock, BaseContentBlockView, ContentBlock, ContentBlockView, Message,
    MessageContent, MessageContentView, MessageView, Role, spec_all_blocks_empty,
    spec_block_empty, spec_content_empty, spec_message_empty, view_of_messages,
};
use crate::strutil::{is_blank, is_ws_char, trim_end_spec, trim_end_str, lemma_trim_end_keeps_non_ws, lemma_trim_end_idempotent};

verus! {

/// A tool the caller offers the model.
#[derive(Debug, Clone, PartialEq)]
pub struct Tool {
    pub name: String,
    pub description: Option<String>,
    pub input_schema: String,
}

/// Extended-reasoning configuration.
#[derive(Debug, Clone, Copy, PartialEq, Eq, Structural)]
pub enum Thinking {
    Enabled { budget_tokens: u32 },
}

/// The system prompt: a bare text or a block list.
#[derive(Debug, Clone, PartialEq)]
pub enum System {
    Text(String),
    Blocks(Vec<SystemMessage>),
}

#[derive(Debug, Clone, PartialEq)]
pub struct SystemMessage {
    pub kind: SystemMessageType,
    pub text: String,
    pub cache_control: Option<CacheControl>,
}

#[derive(Debug, Clone, Copy, PartialEq, Eq, Structural)]
pub enum SystemMessageType {
    Text,
}

#[derive(Debug, Clone, Copy, PartialEq, Eq, Structural)]
pub struct CacheControl {
    pub kind: CacheControlType,
}

#[derive(Debug, Clone, Copy, PartialEq, Eq, Structural)]
pub enum CacheControlType {
    Ephemeral,
}

// ---------------------------------------------------------------------------
// The normalizer's mathematical model
// ---------------------------------------------------------------------------

/// The predicate that keeps a block during a merge.
pub open spec fn block_nonempty() -> spec_fn(ContentBlockView) -> bool {
    |b: ContentBlockView| !spec_block_empty(b)
}

/// How two same-role contents merge into one.
pub open spec fn spec_merge_content(a: MessageContentView, b: MessageContentView) -> MessageContentView {
    match (a, b) {
        (MessageContentView::Text(x), MessageContentView::Text(y)) => MessageContentView::Text(
            x + "\n"@ + y,
        ),
        (MessageContentView::Blocks(x), MessageContentView::Blocks(y)) => MessageContentView::Blocks(
            x.filter(block_nonempty()) + y.filter(block_nonempty()),
        ),
        (MessageContentView::Blocks(x), MessageContentView::Text(y)) => MessageContentView::Blocks(
            x.filter(block_nonempty()).push(
                ContentBlockView::Base(BaseContentBlockView::Text(y)),
            ),
        ),
        (MessageContentView::Text(x), MessageContentView::Blocks(y)) => MessageContentView::Blocks(
            seq![ContentBlockView::Base(BaseContentBlockView::Text(x))] + y.filter(
                block_nonempty(),
            ),
        ),
    }
}

/// The single left-to-right pass: drop empty messages and merge a message
/// into its predecessor whenever the roles agree.
pub open spec fn spec_pass(s: Seq<MessageView>) -> Seq<MessageView>
    decreases s.len(),
{
    if s.len() == 0 {
        Seq::empty()
    } else {
        let prefix = spec_pass(s.drop_last());
        let m = s.last();
        if spec_message_empty(m) {
            prefix
        } else if prefix.len() > 0 && prefix.last().role == m.role {
            prefix.drop_last().push(
                MessageView { role: m.role, content: spec_merge_content(prefix.last().content, m.content) },
            )
        } else {
            prefix.push(m)
        }
    }
}

/// The synthetic opening turn inserted when the conversation would begin with
/// the assistant.
pub open spec fn spec_synthetic_user() -> MessageView {
    MessageView { role: Role::User, content: MessageContentView::Text("Starting the conversation..."@) }
}

/// The leading-role fixup keys on the original, pre-merge first message.
pub open spec fn spec_lead_fix(orig: Seq<MessageView>, merged: Seq<MessageView>) -> Seq<MessageView> {
    if orig.len() > 0 && orig[0].role == Role::Assistant {
        seq![spec_synthetic_user()] + merged
    } else {
        merged
    }
}

/// Trailing-whitespace removal on one block: only bare text blocks change.
pub open spec fn spec_trim_block(b: ContentBlockView) -> ContentBlockView {
    match b {
        ContentBlockView::Base(BaseContentBlockView::Text(t)) => ContentBlockView::Base(
            BaseContentBlockView::Text(trim_end_spec(t)),
        ),
        _ => b,
    }
}

pub open spec fn trim_block_fn() -> spec_fn(ContentBlockView) -> ContentBlockView {
    |b: ContentBlockView| spec_trim_block(b)
}

/// Trailing-whitespace removal on every text-bearing position of a message.
pub open spec fn spec_trim_msg(m: MessageView) -> MessageView {
    MessageView {
        role: m.role,
        content: match m.content {
            MessageContentView::Text(t) => MessageContentView::Text(trim_end_spec(t)),
            MessageContentView::Blocks(bs) => MessageContentView::Blocks(
                bs.map_values(trim_block_fn()),
            ),
        },
    }
}

/// The trailing fixup: trim the final message when its role is assistant.
pub open spec fn spec_tail_fix(s: Seq<MessageView>) -> Seq<MessageView> {
    if s.len() > 0 && s.last().role == Role::Assistant {
        s.update(s.len() - 1, spec_trim_msg(s.last()))
    } else {
        s
    }
}

/// What `process_messages` returns, stated over views.
pub open spec fn spec_normalize(s: Seq<MessageView>) -> Seq<MessageView> {
    spec_tail_fix(spec_lead_fix(s, spec_pass(s)))
}

// ---------------------------------------------------------------------------
// Executable normalizer
// ---------------------------------------------------------------------------

pub open spec fn view_of_blocks(s: Seq<ContentBlock>) -> Seq<ContentBlockView> {
    s.map_values(|b: ContentBlock| b@)
}

proof fn lemma_view_blocks_push(s: Seq<ContentBlock>, b: ContentBlock)
    ensures
        view_of_blocks(s.push(b)) =~= view_of_blocks(s).push(b@),
{
    assert forall|j: int| 0 <= j < s.len() + 1 implies view_of_blocks(s.push(b))[j]
        == view_of_blocks(s).push(b@)[j] by {
        if j < s.len() {
            assert(s.push(b)[j] == s[j]);
        } else {
            assert(s.push(b)[j] == b);
        }
    }
}

/// Keep only the non-empty blocks, in order.
fn filter_empty_blocks(blocks: Vec<ContentBlock>) -> (r: Vec<ContentBlock>)
    ensures
        view_of_blocks(r@) == view_of_blocks(blocks@).filter(block_nonempty()),
{
    let ghost orig = view_of_blocks(blocks@);
    let mut rest = blocks;
    let mut out: Vec<ContentBlock> = Vec::new();
    let ghost mut k: int = 0;
    while rest.len() > 0
        invariant
            0 <= k <= orig.len(),
            view_of_blocks(rest@) =~= orig.subrange(k, orig.len() as int),
            view_of_blocks(out@) =~= orig.take(k).filter(block_nonempty()),
        decreases rest.len(),
    {
        let ghost prev = rest@;
        let b = rest.remove(0);
        proof {
            assert(view_of_blocks(prev)[0] == prev[0]@);
            assert(view_of_blocks(prev) == orig.subrange(k, orig.len() as int));
            assert(view_of_blocks(prev).len() == prev.len());
            assert(k < orig.len());
            assert(orig.subrange(k, orig.len() as int)[0] == orig[k]);
            assert(b@ == orig[k]);
            assert(view_of_blocks(rest@) =~= orig.subrange(k + 1, orig.len() as int)) by {
                assert forall|j: int| 0 <= j < rest@.len() implies view_of_blocks(rest@)[j]
                    == orig[k + 1 + j] by {
                    assert(rest@[j] == prev[j + 1]);
                    assert(view_of_blocks(rest@)[j] == rest@[j]@);
                    assert(view_of_blocks(prev)[j + 1] == prev[j + 1]@);
                    assert(view_of_blocks(prev)[j + 1] == orig.subrange(k, orig.len() as int)[j
                        + 1]);
                    assert(orig.subrange(k, orig.len() as int)[j + 1] == orig[k + 1 + j]);
                }
            }
            assert(orig.take(k + 1).drop_last() =~= orig.take(k));
            assert(orig.take(k + 1).last() == orig[k]);
        }
        let ghost out_prev = out@;
        let keep = !b.is_empty();
        if keep {
            out.push(b);
            proof {
                reveal(Seq::filter);
                lemma_view_blocks_push(out_prev, b);
                assert(view_of_blocks(out@) =~= orig.take(k).filter(block_nonempty()).push(
                    orig[k],
                ));
                assert(orig.take(k + 1).filter(block_nonempty()) == orig.take(k).filter(
                    block_nonempty(),
                ).push(orig[k]));
            }
        } else {
            proof {
                reveal(Seq::filter);
                assert(orig.take(k + 1).filter(block_nonempty()) == orig.take(k).filter(
                    block_nonempty(),
                ));
            }
        }
        proof {
            k = k + 1;
        }
    }
    proof {
        assert(orig.take(orig.len() as int) =~= orig);
    }
    out
}

/// Append every element of `src` to `dst`.
fn append_blocks(dst: &mut Vec<ContentBlock>, src: Vec<ContentBlock>)
    ensures
        view_of_blocks(final(dst)@) == view_of_blocks(old(dst)@) + view_of_blocks(src@),
{
    let ghost base = view_of_blocks(old(dst)@);
    let ghost orig = view_of_blocks(src@);
    let mut rest = src;
    let ghost mut k: int = 0;
    while rest.len() > 0
        invariant
            0 <= k <= orig.len(),
            view_of_blocks(rest@) =~= orig.subrange(k, orig.len() as int),
            view_of_blocks(dst@) =~= base + orig.take(k),
        decreases rest.len(),
    {
        let ghost prev = rest@;
        let b = rest.remove(0);
        proof {
            assert(view_of_blocks(prev)[0] == prev[0]@);
            assert(view_of_blocks(prev) == orig.subrange(k, orig.len() as int));
            assert(view_of_blocks(prev).len() == prev.len());
            assert(k < orig.len());
            assert(orig.subrange(k, orig.len() as int)[0] == orig[k]);
            assert(b@ == orig[k]);
            assert(view_of_blocks(rest@) =~= orig.subrange(k + 1, orig.len() as int)) by {
                assert forall|j: int| 0 <= j < rest@.len() implies view_of_blocks(rest@)[j]
                    == orig[k + 1 + j] by {
                    assert(rest@[j] == prev[j + 1]);
                    assert(view_of_blocks(rest@)[j] == rest@[j]@);
                    assert(view_of_blocks(prev)[j + 1] == prev[j + 1]@);
                    assert(view_of_blocks(prev)[j + 1] == orig.subrange(k, orig.len() as int)[j
                        + 1]);
                    assert(orig.subrange(k, orig.len() as int)[j + 1] == orig[k + 1 + j]);
                }
            }
        }
        let ghost dst_prev = dst@;
        dst.push(b);
        proof {
            lemma_view_blocks_push(dst_prev, b);
            assert(orig.take(k + 1) =~= orig.take(k).push(orig[k]));
            assert(view_of_blocks(dst@) =~= base + orig.take(k + 1));
            k = k + 1;
        }
    }
    proof {
        assert(orig.take(orig.len() as int) =~= orig);
        assert(view_of_blocks(dst@) =~= base + orig);
    }
}

/// Merge the content of two consecutive same-role messages.
fn merge_content(a: MessageContent, b: MessageContent) -> (r: MessageContent)
    ensures
        r@ == spec_merge_content(a@, b@),
{
    match (a, b) {
        (MessageContent::Text(prev), MessageContent::Text(curr)) => {
            let ghost x = prev@;
            let mut t = prev;
            t.append("\n");
            t.append(curr.as_str());
            proof {
                assert(t@ =~= x + "\n"@ + curr@);
            }
            MessageContent::Text(t)
        },
        (MessageContent::Blocks(prev), MessageContent::Blocks(curr)) => {
            let mut kept = filter_empty_blocks(prev);
            let curr_kept = filter_empty_blocks(curr);
            append_blocks(&mut kept, curr_kept);
            MessageContent::Blocks(kept)
        },
        (MessageContent::Blocks(prev), MessageContent::Text(curr)) => {
            let mut kept = filter_empty_blocks(prev);
            let ghost before = view_of_blocks(kept@);
            kept.push(ContentBlock::Base(BaseContentBlock::Text { text: curr }));
            proof {
                assert(view_of_blocks(kept@) =~= before.push(
                    view_of_blocks(kept@)[before.len() as int],
                ));
            }
            MessageContent::Blocks(kept)
        },
        (MessageContent::Text(prev), MessageContent::Blocks(curr)) => {
            let ghost x = prev@;
            let mut out: Vec<ContentBlock> = Vec::new();
            out.push(ContentBlock::Base(BaseContentBlock::Text { text: prev }));
            let curr_kept = filter_empty_blocks(curr);
            append_blocks(&mut out, curr_kept);
            proof {
                assert(view_of_blocks(out@) =~= seq![
                    ContentBlockView::Base(BaseContentBlockView::Text(x)),
                ] + view_of_blocks(curr@).filter(block_nonempty()));
            }
            MessageContent::Blocks(out)
        },
    }
}

/// Remove trailing whitespace from every text-bearing position.
fn trim_message(m: Message) -> (r: Message)
    ensures
        r@ == spec_trim_msg(m@),
{
    let Message { role, content } = m;
    match content {
        MessageContent::Text(t) => {
            let trimmed = trim_end_str(t.as_str());
            Message { role, content: MessageContent::Text(trimmed) }
        },
        MessageContent::Blocks(blocks) => {
            let ghost orig = view_of_blocks(blocks@);
            let mut rest = blocks;
            let mut out: Vec<ContentBlock> = Vec::new();
            let ghost mut k: int = 0;
            while rest.len() > 0
                invariant
                    0 <= k <= orig.len(),
                    view_of_blocks(rest@) =~= orig.subrange(k, orig.len() as int),
                    view_of_blocks(out@) =~= orig.take(k).map_values(trim_block_fn()),
                decreases rest.len(),
            {
                let ghost prev = rest@;
                let b = rest.remove(0);
                proof {
                    assert(view_of_blocks(prev)[0] == prev[0]@);
                    assert(view_of_blocks(prev) == orig.subrange(k, orig.len() as int));
                    assert(view_of_blocks(prev).len() == prev.len());
                    assert(k < orig.len());
                    assert(orig.subrange(k, orig.len() as int)[0] == orig[k]);
                    assert(b@ == orig[k]);
                    assert(view_of_blocks(rest@) =~= orig.subrange(k + 1, orig.len() as int)) by {
                        assert forall|j: int| 0 <= j < rest@.len() implies view_of_blocks(rest@)[j]
                            == orig[k + 1 + j] by {
                            assert(rest@[j] == prev[j + 1]);
                            assert(view_of_blocks(rest@)[j] == rest@[j]@);
                            assert(view_of_blocks(prev)[j + 1] == prev[j + 1]@);
                            assert(view_of_blocks(prev)[j + 1] == orig.subrange(k, orig.len()
                                as int)[j + 1]);
                            assert(orig.subrange(k, orig.len() as int)[j + 1] == orig[k + 1 + j]);
                        }
                    }
                }
                let trimmed_block = match b {
                    ContentBlock::Base(BaseContentBlock::Text { text }) => {
                        let trimmed = trim_end_str(text.as_str());
                        ContentBlock::Base(BaseContentBlock::Text { text: trimmed })
                    },
                    other => other,
                };
                proof {
                    assert(trimmed_block@ == spec_trim_block(orig[k]));
                }
                let ghost out_prev = out@;
                out.push(trimmed_block);
                proof {
                    lemma_view_blocks_push(out_prev, trimmed_block);
                    assert forall|j: int| 0 <= j < out@.len() implies view_of_blocks(out@)[j]
                        == orig.take(k + 1).map_values(trim_block_fn())[j] by {
                        if j < k {
                            assert(view_of_blocks(out_prev)[j] == orig.take(k).map_values(
                                trim_block_fn(),
                            )[j]);
                        }
                    }
                    assert(view_of_blocks(out@) =~= orig.take(k + 1).map_values(trim_block_fn()));
                    k = k + 1;
                }
            }
            proof {
                assert(orig.take(orig.len() as int) =~= orig);
            }
            Message { role, content: MessageContent::Blocks(out) }
        },
    }
}

} // verus!

verus! {

pub proof fn lemma_view_msgs_push(s: Seq<Message>, m: Message)
    ensures
        view_of_messages(s.push(m)) =~= view_of_messages(s).push(m@),
{
    assert forall|j: int| 0 <= j < s.len() + 1 implies view_of_messages(s.push(m))[j]
        == view_of_messages(s).push(m@)[j] by {
        if j < s.len() {
            assert(s.push(m)[j] == s[j]);
        } else {
            assert(s.push(m)[j] == m);
        }
    }
}

/// Repair an arbitrary message sequence into the strict form the vendor API
/// requires: drop empty messages, merge consecutive same-role messages,
/// prepend a synthetic user turn when the caller's first message was from the
/// assistant, and trim trailing whitespace from a final assistant message.
pub fn process_messages(messages: Vec<Message>) -> (r: Vec<Message>)
    ensures
        view_of_messages(r@) == spec_normalize(view_of_messages(messages@)),
{
    let ghost orig = view_of_messages(messages@);
    let first_is_assistant = messages.len() > 0 && messages[0].role == Role::Assistant;
    proof {
        if messages.len() > 0 {
            assert(orig[0] == messages@[0]@);
        }
    }
    let mut rest = messages;
    let mut filtered: Vec<Message> = Vec::new();
    let ghost mut k: int = 0;
    while rest.len() > 0
        invariant
            0 <= k <= orig.len(),
            view_of_messages(rest@) =~= orig.subrange(k, orig.len() as int),
            view_of_messages(filtered@) =~= spec_pass(orig.take(k)),
        decreases rest.len(),
    {
        let ghost prev = rest@;
        let m = rest.remove(0);
        proof {
            assert(view_of_messages(prev)[0] == prev[0]@);
            assert(view_of_messages(prev) == orig.subrange(k, orig.len() as int));
            assert(view_of_messages(prev).len() == prev.len());
            assert(k < orig.len());
            assert(orig.subrange(k, orig.len() as int)[0] == orig[k]);
            assert(m@ == orig[k]);
            assert(view_of_messages(rest@) =~= orig.subrange(k + 1, orig.len() as int)) by {
                assert forall|j: int| 0 <= j < rest@.len() implies view_of_messages(rest@)[j]
                    == orig[k + 1 + j] by {
                    assert(rest@[j] == prev[j + 1]);
                    assert(view_of_messages(rest@)[j] == rest@[j]@);
                    assert(view_of_messages(prev)[j + 1] == prev[j + 1]@);
                    assert(view_of_messages(prev)[j + 1] == orig.subrange(k, orig.len() as int)[j
                        + 1]);
                    assert(orig.subrange(k, orig.len() as int)[j + 1] == orig[k + 1 + j]);
                }
            }
            assert(orig.take(k + 1).drop_last() =~= orig.take(k));
            assert(orig.take(k + 1).last() == orig[k]);
        }
        let empty = m.is_all_empty();
        if empty {
            proof {
                assert(spec_pass(orig.take(k + 1)) == spec_pass(orig.take(k)));
                k = k + 1;
            }
        } else {
            let ghost fprev = filtered@;
            proof {
                assert(view_of_messages(fprev).len() == fprev.len());
            }
            let flen = filtered.len();
            if flen > 0 && filtered[flen - 1].role == m.role {
                proof {
                    assert(view_of_messages(fprev)[flen - 1] == fprev[flen - 1]@);
                    assert(spec_pass(orig.take(k)).last().role == orig[k].role);
                }
                let prev_msg = filtered.pop().unwrap();
                let Message { role: prole, content: pcontent } = prev_msg;
                let Message { role: mrole, content: mcontent } = m;
                let ghost pc = pcontent@;
                let ghost mc = mcontent@;
                let merged_content = merge_content(pcontent, mcontent);
                let ghost fpopped = filtered@;
                let merged = Message { role: prole, content: merged_content };
                filtered.push(merged);
                proof {
                    assert(fpopped =~= fprev.drop_last());
                    lemma_view_msgs_push(fpopped, merged);
                    assert(merged@ == MessageView {
                        role: orig[k].role,
                        content: spec_merge_content(
                            spec_pass(orig.take(k)).last().content,
                            orig[k].content,
                        ),
                    }) by {
                        assert(prev_msg@ == fprev[flen - 1]@);
                        assert(view_of_messages(fprev).last() == spec_pass(orig.take(k)).last());
                        assert(prole == orig[k].role);
                    }
                    assert(view_of_messages(fpopped) =~= view_of_messages(fprev).drop_last()) by {
                        assert forall|j: int| 0 <= j < fpopped.len() implies view_of_messages(
                            fpopped,
                        )[j] == view_of_messages(fprev).drop_last()[j] by {
                            assert(fpopped[j] == fprev[j]);
                            assert(view_of_messages(fprev)[j] == fprev[j]@);
                        }
                    }
                    assert(spec_pass(orig.take(k + 1)) == spec_pass(orig.take(k)).drop_last().push(
                        MessageView {
                            role: orig[k].role,
                            content: spec_merge_content(
                                spec_pass(orig.take(k)).last().content,
                                orig[k].content,
                            ),
                        },
                    ));
                    assert(view_of_messages(filtered@) =~= spec_pass(orig.take(k + 1)));
                    k = k + 1;
                }
            } else {
                filtered.push(m);
                proof {
                    lemma_view_msgs_push(fprev, m);
                    if flen > 0 {
                        assert(view_of_messages(fprev)[flen - 1] == fprev[flen - 1]@);
                        assert(spec_pass(orig.take(k)).last().role != orig[k].role);
                    }
                    assert(spec_pass(orig.take(k + 1)) == spec_pass(orig.take(k)).push(orig[k]));
                    assert(view_of_messages(filtered@) =~= spec_pass(orig.take(k + 1)));
                    k = k + 1;
                }
            }
        }
    }
    proof {
        assert(orig.take(orig.len() as int) =~= orig);
        assert(view_of_messages(filtered@) =~= spec_pass(orig));
    }

    if first_is_assistant {
        let ghost fprev = filtered@;
        filtered.insert(
            0,
            Message {
                role: Role::User,
                content: MessageContent::Text("Starting the conversation...".to_owned()),
            },
        );
        proof {
            assert forall|j: int| 0 <= j < filtered@.len() implies view_of_messages(filtered@)[j]
                == (seq![spec_synthetic_user()] + spec_pass(orig))[j] by {
                assert(view_of_messages(filtered@)[j] == filtered@[j]@);
                if j == 0 {
                } else {
                    assert(filtered@[j] == fprev[j - 1]);
                    assert(view_of_messages(fprev)[j - 1] == fprev[j - 1]@);
                }
            }
            assert(view_of_messages(filtered@) =~= seq![spec_synthetic_user()] + spec_pass(orig));
            assert(view_of_messages(filtered@) =~= spec_lead_fix(orig, spec_pass(orig)));
        }
    } else {
        proof {
            assert(view_of_messages(filtered@) =~= spec_lead_fix(orig, spec_pass(orig)));
        }
    }

    let ghost led = spec_lead_fix(orig, spec_pass(orig));
    let flen = filtered.len();
    if flen > 0 && filtered[flen - 1].role == Role::Assistant {
        let ghost fprev = filtered@;
        proof {
            assert(view_of_messages(fprev)[flen - 1] == fprev[flen - 1]@);
            assert(led.last().role == Role::Assistant);
        }
        let last = filtered.pop().unwrap();
        let trimmed = trim_message(last);
        let ghost fpopped = filtered@;
        filtered.push(trimmed);
        proof {
            lemma_view_msgs_push(fpopped, trimmed);
            assert(view_of_messages(fpopped) =~= view_of_messages(fprev).drop_last()) by {
                assert forall|j: int| 0 <= j < fpopped.len() implies view_of_messages(fpopped)[j]
                    == view_of_messages(fprev).drop_last()[j] by {
                    assert(fpopped[j] == fprev[j]);
                    assert(view_of_messages(fprev)[j] == fprev[j]@);
                }
            }
            assert(last@ == led.last());
            assert(spec_tail_fix(led) =~= led.drop_last().push(spec_trim_msg(led.last())));
            assert(view_of_messages(filtered@) =~= spec_tail_fix(led));
        }
    } else {
        proof {
            if flen > 0 {
                assert(view_of_messages(filtered@)[flen - 1] == filtered@[flen - 1]@);
            }
            assert(view_of_messages(filtered@) =~= spec_tail_fix(led));
        }
    }
    proof {
        assert(view_of_messages(filtered@) =~= spec_normalize(orig));
    }
    filtered
}

} // verus!

verus! {

// ---------------------------------------------------------------------------
// Conversation laws
// ---------------------------------------------------------------------------

/// No two neighbouring messages share a role.
pub open spec fn spec_alternates(s: Seq<MessageView>) -> bool {
    forall|i: int| 0 <= i < s.len() - 1 ==> (#[trigger] s[i]).role != s[i + 1].role
}

/// The invariants a normalized conversation satisfies: non-empty, opens with
/// the user, strictly alternating, and a final assistant message carries no
/// trailing whitespace.
pub open spec fn conversation_wellformed(s: Seq<MessageView>) -> bool {
    &&& s.len() > 0
    &&& s[0].role == Role::User
    &&& spec_alternates(s)
    &&& (s.last().role == Role::Assistant ==> spec_trim_msg(s.last()) == s.last())
}

/// The shape every `process_messages` result has; the empty sequence counts.
pub open spec fn is_normalized(s: Seq<MessageView>) -> bool {
    &&& forall|i: int| 0 <= i < s.len() ==> !spec_message_empty(#[trigger] s[i])
    &&& s.len() > 0 ==> s[0].role == Role::User
    &&& spec_alternates(s)
    &&& (s.len() > 0 && s.last().role == Role::Assistant ==> spec_trim_msg(s.last()) == s.last())
}

/// Some message of the sequence is non-empty.
pub open spec fn spec_has_nonempty(s: Seq<MessageView>) -> bool {
    exists|i: int| 0 <= i < s.len() && !spec_message_empty(#[trigger] s[i])
}

/// The index of the first non-empty message; meaningful only when one exists.
pub open spec fn spec_first_nonempty(s: Seq<MessageView>) -> int {
    choose|i: int|
        0 <= i < s.len() && !spec_message_empty(#[trigger] s[i]) && forall|j: int|
            0 <= j < i ==> spec_message_empty(#[trigger] s[j])
}

/// A witness that is non-empty and preceded only by empty messages is the
/// first non-empty message.
proof fn lemma_first_nonempty_is(s: Seq<MessageView>, w: int)
    requires
        0 <= w < s.len(),
        !spec_message_empty(s[w]),
        forall|j: int| 0 <= j < w ==> spec_message_empty(#[trigger] s[j]),
    ensures
        spec_has_nonempty(s),
        spec_first_nonempty(s) == w,
{
    assert(spec_has_nonempty(s));
    let q = spec_first_nonempty(s);
    assert(0 <= q < s.len() && !spec_message_empty(s[q]) && forall|j: int|
        0 <= j < q ==> spec_message_empty(#[trigger] s[j]));
    if q < w {
        assert(spec_message_empty(s[q]));
    }
    if q > w {
        assert(spec_message_empty(s[w]));
    }
}

/// Every non-empty sequence with a non-empty message has a first one.
proof fn lemma_first_nonempty_exists(s: Seq<MessageView>)
    requires
        spec_has_nonempty(s),
    ensures
        0 <= spec_first_nonempty(s) < s.len(),
        !spec_message_empty(s[spec_first_nonempty(s)]),
        forall|j: int|
            0 <= j < spec_first_nonempty(s) ==> spec_message_empty(#[trigger] s[j]),
    decreases s.len(),
{
    let w = choose|i: int| 0 <= i < s.len() && !spec_message_empty(#[trigger] s[i]);
    if spec_has_nonempty(s.drop_last()) {
        lemma_first_nonempty_exists(s.drop_last());
        let j = spec_first_nonempty(s.drop_last());
        assert(s.drop_last()[j] == s[j]);
        assert forall|i: int| 0 <= i < j implies spec_message_empty(#[trigger] s[i]) by {
            assert(spec_message_empty(s.drop_last()[i]));
        }
        lemma_first_nonempty_is(s, j);
    } else {
        assert forall|i: int| 0 <= i < s.len() - 1 implies spec_message_empty(
            #[trigger] s[i],
        ) by {
            if !spec_message_empty(s[i]) {
                assert(s.drop_last()[i] == s[i]);
                assert(spec_has_nonempty(s.drop_last()));
            }
        }
        assert(w == s.len() - 1);
        lemma_first_nonempty_is(s, s.len() - 1);
    }
}

/// Merging two non-empty contents yields non-empty content.
proof fn lemma_merge_content_nonempty(a: MessageContentView, b: MessageContentView)
    requires
        !spec_content_empty(a),
        !spec_content_empty(b),
    ensures
        !spec_content_empty(spec_merge_content(a, b)),
{
    reveal(Seq::filter);
    match (a, b) {
        (MessageContentView::Text(x), MessageContentView::Text(y)) => {
            let i = choose|i: int| 0 <= i < x.len() && !is_ws_char(x[i]);
            assert((x + "\n"@)[i] == x[i]);
            assert((x + "\n"@ + y)[i] == (x + "\n"@)[i]);
            assert(!is_blank(x + "\n"@ + y));
        },
        (MessageContentView::Blocks(x), MessageContentView::Blocks(y)) => {
            let i = choose|i: int| 0 <= i < x.len() && !spec_block_empty(x[i]);
            x.filter_lemma(block_nonempty());
            assert(block_nonempty()(x[i]));
            assert(x.filter(block_nonempty()).contains(x[i]));
            let j = choose|j: int|
                0 <= j < x.filter(block_nonempty()).len() && x.filter(block_nonempty())[j] == x[i];
            let merged = x.filter(block_nonempty()) + y.filter(block_nonempty());
            assert(merged[j] == x[i]);
            assert(!spec_block_empty(merged[j]));
            assert(0 <= j < merged.len());
            assert(!spec_all_blocks_empty(merged)) by {
                if spec_all_blocks_empty(merged) {
                    assert(spec_block_empty(merged[j]));
                }
            }
        },
        (MessageContentView::Blocks(x), MessageContentView::Text(y)) => {
            let merged = x.filter(block_nonempty()).push(
                ContentBlockView::Base(BaseContentBlockView::Text(y)),
            );
            let j = merged.len() - 1;
            assert(merged[j] == ContentBlockView::Base(BaseContentBlockView::Text(y)));
            assert(!spec_block_empty(merged[j]));
            assert(!spec_all_blocks_empty(merged)) by {
                if spec_all_blocks_empty(merged) {
                    assert(spec_block_empty(merged[j]));
                }
            }
        },
        (MessageContentView::Text(x), MessageContentView::Blocks(y)) => {
            let merged = seq![ContentBlockView::Base(BaseContentBlockView::Text(x))] + y.filter(
                block_nonempty(),
            );
            assert(merged[0] == ContentBlockView::Base(BaseContentBlockView::Text(x)));
            assert(!spec_block_empty(merged[0]));
            assert(!spec_all_blocks_empty(merged)) by {
                if spec_all_blocks_empty(merged) {
                    assert(spec_block_empty(merged[0]));
                }
            }
        },
    }
}

/// Trimming cannot empty a non-empty message.
proof fn lemma_trim_msg_nonempty(m: MessageView)
    requires
        !spec_message_empty(m),
    ensures
        !spec_message_empty(spec_trim_msg(m)),
        spec_trim_msg(m).role == m.role,
{
    match m.content {
        MessageContentView::Text(t) => {
            let i = choose|i: int| 0 <= i < t.len() && !is_ws_char(t[i]);
            lemma_trim_end_keeps_non_ws(t, i);
            assert(!is_blank(trim_end_spec(t)));
        },
        MessageContentView::Blocks(bs) => {
            let i = choose|i: int| 0 <= i < bs.len() && !spec_block_empty(bs[i]);
            let ts = bs.map_values(trim_block_fn());
            assert(ts[i] == spec_trim_block(bs[i]));
            match bs[i] {
                ContentBlockView::Base(BaseContentBlockView::Text(t)) => {
                    let j = choose|j: int| 0 <= j < t.len() && !is_ws_char(t[j]);
                    lemma_trim_end_keeps_non_ws(t, j);
                    assert(!spec_block_empty(ts[i]));
                },
                _ => {
                    assert(ts[i] == bs[i]);
                },
            }
            assert(0 <= i < ts.len());
            assert(!spec_all_blocks_empty(ts)) by {
                if spec_all_blocks_empty(ts) {
                    assert(spec_block_empty(ts[i]));
                }
            }
        },
    }
}

/// Trimming is idempotent.
proof fn lemma_trim_msg_idempotent(m: MessageView)
    ensures
        spec_trim_msg(spec_trim_msg(m)) == spec_trim_msg(m),
{
    match m.content {
        MessageContentView::Text(t) => {
            lemma_trim_end_idempotent(t);
        },
        MessageContentView::Blocks(bs) => {
            let ts = bs.map_values(trim_block_fn());
            assert forall|i: int| 0 <= i < ts.len() implies #[trigger] ts.map_values(
                trim_block_fn(),
            )[i] == ts[i] by {
                assert(ts[i] == spec_trim_block(bs[i]));
                match bs[i] {
                    ContentBlockView::Base(BaseContentBlockView::Text(t)) => {
                        lemma_trim_end_idempotent(t);
                    },
                    _ => {},
                }
            }
            assert(ts.map_values(trim_block_fn()) =~= ts);
        },
    }
}

/// What the merging pass guarantees: no empty messages, strict alternation,
/// and a first message that keeps the first non-empty input's role.
#[verifier::rlimit(100)]
#[verifier::rlimit(100)]
proof fn lemma_pass_props(s: Seq<MessageView>)
    ensures
        forall|i: int|
            0 <= i < spec_pass(s).len() ==> !spec_message_empty(#[trigger] spec_pass(s)[i]),
        spec_alternates(spec_pass(s)),
    decreases s.len(),
{
    if s.len() > 0 {
        lemma_pass_props(s.drop_last());
        let prefix = spec_pass(s.drop_last());
        let m = s.last();
        let out = spec_pass(s);
        if s.len() > 1 {
            assert(s.drop_last()[0] == s[0]);
        }
        if spec_message_empty(m) {
        } else if prefix.len() > 0 && prefix.last().role == m.role {
            lemma_merge_content_nonempty(prefix.last().content, m.content);
            let merged = MessageView {
                role: m.role,
                content: spec_merge_content(prefix.last().content, m.content),
            };
            assert(out == prefix.drop_last().push(merged));
            assert forall|i: int| 0 <= i < out.len() implies !spec_message_empty(
                #[trigger] out[i],
            ) by {
                if i < out.len() - 1 {
                    assert(out[i] == prefix[i]);
                } else {
                    assert(out[i] == merged);
                }
            }
            assert forall|i: int| 0 <= i < out.len() - 1 implies (#[trigger] out[i]).role != out[i
                + 1].role by {
                assert(out[i] == prefix[i]);
                if i + 1 < out.len() - 1 {
                    assert(out[i + 1] == prefix[i + 1]);
                } else {
                    assert(out[i + 1] == merged);
                    assert(merged.role == prefix.last().role);
                }
            }
        } else {
            assert(out == prefix.push(m));
            assert forall|i: int| 0 <= i < out.len() implies !spec_message_empty(
                #[trigger] out[i],
            ) by {
                if i < out.len() - 1 {
                    assert(out[i] == prefix[i]);
                } else {
                    assert(out[i] == m);
                }
            }
            assert forall|i: int| 0 <= i < out.len() - 1 implies (#[trigger] out[i]).role != out[i
                + 1].role by {
                assert(out[i] == prefix[i]);
                if i + 1 < out.len() - 1 {
                    assert(out[i + 1] == prefix[i + 1]);
                } else {
                    assert(out[i + 1] == m);
                }
            }
        }
    }
}

/// The merging pass yields something exactly when some input message is
/// non-empty, and its first message keeps the first non-empty input's role.
#[verifier::rlimit(100)]
proof fn lemma_pass_first(s: Seq<MessageView>)
    ensures
        spec_pass(s).len() > 0 <==> spec_has_nonempty(s),
        spec_has_nonempty(s) ==> spec_pass(s)[0].role == s[spec_first_nonempty(s)].role,
    decreases s.len(),
{
    if s.len() > 0 {
        lemma_pass_first(s.drop_last());
        let prefix = spec_pass(s.drop_last());
        let m = s.last();
        let out = spec_pass(s);
        if spec_has_nonempty(s.drop_last()) {
            lemma_first_nonempty_exists(s.drop_last());
            let j = spec_first_nonempty(s.drop_last());
            assert(s.drop_last()[j] == s[j]);
            assert forall|i: int| 0 <= i < j implies spec_message_empty(#[trigger] s[i]) by {
                assert(spec_message_empty(s.drop_last()[i]));
            }
            lemma_first_nonempty_is(s, j);
            assert(prefix[0].role == s[j].role);
            if spec_message_empty(m) {
                assert(out == prefix);
            } else if prefix.len() > 0 && prefix.last().role == m.role {
                if prefix.len() > 1 {
                    assert(out[0] == prefix[0]);
                } else {
                    assert(out[0].role == prefix.last().role);
                    assert(prefix[0] == prefix.last());
                }
            } else {
                assert(out == prefix.push(m));
                assert(out[0] == prefix[0]);
            }
            assert(spec_has_nonempty(s)) by {
                assert(!spec_message_empty(s[j]));
            }
        } else {
            assert(prefix.len() == 0);
            assert forall|i: int| 0 <= i < s.len() - 1 implies spec_message_empty(
                #[trigger] s[i],
            ) by {
                if !spec_message_empty(s[i]) {
                    assert(s.drop_last()[i] == s[i]);
                    assert(spec_has_nonempty(s.drop_last()));
                }
            }
            if !spec_message_empty(m) {
                lemma_first_nonempty_is(s, s.len() - 1);
                assert(out == prefix.push(m));
                assert(out[0] == m);
            } else {
                assert(out == prefix);
                if spec_has_nonempty(s) {
                    let w = choose|i: int|
                        0 <= i < s.len() && !spec_message_empty(#[trigger] s[i]);
                    assert(spec_message_empty(s[w]));
                }
            }
        }
    }
}

/// On an already clean sequence the merging pass changes nothing.
#[verifier::rlimit(100)]
proof fn lemma_pass_fixpoint(s: Seq<MessageView>)
    requires
        forall|i: int| 0 <= i < s.len() ==> !spec_message_empty(#[trigger] s[i]),
        spec_alternates(s),
    ensures
        spec_pass(s) == s,
    decreases s.len(),
{
    if s.len() > 0 {
        assert forall|i: int| 0 <= i < s.drop_last().len() - 1 implies (#[trigger] s.drop_last()[
            i]).role != s.drop_last()[i + 1].role by {
            assert(s.drop_last()[i] == s[i]);
            assert(s.drop_last()[i + 1] == s[i + 1]);
        }
        lemma_pass_fixpoint(s.drop_last());
        let prefix = spec_pass(s.drop_last());
        if prefix.len() > 0 {
            assert(prefix.last() == s[s.len() - 2]);
            assert(s[s.len() - 2].role != s[s.len() - 1].role);
        }
        assert(spec_pass(s) == prefix.push(s.last()));
        assert(s.drop_last().push(s.last()) =~= s);
    }
}

/// Normalizing an already-normalized conversation returns it unchanged.
#[verifier::rlimit(100)]
pub proof fn lemma_normalize_idempotent(s: Seq<MessageView>)
    requires
        is_normalized(s),
    ensures
        spec_normalize(s) == s,
{
    if s.len() == 0 {
        assert(spec_pass(s) == Seq::<MessageView>::empty());
        assert(spec_normalize(s) =~= s);
    } else {
        lemma_pass_fixpoint(s);
        assert(spec_lead_fix(s, s) == s);
        if s.last().role == Role::Assistant {
            assert(spec_tail_fix(s) == s.update(s.len() - 1, spec_trim_msg(s.last())));
            assert(spec_trim_msg(s.last()) == s.last());
            assert(s.update(s.len() - 1, s.last()) =~= s);
        }
        assert(spec_normalize(s) == s);
    }
}

/// When the raw first message's role agrees with the first non-empty
/// message's role, the leading fixup yields a conversation that opens with
/// the user, still alternates, and still has no empty message.
#[verifier::rlimit(100)]
proof fn lemma_lead_props(s: Seq<MessageView>)
    requires
        s.len() > 0,
        spec_has_nonempty(s),
        s[0].role == s[spec_first_nonempty(s)].role,
    ensures
        spec_lead_fix(s, spec_pass(s)).len() > 0,
        spec_lead_fix(s, spec_pass(s))[0].role == Role::User,
        spec_alternates(spec_lead_fix(s, spec_pass(s))),
        forall|i: int|
            0 <= i < spec_lead_fix(s, spec_pass(s)).len() ==> !spec_message_empty(
                #[trigger] spec_lead_fix(s, spec_pass(s))[i],
            ),
{
    lemma_pass_props(s);
    lemma_pass_first(s);
    lemma_first_nonempty_exists(s);
    let p = spec_pass(s);
    let l = spec_lead_fix(s, p);
    assert(p[0].role == s[0].role);
    let synth = spec_synthetic_user();
    assert(!spec_message_empty(synth)) by {
        reveal_strlit("Starting the conversation...");
        assert("Starting the conversation..."@[0] == 'S');
        assert(!is_ws_char('S'));
    }
    if s[0].role == Role::Assistant {
        assert(l == seq![synth] + p);
        assert(l[0] == synth);
        assert(p[0].role == Role::Assistant);
        assert forall|i: int| 0 <= i < l.len() implies !spec_message_empty(#[trigger] l[i]) by {
            if i > 0 {
                assert(l[i] == p[i - 1]);
            }
        }
        assert forall|i: int| 0 <= i < l.len() - 1 implies (#[trigger] l[i]).role != l[i
            + 1].role by {
            if i == 0 {
                assert(l[1] == p[0]);
            } else {
                assert(l[i] == p[i - 1]);
                assert(l[i + 1] == p[i]);
            }
        }
    } else {
        assert(l == p);
        assert(l[0].role == Role::User);
    }
}

/// The trailing fixup preserves the invariants and leaves a conversation
/// whose final assistant message is already trimmed.
#[verifier::rlimit(100)]
proof fn lemma_tail_props(l: Seq<MessageView>)
    requires
        l.len() > 0,
        l[0].role == Role::User,
        spec_alternates(l),
        forall|i: int| 0 <= i < l.len() ==> !spec_message_empty(#[trigger] l[i]),
    ensures
        conversation_wellformed(spec_tail_fix(l)),
        is_normalized(spec_tail_fix(l)),
{
    let t = spec_tail_fix(l);
    if l.last().role == Role::Assistant {
        let trimmed = spec_trim_msg(l.last());
        lemma_trim_msg_nonempty(l.last());
        lemma_trim_msg_idempotent(l.last());
        assert(t == l.update(l.len() - 1, trimmed));
        assert(l.len() >= 2) by {
            if l.len() == 1 {
                assert(l.last() == l[0]);
            }
        }
        assert(t[0] == l[0]);
        assert forall|i: int| 0 <= i < t.len() implies !spec_message_empty(#[trigger] t[i]) by {
            if i < t.len() - 1 {
                assert(t[i] == l[i]);
            } else {
                assert(t[i] == trimmed);
            }
        }
        assert forall|i: int| 0 <= i < t.len() - 1 implies (#[trigger] t[i]).role != t[i
            + 1].role by {
            assert(l[i].role != l[i + 1].role);
            if i < t.len() - 2 {
                assert(t[i] == l[i]);
                assert(t[i + 1] == l[i + 1]);
            } else {
                assert(t[i] == l[i]);
                assert(t[i + 1] == trimmed);
            }
        }
        assert(t.last() == trimmed);
    } else {
        assert(t == l);
    }
}

/// Whenever some input message is non-empty and the raw first message's role
/// agrees with the first non-empty message's role, the normalized output
/// satisfies all four conversation invariants and drops every empty message.
/// The role agreement is needed because the leading fixup keys on the raw
/// first message, dropped or not: an input whose empty opening message
/// carries the other role normalizes to a conversation that opens wrongly.
pub proof fn lemma_normalize_wellformed(s: Seq<MessageView>)
    requires
        s.len() > 0,
        spec_has_nonempty(s),
        s[0].role == s[spec_first_nonempty(s)].role,
    ensures
        conversation_wellformed(spec_normalize(s)),
        is_normalized(spec_normalize(s)),
{
    lemma_lead_props(s);
    lemma_tail_props(spec_lead_fix(s, spec_pass(s)));
}

/// Running the normalizer twice changes nothing beyond the first run.
pub proof fn lemma_normalize_stable(s: Seq<MessageView>)
    requires
        s.len() > 0,
        spec_has_nonempty(s),
        s[0].role == s[spec_first_nonempty(s)].role,
    ensures
        spec_normalize(spec_normalize(s)) == spec_normalize(s),
{
    lemma_normalize_wellformed(s);
    lemma_normalize_idempotent(spec_normalize(s));
}

} // verus!
