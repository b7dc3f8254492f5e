use vstd::prelude::*;

use crate::cmd::{cmd_has_alias, spec_unknown_reply, unknown_command_reply, Commands, Sender};
use crate::config::Time;
use crate::invoke::{extract_invocation, spec_invocation};
use crate::numfmt::{dec_str, to_decimal};

verus! {

/// The content kind of an inbound update. Only `Message` is routed; the other
/// kinds are logged and dropped.
#[derive(Clone, Copy, Debug, PartialEq, Eq, Structural)]
pub enum UpdateKind {
    Message,
    EditedMessage,
    ChannelPost,
    EditedChannelPost,
    InlineQuery,
    ChosenInlineResult,
    CallbackQuery,
    ShippingQuery,
    PreCheckoutQuery,
    Poll,
    PollAnswer,
    MyChatMember,
    ChatMember,
    ChatJoinRequest,
}

impl UpdateKind {
    /// The kind's display name.
    pub open spec fn spec_name(self) -> Seq<char> {
        match self {
            UpdateKind::Message => "Message"@,
            UpdateKind::EditedMessage => "EditedMessage"@,
            UpdateKind::ChannelPost => "ChannelPost"@,
            UpdateKind::EditedChannelPost => "EditedChannelPost"@,
            UpdateKind::InlineQuery => "InlineQuery"@,
            UpdateKind::ChosenInlineResult => "ChosenInlineResult"@,
            UpdateKind::CallbackQuery => "CallbackQuery"@,
            UpdateKind::ShippingQuery => "ShippingQuery"@,
            UpdateKind::PreCheckoutQuery => "PreCheckoutQuery"@,
            UpdateKind::Poll => "Poll"@,
            UpdateKind::PollAnswer => "PollAnswer"@,
            UpdateKind::MyChatMember => "MyChatMember"@,
            UpdateKind::ChatMember => "ChatMember"@,
            UpdateKind::ChatJoinRequest => "ChatJoinRequest"@,
        }
    }

    /// The kind's name, logged when an unsupported update is dropped.
    pub fn kind_name(&self) -> (r: &'static str)
        ensures
            r@ == self.spec_name(),
    {
        match self {
            UpdateKind::Message => "Message",
            UpdateKind::EditedMessage => "EditedMessage",
            UpdateKind::ChannelPost => "ChannelPost",
            UpdateKind::EditedChannelPost => "EditedChannelPost",
            UpdateKind::InlineQuery => "InlineQuery",
            UpdateKind::ChosenInlineResult => "ChosenInlineResult",
            UpdateKind::CallbackQuery => "CallbackQuery",
            UpdateKind::ShippingQuery => "ShippingQuery",
            UpdateKind::PreCheckoutQuery => "PreCheckoutQuery",
            UpdateKind::Poll => "Poll",
            UpdateKind::PollAnswer => "PollAnswer",
            UpdateKind::MyChatMember => "MyChatMember",
            UpdateKind::ChatMember => "ChatMember",
            UpdateKind::ChatJoinRequest => "ChatJoinRequest",
        }
    }
}

/// One inbound event: a numeric id, a content kind, a timestamp, an origin
/// chat, and an optional text payload. Immutable once received.
#[derive(Clone, Debug)]
pub struct Update {
    pub id: u32,
    pub kind: UpdateKind,
    pub date: u64,
    pub chat: i64,
    pub text: Option<String>,
}

/// Process-wide values frozen before the pump starts: the launch time, the
/// bot's platform username, and the allow-listed chat identifiers.
#[derive(Clone, Debug)]
pub struct BotContext {
    pub start_time: u64,
    pub bot_username: String,
    pub enabled_chats: Vec<String>,
}

/// The origin chat is on the allow-list: some entry is, character for
/// character, the decimal rendering of the chat id.
pub open spec fn chat_allowed(chat: i64, chats: Seq<String>) -> bool {
    exists|i: int| 0 <= i < chats.len() && chats[i]@ == dec_str(chat as int)
}

/// Decides `chat_allowed` by exact string match.
pub fn is_chat_allowed(chat: i64, chats: &Vec<String>) -> (r: bool)
    ensures
        r == chat_allowed(chat, chats@),
{
    let key = to_decimal(chat);
    let n = chats.len();
    let mut i: usize = 0;
    while i < n
        invariant
            i <= n,
            n == chats@.len(),
            key@ == dec_str(chat as int),
            forall|j: int| 0 <= j < i ==> chats@[j]@ != dec_str(chat as int),
        decreases n - i,
    {
        if key.eq(&chats[i]) {
            return true;
        }
        i = i + 1;
    }
    false
}

/// The update carries a non-empty text payload.
pub open spec fn has_payload(u: Update) -> bool {
    match u.text {
        Option::Some(t) => t@.len() > 0,
        Option::None => false,
    }
}

/// The text payload, empty when there is none.
pub open spec fn payload(u: Update) -> Seq<char> {
    match u.text {
        Option::Some(t) => t@,
        Option::None => Seq::empty(),
    }
}

/// The update passes every filter stage: it is a message, not older than the
/// launch time, from an allow-listed chat, and has a non-empty text.
pub open spec fn eligible(u: Update, ctx: BotContext) -> bool {
    u.kind == UpdateKind::Message && u.date >= ctx.start_time && chat_allowed(
        u.chat,
        ctx.enabled_chats@,
    ) && has_payload(u)
}

/// Why an update was dropped without a reply.
#[derive(Clone, Copy, Debug, PartialEq, Eq, Structural)]
pub enum DiscardReason {
    /// The update is not a plain message.
    UnsupportedKind,
    /// The message predates the process launch.
    Stale,
    /// The origin chat is not on the allow-list.
    ChatNotEnabled,
    /// There is no text payload, or it is empty.
    NoText,
    /// Tokenization failed, yielded no token, or the mention was rejected.
    NotInvocation,
}

/// What to do with one update.
#[derive(Debug)]
pub enum UpdateAction {
    /// Drop the update silently.
    Discard { reason: DiscardReason },
    /// Hand the plain (non-command) message to the message-handler
    /// collaborator.
    Forward,
    /// Run the command at `index` in the registry with the full token
    /// sequence.
    Run { index: usize, args: Vec<String>, sender: Sender },
    /// No command resolves: send the unknown-command reply to the origin.
    ReplyUnknown { sender: Sender, text: String },
}

/// `r` runs the command at a registry position that resolves `args[0]` — by
/// primary name when `by_name`, else by alias — with the full token sequence
/// and a sender bound to the origin chat.
pub open spec fn runs_command(
    r: UpdateAction,
    cmds: Commands,
    chat: i64,
    args: Seq<Seq<char>>,
    by_name: bool,
) -> bool {
    match r {
        UpdateAction::Run { index, args: out, sender } => index < cmds.list@.len() && (if by_name {
            cmds.list@[index as int].name@ == args[0]
        } else {
            cmd_has_alias(cmds.list@[index as int], args[0])
        }) && out.deep_view() == args && sender == (Sender::Telegram { chat }),
        _ => false,
    }
}

/// `r` sends the unknown-command reply for `key` to the origin chat.
pub open spec fn replies_unknown(r: UpdateAction, chat: i64, key: Seq<char>) -> bool {
    match r {
        UpdateAction::ReplyUnknown { sender, text } => sender == (Sender::Telegram { chat })
            && text@ == spec_unknown_reply(key),
        _ => false,
    }
}

/// Decides what one update leads to: the filter stages in order, then
/// extraction, then resolution against the registry. A message older than the
/// launch time, or from a chat off the allow-list, is never dispatched.
pub fn plan_update(u: &Update, ctx: &BotContext, cmds: &Commands) -> (r: UpdateAction)
    requires
        cmds.wf(),
    ensures
        u.kind != UpdateKind::Message ==> r == (UpdateAction::Discard {
            reason: DiscardReason::UnsupportedKind,
        }),
        u.kind == UpdateKind::Message && u.date < ctx.start_time ==> r == (UpdateAction::Discard {
            reason: DiscardReason::Stale,
        }),
        u.kind == UpdateKind::Message && u.date >= ctx.start_time && !chat_allowed(
            u.chat,
            ctx.enabled_chats@,
        ) ==> r == (UpdateAction::Discard { reason: DiscardReason::ChatNotEnabled }),
        u.kind == UpdateKind::Message && u.date >= ctx.start_time && chat_allowed(
            u.chat,
            ctx.enabled_chats@,
        ) && !has_payload(*u) ==> r == (UpdateAction::Discard { reason: DiscardReason::NoText }),
        eligible(*u, *ctx) && payload(*u)[0] != '/' ==> r == UpdateAction::Forward,
        eligible(*u, *ctx) && payload(*u)[0] == '/' && spec_invocation(
            payload(*u).skip(1),
            ctx.bot_username@,
        ) is None ==> r == (UpdateAction::Discard { reason: DiscardReason::NotInvocation }),
        eligible(*u, *ctx) && payload(*u)[0] == '/' ==> (spec_invocation(
            payload(*u).skip(1),
            ctx.bot_username@,
        ) matches Some(args) ==> (cmds.has_name(args[0]) ==> runs_command(
            r,
            *cmds,
            u.chat,
            args,
            true,
        ))),
        eligible(*u, *ctx) && payload(*u)[0] == '/' ==> (spec_invocation(
            payload(*u).skip(1),
            ctx.bot_username@,
        ) matches Some(args) ==> (!cmds.has_name(args[0]) && cmds.has_alias(args[0])
            ==> runs_command(r, *cmds, u.chat, args, false))),
        eligible(*u, *ctx) && payload(*u)[0] == '/' ==> (spec_invocation(
            payload(*u).skip(1),
            ctx.bot_username@,
        ) matches Some(args) ==> (!cmds.has_name(args[0]) && !cmds.has_alias(args[0])
            ==> replies_unknown(r, u.chat, args[0]))),
        u.date < ctx.start_time ==> r is Discard,
        !chat_allowed(u.chat, ctx.enabled_chats@) ==> r is Discard,
{
    if !matches!(u.kind, UpdateKind::Message) {
        return UpdateAction::Discard { reason: DiscardReason::UnsupportedKind };
    }
    if u.date < ctx.start_time {
        return UpdateAction::Discard { reason: DiscardReason::Stale };
    }
    if !is_chat_allowed(u.chat, &ctx.enabled_chats) {
        return UpdateAction::Discard { reason: DiscardReason::ChatNotEnabled };
    }
    match &u.text {
        None => UpdateAction::Discard { reason: DiscardReason::NoText },
        Some(text) => {
            let t = text.as_str();
            if t.is_empty() {
                return UpdateAction::Discard { reason: DiscardReason::NoText };
            }
            if t.get_char(0) != '/' {
                return UpdateAction::Forward;
            }
            let body = t.substring_char(1, t.unicode_len());
            proof {
                assert(body@ =~= payload(*u).skip(1));
            }
            match extract_invocation(body, ctx.bot_username.as_str()) {
                None => UpdateAction::Discard { reason: DiscardReason::NotInvocation },
                Some(args) => {
                    let key = args[0].as_str();
                    let sender = Sender::Telegram { chat: u.chat };
                    match cmds.lookup(key) {
                        Some(index) => UpdateAction::Run { index, args, sender },
                        None => {
                            let text = unknown_command_reply(key);
                            UpdateAction::ReplyUnknown { sender, text }
                        },
                    }
                },
            }
        },
    }
}

/// Parameters of one long-poll fetch: the cursor offset and the batch cap.
/// The fetch asks the platform for message updates only.
pub struct FetchParams {
    pub offset: u32,
    pub limit: u32,
}

/// Builds the fetch parameters for one poll call.
pub fn update_params(offset: u32, limit: u32) -> (r: FetchParams)
    ensures
        r.offset == offset,
        r.limit == limit,
{
    FetchParams { offset, limit }
}

/// The fixed cap on updates per fetch call.
pub const FETCH_LIMIT: u32 = 500;

/// The ids of a batch are strictly increasing, as the long-poll protocol
/// delivers them.
pub open spec fn ids_ascending(batch: Seq<Update>) -> bool {
    forall|i: int, j: int| 0 <= i < j < batch.len() ==> batch[i].id < batch[j].id
}

/// The cursor after a batch: unchanged for an empty batch, one past the last
/// delivered id otherwise.
pub open spec fn spec_advance(cursor: u32, batch: Seq<Update>) -> int {
    if batch.len() == 0 {
        cursor as int
    } else {
        batch.last().id + 1
    }
}

/// The largest id in a batch; meaningful only for a non-empty batch.
pub open spec fn max_id(batch: Seq<Update>) -> int
    decreases batch.len(),
{
    if batch.len() == 0 {
        -1
    } else if batch.len() == 1 {
        batch[0].id as int
    } else {
        let m = max_id(batch.drop_last());
        if batch.last().id as int > m {
            batch.last().id as int
        } else {
            m
        }
    }
}

/// The pump's only state: the poll cursor, the offset of the next unseen
/// update. It starts at zero and never decreases.
pub struct PumpState {
    pub cursor: u32,
}

/// What the pump does after one fetch attempt: dispatch these updates, one
/// unsupervised task each, then wait `delay_ms` before the next fetch.
pub struct BatchPlan {
    pub updates: Vec<Update>,
    pub delay_ms: u64,
}

/// The result of one fetch call, as the pump sees it.
#[derive(Debug)]
pub enum FetchOutcome {
    /// The platform answered with an ordered (possibly empty) batch.
    Batch(Vec<Update>),
    /// The call failed; the error is the caller's to log.
    Failed,
}

impl PumpState {
    /// A fresh pump, its cursor at zero.
    pub fn new() -> (r: Self)
        ensures
            r.cursor == 0,
    {
        PumpState { cursor: 0 }
    }

    /// The fetch parameters for the next poll call.
    pub fn next_fetch(&self) -> (r: FetchParams)
        ensures
            r.offset == self.cursor,
            r.limit == FETCH_LIMIT,
    {
        update_params(self.cursor, FETCH_LIMIT)
    }

    /// Reacts to one fetch attempt. A failure leaves the cursor untouched,
    /// hands out nothing, and asks for the failure delay; a batch advances
    /// the cursor — before any update is handed out — and asks for the fetch
    /// delay. The cursor never decreases.
    pub fn on_fetch_result(&mut self, outcome: FetchOutcome, time: &Time) -> (r: BatchPlan)
        requires
            outcome matches FetchOutcome::Batch(b) ==> ids_ascending(b@) && (b@.len() > 0
                ==> b@.last().id < u32::MAX && b@.first().id >= old(self).cursor),
        ensures
            outcome is Failed ==> final(self).cursor == old(self).cursor && r.updates@.len() == 0
                && r.delay_ms == time.failed_delay,
            outcome matches FetchOutcome::Batch(b) ==> final(self).cursor == spec_advance(
                old(self).cursor,
                b@,
            ) && r.updates@ == b@ && r.delay_ms == time.fetch_delay,
            final(self).cursor >= old(self).cursor,
    {
        match outcome {
            FetchOutcome::Failed => BatchPlan {
                updates: Vec::new(),
                delay_ms: time.failed_delay,
            },
            FetchOutcome::Batch(b) => {
                if b.len() > 0 {
                    let last_id = b[b.len() - 1].id;
                    proof {
                        assert(b@[b@.len() - 1] == b@.last());
                        assert(b@.first().id <= b@.last().id);
                    }
                    self.cursor = last_id + 1;
                }
                BatchPlan { updates: b, delay_ms: time.fetch_delay }
            },
        }
    }
}

/// Law: for any batch with ascending ids, the cursor that `spec_advance`
/// yields is the largest id in the batch plus one; an empty batch leaves the
/// cursor unchanged.
pub proof fn lemma_cursor_after_batch(cursor: u32, batch: Seq<Update>)
    requires
        ids_ascending(batch),
    ensures
        batch.len() == 0 ==> spec_advance(cursor, batch) == cursor as int,
        batch.len() > 0 ==> spec_advance(cursor, batch) == max_id(batch) + 1,
{
    if batch.len() > 0 {
        lemma_last_is_max(batch);
    }
}

/// In a batch with ascending ids, the last id is the largest.
proof fn lemma_last_is_max(batch: Seq<Update>)
    requires
        ids_ascending(batch),
        batch.len() > 0,
    ensures
        max_id(batch) == batch.last().id as int,
    decreases batch.len(),
{
    if batch.len() > 1 {
        assert(ids_ascending(batch.drop_last()));
        lemma_last_is_max(batch.drop_last());
        assert(batch.drop_last().last() == batch[batch.len() - 2]);
        assert(batch[batch.len() - 2].id < batch.last().id);
    }
}

/// Law: no update is fetched twice. Once the cursor has moved past a batch,
/// any later batch fetched at or beyond the new cursor — as the long-poll
/// protocol guarantees — holds none of the earlier ids.
pub proof fn lemma_no_refetch(cursor: u32, batch1: Seq<Update>, batch2: Seq<Update>)
    requires
        ids_ascending(batch1),
        forall|k: int| 0 <= k < batch2.len() ==> batch2[k].id >= spec_advance(cursor, batch1),
    ensures
        forall|i: int, k: int|
            0 <= i < batch1.len() && 0 <= k < batch2.len() ==> batch1[i].id != batch2[k].id,
{
    assert forall|i: int, k: int|
        0 <= i < batch1.len() && 0 <= k < batch2.len() implies batch1[i].id != batch2[k].id by {
        assert(batch1[i].id <= batch1.last().id);
        assert(batch2[k].id >= spec_advance(cursor, batch1));
    }
}

} // verus!
