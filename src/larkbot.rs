//! The notification dispatcher: events, the message card sent to the chat
//! webhook, and the uniform result of a dispatch.
use vstd::prelude::*;

use crate::text::{json_string_text, push_json_string};
use crate::time::{format_minute, minute_stamp, LocalDateTime};

verus! {

/// A detected condition: a failed probe or an externally submitted notice.
#[derive(Clone, Debug)]
pub struct Event {
    /// Short category; a probe uses its task name.
    pub event: String,
    pub event_time: LocalDateTime,
    /// Actor or origin.
    pub user: String,
    pub description: String,
}

pub struct EventView {
    pub event: Seq<char>,
    pub event_time: LocalDateTime,
    pub user: Seq<char>,
    pub description: Seq<char>,
}

impl View for Event {
    type V = EventView;

    open spec fn view(&self) -> EventView {
        EventView {
            event: self.event@,
            event_time: self.event_time,
            user: self.user@,
            description: self.description@,
        }
    }
}

impl Event {
    pub open spec fn wf(&self) -> bool {
        self.event_time.wf()
    }
}

/// Outcome of one dispatch: the backend's own answer, or `code` -1 with the
/// transport or decoding error in `msg` when no answer could be had.
#[derive(Clone, Debug)]
pub struct LarkBotResult {
    pub code: i32,
    pub msg: String,
    /// The backend's `data` payload as JSON text (`null` when absent).
    pub data: String,
}

pub struct LarkBotResultView {
    pub code: i32,
    pub msg: Seq<char>,
    pub data: Seq<char>,
}

impl View for LarkBotResult {
    type V = LarkBotResultView;

    open spec fn view(&self) -> LarkBotResultView {
        LarkBotResultView { code: self.code, msg: self.msg@, data: self.data@ }
    }
}

/// Code of a result that the dispatcher itself produced because the backend
/// could not be reached or its answer could not be decoded.
pub const DISPATCH_FAILED: i32 = -1;

/// The result of a dispatch whose outcome is `outcome`: the backend's answer
/// verbatim, or the dispatcher's own failure carrying the error text.
pub open spec fn settled(outcome: Result<LarkBotResultView, Seq<char>>) -> LarkBotResultView {
    match outcome {
        Ok(answer) => answer,
        Err(e) => LarkBotResultView { code: DISPATCH_FAILED, msg: e, data: "null"@ },
    }
}

/// Turns the outcome of the request to the backend into the result handed
/// to the caller; a backend answer passes through unchanged.
pub fn settle(outcome: Result<LarkBotResult, String>) -> (r: LarkBotResult)
    ensures
        r@ == settled(
            match outcome {
                Ok(a) => Ok(a@),
                Err(e) => Err(e@),
            },
        ),
{
    match outcome {
        Ok(answer) => answer,
        Err(e) => LarkBotResult { code: DISPATCH_FAILED, msg: e, data: String::from_str("null") },
    }
}

/// Dispatching to an unreachable backend gives a failure result with code
/// -1 and no data each time, whose message is the error alone: two
/// dispatches of the same event that meet the same error give equal results.
pub proof fn lemma_failed_dispatch_repeats(e1: Seq<char>, e2: Seq<char>)
    ensures
        settled(Err(e1)).code == -1,
        settled(Err(e2)).code == -1,
        settled(Err(e1)).data == settled(Err(e2)).data,
        settled(Err(e1)).msg == e1,
        settled(Err(e2)).msg == e2,
        e1 == e2 ==> settled(Err(e1)) == settled(Err(e2)),
{
}

/// The message card that carries an event.
pub struct LarkCard {
    pub title: String,
    /// Text blocks, one paragraph each, in order.
    pub blocks: Vec<String>,
}

/// Fixed start of every card title.
pub open spec fn title_prefix() -> Seq<char> {
    "【NOTICE】"@
}

/// The card title for category `event`.
pub open spec fn card_title(event: Seq<char>) -> Seq<char> {
    title_prefix() + event
}

/// The card blocks for an event: who, what, and when to the minute.
pub open spec fn card_blocks(e: EventView) -> Seq<Seq<char>> {
    seq![e.user, e.description, minute_stamp(e.event_time)]
}

/// Builds the card for an event; the event itself is left as it is.
pub fn notice_card(event: &Event) -> (r: LarkCard)
    requires
        event.wf(),
    ensures
        r.title@ == card_title(event.event@),
        r.blocks@.map_values(|b: String| b@) == card_blocks(event@),
{
    let mut title = String::from_str("【NOTICE】");
    title.append(event.event.as_str());
    let mut blocks: Vec<String> = Vec::new();
    blocks.push(event.user.clone());
    blocks.push(event.description.clone());
    blocks.push(format_minute(&event.event_time));
    assert(blocks@.map_values(|b: String| b@) =~= card_blocks(event@));
    LarkCard { title, blocks }
}

/// One text paragraph of a card in JSON.
pub open spec fn block_json(text: Seq<char>) -> Seq<char> {
    "[{\"tag\":\"text\",\"text\":"@ + json_string_text(text) + "}]"@
}

/// The paragraphs in JSON, separated by commas.
pub open spec fn blocks_json(blocks: Seq<Seq<char>>) -> Seq<char>
    decreases blocks.len(),
{
    if blocks.len() == 0 {
        Seq::empty()
    } else if blocks.len() == 1 {
        block_json(blocks[0])
    } else {
        blocks_json(blocks.drop_last()) + ","@ + block_json(blocks.last())
    }
}

/// The JSON request body of a card for the webhook.
pub open spec fn card_json(title: Seq<char>, blocks: Seq<Seq<char>>) -> Seq<char> {
    "{\"msg_type\":\"post\",\"content\":{\"post\":{\"zh_cn\":{\"title\":"@ + json_string_text(title)
        + ",\"content\":["@ + blocks_json(blocks) + "]}}}}"@
}

impl LarkCard {
    /// The card as the webhook's JSON request body.
    pub fn to_json(&self) -> (r: String)
        ensures
            r@ == card_json(self.title@, self.blocks@.map_values(|b: String| b@)),
    {
        let ghost bs = self.blocks@.map_values(|b: String| b@);
        let mut out = String::from_str("{\"msg_type\":\"post\",\"content\":{\"post\":{\"zh_cn\":{\"title\":");
        push_json_string(&mut out, self.title.as_str());
        out.append(",\"content\":[");
        let ghost head = out@;
        let mut i: usize = 0;
        while i < self.blocks.len()
            invariant
                i <= self.blocks.len(),
                bs == self.blocks@.map_values(|b: String| b@),
                out@ == head + blocks_json(bs.take(i as int)),
            decreases self.blocks.len() - i,
        {
            if i > 0 {
                out.append(",");
            }
            out.append("[{\"tag\":\"text\",\"text\":");
            push_json_string(&mut out, self.blocks[i].as_str());
            out.append("}]");
            proof {
                let t = bs.take(i as int + 1);
                assert(t.drop_last() =~= bs.take(i as int));
                assert(t.last() == bs[i as int]);
                if i == 0 {
                    assert(bs.take(0) =~= Seq::<Seq<char>>::empty());
                }
                assert(out@ =~= head + blocks_json(t));
            }
            i = i + 1;
        }
        assert(bs.take(self.blocks.len() as int) =~= bs);
        out.append("]}}}}");
        assert(out@ =~= card_json(self.title@, bs));
        out
    }
}

/// The request body that notifies the webhook of `event`.
pub open spec fn request_json(e: EventView) -> Seq<char> {
    card_json(card_title(e.event), card_blocks(e))
}

/// Builds the webhook request body for an event.
pub fn parse_to_lark_request(event: &Event) -> (r: String)
    requires
        event.wf(),
    ensures
        r@ == request_json(event@),
{
    notice_card(event).to_json()
}

/// Two events that differ only below the minute in their time produce the
/// same request body.
pub proof fn lemma_request_ignores_seconds(a: EventView, b: EventView)
    requires
        a.event == b.event,
        a.user == b.user,
        a.description == b.description,
        a.event_time.year == b.event_time.year,
        a.event_time.month == b.event_time.month,
        a.event_time.day == b.event_time.day,
        a.event_time.hour == b.event_time.hour,
        a.event_time.minute == b.event_time.minute,
    ensures
        request_json(a) == request_json(b),
{
    crate::time::lemma_stamp_ignores_seconds(a.event_time, b.event_time);
    assert(card_blocks(a) =~= card_blocks(b));
}

} // verus!
