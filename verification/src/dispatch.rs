//! Command dispatch: filters an inbound chat event against the resolved
//! configuration, routes it by argument count, and renders the forecast
//! reply.

use vstd::prelude::*;

use crate::config::ConfigHandler;
use crate::text::{contains_str, lower_of, spec_contains, spec_split, split_on, to_lowercase};
use crate::weather::{ForecastSet, Weather};

verus! {

/// What the gateway delivers for one inbound message.
#[derive(Debug)]
pub struct ChatEvent {
    /// The author of the message is this bot itself.
    pub author_is_bot: bool,
    /// The message text.
    pub content: String,
    /// The name of the channel the message arrived in.
    pub channel_name: String,
}

/// What to do with one inbound event: drop it silently, answer with a fixed
/// validation reply, or fetch a forecast for the given location.
#[derive(Debug)]
pub enum DispatchAction {
    Ignore,
    Reply(String),
    Fetch(String),
}

/// The reply to a message that names no location.
pub open spec fn too_few_reply() -> Seq<char> {
    "Too few arguments: Location is missing."@
}

/// The reply to a message of more than a trigger and a location.
pub open spec fn too_many_reply() -> Seq<char> {
    "Too many arguments."@
}

/// The filters that need no channel lookup: the author is not the bot, and
/// the lowercased message text contains the trigger phrase.
pub open spec fn pre_passes(cfg: ConfigHandler, author_is_bot: bool, content: Seq<char>) -> bool {
    &&& !author_is_bot
    &&& spec_contains(lower_of(content), cfg.spec_command())
}

/// The event passes every filter: its author is not the bot, the lowercased
/// message text contains the trigger phrase, and where the configuration
/// scopes the bot to a channel, the event arrived in that channel.
pub open spec fn event_passes(cfg: ConfigHandler, ev: ChatEvent) -> bool {
    &&& pre_passes(cfg, ev.author_is_bot, ev.content@)
    &&& (cfg.spec_channel() matches Some(c) ==> c == ev.channel_name@)
}

/// Applies the two filters that need no channel name, so a caller can defer
/// the channel lookup until a message has actually triggered.
pub fn screen_event(cfg: &ConfigHandler, author_is_bot: bool, content: &str) -> (r: bool)
    ensures
        r == pre_passes(*cfg, author_is_bot, content@),
{
    if author_is_bot {
        return false;
    }
    let command = cfg.get_command();
    let lowered = to_lowercase(content);
    contains_str(lowered.as_str(), command.as_str())
}

/// Decides what one inbound event becomes. An event that fails a filter is
/// discarded with no reply and no fetch; one that passes is routed by the
/// count of its space-separated pieces: fewer than two draw the too-few
/// reply, more than two the too-many reply, and exactly two a fetch for the
/// second piece.
pub fn dispatch(cfg: &ConfigHandler, event: &ChatEvent) -> (r: DispatchAction)
    ensures
        r is Ignore <==> !event_passes(*cfg, *event),
        event_passes(*cfg, *event) && spec_split(event.content@, ' ').len() < 2 ==> (r matches
            DispatchAction::Reply(m) && m@ == too_few_reply()),
        event_passes(*cfg, *event) && spec_split(event.content@, ' ').len() > 2 ==> (r matches
            DispatchAction::Reply(m) && m@ == too_many_reply()),
        event_passes(*cfg, *event) && spec_split(event.content@, ' ').len() == 2 ==> (r matches
            DispatchAction::Fetch(loc) && loc@ == spec_split(event.content@, ' ')[1]),
{
    if !screen_event(cfg, event.author_is_bot, event.content.as_str()) {
        return DispatchAction::Ignore;
    }
    if let Some(chan) = cfg.get_channel() {
        if !(chan == event.channel_name) {
            return DispatchAction::Ignore;
        }
    }
    let tokens = split_on(event.content.as_str(), ' ');
    if tokens.len() < 2 {
        return DispatchAction::Reply("Too few arguments: Location is missing.".to_owned());
    }
    if tokens.len() > 2 {
        return DispatchAction::Reply("Too many arguments.".to_owned());
    }
    DispatchAction::Fetch(tokens[1].clone())
}

/// The body of one reply field, rendered from one slot: the fixed glyph
/// template around the slot's readings.
pub open spec fn spec_slot_body(w: Weather) -> Seq<char> {
    "\u{231a} "@ + w.time@ + "\n\u{1f321}\u{fe0f} "@ + w.temp@ + "\u{b0}C ("@ + w.temp_felt@
        + "\u{b0}C)\n\u{1f32c}\u{fe0f} "@ + w.wind_min@ + " - "@ + w.wind_max@ + " km/h\n"@
        + w.chanceofrain@ + "% \u{1f327}\u{fe0f} "@ + w.chanceofsnow@ + "% \u{1f328}\u{fe0f}\n"@
        + w.precipitation@ + " mm"@
}

/// Renders one slot into the body of its reply field.
pub fn render_slot_body(w: &Weather) -> (r: String)
    ensures
        r@ == spec_slot_body(*w),
{
    let mut r = String::new();
    r.append("\u{231a} ");
    r.append(w.time.as_str());
    r.append("\n\u{1f321}\u{fe0f} ");
    r.append(w.temp.as_str());
    r.append("\u{b0}C (");
    r.append(w.temp_felt.as_str());
    r.append("\u{b0}C)\n\u{1f32c}\u{fe0f} ");
    r.append(w.wind_min.as_str());
    r.append(" - ");
    r.append(w.wind_max.as_str());
    r.append(" km/h\n");
    r.append(w.chanceofrain.as_str());
    r.append("% \u{1f327}\u{fe0f} ");
    r.append(w.chanceofsnow.as_str());
    r.append("% \u{1f328}\u{fe0f}\n");
    r.append(w.precipitation.as_str());
    r.append(" mm");
    proof {
        assert(r@ =~= spec_slot_body(*w));
    }
    r
}

/// One field of the structured reply payload.
#[derive(Debug)]
pub struct ReplyField {
    pub name: String,
    pub body: String,
    pub inline: bool,
}

/// The structured reply payload: a title and an ordered list of fields.
#[derive(Debug)]
pub struct ReplyPayload {
    pub title: String,
    pub fields: Vec<ReplyField>,
}

/// Renders a forecast set into the reply payload: the date as the title and
/// one field per slot, in order, each named by the slot's sky label, bodied
/// by the glyph template, and marked inline.
pub fn render_reply(f: &ForecastSet) -> (r: ReplyPayload)
    ensures
        r.title@ == f.date@,
        r.fields@.len() == f.slots@.len(),
        forall|i: int|
            0 <= i < f.slots@.len() ==> {
                &&& (#[trigger] r.fields@[i]).name@ == f.slots@[i].label@
                &&& r.fields@[i].body@ == spec_slot_body(f.slots@[i])
                &&& r.fields@[i].inline == true
            },
{
    let mut fields: Vec<ReplyField> = Vec::new();
    let n = f.slots.len();
    let mut i: usize = 0;
    while i < n
        invariant
            n == f.slots@.len(),
            i <= n,
            fields@.len() == i,
            forall|j: int|
                0 <= j < i ==> {
                    &&& (#[trigger] fields@[j]).name@ == f.slots@[j].label@
                    &&& fields@[j].body@ == spec_slot_body(f.slots@[j])
                    &&& fields@[j].inline == true
                },
        decreases n - i,
    {
        let slot = &f.slots[i];
        fields.push(ReplyField { name: slot.label.clone(), body: render_slot_body(slot), inline: true });
        i += 1;
    }
    ReplyPayload { title: f.date.clone(), fields }
}

} // verus!
