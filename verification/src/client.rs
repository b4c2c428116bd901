use vstd::prelude::*;

verus! {

use crate::json::append_escaped;
use crate::json::spec_escape;

/// A minimal Rocket.Chat webhook client.
///
/// The builder accumulates message fields (text, channel, emoji, bot name,
/// source hostname) around a webhook URL fixed at construction; the
/// accumulated state is later serialized as one JSON payload and posted to
/// the webhook by the caller's transport.
///
/// Every configuration call consumes the builder and returns the updated
/// value, so calls chain; the last write to a field wins. No field content
/// is validated here: malformed URLs or empty text surface only as
/// transport-level failures at send time.
pub struct RocketClient {
    text: String,
    webhook: String,
    emoji: Option<String>,
    botname: Option<String>,
    channel: Option<String>,
    hostname: Option<String>,
}

/// The mathematical value of a `RocketClient`: each field as a sequence of
/// characters, with unset optional fields as `None`.
#[verifier::ext_equal]
pub struct RocketClientView {
    pub text: Seq<char>,
    pub webhook: Seq<char>,
    pub emoji: Option<Seq<char>>,
    pub botname: Option<Seq<char>>,
    pub channel: Option<Seq<char>>,
    pub hostname: Option<Seq<char>>,
}

/// The view of an optional string field.
pub open spec fn opt_view(o: Option<String>) -> Option<Seq<char>> {
    match o {
        Some(s) => Some(s@),
        None => None,
    }
}

impl View for RocketClient {
    type V = RocketClientView;

    closed spec fn view(&self) -> RocketClientView {
        RocketClientView {
            text: self.text@,
            webhook: self.webhook@,
            emoji: opt_view(self.emoji),
            botname: opt_view(self.botname),
            channel: opt_view(self.channel),
            hostname: opt_view(self.hostname),
        }
    }
}

/// The state of a freshly created builder: only the webhook is set.
pub open spec fn spec_new(webhook: Seq<char>) -> RocketClientView {
    RocketClientView {
        text: Seq::empty(),
        webhook: webhook,
        emoji: None,
        botname: None,
        channel: None,
        hostname: None,
    }
}

/// Setting the text leaves every other field alone.
pub open spec fn spec_with_text(v: RocketClientView, text: Seq<char>) -> RocketClientView {
    RocketClientView { text: text, ..v }
}

/// Setting the channel leaves every other field alone.
pub open spec fn spec_with_channel(v: RocketClientView, channel: Seq<char>) -> RocketClientView {
    RocketClientView { channel: Some(channel), ..v }
}

/// Setting the hostname explicitly leaves every other field alone.
pub open spec fn spec_with_hostname(v: RocketClientView, hostname: Seq<char>) -> RocketClientView {
    RocketClientView { hostname: Some(hostname), ..v }
}

/// Setting or clearing the hostname leaves every other field alone.
pub open spec fn spec_with_hostname_opt(
    v: RocketClientView,
    hostname: Option<Seq<char>>,
) -> RocketClientView {
    RocketClientView { hostname: hostname, ..v }
}

/// Setting or clearing the bot name leaves every other field alone.
pub open spec fn spec_with_botname(
    v: RocketClientView,
    botname: Option<Seq<char>>,
) -> RocketClientView {
    RocketClientView { botname: botname, ..v }
}

/// Setting or clearing the emoji leaves every other field alone.
pub open spec fn spec_with_emoji(
    v: RocketClientView,
    emoji: Option<Seq<char>>,
) -> RocketClientView {
    RocketClientView { emoji: emoji, ..v }
}

/// The piece an optional field contributes to the JSON payload: its key
/// prefix, the escaped value and a closing quote when the field is set,
/// nothing at all when it is unset.
pub open spec fn spec_opt_piece(prefix: Seq<char>, field: Option<Seq<char>>) -> Seq<char> {
    match field {
        Some(s) => prefix + spec_escape(s) + "\""@,
        None => Seq::empty(),
    }
}

/// The JSON payload serialized from a message state: the required `text`
/// and `webhook` fields come first, then each optional field that is set,
/// in a fixed order; every value is JSON-escaped, and unset optional
/// fields are wholly absent.
pub open spec fn spec_json_body(v: RocketClientView) -> Seq<char> {
    "{\"text\":\""@ + spec_escape(v.text) + "\",\"webhook\":\""@ + spec_escape(v.webhook) + "\""@
        + spec_opt_piece(",\"emoji\":\""@, v.emoji) + spec_opt_piece(",\"botname\":\""@, v.botname)
        + spec_opt_piece(",\"channel\":\""@, v.channel) + spec_opt_piece(
        ",\"hostname\":\""@,
        v.hostname,
    ) + "}"@
}

/// Relies on `hostname::get`: returns the system hostname as the OS
/// reports it, or nothing when the lookup fails or the name is not valid
/// UTF-8. Nothing can be promised of the value itself.
#[verifier::external_body]
fn os_hostname() -> Option<String> {
    match hostname::get() {
        Ok(h) => match h.into_string() {
            Ok(s) => Some(s),
            Err(_) => None,
        },
        Err(_) => None,
    }
}

impl RocketClient {
    /// Creates a builder with `webhook` set and every other field unset.
    /// No validation and no network side effect takes place.
    pub fn new(webhook: &str) -> (r: Self)
        ensures
            r@ == spec_new(webhook@),
    {
        RocketClient {
            text: String::new(),
            webhook: webhook.to_owned(),
            emoji: None,
            botname: None,
            channel: None,
            hostname: None,
        }
    }

    /// Sets the message text; the last write wins.
    pub fn with_text(self, text: &str) -> (r: Self)
        ensures
            r@ == spec_with_text(self@, text@),
    {
        RocketClient { text: text.to_owned(), ..self }
    }

    /// Sets the channel this message is to be sent to; the last write wins.
    pub fn with_channel(self, channel: &str) -> (r: Self)
        ensures
            r@ == spec_with_channel(self@, channel@),
    {
        RocketClient { channel: Some(channel.to_owned()), ..self }
    }

    /// Sets the hostname explicitly; the last write wins.
    pub fn with_hostname(self, hostname: &str) -> (r: Self)
        ensures
            r@ == spec_with_hostname(self@, hostname@),
    {
        RocketClient { hostname: Some(hostname.to_owned()), ..self }
    }

    /// Sets or clears the hostname from a value already in hand: `None`
    /// leaves the hostname unset.
    pub fn with_hostname_opt(self, hostname: Option<String>) -> (r: Self)
        ensures
            r@ == spec_with_hostname_opt(self@, opt_view(hostname)),
    {
        RocketClient { hostname: hostname, ..self }
    }

    /// Best-effort enrichment: queries the OS for the local host name and
    /// sets the hostname to it. A failed lookup never raises an error: it
    /// leaves the hostname as it was. Every other field is untouched, and
    /// the hostname is kept or set, never cleared.
    pub fn with_default_hostname(self) -> (r: Self)
        ensures
            r@.text == self@.text,
            r@.webhook == self@.webhook,
            r@.emoji == self@.emoji,
            r@.botname == self@.botname,
            r@.channel == self@.channel,
            r@.hostname == self@.hostname || r@.hostname is Some,
    {
        match os_hostname() {
            Some(h) => self.with_hostname_opt(Some(h)),
            None => self,
        }
    }

    /// Sets or clears the bot name; the last write wins.
    pub fn with_botname(self, botname: Option<String>) -> (r: Self)
        ensures
            r@ == spec_with_botname(self@, opt_view(botname)),
    {
        RocketClient { botname: botname, ..self }
    }

    /// Sets or clears the emoji; the last write wins.
    pub fn with_emoji(self, emoji: Option<String>) -> (r: Self)
        ensures
            r@ == spec_with_emoji(self@, opt_view(emoji)),
    {
        RocketClient { emoji: emoji, ..self }
    }

    /// Serializes the current state to the JSON payload for one webhook
    /// POST: exactly the fields that are set appear, under the keys
    /// `text`, `webhook`, `emoji`, `botname`, `channel` and `hostname`.
    pub fn json_body(&self) -> (r: String)
        ensures
            r@ == spec_json_body(self@),
    {
        let mut out = String::new();
        out.append("{\"text\":\"");
        append_escaped(&mut out, self.text.as_str());
        out.append("\",\"webhook\":\"");
        append_escaped(&mut out, self.webhook.as_str());
        out.append("\"");
        let ghost head = "{\"text\":\""@ + spec_escape(self@.text) + "\",\"webhook\":\""@
            + spec_escape(self@.webhook) + "\""@;
        proof {
            assert(out@ =~= head);
        }
        match &self.emoji {
            Some(v) => {
                out.append(",\"emoji\":\"");
                append_escaped(&mut out, v.as_str());
                out.append("\"");
            },
            None => {},
        }
        let ghost acc1 = head + spec_opt_piece(",\"emoji\":\""@, self@.emoji);
        proof {
            assert(out@ =~= acc1);
        }
        match &self.botname {
            Some(v) => {
                out.append(",\"botname\":\"");
                append_escaped(&mut out, v.as_str());
                out.append("\"");
            },
            None => {},
        }
        let ghost acc2 = acc1 + spec_opt_piece(",\"botname\":\""@, self@.botname);
        proof {
            assert(out@ =~= acc2);
        }
        match &self.channel {
            Some(v) => {
                out.append(",\"channel\":\"");
                append_escaped(&mut out, v.as_str());
                out.append("\"");
            },
            None => {},
        }
        let ghost acc3 = acc2 + spec_opt_piece(",\"channel\":\""@, self@.channel);
        proof {
            assert(out@ =~= acc3);
        }
        match &self.hostname {
            Some(v) => {
                out.append(",\"hostname\":\"");
                append_escaped(&mut out, v.as_str());
                out.append("\"");
            },
            None => {},
        }
        let ghost acc4 = acc3 + spec_opt_piece(",\"hostname\":\""@, self@.hostname);
        proof {
            assert(out@ =~= acc4);
        }
        out.append("}");
        proof {
            assert(out@ =~= spec_json_body(self@));
        }
        out
    }

    /// The webhook URL, fixed at construction.
    pub fn webhook(&self) -> (r: &String)
        ensures
            r@ == self@.webhook,
    {
        &self.webhook
    }

    /// The message text.
    pub fn text(&self) -> (r: &String)
        ensures
            r@ == self@.text,
    {
        &self.text
    }

    /// The channel, if one is set.
    pub fn channel(&self) -> (r: &Option<String>)
        ensures
            opt_view(*r) == self@.channel,
    {
        &self.channel
    }

    /// The emoji, if one is set.
    pub fn emoji(&self) -> (r: &Option<String>)
        ensures
            opt_view(*r) == self@.emoji,
    {
        &self.emoji
    }

    /// The bot name, if one is set.
    pub fn botname(&self) -> (r: &Option<String>)
        ensures
            opt_view(*r) == self@.botname,
    {
        &self.botname
    }

    /// The hostname, if one is set.
    pub fn hostname(&self) -> (r: &Option<String>)
        ensures
            opt_view(*r) == self@.hostname,
    {
        &self.hostname
    }
}

/// Law: every setter is idempotent — applying it twice with the same value
/// yields exactly the state one application yields, whatever the starting
/// state.
pub proof fn lemma_setters_idempotent(v: RocketClientView, s: Seq<char>, o: Option<Seq<char>>)
    ensures
        spec_with_text(spec_with_text(v, s), s) == spec_with_text(v, s),
        spec_with_channel(spec_with_channel(v, s), s) == spec_with_channel(v, s),
        spec_with_hostname(spec_with_hostname(v, s), s) == spec_with_hostname(v, s),
        spec_with_hostname_opt(spec_with_hostname_opt(v, o), o) == spec_with_hostname_opt(v, o),
        spec_with_botname(spec_with_botname(v, o), o) == spec_with_botname(v, o),
        spec_with_emoji(spec_with_emoji(v, o), o) == spec_with_emoji(v, o),
{
}

/// Law: a message with no optional field set serializes to a body holding
/// only the `text` and `webhook` keys.
pub proof fn lemma_minimal_body(v: RocketClientView)
    requires
        v.emoji is None,
        v.botname is None,
        v.channel is None,
        v.hostname is None,
    ensures
        spec_json_body(v) == "{\"text\":\""@ + spec_escape(v.text) + "\",\"webhook\":\""@
            + spec_escape(v.webhook) + "\"}"@,
{
    reveal_strlit("\"");
    reveal_strlit("}");
    reveal_strlit("\"}");
    assert(spec_json_body(v) =~= "{\"text\":\""@ + spec_escape(v.text) + "\",\"webhook\":\""@
        + spec_escape(v.webhook) + "\"}"@);
}

/// Law: an unset emoji is wholly absent from the body, while an emoji set
/// to the empty string still appears with its key: the two states never
/// serialize alike.
pub proof fn lemma_unset_emoji_never_empty_placeholder(v: RocketClientView, w: RocketClientView)
    requires
        v.emoji is None,
        w == (RocketClientView { emoji: Some(Seq::<char>::empty()), ..v }),
    ensures
        spec_json_body(w).len() > spec_json_body(v).len(),
        spec_json_body(w) != spec_json_body(v),
{
    reveal_strlit(",\"emoji\":\"");
    reveal_strlit("\"");
    assert(spec_escape(Seq::<char>::empty()) =~= Seq::<char>::empty());
    assert(spec_opt_piece(",\"emoji\":\""@, w.emoji).len() == 11);
    assert(spec_opt_piece(",\"emoji\":\""@, v.emoji).len() == 0);
}

/// Law: an unset bot name is wholly absent from the body, while a bot name
/// set to the empty string still appears with its key: the two states
/// never serialize alike.
pub proof fn lemma_unset_botname_never_empty_placeholder(v: RocketClientView, w: RocketClientView)
    requires
        v.botname is None,
        w == (RocketClientView { botname: Some(Seq::<char>::empty()), ..v }),
    ensures
        spec_json_body(w).len() > spec_json_body(v).len(),
        spec_json_body(w) != spec_json_body(v),
{
    reveal_strlit(",\"botname\":\"");
    reveal_strlit("\"");
    assert(spec_escape(Seq::<char>::empty()) =~= Seq::<char>::empty());
    assert(spec_opt_piece(",\"botname\":\""@, w.botname).len() == 13);
    assert(spec_opt_piece(",\"botname\":\""@, v.botname).len() == 0);
}

/// Law: an unset channel is wholly absent from the body, while a channel
/// set to the empty string still appears with its key: the two states
/// never serialize alike.
pub proof fn lemma_unset_channel_never_empty_placeholder(v: RocketClientView, w: RocketClientView)
    requires
        v.channel is None,
        w == (RocketClientView { channel: Some(Seq::<char>::empty()), ..v }),
    ensures
        spec_json_body(w).len() > spec_json_body(v).len(),
        spec_json_body(w) != spec_json_body(v),
{
    reveal_strlit(",\"channel\":\"");
    reveal_strlit("\"");
    assert(spec_escape(Seq::<char>::empty()) =~= Seq::<char>::empty());
    assert(spec_opt_piece(",\"channel\":\""@, w.channel).len() == 13);
    assert(spec_opt_piece(",\"channel\":\""@, v.channel).len() == 0);
}

/// Law: an unset hostname is wholly absent from the body, while a hostname
/// set to the empty string still appears with its key: the two states
/// never serialize alike.
pub proof fn lemma_unset_hostname_never_empty_placeholder(v: RocketClientView, w: RocketClientView)
    requires
        v.hostname is None,
        w == (RocketClientView { hostname: Some(Seq::<char>::empty()), ..v }),
    ensures
        spec_json_body(w).len() > spec_json_body(v).len(),
        spec_json_body(w) != spec_json_body(v),
{
    reveal_strlit(",\"hostname\":\"");
    reveal_strlit("\"");
    assert(spec_escape(Seq::<char>::empty()) =~= Seq::<char>::empty());
    assert(spec_opt_piece(",\"hostname\":\""@, w.hostname).len() == 14);
    assert(spec_opt_piece(",\"hostname\":\""@, v.hostname).len() == 0);
}

} // verus!
