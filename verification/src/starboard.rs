//! The starboard: a message that collects enough reactions is forwarded to
//! a chosen channel, and its counter is kept up to date afterwards.
use crate::models::config::{Starboard, StarboardView};
use crate::models::database::StarboardMessage;
use crate::text::{
    chars_of, contains, contains_text, decimal, decimal_chars, decimal_text, occurs_at, push_chars,
    replace_all, replace_text, signed_decimal, signed_decimal_text, string_from_chars,
};
use vstd::prelude::*;

verus! {

/// Reactions a message needs when no threshold is given.
pub const DEFAULT_REACTION_THRESHOLD: usize = 3;

/// Why a reaction is not looked at further.
#[derive(Debug, Clone, Copy, PartialEq, Eq)]
pub enum SkipReason {
    /// The channel is on the whitelist.
    Whitelisted,
    /// The channel is the starboard itself.
    ForwardChannel,
}

/// Which message an embed shows.
#[derive(Debug, Clone, Copy, PartialEq, Eq)]
pub enum StarboardEmbedType {
    /// The message that the forwarded one answers.
    Reply,
    /// The forwarded message.
    Original,
}

/// Why a starboard channel cannot be set.
#[derive(Debug, Clone, Copy, PartialEq, Eq)]
pub enum ForwardChannelError {
    /// The channel is not a text channel.
    NotText,
}

/// Whether a reaction in `channel_id` is skipped, and why; the whitelist is
/// checked first.
pub open spec fn skip_reason(config: StarboardView, channel_id: u64) -> Option<SkipReason> {
    if config.channels_whitelist.contains(channel_id) {
        Some(SkipReason::Whitelisted)
    } else if config.forward_channel_id == channel_id {
        Some(SkipReason::ForwardChannel)
    } else {
        None
    }
}

/// Whether a list of channel ids holds `id`.
pub fn holds_channel(ids: &Vec<u64>, id: u64) -> (b: bool)
    ensures
        b == ids@.contains(id),
{
    let mut i: usize = 0;
    while i < ids.len()
        invariant
            i <= ids.len(),
            forall|k: int| 0 <= k < i ==> ids@[k] != id,
        decreases ids.len() - i,
    {
        if ids[i] == id {
            assert(ids@[i as int] == id);
            return true;
        }
        i += 1;
    }
    false
}

/// Whether a reaction in `channel_id` is skipped, and why.
pub fn reaction_channel_check(config: &Starboard, channel_id: u64) -> (r: Option<SkipReason>)
    ensures
        r == skip_reason(config@, channel_id),
{
    if holds_channel(&config.channels_whitelist, channel_id) {
        Some(SkipReason::Whitelisted)
    } else if config.forward_channel_id == channel_id {
        Some(SkipReason::ForwardChannel)
    } else {
        None
    }
}

/// Whether a message has too few reactions to be forwarded.
pub fn below_threshold(reaction_count: usize, threshold: usize) -> (b: bool)
    ensures
        b == (reaction_count < threshold),
{
    reaction_count < threshold
}

/// The stored counter read as a count: a negative counter wraps around as
/// it does when widened to a machine word.
pub open spec fn counter_as_count(last: i16) -> int {
    if last >= 0 {
        last as int
    } else {
        usize::MAX + 1 + last
    }
}

/// Whether the reaction count differs from the stored counter.
pub fn counter_changed(reaction_count: usize, last: i16) -> (b: bool)
    ensures
        b == (reaction_count != counter_as_count(last)),
{
    if last >= 0 {
        reaction_count != last as usize
    } else {
        let below: usize = (-(last as i32) - 1) as usize;
        reaction_count != usize::MAX - below
    }
}

/// A decimal notation is never empty.
pub proof fn decimal_not_empty(n: nat)
    ensures
        decimal(n).len() > 0,
    decreases n,
{
    if n >= 10 {
        decimal_not_empty(n / 10);
    }
}

/// The forwarded text with the counter updated: every occurrence of the
/// old counter in the message text is replaced by the new count.
pub fn updated_counter_text(content: &str, last: i16, reaction_count: usize) -> (r: String)
    ensures
        r@ == replace_all(content@, signed_decimal(last as int), decimal(reaction_count as nat)),
{
    let old_text = signed_decimal_text(last as i64);
    let new_text = decimal_text(reaction_count as u64);
    proof {
        if last < 0 {
            decimal_not_empty((-(last as int)) as nat);
        } else {
            decimal_not_empty(last as nat);
        }
    }
    replace_text(content, old_text.as_str(), new_text.as_str())
}

/// The record of a forwarded message; the ids and the count are stored as
/// the database's signed integers (bit patterns kept, counts truncated to
/// 16 bits).
pub fn starboard_record(
    message_id: u64,
    server_id: u64,
    forwarded_message_id: u64,
    reaction_count: usize,
) -> (r: StarboardMessage)
    ensures
        r.message_id == message_id as i64,
        r.server_id == server_id as i64,
        r.forwarded_message_id == forwarded_message_id as i64,
        r.last_reaction_count == reaction_count as i16,
        message_id <= i64::MAX ==> r.message_id == message_id,
        server_id <= i64::MAX ==> r.server_id == server_id,
        forwarded_message_id <= i64::MAX ==> r.forwarded_message_id == forwarded_message_id,
        reaction_count <= i16::MAX ==> r.last_reaction_count == reaction_count,
{
    StarboardMessage {
        message_id: message_id as i64,
        server_id: server_id as i64,
        forwarded_message_id: forwarded_message_id as i64,
        last_reaction_count: reaction_count as i16,
    }
}

/// The word that marks an attachment as a picture.
pub open spec fn image_word() -> Seq<char> {
    seq!['i', 'm', 'a', 'g', 'e']
}

/// Whether an attachment is shown as a picture: its content type mentions
/// "image".
pub fn is_image(content_type: Option<&str>) -> (b: bool)
    ensures
        b == (content_type matches Some(t) && contains(t@, image_word())),
{
    match content_type {
        Some(t) => {
            let word = string_from_chars(&image_word_chars());
            contains_text(t, word.as_str())
        },
        None => false,
    }
}

/// Whether an attachment is offered as a link button: it has a content
/// type that does not mention "image".
pub fn is_file_link(content_type: Option<&str>) -> (b: bool)
    ensures
        b == (content_type matches Some(t) && !contains(t@, image_word())),
{
    match content_type {
        Some(t) => {
            let word = string_from_chars(&image_word_chars());
            !contains_text(t, word.as_str())
        },
        None => false,
    }
}

fn image_word_chars() -> (v: Vec<char>)
    ensures
        v@ == image_word(),
{
    let mut v: Vec<char> = Vec::new();
    v.push('i');
    v.push('m');
    v.push('a');
    v.push('g');
    v.push('e');
    assert(v@ =~= image_word());
    v
}

/// The text that stands for a reaction whose emoji cannot be shown: its
/// name between colons, or a placeholder when it has none.
pub fn reaction_label(name: Option<&str>) -> (r: String)
    ensures
        r@ == seq![':'] + match name {
            Some(n) => n@,
            None => "хз чо за реакция"@,
        } + seq![':'],
{
    let inner = match name {
        Some(n) => chars_of(n),
        None => chars_of("хз чо за реакция"),
    };
    let mut v: Vec<char> = Vec::new();
    v.push(':');
    let mut i: usize = 0;
    while i < inner.len()
        invariant
            i <= inner.len(),
            v@ == seq![':'] + inner@.subrange(0, i as int),
        decreases inner.len() - i,
    {
        v.push(inner[i]);
        i += 1;
        assert(v@ =~= seq![':'] + inner@.subrange(0, i as int));
    }
    v.push(':');
    assert(inner@.subrange(0, inner.len() as int) =~= inner@);
    assert(v@ =~= seq![':'] + inner@ + seq![':']);
    string_from_chars(&v)
}

/// The author line of an embed: a reply is introduced, the forwarded
/// message shows the bare name.
pub fn embed_author(kind: StarboardEmbedType, author_name: &str) -> (r: String)
    ensures
        r@ == match kind {
            StarboardEmbedType::Reply => "Пиздит на "@ + author_name@,
            StarboardEmbedType::Original => author_name@,
        },
{
    match kind {
        StarboardEmbedType::Reply => {
            let mut v = chars_of("Пиздит на ");
            let name = chars_of(author_name);
            let ghost head = v@;
            let mut i: usize = 0;
            while i < name.len()
                invariant
                    i <= name.len(),
                    v@ == head + name@.subrange(0, i as int),
                decreases name.len() - i,
            {
                v.push(name[i]);
                i += 1;
                assert(v@ =~= head + name@.subrange(0, i as int));
            }
            assert(name@.subrange(0, name.len() as int) =~= name@);
            string_from_chars(&v)
        },
        StarboardEmbedType::Original => string_from_chars(&chars_of(author_name)),
    }
}

/// Whether a given threshold is warned about: none given, or fewer than
/// two reactions. The setting goes ahead either way.
pub open spec fn threshold_warned(threshold: Option<usize>) -> bool {
    match threshold {
        None => true,
        Some(t) => t < 2,
    }
}

/// Checks a requested starboard channel: refused unless it is a text
/// channel; otherwise whether the threshold is warned about.
pub fn check_forward_channel(is_text: bool, threshold: Option<usize>) -> (r: Result<
    bool,
    ForwardChannelError,
>)
    ensures
        !is_text ==> r == Err::<bool, ForwardChannelError>(ForwardChannelError::NotText),
        is_text ==> r == Ok::<bool, ForwardChannelError>(threshold_warned(threshold)),
{
    if !is_text {
        return Err(ForwardChannelError::NotText);
    }
    match threshold {
        None => Ok(true),
        Some(t) => Ok(t < 2),
    }
}

/// The starboard settings after choosing a forward channel.
pub open spec fn forward_setting(
    channel_id: u64,
    threshold: Option<usize>,
    existing: Option<StarboardView>,
) -> StarboardView {
    StarboardView {
        forward_channel_id: channel_id,
        channels_whitelist: match existing {
            Some(e) => e.channels_whitelist,
            None => Seq::<u64>::empty(),
        },
        reaction_threshold: match threshold {
            Some(t) => t,
            None => DEFAULT_REACTION_THRESHOLD,
        },
    }
}

/// The starboard settings with a new whitelist.
pub open spec fn whitelist_setting(config: StarboardView, channel_ids: Seq<u64>) -> StarboardView {
    StarboardView { channels_whitelist: channel_ids, ..config }
}

/// The starboard settings after choosing a forward channel: the threshold
/// given (three by default), and the whitelist of the settings stored
/// before, if they could be read.
pub fn forward_channel_setting(
    channel_id: u64,
    threshold: Option<usize>,
    existing: Option<Starboard>,
) -> (s: Starboard)
    ensures
        s@ == forward_setting(
            channel_id,
            threshold,
            match existing {
                Some(e) => Some(e@),
                None => None,
            },
        ),
{
    let channels_whitelist = match existing {
        Some(e) => e.channels_whitelist,
        None => Vec::new(),
    };
    let reaction_threshold = match threshold {
        Some(t) => t,
        None => DEFAULT_REACTION_THRESHOLD,
    };
    let s = Starboard { forward_channel_id: channel_id, channels_whitelist, reaction_threshold };
    assert(s.channels_whitelist@ =~= forward_setting(
        channel_id,
        threshold,
        match existing {
            Some(e) => Some(e@),
            None => None,
        },
    ).channels_whitelist);
    s
}

/// The starboard settings with a new whitelist; the rest is kept.
pub fn with_whitelist(config: Starboard, channel_ids: Vec<u64>) -> (s: Starboard)
    ensures
        s@ == whitelist_setting(config@, channel_ids@),
{
    Starboard { channels_whitelist: channel_ids, ..config }
}

/// Choosing the forward channel again keeps a whitelist set before: after
/// a whitelist is set and the forward channel is chosen anew, reactions in
/// a whitelisted channel are still skipped, and the new forward channel is
/// skipped too.
pub proof fn whitelist_survives_new_forward_channel(
    config: StarboardView,
    listed: Seq<u64>,
    new_forward: u64,
    threshold: Option<usize>,
    channel: u64,
)
    ensures
        ({
            let after = forward_setting(
                new_forward,
                threshold,
                Some(whitelist_setting(config, listed)),
            );
            &&& after.channels_whitelist == listed
            &&& listed.contains(channel) ==> skip_reason(after, channel) == Some(
                SkipReason::Whitelisted,
            )
            &&& !listed.contains(new_forward) ==> skip_reason(after, new_forward) == Some(
                SkipReason::ForwardChannel,
            )
        }),
{
}

/// Setting the whitelist keeps the forward channel and the threshold.
pub proof fn whitelist_keeps_forwarding(config: StarboardView, listed: Seq<u64>)
    ensures
        whitelist_setting(config, listed).forward_channel_id == config.forward_channel_id,
        whitelist_setting(config, listed).reaction_threshold == config.reaction_threshold,
{
}

/// When the count did not change, or the old counter does not occur in
/// the text, the text stays as it is.
pub proof fn replace_keeps_text(hay: Seq<char>, from: Seq<char>, to: Seq<char>)
    requires
        from.len() > 0,
        from == to || !contains(hay, from),
    ensures
        replace_all(hay, from, to) == hay,
    decreases hay.len(),
{
    if hay.len() >= from.len() {
        if hay.subrange(0, from.len() as int) == from {
            assert(occurs_at(hay, from, 0));
            let rest = hay.subrange(from.len() as int, hay.len() as int);
            replace_keeps_text_rest(hay, from, to, from.len() as int);
            replace_keeps_text(rest, from, to);
            assert(hay =~= to + rest);
        } else {
            let rest = hay.subrange(1, hay.len() as int);
            replace_keeps_text_rest(hay, from, to, 1);
            replace_keeps_text(rest, from, to);
            assert(hay =~= seq![hay[0]] + rest);
        }
    }
}

/// A suffix of a text without `from` has no `from` either.
proof fn replace_keeps_text_rest(hay: Seq<char>, from: Seq<char>, to: Seq<char>, k: int)
    requires
        0 <= k <= hay.len(),
        from == to || !contains(hay, from),
    ensures
        from == to || !contains(hay.subrange(k, hay.len() as int), from),
{
    let rest = hay.subrange(k, hay.len() as int);
    if from != to {
        assert forall|i: int| !occurs_at(rest, from, i) by {
            if occurs_at(rest, from, i) {
                assert(rest.subrange(i, i + from.len()) =~= hay.subrange(k + i, k + i + from.len()));
                assert(occurs_at(hay, from, k + i));
            }
        }
    }
}

/// The text of a forwarded message: the reaction's label, the count,
/// " в ", and the mention of the channel the message was posted in.
pub fn forward_text(label: &str, reaction_count: usize, channel_id: u64) -> (s: String)
    ensures
        s@ == label@ + decimal(reaction_count as nat) + " в "@ + "<#"@ + decimal(
            channel_id as nat,
        ) + ">"@,
{
    let mut v = chars_of(label);
    push_chars(&mut v, &decimal_chars(reaction_count as u64));
    push_chars(&mut v, &chars_of(" в "));
    push_chars(&mut v, &chars_of("<#"));
    push_chars(&mut v, &decimal_chars(channel_id));
    push_chars(&mut v, &chars_of(">"));
    string_from_chars(&v)
}

/// What a reaction that reaches the threshold does, given the counter of
/// the message's starboard record, if it has one.
#[derive(Debug, Clone, Copy, PartialEq, Eq)]
pub enum ForwardStep {
    /// No record: the message is forwarded and a record is stored.
    Forward,
    /// A record with another counter: the forwarded text is updated.
    UpdateCounter,
    /// A record with the same counter: nothing happens.
    KeepExisting,
}

/// What a reaction that reaches the threshold does.
pub open spec fn forward_step(existing_last: Option<i16>, reaction_count: usize) -> ForwardStep {
    match existing_last {
        None => ForwardStep::Forward,
        Some(last) => if reaction_count != counter_as_count(last) {
            ForwardStep::UpdateCounter
        } else {
            ForwardStep::KeepExisting
        },
    }
}

/// What a reaction that reaches the threshold does.
pub fn decide_forward_step(existing_last: Option<i16>, reaction_count: usize) -> (s: ForwardStep)
    ensures
        s == forward_step(existing_last, reaction_count),
{
    match existing_last {
        None => ForwardStep::Forward,
        Some(last) => if counter_changed(reaction_count, last) {
            ForwardStep::UpdateCounter
        } else {
            ForwardStep::KeepExisting
        },
    }
}

/// Some starboard record stands for the source message `message_id`.
pub open spec fn has_row(rows: Seq<StarboardMessage>, message_id: i64) -> bool {
    exists|i: int| 0 <= i < rows.len() && #[trigger] rows[i].message_id == message_id
}

/// No two starboard records stand for the same source message.
pub open spec fn rows_unique(rows: Seq<StarboardMessage>) -> bool {
    forall|i: int, j: int|
        0 <= i < j < rows.len() ==> #[trigger] rows[i].message_id != #[trigger] rows[j].message_id
}

/// The records after a step: forwarding stores the new record.
pub open spec fn rows_after(rows: Seq<StarboardMessage>, step: ForwardStep, record: StarboardMessage) -> Seq<
    StarboardMessage,
> {
    if step == ForwardStep::Forward {
        rows.push(record)
    } else {
        rows
    }
}

/// A message is forwarded at most once: when the step is decided on the
/// stored record of the message (none if there is none), forwarding happens
/// only without a record, the records stay one per message, a record for
/// the message exists afterwards, and so no later step forwards it again.
pub proof fn forwarded_at_most_once(
    rows: Seq<StarboardMessage>,
    existing_last: Option<i16>,
    reaction_count: usize,
    record: StarboardMessage,
)
    requires
        rows_unique(rows),
        existing_last is None <==> !has_row(rows, record.message_id),
    ensures
        forward_step(existing_last, reaction_count) == ForwardStep::Forward ==> !has_row(
            rows,
            record.message_id,
        ),
        rows_unique(rows_after(rows, forward_step(existing_last, reaction_count), record)),
        has_row(rows_after(rows, forward_step(existing_last, reaction_count), record), record.message_id),
        forall|later_last: Option<i16>, later_count: usize|
            (later_last is None <==> !has_row(
                rows_after(rows, forward_step(existing_last, reaction_count), record),
                record.message_id,
            )) ==> #[trigger] forward_step(later_last, later_count) != ForwardStep::Forward,
{
    let after = rows_after(rows, forward_step(existing_last, reaction_count), record);
    if forward_step(existing_last, reaction_count) == ForwardStep::Forward {
        assert(after[rows.len() as int] == record);
        assert forall|i: int, j: int| 0 <= i < j < after.len() implies #[trigger] after[i].message_id
            != #[trigger] after[j].message_id by {
            if j == rows.len() {
                assert(after[i] == rows[i]);
                if rows[i].message_id == record.message_id {
                    assert(has_row(rows, record.message_id));
                }
            } else {
                assert(after[i] == rows[i]);
                assert(after[j] == rows[j]);
            }
        }
        assert(has_row(after, record.message_id));
    } else {
        let last = existing_last->0;
        assert(has_row(rows, record.message_id));
    }
}

/// Choosing a forward channel sets that channel, uses the threshold given
/// (three when none is given) whatever was stored before, and keeps the
/// stored whitelist (none when nothing could be read).
pub proof fn forward_setting_uses_given_values(
    channel_id: u64,
    threshold: Option<usize>,
    existing: Option<StarboardView>,
)
    ensures
        forward_setting(channel_id, threshold, existing).forward_channel_id == channel_id,
        threshold matches Some(t) ==> forward_setting(channel_id, threshold, existing).reaction_threshold
            == t,
        threshold is None ==> forward_setting(channel_id, threshold, existing).reaction_threshold == 3,
        existing matches Some(e) ==> forward_setting(channel_id, threshold, existing).channels_whitelist
            == e.channels_whitelist,
        existing is None ==> forward_setting(channel_id, threshold, existing).channels_whitelist.len()
            == 0,
{
}

/// With a stored record, the counter is updated exactly when the count
/// differs from the stored counter: for a counter that is not negative,
/// exactly when the count is another number; a negative counter stands for
/// the count `usize::MAX + 1 + last`. Without a record the message is
/// forwarded.
pub proof fn counter_update_exactly_on_change(last: i16, reaction_count: usize)
    ensures
        forward_step(None, reaction_count) == ForwardStep::Forward,
        forward_step(Some(last), reaction_count) != ForwardStep::Forward,
        last >= 0 ==> (forward_step(Some(last), reaction_count) == ForwardStep::UpdateCounter
            <==> reaction_count != last),
        last >= 0 ==> (forward_step(Some(last), reaction_count) == ForwardStep::KeepExisting
            <==> reaction_count == last),
        last < 0 ==> (forward_step(Some(last), reaction_count) == ForwardStep::KeepExisting
            <==> reaction_count == usize::MAX + 1 + last),
{
}

} // verus!
