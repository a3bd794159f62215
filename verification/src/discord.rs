//! The Discord summary of a run.
use vstd::prelude::*;
use vstd::slice::slice_subrange;

use crate::text::{
    byte_boundary, byte_boundary_index, byte_prefix, chars_of, copy_str, decimal, longer_than_bytes,
    push_decimal, str_equal, string_from_chars, trim, trim_str, utf8_len,
};
use crate::types::ItemResult;

verus! {

/// The most bytes Discord takes in one message.
pub const DISCORD_LIMIT: usize = 2000;

/// Where an over-long message is cut, in bytes.
pub const DISCORD_CUT: usize = 1990;

/// The channel the summary goes to when none is configured.
pub const DEFAULT_CHANNEL_ID: &'static str = "1477340656350396668";

/// The words that describe an item's execution status.
pub open spec fn exec_detail(status: Seq<char>) -> Seq<char> {
    if status == "completed"@ {
        "completed"@
    } else if status == "failed"@ {
        "failed"@
    } else if status == "none"@ {
        "filed"@
    } else if status == "skipped"@ {
        "skipped"@
    } else if status == "no-op"@ {
        "no changes"@
    } else if status == "pushed"@ {
        "pushed (PR failed)"@
    } else {
        status
    }
}

/// The summary line of one item: its file, its project (`none` without
/// one), its action type, and the pull request opened or else its status.
pub open spec fn item_line(r: ItemResult) -> Seq<char> {
    let project = match r.project_name {
        Some(p) => p@,
        None => "none"@,
    };
    let suffix = match r.pr_url {
        Some(u) => "PR opened: <"@ + u@ + ">"@,
        None => exec_detail(r.exec_status@),
    };
    "- `"@ + r.source_file@ + "` \u{2192} **"@ + project + "** ("@ + r.action_type@ + ") \u{2014} "@
        + suffix + "\n"@
}

/// The summary lines of all items, in order.
pub open spec fn item_lines(rs: Seq<ItemResult>) -> Seq<char>
    decreases rs.len(),
{
    if rs.len() == 0 {
        Seq::empty()
    } else {
        item_lines(rs.drop_last()) + item_line(rs.last())
    }
}

/// The item was enriched.
pub open spec fn is_enriched(r: ItemResult) -> bool {
    r.enriched
}

/// The item was neither enriched nor failed.
pub open spec fn is_unenriched(r: ItemResult) -> bool {
    !r.enriched && !r.failed
}

/// The item failed.
pub open spec fn is_failed(r: ItemResult) -> bool {
    r.failed
}

/// The number of items for which `p` holds.
pub open spec fn count_where(rs: Seq<ItemResult>, p: spec_fn(ItemResult) -> bool) -> nat
    decreases rs.len(),
{
    if rs.len() == 0 {
        0
    } else {
        count_where(rs.drop_last(), p) + if p(rs.last()) {
            1nat
        } else {
            0nat
        }
    }
}

/// No more items satisfy a predicate than there are items.
pub proof fn lemma_count_bound(rs: Seq<ItemResult>, p: spec_fn(ItemResult) -> bool)
    ensures
        count_where(rs, p) <= rs.len(),
    decreases rs.len(),
{
    if rs.len() > 0 {
        lemma_count_bound(rs.drop_last(), p);
    }
}

/// The numbers of enriched, unenriched and failed items.
pub open spec fn counts(rs: Seq<ItemResult>) -> (nat, nat, nat) {
    (count_where(rs, |r| is_enriched(r)), count_where(rs, |r| is_unenriched(r)), count_where(rs, |r| is_failed(r)))
}

/// The message before any cut: header with the time and the number of
/// items, one line per item, and the counts.
pub open spec fn discord_body(now: Seq<char>, rs: Seq<ItemResult>) -> Seq<char> {
    "**Daily Digest** \u{2014} "@ + now + "\n\nProcessed "@ + decimal(rs.len()) + " items:\n"@
        + item_lines(rs) + "\nEnriched: "@ + decimal(counts(rs).0) + " | Unenriched: "@ + decimal(
        counts(rs).1,
    ) + " | Failed: "@ + decimal(counts(rs).2)
}

/// A message over the limit can be cut at a character boundary at the cut
/// point (`String::truncate` panics otherwise).
pub open spec fn cut_possible(body: Seq<char>) -> bool {
    utf8_len(body) <= DISCORD_LIMIT || byte_boundary(body, DISCORD_CUT as nat)
}

/// The message as sent: the body when it fits the limit, else its first
/// `DISCORD_CUT` bytes and a truncation mark.
pub open spec fn limit_message(body: Seq<char>) -> Seq<char> {
    if utf8_len(body) <= DISCORD_LIMIT {
        body
    } else {
        byte_prefix(body, DISCORD_CUT as nat) + "\n...(truncated)"@
    }
}

/// Cuts a message to the limit; `None` when it is over the limit and the
/// cut point falls inside a character.
pub fn limit_to_discord(body: String) -> (r: Option<String>)
    ensures
        match r {
            Some(m) => cut_possible(body@) && m@ == limit_message(body@),
            None => !cut_possible(body@),
        },
{
    let chars = chars_of(body.as_str());
    if !longer_than_bytes(chars.as_slice(), DISCORD_LIMIT) {
        return Some(body);
    }
    match byte_boundary_index(chars.as_slice(), DISCORD_CUT) {
        Some(k) => {
            let mut m = string_from_chars(slice_subrange(chars.as_slice(), 0, k));
            m.append("\n...(truncated)");
            assert(chars@.subrange(0, k as int) =~= chars@.take(k as int));
            Some(m)
        },
        None => None,
    }
}

/// The words that describe an execution status.
pub fn exec_status_detail(status: &str) -> (r: String)
    ensures
        r@ == exec_detail(status@),
{
    if str_equal(status, "completed") {
        copy_str("completed")
    } else if str_equal(status, "failed") {
        copy_str("failed")
    } else if str_equal(status, "none") {
        copy_str("filed")
    } else if str_equal(status, "skipped") {
        copy_str("skipped")
    } else if str_equal(status, "no-op") {
        copy_str("no changes")
    } else if str_equal(status, "pushed") {
        copy_str("pushed (PR failed)")
    } else {
        copy_str(status)
    }
}

fn push_item_line(msg: &mut String, r: &ItemResult)
    ensures
        final(msg)@ == old(msg)@ + item_line(*r),
{
    let ghost start = msg@;
    msg.append("- `");
    msg.append(r.source_file.as_str());
    msg.append("` \u{2192} **");
    match &r.project_name {
        Some(p) => msg.append(p.as_str()),
        None => msg.append("none"),
    }
    msg.append("** (");
    msg.append(r.action_type.as_str());
    msg.append(") \u{2014} ");
    match &r.pr_url {
        Some(u) => {
            msg.append("PR opened: <");
            msg.append(u.as_str());
            msg.append(">");
        },
        None => {
            let d = exec_status_detail(r.exec_status.as_str());
            msg.append(d.as_str());
        },
    }
    msg.append("\n");
    assert(msg@ =~= start + item_line(*r));
}

/// Counts the enriched, unenriched and failed items.
pub fn count_results(results: &Vec<ItemResult>) -> (r: (usize, usize, usize))
    ensures
        r.0 == counts(results@).0,
        r.1 == counts(results@).1,
        r.2 == counts(results@).2,
{
    let mut e: usize = 0;
    let mut u: usize = 0;
    let mut f: usize = 0;
    for i in 0..results.len()
        invariant
            e == counts(results@.take(i as int)).0,
            u == counts(results@.take(i as int)).1,
            f == counts(results@.take(i as int)).2,
    {
        let ghost pre = results@.take(i as int);
        let ghost next = results@.take(i + 1);
        assert(next.drop_last() =~= pre);
        proof {
            lemma_count_bound(pre, |r| is_enriched(r));
            lemma_count_bound(pre, |r| is_unenriched(r));
            lemma_count_bound(pre, |r| is_failed(r));
        }
        if results[i].enriched {
            e = e + 1;
        }
        if !results[i].enriched && !results[i].failed {
            u = u + 1;
        }
        if results[i].failed {
            f = f + 1;
        }
    }
    assert(results@.take(results@.len() as int) =~= results@);
    (e, u, f)
}

/// Builds the message body, before any cut.
pub fn discord_body_at(now: &str, results: &Vec<ItemResult>) -> (r: String)
    ensures
        r@ == discord_body(now@, results@),
{
    let mut msg = copy_str("**Daily Digest** \u{2014} ");
    msg.append(now);
    msg.append("\n\nProcessed ");
    push_decimal(&mut msg, results.len());
    msg.append(" items:\n");
    let ghost head = msg@;
    assert(results@.take(0) =~= Seq::<ItemResult>::empty());
    for i in 0..results.len()
        invariant
            msg@ == head + item_lines(results@.take(i as int)),
    {
        assert(results@.take(i + 1).drop_last() =~= results@.take(i as int));
        push_item_line(&mut msg, &results[i]);
    }
    assert(results@.take(results@.len() as int) =~= results@);
    let (e, u, f) = count_results(results);
    msg.append("\nEnriched: ");
    push_decimal(&mut msg, e);
    msg.append(" | Unenriched: ");
    push_decimal(&mut msg, u);
    msg.append(" | Failed: ");
    push_decimal(&mut msg, f);
    msg
}

/// The summary message at the given time (`YYYY-MM-DD HH:MM`), cut to
/// Discord's limit.
pub fn format_discord_message_at(now: &str, results: &Vec<ItemResult>) -> (r: String)
    requires
        cut_possible(discord_body(now@, results@)),
    ensures
        r@ == limit_message(discord_body(now@, results@)),
{
    let body = discord_body_at(now, results);
    match limit_to_discord(body) {
        Some(m) => m,
        None => String::new(),
    }
}

/// What chrono prints for `%Y-%m-%d %H:%M`: at most 19 ASCII characters
/// (a year of up to six digits and a sign, then twelve characters of fixed
/// width).
pub open spec fn stamp_shape(now: Seq<char>) -> bool {
    &&& now.len() <= 19
    &&& forall|i: int| 0 <= i < now.len() ==> (#[trigger] now[i] as u32) < 0x80
}

/// The local time to the minute, `YYYY-MM-DD HH:MM` (chrono's
/// `Local::now().format(..)`).  Which time it is depends on the clock; its
/// shape does not.
#[verifier::external_body]
fn local_minute_stamp() -> (r: String)
    ensures
        stamp_shape(r@),
{
    chrono::Local::now().format("%Y-%m-%d %H:%M").to_string()
}

/// The summary message at the current local time, cut to Discord's limit;
/// `None` when the message would have to be cut inside a character.  When
/// the message fits the limit whatever the time stamp, it is always sent.
pub fn format_discord_message(results: &Vec<ItemResult>) -> (r: Option<String>)
    ensures
        match r {
            Some(m) => exists|now: Seq<char>|
                stamp_shape(now) && cut_possible(discord_body(now, results@)) && m@
                    == limit_message(#[trigger] discord_body(now, results@)),
            None => exists|now: Seq<char>|
                stamp_shape(now) && !cut_possible(#[trigger] discord_body(now, results@)),
        },
        (forall|now: Seq<char>|
            stamp_shape(now) ==> utf8_len(#[trigger] discord_body(now, results@)) <= DISCORD_LIMIT)
            ==> r is Some,
{
    let now = local_minute_stamp();
    let body = discord_body_at(now.as_str(), results);
    limit_to_discord(body)
}

/// The bot token read from the token file: the file's text, trimmed; an
/// error when that is empty.
pub fn discord_token(raw: &str) -> (r: Result<String, String>)
    ensures
        match r {
            Ok(t) => trim(raw@).len() > 0 && t@ == trim(raw@),
            Err(e) => trim(raw@).len() == 0 && e@ == "Bot token is empty"@,
        },
{
    let t = trim_str(raw);
    if t.len() == 0 {
        Err(copy_str("Bot token is empty"))
    } else {
        Ok(string_from_chars(t.as_slice()))
    }
}

/// The token file: `DISCORD_TOKEN_FILE` when set, else
/// `<HOME>/.digest-bot-token` with `/root` for an unset `HOME`.
pub fn token_file_path(configured: Option<String>, home: Option<String>) -> (r: String)
    ensures
        r@ == match configured {
            Some(c) => c@,
            None => match home {
                Some(h) => h@ + "/.digest-bot-token"@,
                None => "/root"@ + "/.digest-bot-token"@,
            },
        },
{
    match configured {
        Some(c) => c,
        None => {
            let mut p = match home {
                Some(h) => h,
                None => copy_str("/root"),
            };
            p.append("/.digest-bot-token");
            p
        },
    }
}

/// The channel: `DISCORD_CHANNEL_ID` when set, else the default channel.
pub fn discord_channel(configured: Option<String>) -> (r: String)
    ensures
        r@ == match configured {
            Some(c) => c@,
            None => DEFAULT_CHANNEL_ID@,
        },
{
    match configured {
        Some(c) => c,
        None => copy_str(DEFAULT_CHANNEL_ID),
    }
}

/// The endpoint that posts a message to a channel.
pub fn discord_messages_url(channel_id: &str) -> (r: String)
    ensures
        r@ == "https://discord.com/api/v10/channels/"@ + channel_id@ + "/messages"@,
{
    let mut u = copy_str("https://discord.com/api/v10/channels/");
    u.append(channel_id);
    u.append("/messages");
    u
}

/// The `Authorization` header value for a bot token.
pub fn bot_authorization(token: &str) -> (r: String)
    ensures
        r@ == "Bot "@ + token@,
{
    let mut a = copy_str("Bot ");
    a.append(token);
    a
}

/// The error when the token file cannot be read.
pub fn token_read_error(path: &str, reason: &str) -> (r: String)
    ensures
        r@ == "Cannot read token file "@ + path@ + ": "@ + reason@,
{
    let mut e = copy_str("Cannot read token file ");
    e.append(path);
    e.append(": ");
    e.append(reason);
    e
}

/// The error when Discord answers with a failure status.
pub fn discord_status_error(status: &str, body: &str) -> (r: String)
    ensures
        r@ == "Discord API returned "@ + status@ + ": "@ + body@,
{
    let mut e = copy_str("Discord API returned ");
    e.append(status);
    e.append(": ");
    e.append(body);
    e
}

} // verus!

verus! {

/// The message sent is never longer than 2005 bytes: the body itself when
/// it fits 2000 bytes, else exactly the first 1990 bytes and the 15-byte
/// truncation mark.
pub proof fn law_discord_length(body: Seq<char>)
    requires
        cut_possible(body),
    ensures
        utf8_len(body) <= DISCORD_LIMIT ==> limit_message(body) == body,
        utf8_len(body) > DISCORD_LIMIT ==> utf8_len(limit_message(body)) == DISCORD_CUT + 15,
        utf8_len(limit_message(body)) <= DISCORD_LIMIT + 5,
{
    if utf8_len(body) > DISCORD_LIMIT {
        let mark = "\n...(truncated)"@;
        reveal_strlit("\n...(truncated)");
        crate::text::lemma_utf8_len_ascii(mark);
        crate::text::lemma_byte_prefix(body, DISCORD_CUT as nat);
        crate::text::lemma_utf8_len_concat(crate::text::byte_prefix(body, DISCORD_CUT as nat), mark);
    }
}

/// The message is sent, whatever the time, when its body with an empty
/// time stamp leaves 19 bytes of the limit free.
pub proof fn law_discord_fits_any_time(rs: Seq<ItemResult>)
    requires
        utf8_len(discord_body(Seq::empty(), rs)) + 19 <= DISCORD_LIMIT,
    ensures
        forall|now: Seq<char>|
            stamp_shape(now) ==> utf8_len(#[trigger] discord_body(now, rs)) <= DISCORD_LIMIT,
{
    assert forall|now: Seq<char>| stamp_shape(now) implies utf8_len(
        #[trigger] discord_body(now, rs),
    ) <= DISCORD_LIMIT by {
        lemma_body_len(now, rs);
        crate::text::lemma_utf8_len_ascii(now);
    }
}

/// The time stamp adds its own bytes to the body.
pub proof fn lemma_body_len(now: Seq<char>, rs: Seq<ItemResult>)
    ensures
        utf8_len(discord_body(now, rs)) == utf8_len(discord_body(Seq::empty(), rs)) + utf8_len(now),
{
    let head = "**Daily Digest** \u{2014} "@;
    let tail = "\n\nProcessed "@ + decimal(rs.len()) + " items:\n"@ + item_lines(rs)
        + "\nEnriched: "@ + decimal(counts(rs).0) + " | Unenriched: "@ + decimal(counts(rs).1)
        + " | Failed: "@ + decimal(counts(rs).2);
    assert(discord_body(now, rs) =~= head + (now + tail));
    assert(discord_body(Seq::empty(), rs) =~= head + tail);
    crate::text::lemma_utf8_len_concat(head, now + tail);
    crate::text::lemma_utf8_len_concat(now, tail);
    crate::text::lemma_utf8_len_concat(head, tail);
}

} // verus!
