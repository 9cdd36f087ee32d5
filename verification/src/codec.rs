//! The stored form of a preference list.
//!
//! A list is kept as one text value: an opening bracket, the entries in the
//! order given, separated by commas, and a closing bracket. An entry names its
//! channel and says whether it is enabled, as in
//! `{"channel":"Email","enabled":true}`. Nothing else is written, so a text
//! stands for at most one list, and only texts of this form are read back.

use crate::model::{Channel, NotificationPreference};
use vstd::prelude::*;
use vstd::string::*;
use vstd::utf8::is_ascii_chars;

verus! {

/// What opens an entry, up to the channel's name.
pub const ENTRY_OPEN: &'static str = "{\"channel\":\"";

/// What stands between the channel's name and the flag.
pub const ENTRY_MIDDLE: &'static str = "\",\"enabled\":";

/// What closes an entry.
pub const ENTRY_CLOSE: &'static str = "}";

/// The name under which a channel is written.
pub open spec fn channel_name(c: Channel) -> Seq<char> {
    match c {
        Channel::Email => "Email"@,
        Channel::Telegram => "Telegram"@,
        Channel::Webhook => "Webhook"@,
    }
}

/// How the `enabled` flag is written.
pub open spec fn flag_text(enabled: bool) -> Seq<char> {
    if enabled {
        "true"@
    } else {
        "false"@
    }
}

/// The text of one entry.
pub open spec fn encoded_entry(p: NotificationPreference) -> Seq<char> {
    ENTRY_OPEN@ + channel_name(p.channel) + ENTRY_MIDDLE@ + flag_text(p.enabled) + ENTRY_CLOSE@
}

/// The opening bracket and the first `n` entries of `prefs`, each entry after
/// the first preceded by a comma.
pub open spec fn encoded_prefix(prefs: Seq<NotificationPreference>, n: nat) -> Seq<char>
    decreases n,
{
    if n == 0 {
        "["@
    } else if n == 1 {
        "["@ + encoded_entry(prefs[0])
    } else {
        encoded_prefix(prefs, (n - 1) as nat) + ","@ + encoded_entry(prefs[n - 1])
    }
}

/// The stored form of `prefs`.
pub open spec fn encoded(prefs: Seq<NotificationPreference>) -> Seq<char> {
    encoded_prefix(prefs, prefs.len()) + "]"@
}

impl Channel {
    /// The name under which this channel is written.
    pub fn name(self) -> (s: &'static str)
        ensures
            s@ == channel_name(self),
    {
        match self {
            Channel::Email => "Email",
            Channel::Telegram => "Telegram",
            Channel::Webhook => "Webhook",
        }
    }
}

/// Writes `prefs` in its stored form.
pub fn encode_preferences(prefs: &Vec<NotificationPreference>) -> (text: String)
    ensures
        text@ == encoded(prefs@),
{
    let mut out = String::from_str("[");
    let mut i: usize = 0;
    while i < prefs.len()
        invariant
            i <= prefs.len(),
            out@ == encoded_prefix(prefs@, i as nat),
        decreases prefs.len() - i,
    {
        if i > 0 {
            out.append(",");
        }
        let p = prefs[i];
        out.append(ENTRY_OPEN);
        out.append(p.channel.name());
        out.append(ENTRY_MIDDLE);
        out.append(if p.enabled { "true" } else { "false" });
        out.append(ENTRY_CLOSE);
        assert(out@ =~= encoded_prefix(prefs@, (i + 1) as nat));
        i += 1;
    }
    out.append("]");
    out
}

/// The list that `text` is the stored form of, if it is one.
pub open spec fn decoded(text: Seq<char>) -> Option<Seq<NotificationPreference>> {
    if exists|prefs: Seq<NotificationPreference>| encoded(prefs) == text {
        Some(choose|prefs: Seq<NotificationPreference>| encoded(prefs) == text)
    } else {
        None
    }
}

/// Reads a list back from its stored form. A text that is not the stored form
/// of any list gives `None`.
pub fn decode_preferences(text: &str) -> (res: Option<Vec<NotificationPreference>>)
    ensures
        res is Some <==> decoded(text@) is Some,
        res matches Some(prefs) ==> decoded(text@) == Some(prefs@),
{
    proof {
        lemma_decoded_is_parsed(text@);
    }
    if !text.is_ascii() {
        proof {
            if parsed(text@) is Some {
                let q = parsed(text@)->0;
                lemma_parsed_sound(text@);
                lemma_encoded_prefix_ascii(q, q.len());
                lemma_pieces_ascii();
            }
        }
        return None;
    }
    read_list(text)
}

/// Two lists with the same stored form are the same list.
pub proof fn lemma_encoded_injective(
    a: Seq<NotificationPreference>,
    b: Seq<NotificationPreference>,
)
    requires
        encoded(a) == encoded(b),
    ensures
        a == b,
{
    lemma_parsed_encoded(a);
    lemma_parsed_encoded(b);
}

/// Round trip: the stored form of a list is read back as that list, with
/// every entry in its place.
pub proof fn lemma_decoded_encoded(prefs: Seq<NotificationPreference>)
    ensures
        decoded(encoded(prefs)) == Some(prefs),
{
    let found = choose|q: Seq<NotificationPreference>| encoded(q) == encoded(prefs);
    lemma_encoded_injective(found, prefs);
}

/// Whether `pat` stands in `text` at position `pos`.
spec fn has_at(text: Seq<char>, pos: int, pat: Seq<char>) -> bool {
    &&& 0 <= pos
    &&& pos + pat.len() <= text.len()
    &&& text.subrange(pos, pos + pat.len()) == pat
}

/// The channel whose name stands in `text` at `pos`, if one does.
spec fn channel_at(text: Seq<char>, pos: int) -> Option<Channel> {
    if has_at(text, pos, "Email"@) {
        Some(Channel::Email)
    } else if has_at(text, pos, "Telegram"@) {
        Some(Channel::Telegram)
    } else if has_at(text, pos, "Webhook"@) {
        Some(Channel::Webhook)
    } else {
        None
    }
}

/// The flag that stands in `text` at `pos`, if one does.
spec fn flag_at(text: Seq<char>, pos: int) -> Option<bool> {
    if has_at(text, pos, "true"@) {
        Some(true)
    } else if has_at(text, pos, "false"@) {
        Some(false)
    } else {
        None
    }
}

/// The entry that stands in `text` at `pos`, if one does.
spec fn entry_at(text: Seq<char>, pos: int) -> Option<NotificationPreference> {
    if !has_at(text, pos, ENTRY_OPEN@) {
        None
    } else {
        let a = pos + ENTRY_OPEN@.len();
        match channel_at(text, a) {
            None => None,
            Some(channel) => {
                let b = a + channel_name(channel).len();
                if !has_at(text, b, ENTRY_MIDDLE@) {
                    None
                } else {
                    let c = b + ENTRY_MIDDLE@.len();
                    match flag_at(text, c) {
                        None => None,
                        Some(enabled) => {
                            let d = c + flag_text(enabled).len();
                            if has_at(text, d, ENTRY_CLOSE@) {
                                Some(NotificationPreference { channel, enabled })
                            } else {
                                None
                            }
                        },
                    }
                }
            },
        }
    }
}

/// The list read from `text` when an entry is due at `pos` and the entries
/// before it are `acc`.
spec fn entries_from(text: Seq<char>, pos: int, acc: Seq<NotificationPreference>) -> Option<
    Seq<NotificationPreference>,
>
    decreases text.len() - pos,
{
    match entry_at(text, pos) {
        None => None,
        Some(p) => {
            let next = pos + encoded_entry(p).len();
            if has_at(text, next, ","@) && next + 1 <= text.len() {
                entries_from(text, next + 1, acc.push(p))
            } else if has_at(text, next, "]"@) && next + "]"@.len() == text.len() {
                Some(acc.push(p))
            } else {
                None
            }
        },
    }
}

/// The list read from `text`, going through it once from the left.
spec fn parsed(text: Seq<char>) -> Option<Seq<NotificationPreference>> {
    if !has_at(text, 0, "["@) {
        None
    } else if has_at(text, "["@.len() as int, "]"@) && text.len() == "["@.len() + "]"@.len() {
        Some(Seq::empty())
    } else {
        entries_from(text, "["@.len() as int, Seq::empty())
    }
}

/// The position after `pat` where `pat` stands in `text` at `pos`, compared
/// byte by byte.
fn skip(text: &str, pos: usize, pat: &str) -> (after: Option<usize>)
    requires
        is_ascii(text),
        is_ascii(pat),
    ensures
        after is Some <==> has_at(text@, pos as int, pat@),
        after matches Some(next) ==> next == pos + pat@.len(),
{
    broadcast use is_ascii_spec_bytes;

    let t = text.as_bytes();
    let p = pat.as_bytes();
    let n = t.len();
    let m = p.len();
    if pos > n || m > n - pos {
        return None;
    }
    let mut i: usize = 0;
    while i < m
        invariant
            i <= m,
            pos + m <= n,
            n == text@.len(),
            m == pat@.len(),
            is_ascii(text),
            is_ascii(pat),
            t@ == text.spec_bytes(),
            p@ == pat.spec_bytes(),
            text@.subrange(pos as int, pos + i) =~= pat@.subrange(0, i as int),
        decreases m - i,
    {
        if t[pos + i] != p[i] {
            proof {
                let sub = text@.subrange(pos as int, pos + m);
                assert(sub[i as int] == text@[pos + i]);
                assert(text@[pos + i] != pat@[i as int]);
            }
            return None;
        }
        proof {
            assert(text@[pos + i] as u8 == pat@[i as int] as u8);
            assert(text@[pos + i] == pat@[i as int]);
        }
        i += 1;
    }
    assert(pat@.subrange(0, m as int) =~= pat@);
    Some(pos + m)
}

/// Reads a channel's name at `pos`.
fn read_channel(text: &str, pos: usize) -> (r: Option<(Channel, usize)>)
    requires
        is_ascii(text),
    ensures
        r is Some <==> channel_at(text@, pos as int) is Some,
        r matches Some((c, next)) ==> channel_at(text@, pos as int) == Some(c) && next == pos
            + channel_name(c).len(),
{
    proof {
        lemma_pieces_ascii();
    }
    if let Some(next) = skip(text, pos, "Email") {
        Some((Channel::Email, next))
    } else if let Some(next) = skip(text, pos, "Telegram") {
        Some((Channel::Telegram, next))
    } else if let Some(next) = skip(text, pos, "Webhook") {
        Some((Channel::Webhook, next))
    } else {
        None
    }
}

/// Reads a flag at `pos`.
fn read_flag(text: &str, pos: usize) -> (r: Option<(bool, usize)>)
    requires
        is_ascii(text),
    ensures
        r is Some <==> flag_at(text@, pos as int) is Some,
        r matches Some((f, next)) ==> flag_at(text@, pos as int) == Some(f) && next == pos
            + flag_text(f).len(),
{
    proof {
        lemma_pieces_ascii();
    }
    if let Some(next) = skip(text, pos, "true") {
        Some((true, next))
    } else if let Some(next) = skip(text, pos, "false") {
        Some((false, next))
    } else {
        None
    }
}

/// Reads one entry at `pos`.
fn read_entry(text: &str, pos: usize) -> (r: Option<(NotificationPreference, usize)>)
    requires
        is_ascii(text),
    ensures
        r is Some <==> entry_at(text@, pos as int) is Some,
        r matches Some((p, next)) ==> entry_at(text@, pos as int) == Some(p) && next == pos
            + encoded_entry(p).len(),
{
    proof {
        lemma_pieces_ascii();
    }
    let a = match skip(text, pos, ENTRY_OPEN) {
        Some(a) => a,
        None => { return None; },
    };
    let (channel, b) = match read_channel(text, a) {
        Some(found) => found,
        None => { return None; },
    };
    let c = match skip(text, b, ENTRY_MIDDLE) {
        Some(c) => c,
        None => { return None; },
    };
    let (enabled, d) = match read_flag(text, c) {
        Some(found) => found,
        None => { return None; },
    };
    match skip(text, d, ENTRY_CLOSE) {
        Some(next) => Some((NotificationPreference { channel, enabled }, next)),
        None => None,
    }
}

/// Reads a whole list from a text of ASCII characters.
fn read_list(text: &str) -> (res: Option<Vec<NotificationPreference>>)
    requires
        is_ascii(text),
    ensures
        res is Some <==> parsed(text@) is Some,
        res matches Some(v) ==> parsed(text@) == Some(v@),
{
    broadcast use is_ascii_spec_bytes;

    proof {
        lemma_pieces_ascii();
        reveal_strlit(",");
    }
    let n = text.as_bytes().len();
    let start = match skip(text, 0, "[") {
        Some(start) => start,
        None => { return None; },
    };
    let mut out: Vec<NotificationPreference> = Vec::new();
    if let Some(end) = skip(text, start, "]") {
        if end == n {
            return Some(out);
        }
    }
    let mut pos = start;
    loop
        invariant
            is_ascii(text),
            n == text@.len(),
            pos <= n,
            is_ascii(","),
            is_ascii("]"),
            ","@.len() == 1,
            parsed(text@) == entries_from(text@, pos as int, out@),
        decreases n - pos,
    {
        let (p, next) = match read_entry(text, pos) {
            Some(found) => found,
            None => { return None; },
        };
        out.push(p);
        match skip(text, next, ",") {
            Some(after) => {
                pos = after;
            },
            None => {
                return match skip(text, next, "]") {
                    Some(end) => if end == n { Some(out) } else { None },
                    None => None,
                };
            },
        }
    }
}

/// The fixed pieces of the stored form hold ASCII characters only.
proof fn lemma_pieces_ascii()
    ensures
        is_ascii("["),
        is_ascii("]"),
        is_ascii(","),
        is_ascii(ENTRY_OPEN),
        is_ascii(ENTRY_MIDDLE),
        is_ascii(ENTRY_CLOSE),
        is_ascii("Email"),
        is_ascii("Telegram"),
        is_ascii("Webhook"),
        is_ascii("true"),
        is_ascii("false"),
{
    reveal_strlit("[");
    reveal_strlit("]");
    reveal_strlit(",");
    reveal_strlit("{\"channel\":\"");
    reveal_strlit("\",\"enabled\":");
    reveal_strlit("}");
    reveal_strlit("Email");
    reveal_strlit("Telegram");
    reveal_strlit("Webhook");
    reveal_strlit("true");
    reveal_strlit("false");
}

/// A text made of two parts stands at `pos` exactly when the first part does
/// and the second follows it.
proof fn lemma_has_at_concat(text: Seq<char>, pos: int, a: Seq<char>, b: Seq<char>)
    ensures
        has_at(text, pos, a + b) <==> has_at(text, pos, a) && has_at(text, pos + a.len(), b),
{
    if has_at(text, pos, a + b) {
        let whole = text.subrange(pos, pos + (a + b).len());
        assert(text.subrange(pos, pos + a.len()) =~= whole.subrange(0, a.len() as int));
        assert(whole.subrange(0, a.len() as int) =~= a);
        assert(text.subrange(pos + a.len(), pos + a.len() + b.len()) =~= whole.subrange(
            a.len() as int,
            (a + b).len() as int,
        ));
        assert(whole.subrange(a.len() as int, (a + b).len() as int) =~= b);
    }
    if has_at(text, pos, a) && has_at(text, pos + a.len(), b) {
        assert(text.subrange(pos, pos + (a + b).len()) =~= text.subrange(pos, pos + a.len())
            + text.subrange(pos + a.len(), pos + a.len() + b.len()));
    }
}

/// A text in which `pat` stands at `pos` holds the characters of `pat` there.
proof fn lemma_has_at_char(text: Seq<char>, pos: int, pat: Seq<char>, i: int)
    requires
        has_at(text, pos, pat),
        0 <= i < pat.len(),
    ensures
        text[pos + i] == pat[i],
{
    assert(text.subrange(pos, pos + pat.len())[i] == text[pos + i]);
}

/// No two channels' names can stand at the same place.
proof fn lemma_channel_at_complete(text: Seq<char>, pos: int, c: Channel)
    requires
        has_at(text, pos, channel_name(c)),
    ensures
        channel_at(text, pos) == Some(c),
{
    reveal_strlit("Email");
    reveal_strlit("Telegram");
    reveal_strlit("Webhook");
    lemma_has_at_char(text, pos, channel_name(c), 0);
    if has_at(text, pos, "Email"@) {
        lemma_has_at_char(text, pos, "Email"@, 0);
    }
    if has_at(text, pos, "Telegram"@) {
        lemma_has_at_char(text, pos, "Telegram"@, 0);
    }
}

/// The two flags cannot stand at the same place.
proof fn lemma_flag_at_complete(text: Seq<char>, pos: int, f: bool)
    requires
        has_at(text, pos, flag_text(f)),
    ensures
        flag_at(text, pos) == Some(f),
{
    reveal_strlit("true");
    reveal_strlit("false");
    lemma_has_at_char(text, pos, flag_text(f), 0);
    if has_at(text, pos, "true"@) {
        lemma_has_at_char(text, pos, "true"@, 0);
    }
}

/// Where an entry is read, its text stands.
proof fn lemma_entry_at_sound(text: Seq<char>, pos: int)
    requires
        entry_at(text, pos) is Some,
    ensures
        has_at(text, pos, encoded_entry(entry_at(text, pos)->0)),
{
    let p = entry_at(text, pos)->0;
    let a = pos + ENTRY_OPEN@.len();
    let b = a + channel_name(p.channel).len();
    let c = b + ENTRY_MIDDLE@.len();
    let d = c + flag_text(p.enabled).len();
    let t1 = ENTRY_OPEN@ + channel_name(p.channel);
    let t2 = t1 + ENTRY_MIDDLE@;
    let t3 = t2 + flag_text(p.enabled);
    lemma_has_at_concat(text, pos, ENTRY_OPEN@, channel_name(p.channel));
    lemma_has_at_concat(text, pos, t1, ENTRY_MIDDLE@);
    lemma_has_at_concat(text, pos, t2, flag_text(p.enabled));
    lemma_has_at_concat(text, pos, t3, ENTRY_CLOSE@);
}

/// Where an entry's text stands, that entry is read.
proof fn lemma_entry_at_complete(text: Seq<char>, pos: int, p: NotificationPreference)
    requires
        has_at(text, pos, encoded_entry(p)),
    ensures
        entry_at(text, pos) == Some(p),
{
    let a = pos + ENTRY_OPEN@.len();
    let b = a + channel_name(p.channel).len();
    let c = b + ENTRY_MIDDLE@.len();
    let t1 = ENTRY_OPEN@ + channel_name(p.channel);
    let t2 = t1 + ENTRY_MIDDLE@;
    let t3 = t2 + flag_text(p.enabled);
    lemma_has_at_concat(text, pos, t3, ENTRY_CLOSE@);
    lemma_has_at_concat(text, pos, t2, flag_text(p.enabled));
    lemma_has_at_concat(text, pos, t1, ENTRY_MIDDLE@);
    lemma_has_at_concat(text, pos, ENTRY_OPEN@, channel_name(p.channel));
    lemma_channel_at_complete(text, a, p.channel);
    lemma_flag_at_complete(text, c, p.enabled);
}

/// What is written before entry `k` of `prefs`: the earlier entries, and a
/// comma if there are any.
spec fn lead(prefs: Seq<NotificationPreference>, k: nat) -> Seq<char> {
    if k == 0 {
        "["@
    } else {
        encoded_prefix(prefs, k) + ","@
    }
}

/// Writing entry `k` after what leads to it gives the first `k + 1` entries.
proof fn lemma_prefix_step(prefs: Seq<NotificationPreference>, k: nat)
    ensures
        encoded_prefix(prefs, k + 1) == lead(prefs, k) + encoded_entry(prefs[k as int]),
{
    if k > 0 {
        assert(encoded_prefix(prefs, k + 1) == encoded_prefix(prefs, k) + ","@ + encoded_entry(
            prefs[k as int],
        ));
    }
}

/// The first `n` entries are written alike for two lists that agree on them.
proof fn lemma_prefix_agree(
    a: Seq<NotificationPreference>,
    b: Seq<NotificationPreference>,
    n: nat,
)
    requires
        forall|i: int| 0 <= i < n ==> a[i] == b[i],
    ensures
        encoded_prefix(a, n) == encoded_prefix(b, n),
    decreases n,
{
    if n > 1 {
        lemma_prefix_agree(a, b, (n - 1) as nat);
    }
}

/// The text of the first `k` entries opens that of the first `n`, for `k <= n`.
proof fn lemma_prefix_opens(prefs: Seq<NotificationPreference>, k: nat, n: nat)
    requires
        k <= n,
    ensures
        has_at(encoded_prefix(prefs, n), 0, encoded_prefix(prefs, k)),
    decreases n - k,
{
    if k == n {
        let t = encoded_prefix(prefs, n);
        assert(t.subrange(0, t.len() as int) =~= t);
    } else {
        lemma_prefix_opens(prefs, k, (n - 1) as nat);
        lemma_prefix_step(prefs, (n - 1) as nat);
        let shorter = encoded_prefix(prefs, (n - 1) as nat);
        let longer = encoded_prefix(prefs, n);
        let pk = encoded_prefix(prefs, k);
        assert(longer.subrange(0, shorter.len() as int) =~= shorter);
        assert(longer.subrange(0, pk.len() as int) =~= shorter.subrange(0, pk.len() as int));
    }
}

/// A list read from the left is the list whose stored form the text is.
proof fn lemma_entries_from_sound(text: Seq<char>, pos: int, acc: Seq<NotificationPreference>)
    requires
        entries_from(text, pos, acc) is Some,
        0 <= pos <= text.len(),
        text.subrange(0, pos) == lead(acc, acc.len()),
    ensures
        text == encoded(entries_from(text, pos, acc)->0),
    decreases text.len() - pos,
{
    let p = entry_at(text, pos)->0;
    let next = pos + encoded_entry(p).len();
    let more = acc.push(p);
    lemma_entry_at_sound(text, pos);
    lemma_prefix_step(more, acc.len());
    lemma_prefix_agree(acc, more, acc.len());
    assert(text.subrange(0, next) =~= text.subrange(0, pos) + text.subrange(pos, next));
    assert(text.subrange(0, next) == encoded_prefix(more, more.len()));
    if has_at(text, next, ","@) && next + 1 <= text.len() {
        assert(text.subrange(0, next + ","@.len()) =~= text.subrange(0, next) + text.subrange(
            next,
            next + ","@.len(),
        ));
        reveal_strlit(",");
        lemma_entries_from_sound(text, next + 1, more);
    } else {
        assert(text =~= text.subrange(0, next) + text.subrange(next, next + "]"@.len()));
    }
}

/// The stored form of a list, read from entry `k` on, gives the list back.
proof fn lemma_entries_from_complete(prefs: Seq<NotificationPreference>, k: nat)
    requires
        k < prefs.len(),
    ensures
        entries_from(encoded(prefs), lead(prefs, k).len() as int, prefs.take(k as int)) == Some(
            prefs,
        ),
    decreases prefs.len() - k,
{
    let text = encoded(prefs);
    let whole = encoded_prefix(prefs, prefs.len());
    let pos = lead(prefs, k).len() as int;
    let p = prefs[k as int];
    let next = pos + encoded_entry(p).len();
    reveal_strlit(",");
    reveal_strlit("]");
    // the first k + 1 entries open the text
    lemma_prefix_step(prefs, k);
    lemma_prefix_opens(prefs, k + 1, prefs.len());
    assert(text.subrange(0, text.len() as int) =~= text);
    lemma_has_at_concat(text, 0, whole, "]"@);
    assert(has_at(text, 0, encoded_prefix(prefs, k + 1))) by {
        let first = encoded_prefix(prefs, k + 1);
        assert(text.subrange(0, first.len() as int) =~= whole.subrange(0, first.len() as int));
    }
    lemma_has_at_concat(text, 0, lead(prefs, k), encoded_entry(p));
    lemma_entry_at_complete(text, pos, p);
    assert(prefs.take(k as int).push(p) =~= prefs.take(k + 1 as int));
    if k + 1 < prefs.len() {
        lemma_prefix_opens(prefs, k + 2, prefs.len());
        lemma_prefix_step(prefs, k + 1);
        assert(has_at(text, 0, encoded_prefix(prefs, k + 2))) by {
            let first = encoded_prefix(prefs, k + 2);
            assert(text.subrange(0, first.len() as int) =~= whole.subrange(
                0,
                first.len() as int,
            ));
        }
        lemma_has_at_concat(text, 0, lead(prefs, k + 1), encoded_entry(prefs[k + 1 as int]));
        lemma_has_at_concat(text, 0, encoded_prefix(prefs, k + 1), ","@);
        lemma_entries_from_complete(prefs, k + 1);
    } else {
        assert(prefs.take(k + 1 as int) =~= prefs);
        lemma_has_at_char(text, next, "]"@, 0);
        if has_at(text, next, ","@) {
            lemma_has_at_char(text, next, ","@, 0);
        }
    }
}

/// Reading the stored form of a list gives the list back.
proof fn lemma_parsed_encoded(prefs: Seq<NotificationPreference>)
    ensures
        parsed(encoded(prefs)) == Some(prefs),
{
    let text = encoded(prefs);
    reveal_strlit("[");
    reveal_strlit("]");
    reveal_strlit("}");
    lemma_prefix_opens(prefs, 0, prefs.len());
    let whole = encoded_prefix(prefs, prefs.len());
    assert(text.subrange(0, text.len() as int) =~= text);
    lemma_has_at_concat(text, 0, whole, "]"@);
    assert(text.subrange(0, 1) =~= whole.subrange(0, 1));
    if prefs.len() == 0 {
        assert(prefs =~= Seq::empty());
    } else {
        lemma_prefix_opens(prefs, 1, prefs.len());
        assert(encoded_prefix(prefs, 1).len() > 1);
        lemma_entries_from_complete(prefs, 0);
        assert(prefs.take(0) =~= Seq::empty());
    }
}

/// What is read from a text is a list whose stored form the text is.
proof fn lemma_parsed_sound(text: Seq<char>)
    requires
        parsed(text) is Some,
    ensures
        text == encoded(parsed(text)->0),
{
    let open = "["@;
    if has_at(text, open.len() as int, "]"@) && text.len() == open.len() + "]"@.len() {
        assert(text =~= text.subrange(0, open.len() as int) + text.subrange(
            open.len() as int,
            open.len() + "]"@.len() as int,
        ));
        assert(encoded_prefix(Seq::<NotificationPreference>::empty(), 0) == open);
    } else {
        lemma_entries_from_sound(text, open.len() as int, Seq::empty());
    }
}

/// Reading from the left finds the list exactly when the text is a stored form.
proof fn lemma_decoded_is_parsed(text: Seq<char>)
    ensures
        decoded(text) == parsed(text),
{
    if parsed(text) is Some {
        lemma_parsed_sound(text);
        lemma_decoded_encoded(parsed(text)->0);
    } else if exists|q: Seq<NotificationPreference>| encoded(q) == text {
        let q = choose|q: Seq<NotificationPreference>| encoded(q) == text;
        lemma_parsed_encoded(q);
    }
}

/// A stored form holds ASCII characters only.
proof fn lemma_encoded_prefix_ascii(prefs: Seq<NotificationPreference>, n: nat)
    ensures
        is_ascii_chars(encoded_prefix(prefs, n)),
    decreases n,
{
    lemma_pieces_ascii();
    if n > 0 {
        let p = prefs[n - 1];
        lemma_encoded_prefix_ascii(prefs, (n - 1) as nat);
        lemma_prefix_step(prefs, (n - 1) as nat);
        assert(is_ascii_chars(channel_name(p.channel)));
        assert(is_ascii_chars(flag_text(p.enabled)));
        assert(is_ascii_chars(encoded_entry(p)));
        assert(is_ascii_chars(lead(prefs, (n - 1) as nat)));
    }
}

} // verus!
