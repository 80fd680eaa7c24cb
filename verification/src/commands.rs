//! Reply assembly for the two commands. `ask` echoes a sanitized copy of the
//! question beside the drawn attachment, whose advertised name is rebuilt
//! from the picked path's extension; `invite` renders the authorization URL.
//! Sending, and the drawing and opening of the attachment, stay with the
//! caller.

use vstd::prelude::*;

use crate::text::push_char;
use crate::text::spec_u64_string;
use crate::text::u64_to_string;

verus! {

/// The characters stripped from an echoed question: a backtick would break
/// the code span the echo is quoted in, and an at-sign could be resolved by
/// the chat platform into an arbitrary mention.
pub open spec fn is_banned_char(c: char) -> bool {
    c == '`' || c == '@'
}

/// The question with every banned character removed, order kept.
pub open spec fn spec_strip(s: Seq<char>) -> Seq<char>
    decreases s.len(),
{
    if s.len() == 0 {
        Seq::empty()
    } else {
        spec_strip(s.drop_last()) + (if is_banned_char(s.last()) {
            Seq::<char>::empty()
        } else {
            seq![s.last()]
        })
    }
}

/// The sanitized echo of a question: banned characters removed, and a
/// trailing question mark added unless one is already there.
pub open spec fn spec_sanitize(s: Seq<char>) -> Seq<char> {
    let t = spec_strip(s);
    if t.len() > 0 && t.last() == '?' {
        t
    } else {
        t.push('?')
    }
}

proof fn lemma_strip_free_of_banned(s: Seq<char>)
    ensures
        forall|i: int| 0 <= i < spec_strip(s).len() ==> !is_banned_char(#[trigger] spec_strip(s)[i]),
    decreases s.len(),
{
    if s.len() > 0 {
        lemma_strip_free_of_banned(s.drop_last());
        let t = spec_strip(s.drop_last());
        assert forall|i: int| 0 <= i < spec_strip(s).len() implies !is_banned_char(
            spec_strip(s)[i],
        ) by {
            if i < t.len() {
                assert(spec_strip(s)[i] == t[i]);
            } else {
                assert(!is_banned_char(s.last()));
                assert(spec_strip(s)[i] == seq![s.last()][i - t.len()]);
            }
        }
    }
}

/// Sanitization closure: whatever the question, its sanitized echo holds no
/// banned character and ends with a question mark.
pub proof fn lemma_sanitize_closure(q: Seq<char>)
    ensures
        forall|i: int|
            0 <= i < spec_sanitize(q).len() ==> !is_banned_char(#[trigger] spec_sanitize(q)[i]),
        spec_sanitize(q).len() > 0,
        spec_sanitize(q).last() == '?',
{
    lemma_strip_free_of_banned(q);
}

/// Strips banned characters and appends the trailing question mark, exactly
/// as `spec_sanitize` describes.
pub fn sanitize_question(q: &str) -> (r: String)
    ensures
        r@ == spec_sanitize(q@),
{
    let len = q.unicode_len();
    let mut kept = String::new();
    let mut i: usize = 0;
    while i < len
        invariant
            i <= len,
            len == q@.len(),
            kept@ == spec_strip(q@.subrange(0, i as int)),
        decreases len - i,
    {
        let c = q.get_char(i);
        proof {
            assert(q@.subrange(0, i + 1).drop_last() =~= q@.subrange(0, i as int));
        }
        if !(c == '`' || c == '@') {
            push_char(&mut kept, c);
        }
        proof {
            assert(kept@ =~= spec_strip(q@.subrange(0, i + 1)));
        }
        i = i + 1;
    }
    proof {
        assert(q@.subrange(0, len as int) =~= q@);
    }
    let klen = kept.as_str().unicode_len();
    if klen == 0 {
        push_char(&mut kept, '?');
    } else {
        let last = kept.as_str().get_char(klen - 1);
        if last != '?' {
            push_char(&mut kept, '?');
        }
    }
    kept
}

/// The final component of a path: everything after the last slash.
pub open spec fn spec_file_name(p: Seq<char>) -> Seq<char>
    decreases p.len(),
{
    if p.len() == 0 {
        Seq::empty()
    } else if p.last() == '/' {
        Seq::empty()
    } else {
        spec_file_name(p.drop_last()).push(p.last())
    }
}

/// The index of the last dot in a file name, or -1 when there is none.
pub open spec fn spec_last_dot(f: Seq<char>) -> int
    decreases f.len(),
{
    if f.len() == 0 {
        -1
    } else if f.last() == '.' {
        f.len() - 1
    } else {
        spec_last_dot(f.drop_last())
    }
}

/// The extension of a path's file name: what follows the last dot, provided
/// that dot is neither absent nor the name's leading character.
pub open spec fn spec_extension(p: Seq<char>) -> Option<Seq<char>> {
    let f = spec_file_name(p);
    let d = spec_last_dot(f);
    if d <= 0 {
        None
    } else {
        Some(f.subrange(d + 1, f.len() as int))
    }
}

/// The name the attachment is advertised under: `judgement.` followed by the
/// picked path's extension, or by `mp4` when it has none.
pub open spec fn spec_judgement_filename(p: Seq<char>) -> Seq<char> {
    "judgement."@ + (match spec_extension(p) {
        Some(e) => e,
        None => "mp4"@,
    })
}

/// Derives the advertised attachment name from the picked path, exactly as
/// `spec_judgement_filename` describes.
pub fn judgement_filename(path: &str) -> (r: String)
    ensures
        r@ == spec_judgement_filename(path@),
{
    let len = path.unicode_len();
    let mut name = String::new();
    let mut i: usize = 0;
    while i < len
        invariant
            i <= len,
            len == path@.len(),
            name@ == spec_file_name(path@.subrange(0, i as int)),
        decreases len - i,
    {
        let c = path.get_char(i);
        proof {
            assert(path@.subrange(0, i + 1).drop_last() =~= path@.subrange(0, i as int));
        }
        if c == '/' {
            name = String::new();
        } else {
            push_char(&mut name, c);
        }
        proof {
            assert(name@ =~= spec_file_name(path@.subrange(0, i + 1)));
        }
        i = i + 1;
    }
    proof {
        assert(path@.subrange(0, len as int) =~= path@);
    }
    let ghost f = name@;
    let nlen = name.as_str().unicode_len();
    let mut last_dot: Option<usize> = None;
    let mut j: usize = 0;
    while j < nlen
        invariant
            j <= nlen,
            nlen == f.len(),
            name@ == f,
            last_dot is None ==> spec_last_dot(f.subrange(0, j as int)) == -1,
            last_dot matches Some(d) ==> d < j && spec_last_dot(f.subrange(0, j as int)) == d,
        decreases nlen - j,
    {
        let c = name.as_str().get_char(j);
        proof {
            assert(f.subrange(0, j + 1).drop_last() =~= f.subrange(0, j as int));
        }
        if c == '.' {
            last_dot = Some(j);
        }
        j = j + 1;
    }
    proof {
        assert(f.subrange(0, nlen as int) =~= f);
    }
    let mut r = String::from_str("judgement.");
    match last_dot {
        Some(d) => {
            if d > 0 {
                let ext = name.as_str().substring_char(d + 1, nlen);
                r.append(ext);
            } else {
                r.append("mp4");
            }
        },
        None => {
            r.append("mp4");
        },
    }
    proof {
        assert(r@ =~= spec_judgement_filename(path@));
    }
    r
}

/// The reply text: a fixed verdict line when no question was asked, and the
/// verdict line quoting the sanitized question otherwise.
pub fn ask_content(question: &Option<String>) -> (r: String)
    ensures
        question is None ==> r@ == "The Adachi cube has spoken."@,
        question matches Some(q) ==> r@ == "The Adachi cube has spoken: `"@ + spec_sanitize(q@)
            + "`"@,
{
    match question {
        None => String::from_str("The Adachi cube has spoken."),
        Some(q) => {
            let s = sanitize_question(q.as_str());
            let mut r = String::from_str("The Adachi cube has spoken: `");
            r.append(s.as_str());
            r.append("`");
            proof {
                assert(r@ =~= "The Adachi cube has spoken: `"@ + spec_sanitize(q@) + "`"@);
            }
            r
        },
    }
}

/// What the `ask` command hands back to the platform: the advertised
/// attachment name and the reply text.
pub struct AskReply {
    pub filename: String,
    pub content: String,
}

/// Assembles the `ask` reply from the question and the picked path.
pub fn ask_reply(question: &Option<String>, picked_path: &str) -> (r: AskReply)
    ensures
        r.filename@ == spec_judgement_filename(picked_path@),
        question is None ==> r.content@ == "The Adachi cube has spoken."@,
        question matches Some(q) ==> r.content@ == "The Adachi cube has spoken: `"@
            + spec_sanitize(q@) + "`"@,
{
    AskReply { filename: judgement_filename(picked_path), content: ask_content(question) }
}

/// A failure while talking to the chat platform or the telemetry backend,
/// carried as the transport's own rendering of it.
pub struct TransportError {
    pub message: String,
}

/// The command's outcome once the reply has been attempted: the reply result
/// itself. The telemetry result that follows a sent reply is observability
/// only and never reaches the user.
pub open spec fn spec_ask_outcome(
    reply: Result<(), TransportError>,
    telemetry: Option<Result<(), TransportError>>,
) -> Result<(), TransportError> {
    reply
}

/// Fixes the `ask` command's user-visible outcome: the reply result, with
/// the telemetry result (absent when no write was attempted) discarded.
pub fn ask_outcome(
    reply: Result<(), TransportError>,
    telemetry: Option<Result<(), TransportError>>,
) -> (r: Result<(), TransportError>)
    ensures
        r == spec_ask_outcome(reply, telemetry),
        r == reply,
{
    reply
}

/// Reply independence: the command's outcome is the same whatever the
/// telemetry write after the reply did, so a failing write after a sent
/// reply cannot turn the command into a failure for the user.
pub proof fn lemma_reply_independence(
    reply: Result<(), TransportError>,
    t1: Option<Result<(), TransportError>>,
    t2: Option<Result<(), TransportError>>,
)
    ensures
        spec_ask_outcome(reply, t1) == spec_ask_outcome(reply, t2),
{
}

/// The OAuth2 authorization URL for this bot.
pub open spec fn spec_invite_url(bot_id: nat) -> Seq<char> {
    "https://discord.com/api/oauth2/authorize?client_id="@ + spec_u64_string(bot_id)
        + "&permissions=2048&scope=bot"@
}

/// Renders the authorization URL for this bot.
pub fn invite_url(bot_id: u64) -> (r: String)
    ensures
        r@ == spec_invite_url(bot_id as nat),
{
    let mut r = String::from_str("https://discord.com/api/oauth2/authorize?client_id=");
    let id = u64_to_string(bot_id);
    r.append(id.as_str());
    r.append("&permissions=2048&scope=bot");
    proof {
        assert(r@ =~= spec_invite_url(bot_id as nat));
    }
    r
}

/// The full `invite` reply: the authorization URL and the fixed support
/// server link.
pub fn invite_message(bot_id: u64) -> (r: String)
    ensures
        r@ == "Invite Adachi Cube to your server: "@ + spec_invite_url(bot_id as nat)
            + "\nJoin the support server: https://discord.gg/K2MDHBZr9j"@,
{
    let mut r = String::from_str("Invite Adachi Cube to your server: ");
    let url = invite_url(bot_id);
    r.append(url.as_str());
    r.append("\nJoin the support server: https://discord.gg/K2MDHBZr9j");
    proof {
        assert(r@ =~= "Invite Adachi Cube to your server: "@ + spec_invite_url(bot_id as nat)
            + "\nJoin the support server: https://discord.gg/K2MDHBZr9j"@);
    }
    r
}

} // verus!
