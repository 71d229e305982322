//! Mapping a message to its reply: a fixed table of keywords, matched without
//! regard to case, and an echo for everything else.
use vstd::prelude::*;
use vstd::string::*;

verus! {

/// What `str::to_lowercase` makes of a text.
pub uninterp spec fn lower_of(s: Seq<char>) -> Seq<char>;

/// Relies on `str::to_lowercase`: the lower-case form of a text, which
/// depends on its characters alone.
#[verifier::external_body]
fn lowercase(s: &str) -> (r: String)
    ensures
        r@ == lower_of(s@),
{
    s.to_lowercase()
}

/// The reply to `message`, whose lower-case form is `lowered`. Keywords are
/// checked in the order ping, pong, hello, help; anything else is echoed with
/// its case kept.
pub open spec fn reply_of_lowered(lowered: Seq<char>, message: Seq<char>) -> Seq<char> {
    if lowered == "ping"@ {
        "pong"@
    } else if lowered == "pong"@ {
        "ping"@
    } else if lowered == "hello"@ {
        "Hello there!"@
    } else if lowered == "help"@ {
        "Commands: ping, pong, hello, help"@
    } else {
        "Echo: "@ + message
    }
}

/// The reply to `message`.
pub open spec fn reply_of(message: Seq<char>) -> Seq<char> {
    reply_of_lowered(lower_of(message), message)
}

fn is_word(s: &String, w: &str) -> (r: bool)
    ensures
        r == (s@ == w@),
{
    let t = String::from_str(w);
    *s == t
}

/// The reply to `message` given its lower-case form `lowered`.
pub fn reply_for(lowered: &str, message: &str) -> (r: String)
    ensures
        r@ == reply_of_lowered(lowered@, message@),
{
    let l = String::from_str(lowered);
    if is_word(&l, "ping") {
        String::from_str("pong")
    } else if is_word(&l, "pong") {
        String::from_str("ping")
    } else if is_word(&l, "hello") {
        String::from_str("Hello there!")
    } else if is_word(&l, "help") {
        String::from_str("Commands: ping, pong, hello, help")
    } else {
        String::from_str("Echo: ").concat(message)
    }
}

/// The reply to a trimmed message.
pub fn respond(message: &str) -> (r: String)
    ensures
        r@ == reply_of(message@),
{
    let lowered = lowercase(message);
    reply_for(lowered.as_str(), message)
}

/// Each keyword, in any case, gets its fixed reply; any other message is
/// echoed after `Echo: ` with its case kept.
pub proof fn lemma_reply_table(m: Seq<char>)
    ensures
        lower_of(m) == "ping"@ ==> reply_of(m) == "pong"@,
        lower_of(m) == "pong"@ ==> reply_of(m) == "ping"@,
        lower_of(m) == "hello"@ ==> reply_of(m) == "Hello there!"@,
        lower_of(m) == "help"@ ==> reply_of(m) == "Commands: ping, pong, hello, help"@,
        lower_of(m) != "ping"@ && lower_of(m) != "pong"@ && lower_of(m) != "hello"@
            && lower_of(m) != "help"@ ==> reply_of(m) == "Echo: "@ + m,
{
    reveal_strlit("ping");
    reveal_strlit("pong");
    reveal_strlit("hello");
    reveal_strlit("help");
    assert("hello"@[0] != "ping"@[0] && "hello"@[0] != "pong"@[0]);
    assert("help"@[0] != "ping"@[0] && "help"@[0] != "pong"@[0]);
    assert("help"@.len() != "hello"@.len());
}

} // verus!
