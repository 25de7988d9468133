use vstd::prelude::*;

verus! {

/// The status code of a successful reply.
pub const STATUS_OK: u16 = 200;

/// The body of a greeting request: the one text field that the route reads.
pub struct Info {
    pub username: String,
}

/// The answer to a request: an HTTP status code and a plain-text body.
pub struct Reply {
    pub status: u16,
    pub body: String,
}

/// The words that open every greeting, before the name.
pub open spec fn greeting_prefix() -> Seq<char> {
    seq!['H', 'e', 'l', 'l', 'o', ' ']
}

/// The greeting for `name`: the prefix followed by the name exactly as given,
/// with no trimming, case change or escaping.
pub open spec fn greeting_text(name: Seq<char>) -> Seq<char> {
    greeting_prefix() + name
}

/// Builds the greeting text for one name.
pub fn greeting(username: &str) -> (r: String)
    ensures
        r@ == greeting_text(username@),
{
    let mut text = String::from_str("Hello ");
    proof {
        reveal_strlit("Hello ");
    }
    assert(text@ =~= greeting_prefix());
    text.append(username);
    text
}

/// Answers a greeting request: status OK, and a body that reads "Hello "
/// followed by the username exactly as it was sent.
pub fn index(info: &Info) -> (r: Reply)
    ensures
        r.status == STATUS_OK,
        r.body@ == greeting_text(info.username@),
{
    Reply { status: STATUS_OK, body: greeting(info.username.as_str()) }
}

/// Shows that the name can be read back from a greeting: the body is six
/// characters longer than the name, and what follows "Hello " is the name itself.
pub proof fn lemma_greeting_keeps_name(name: Seq<char>)
    ensures
        greeting_text(name).len() == name.len() + 6,
        greeting_text(name).subrange(0, 6) == greeting_prefix(),
        greeting_text(name).subrange(6, greeting_text(name).len() as int) == name,
{
    assert(greeting_text(name).subrange(0, 6) =~= greeting_prefix());
    assert(greeting_text(name).subrange(6, greeting_text(name).len() as int) =~= name);
}

} // verus!
