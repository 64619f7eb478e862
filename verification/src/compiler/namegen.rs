//! The names that the backend is given for what the instructions yield.

use vstd::prelude::*;
use small_uid::SmallUid;
use super::ir::Name;

verus! {

/// The number of characters of a unique identifier.
pub open spec fn uid_len() -> nat {
    11
}

/// Whether `c` is of the alphabet of URL-safe base 64.
pub open spec fn is_uid_char(c: char) -> bool {
    ('A' <= c && c <= 'Z') || ('a' <= c && c <= 'z') || ('0' <= c && c <= '9') || c == '-' || c == '_'
}

/// The text of the identifier that `SmallUid::from_parts` of the crate
/// `small_uid` makes of a timestamp and a random number.
pub uninterp spec fn uid_text(timestamp: u64, random: u64) -> Seq<char>;

/// The identifier made of the timestamp `timestamp` and the random number
/// `random`: `SmallUid::from_parts` of the crate `small_uid`, printed.
/// The identifier is a 64-bit number put together of the two by shifts,
/// and it is printed as the unpadded URL-safe base 64 of its 8 bytes,
/// which is 11 characters.
#[verifier::external_body]
fn uid_from_parts(timestamp: u64, random: u64) -> (uid: String)
    ensures
        uid@ == uid_text(timestamp, random),
        uid@.len() == uid_len(),
        forall|i: int| 0 <= i < uid@.len() ==> is_uid_char(#[trigger] uid@[i]),
{
    SmallUid::from_parts(timestamp, random).to_string()
}

/// `pre`, an underscore and `uid`.
pub open spec fn prefixed(pre: Seq<char>, uid: Seq<char>) -> Seq<char> {
    pre + seq!['_'] + uid
}

/// `uid`, an underscore and `post`.
pub open spec fn suffixed(uid: Seq<char>, post: Seq<char>) -> Seq<char> {
    uid + seq!['_'] + post
}

/// `pre`, an underscore, `uid`, an underscore and `post`.
pub open spec fn wrapped(pre: Seq<char>, uid: Seq<char>, post: Seq<char>) -> Seq<char> {
    pre + seq!['_'] + uid + seq!['_'] + post
}

/// The name made of `pre`, an underscore and `uid`.
pub fn id_pre(pre: &String, uid: &String) -> (id: String)
    ensures
        id@ == prefixed(pre@, uid@),
{
    proof {
        reveal_strlit("_");
    }
    let mut id = String::new();
    id.append(pre.as_str());
    id.append("_");
    id.append(uid.as_str());
    assert("_"@ =~= seq!['_']);
    assert(id@ =~= prefixed(pre@, uid@));
    id
}

/// The name made of `uid`, an underscore and `post`.
pub fn id_post(uid: &String, post: &String) -> (id: String)
    ensures
        id@ == suffixed(uid@, post@),
{
    proof {
        reveal_strlit("_");
    }
    let mut id = String::new();
    id.append(uid.as_str());
    id.append("_");
    id.append(post.as_str());
    assert("_"@ =~= seq!['_']);
    assert(id@ =~= suffixed(uid@, post@));
    id
}

/// The name made of `pre`, an underscore, `uid`, an underscore and `post`.
pub fn id_prepost(pre: &String, uid: &String, post: &String) -> (id: String)
    ensures
        id@ == wrapped(pre@, uid@, post@),
{
    proof {
        reveal_strlit("_");
    }
    let mut id = String::new();
    id.append(pre.as_str());
    id.append("_");
    id.append(uid.as_str());
    id.append("_");
    id.append(post.as_str());
    assert("_"@ =~= seq!['_']);
    assert(id@ =~= wrapped(pre@, uid@, post@));
    id
}

/// A name: the identifier made of `timestamp` and `random`. The name is
/// fresh where the caller reads the two from the clock and from a source
/// of random numbers.
pub fn gen_id(timestamp: u64, random: u64) -> (id: String)
    ensures
        id@ == uid_text(timestamp, random),
        id@.len() == uid_len(),
        forall|i: int| 0 <= i < id@.len() ==> is_uid_char(#[trigger] id@[i]),
{
    uid_from_parts(timestamp, random)
}

/// A name that starts with `pre` and an underscore, behind which the
/// identifier made of `timestamp` and `random` stands.
pub fn gen_id_pre(pre: String, timestamp: u64, random: u64) -> (id: String)
    ensures
        id@ == prefixed(pre@, uid_text(timestamp, random)),
{
    let uid = uid_from_parts(timestamp, random);
    id_pre(&pre, &uid)
}

/// A name that ends with an underscore and `post`, before which the
/// identifier made of `timestamp` and `random` stands.
pub fn gen_id_post(post: String, timestamp: u64, random: u64) -> (id: String)
    ensures
        id@ == suffixed(uid_text(timestamp, random), post@),
{
    let uid = uid_from_parts(timestamp, random);
    id_post(&uid, &post)
}

/// A name that starts with `pre` and an underscore and ends with an
/// underscore and `post`, between which the identifier made of
/// `timestamp` and `random` stands.
pub fn gen_id_prepost(pre: String, post: String, timestamp: u64, random: u64) -> (id: String)
    ensures
        id@ == wrapped(pre@, uid_text(timestamp, random), post@),
{
    let uid = uid_from_parts(timestamp, random);
    id_prepost(&pre, &uid, &post)
}

/// The text that `name` is carried out as, with the texts `texts` and the
/// identifier `uid`; none for the name that the backend knows a value by,
/// which is not known here, and for a name that refers to a text that is
/// not there.
pub open spec fn spec_realize(name: Name, texts: Seq<Seq<char>>, uid: Seq<char>) -> Option<Seq<char>> {
    match name {
        Name::Empty => Some(Seq::empty()),
        Name::Fresh => Some(uid),
        Name::Prefixed(pre) => if pre < texts.len() {
            Some(prefixed(texts[pre as int], uid))
        } else {
            None
        },
        Name::Wrapped(pre, post) => if pre < texts.len() && post < texts.len() {
            Some(wrapped(texts[pre as int], uid, texts[post as int]))
        } else {
            None
        },
        Name::Exact(id) => if id < texts.len() {
            Some(texts[id as int])
        } else {
            None
        },
        Name::OfValue(_) => None,
    }
}

/// Carries a name out: gives the text of the name, with the identifier
/// made of `timestamp` and `random` where the name holds one.
pub fn realize(name: Name, texts: &Vec<String>, timestamp: u64, random: u64) -> (r: Option<String>)
    ensures
        match spec_realize(name, super::texts_view(texts@), uid_text(timestamp, random)) {
            Some(text) => r is Some && r->0@ == text,
            None => r is None,
        },
{
    match name {
        Name::Empty => Some(String::new()),
        Name::Fresh => Some(gen_id(timestamp, random)),
        Name::Prefixed(pre) => {
            if pre < texts.len() {
                Some(gen_id_pre(texts[pre].clone(), timestamp, random))
            } else {
                None
            }
        },
        Name::Wrapped(pre, post) => {
            if pre < texts.len() && post < texts.len() {
                Some(gen_id_prepost(texts[pre].clone(), texts[post].clone(), timestamp, random))
            } else {
                None
            }
        },
        Name::Exact(id) => {
            if id < texts.len() {
                Some(texts[id].clone())
            } else {
                None
            }
        },
        Name::OfValue(_) => None,
    }
}

} // verus!
