//! Entity tags (cache validators) and the weak comparison used by
//! `If-None-Match` revalidation.
use vstd::prelude::*;

use rocket_etag_if_none_match::entity_tag::EntityTag;

verus! {

/// A character that may stand inside the double quotes of an entity tag:
/// `!`, `#` to `~`, or any non-ASCII character.
pub open spec fn is_opaque_char(c: char) -> bool {
    c == '!' || (0x23 <= c as u32 && c as u32 <= 0x7e) || c as u32 >= 0x80
}

/// Every character of `s` may stand inside an entity tag's quotes.
pub open spec fn is_opaque_tag(s: Seq<char>) -> bool {
    forall|i: int| 0 <= i < s.len() ==> is_opaque_char(#[trigger] s[i])
}

/// The opaque tag that `s` denotes when given with or without its
/// surrounding double quotes, or `None` when `s` is not a valid tag.
pub open spec fn opaque_tag_of(s: Seq<char>) -> Option<Seq<char>> {
    if s.len() > 0 && s[0] == '"' {
        if s.len() >= 2 && s.last() == '"' && is_opaque_tag(s.subrange(1, s.len() - 1)) {
            Some(s.subrange(1, s.len() - 1))
        } else {
            None
        }
    } else if is_opaque_tag(s) {
        Some(s)
    } else {
        None
    }
}

/// The serialized form of an entity tag: the quoted tag, preceded by `W/`
/// when the tag is weak.
pub open spec fn etag_text(weak: bool, tag: Seq<char>) -> Seq<char> {
    let quoted = seq!['"'] + tag + seq!['"'];
    if weak {
        seq!['W', '/'] + quoted
    } else {
        quoted
    }
}

/// A cache validator: a strength flag and an opaque tag, which never holds a
/// double quote or a control character.
pub struct CacheValidator {
    weak: bool,
    tag: String,
}

impl View for CacheValidator {
    type V = (bool, Seq<char>);

    closed spec fn view(&self) -> (bool, Seq<char>) {
        (self.weak, self.tag@)
    }
}

impl CacheValidator {
    #[verifier::type_invariant]
    spec fn inv(&self) -> bool {
        is_opaque_tag(self.tag@)
    }

    /// Build a validator from a tag given with or without its double quotes;
    /// `None` when the tag holds a character that an entity tag cannot hold.
    pub fn with_string(weak: bool, tag: String) -> (r: Option<CacheValidator>)
        ensures
            r.is_some() <==> opaque_tag_of(tag@).is_some(),
            r.is_some() ==> r.unwrap()@ == (weak, opaque_tag_of(tag@).unwrap()),
    {
        match entity_tag_with_string(weak, tag) {
            Some((w, t)) => Some(CacheValidator { weak: w, tag: t }),
            None => None,
        }
    }

    /// The header value that carries this validator, such as `W/"abc"`.
    pub fn to_header_value(&self) -> (r: String)
        ensures
            r@ == etag_text(self@.0, self@.1),
    {
        entity_tag_text(self.weak, self.get_tag())
    }

    /// Weak comparison: the opaque tags are equal, whatever either strength.
    pub fn weak_eq(&self, other: &CacheValidator) -> (r: bool)
        ensures
            r == (self@.1 == other@.1),
    {
        self.tag == other.tag
    }

    /// Whether the validator is weak.
    pub fn is_weak(&self) -> (r: bool)
        ensures
            r == self@.0,
    {
        self.weak
    }

    /// The opaque tag, without its double quotes.
    pub fn get_tag(&self) -> (r: &str)
        ensures
            r@ == self@.1,
            is_opaque_tag(r@),
    {
        proof {
            use_type_invariant(self);
        }
        self.tag.as_str()
    }
}

/// The validators that a request presents in `If-None-Match`: `any` stands
/// for the wildcard `*`; no tags and no wildcard means the header is absent.
pub struct ClientValidator {
    pub any: bool,
    pub etags: Vec<CacheValidator>,
}

impl ClientValidator {
    /// No `If-None-Match` header.
    pub fn absent() -> (r: ClientValidator)
        ensures
            is_absent(r),
    {
        ClientValidator { any: false, etags: Vec::new() }
    }

    /// The wildcard `*`.
    pub fn wildcard() -> (r: ClientValidator)
        ensures
            r.any,
            r.etags@.len() == 0,
    {
        ClientValidator { any: true, etags: Vec::new() }
    }

    /// A header that lists the given validators.
    pub fn with_etags(etags: Vec<CacheValidator>) -> (r: ClientValidator)
        ensures
            !r.any,
            r.etags@ == etags@,
    {
        ClientValidator { any: false, etags }
    }

    /// Whether the client's cached copy is the one that `server` names: the
    /// wildcard matches anything, otherwise one of the listed tags must be
    /// weakly equal to `server`.
    pub fn weak_eq(&self, server: &CacheValidator) -> (r: bool)
        ensures
            r == client_weak_eq(*self, *server),
    {
        if self.any {
            return true;
        }
        let mut i: usize = 0;
        while i < self.etags.len()
            invariant
                !self.any,
                i <= self.etags@.len(),
                forall|j: int| 0 <= j < i ==> (#[trigger] self.etags@[j])@.1 != server@.1,
            decreases self.etags@.len() - i,
        {
            if self.etags[i].weak_eq(server) {
                return true;
            }
            i = i + 1;
        }
        false
    }
}

/// The request carries no validator at all.
pub open spec fn is_absent(c: ClientValidator) -> bool {
    !c.any && c.etags@.len() == 0
}

/// `client` names `server`: it is the wildcard, or one of its tags has the
/// same opaque value.
pub open spec fn client_weak_eq(client: ClientValidator, server: CacheValidator) -> bool {
    client.any || exists|i: int| 0 <= i < client.etags@.len() && (#[trigger] client.etags@[i])@.1 == server@.1
}

/// Whether a request can be answered with "not modified": both a client and
/// a server validator are there, and they are weakly equal.
pub open spec fn etag_matches(client: Option<ClientValidator>, server: Option<CacheValidator>) -> bool {
    match (client, server) {
        (Some(c), Some(s)) => client_weak_eq(c, s),
        _ => false,
    }
}

/// The value that an optional reference points to.
pub open spec fn deref_option<T>(o: Option<&T>) -> Option<T> {
    match o {
        Some(v) => Some(*v),
        None => None,
    }
}

/// Decide whether the client's validator matches the server's.
pub fn is_etag_match(client: Option<&ClientValidator>, server: Option<&CacheValidator>) -> (r: bool)
    ensures
        r == etag_matches(deref_option(client), deref_option(server)),
{
    match (client, server) {
        (Some(c), Some(s)) => c.weak_eq(s),
        _ => false,
    }
}

/// A client that presents a validator with the same opaque value as the
/// server's validator matches it, whichever of the two is weak.
pub proof fn lemma_equal_tags_match(client: ClientValidator, server: CacheValidator, i: int)
    requires
        0 <= i < client.etags@.len(),
        client.etags@[i]@.1 == server@.1,
    ensures
        etag_matches(Some(client), Some(server)),
{
    assert(client_weak_eq(client, server));
}

/// Without a server validator nothing matches, whatever the client sent.
pub proof fn lemma_no_server_validator_never_matches(client: Option<ClientValidator>)
    ensures
        !etag_matches(client, None),
{
}

/// Without a client validator nothing matches, whatever the server's
/// validator is.
pub proof fn lemma_absent_client_never_matches(
    client: ClientValidator,
    server: Option<CacheValidator>,
)
    requires
        is_absent(client),
    ensures
        !etag_matches(Some(client), server),
        !etag_matches(None, server),
{
}

/// Relies on `EntityTag`'s `Display`: `W/` for a weak tag, then the tag in
/// double quotes.
#[verifier::external_body]
fn entity_tag_text(weak: bool, tag: &str) -> (r: String)
    requires
        is_opaque_tag(tag@),
    ensures
        r@ == etag_text(weak, tag@),
{
    match EntityTag::with_str(weak, tag) {
        Ok(e) => e.to_string(),
        Err(_) => String::new(),
    }
}

/// Relies on `EntityTag::with_string`: it accepts a tag with or without
/// surrounding double quotes whose other characters are all `!`, `#`..`~` or
/// non-ASCII, keeps the weakness flag and stores the tag without quotes.
#[verifier::external_body]
fn entity_tag_with_string(weak: bool, tag: String) -> (r: Option<(bool, String)>)
    ensures
        r.is_some() <==> opaque_tag_of(tag@).is_some(),
        r.is_some() ==> r.unwrap().0 == weak && r.unwrap().1@ == opaque_tag_of(tag@).unwrap(),
{
    match EntityTag::with_string(weak, tag) {
        Ok(e) => Some((e.weak, e.into_tag().into_owned())),
        Err(_) => None,
    }
}

} // verus!
