//! A consumer payload as the remapping rules read it: the members of a
//! JSON object, each with its text when the member is a JSON string.
use vstd::prelude::*;

verus! {

/// What a member's value is, as far as the rules look: a string's text, or
/// `None` for any other JSON value (null, number, array, ...).
pub type Member = (Seq<char>, Option<Seq<char>>);

/// The member stored under `key`: the first one whose name matches.
/// `None` when absent, `Some(None)` when present but not a string.
pub open spec fn member_of(s: Seq<Member>, key: Seq<char>) -> Option<Option<Seq<char>>>
    decreases s.len(),
{
    if s.len() == 0 {
        None
    } else if s[0].0 == key {
        Some(s[0].1)
    } else {
        member_of(s.drop_first(), key)
    }
}

/// The text of the member under `key`, when there is one and it is a string.
pub open spec fn text_of(s: Seq<Member>, key: Seq<char>) -> Option<Seq<char>> {
    match member_of(s, key) {
        Some(Some(t)) => Some(t),
        _ => None,
    }
}

pub open spec fn opt_view(o: Option<String>) -> Option<Seq<char>> {
    match o {
        Some(s) => Some(s@),
        None => None,
    }
}

/// The members of the JSON object that `text` holds (none when it holds
/// another JSON value), or `None` when `text` is not JSON.
pub uninterp spec fn json_members(text: Seq<char>) -> Option<Seq<Member>>;

/// Relies on serde_json::from_str into a `serde_json::Value`: the members
/// of the object, each with its text when it is a JSON string. The result
/// depends on the text alone.
#[verifier::external_body]
fn read_members(text: &str) -> (r: Option<Vec<(String, Option<String>)>>)
    ensures
        match r {
            Some(v) => json_members(text@) == Some(
                v@.map_values(|f: (String, Option<String>)| (f.0@, opt_view(f.1))),
            ),
            None => json_members(text@) is None,
        },
{
    let members = match serde_json::from_str(text).ok()? {
        serde_json::Value::Object(m) => m,
        _ => serde_json::Map::new(),
    };
    Some(members.into_iter().map(|(k, v)| (k, match v {
        serde_json::Value::String(s) => Some(s),
        _ => None,
    })).collect())
}

/// The top-level members of a JSON object; a lookup finds the first
/// member of the name.
#[derive(Clone, Debug)]
pub struct Payload {
    pub fields: Vec<(String, Option<String>)>,
}

impl View for Payload {
    type V = Seq<Member>;

    open spec fn view(&self) -> Seq<Member> {
        self.fields@.map_values(|f: (String, Option<String>)| (f.0@, opt_view(f.1)))
    }
}

proof fn lemma_member_of_suffix(s: Seq<Member>, i: int, key: Seq<char>)
    requires
        0 <= i < s.len(),
    ensures
        member_of(s.subrange(i, s.len() as int), key) == if s[i].0 == key {
            Some(s[i].1)
        } else {
            member_of(s.subrange(i + 1, s.len() as int), key)
        },
{
    let t = s.subrange(i, s.len() as int);
    assert(t.drop_first() =~= s.subrange(i + 1, s.len() as int));
}

impl Payload {
    pub fn new() -> (r: Payload)
        ensures
            r@ == Seq::<Member>::empty(),
    {
        let r = Payload { fields: Vec::new() };
        assert(r@ =~= Seq::<Member>::empty());
        r
    }

    /// The members of the JSON object in `text`; `None` when it is not JSON.
    pub fn read(text: &str) -> (r: Option<Payload>)
        ensures
            match r {
                Some(p) => json_members(text@) == Some(p@),
                None => json_members(text@) is None,
            },
    {
        match read_members(text) {
            Some(fields) => Some(Payload { fields }),
            None => None,
        }
    }

    /// Adds a member after the others.
    pub fn push(&mut self, key: String, text: Option<String>)
        ensures
            final(self)@ == old(self)@.push((key@, opt_view(text))),
    {
        self.fields.push((key, text));
        assert(final(self)@ =~= old(self)@.push((key@, opt_view(text))));
    }

    /// Whether a member named `key` is present, whatever its value.
    pub fn contains_key(&self, key: &str) -> (r: bool)
        ensures
            r == member_of(self@, key@) is Some,
    {
        match self.find(key) {
            Some(_) => true,
            None => false,
        }
    }

    /// The text of the member named `key`, when it is a string.
    pub fn get_text(&self, key: &str) -> (r: Option<String>)
        ensures
            opt_view(r) == text_of(self@, key@),
    {
        match self.find(key) {
            Some(i) => match &self.fields[i].1 {
                Some(t) => Some(t.clone()),
                None => None,
            },
            None => None,
        }
    }

    /// The index of the first member named `key`.
    fn find(&self, key: &str) -> (r: Option<usize>)
        ensures
            r is None ==> member_of(self@, key@) is None,
            r matches Some(i) ==> i < self.fields@.len() && member_of(self@, key@) == Some(
                opt_view(self.fields@[i as int].1),
            ),
    {
        let k = String::from_str(key);
        let n = self.fields.len();
        let mut i: usize = 0;
        proof {
            assert(self@.subrange(0, self@.len() as int) =~= self@);
        }
        while i < n
            invariant
                0 <= i <= n,
                n == self.fields@.len(),
                k@ == key@,
                member_of(self@, key@) == member_of(self@.subrange(i as int, n as int), key@),
            decreases n - i,
        {
            proof {
                lemma_member_of_suffix(self@, i as int, key@);
            }
            if self.fields[i].0 == k {
                return Some(i);
            }
            i = i + 1;
        }
        proof {
            assert(self@.subrange(n as int, n as int) =~= Seq::<Member>::empty());
        }
        None
    }
}

} // verus!
