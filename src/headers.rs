//! The write-only carrier that propagation uses to place headers on an
//! outgoing request.
use actix_http::http::{HeaderName, HeaderValue};
use std::str::FromStr;
use vstd::prelude::*;

verus! {

/// What `HeaderName::from_str` makes of a key: the header name it accepts
/// (in lower case), or nothing when the key is not a valid header name.
pub uninterp spec fn header_name_of(key: Seq<char>) -> Option<Seq<char>>;

/// A header value is accepted when every character is a tab or a visible
/// character (code 32 or above, other than DEL).
pub open spec fn is_header_value_text(v: Seq<char>) -> bool {
    forall|i: int|
        0 <= i < v.len() ==> (#[trigger] v[i] == '\t' || (32 <= (v[i] as u32) && (v[i] as u32) != 127))
}

/// Relies on `HeaderName::from_str` of the http crate (re-exported by
/// actix-http), and on `HeaderName::as_str` for the accepted name.
#[verifier::external_body]
fn parse_header_name(key: &str) -> (r: Option<String>)
    ensures
        match r {
            Some(n) => header_name_of(key@) == Some(n@),
            None => header_name_of(key@) is None,
        },
{
    match HeaderName::from_str(key) {
        Ok(n) => Some(n.as_str().to_string()),
        Err(_) => None,
    }
}

/// Relies on `HeaderValue::from_str` of the http crate (re-exported by
/// actix-http): it fails exactly when some byte is below 32 and not a tab,
/// or is 127. Bytes of non-ASCII characters are all 128 or above.
#[verifier::external_body]
fn header_value_accepted(value: &str) -> (r: bool)
    ensures
        r == is_header_value_text(value@),
{
    HeaderValue::from_str(value).is_ok()
}

/// Why the carrier refused a header.
#[derive(Debug, Clone, Copy, PartialEq, Eq, Structural)]
pub enum HeaderError {
    InvalidName,
    InvalidValue,
}

/// No two entries share a name.
pub open spec fn names_unique(h: Seq<(Seq<char>, Seq<char>)>) -> bool {
    forall|i: int, j: int| 0 <= i < h.len() && 0 <= j < h.len() && i != j ==> h[i].0 != h[j].0
}

/// The list after writing `value` under `name`: an entry of that name is
/// overwritten in place, otherwise a new entry goes to the end.
pub open spec fn header_written(
    h: Seq<(Seq<char>, Seq<char>)>,
    name: Seq<char>,
    value: Seq<char>,
) -> Seq<(Seq<char>, Seq<char>)> {
    if exists|i: int| 0 <= i < h.len() && h[i].0 == name {
        let i = choose|i: int| 0 <= i < h.len() && h[i].0 == name;
        h.update(i, (name, value))
    } else {
        h.push((name, value))
    }
}

/// Headers written to a request, one value per name.
#[derive(Debug)]
pub struct HeaderList {
    entries: Vec<(String, String)>,
}

impl View for HeaderList {
    type V = Seq<(Seq<char>, Seq<char>)>;

    closed spec fn view(&self) -> Seq<(Seq<char>, Seq<char>)> {
        self.entries@.map_values(|e: (String, String)| (e.0@, e.1@))
    }
}

impl HeaderList {
    pub open spec fn wf(&self) -> bool {
        names_unique(self@)
    }

    pub fn new() -> (r: HeaderList)
        ensures
            r@ == Seq::<(Seq<char>, Seq<char>)>::empty(),
            r.wf(),
    {
        HeaderList { entries: Vec::new() }
    }

    pub fn len(&self) -> (r: usize)
        ensures
            r == self@.len(),
    {
        self.entries.len()
    }

    /// The name and value of the entry at `i`.
    pub fn entry(&self, i: usize) -> (r: (&String, &String))
        requires
            i < self@.len(),
        ensures
            r.0@ == self@[i as int].0,
            r.1@ == self@[i as int].1,
    {
        let e = &self.entries[i];
        (&e.0, &e.1)
    }

    /// The value stored under exactly `name`, if any.
    pub fn value_of(&self, name: &str) -> (r: Option<String>)
        requires
            self.wf(),
        ensures
            match r {
                Some(v) => exists|i: int| 0 <= i < self@.len() && self@[i] == (name@, v@),
                None => forall|i: int| 0 <= i < self@.len() ==> self@[i].0 != name@,
            },
    {
        let target = name.to_owned();
        let mut i: usize = 0;
        while i < self.entries.len()
            invariant
                i <= self.entries@.len(),
                target@ == name@,
                forall|k: int| 0 <= k < i ==> self@[k].0 != name@,
            decreases self.entries@.len() - i,
        {
            if self.entries[i].0 == target {
                let v = self.entries[i].1.clone();
                assert(self@[i as int] == (name@, v@));
                return Some(v);
            }
            i = i + 1;
        }
        None
    }

    /// Writes `value` under the already accepted header name `name`.
    fn insert(&mut self, name: String, value: String)
        requires
            old(self).wf(),
        ensures
            final(self).wf(),
            final(self)@ == header_written(old(self)@, name@, value@),
    {
        let mut i: usize = 0;
        while i < self.entries.len()
            invariant
                i <= self.entries@.len(),
                self@ == old(self)@,
                self.wf(),
                forall|k: int| 0 <= k < i ==> self@[k].0 != name@,
            decreases self.entries@.len() - i,
        {
            if self.entries[i].0 == name {
                let ghost h = self@;
                assert(h[i as int].0 == name@);
                assert forall|k: int| 0 <= k < h.len() && h[k].0 == name@ implies k == i by {}
                self.entries.set(i, (name, value));
                assert(self@ =~= h.update(i as int, (name@, value@)));
                return;
            }
            i = i + 1;
        }
        self.entries.push((name, value));
        assert(self@ =~= old(self)@.push((name@, value@)));
    }

    /// Writes a header as the propagation codec hands it over. A key that is
    /// not a header name, or a value that is not header text, is refused and
    /// leaves the list as it was; the name is checked first.
    pub fn set(&mut self, key: &str, value: &str) -> (r: Result<(), HeaderError>)
        requires
            old(self).wf(),
        ensures
            final(self).wf(),
            header_name_of(key@) is None ==> r == Err::<(), HeaderError>(HeaderError::InvalidName),
            header_name_of(key@) is Some && !is_header_value_text(value@) ==> r == Err::<(), HeaderError>(HeaderError::InvalidValue),
            header_name_of(key@) is Some && is_header_value_text(value@) ==> r is Ok,
            r is Err ==> final(self)@ == old(self)@,
            r is Ok ==> final(self)@ == header_written(old(self)@, header_name_of(key@)->0, value@),
    {
        match parse_header_name(key) {
            None => Err(HeaderError::InvalidName),
            Some(name) => {
                if !header_value_accepted(value) {
                    Err(HeaderError::InvalidValue)
                } else {
                    self.insert(name, value.to_owned());
                    Ok(())
                }
            },
        }
    }
}

} // verus!
