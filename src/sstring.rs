use vstd::prelude::*;
use vstd::utf8::{encode_utf8, is_char_boundary};

verus! {

/// An owned UTF-8 string with a fixed set of fields: the buffer that holds
/// the text. Every value holds valid UTF-8 text, since the buffer is only
/// ever reached as a `String`.
pub struct SString {
    inner: String,
}

impl View for SString {
    type V = Seq<char>;

    closed spec fn view(&self) -> Seq<char> {
        self.inner@
    }
}

impl SString {
    /// Takes over the storage of `s`, without copying it.
    pub fn from_string(s: String) -> (r: SString)
        ensures
            r@ == s@,
    {
        SString { inner: s }
    }

    /// Hands the storage back as a `String`, without copying it.
    pub fn into_string(self) -> (r: String)
        ensures
            r@ == self@,
    {
        self.inner
    }

    /// A read-only view of the text as a `String`, for as long as the
    /// borrow of `self` lasts.
    pub fn as_string(&self) -> (r: &String)
        ensures
            r@ == self@,
    {
        &self.inner
    }

    /// A read-write view of the text as a `String`, for as long as the
    /// borrow of `self` lasts. Once the view is given up, `self` holds
    /// exactly what the view held last.
    pub fn as_string_mut(&mut self) -> (r: &mut String)
        ensures
            r@ == old(self)@,
            final(self)@ == final(r)@,
    {
        &mut self.inner
    }
}

/// Relies on `String::push`: the character is appended at the end.
pub assume_specification[ String::push ](s: &mut String, ch: char)
    ensures
        final(s)@ == old(s)@.push(ch),
;

/// Relies on `String::push_str`: the text is appended at the end.
pub assume_specification[ String::push_str ](s: &mut String, string: &str)
    ensures
        final(s)@ == old(s)@ + string@,
;

/// Relies on `String::pop`: the last character is removed and returned,
/// and `None` comes back, with nothing changed, from an empty string.
pub assume_specification[ String::pop ](s: &mut String) -> (r: Option<char>)
    ensures
        old(s)@.len() == 0 ==> r is None && final(s)@ == old(s)@,
        old(s)@.len() > 0 ==> r == Some(old(s)@.last()) && final(s)@ == old(s)@.drop_last(),
;

/// Relies on `String::clear`: all text is removed.
pub assume_specification[ String::clear ](s: &mut String)
    ensures
        final(s)@ == Seq::<char>::empty(),
;

/// Relies on `String::truncate`: the text is cut to its first `new_len`
/// bytes, and is left as it is where it has no more than that. It panics
/// where `new_len` falls inside a character.
pub assume_specification[ String::truncate ](s: &mut String, new_len: usize)
    requires
        new_len >= encode_utf8(old(s)@).len() || is_char_boundary(
            encode_utf8(old(s)@),
            new_len as int,
        ),
    ensures
        new_len >= encode_utf8(old(s)@).len() ==> final(s)@ == old(s)@,
        new_len < encode_utf8(old(s)@).len() ==> encode_utf8(final(s)@) == encode_utf8(
            old(s)@,
        ).take(new_len as int),
;

/// Relies on `String::insert`: the character is put in at byte position
/// `idx`. It panics where `idx` is past the end or inside a character.
pub assume_specification[ String::insert ](s: &mut String, idx: usize, ch: char)
    requires
        is_char_boundary(encode_utf8(old(s)@), idx as int),
    ensures
        encode_utf8(final(s)@) == encode_utf8(old(s)@).take(idx as int) + encode_utf8(seq![ch])
            + encode_utf8(old(s)@).skip(idx as int),
;

/// Relies on `String::insert_str`: the text is put in at byte position
/// `idx`. It panics where `idx` is past the end or inside a character.
pub assume_specification[ String::insert_str ](s: &mut String, idx: usize, string: &str)
    requires
        is_char_boundary(encode_utf8(old(s)@), idx as int),
    ensures
        encode_utf8(final(s)@) == encode_utf8(old(s)@).take(idx as int) + encode_utf8(string@)
            + encode_utf8(old(s)@).skip(idx as int),
;

impl SString {
    /// The length of the text in bytes of UTF-8.
    pub fn len(&self) -> (r: usize)
        ensures
            r == encode_utf8(self@).len() as usize,
    {
        self.as_string().as_str().len()
    }

    /// Whether the text is empty.
    pub fn is_empty(&self) -> (r: bool)
        ensures
            r == (self@.len() == 0),
    {
        self.as_string().as_str().is_empty()
    }

    /// Appends a character.
    pub fn push(&mut self, ch: char)
        ensures
            final(self)@ == old(self)@.push(ch),
    {
        self.as_string_mut().push(ch);
    }

    /// Appends a piece of text.
    pub fn push_str(&mut self, string: &str)
        ensures
            final(self)@ == old(self)@ + string@,
    {
        self.as_string_mut().push_str(string);
    }

    /// Removes and returns the last character; `None` where the text is
    /// empty, which is then left as it is.
    pub fn pop(&mut self) -> (r: Option<char>)
        ensures
            old(self)@.len() == 0 ==> r is None && final(self)@ == old(self)@,
            old(self)@.len() > 0 ==> r == Some(old(self)@.last()) && final(self)@ == old(
                self,
            )@.drop_last(),
    {
        self.as_string_mut().pop()
    }

    /// Removes all text.
    pub fn clear(&mut self)
        ensures
            final(self)@ == Seq::<char>::empty(),
    {
        self.as_string_mut().clear();
    }

    /// Cuts the text to its first `new_len` bytes; text no longer than that
    /// is left as it is. `new_len` must not fall inside a character.
    pub fn truncate(&mut self, new_len: usize)
        requires
            new_len >= encode_utf8(old(self)@).len() || is_char_boundary(
                encode_utf8(old(self)@),
                new_len as int,
            ),
        ensures
            new_len >= encode_utf8(old(self)@).len() ==> final(self)@ == old(self)@,
            new_len < encode_utf8(old(self)@).len() ==> encode_utf8(final(self)@) == encode_utf8(
                old(self)@,
            ).take(new_len as int),
    {
        self.as_string_mut().truncate(new_len);
    }

    /// Puts `ch` in at byte position `idx`, which must be the start of a
    /// character or the end of the text.
    pub fn insert(&mut self, idx: usize, ch: char)
        requires
            is_char_boundary(encode_utf8(old(self)@), idx as int),
        ensures
            encode_utf8(final(self)@) == encode_utf8(old(self)@).take(idx as int) + encode_utf8(
                seq![ch],
            ) + encode_utf8(old(self)@).skip(idx as int),
    {
        self.as_string_mut().insert(idx, ch);
    }

    /// Puts `string` in at byte position `idx`, which must be the start of a
    /// character or the end of the text.
    pub fn insert_str(&mut self, idx: usize, string: &str)
        requires
            is_char_boundary(encode_utf8(old(self)@), idx as int),
        ensures
            encode_utf8(final(self)@) == encode_utf8(old(self)@).take(idx as int) + encode_utf8(
                string@,
            ) + encode_utf8(old(self)@).skip(idx as int),
    {
        self.as_string_mut().insert_str(idx, string);
    }
}

impl From<String> for SString {
    fn from(s: String) -> (r: SString)
        ensures
            r@ == s@,
    {
        SString { inner: s }
    }
}

impl vstd::std_specs::convert::FromSpecImpl<String> for SString {
    open spec fn obeys_from_spec() -> bool {
        true
    }

    closed spec fn from_spec(v: String) -> SString {
        SString { inner: v }
    }
}

impl From<SString> for String {
    fn from(s: SString) -> (r: String)
        ensures
            r@ == s@,
    {
        s.inner
    }
}

impl vstd::std_specs::convert::FromSpecImpl<SString> for String {
    open spec fn obeys_from_spec() -> bool {
        true
    }

    closed spec fn from_spec(v: SString) -> String {
        v.inner
    }
}

/// Taking a `String` in and handing it back out gives the same text, and
/// so the same bytes.
pub proof fn lemma_owned_round_trip(s: String, f: SString, t: String)
    requires
        call_ensures(SString::from_string, (s,), f),
        call_ensures(SString::into_string, (f,), t),
    ensures
        t@ == s@,
        encode_utf8(t@) == encode_utf8(s@),
{
}

} // verus!
