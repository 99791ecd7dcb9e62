//! A string builder that collects parts and concatenates them once.
//!
//! While only borrowed string slices have been appended the builder keeps
//! slices; the first owned string switches it to a list of `Cow` parts.  The
//! built string is the parts concatenated in the order they were appended.
use std::borrow::Cow;
use vstd::prelude::*;
use vstd::string::*;
use vstd::utf8::encode_utf8;

verus! {

/// The parts concatenated in order.
pub open spec fn concat(parts: Seq<Seq<char>>) -> Seq<char>
    decreases parts.len(),
{
    if parts.len() == 0 {
        Seq::empty()
    } else {
        concat(parts.drop_last()) + parts.last()
    }
}

/// Total UTF-8 length of the parts.
pub open spec fn byte_len_sum(parts: Seq<Seq<char>>) -> nat
    decreases parts.len(),
{
    if parts.len() == 0 {
        0
    } else {
        byte_len_sum(parts.drop_last()) + encode_utf8(parts.last()).len()
    }
}

/// Marker for the types a builder accepts.
pub trait Sealed {

}

impl<'a> Sealed for &'a str {

}

impl Sealed for String {

}

impl<'a> Sealed for &'a String {

}

impl<'a> Sealed for Cow<'a, str> {

}

/// A value that can be appended to a `StringBuilder`: a string slice, an owned
/// string, a reference to one, or a `Cow` string.
pub trait StringPart<'a>: Sealed + Sized {
    /// The text of the part.
    spec fn spec_text(&self) -> Seq<char>;

    /// Whether the part borrows its text (a slice, a reference to a string,
    /// or a borrowed `Cow`) rather than owning it.
    spec fn spec_borrows(&self) -> bool;

    /// The part as a `Cow` string with the same text, borrowed exactly when
    /// the part borrows.
    fn into_cow(self) -> (r: Cow<'a, str>)
        ensures
            r@ == self.spec_text(),
            (r is Borrowed) == self.spec_borrows(),
    ;
}

impl<'a> StringPart<'a> for &'a str {
    open spec fn spec_text(&self) -> Seq<char> {
        (*self)@
    }

    open spec fn spec_borrows(&self) -> bool {
        true
    }

    fn into_cow(self) -> (r: Cow<'a, str>) {
        Cow::Borrowed(self)
    }
}

impl<'a> StringPart<'a> for String {
    open spec fn spec_text(&self) -> Seq<char> {
        self@
    }

    open spec fn spec_borrows(&self) -> bool {
        false
    }

    fn into_cow(self) -> (r: Cow<'a, str>) {
        Cow::Owned(self)
    }
}

impl<'a> StringPart<'a> for &'a String {
    open spec fn spec_text(&self) -> Seq<char> {
        (*self)@
    }

    open spec fn spec_borrows(&self) -> bool {
        true
    }

    fn into_cow(self) -> (r: Cow<'a, str>) {
        Cow::Borrowed(self.as_str())
    }
}

impl<'a> StringPart<'a> for Cow<'a, str> {
    open spec fn spec_text(&self) -> Seq<char> {
        self@
    }

    open spec fn spec_borrows(&self) -> bool {
        *self is Borrowed
    }

    fn into_cow(self) -> (r: Cow<'a, str>) {
        self
    }
}

/// Storage of the parts: only slices, or `Cow` strings once an owned part came.
pub enum Storage<'a> {
    Borrowed(Vec<&'a str>),
    Mixed(Vec<Cow<'a, str>>),
}

impl<'a> Storage<'a> {
    /// The text of each part.
    pub open spec fn parts(&self) -> Seq<Seq<char>> {
        match self {
            Storage::Borrowed(v) => v@.map_values(|s: &'a str| s@),
            Storage::Mixed(v) => v@.map_values(|c: Cow<'a, str>| c@),
        }
    }

    /// Empty storage of slices.
    pub fn new_borrowed() -> (r: Self)
        ensures
            r is Borrowed,
            r.parts() == Seq::<Seq<char>>::empty(),
    {
        let r = Storage::Borrowed(Vec::new());
        assert(r.parts() =~= Seq::<Seq<char>>::empty());
        r
    }

    /// Empty storage of slices with room for `cap` parts.
    pub fn new_borrowed_with_capacity(cap: usize) -> (r: Self)
        ensures
            r is Borrowed,
            r.parts() == Seq::<Seq<char>>::empty(),
    {
        let r = Storage::Borrowed(Vec::with_capacity(cap));
        assert(r.parts() =~= Seq::<Seq<char>>::empty());
        r
    }
}

/// A builder that concatenates appended strings.
pub struct StringBuilder<'a> {
    storage: Storage<'a>,
    total_len: usize,
}

/// A text takes at most four UTF-8 bytes per character, which bounds what
/// appending it adds to a builder's length.
pub proof fn lemma_utf8_len_bound(s: Seq<char>)
    ensures
        encode_utf8(s).len() <= 4 * s.len(),
    decreases s.len(),
{
    if s.len() > 0 {
        lemma_utf8_len_bound(s.drop_first());
        assert(vstd::utf8::encode_scalar(s[0] as u32).len() <= 4);
    }
}

/// A non-empty sequence of characters has a non-empty UTF-8 encoding.
proof fn lemma_encode_empty(s: Seq<char>)
    ensures
        (encode_utf8(s).len() == 0) == (s.len() == 0),
{
    if s.len() > 0 {
        let c = s[0] as u32;
        assert(vstd::utf8::encode_scalar(c).len() >= 1);
    }
}

proof fn lemma_byte_sum_empty(parts: Seq<Seq<char>>)
    ensures
        (byte_len_sum(parts) == 0) == (concat(parts).len() == 0),
    decreases parts.len(),
{
    if parts.len() > 0 {
        lemma_byte_sum_empty(parts.drop_last());
        lemma_encode_empty(parts.last());
    }
}

impl<'a> StringBuilder<'a> {
    /// The text of each appended part, in order.
    pub closed spec fn spec_parts(&self) -> Seq<Seq<char>> {
        self.storage.parts()
    }

    /// Total UTF-8 length of the parts.
    pub closed spec fn spec_byte_len(&self) -> nat {
        byte_len_sum(self.storage.parts())
    }

    /// Whether the builder still stores only slices.
    pub closed spec fn spec_is_borrowed(&self) -> bool {
        self.storage is Borrowed
    }

    /// The recorded length is the total UTF-8 length of the parts.
    pub closed spec fn wf(&self) -> bool {
        self.total_len as nat == byte_len_sum(self.storage.parts())
    }

    /// An empty builder, storing slices, with room for `capacity` parts.
    pub fn with_capacity(capacity: usize) -> (r: Self)
        ensures
            r.wf(),
            r.spec_parts() == Seq::<Seq<char>>::empty(),
            r.spec_byte_len() == 0,
            r.spec_is_borrowed(),
    {
        StringBuilder { storage: Storage::new_borrowed_with_capacity(capacity), total_len: 0 }
    }

    fn push_part(&mut self, part: Cow<'a, str>)
        requires
            old(self).wf(),
            old(self).spec_byte_len() + encode_utf8(part@).len() <= usize::MAX,
        ensures
            final(self).wf(),
            final(self).spec_parts() == old(self).spec_parts().push(part@),
            final(self).spec_byte_len() == old(self).spec_byte_len() + encode_utf8(part@).len(),
            final(self).spec_is_borrowed() == (old(self).spec_is_borrowed() && part is Borrowed),
    {
        let ghost old_parts = self.storage.parts();
        let part_len = match &part {
            Cow::Borrowed(s) => s.len(),
            Cow::Owned(s) => s.as_str().len(),
        };
        let new_len = self.total_len + part_len;
        let mut storage = Storage::Mixed(Vec::new());
        std::mem::swap(&mut storage, &mut self.storage);
        let new_storage = match storage {
            Storage::Mixed(mut v) => {
                v.push(part);
                Storage::Mixed(v)
            },
            Storage::Borrowed(mut v) => match part {
                Cow::Borrowed(s) => {
                    v.push(s);
                    Storage::Borrowed(v)
                },
                Cow::Owned(s) => {
                    let mut new_vec: Vec<Cow<'a, str>> = Vec::with_capacity(v.len());
                    let mut i: usize = 0;
                    while i < v.len()
                        invariant
                            i <= v.len(),
                            new_vec@.len() == i,
                            forall|j: int| 0 <= j < i ==> (#[trigger] new_vec@[j])@ == v@[j]@,
                        decreases v.len() - i,
                    {
                        new_vec.push(Cow::Borrowed(v[i]));
                        i = i + 1;
                    }
                    new_vec.push(Cow::Owned(s));
                    Storage::Mixed(new_vec)
                },
            },
        };
        *self = StringBuilder { storage: new_storage, total_len: new_len };
        proof {
            assert(self.storage.parts() =~= old_parts.push(part@));
            assert(self.storage.parts().drop_last() =~= old_parts);
        }
    }

    /// Appends a part and returns the builder.
    pub fn append<S: StringPart<'a>>(self, s: S) -> (r: Self)
        requires
            self.wf(),
            self.spec_byte_len() + encode_utf8(s.spec_text()).len() <= usize::MAX,
        ensures
            r.wf(),
            r.spec_parts() == self.spec_parts().push(s.spec_text()),
            r.spec_byte_len() == self.spec_byte_len() + encode_utf8(s.spec_text()).len(),
            r.spec_is_borrowed() == (self.spec_is_borrowed() && s.spec_borrows()),
    {
        let mut b = self;
        b.push_part(s.into_cow());
        b
    }

    /// Appends a part in place.
    pub fn append_mut<S: StringPart<'a>>(&mut self, s: S) -> (r: &mut Self)
        requires
            old(self).wf(),
            old(self).spec_byte_len() + encode_utf8(s.spec_text()).len() <= usize::MAX,
        ensures
            r.wf(),
            r.spec_parts() == old(self).spec_parts().push(s.spec_text()),
            r.spec_byte_len() == old(self).spec_byte_len() + encode_utf8(s.spec_text()).len(),
            r.spec_is_borrowed() == (old(self).spec_is_borrowed() && s.spec_borrows()),
            *final(self) == *final(r),
    {
        self.push_part(s.into_cow());
        self
    }

    /// Whether nothing but empty strings has been appended.
    pub fn is_empty(&self) -> (r: bool)
        requires
            self.wf(),
        ensures
            r == (concat(self.spec_parts()).len() == 0),
    {
        proof {
            lemma_byte_sum_empty(self.storage.parts());
        }
        self.total_len == 0
    }

    /// Whether the builder still stores only slices.
    pub fn is_borrowed_state(&self) -> (r: bool)
        ensures
            r == self.spec_is_borrowed(),
    {
        match &self.storage {
            Storage::Borrowed(_) => true,
            Storage::Mixed(_) => false,
        }
    }

    /// Whether the builder stores `Cow` parts.
    pub fn is_mixed_state(&self) -> (r: bool)
        ensures
            r == !self.spec_is_borrowed(),
    {
        !self.is_borrowed_state()
    }

    /// The concatenation of all parts.
    pub fn build(self) -> (r: String)
        requires
            self.wf(),
        ensures
            r@ == concat(self.spec_parts()),
    {
        let ghost parts = self.storage.parts();
        let mut result = String::new();
        match self.storage {
            Storage::Borrowed(v) => {
                let mut i: usize = 0;
                while i < v.len()
                    invariant
                        i <= v.len(),
                        parts == v@.map_values(|s: &'a str| s@),
                        result@ == concat(parts.subrange(0, i as int)),
                    decreases v.len() - i,
                {
                    result.append(v[i]);
                    proof {
                        assert(parts.subrange(0, i + 1).drop_last() =~= parts.subrange(0, i as int));
                    }
                    i = i + 1;
                }
                assert(parts.subrange(0, v.len() as int) =~= parts);
            },
            Storage::Mixed(v) => {
                let mut i: usize = 0;
                while i < v.len()
                    invariant
                        i <= v.len(),
                        parts == v@.map_values(|c: Cow<'a, str>| c@),
                        result@ == concat(parts.subrange(0, i as int)),
                    decreases v.len() - i,
                {
                    match &v[i] {
                        Cow::Borrowed(s) => result.append(s),
                        Cow::Owned(s) => result.append(s.as_str()),
                    }
                    proof {
                        assert(parts.subrange(0, i + 1).drop_last() =~= parts.subrange(0, i as int));
                    }
                    i = i + 1;
                }
                assert(parts.subrange(0, v.len() as int) =~= parts);
            },
        }
        result
    }
}

impl<'a> Clone for StringBuilder<'a> {
    fn clone(&self) -> (r: Self)
        ensures
            r.spec_parts() == self.spec_parts(),
            r.spec_is_borrowed() == self.spec_is_borrowed(),
            self.wf() ==> r.wf(),
    {
        let storage = match &self.storage {
            Storage::Borrowed(v) => {
                let mut w: Vec<&'a str> = Vec::new();
                let mut i: usize = 0;
                while i < v.len()
                    invariant
                        i <= v.len(),
                        w@ == v@.subrange(0, i as int),
                    decreases v.len() - i,
                {
                    w.push(v[i]);
                    i = i + 1;
                }
                assert(w@ =~= v@);
                Storage::Borrowed(w)
            },
            Storage::Mixed(v) => {
                let mut w: Vec<Cow<'a, str>> = Vec::new();
                let mut i: usize = 0;
                while i < v.len()
                    invariant
                        i <= v.len(),
                        w@.len() == i,
                        forall|j: int| 0 <= j < i ==> (#[trigger] w@[j])@ == v@[j]@,
                    decreases v.len() - i,
                {
                    let c = match &v[i] {
                        Cow::Borrowed(s) => Cow::Borrowed(*s),
                        Cow::Owned(s) => Cow::Owned(s.clone()),
                    };
                    w.push(c);
                    i = i + 1;
                }
                Storage::Mixed(w)
            },
        };
        let r = StringBuilder { storage, total_len: self.total_len };
        assert(r.storage.parts() =~= self.storage.parts());
        r
    }
}

} // verus!
