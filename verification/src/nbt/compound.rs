//! A compound tag: named child tags, in order.
use vstd::prelude::*;
use bytes::Bytes;
use crate::nbt::buffers::{bytes_mut_new, bytes_mut_view, bytes_view, freeze, put_bytes, put_u8};
use crate::error::Error;
use crate::nbt::deserialize::{
    after, decode_data, decode_entries, decode_string, get_nbt_string, is_wrapper,
    lemma_after_after, lemma_decode_data_bounds, lemma_entries_step, Decoded,
};
use crate::nbt::reading::try_get_u8;
use crate::nbt::roundtrip::{reads_back, strings_read_back};
use crate::nbt::tag::{
    entries_bytes, entries_model, lemma_entries_model, lemma_entries_model_push,
    put_string_payload, tag_model, NbtTag, SpecTag, END_ID,
};

verus! {

/// Named child tags, in the order in which they were added.
#[derive(Debug, PartialEq, Eq)]
pub struct NbtCompound {
    pub child_tags: Vec<(String, NbtTag)>,
}

impl NbtCompound {
    /// A compound without children.
    pub fn new() -> (c: Self)
        ensures
            c.child_tags@.len() == 0,
    {
        NbtCompound { child_tags: Vec::new() }
    }

    /// The children, each as its type id, its name and its payload, then the `End` id; every
    /// name and string written reads back from its encoding.
    pub fn serialize_content(&self) -> (r: Bytes)
        ensures
            bytes_view(r) == entries_bytes(self.child_tags@) + seq![END_ID],
            forall|i: int|
                0 <= i < self.child_tags@.len() ==> reads_back(#[trigger] self.child_tags@[i].0@)
                    && strings_read_back(self.child_tags@[i].1),
        decreases self,
    {
        let mut bytes = bytes_mut_new();
        let n = self.child_tags.len();
        let mut i: usize = 0;
        while i < n
            invariant
                i <= n,
                n == self.child_tags@.len(),
                bytes_mut_view(bytes) == entries_bytes(self.child_tags@.take(i as int)),
                forall|j: int|
                    0 <= j < i ==> reads_back(#[trigger] self.child_tags@[j].0@) && strings_read_back(
                        self.child_tags@[j].1,
                    ),
            decreases n - i,
        {
            let (name, tag) = &self.child_tags[i];
            put_u8(&mut bytes, tag.get_type_id());
            put_string_payload(&mut bytes, name);
            put_bytes(&mut bytes, tag.serialize_data());
            i = i + 1;
            assert(self.child_tags@.take(i as int).subrange(0, i - 1) =~= self.child_tags@.take(
                i - 1,
            ));
        }
        assert(self.child_tags@.take(n as int) =~= self.child_tags@);
        put_u8(&mut bytes, END_ID);
        freeze(bytes)
    }

    /// Whether the compound only wraps a single child under the empty name, as a list of
    /// mixed types writes an element that is not a compound.
    pub fn is_wrapper(&self) -> (r: bool)
        ensures
            r == is_wrapper(SpecTag::Compound(entries_model(self.child_tags@))),
    {
        proof {
            lemma_entries_model(self.child_tags@);
        }
        self.child_tags.len() == 1 && self.child_tags[0].0.as_str().is_empty()
    }

    /// Reads the named children of a compound, up to and including the `End` id.
    pub fn deserialize_content(bytes: &mut &[u8]) -> (r: Result<NbtCompound, Error>)
        requires
            !(decode_entries(old(bytes)@) is Panics),
        ensures
            match decode_entries(old(bytes)@) {
                Decoded::Done(e, k) => r matches Ok(c) && entries_model(c.child_tags@) == e
                    && final(bytes)@ == old(bytes)@.skip(k),
                Decoded::Failed(e, k) => r == Err::<NbtCompound, Error>(e) && final(bytes)@ == old(
                    bytes,
                )@.skip(k),
                Decoded::Panics => false,
            },
        decreases old(bytes)@.len(), 1int,
    {
        let ghost start = old(bytes)@;
        let mut child_tags: Vec<(String, NbtTag)> = Vec::new();
        let ghost mut consumed: int = 0;
        assert(start.skip(0) =~= start);
        assert(entries_model(child_tags@) =~= Seq::empty());
        assert(after(Seq::empty(), 0, decode_entries(start)) == decode_entries(start)) by {
            if let Decoded::Done(rest, k) = decode_entries(start) {
                assert(Seq::<(Seq<char>, SpecTag)>::empty() + rest =~= rest);
            }
        }
        loop
            invariant
                start == old(bytes)@,
                0 <= consumed <= start.len(),
                bytes@ == start.skip(consumed),
                decode_entries(start) == after(
                    entries_model(child_tags@),
                    consumed,
                    decode_entries(bytes@),
                ),
                !(decode_entries(start) is Panics),
            decreases bytes@.len(),
        {
            let ghost cur = bytes@;
            let tag_id = match try_get_u8(bytes) {
                Ok(id) => id,
                Err(_) => {
                    assert(cur.len() == 0);
                    assert(decode_entries(cur) == Decoded::<Seq<(Seq<char>, SpecTag)>>::Failed(
                        Error::Incomplete,
                        0,
                    ));
                    assert(decode_entries(start) == Decoded::<Seq<(Seq<char>, SpecTag)>>::Failed(
                        Error::Incomplete,
                        consumed,
                    ));
                    return Err(Error::Incomplete);
                },
            };
            assert(start.skip(consumed).skip(1) =~= start.skip(consumed + 1));
            if tag_id == END_ID {
                assert(entries_model(child_tags@) + Seq::empty() =~= entries_model(child_tags@));
                return Ok(NbtCompound { child_tags });
            }
            let ghost k = match decode_string(cur.skip(1)) {
                Decoded::Done(_, k) => k,
                Decoded::Failed(_, k) => k,
                Decoded::Panics => 0,
            };
            let name = match get_nbt_string(bytes) {
                Ok(s) => s,
                Err(e) => {
                    assert(start.skip(consumed + 1).skip(k) =~= start.skip(consumed + 1 + k));
                    return Err(e);
                },
            };
            assert(start.skip(consumed + 1).skip(k) =~= start.skip(consumed + 1 + k));
            let ghost d = decode_data(cur.skip(1 + k), tag_id);
            proof {
                lemma_decode_data_bounds(cur.skip(1 + k), tag_id);
                assert(cur.skip(1).skip(k) =~= cur.skip(1 + k));
                assert(cur.skip(1 + k) =~= start.skip(consumed + 1 + k));
            }
            let tag = match NbtTag::deserialize_data(bytes, tag_id) {
                Ok(t) => t,
                Err(e) => {
                    let ghost k2 = d->Failed_1;
                    assert(start.skip(consumed + 1 + k).skip(k2) =~= start.skip(
                        consumed + 1 + k + k2,
                    ));
                    return Err(e);
                },
            };
            proof {
                let k2 = d->Done_1;
                lemma_entries_step(cur);
                assert(start.skip(consumed + 1 + k).skip(k2) =~= start.skip(consumed + 1 + k + k2));
                assert(cur.skip(1 + k + k2) =~= start.skip(consumed + 1 + k + k2));
                lemma_after_after(
                    entries_model(child_tags@),
                    consumed,
                    seq![(name@, tag_model(tag))],
                    1 + k + k2,
                    decode_entries(bytes@),
                );
                lemma_entries_model_push(child_tags@, (name, tag));
                assert(entries_model(child_tags@) + seq![(name@, tag_model(tag))] =~= entries_model(
                    child_tags@,
                ).push((name@, tag_model(tag))));
                consumed = consumed + 1 + k + k2;
            }
            child_tags.push((name, tag));
        }
    }
}


impl Clone for NbtCompound {
    /// A copy with the same children.
    fn clone(&self) -> (r: Self)
        ensures
            entries_model(r.child_tags@) == entries_model(self.child_tags@),
        decreases self,
    {
        let n = self.child_tags.len();
        let mut copy: Vec<(String, NbtTag)> = Vec::new();
        let mut i: usize = 0;
        while i < n
            invariant
                i <= n,
                n == self.child_tags@.len(),
                copy@.len() == i,
                forall|j: int|
                    0 <= j < i ==> #[trigger] copy@[j].0@ == self.child_tags@[j].0@ && tag_model(
                        copy@[j].1,
                    ) == tag_model(self.child_tags@[j].1),
            decreases n - i,
        {
            proof {
                assert(decreases_to!(*self => self.child_tags));
                assert(decreases_to!(self.child_tags => self.child_tags@));
                assert(decreases_to!(self.child_tags@ => self.child_tags@[i as int]));
                assert(decreases_to!(self.child_tags@[i as int] => self.child_tags@[i as int].1));
            }
            let (name, tag) = &self.child_tags[i];
            copy.push((name.clone(), tag.clone()));
            i = i + 1;
        }
        proof {
            lemma_entries_model(copy@);
            lemma_entries_model(self.child_tags@);
            assert(entries_model(copy@) =~= entries_model(self.child_tags@));
        }
        NbtCompound { child_tags: copy }
    }
}

} // verus!
