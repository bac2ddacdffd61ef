//! The shape of the payload: which document decodes to which value of the
//! model, and which does not and why.
//!
//! A record is a map with text keys. Its fields are found by name; a key that
//! names no field is passed over, a field that occurs twice is refused. A
//! table is a map that is kept as the list of its entries, in order and with
//! nothing merged.

use crate::cbor::{entry_docs, docs, Doc, Item};
use crate::proto::{pair_views, value_views, views};
use std::collections::HashMap;
use vstd::prelude::*;

verus! {

broadcast use {
    crate::cbor::lemma_array_doc,
    crate::cbor::lemma_dict_doc,
    vstd::std_specs::hash::group_hash_axioms,
};

/// The kinds of document that a decoder can ask for.
#[derive(Debug, Clone, Copy, PartialEq, Eq, Structural)]
pub enum Kind {
    /// An integer from 0 to 2^32 - 1.
    Unsigned32,
    Bool,
    Text,
    Bytes,
    Array,
    /// A map read as the fields of a record.
    Record,
    /// A map read as a list of entries.
    Table,
}

/// Why a document is not of the shape asked for.
#[derive(Debug, Clone, Copy, PartialEq, Eq)]
pub enum ShapeError {
    /// The document is not of this kind.
    Mismatch(Kind),
    /// A key of a record is not a text.
    KeyNotText,
    /// A record lacks this field.
    MissingField(&'static str),
    /// A record holds this field more than once.
    DuplicateField(&'static str),
}

/// A value of the model that can be read from a document.
pub trait FromItem: Sized + View {
    /// What `doc` decodes to.
    spec fn decoded(doc: Doc) -> Result<Self::V, ShapeError>;

    /// Decodes `item`.
    fn from_item(item: &Item) -> (r: Result<Self, ShapeError>)
        ensures
            r is Ok ==> Self::decoded(item@) == Ok::<Self::V, ShapeError>(r->Ok_0@),
            r is Err ==> Self::decoded(item@) == Err::<Self::V, ShapeError>(r->Err_0),
    ;
}

impl FromItem for u32 {
    open spec fn decoded(doc: Doc) -> Result<u32, ShapeError> {
        match doc {
            Doc::Integer(i) if 0 <= i <= u32::MAX => Ok(i as u32),
            _ => Err(ShapeError::Mismatch(Kind::Unsigned32)),
        }
    }

    fn from_item(item: &Item) -> (r: Result<u32, ShapeError>) {
        match item {
            Item::Integer(i) => {
                if 0 <= *i && *i <= 0xffff_ffff {
                    Ok(*i as u32)
                } else {
                    Err(ShapeError::Mismatch(Kind::Unsigned32))
                }
            },
            _ => Err(ShapeError::Mismatch(Kind::Unsigned32)),
        }
    }
}

impl FromItem for bool {
    open spec fn decoded(doc: Doc) -> Result<bool, ShapeError> {
        match doc {
            Doc::Bool(b) => Ok(b),
            _ => Err(ShapeError::Mismatch(Kind::Bool)),
        }
    }

    fn from_item(item: &Item) -> (r: Result<bool, ShapeError>) {
        match item {
            Item::Bool(b) => Ok(*b),
            _ => Err(ShapeError::Mismatch(Kind::Bool)),
        }
    }
}

impl FromItem for String {
    open spec fn decoded(doc: Doc) -> Result<Seq<char>, ShapeError> {
        match doc {
            Doc::Text(s) => Ok(s),
            _ => Err(ShapeError::Mismatch(Kind::Text)),
        }
    }

    fn from_item(item: &Item) -> (r: Result<String, ShapeError>) {
        match item {
            Item::Text(s) => Ok(s.clone()),
            _ => Err(ShapeError::Mismatch(Kind::Text)),
        }
    }
}

impl FromItem for Vec<u8> {
    open spec fn decoded(doc: Doc) -> Result<Seq<u8>, ShapeError> {
        match doc {
            Doc::Bytes(b) => Ok(b),
            _ => Err(ShapeError::Mismatch(Kind::Bytes)),
        }
    }

    fn from_item(item: &Item) -> (r: Result<Vec<u8>, ShapeError>) {
        match item {
            Item::Bytes(b) => Ok(b.clone()),
            _ => Err(ShapeError::Mismatch(Kind::Bytes)),
        }
    }
}

/// `str`'s `==`: two texts are equal exactly when they hold the same
/// characters.
#[verifier::external_body]
fn same_text(a: &str, b: &str) -> (r: bool)
    ensures
        r == (a@ == b@),
{
    a == b
}

/// Whether entry `i` of `entries` has the text `name` as its key.
pub open spec fn names_at(entries: Seq<(Doc, Doc)>, name: Seq<char>, i: int) -> bool {
    0 <= i < entries.len() && entries[i].0 == Doc::Text(name)
}

/// Whether every key of `entries` is a text.
pub open spec fn text_keys(entries: Seq<(Doc, Doc)>) -> bool {
    forall|i: int| 0 <= i < entries.len() ==> (#[trigger] entries[i]).0 is Text
}

/// The value of the field `name` among `entries`: none where no entry has
/// that key, the entry's value where one has, an error where several have.
pub open spec fn field(entries: Seq<(Doc, Doc)>, name: &'static str) -> Result<
    Option<Doc>,
    ShapeError,
> {
    if forall|i: int| !names_at(entries, name@, i) {
        Ok(None)
    } else if exists|i: int, j: int|
        i != j && names_at(entries, name@, i) && names_at(entries, name@, j) {
        Err(ShapeError::DuplicateField(name))
    } else {
        Ok(Some(entries[choose|i: int| names_at(entries, name@, i)].1))
    }
}

/// The value of a field that a record must hold.
pub open spec fn required(entries: Seq<(Doc, Doc)>, name: &'static str) -> Result<Doc, ShapeError> {
    match field(entries, name) {
        Ok(Some(doc)) => Ok(doc),
        Ok(None) => Err(ShapeError::MissingField(name)),
        Err(e) => Err(e),
    }
}

/// The entries of a record: those of a map whose keys are all texts.
pub open spec fn record(doc: Doc) -> Result<Seq<(Doc, Doc)>, ShapeError> {
    match doc {
        Doc::Dict(entries) => if text_keys(entries) {
            Ok(entries)
        } else {
            Err(ShapeError::KeyNotText)
        },
        _ => Err(ShapeError::Mismatch(Kind::Record)),
    }
}

/// Finds the field `name` among the entries of a record.
pub fn find_field<'a>(entries: &'a Vec<(Item, Item)>, name: &'static str) -> (r: Result<
    Option<&'a Item>,
    ShapeError,
>)
    ensures
        match r {
            Ok(Some(item)) => field(entry_docs(entries@), name) == Ok::<Option<Doc>, ShapeError>(
                Some(item@),
            ),
            Ok(None) => field(entry_docs(entries@), name) == Ok::<Option<Doc>, ShapeError>(None),
            Err(e) => field(entry_docs(entries@), name) == Err::<Option<Doc>, ShapeError>(e),
        },
{
    let ghost all = entry_docs(entries@);
    let mut found: Option<usize> = None;
    let mut i: usize = 0;
    while i < entries.len()
        invariant
            i <= entries.len(),
            all == entry_docs(entries@),
            match found {
                None => forall|j: int| 0 <= j < i ==> !names_at(all, name@, j),
                Some(k) => k < i && names_at(all, name@, k as int) && forall|j: int|
                    0 <= j < i && j != k ==> !names_at(all, name@, j),
            },
        decreases entries.len() - i,
    {
        let hit = match &entries[i].0 {
            Item::Text(key) => same_text(key.as_str(), name),
            _ => false,
        };
        assert(hit == names_at(all, name@, i as int));
        if hit {
            if found.is_some() {
                assert(names_at(all, name@, found->Some_0 as int));
                return Err(ShapeError::DuplicateField(name));
            }
            found = Some(i);
        }
        i += 1;
    }
    match found {
        None => Ok(None),
        Some(k) => {
            proof {
                assert(names_at(all, name@, k as int));
                let pick = choose|j: int| names_at(all, name@, j);
                assert(pick == k);
            }
            Ok(Some(&entries[k].1))
        },
    }
}

/// Finds the field `name`, which the record must hold.
pub fn find_required<'a>(entries: &'a Vec<(Item, Item)>, name: &'static str) -> (r: Result<
    &'a Item,
    ShapeError,
>)
    ensures
        match r {
            Ok(item) => required(entry_docs(entries@), name) == Ok::<Doc, ShapeError>(item@),
            Err(e) => required(entry_docs(entries@), name) == Err::<Doc, ShapeError>(e),
        },
{
    match find_field(entries, name) {
        Ok(Some(item)) => Ok(item),
        Ok(None) => Err(ShapeError::MissingField(name)),
        Err(e) => Err(e),
    }
}

/// The entries of `item` where it is a record.
pub fn as_record(item: &Item) -> (r: Result<&Vec<(Item, Item)>, ShapeError>)
    ensures
        match r {
            Ok(entries) => record(item@) == Ok::<Seq<(Doc, Doc)>, ShapeError>(entry_docs(entries@)),
            Err(e) => record(item@) == Err::<Seq<(Doc, Doc)>, ShapeError>(e),
        },
{
    match item {
        Item::Dict(entries) => {
            let ghost all = entry_docs(entries@);
            let mut i: usize = 0;
            while i < entries.len()
                invariant
                    i <= entries.len(),
                    all == entry_docs(entries@),
                    item@ == Doc::Dict(all),
                    forall|j: int| 0 <= j < i ==> (#[trigger] all[j]).0 is Text,
                decreases entries.len() - i,
            {
                match &entries[i].0 {
                    Item::Text(_) => {},
                    _ => {
                        assert(!(all[i as int].0 is Text));
                        return Err(ShapeError::KeyNotText);
                    },
                }
                i += 1;
            }
            Ok(entries)
        },
        _ => Err(ShapeError::Mismatch(Kind::Record)),
    }
}

/// The largest number of entries that room is made for ahead of reading.
pub const RESERVE_LIMIT: usize = 4096;

/// How many entries to make room for when the encoding announces `hint`
/// of them: as many as announced, but never more than [`RESERVE_LIMIT`].
pub fn reserve_for(hint: usize) -> (r: usize)
    ensures
        r == if hint <= RESERVE_LIMIT { hint } else { RESERVE_LIMIT },
{
    if hint <= RESERVE_LIMIT {
        hint
    } else {
        RESERVE_LIMIT
    }
}

/// What the elements of an array decode to: each element in its place, or
/// the error of the first element that does not decode.
pub open spec fn each_decoded<T: FromItem>(items: Seq<Doc>) -> Result<Seq<T::V>, ShapeError>
    decreases items.len(),
{
    if items.len() == 0 {
        Ok(Seq::empty())
    } else {
        match each_decoded::<T>(items.drop_last()) {
            Err(e) => Err(e),
            Ok(front) => match T::decoded(items.last()) {
                Err(e) => Err(e),
                Ok(v) => Ok(front.push(v)),
            },
        }
    }
}

/// What a document decodes to as a list of `T`.
pub open spec fn list_decoded<T: FromItem>(doc: Doc) -> Result<Seq<T::V>, ShapeError> {
    match doc {
        Doc::Array(items) => each_decoded::<T>(items),
        _ => Err(ShapeError::Mismatch(Kind::Array)),
    }
}

/// Decodes an array, element by element and in order.
pub fn decode_list<T: FromItem>(item: &Item) -> (r: Result<Vec<T>, ShapeError>)
    ensures
        match r {
            Ok(list) => list_decoded::<T>(item@) == Ok::<Seq<T::V>, ShapeError>(views(list@)),
            Err(e) => list_decoded::<T>(item@) == Err::<Seq<T::V>, ShapeError>(e),
        },
{
    match item {
        Item::Array(items) => {
            let ghost all = docs(items@);
            let mut out: Vec<T> = Vec::with_capacity(reserve_for(items.len()));
            let mut i: usize = 0;
            assert(views(out@) =~= Seq::<T::V>::empty());
            while i < items.len()
                invariant
                    i <= items.len(),
                    all == docs(items@),
                    item@ == Doc::Array(all),
                    each_decoded::<T>(all.take(i as int)) == Ok::<Seq<T::V>, ShapeError>(
                        views(out@),
                    ),
                decreases items.len() - i,
            {
                let ghost front = views(out@);
                proof {
                    assert(all.take(i + 1).drop_last() =~= all.take(i as int));
                    assert(all.take(i + 1).last() == items@[i as int]@);
                }
                match T::from_item(&items[i]) {
                    Ok(v) => {
                        out.push(v);
                        assert(views(out@) =~= front.push(v@));
                    },
                    Err(e) => {
                        proof {
                            lemma_each_decoded_fails::<T>(all, i + 1);
                        }
                        return Err(e);
                    },
                }
                i += 1;
            }
            assert(all.take(i as int) =~= all);
            Ok(out)
        },
        _ => Err(ShapeError::Mismatch(Kind::Array)),
    }
}

/// An error among the first `n` elements is the error of the whole array.
pub proof fn lemma_each_decoded_fails<T: FromItem>(items: Seq<Doc>, n: int)
    requires
        0 <= n <= items.len(),
        each_decoded::<T>(items.take(n)) is Err,
    ensures
        each_decoded::<T>(items) == each_decoded::<T>(items.take(n)),
    decreases items.len() - n,
{
    if n < items.len() {
        assert(items.take(n + 1).drop_last() =~= items.take(n));
        lemma_each_decoded_fails::<T>(items, n + 1);
    } else {
        assert(items.take(n) =~= items);
    }
}

/// What the entries of a map decode to: each entry in its place, key and
/// value decoded, or the error of the first entry that does not decode; in an
/// entry the key is decoded before the value.
pub open spec fn entries_decoded<K: FromItem, V: FromItem>(entries: Seq<(Doc, Doc)>) -> Result<
    Seq<(K::V, V::V)>,
    ShapeError,
>
    decreases entries.len(),
{
    if entries.len() == 0 {
        Ok(Seq::empty())
    } else {
        match entries_decoded::<K, V>(entries.drop_last()) {
            Err(e) => Err(e),
            Ok(front) => match K::decoded(entries.last().0) {
                Err(e) => Err(e),
                Ok(k) => match V::decoded(entries.last().1) {
                    Err(e) => Err(e),
                    Ok(v) => Ok(front.push((k, v))),
                },
            },
        }
    }
}

/// An error among the first `n` entries is the error of the whole map.
pub proof fn lemma_entries_decoded_fails<K: FromItem, V: FromItem>(entries: Seq<(Doc, Doc)>, n: int)
    requires
        0 <= n <= entries.len(),
        entries_decoded::<K, V>(entries.take(n)) is Err,
    ensures
        entries_decoded::<K, V>(entries) == entries_decoded::<K, V>(entries.take(n)),
    decreases entries.len() - n,
{
    if n < entries.len() {
        assert(entries.take(n + 1).drop_last() =~= entries.take(n));
        lemma_entries_decoded_fails::<K, V>(entries, n + 1);
    } else {
        assert(entries.take(n) =~= entries);
    }
}

/// What a document decodes to as a table from `K` to `V`: the entries of a
/// map in their order, the same key as often as it is there; the empty
/// table for the empty marker `null`.
pub open spec fn table_decoded<K: FromItem, V: FromItem>(doc: Doc) -> Result<
    Seq<(K::V, V::V)>,
    ShapeError,
> {
    match doc {
        Doc::Dict(entries) => entries_decoded::<K, V>(entries),
        Doc::Null => Ok(Seq::empty()),
        _ => Err(ShapeError::Mismatch(Kind::Table)),
    }
}

/// What a field that may be left out decodes to as a table: the empty table
/// where it is left out, else what its document decodes to.
pub open spec fn optional_table_decoded<K: FromItem, V: FromItem>(field: Option<Doc>) -> Result<
    Seq<(K::V, V::V)>,
    ShapeError,
> {
    match field {
        None => Ok(Seq::empty()),
        Some(doc) => table_decoded::<K, V>(doc),
    }
}

/// Decodes a map into the list of its entries. The order of the encoding is
/// kept and no entry is merged with another, whatever the keys are. Room is
/// made ahead for the announced number of entries, up to [`RESERVE_LIMIT`].
pub fn vecmap<K: FromItem, V: FromItem>(item: &Item) -> (r: Result<Vec<(K, V)>, ShapeError>)
    ensures
        match r {
            Ok(table) => table_decoded::<K, V>(item@) == Ok::<Seq<(K::V, V::V)>, ShapeError>(
                pair_views(table@),
            ),
            Err(e) => table_decoded::<K, V>(item@) == Err::<Seq<(K::V, V::V)>, ShapeError>(e),
        },
{
    match item {
        Item::Dict(entries) => {
            let ghost all = entry_docs(entries@);
            let mut out: Vec<(K, V)> = Vec::with_capacity(reserve_for(entries.len()));
            let mut i: usize = 0;
            assert(pair_views(out@) =~= Seq::<(K::V, V::V)>::empty());
            while i < entries.len()
                invariant
                    i <= entries.len(),
                    all == entry_docs(entries@),
                    item@ == Doc::Dict(all),
                    entries_decoded::<K, V>(all.take(i as int)) == Ok::<
                        Seq<(K::V, V::V)>,
                        ShapeError,
                    >(pair_views(out@)),
                decreases entries.len() - i,
            {
                let ghost front = pair_views(out@);
                proof {
                    assert(all.take(i + 1).drop_last() =~= all.take(i as int));
                    let entry = entries@[i as int];
                    assert(all.take(i + 1).last() == (entry.0@, entry.1@));
                }
                let k = match K::from_item(&entries[i].0) {
                    Ok(k) => k,
                    Err(e) => {
                        proof {
                            lemma_entries_decoded_fails::<K, V>(all, i + 1);
                        }
                        return Err(e);
                    },
                };
                let v = match V::from_item(&entries[i].1) {
                    Ok(v) => v,
                    Err(e) => {
                        proof {
                            lemma_entries_decoded_fails::<K, V>(all, i + 1);
                        }
                        return Err(e);
                    },
                };
                let ghost pair = (k@, v@);
                out.push((k, v));
                assert(pair_views(out@) =~= front.push(pair));
                i += 1;
            }
            assert(all.take(i as int) =~= all);
            Ok(out)
        },
        Item::Null => {
            let out: Vec<(K, V)> = Vec::new();
            assert(pair_views(out@) =~= Seq::<(K::V, V::V)>::empty());
            Ok(out)
        },
        _ => Err(ShapeError::Mismatch(Kind::Table)),
    }
}

/// Decodes a table from a field that may be left out: a field that is not
/// there gives the empty table, one that is there is decoded as [`vecmap`]
/// does.
pub fn vecmap_or_empty<K: FromItem, V: FromItem>(field: Option<&Item>) -> (r: Result<
    Vec<(K, V)>,
    ShapeError,
>)
    ensures
        match r {
            Ok(table) => optional_table_decoded::<K, V>(
                match field {
                    Some(item) => Some(item@),
                    None => None,
                },
            ) == Ok::<Seq<(K::V, V::V)>, ShapeError>(pair_views(table@)),
            Err(e) => optional_table_decoded::<K, V>(
                match field {
                    Some(item) => Some(item@),
                    None => None,
                },
            ) == Err::<Seq<(K::V, V::V)>, ShapeError>(e),
        },
{
    match field {
        Some(item) => vecmap(item),
        None => {
            let out: Vec<(K, V)> = Vec::new();
            assert(pair_views(out@) =~= Seq::<(K::V, V::V)>::empty());
            Ok(out)
        },
    }
}

/// What the field `name`, which a record must hold, decodes to as a `T`.
pub open spec fn required_as<T: FromItem>(entries: Seq<(Doc, Doc)>, name: &'static str) -> Result<
    T::V,
    ShapeError,
> {
    match required(entries, name) {
        Ok(doc) => T::decoded(doc),
        Err(e) => Err(e),
    }
}

/// Decodes the field `name`, which the record must hold, as a `T`.
pub fn read_field<T: FromItem>(entries: &Vec<(Item, Item)>, name: &'static str) -> (r: Result<
    T,
    ShapeError,
>)
    ensures
        match r {
            Ok(v) => required_as::<T>(entry_docs(entries@), name) == Ok::<T::V, ShapeError>(v@),
            Err(e) => required_as::<T>(entry_docs(entries@), name) == Err::<T::V, ShapeError>(e),
        },
{
    let item = find_required(entries, name)?;
    T::from_item(item)
}

/// Order is kept in a list. Where an array decodes, the result has as many
/// elements as the array, and the element at each place is what the
/// array's element at that place decodes to.
pub proof fn lemma_list_keeps_order<T: FromItem>(items: Seq<Doc>)
    requires
        each_decoded::<T>(items) is Ok,
    ensures
        each_decoded::<T>(items)->Ok_0.len() == items.len(),
        forall|i: int|
            0 <= i < items.len() ==> T::decoded(#[trigger] items[i]) == Ok::<T::V, ShapeError>(
                each_decoded::<T>(items)->Ok_0[i],
            ),
    decreases items.len(),
{
    if items.len() > 0 {
        lemma_list_keeps_order::<T>(items.drop_last());
        let front = each_decoded::<T>(items.drop_last())->Ok_0;
        assert forall|i: int| 0 <= i < items.len() implies T::decoded(#[trigger] items[i]) == Ok::<
            T::V,
            ShapeError,
        >(each_decoded::<T>(items)->Ok_0[i]) by {
            if i < items.len() - 1 {
                assert(items.drop_last()[i] == items[i]);
            }
        }
    }
}

/// A list decodes where each of its elements does.
pub proof fn lemma_list_decodes<T: FromItem>(items: Seq<Doc>)
    requires
        forall|i: int| 0 <= i < items.len() ==> T::decoded(#[trigger] items[i]) is Ok,
    ensures
        each_decoded::<T>(items) is Ok,
    decreases items.len(),
{
    if items.len() > 0 {
        assert forall|i: int| 0 <= i < items.drop_last().len() implies T::decoded(
            #[trigger] items.drop_last()[i],
        ) is Ok by {
            assert(items.drop_last()[i] == items[i]);
        }
        lemma_list_decodes::<T>(items.drop_last());
        assert(items.last() == items[items.len() - 1]);
    }
}

/// Order is kept in a table. Where the entries of a map decode, the result
/// has as many pairs as the map has entries, repeated keys included, and the
/// pair at each place is what the entry at that place decodes to.
pub proof fn lemma_table_keeps_order<K: FromItem, V: FromItem>(entries: Seq<(Doc, Doc)>)
    requires
        entries_decoded::<K, V>(entries) is Ok,
    ensures
        entries_decoded::<K, V>(entries)->Ok_0.len() == entries.len(),
        forall|i: int|
            0 <= i < entries.len() ==> {
                &&& K::decoded((#[trigger] entries[i]).0) == Ok::<K::V, ShapeError>(
                    entries_decoded::<K, V>(entries)->Ok_0[i].0,
                )
                &&& V::decoded(entries[i].1) == Ok::<V::V, ShapeError>(
                    entries_decoded::<K, V>(entries)->Ok_0[i].1,
                )
            },
    decreases entries.len(),
{
    if entries.len() > 0 {
        lemma_table_keeps_order::<K, V>(entries.drop_last());
        assert forall|i: int| 0 <= i < entries.len() implies {
            &&& K::decoded((#[trigger] entries[i]).0) == Ok::<K::V, ShapeError>(
                entries_decoded::<K, V>(entries)->Ok_0[i].0,
            )
            &&& V::decoded(entries[i].1) == Ok::<V::V, ShapeError>(
                entries_decoded::<K, V>(entries)->Ok_0[i].1,
            )
        } by {
            if i < entries.len() - 1 {
                assert(entries.drop_last()[i] == entries[i]);
            }
        }
    }
}

/// A table decodes where the key and the value of each entry do.
pub proof fn lemma_table_decodes<K: FromItem, V: FromItem>(entries: Seq<(Doc, Doc)>)
    requires
        forall|i: int|
            0 <= i < entries.len() ==> K::decoded((#[trigger] entries[i]).0) is Ok && V::decoded(
                entries[i].1,
            ) is Ok,
    ensures
        entries_decoded::<K, V>(entries) is Ok,
    decreases entries.len(),
{
    if entries.len() > 0 {
        assert forall|i: int| 0 <= i < entries.drop_last().len() implies K::decoded(
            (#[trigger] entries.drop_last()[i]).0,
        ) is Ok && V::decoded(entries.drop_last()[i].1) is Ok by {
            assert(entries.drop_last()[i] == entries[i]);
        }
        lemma_table_decodes::<K, V>(entries.drop_last());
        assert(entries.last() == entries[entries.len() - 1]);
    }
}

/// A field that is left out and a field that holds the empty map decode to
/// the same table, the empty one; so does the empty marker.
pub proof fn lemma_absent_is_empty<K: FromItem, V: FromItem>()
    ensures
        optional_table_decoded::<K, V>(None) == Ok::<Seq<(K::V, V::V)>, ShapeError>(Seq::empty()),
        optional_table_decoded::<K, V>(Some(Doc::Dict(Seq::empty()))) == optional_table_decoded::<
            K,
            V,
        >(None),
        optional_table_decoded::<K, V>(Some(Doc::Null)) == optional_table_decoded::<K, V>(None),
{
}

/// The map that a list of pairs gives when the pairs are put into it one
/// after the other: of two pairs with one key, the later one stays.
pub open spec fn collected<V>(pairs: Seq<(u32, V)>) -> Map<u32, V>
    decreases pairs.len(),
{
    if pairs.len() == 0 {
        Map::empty()
    } else {
        collected(pairs.drop_last()).insert(pairs.last().0, pairs.last().1)
    }
}

/// What a document decodes to as an index from ids to `V`: the entries of a
/// map, collected by key.
pub open spec fn index_decoded<V: FromItem>(doc: Doc) -> Result<Map<u32, V::V>, ShapeError> {
    match doc {
        Doc::Dict(entries) => match entries_decoded::<u32, V>(entries) {
            Ok(pairs) => Ok(collected(pairs)),
            Err(e) => Err(e),
        },
        _ => Err(ShapeError::Mismatch(Kind::Table)),
    }
}

/// Decodes a map into an index by id. Where a key occurs more than once,
/// the value of its last entry is kept.
pub fn decode_index<V: FromItem>(item: &Item) -> (r: Result<HashMap<u32, V>, ShapeError>)
    ensures
        match r {
            Ok(index) => index_decoded::<V>(item@) == Ok::<Map<u32, V::V>, ShapeError>(
                value_views(index@),
            ),
            Err(e) => index_decoded::<V>(item@) == Err::<Map<u32, V::V>, ShapeError>(e),
        },
{
    match item {
        Item::Dict(entries) => {
            let ghost all = entry_docs(entries@);
            let ghost mut pairs = Seq::<(u32, V::V)>::empty();
            let mut out: HashMap<u32, V> = HashMap::new();
            let mut i: usize = 0;
            assert(value_views(out@) =~= collected(pairs));
            while i < entries.len()
                invariant
                    i <= entries.len(),
                    all == entry_docs(entries@),
                    item@ == Doc::Dict(all),
                    entries_decoded::<u32, V>(all.take(i as int)) == Ok::<
                        Seq<(u32, V::V)>,
                        ShapeError,
                    >(pairs),
                    value_views(out@) == collected(pairs),
                decreases entries.len() - i,
            {
                proof {
                    assert(all.take(i + 1).drop_last() =~= all.take(i as int));
                    let entry = entries@[i as int];
                    assert(all.take(i + 1).last() == (entry.0@, entry.1@));
                }
                let k = match u32::from_item(&entries[i].0) {
                    Ok(k) => k,
                    Err(e) => {
                        proof {
                            lemma_entries_decoded_fails::<u32, V>(all, i + 1);
                        }
                        return Err(e);
                    },
                };
                let v = match V::from_item(&entries[i].1) {
                    Ok(v) => v,
                    Err(e) => {
                        proof {
                            lemma_entries_decoded_fails::<u32, V>(all, i + 1);
                        }
                        return Err(e);
                    },
                };
                let ghost before = out@;
                let ghost front = pairs;
                proof {
                    pairs = pairs.push((k, v@));
                    assert(pairs.drop_last() =~= front);
                }
                out.insert(k, v);
                assert(value_views(out@) =~= value_views(before).insert(k, v@));
                i += 1;
            }
            assert(all.take(i as int) =~= all);
            Ok(out)
        },
        _ => Err(ShapeError::Mismatch(Kind::Table)),
    }
}

/// What the field `name`, which a record must hold, decodes to as a list.
pub open spec fn required_list<T: FromItem>(entries: Seq<(Doc, Doc)>, name: &'static str) -> Result<
    Seq<T::V>,
    ShapeError,
> {
    match required(entries, name) {
        Ok(doc) => list_decoded::<T>(doc),
        Err(e) => Err(e),
    }
}

/// What the field `name`, which a record must hold, decodes to as a table.
pub open spec fn required_table<K: FromItem, V: FromItem>(
    entries: Seq<(Doc, Doc)>,
    name: &'static str,
) -> Result<Seq<(K::V, V::V)>, ShapeError> {
    match required(entries, name) {
        Ok(doc) => table_decoded::<K, V>(doc),
        Err(e) => Err(e),
    }
}

/// What the field `name`, which a record may leave out, decodes to as a
/// table.
pub open spec fn optional_table<K: FromItem, V: FromItem>(
    entries: Seq<(Doc, Doc)>,
    name: &'static str,
) -> Result<Seq<(K::V, V::V)>, ShapeError> {
    match field(entries, name) {
        Ok(found) => optional_table_decoded::<K, V>(found),
        Err(e) => Err(e),
    }
}

/// What the field `name`, which a record must hold, decodes to as an index.
pub open spec fn required_index<V: FromItem>(
    entries: Seq<(Doc, Doc)>,
    name: &'static str,
) -> Result<Map<u32, V::V>, ShapeError> {
    match required(entries, name) {
        Ok(doc) => index_decoded::<V>(doc),
        Err(e) => Err(e),
    }
}

/// What the field `name` decodes to as a `T` where the record may leave it
/// out or set it to `null`: nothing in both cases.
pub open spec fn optional_as<T: FromItem>(entries: Seq<(Doc, Doc)>, name: &'static str) -> Result<
    Option<T::V>,
    ShapeError,
> {
    match field(entries, name) {
        Err(e) => Err(e),
        Ok(None) => Ok(None),
        Ok(Some(Doc::Null)) => Ok(None),
        Ok(Some(doc)) => match T::decoded(doc) {
            Ok(v) => Ok(Some(v)),
            Err(e) => Err(e),
        },
    }
}

/// Decodes the field `name`, which the record must hold, as a list.
pub fn read_list<T: FromItem>(entries: &Vec<(Item, Item)>, name: &'static str) -> (r: Result<
    Vec<T>,
    ShapeError,
>)
    ensures
        match r {
            Ok(list) => required_list::<T>(entry_docs(entries@), name) == Ok::<
                Seq<T::V>,
                ShapeError,
            >(views(list@)),
            Err(e) => required_list::<T>(entry_docs(entries@), name) == Err::<
                Seq<T::V>,
                ShapeError,
            >(e),
        },
{
    let item = find_required(entries, name)?;
    decode_list(item)
}

/// Decodes the field `name`, which the record must hold, as a table.
pub fn read_table<K: FromItem, V: FromItem>(
    entries: &Vec<(Item, Item)>,
    name: &'static str,
) -> (r: Result<Vec<(K, V)>, ShapeError>)
    ensures
        match r {
            Ok(table) => required_table::<K, V>(entry_docs(entries@), name) == Ok::<
                Seq<(K::V, V::V)>,
                ShapeError,
            >(pair_views(table@)),
            Err(e) => required_table::<K, V>(entry_docs(entries@), name) == Err::<
                Seq<(K::V, V::V)>,
                ShapeError,
            >(e),
        },
{
    let item = find_required(entries, name)?;
    vecmap(item)
}

/// Decodes the field `name`, which the record may leave out, as a table.
pub fn read_optional_table<K: FromItem, V: FromItem>(
    entries: &Vec<(Item, Item)>,
    name: &'static str,
) -> (r: Result<Vec<(K, V)>, ShapeError>)
    ensures
        match r {
            Ok(table) => optional_table::<K, V>(entry_docs(entries@), name) == Ok::<
                Seq<(K::V, V::V)>,
                ShapeError,
            >(pair_views(table@)),
            Err(e) => optional_table::<K, V>(entry_docs(entries@), name) == Err::<
                Seq<(K::V, V::V)>,
                ShapeError,
            >(e),
        },
{
    let found = find_field(entries, name)?;
    vecmap_or_empty(found)
}

/// Decodes the field `name`, which the record must hold, as an index.
pub fn read_index<V: FromItem>(entries: &Vec<(Item, Item)>, name: &'static str) -> (r: Result<
    HashMap<u32, V>,
    ShapeError,
>)
    ensures
        match r {
            Ok(index) => required_index::<V>(entry_docs(entries@), name) == Ok::<
                Map<u32, V::V>,
                ShapeError,
            >(value_views(index@)),
            Err(e) => required_index::<V>(entry_docs(entries@), name) == Err::<
                Map<u32, V::V>,
                ShapeError,
            >(e),
        },
{
    let item = find_required(entries, name)?;
    decode_index(item)
}

/// Decodes the field `name` as a `T`, or as nothing where the record leaves
/// it out or sets it to `null`.
pub fn read_optional<T: FromItem>(entries: &Vec<(Item, Item)>, name: &'static str) -> (r: Result<
    Option<T>,
    ShapeError,
>)
    ensures
        match r {
            Ok(Some(v)) => optional_as::<T>(entry_docs(entries@), name) == Ok::<
                Option<T::V>,
                ShapeError,
            >(Some(v@)),
            Ok(None) => optional_as::<T>(entry_docs(entries@), name) == Ok::<
                Option<T::V>,
                ShapeError,
            >(None),
            Err(e) => optional_as::<T>(entry_docs(entries@), name) == Err::<
                Option<T::V>,
                ShapeError,
            >(e),
        },
{
    match find_field(entries, name)? {
        None => Ok(None),
        Some(Item::Null) => Ok(None),
        Some(item) => {
            let v = T::from_item(item)?;
            Ok(Some(v))
        },
    }
}

} // verus!
