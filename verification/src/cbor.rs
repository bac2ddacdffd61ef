//! CBOR data items as the library holds them.
//!
//! Reading bytes is `cbor4ii`'s work. What it reads is handed over as an
//! [`Item`], a tree of plain values, and every contract of the library speaks
//! of an item through its [`Doc`], the same tree over `Seq` and `int`. Where
//! it reads nothing, its error is handed over as a [`Cause`].

use vstd::prelude::*;

verus! {

/// One CBOR data item.
#[derive(Debug, PartialEq, Eq)]
pub enum Item {
    /// `null` or `undefined`.
    Null,
    Bool(bool),
    /// An unsigned or a negative integer.
    Integer(i128),
    /// A floating-point number, kept as the bits of its double-precision form.
    /// A number of single precision is widened first.
    Float(u64),
    /// A byte string; the chunks of an indefinite-length one are joined.
    Bytes(Vec<u8>),
    /// A text string; the chunks of an indefinite-length one are joined.
    Text(String),
    Array(Vec<Item>),
    /// A map, as the list of its entries in the order of the encoding.
    Dict(Vec<(Item, Item)>),
    Tag(u64, Box<Item>),
    /// An item of a kind that this library has no name for.
    Unknown,
}

/// The mathematical value of an [`Item`]. Of a floating-point number it
/// says that it is one and not which: the bits that a not-a-number comes out
/// with are not fixed by the bytes it was read from.
pub ghost enum Doc {
    Null,
    Bool(bool),
    Integer(int),
    Float,
    Bytes(Seq<u8>),
    Text(Seq<char>),
    Array(Seq<Doc>),
    Dict(Seq<(Doc, Doc)>),
    Tag(u64, Box<Doc>),
    Unknown,
}

impl Item {
    /// The document that this item stands for.
    pub open spec fn doc(self) -> Doc
        decreases self,
    {
        match self {
            Item::Null => Doc::Null,
            Item::Bool(b) => Doc::Bool(b),
            Item::Integer(i) => Doc::Integer(i as int),
            Item::Float(_) => Doc::Float,
            Item::Bytes(b) => Doc::Bytes(b@),
            Item::Text(s) => Doc::Text(s@),
            Item::Array(a) => Doc::Array(
                Seq::new(
                    a.len() as nat,
                    |i: int|
                        if 0 <= i < a.len() {
                            a[i].doc()
                        } else {
                            Doc::Null
                        },
                ),
            ),
            Item::Dict(m) => Doc::Dict(
                Seq::new(
                    m.len() as nat,
                    |i: int|
                        if 0 <= i < m.len() {
                            (m[i].0.doc(), m[i].1.doc())
                        } else {
                            (Doc::Null, Doc::Null)
                        },
                ),
            ),
            Item::Tag(t, b) => Doc::Tag(t, Box::new((*b).doc())),
            Item::Unknown => Doc::Unknown,
        }
    }
}

impl View for Item {
    type V = Doc;

    open spec fn view(&self) -> Doc {
        self.doc()
    }
}

/// The documents of a list of items, one for one.
pub open spec fn docs(items: Seq<Item>) -> Seq<Doc> {
    Seq::new(items.len(), |i: int| items[i]@)
}

/// The documents of a list of entries, one for one.
pub open spec fn entry_docs(entries: Seq<(Item, Item)>) -> Seq<(Doc, Doc)> {
    Seq::new(entries.len(), |i: int| (entries[i].0@, entries[i].1@))
}

/// The document of an array is the list of its elements' documents.
pub broadcast proof fn lemma_array_doc(items: Vec<Item>)
    ensures
        #[trigger] Item::Array(items)@ == Doc::Array(docs(items@)),
{
    assert(Item::Array(items).doc()->Array_0 =~= docs(items@));
}

/// The document of a map is the list of its entries' documents.
pub broadcast proof fn lemma_dict_doc(entries: Vec<(Item, Item)>)
    ensures
        #[trigger] Item::Dict(entries)@ == Doc::Dict(entry_docs(entries@)),
{
    assert(Item::Dict(entries).doc()->Dict_0 =~= entry_docs(entries@));
}

/// The ways in which `cbor4ii` finds that bytes are no data item.
#[derive(Debug, Clone, Copy, PartialEq, Eq, Structural)]
pub enum Fault {
    /// A byte is not of the kind that must stand at its place.
    Mismatch,
    /// A byte starts an item of a kind that is not read.
    Unsupported,
    /// The bytes end before the item does.
    Eof,
    /// A length is needed and none, or not the right one, is given.
    RequireLength,
    /// Bytes that must be taken from the input as they lie cannot be.
    RequireBorrowed,
    /// A text is not valid UTF-8.
    RequireUtf8,
    /// A length is larger than what is to hold it.
    LengthOverflow,
    /// A number does not fit the type it is read as.
    CastOverflow,
    /// A number cannot be computed within its type.
    ArithmeticOverflow,
    /// Items are nested more deeply than the reader allows.
    DepthOverflow,
    /// A fault of a decoder outside `cbor4ii`.
    Custom,
    /// A fault that has no name here.
    Other,
}

/// Why bytes are no data item: the way of the fault, and `cbor4ii`'s own
/// account of it, which names what was being read and what was found.
#[derive(Debug, Clone, PartialEq, Eq)]
pub struct Cause {
    pub kind: Fault,
    pub detail: String,
}

pub ghost struct CauseView {
    pub kind: Fault,
    pub detail: Seq<char>,
}

impl View for Cause {
    type V = CauseView;

    open spec fn view(&self) -> CauseView {
        CauseView { kind: self.kind, detail: self.detail@ }
    }
}

/// `cbor4ii`'s own tree of a data item. Nothing is known of it here but
/// [`value_doc`].
#[verifier::external_type_specification]
#[verifier::external_body]
pub struct ExValue(cbor4ii::core::Value);

type Tree = cbor4ii::core::Value;

/// `cbor4ii`'s error of decoding. Nothing is known of it here but
/// [`error_cause`].
#[verifier::external_type_specification]
#[verifier::external_body]
#[verifier::reject_recursive_types(E)]
pub struct ExDecodeError<E>(cbor4ii::core::error::DecodeError<E>);

type Fail = cbor4ii::core::error::DecodeError<core::convert::Infallible>;

/// What `cbor4ii` reads at the start of `bytes`: the first data item, or
/// the cause for which the bytes do not start with one that it accepts.
pub uninterp spec fn cbor_doc(bytes: Seq<u8>) -> Result<Doc, CauseView>;

/// The document that a value of `cbor4ii` holds.
pub uninterp spec fn value_doc(value: cbor4ii::core::Value) -> Doc;

/// The cause that an error of `cbor4ii` holds: its variant, and its `Debug`
/// rendering.
pub uninterp spec fn error_cause(
    error: cbor4ii::core::error::DecodeError<core::convert::Infallible>,
) -> CauseView;

/// Calls `cbor4ii`'s decoder for `Value` on a `SliceReader` over `bytes`.
/// The decoder reads one data item from the start of the slice and leaves
/// what follows unread. Which item it reads, or which error it ends with,
/// depends on the bytes alone, but for one thing: a not-a-number of single
/// precision is widened, and the bits it then has are not fixed. The
/// document of a float holds no bits, so the contract can give the outcome
/// its name; it claims nothing more of it.
#[verifier::external_body]
fn read_value(bytes: &[u8]) -> (r: Result<
    cbor4ii::core::Value,
    cbor4ii::core::error::DecodeError<core::convert::Infallible>,
>)
    ensures
        r is Ok ==> cbor_doc(bytes@) == Ok::<Doc, CauseView>(value_doc(r->Ok_0)),
        r is Err ==> cbor_doc(bytes@) == Err::<Doc, CauseView>(error_cause(r->Err_0)),
{
    cbor4ii::core::dec::Decode::decode(&mut cbor4ii::core::utils::SliceReader::new(bytes))
}

/// Moves a `cbor4ii` value into an [`Item`], variant for variant. A float is
/// kept by `f64::to_bits`; its document says only that it is a float.
#[verifier::external_body]
fn lift(value: Tree) -> (r: Item)
    ensures
        r@ == value_doc(value),
{
    match value {
        Tree::Null => Item::Null,
        Tree::Bool(b) => Item::Bool(b),
        Tree::Integer(i) => Item::Integer(i),
        Tree::Float(f) => Item::Float(f.to_bits()),
        Tree::Bytes(b) => Item::Bytes(b),
        Tree::Text(s) => Item::Text(s),
        Tree::Array(a) => Item::Array(a.into_iter().map(lift).collect()),
        Tree::Map(m) => Item::Dict(m.into_iter().map(|e| (lift(e.0), lift(e.1))).collect()),
        Tree::Tag(t, b) => Item::Tag(t, Box::new(lift(*b))),
        _ => Item::Unknown,
    }
}

/// Moves an error of `cbor4ii` into a [`Cause`]: the kind tells its variant,
/// the detail is what its derived `Debug` writes.
#[verifier::external_body]
fn describe(error: Fail) -> (r: Cause)
    ensures
        r@ == error_cause(error),
{
    let kind = match &error {
        Fail::Mismatch { .. } => Fault::Mismatch,
        Fail::Unsupported { .. } => Fault::Unsupported,
        Fail::Eof { .. } => Fault::Eof,
        Fail::RequireLength { .. } => Fault::RequireLength,
        Fail::RequireBorrowed { .. } => Fault::RequireBorrowed,
        Fail::RequireUtf8 { .. } => Fault::RequireUtf8,
        Fail::LengthOverflow { .. } => Fault::LengthOverflow,
        Fail::CastOverflow { .. } => Fault::CastOverflow,
        Fail::ArithmeticOverflow { .. } => Fault::ArithmeticOverflow,
        Fail::DepthOverflow { .. } => Fault::DepthOverflow,
        Fail::Custom { .. } => Fault::Custom,
        _ => Fault::Other,
    };
    Cause { kind, detail: format!("{:?}", error) }
}

/// Reads the data item at the start of `bytes`. Bytes after it are not
/// looked at.
pub fn parse(bytes: &[u8]) -> (r: Result<Item, Cause>)
    ensures
        r is Ok ==> cbor_doc(bytes@) == Ok::<Doc, CauseView>(r->Ok_0@),
        r is Err ==> cbor_doc(bytes@) == Err::<Doc, CauseView>(r->Err_0@),
{
    match read_value(bytes) {
        Ok(value) => Ok(lift(value)),
        Err(error) => Err(describe(error)),
    }
}

} // verus!
