use vstd::prelude::*;

verus! {

/// bson's ordered document, carried opaquely; its contents are known only
/// through `doc_keys` and the maps of its entries by kind of value.
#[verifier::external_type_specification]
#[verifier::external_body]
pub struct ExDocument(bson::Document);

/// The keys of a document, in their order.
pub uninterp spec fn doc_keys(d: bson::Document) -> Seq<Seq<char>>;

/// The entries of a document whose value is a string.
pub uninterp spec fn doc_strings(d: bson::Document) -> Map<Seq<char>, Seq<char>>;

/// The entries of a document whose value is an array, with its elements.
pub uninterp spec fn doc_arrays(d: bson::Document) -> Map<Seq<char>, Seq<bson::Bson>>;

/// The entries of a document whose value is an array of strings only, with
/// the text of its elements.
pub uninterp spec fn doc_str_arrays(d: bson::Document) -> Map<Seq<char>, Seq<Seq<char>>>;

/// The entries of a document whose value is a 32-bit integer.
pub uninterp spec fn doc_i32s(d: bson::Document) -> Map<Seq<char>, i32>;

/// The entries of a document whose value is a document.
pub uninterp spec fn doc_documents(d: bson::Document) -> Map<Seq<char>, bson::Document>;

/// Relies on the derived `Clone` of bson::Document: a clone is the same value.
pub assume_specification[ <bson::Document as Clone>::clone ](d: &bson::Document) -> (r:
    bson::Document)
    ensures
        r == *d,
;

/// Keys after inserting `k`: a key already present keeps its place, a new one
/// goes last.
pub open spec fn keys_after_insert(keys: Seq<Seq<char>>, k: Seq<char>) -> Seq<Seq<char>> {
    if keys.contains(k) {
        keys
    } else {
        keys.push(k)
    }
}

/// Keys after inserting each of `ks`, in order.
pub open spec fn keys_after_insert_all(keys: Seq<Seq<char>>, ks: Seq<Seq<char>>) -> Seq<
    Seq<char>,
>
    decreases ks.len(),
{
    if ks.len() == 0 {
        keys
    } else {
        keys_after_insert_all(keys_after_insert(keys, ks[0]), ks.drop_first())
    }
}

/// Relies on bson::Document::new: the document is empty.
#[verifier::external_body]
pub(crate) fn new_document() -> (r: bson::Document)
    ensures
        doc_keys(r) == Seq::<Seq<char>>::empty(),
        doc_strings(r).dom() == Set::<Seq<char>>::empty(),
        doc_arrays(r).dom() == Set::<Seq<char>>::empty(),
        doc_str_arrays(r).dom() == Set::<Seq<char>>::empty(),
        doc_i32s(r).dom() == Set::<Seq<char>>::empty(),
        doc_documents(r).dom() == Set::<Seq<char>>::empty(),
{
    bson::Document::new()
}

/// Relies on bson::Document::insert with a string value: the key keeps its
/// place or goes last, and now maps to the string.
#[verifier::external_body]
pub(crate) fn insert_str(d: &mut bson::Document, key: &str, value: &str)
    ensures
        doc_keys(*final(d)) == keys_after_insert(doc_keys(*old(d)), key@),
        doc_strings(*final(d)) == doc_strings(*old(d)).insert(key@, value@),
        doc_arrays(*final(d)) == doc_arrays(*old(d)).remove(key@),
        doc_str_arrays(*final(d)) == doc_str_arrays(*old(d)).remove(key@),
        doc_i32s(*final(d)) == doc_i32s(*old(d)).remove(key@),
        doc_documents(*final(d)) == doc_documents(*old(d)).remove(key@),
{
    d.insert(key, value);
}

/// Relies on bson::Document::insert with a 32-bit integer value: the key keeps
/// its place or goes last, and maps to the integer.
#[verifier::external_body]
pub(crate) fn insert_i32(d: &mut bson::Document, key: &str, value: i32)
    ensures
        doc_keys(*final(d)) == keys_after_insert(doc_keys(*old(d)), key@),
        doc_strings(*final(d)) == doc_strings(*old(d)).remove(key@),
        doc_arrays(*final(d)) == doc_arrays(*old(d)).remove(key@),
        doc_str_arrays(*final(d)) == doc_str_arrays(*old(d)).remove(key@),
        doc_i32s(*final(d)) == doc_i32s(*old(d)).insert(key@, value),
        doc_documents(*final(d)) == doc_documents(*old(d)).remove(key@),
{
    d.insert(key, value);
}

/// Relies on bson::Document::insert with an array value: the key keeps its
/// place or goes last, and maps to an array of these values.
#[verifier::external_body]
pub(crate) fn insert_array(d: &mut bson::Document, key: &str, values: Vec<bson::Bson>)
    ensures
        doc_keys(*final(d)) == keys_after_insert(doc_keys(*old(d)), key@),
        doc_strings(*final(d)) == doc_strings(*old(d)).remove(key@),
        doc_arrays(*final(d)) == doc_arrays(*old(d)).insert(key@, values@),
        doc_str_arrays(*final(d)).remove(key@) == doc_str_arrays(*old(d)).remove(key@),
        doc_i32s(*final(d)) == doc_i32s(*old(d)).remove(key@),
        doc_documents(*final(d)) == doc_documents(*old(d)).remove(key@),
{
    d.insert(key, values);
}

/// Relies on bson::Document::insert with an array of strings: the key keeps
/// its place or goes last, and maps to an array of these strings.
#[verifier::external_body]
pub(crate) fn insert_str_array(d: &mut bson::Document, key: &str, values: Vec<String>)
    ensures
        doc_keys(*final(d)) == keys_after_insert(doc_keys(*old(d)), key@),
        doc_strings(*final(d)) == doc_strings(*old(d)).remove(key@),
        doc_arrays(*final(d)).dom() == doc_arrays(*old(d)).dom().insert(key@),
        doc_arrays(*final(d))[key@].len() == values@.len(),
        doc_arrays(*final(d)).remove(key@) == doc_arrays(*old(d)).remove(key@),
        doc_str_arrays(*final(d)) == doc_str_arrays(*old(d)).insert(
            key@,
            values@.map_values(|s: String| s@),
        ),
        doc_i32s(*final(d)) == doc_i32s(*old(d)).remove(key@),
        doc_documents(*final(d)) == doc_documents(*old(d)).remove(key@),
{
    d.insert(key, values.into_iter().map(bson::Bson::String).collect::<Vec<bson::Bson>>());
}

/// Relies on the `Extend` impl of bson::Document, which inserts the entries of
/// `other` one by one in their order: its keys are added as by `insert`, and
/// its values replace those of equal keys.
#[verifier::external_body]
pub(crate) fn extend_document(d: &mut bson::Document, other: bson::Document)
    ensures
        doc_keys(*final(d)) == keys_after_insert_all(doc_keys(*old(d)), doc_keys(other)),
        doc_strings(*final(d)) == doc_strings(*old(d)).remove_keys(doc_keys(other).to_set()).union_prefer_right(doc_strings(other)),
        doc_arrays(*final(d)) == doc_arrays(*old(d)).remove_keys(doc_keys(other).to_set()).union_prefer_right(doc_arrays(other)),
        doc_str_arrays(*final(d)) == doc_str_arrays(*old(d)).remove_keys(doc_keys(other).to_set()).union_prefer_right(doc_str_arrays(other)),
        doc_i32s(*final(d)) == doc_i32s(*old(d)).remove_keys(doc_keys(other).to_set()).union_prefer_right(doc_i32s(other)),
        doc_documents(*final(d)) == doc_documents(*old(d)).remove_keys(doc_keys(other).to_set()).union_prefer_right(doc_documents(other)),
{
    d.extend(other);
}

/// Relies on bson::Document::insert with a document value: the key keeps its
/// place or goes last, and maps to the document.
#[verifier::external_body]
pub(crate) fn insert_document(d: &mut bson::Document, key: &str, value: bson::Document)
    ensures
        doc_keys(*final(d)) == keys_after_insert(doc_keys(*old(d)), key@),
        doc_strings(*final(d)) == doc_strings(*old(d)).remove(key@),
        doc_arrays(*final(d)) == doc_arrays(*old(d)).remove(key@),
        doc_str_arrays(*final(d)) == doc_str_arrays(*old(d)).remove(key@),
        doc_i32s(*final(d)) == doc_i32s(*old(d)).remove(key@),
        doc_documents(*final(d)) == doc_documents(*old(d)).insert(key@, value),
{
    d.insert(key, value);
}

} // verus!
