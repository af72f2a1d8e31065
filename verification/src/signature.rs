//! Canonical signatures of functions and events, and the selectors that
//! are derived from them.

use crate::abi::{canonical_type, canonical_types, AbiEvent, AbiFunction, AbiParam, ItemModel};
use crate::digest::{keccak256, keccak256_digest};
use crate::hexadecimal::{hex_encode, hex_text, is_lower_hex, lemma_hex_text_shape};
use crate::text::{join, joined, texts};
use vstd::prelude::*;
use vstd::slice::slice_subrange;
use vstd::string::StringExecFns;
use vstd::utf8::encode_utf8;

verus! {

/// The number of digest bytes in a function's selector.
pub const FUNCTION_SELECTOR_BYTES: usize = 4;

/// The number of digest bytes in an event's selector: the whole digest.
pub const EVENT_SELECTOR_BYTES: usize = 32;

/// The views of `types`, in order, an unresolved one as `None`.
pub open spec fn option_texts(types: Seq<Option<String>>) -> Seq<Option<Seq<char>>> {
    Seq::new(
        types.len(),
        |i: int|
            match types[i] {
                Some(ty) => Some(ty@),
                None => None,
            },
    )
}

/// The types of `types` that are resolved, in their order.
pub open spec fn resolved(types: Seq<Option<Seq<char>>>) -> Seq<Seq<char>>
    decreases types.len(),
{
    if types.len() == 0 {
        Seq::empty()
    } else {
        match types.last() {
            Some(ty) => resolved(types.drop_last()).push(ty),
            None => resolved(types.drop_last()),
        }
    }
}

/// The signature of an item called `name` whose parameters have the
/// canonical types `types`: the name, then the types in brackets with commas
/// between them and no whitespace.
pub open spec fn signature_text(name: Seq<char>, types: Seq<Seq<char>>) -> Seq<char> {
    name + seq!['('] + joined(types, seq![',']) + seq![')']
}

/// The text of a selector made of the first `width` bytes of `digest`:
/// `0x`, then two lowercase hexadecimal digits for each byte.
pub open spec fn selector_text(digest: Seq<u8>, width: int) -> Seq<char> {
    seq!['0', 'x'] + hex_text(digest.take(width))
}

/// Whether `text` is `0x` followed by `2 * width` lowercase hexadecimal
/// digits and nothing else.
pub open spec fn is_selector(text: Seq<char>, width: int) -> bool {
    &&& text.len() == 2 + 2 * width
    &&& text[0] == '0'
    &&& text[1] == 'x'
    &&& forall|i: int| 2 <= i < text.len() ==> is_lower_hex(#[trigger] text[i])
}

impl ItemModel {
    /// The canonical signature of the item.
    pub open spec fn signature(self) -> Seq<char> {
        signature_text(self.name, canonical_types(self.inputs))
    }

    /// The Keccak digest of the UTF-8 bytes of the item's signature.
    pub open spec fn signature_digest(self) -> Seq<u8> {
        keccak256_digest(encode_utf8(self.signature()))
    }

    /// The selector of the item as a function: four bytes of the digest.
    pub open spec fn function_selector(self) -> Seq<char> {
        selector_text(self.signature_digest(), FUNCTION_SELECTOR_BYTES as int)
    }

    /// The selector of the item as an event: the whole digest.
    pub open spec fn event_selector(self) -> Seq<char> {
        selector_text(self.signature_digest(), EVENT_SELECTOR_BYTES as int)
    }
}

/// A selector text over a digest of at least `width` bytes is `0x` and
/// `2 * width` lowercase hexadecimal digits.
pub proof fn lemma_selector_text_shape(digest: Seq<u8>, width: int)
    requires
        0 <= width <= digest.len(),
    ensures
        is_selector(selector_text(digest, width), width),
{
    let text = selector_text(digest, width);
    lemma_hex_text_shape(digest.take(width));
    assert forall|i: int| 2 <= i < text.len() implies is_lower_hex(#[trigger] text[i]) by {
        assert(text[i] == hex_text(digest.take(width))[i - 2]);
    }
}

/// The signature of an item called `name` whose parameters resolved to
/// `types`. A parameter whose type did not resolve (`None`) is left out: it
/// takes no place between the commas.
pub fn assemble_signature(name: &str, types: &Vec<Option<String>>) -> (signature: String)
    ensures
        signature@ == signature_text(name@, resolved(option_texts(types@))),
{
    let mut kept: Vec<String> = Vec::new();
    let mut i: usize = 0;
    while i < types.len()
        invariant
            i <= types.len(),
            texts(kept@) == resolved(option_texts(types@).take(i as int)),
        decreases types.len() - i,
    {
        proof {
            let all = option_texts(types@);
            assert(all.take(i + 1).drop_last() =~= all.take(i as int));
        }
        match &types[i] {
            Some(ty) => {
                kept.push(ty.clone());
                proof {
                    assert(texts(kept@) =~= texts(kept@.drop_last()).push(ty@));
                }
            },
            None => {},
        }
        i += 1;
    }
    proof {
        assert(option_texts(types@).take(types.len() as int) =~= option_texts(types@));
        reveal_strlit("(");
        reveal_strlit(",");
        reveal_strlit(")");
        assert("("@ =~= seq!['(']);
        assert(","@ =~= seq![',']);
        assert(")"@ =~= seq![')']);
    }
    let mut signature = String::from_str(name);
    signature.append("(");
    let list = join(&kept, ",");
    signature.append(list.as_str());
    signature.append(")");
    signature
}

/// The canonical types of `params`, each resolved.
fn resolve_types(params: &Vec<AbiParam>) -> (types: Vec<Option<String>>)
    ensures
        types@.len() == params@.len(),
        forall|i: int| 0 <= i < types@.len() ==> (#[trigger] types@[i]) is Some,
        resolved(option_texts(types@)) == canonical_types(crate::abi::param_models(params@)),
{
    let mut types: Vec<Option<String>> = Vec::new();
    let mut i: usize = 0;
    while i < params.len()
        invariant
            i <= params.len(),
            types@.len() == i,
            forall|j: int| 0 <= j < i ==> (#[trigger] types@[j]) is Some,
            forall|j: int|
                0 <= j < i ==> (#[trigger] types@[j])->0@ == params@[j]@.canonical_type(),
        decreases params.len() - i,
    {
        let ty = canonical_type(&params[i]);
        types.push(Some(ty));
        i += 1;
    }
    proof {
        lemma_resolved_of_all_some(option_texts(types@));
        assert(resolved(option_texts(types@)) =~= canonical_types(
            crate::abi::param_models(params@),
        ));
    }
    types
}

/// Where every type is resolved, all of them are kept, in their order.
pub proof fn lemma_resolved_of_all_some(types: Seq<Option<Seq<char>>>)
    requires
        forall|i: int| 0 <= i < types.len() ==> (#[trigger] types[i]) is Some,
    ensures
        resolved(types).len() == types.len(),
        forall|i: int| 0 <= i < types.len() ==> (#[trigger] resolved(types)[i]) == types[i]->0,
    decreases types.len(),
{
    if types.len() > 0 {
        lemma_resolved_of_all_some(types.drop_last());
    }
}

/// The canonical signature of `f`: its name, then the canonical types of its
/// parameters in brackets, with commas between them.
pub fn create_function_signature(f: &AbiFunction) -> (signature: String)
    ensures
        signature@ == f@.signature(),
{
    let types = resolve_types(&f.inputs);
    assemble_signature(f.name.as_str(), &types)
}

/// The canonical signature of `e`: its name, then the canonical types of its
/// parameters in brackets, with commas between them.
pub fn create_event_signature(e: &AbiEvent) -> (signature: String)
    ensures
        signature@ == e@.signature(),
{
    let types = resolve_types(&e.inputs);
    assemble_signature(e.name.as_str(), &types)
}

/// The text of the selector that the first `width` bytes of `digest` make.
fn selector_from_digest(digest: &[u8; 32], width: usize) -> (selector: String)
    requires
        width <= 32,
    ensures
        selector@ == selector_text(digest@, width as int),
        is_selector(selector@, width as int),
{
    let head = slice_subrange(digest.as_slice(), 0, width);
    let digits = hex_encode(head);
    proof {
        reveal_strlit("0x");
        assert("0x"@ =~= seq!['0', 'x']);
        assert(digest@.take(width as int) =~= digest@.subrange(0, width as int));
        lemma_selector_text_shape(digest@, width as int);
    }
    let mut selector = String::from_str("0x");
    selector.append(digits.as_str());
    selector
}

/// The selector of the function whose signature has the Keccak digest
/// `digest`: `0x` and the first four bytes in hexadecimal.
pub fn function_selector_from_digest(digest: &[u8; 32]) -> (selector: String)
    ensures
        selector@ == selector_text(digest@, 4),
        is_selector(selector@, 4),
{
    selector_from_digest(digest, FUNCTION_SELECTOR_BYTES)
}

/// The selector of the event whose signature has the Keccak digest
/// `digest`: `0x` and all 32 bytes in hexadecimal.
pub fn event_selector_from_digest(digest: &[u8; 32]) -> (selector: String)
    ensures
        selector@ == selector_text(digest@, 32),
        is_selector(selector@, 32),
{
    selector_from_digest(digest, EVENT_SELECTOR_BYTES)
}

/// The selector of `f`: `0x` and the first four bytes, in hexadecimal, of the
/// Keccak digest of its signature.
pub fn create_function_selector(f: &AbiFunction) -> (selector: String)
    ensures
        selector@ == f@.function_selector(),
        is_selector(selector@, 4),
{
    let signature = create_function_signature(f);
    let digest = keccak256(signature.as_str().as_bytes());
    function_selector_from_digest(&digest)
}

/// The selector of `e`: `0x` and the 32 bytes, in hexadecimal, of the Keccak
/// digest of its signature.
pub fn create_event_selector(e: &AbiEvent) -> (selector: String)
    ensures
        selector@ == e@.event_selector(),
        is_selector(selector@, 32),
{
    let signature = create_event_signature(e);
    let digest = keccak256(signature.as_str().as_bytes());
    event_selector_from_digest(&digest)
}

/// The resolved types of a list in two parts are those of the first part,
/// then those of the second.
pub proof fn lemma_resolved_of_parts(
    first: Seq<Option<Seq<char>>>,
    second: Seq<Option<Seq<char>>>,
)
    ensures
        resolved(first + second) == resolved(first) + resolved(second),
    decreases second.len(),
{
    if second.len() == 0 {
        assert(first + second =~= first);
        assert(resolved(first) + resolved(second) =~= resolved(first));
    } else {
        assert((first + second).drop_last() =~= first + second.drop_last());
        lemma_resolved_of_parts(first, second.drop_last());
        match second.last() {
            Some(ty) => {
                assert(resolved(first + second) =~= resolved(first) + resolved(second));
            },
            None => {},
        }
    }
}

/// An unresolved parameter is left out. Wherever it stands among the
/// parameters, the signature is that of the other parameters alone: it
/// leaves no empty place and no comma behind.
pub proof fn lemma_unresolved_is_left_out(
    name: Seq<char>,
    before: Seq<Option<Seq<char>>>,
    after: Seq<Option<Seq<char>>>,
)
    ensures
        signature_text(name, resolved(before + seq![None::<Seq<char>>] + after)) == signature_text(
            name,
            resolved(before + after),
        ),
{
    let unresolved = seq![None::<Seq<char>>];
    lemma_resolved_of_parts(before + unresolved, after);
    lemma_resolved_of_parts(before, unresolved);
    lemma_resolved_of_parts(before, after);
    assert(resolved(unresolved) =~= Seq::<Seq<char>>::empty()) by {
        reveal_with_fuel(resolved, 2);
        assert(unresolved.last() == None::<Seq<char>>);
        assert(unresolved.drop_last().len() == 0);
    }
    assert(resolved(before) + resolved(unresolved) =~= resolved(before));
}

/// Signature and selectors are determined by the name and the ordered list
/// of the parameters' types: two items that agree in these have the same
/// signature, the same function selector and the same event selector.
pub proof fn lemma_signature_is_determined(first: ItemModel, second: ItemModel)
    requires
        first.name == second.name,
        first.inputs.len() == second.inputs.len(),
        forall|i: int|
            0 <= i < first.inputs.len() ==> (#[trigger] first.inputs[i]).canonical_type()
                == second.inputs[i].canonical_type(),
    ensures
        first.signature() == second.signature(),
        first.function_selector() == second.function_selector(),
        first.event_selector() == second.event_selector(),
{
    assert(canonical_types(first.inputs) =~= canonical_types(second.inputs));
}

} // verus!
