//! Interface descriptions: typed parameters, functions and events, and the
//! canonical type of a parameter.

use crate::text::{joined, texts};
use alloy_json_abi::Param;
use vstd::prelude::*;

verus! {

/// A typed parameter of a function or an event.
#[derive(Debug)]
pub struct AbiParam {
    /// The declared type, with the word `tuple` standing for a compound type:
    /// `uint256`, `bytes[2]`, `tuple`, `tuple[]`.
    pub ty: String,
    /// The components of a compound type, in order; empty otherwise.
    pub components: Vec<AbiParam>,
}

/// A function of a contract's interface.
#[derive(Debug)]
pub struct AbiFunction {
    pub name: String,
    pub inputs: Vec<AbiParam>,
}

/// An event of a contract's interface.
#[derive(Debug)]
pub struct AbiEvent {
    pub name: String,
    pub inputs: Vec<AbiParam>,
}

/// The functions and events of one contract, in the order in which its
/// interface description lists them.
#[derive(Debug)]
pub struct ContractAbi {
    pub functions: Vec<AbiFunction>,
    pub events: Vec<AbiEvent>,
}

/// What a parameter is: its declared type and its components.
pub struct ParamModel {
    pub ty: Seq<char>,
    pub components: Seq<ParamModel>,
}

/// What a function or an event is: its name and its ordered parameters.
pub struct ItemModel {
    pub name: Seq<char>,
    pub inputs: Seq<ParamModel>,
}

/// What a contract's interface is: its functions and its events.
pub struct ContractModel {
    pub functions: Seq<ItemModel>,
    pub events: Seq<ItemModel>,
}

/// The model of `param`: its declared type and the models of its components.
pub open spec fn param_model(param: AbiParam) -> ParamModel
    decreases param,
{
    ParamModel { ty: param.ty@, components: param_models(param.components@) }
}

/// The models of the parameters of `params`, in order.
pub open spec fn param_models(params: Seq<AbiParam>) -> Seq<ParamModel>
    decreases params,
{
    Seq::new(
        params.len(),
        |i: int|
            if 0 <= i < params.len() {
                param_model(params[i])
            } else {
                arbitrary()
            },
    )
}

impl View for AbiParam {
    type V = ParamModel;

    open spec fn view(&self) -> ParamModel {
        param_model(*self)
    }
}

impl View for AbiFunction {
    type V = ItemModel;

    open spec fn view(&self) -> ItemModel {
        ItemModel { name: self.name@, inputs: param_models(self.inputs@) }
    }
}

impl View for AbiEvent {
    type V = ItemModel;

    open spec fn view(&self) -> ItemModel {
        ItemModel { name: self.name@, inputs: param_models(self.inputs@) }
    }
}

impl View for ContractAbi {
    type V = ContractModel;

    open spec fn view(&self) -> ContractModel {
        ContractModel {
            functions: Seq::new(self.functions@.len(), |i: int| self.functions@[i]@),
            events: Seq::new(self.events@.len(), |i: int| self.events@[i]@),
        }
    }
}

/// What follows the word `tuple` in a declared type that begins with it (the
/// array brackets of `tuple[]`, of `tuple[2][]`); nothing for a type that does
/// not begin with it.
pub open spec fn tuple_suffix(ty: Seq<char>) -> Seq<char> {
    if ty.len() >= 5 && ty.subrange(0, 5) == seq!['t', 'u', 'p', 'l', 'e'] {
        ty.subrange(5, ty.len() as int)
    } else {
        Seq::empty()
    }
}

/// The canonical type of a parameter of declared type `ty` whose components
/// have the canonical types `components`: the declared type itself where
/// there are no components, else the components' types in brackets, with
/// commas between them, followed by the array brackets of the declared type.
pub open spec fn selector_type_text(ty: Seq<char>, components: Seq<Seq<char>>) -> Seq<char> {
    if components.len() == 0 {
        ty
    } else {
        seq!['('] + joined(components, seq![',']) + seq![')'] + tuple_suffix(ty)
    }
}

impl ParamModel {
    /// The canonical type of the parameter, as it stands in the text that a
    /// selector is the hash of: `uint256`, `(uint256,address)`,
    /// `(uint256,address)[]`.
    pub open spec fn canonical_type(self) -> Seq<char>
        decreases self,
    {
        selector_type_text(self.ty, canonical_types(self.components))
    }
}

/// The canonical types of `params`, in order.
pub open spec fn canonical_types(params: Seq<ParamModel>) -> Seq<Seq<char>>
    decreases params,
{
    Seq::new(
        params.len(),
        |i: int|
            if 0 <= i < params.len() {
                params[i].canonical_type()
            } else {
                arbitrary()
            },
    )
}

/// Calls `alloy_json_abi::Param::selector_type` on a parameter of declared
/// type `ty` whose components are simple parameters of the declared types
/// `component_types`. For a parameter without components that call gives the
/// declared type. For one with components it gives an opening bracket, each
/// component's own selector type (for a simple component, its declared type)
/// with commas between them, a closing bracket, and then what follows the
/// prefix `tuple` of the declared type, if it has that prefix.
#[verifier::external_body]
fn selector_type(ty: &str, component_types: &Vec<String>) -> (text: String)
    ensures
        text@ == selector_type_text(ty@, texts(component_types@)),
{
    let mut components: Vec<Param> = Vec::new();
    for component in component_types.iter() {
        components.push(
            Param { ty: component.clone(), name: String::new(), components: Vec::new(), internal_type: None },
        );
    }
    let param = Param { ty: ty.to_string(), name: String::new(), components, internal_type: None };
    param.selector_type().into_owned()
}

/// The canonical type of `param`.
pub fn canonical_type(param: &AbiParam) -> (text: String)
    ensures
        text@ == param@.canonical_type(),
    decreases param,
{
    let mut component_types: Vec<String> = Vec::new();
    let mut i: usize = 0;
    while i < param.components.len()
        invariant
            i <= param.components.len(),
            component_types@.len() == i,
            forall|j: int|
                0 <= j < i ==> (#[trigger] component_types@[j])@ == param.components@[j]@.canonical_type(),
        decreases param.components.len() - i,
    {
        let component = canonical_type(&param.components[i]);
        component_types.push(component);
        i += 1;
    }
    proof {
        assert(texts(component_types@) =~= canonical_types(param@.components));
    }
    selector_type(param.ty.as_str(), &component_types)
}

} // verus!
