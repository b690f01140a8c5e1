//! Constant buffers of the annotated tree.

use crate::ast::{SemanticAnalysisError, SemanticAnalysisErrorView};
use crate::model::result_model;
use crate::text::{decimal, push_decimal};
use crate::types::{Type, TypeView};
use super::{CONSTANT_BUFFER_INDEX, MAX_CONSTANT_BUFFERS};
use vstd::prelude::*;
use vstd::string::*;

verus! {

/// A constant buffer: its name, the slot it is bound to and the type of its
/// contents.
pub struct ConstantBuffer {
    name: String,
    slot: usize,
    cb_type: Type,
}

/// The model of a [`ConstantBuffer`].
pub struct ConstantBufferView {
    pub name: Seq<char>,
    pub slot: usize,
    pub cb_type: TypeView,
}

impl ConstantBufferView {
    /// The buffer with the given name, slot and type, or `SlotOutOfRange`
    /// where the slot is not below the number of slots.
    pub open spec fn new(name: Seq<char>, slot: usize, cb_type: TypeView) -> Result<
        ConstantBufferView,
        SemanticAnalysisErrorView,
    > {
        if slot >= MAX_CONSTANT_BUFFERS {
            Err(
                SemanticAnalysisErrorView::SlotOutOfRange(
                    "constant buffers"@,
                    slot,
                    MAX_CONSTANT_BUFFERS,
                ),
            )
        } else {
            Ok(ConstantBufferView { name, slot, cb_type })
        }
    }

    /// The buffer in HLSL: a `cbuffer` named after its slot and bound to
    /// the register `b` of that slot.
    pub open spec fn hlsl(self) -> Seq<char> {
        "cbuffer acsl_constant_buffer_"@ + decimal(self.slot as nat) + " : register(b"@ + decimal(
            self.slot as nat,
        ) + ") {\n    "@ + self.cb_type.hlsl() + " "@ + self.name + ";\n}\n"@
    }

    /// The buffer in GLSL: a uniform at the location of its slot.
    pub open spec fn glsl(self) -> Seq<char> {
        "layout(location = "@ + decimal((self.slot + CONSTANT_BUFFER_INDEX) as nat) + ") uniform "@
            + self.cb_type.glsl() + " "@ + self.name + ";\n"@
    }
}

/// A constant buffer has a slot below 32: a slot from 32 on gives
/// `SlotOutOfRange` with the slot and the number of slots, every slot below
/// gives the buffer.
pub proof fn constant_buffer_slots_are_below_32(name: Seq<char>, slot: usize, cb_type: TypeView)
    ensures
        slot >= 32 ==> ConstantBufferView::new(name, slot, cb_type) == Err::<
            ConstantBufferView,
            SemanticAnalysisErrorView,
        >(SemanticAnalysisErrorView::SlotOutOfRange("constant buffers"@, slot, 32)),
        slot < 32 ==> ConstantBufferView::new(name, slot, cb_type) == Ok::<
            ConstantBufferView,
            SemanticAnalysisErrorView,
        >(ConstantBufferView { name, slot, cb_type }),
{
}

impl ConstantBuffer {
    #[verifier::type_invariant]
    spec fn well_formed(&self) -> bool {
        self.slot < MAX_CONSTANT_BUFFERS
    }

    /// The model of this buffer.
    pub closed spec fn model(&self) -> ConstantBufferView {
        ConstantBufferView { name: self.name@, slot: self.slot, cb_type: self.cb_type@ }
    }

    /// A buffer in slot `slot`, which must be below 32.
    pub fn new(name: String, slot: usize, cb_type: Type) -> (r: Result<Self, SemanticAnalysisError>)
        ensures
            result_model(r) == ConstantBufferView::new(name@, slot, cb_type@),
    {
        if slot >= MAX_CONSTANT_BUFFERS {
            Err(
                SemanticAnalysisError::SlotOutOfRange("constant buffers", slot, MAX_CONSTANT_BUFFERS),
            )
        } else {
            Ok(ConstantBuffer { name, slot, cb_type })
        }
    }

    pub fn name(&self) -> (name: &str)
        ensures
            name@ == self@.name,
    {
        self.name.as_str()
    }

    pub fn slot(&self) -> (slot: usize)
        ensures
            slot == self@.slot,
            slot < MAX_CONSTANT_BUFFERS,
    {
        proof {
            use_type_invariant(self);
        }
        self.slot
    }

    pub fn cb_type(&self) -> (cb_type: &Type)
        ensures
            cb_type@ == self@.cb_type,
    {
        &self.cb_type
    }

    /// The buffer in HLSL.
    pub fn generate_hlsl(&self) -> (text: String)
        ensures
            text@ == self@.hlsl(),
    {
        let mut text = "cbuffer acsl_constant_buffer_".to_owned();
        push_decimal(&mut text, self.slot);
        text.append(" : register(b");
        push_decimal(&mut text, self.slot);
        text.append(") {\n    ");
        text.append(self.cb_type.hlsl().as_str());
        text.append(" ");
        text.append(self.name.as_str());
        text.append(";\n}\n");
        text
    }

    /// The buffer in GLSL.
    pub fn generate_glsl(&self) -> (text: String)
        ensures
            text@ == self@.glsl(),
    {
        proof {
            use_type_invariant(self);
        }
        let mut text = "layout(location = ".to_owned();
        push_decimal(&mut text, self.slot + CONSTANT_BUFFER_INDEX);
        text.append(") uniform ");
        text.append(self.cb_type.glsl().as_str());
        text.append(" ");
        text.append(self.name.as_str());
        text.append(";\n");
        text
    }
}

impl Clone for ConstantBuffer {
    fn clone(&self) -> (copy: Self)
        ensures
            copy@ == self@,
    {
        proof {
            use_type_invariant(self);
        }
        ConstantBuffer { name: self.name.clone(), slot: self.slot, cb_type: self.cb_type.clone() }
    }
}

impl DeepView for ConstantBuffer {
    type V = ConstantBufferView;

    open spec fn deep_view(&self) -> ConstantBufferView {
        self.model()
    }
}

impl View for ConstantBuffer {
    type V = ConstantBufferView;

    open spec fn view(&self) -> ConstantBufferView {
        self.model()
    }
}

} // verus!
