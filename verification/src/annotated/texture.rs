//! Textures of the annotated tree.

use crate::ast::{SemanticAnalysisError, SemanticAnalysisErrorView};
use crate::model::result_model;
use crate::text::{decimal, push_decimal};
use crate::types::{Type, TypeView};
use super::{MAX_TEXTURES, TEXTURES_INDEX};
use vstd::prelude::*;
use vstd::string::*;

verus! {

/// A texture: its name, the slot it is bound to and the type of its
/// elements.
pub struct Texture {
    name: String,
    slot: usize,
    texture_type: Type,
}

/// The model of a [`Texture`].
pub struct TextureView {
    pub name: Seq<char>,
    pub slot: usize,
    pub texture_type: TypeView,
}

impl TextureView {
    /// The texture with the given name, slot and element type, or
    /// `SlotOutOfRange` where the slot is not below the number of slots.
    pub open spec fn new(name: Seq<char>, slot: usize, texture_type: TypeView) -> Result<
        TextureView,
        SemanticAnalysisErrorView,
    > {
        if slot >= MAX_TEXTURES {
            Err(SemanticAnalysisErrorView::SlotOutOfRange("textures"@, slot, MAX_TEXTURES))
        } else {
            Ok(TextureView { name, slot, texture_type })
        }
    }

    /// Whether the texture is in order: its slot is below the number of
    /// slots and its elements are floats, float vectors or unsigned
    /// integers.
    pub open spec fn in_order(self) -> bool {
        self.slot < MAX_TEXTURES && (self.texture_type.is_float()
            || self.texture_type.is_float_vector() || self.texture_type.is_uint())
    }

    /// The texture in HLSL: a `Texture2D` of the element type bound to the
    /// register `t` of its slot, and its sampler state, named `acsl_`, the
    /// name of the texture and `_sampler_state`, bound to the register `s`
    /// of the slot.
    pub open spec fn hlsl(self) -> Seq<char> {
        "Texture2D<"@ + self.texture_type.hlsl() + "> "@ + self.name + " : register(t"@ + decimal(
            self.slot as nat,
        ) + ");\nSamplerState acsl_"@ + self.name + "_sampler_state : register(s"@ + decimal(
            self.slot as nat,
        ) + ");\n"@
    }

    /// The texture in GLSL: a sampler at the location of its slot behind
    /// those of the constant buffers; a `usampler2D` where the elements are
    /// unsigned integers.
    pub open spec fn glsl(self) -> Seq<char> {
        "layout(location = "@ + decimal((self.slot + TEXTURES_INDEX) as nat) + ") uniform "@ + (
        if self.texture_type.is_uint() {
            "u"@
        } else {
            Seq::empty()
        }) + "sampler2D "@ + self.name + ";\n"@
    }
}

/// A texture has a slot below 8: a slot from 8 on gives `SlotOutOfRange`
/// with the slot and the number of slots, every slot below gives the
/// texture.
pub proof fn texture_slots_are_below_8(name: Seq<char>, slot: usize, texture_type: TypeView)
    ensures
        slot >= 8 ==> TextureView::new(name, slot, texture_type) == Err::<
            TextureView,
            SemanticAnalysisErrorView,
        >(SemanticAnalysisErrorView::SlotOutOfRange("textures"@, slot, 8)),
        slot < 8 ==> TextureView::new(name, slot, texture_type) == Ok::<
            TextureView,
            SemanticAnalysisErrorView,
        >(TextureView { name, slot, texture_type }),
{
}

impl Texture {
    #[verifier::type_invariant]
    spec fn well_formed(&self) -> bool {
        self.slot < MAX_TEXTURES
    }

    /// The model of this texture.
    pub closed spec fn model(&self) -> TextureView {
        TextureView { name: self.name@, slot: self.slot, texture_type: self.texture_type@ }
    }

    /// A texture in slot `slot`, which must be below 8.
    pub fn new(name: String, slot: usize, texture_type: Type) -> (r: Result<Self, SemanticAnalysisError>)
        ensures
            result_model(r) == TextureView::new(name@, slot, texture_type@),
    {
        if slot >= MAX_TEXTURES {
            Err(SemanticAnalysisError::SlotOutOfRange("textures", slot, MAX_TEXTURES))
        } else {
            Ok(Texture { name, slot, texture_type })
        }
    }

    pub fn name(&self) -> (name: &str)
        ensures
            name@ == self@.name,
    {
        self.name.as_str()
    }

    pub fn slot(&self) -> (slot: usize)
        ensures
            slot == self@.slot,
            slot < MAX_TEXTURES,
    {
        proof {
            use_type_invariant(self);
        }
        self.slot
    }

    /// The texture in HLSL.
    pub fn generate_hlsl(&self) -> (text: String)
        ensures
            text@ == self@.hlsl(),
    {
        let mut text = "Texture2D<".to_owned();
        text.append(self.texture_type.hlsl().as_str());
        text.append("> ");
        text.append(self.name.as_str());
        text.append(" : register(t");
        push_decimal(&mut text, self.slot);
        text.append(");\nSamplerState acsl_");
        text.append(self.name.as_str());
        text.append("_sampler_state : register(s");
        push_decimal(&mut text, self.slot);
        text.append(");\n");
        text
    }

    /// The texture in GLSL.
    pub fn generate_glsl(&self) -> (text: String)
        ensures
            text@ == self@.glsl(),
    {
        proof {
            use_type_invariant(self);
        }
        let mut text = "layout(location = ".to_owned();
        push_decimal(&mut text, self.slot + TEXTURES_INDEX);
        text.append(") uniform ");
        if self.texture_type.is_uint() {
            text.append("u");
        }
        text.append("sampler2D ");
        text.append(self.name.as_str());
        text.append(";\n");
        assert(text@ =~= self@.glsl());
        text
    }
}

impl Clone for Texture {
    fn clone(&self) -> (copy: Self)
        ensures
            copy@ == self@,
    {
        proof {
            use_type_invariant(self);
        }
        Texture {
            name: self.name.clone(),
            slot: self.slot,
            texture_type: self.texture_type.clone(),
        }
    }
}

impl DeepView for Texture {
    type V = TextureView;

    open spec fn deep_view(&self) -> TextureView {
        self.model()
    }
}

impl View for Texture {
    type V = TextureView;

    open spec fn view(&self) -> TextureView {
        self.model()
    }
}

} // verus!
