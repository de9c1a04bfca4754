//! Sequences as the packages store them: nodes that run after and beside each other.

use vstd::prelude::*;

use crate::channels::Vec4Bits;
use crate::tag::{is_tag, tag_is_some};
use crate::technique::VariantOutOfRange;

verus! {

#[derive(Debug)]
pub struct SSequence {
    pub m_flow_nodes: Vec<SUnk808091f1>,
    pub m_work_nodes: Vec<SUnk808091f1>,
    pub m_channel_providers: Vec<SUnk8080816f>,
}

#[derive(Clone, Copy, Debug, PartialEq, Eq, Structural)]
pub struct SUnk8080816f {
    pub unk0: u32,
    pub unk4: u32,
    pub unk8: i64,
    pub unk10: i64,
    pub unk18: u32,
    pub unk30: u32,
}

/// A node of a sequence.
#[derive(Debug)]
pub struct SUnk808091f1 {
    pub owner_pointer: SUnk808091f1Variant,
}

/// What a node does, by its class.
#[derive(Debug)]
pub enum SUnk808091f1Variant {
    SSequenceGlobalChannel(SSequenceGlobalChannel),
    SSequenceFlowParallel(SSequenceFlowParallel),
    SUnk808091d9(SUnk808091d9),
    SUnk808091db(SUnk808091db),
    SUnk808091dd(SUnk808091dd),
    SUnk808091df(SUnk808091df),
    SUnk808091e1(SUnk808091e1),
    SUnk808091e5(SUnk808091e5),
    SSequenceDelay(SSequenceDelay),
    SSequenceDamageImpulse(SSequenceDamageImpulse),
    SSequenceAreaImpulse(SSequenceAreaImpulse),
    SSequenceScreenAreaFx(SSequenceScreenAreaFx),
    SSequenceLight(SSequenceLight),
    SSequenceLensFlare(SSequenceLensFlare),
    SSequenceEmbeddedParticleSystem(SSequenceEmbeddedParticleSystem),
    SSequenceAudioEvent(SSequenceAudioEvent),
    SUnk80802636Animation(SUnk80802636Animation),
    Unknown { class: u32 },
}

impl SUnk808091f1Variant {
    /// What all nodes of a known class have.
    pub open spec fn common(self) -> Option<SSequenceNodeBase> {
        match self {
            SUnk808091f1Variant::SSequenceGlobalChannel(node) => Some(node.base),
            SUnk808091f1Variant::SSequenceFlowParallel(node) => Some(node.base),
            SUnk808091f1Variant::SUnk808091d9(node) => Some(node.base),
            SUnk808091f1Variant::SUnk808091db(node) => Some(node.base),
            SUnk808091f1Variant::SUnk808091dd(node) => Some(node.base),
            SUnk808091f1Variant::SUnk808091df(node) => Some(node.base),
            SUnk808091f1Variant::SUnk808091e1(node) => Some(node.base),
            SUnk808091f1Variant::SUnk808091e5(node) => Some(node.base),
            SUnk808091f1Variant::SSequenceDelay(node) => Some(node.base),
            SUnk808091f1Variant::SSequenceDamageImpulse(node) => Some(node.base),
            SUnk808091f1Variant::SSequenceAreaImpulse(node) => Some(node.base),
            SUnk808091f1Variant::SSequenceScreenAreaFx(node) => Some(node.base),
            SUnk808091f1Variant::SSequenceLight(node) => Some(node.base),
            SUnk808091f1Variant::SSequenceLensFlare(node) => Some(node.base),
            SUnk808091f1Variant::SSequenceEmbeddedParticleSystem(node) => Some(node.base),
            SUnk808091f1Variant::SSequenceAudioEvent(node) => Some(node.base),
            SUnk808091f1Variant::SUnk80802636Animation(node) => Some(node.base),
            SUnk808091f1Variant::Unknown { .. } => None,
        }
    }

    pub fn base(&self) -> (base: Option<&SSequenceNodeBase>)
        ensures
            match base {
                Some(base) => self.common() == Some(*base),
                None => self.common() is None,
            },
    {
        match self {
            SUnk808091f1Variant::SSequenceGlobalChannel(node) => Some(&node.base),
            SUnk808091f1Variant::SSequenceFlowParallel(node) => Some(&node.base),
            SUnk808091f1Variant::SUnk808091d9(node) => Some(&node.base),
            SUnk808091f1Variant::SUnk808091db(node) => Some(&node.base),
            SUnk808091f1Variant::SUnk808091dd(node) => Some(&node.base),
            SUnk808091f1Variant::SUnk808091df(node) => Some(&node.base),
            SUnk808091f1Variant::SUnk808091e1(node) => Some(&node.base),
            SUnk808091f1Variant::SUnk808091e5(node) => Some(&node.base),
            SUnk808091f1Variant::SSequenceDelay(node) => Some(&node.base),
            SUnk808091f1Variant::SSequenceDamageImpulse(node) => Some(&node.base),
            SUnk808091f1Variant::SSequenceAreaImpulse(node) => Some(&node.base),
            SUnk808091f1Variant::SSequenceScreenAreaFx(node) => Some(&node.base),
            SUnk808091f1Variant::SSequenceLight(node) => Some(&node.base),
            SUnk808091f1Variant::SSequenceLensFlare(node) => Some(&node.base),
            SUnk808091f1Variant::SSequenceEmbeddedParticleSystem(node) => Some(&node.base),
            SUnk808091f1Variant::SSequenceAudioEvent(node) => Some(&node.base),
            SUnk808091f1Variant::SUnk80802636Animation(node) => Some(&node.base),
            SUnk808091f1Variant::Unknown { .. } => None,
        }
    }
}

#[derive(Debug)]
pub struct SSequenceGlobalChannel {
    pub base: SSequenceNodeBase,
    pub unk20: u32,
    pub unk24: u32,
    pub other_index: u32,
    pub unk2c: u32,
    pub bytecode: Vec<u8>,
    pub bytecode_constants: Vec<Vec4Bits>,
}

#[derive(Debug)]
pub struct SSequenceFlowParallel {
    pub base: SSequenceNodeBase,
    pub children: Vec<SSequenceNodeRef>,
}

#[derive(Debug)]
pub struct SUnk808091dd {
    pub base: SSequenceNodeBase,
    pub children: Vec<SSequenceNodeRef>,
}

#[derive(Debug)]
pub struct SUnk808091d9 {
    pub base: SSequenceNodeBase,
    pub children: Vec<SSequenceNodeRef>,
}

#[derive(Debug)]
pub struct SUnk808091df {
    pub base: SSequenceNodeBase,
    pub children: Vec<SSequenceNodeRef>,
}

#[derive(Debug)]
pub struct SUnk808091e5 {
    pub base: SSequenceNodeBase,
    pub children: Vec<SSequenceNodeRef>,
}

#[derive(Debug)]
pub struct SUnk808091db {
    pub base: SSequenceNodeBase,
    pub children: Vec<SSequenceNodeRef>,
}

#[derive(Debug)]
pub struct SUnk808091e1 {
    pub base: SSequenceNodeBase,
    pub children: Vec<SSequenceNodeRef>,
}

#[derive(Debug)]
pub struct SUnk80802636Animation {
    pub base: SSequenceNodeBase,
    pub layer_weight: Vec<()>,
    pub unk68: SUnk80809205,
}

#[derive(Clone, Copy, Debug, PartialEq, Eq, Structural)]
pub struct SSequenceDelay {
    pub base: SSequenceNodeBase,
}

#[derive(Clone, Copy, Debug, PartialEq, Eq, Structural)]
pub struct SSequenceDamageImpulse {
    pub base: SSequenceNodeBase,
    pub unk_3692abc1: SUnk80809205,
    pub unk_832a631d: SUnk80809205,
    pub unk_c2983c91: SUnk80809205,
    pub unk_6843cbea: SUnk80809205,
    pub unk_69060ef6: SUnk80809205,
}

#[derive(Clone, Copy, Debug, PartialEq, Eq, Structural)]
pub struct SSequenceAreaImpulse {
    pub base: SSequenceNodeBase,
    pub unk0x1cf4038f: SUnk80809205,
    pub unk0x98ddb465: SUnk80809205,
    pub unk0x1d974d72: SUnk80809205,
}

#[derive(Clone, Copy, Debug, PartialEq, Eq, Structural)]
pub struct SSequenceScreenAreaFx {
    pub base: SSequenceNodeBase,
    pub unk30: SUnk80809205,
    pub unk70: SUnk80809204,
}

/// A curve, of which nothing is read.
#[derive(Clone, Copy, Debug, PartialEq, Eq, Structural)]
pub struct SUnk80809205 {}

/// A pair of fades, of which nothing is read.
#[derive(Clone, Copy, Debug, PartialEq, Eq, Structural)]
pub struct SUnk80809204 {}

#[derive(Debug)]
pub struct SSequenceLight {
    pub base: SSequenceNodeBase,
    pub unk20: u32,
    pub light: u32,
    pub unk28: u32,
    pub unk2c: u32,
    pub unk30: Vec4Bits,
    pub unk40: Vec4Bits,
    pub unk50: u64,
    pub unk58: SUnknownEventExpressions,
}

#[derive(Debug)]
pub struct SSequenceLensFlare {
    pub base: SSequenceNodeBase,
    pub unk20: u32,
    pub flare: u32,
    pub unk40: SUnknownEventExpressions,
}

#[derive(Clone, Copy, Debug, PartialEq, Eq, Structural)]
pub struct SSequenceAudioEvent {
    pub base: SSequenceNodeBase,
    pub wwise_event: u64,
}

#[derive(Debug)]
pub struct SSequenceEmbeddedParticleSystem {
    pub base: SSequenceNodeBase,
    pub unk28: Vec<SUnk808067bb>,
    pub unk38: SUnk80809205,
    pub unk78: SUnk80809204,
}

#[derive(Debug)]
pub struct SUnk808067bb {
    pub unk0: Vec<u8>,
    pub particle_system: Option<SUnk80806920>,
    pub unk14: u32,
}

#[derive(Debug)]
pub struct SUnknownEventExpressions {
    pub unk00: SExpression,
    pub unk48: SExpression,
    pub unk88: SExpression,
}

/// The name of a node, its place in the sequence and its time, as single-precision patterns.
#[derive(Clone, Copy, Debug, PartialEq, Eq, Structural)]
pub struct SSequenceNodeBase {
    pub name: u32,
    pub unk4: u16,
    pub parent_index: u16,
    pub unk8: u32,
    pub unkc: u32,
    pub start_time: u32,
    pub unk14: u32,
    pub duration: u32,
    pub unk1c: u32,
}

#[derive(Debug)]
pub struct SExpression {
    pub bytecode: Vec<u8>,
    pub bytecode_constants: Vec<Vec4Bits>,
    pub unk20: u64,
    pub unk28: u64,
}

/// A node by its list and its place there.
#[derive(Clone, Copy, Debug, PartialEq, Eq, Structural, Hash)]
pub struct SSequenceNodeRef {
    pub kind: NodeKind,
    pub index: u16,
}

#[derive(Clone, Copy, Debug, PartialEq, Eq, Structural, Hash)]
pub enum NodeKind {
    Flow,
    Work,
}

impl NodeKind {
    /// The stored value of a list.
    pub open spec fn stored(self) -> u16 {
        match self {
            NodeKind::Flow => 0,
            NodeKind::Work => 1,
        }
    }

    /// The list with the given stored value.
    pub fn from_stored(value: u16) -> (result: Result<NodeKind, VariantOutOfRange>)
        ensures
            match result {
                Ok(kind) => kind.stored() == value,
                Err(error) => value > 1 && error.value == value,
            },
    {
        match value {
            0 => Ok(NodeKind::Flow),
            1 => Ok(NodeKind::Work),
            _ => Err(VariantOutOfRange { value: value as u32 }),
        }
    }
}

/// The techniques of a particle system.
#[derive(Clone, Copy, Debug, PartialEq, Eq, Structural)]
pub struct SUnk80806920 {
    pub unk0: u32,
    pub unk4: u32,
    pub unk8_compute_technique: u32,
    pub unkc_compute_technique: u32,
    pub unk10: u32,
    pub unk14_compute_technique: u32,
    pub unk18_raster_technique: u32,
}

impl SUnk80806920 {
    /// The particles are moved by compute techniques.
    pub fn is_gpu(&self) -> (gpu: bool)
        ensures
            gpu == (is_tag(self.unk8_compute_technique) || is_tag(self.unkc_compute_technique)
                || is_tag(self.unk14_compute_technique)),
    {
        tag_is_some(self.unk8_compute_technique) || tag_is_some(self.unkc_compute_technique)
            || tag_is_some(self.unk14_compute_technique)
    }
}

} // verus!
