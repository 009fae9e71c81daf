use vstd::prelude::*;
use crate::decimal::decimal_chars;

verus! {

/// An entity of the game world, identified by the engine's stable bit
/// representation of its handle.
#[derive(Debug, Clone, Copy, PartialEq, Eq, Structural)]
pub struct EntityId(pub u64);

impl EntityId {
    /// The bits are those of a live entity's handle: a nonzero generation in
    /// the high half and the entity kind (top bit clear).
    pub open spec fn is_entity_handle(self) -> bool {
        0x1_0000_0000 <= self.0 < 0x8000_0000_0000_0000
    }
}

/// `text` is the engine's debug text of the entity whose handle has the bits
/// `bits`: its index (the low half of the bits) and its generation (the high
/// half) in decimal, in the order the fields of the engine's type are laid
/// out, which depends on the machine's byte order.
pub open spec fn is_entity_debug_text(bits: u64, text: Seq<char>) -> bool {
    let index = decimal_chars((bits % 0x1_0000_0000) as nat);
    let generation = decimal_chars((bits / 0x1_0000_0000) as nat);
    ||| text == "Entity { index: "@ + index + ", generation: "@ + generation + " }"@
    ||| text == "Entity { generation: "@ + generation + ", index: "@ + index + " }"@
}

/// `format!("{:?}", bevy::ecs::entity::Entity::from_bits(id.0))`: the engine's
/// debug text of the entity, which the derived `Debug` of the engine's type
/// writes from its two fields. `from_bits` panics on bits that are no entity
/// handle (a zero generation or a kind other than entity), which `requires`
/// leaves out. The order of the fields follows the machine's byte order, so
/// both orders are admitted.
#[verifier::external_body]
pub(crate) fn entity_debug(id: EntityId) -> (r: String)
    requires
        id.is_entity_handle(),
    ensures
        is_entity_debug_text(id.0, r@),
{
    format!("{:?}", bevy::ecs::entity::Entity::from_bits(id.0))
}

} // verus!
