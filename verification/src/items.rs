//! The items of the game and what is known of each.

use vstd::prelude::*;

verus! {

/// What an item is for.
#[derive(Debug, Clone, Copy, PartialEq, Eq, Hash, Structural)]
pub enum ItemCategory {
    Food,
    Tool,
    Prank,
    Utility,
}

/// The definition of one item.
#[derive(Debug, Clone, Copy, PartialEq, Eq, Hash)]
pub struct ItemDef {
    pub id: &'static str,
    pub name: &'static str,
    pub category: ItemCategory,
    /// How many of the item fit in one stack.
    pub stack_size: u32,
    pub description: &'static str,
}

/// The items of the game, in their fixed order.
pub open spec fn item_registry_spec() -> Seq<ItemDef> {
    seq![
        ItemDef {
            id: "food_burger",
            name: "Burger",
            category: ItemCategory::Food,
            stack_size: 8,
            description: "Hearty burger. Restores hunger.",
        },
        ItemDef {
            id: "food_apple",
            name: "Apple",
            category: ItemCategory::Food,
            stack_size: 16,
            description: "Simple fruit. Small hunger restore.",
        },
        ItemDef {
            id: "tool_shovel",
            name: "Shovel",
            category: ItemCategory::Tool,
            stack_size: 1,
            description: "Dig ground to collect dirt.",
        },
        ItemDef {
            id: "tool_hoe",
            name: "Hoe",
            category: ItemCategory::Tool,
            stack_size: 1,
            description: "Till grass into dirt.",
        },
        ItemDef {
            id: "tool_torch",
            name: "Torch",
            category: ItemCategory::Tool,
            stack_size: 1,
            description: "Lights up dark places.",
        },
        ItemDef {
            id: "prank_stinkbomb",
            name: "Stink Bomb",
            category: ItemCategory::Prank,
            stack_size: 4,
            description: "Create chaos briefly.",
        },
        ItemDef {
            id: "prank_paperplane",
            name: "Paper Plane",
            category: ItemCategory::Prank,
            stack_size: 16,
            description: "Silly diversion.",
        },
        ItemDef {
            id: "utility_dirt",
            name: "Dirt",
            category: ItemCategory::Utility,
            stack_size: 64,
            description: "Collected from grass. Used in crafting.",
        },
    ]
}

/// The items of the game, in their fixed order.
pub fn item_registry() -> (registry: Vec<ItemDef>)
    ensures
        registry@ == item_registry_spec(),
        registry@.len() == 8,
        forall|i: int| 0 <= i < registry@.len() ==> (#[trigger] registry@[i]).stack_size >= 1,
{
    let mut registry: Vec<ItemDef> = Vec::new();
    registry.push(
        ItemDef {
            id: "food_burger",
            name: "Burger",
            category: ItemCategory::Food,
            stack_size: 8,
            description: "Hearty burger. Restores hunger.",
        },
    );
    registry.push(
        ItemDef {
            id: "food_apple",
            name: "Apple",
            category: ItemCategory::Food,
            stack_size: 16,
            description: "Simple fruit. Small hunger restore.",
        },
    );
    registry.push(
        ItemDef {
            id: "tool_shovel",
            name: "Shovel",
            category: ItemCategory::Tool,
            stack_size: 1,
            description: "Dig ground to collect dirt.",
        },
    );
    registry.push(
        ItemDef {
            id: "tool_hoe",
            name: "Hoe",
            category: ItemCategory::Tool,
            stack_size: 1,
            description: "Till grass into dirt.",
        },
    );
    registry.push(
        ItemDef {
            id: "tool_torch",
            name: "Torch",
            category: ItemCategory::Tool,
            stack_size: 1,
            description: "Lights up dark places.",
        },
    );
    registry.push(
        ItemDef {
            id: "prank_stinkbomb",
            name: "Stink Bomb",
            category: ItemCategory::Prank,
            stack_size: 4,
            description: "Create chaos briefly.",
        },
    );
    registry.push(
        ItemDef {
            id: "prank_paperplane",
            name: "Paper Plane",
            category: ItemCategory::Prank,
            stack_size: 16,
            description: "Silly diversion.",
        },
    );
    registry.push(
        ItemDef {
            id: "utility_dirt",
            name: "Dirt",
            category: ItemCategory::Utility,
            stack_size: 64,
            description: "Collected from grass. Used in crafting.",
        },
    );
    assert(registry@ =~= item_registry_spec());
    registry
}

} // verus!
