//! The names under which the parts of the game are registered.

use vstd::prelude::*;

verus! {

#[derive(Debug, Copy, Clone, PartialEq, Eq, Hash, Structural)]
pub enum KnownSystems {
    // Internal Systems
    ControlSystem,
    Debug,
    InputSystem,
    NetworkSystem,
    SpriteLoader,
    // Systems of the game framework
    FlyMovement,
    FPSCounter,
    HideHierarchy,
    Input,
    ParentHierarchy,
    SpriteSheetProcessor,
    TextureProcessor,
    TransformSystem,
}

impl KnownSystems {
    pub open spec fn spec_name(self) -> Seq<char> {
        match self {
            KnownSystems::ControlSystem => "control_system"@,
            KnownSystems::Debug => "debug_system"@,
            KnownSystems::InputSystem => "my_input_system"@,
            KnownSystems::NetworkSystem => "network_system"@,
            KnownSystems::SpriteLoader => "sprite_loader_system"@,
            KnownSystems::FlyMovement => "fly_movement"@,
            KnownSystems::FPSCounter => "fps_counter_system"@,
            KnownSystems::HideHierarchy => "hide_hierarchy_system"@,
            KnownSystems::Input => "input_system"@,
            KnownSystems::ParentHierarchy => "parent_hierarchy_system"@,
            KnownSystems::SpriteSheetProcessor => "sprite_sheet_processor"@,
            KnownSystems::TextureProcessor => "texture_processor"@,
            KnownSystems::TransformSystem => "transform_system"@,
        }
    }

    /// The name under which the system is registered.
    pub fn name(&self) -> (name: &'static str)
        ensures
            name@ == self.spec_name(),
    {
        match self {
            KnownSystems::ControlSystem => "control_system",
            KnownSystems::Debug => "debug_system",
            KnownSystems::InputSystem => "my_input_system",
            KnownSystems::NetworkSystem => "network_system",
            KnownSystems::SpriteLoader => "sprite_loader_system",
            KnownSystems::FlyMovement => "fly_movement",
            KnownSystems::FPSCounter => "fps_counter_system",
            KnownSystems::HideHierarchy => "hide_hierarchy_system",
            KnownSystems::Input => "input_system",
            KnownSystems::ParentHierarchy => "parent_hierarchy_system",
            KnownSystems::SpriteSheetProcessor => "sprite_sheet_processor",
            KnownSystems::TextureProcessor => "texture_processor",
            KnownSystems::TransformSystem => "transform_system",
        }
    }
}

} // verus!
