//! The static opcode-metadata table of the event codec, and the dynamic
//! size resolvers of the opcodes whose total length depends on their first
//! parameter byte.
//!
//! `spec_sizes`, `spec_has_resolver` and `spec_resolve` are the table as
//! the format's mathematical model sees it; the executable functions are
//! proved to agree with them.

use vstd::prelude::*;

use crate::byte_walker::u16_of;
use crate::event::EventOpcode;

verus! {

/// The candidate total instruction sizes (opcode byte included) that the
/// static table lists for an opcode; empty above `0xD9`, where no metadata
/// exists.
pub open spec fn spec_sizes(op: u8) -> Seq<usize> {
    match op {
        0x00 | 0x1B | 0x21 | 0x23 | 0x25 | 0x26 | 0x2E | 0x30 | 0x42 | 0x4C | 0x4D | 0x68 | 0x6F | 0x70 | 0x78 | 0x7F | 0x84 | 0x85 | 0x8A | 0x8E | 0x8F | 0x90 | 0x96 | 0x98 | 0x9A | 0x9B | 0xC9 | 0xCA | 0xCB => seq![1usize],
        0x01 | 0x04 | 0x05 | 0x06 | 0x0B | 0x0C | 0x12 | 0x1A | 0x1C | 0x1D | 0x32 | 0x34 | 0x35 | 0x38 | 0x39 | 0x48 | 0x4F | 0x57 | 0x58 | 0x63 | 0x7D | 0x83 | 0x89 | 0x91 | 0x93 | 0x95 | 0x9C | 0xA9 | 0xBE | 0xC0 => seq![3usize],
        0x02 | 0xAF | 0xB9 => seq![8usize],
        0x03 | 0x07 | 0x08 | 0x09 | 0x0A | 0x0D | 0x0E | 0x0F | 0x10 | 0x11 | 0x13 | 0x14 | 0x15 | 0x19 | 0x1E | 0x44 | 0x56 | 0x5D | 0x5E | 0x67 | 0x76 | 0x77 | 0x7B | 0x7C | 0x80 | 0x8D | 0x97 | 0x99 | 0xC1 => seq![5usize],
        0x16 | 0x17 | 0x18 | 0x24 | 0x27 | 0x28 | 0x29 | 0x2B | 0x36 | 0x3A | 0x3C | 0x3D | 0x3E | 0x3F | 0x49 | 0x4B | 0x6D | 0x6E | 0x82 | 0xC3 | 0xC8 => seq![7usize],
        0x1F | 0x5A => seq![2usize, 8usize],
        0x20 | 0x22 | 0x33 | 0x43 | 0x61 | 0x74 | 0x87 | 0x88 | 0x9E | 0xA4 | 0xA5 | 0xD9 => seq![2usize],
        0x2A | 0x2F | 0x4E | 0x81 | 0x86 | 0x92 | 0x94 | 0xA8 | 0xD3 => seq![6usize],
        0x2C | 0x2D | 0x50 | 0x51 | 0x53 | 0x54 | 0xBA => seq![13usize],
        0x31 | 0x47 => seq![2usize, 10usize],
        0x37 | 0x40 | 0x41 | 0x4A | 0x6B | 0x6C => seq![9usize],
        0x3B | 0x64 | 0x65 | 0x73 | 0xC4 => seq![11usize],
        0x45 | 0x62 | 0x9F | 0xAA | 0xBB | 0xC5 | 0xCD | 0xD0 | 0xD5 => seq![17usize],
        0x46 | 0xB2 => seq![2usize, 4usize],
        0x52 | 0x55 | 0xA0 | 0xA1 | 0xA2 | 0xA3 | 0xBC | 0xBD | 0xC6 | 0xC7 | 0xCE | 0xCF | 0xD1 | 0xD2 | 0xD6 | 0xD7 => seq![15usize],
        0x59 => seq![4usize, 6usize, 7usize, 8usize],
        0x5B | 0x66 => seq![15usize, 17usize],
        0x5C => seq![4usize, 6usize],
        0x5F => seq![2usize, 7usize, 14usize, 16usize, 18usize],
        0x60 | 0xAB | 0xC2 => seq![2usize, 4usize, 6usize],
        0x69 | 0x6A | 0xB1 | 0xB5 => seq![4usize],
        0x71 => seq![2usize, 4usize, 6usize, 8usize, 10usize],
        0x72 => seq![4usize, 6usize, 10usize],
        0x75 | 0xAC => seq![4usize, 6usize, 8usize],
        0x79 => seq![10usize, 12usize],
        0x7A => seq![2usize, 6usize, 7usize, 8usize],
        0x7E => seq![6usize, 8usize, 16usize, 18usize],
        0x8B => seq![25usize],
        0x8C => seq![2usize, 8usize, 10usize, 12usize, 14usize],
        0x9D => seq![6usize, 8usize, 9usize, 10usize, 23usize],
        0xA6 => seq![1usize, 4usize],
        0xA7 => seq![12usize, 4usize],
        0xAD | 0xB0 => seq![12usize],
        0xAE => seq![6usize, 8usize, 10usize],
        0xB3 => seq![2usize, 4usize, 14usize, 18usize],
        0xB4 => seq![2usize, 3usize, 4usize, 6usize, 12usize, 20usize],
        0xB6 => seq![2usize, 4usize, 6usize, 14usize, 16usize, 20usize],
        0xB7 | 0xBF => seq![8usize, 10usize],
        0xB8 => seq![27usize],
        0xCC => seq![4usize, 6usize, 10usize, 14usize],
        0xD4 => seq![2usize, 6usize, 8usize, 12usize],
        0xD8 => seq![6usize, 8usize, 12usize],
        _ => Seq::empty(),
    }
}

/// Whether the static table registers a dynamic size resolver for an
/// opcode.
pub open spec fn spec_has_resolver(op: u8) -> bool {
    match op {
        0x1F | 0x46 | 0x47 | 0x59 | 0x5A | 0x5B | 0x5C | 0x5F | 0x60 | 0x66 | 0x71 | 0x72 | 0x75 | 0x79 | 0x7A | 0x7E | 0x8C | 0x9D | 0xA6 | 0xAB | 0xAC | 0xAE | 0xB2 | 0xB3 | 0xB6 | 0xBF | 0xCC | 0xD4 | 0xD8 => true,
        _ => false,
    }
}

/// The candidate sizes of an opcode, as a vector.
pub fn opcode_sizes_vec(op: u8) -> (r: Vec<usize>)
    ensures
        r@ == spec_sizes(op),
{
    let r: Vec<usize> = match op {
            0x00 | 0x1B | 0x21 | 0x23 | 0x25 | 0x26 | 0x2E | 0x30 | 0x42 | 0x4C | 0x4D | 0x68 | 0x6F | 0x70 | 0x78 | 0x7F | 0x84 | 0x85 | 0x8A | 0x8E | 0x8F | 0x90 | 0x96 | 0x98 | 0x9A | 0x9B | 0xC9 | 0xCA | 0xCB => vec![1usize],
            0x01 | 0x04 | 0x05 | 0x06 | 0x0B | 0x0C | 0x12 | 0x1A | 0x1C | 0x1D | 0x32 | 0x34 | 0x35 | 0x38 | 0x39 | 0x48 | 0x4F | 0x57 | 0x58 | 0x63 | 0x7D | 0x83 | 0x89 | 0x91 | 0x93 | 0x95 | 0x9C | 0xA9 | 0xBE | 0xC0 => vec![3usize],
            0x02 | 0xAF | 0xB9 => vec![8usize],
            0x03 | 0x07 | 0x08 | 0x09 | 0x0A | 0x0D | 0x0E | 0x0F | 0x10 | 0x11 | 0x13 | 0x14 | 0x15 | 0x19 | 0x1E | 0x44 | 0x56 | 0x5D | 0x5E | 0x67 | 0x76 | 0x77 | 0x7B | 0x7C | 0x80 | 0x8D | 0x97 | 0x99 | 0xC1 => vec![5usize],
            0x16 | 0x17 | 0x18 | 0x24 | 0x27 | 0x28 | 0x29 | 0x2B | 0x36 | 0x3A | 0x3C | 0x3D | 0x3E | 0x3F | 0x49 | 0x4B | 0x6D | 0x6E | 0x82 | 0xC3 | 0xC8 => vec![7usize],
            0x1F | 0x5A => vec![2usize, 8usize],
            0x20 | 0x22 | 0x33 | 0x43 | 0x61 | 0x74 | 0x87 | 0x88 | 0x9E | 0xA4 | 0xA5 | 0xD9 => vec![2usize],
            0x2A | 0x2F | 0x4E | 0x81 | 0x86 | 0x92 | 0x94 | 0xA8 | 0xD3 => vec![6usize],
            0x2C | 0x2D | 0x50 | 0x51 | 0x53 | 0x54 | 0xBA => vec![13usize],
            0x31 | 0x47 => vec![2usize, 10usize],
            0x37 | 0x40 | 0x41 | 0x4A | 0x6B | 0x6C => vec![9usize],
            0x3B | 0x64 | 0x65 | 0x73 | 0xC4 => vec![11usize],
            0x45 | 0x62 | 0x9F | 0xAA | 0xBB | 0xC5 | 0xCD | 0xD0 | 0xD5 => vec![17usize],
            0x46 | 0xB2 => vec![2usize, 4usize],
            0x52 | 0x55 | 0xA0 | 0xA1 | 0xA2 | 0xA3 | 0xBC | 0xBD | 0xC6 | 0xC7 | 0xCE | 0xCF | 0xD1 | 0xD2 | 0xD6 | 0xD7 => vec![15usize],
            0x59 => vec![4usize, 6usize, 7usize, 8usize],
            0x5B | 0x66 => vec![15usize, 17usize],
            0x5C => vec![4usize, 6usize],
            0x5F => vec![2usize, 7usize, 14usize, 16usize, 18usize],
            0x60 | 0xAB | 0xC2 => vec![2usize, 4usize, 6usize],
            0x69 | 0x6A | 0xB1 | 0xB5 => vec![4usize],
            0x71 => vec![2usize, 4usize, 6usize, 8usize, 10usize],
            0x72 => vec![4usize, 6usize, 10usize],
            0x75 | 0xAC => vec![4usize, 6usize, 8usize],
            0x79 => vec![10usize, 12usize],
            0x7A => vec![2usize, 6usize, 7usize, 8usize],
            0x7E => vec![6usize, 8usize, 16usize, 18usize],
            0x8B => vec![25usize],
            0x8C => vec![2usize, 8usize, 10usize, 12usize, 14usize],
            0x9D => vec![6usize, 8usize, 9usize, 10usize, 23usize],
            0xA6 => vec![1usize, 4usize],
            0xA7 => vec![12usize, 4usize],
            0xAD | 0xB0 => vec![12usize],
            0xAE => vec![6usize, 8usize, 10usize],
            0xB3 => vec![2usize, 4usize, 14usize, 18usize],
            0xB4 => vec![2usize, 3usize, 4usize, 6usize, 12usize, 20usize],
            0xB6 => vec![2usize, 4usize, 6usize, 14usize, 16usize, 20usize],
            0xB7 | 0xBF => vec![8usize, 10usize],
            0xB8 => vec![27usize],
            0xCC => vec![4usize, 6usize, 10usize, 14usize],
            0xD4 => vec![2usize, 6usize, 8usize, 12usize],
            0xD8 => vec![6usize, 8usize, 12usize],
            _ => Vec::new(),
    };
    proof {
        assert(r@ =~= spec_sizes(op));
    }
    r
}

/// Whether an opcode has a dynamic size resolver.
pub fn opcode_has_resolver(op: u8) -> (r: bool)
    ensures
        r == spec_has_resolver(op),
{
    match op {
        0x1F | 0x46 | 0x47 | 0x59 | 0x5A | 0x5B | 0x5C | 0x5F | 0x60 | 0x66 | 0x71 | 0x72 | 0x75 | 0x79 | 0x7A | 0x7E | 0x8C | 0x9D | 0xA6 | 0xAB | 0xAC | 0xAE | 0xB2 | 0xB3 | 0xB6 | 0xBF | 0xCC | 0xD4 | 0xD8 => true,
        _ => false,
    }
}

/// The static table's description of an opcode; empty above `0xD9`.
pub fn opcode_description(op: u8) -> &'static str {
    match op {
        0x00 => "Ends the current ReqStack execution; resetting it back to defaults.",
        0x01 => "Directly sets the ExecPointer position.",
        0x02 => "Handles multiple types of if conditional statements.",
        0x03 => "Gets a value then stores it.",
        0x04 => "Deprecated. This opcode appears to be deprecated, it does nothing.",
        0x05 => "Sets a value to 1.",
        0x06 => "Sets a value to 0.",
        0x07 => "Adds two values then stores the result.",
        0x08 => "Subtracts two values then stores the result.",
        0x09 => "Sets a bit flag value then stores the result.",
        0x0A => "Clears a bit flag value then stores the result",
        0x0B => "Increments a value then store it.",
        0x0C => "Decrements a value then store it.",
        0x0D => "Gets the bitwise AND result of two values and stores it.",
        0x0E => "Gets the bitwise OR result of two values and stores it.",
        0x0F => "Gets the bitwise XOR result of two values and stores it.",
        0x10 => "Gets the bitwise left-shift result of two values and stores it.",
        0x11 => "Gets the bitwise right-shift result of two values and stores it.",
        0x12 => "Generates a random number via rand() and stores it.",
        0x13 => "Generates a random number via rand(, &[1], None), with a given remainder, and stores it.",
        0x14 => "Gets the product of two values and stores it.",
        0x15 => "Gets the quotient of two values and stores it.",
        0x16 => "Performs a sin operation on two values and stores the result.",
        0x17 => "Performs a cos operation on two values and stores the result.",
        0x18 => "Performs an atan2 operation on two values and stores the result.",
        0x19 => "Reads two values and stores them in flipped order. (Endian swap.)",
        0x1A => "Jumps to a new position in the event data.",
        0x1B => "Returns from the most recent jump on the JumpStack.",
        0x1C => "Sets, or updates (decreases, &[1], None), the current ReqStack[RunPos].WaitTime value.",
        0x1D => "Loads and prints an event message to chat, using EntityTargetIndex[1] as the speaker.",
        0x1E => "Tells an entity to look at another entity and begin 'talking'. (This puts the 'talking' entity into an animation where their mouth moves.)",
        0x1F => "Updates the event position information.",
        0x20 => "Sets the CliEventUcFlag flag value. (This flag is used to lock the player from controlling their character.)",
        0x21 => "Sets the EventExecEnd flag value to 1.",
        0x22 => "Calls XiAtelBuff::SetEventHideFlag for the current event entity.",
        0x23 => "Waits for the local player to interact with a dialog message.",
        0x24 => "Creates a dialog window with selectable options for the player to choose from.",
        0x25 => "Waits for a dialog select (created by opcode 0x0024) to be made by the player.",
        0x26 => "Yields the event VM. Note: This opcode may be deprecated. Since it only ever sets the RetFlag the opcode will never advance further leaving it in an endless self-handled cycle each time the VM is ticked.",
        0x27 => "Calls a helper FUNC_REQSet which in turn calls XiEvent::ReqSet after checking some conditions.",
        0x28 => "Similar to opcode 0x0027, but with extra checks/conditions. The function starts by checking for the current ReqStack[RunPos].ReqFlag being set, then will do a similar check setup to FUNC_REQSet but will end with calling XiEvent::GetReqStatus instead.",
        0x29 => "Similar to opcode 0x0028.",
        0x2A => "Similar to opcode 0x0028.",
        0x2B => "Loads and prints an event message with the given entity as the speaker. This handler works similar to 0x001D, however, the opcode holds the entity information used as the speaker.",
        0x2C => "Creates and loads a CMoSchedularTask on the desired entity. (Appears to set an entity action.)",
        0x2D => "Creates and loads a zone based CMoSchedularTask on the desired entities. (Appears to schedule a zone action.)",
        0x2E => "Sets the CliEventCancelSetData flag. If CliEventCancelSetFlag is set, also sets the CliEventCancelFlag flag.",
        0x2F => "Adjusts the given entities Render.Flag0 value.",
        0x30 => "Sets the ucoff_continue flag to 0.",
        0x31 => "Updates the event position information.",
        0x32 => "Sets the ExtData[1]->MainSpeed value.",
        0x33 => "Adjusts the event entities Render.Flags0 value.",
        0x34 => "Appears to load and unload an additional zone to be used with the event.",
        0x35 => "Similar to opcode 0x0034. This appears to load an additional zone for the event, however this handler does not have a call to XiZone::Close.",
        0x36 => "Updates the current ExtData[1]->EventPos information, calibrates the current event entity position then calls XiAtelBuff::CopyAllPosEvent and XiAtelBuff::ReqExecHitCheck.",
        0x37 => "Updates the current ExtData[1]->EventPos and ExtData[1]->EventDir[1] information, calibrates the current event entity position then calls XiAtelBuff::CopyAllPosEvent and XiAtelBuff::ReqExecHitCheck.",
        0x38 => "Sets the lower-word of CliEventModeLocal to a masked value. CliEventModeLocal is used to tell the client how the event should alter the client state. ",
        0x39 => "Sets the current ExtData[1]->EventDir[1] value.",
        0x3A => "Converts a float Yaw value to it's single byte representation and stores it.",
        0x3B => "Gets the current position of the given entity (or uses the ExtData[1]->EventPos depending on flags) and stores it.",
        0x3C => "Compares two values (using a shift). If condition is met, sets a bit flag and stores the result.",
        0x3D => "Compares two values (using a shift). If condition is met, clears a bit flag and stores the result.",
        0x3E => "Tests if a bit is set. Adjusts the ExecPointer based on the state of the flag.",
        0x3F => "Calculates the remainder of two values and stores the result.",
        0x40 => "Sets a bit flag value and stores it. One usage of this opcode is to tell the client which dialog menu options are enabled/available.",
        0x41 => "Gets a bit flag value and stores it. One usage of this opcode is to tell the client which dialog menu options are enabled/available.",
        0x42 => "Sets the CliEventCancelSetData flag to 0. If CliEventCancelSetFlag is set, then CliEventCancelFlag is also set to 0.",
        0x43 => "Used to tell the server the server when the client has updated an event or has completed it.",
        0x44 => "Tests if the given entity is valid. Adjusts the ExecPointer based on the result.",
        0x45 => "Loads and starts a scheduled task with the given two entities.",
        0x46 => "Enables and disables the player camera control. Also disables rendering some menus to allow the game to play cutscenes without unneeded info on screen.",
        0x47 => "Updates the players location during an event. This opcode will send an 0x005C packet to the server to inform it of your position change.",
        0x48 => "Loads and prints an event message to chat, without a speaker entity.",
        0x49 => "Loads and prints an event message to chat, without a speaker entity.",
        0x4A => "Tells an entity to look at another entity.",
        0x4B => "Updates the given entities yaw direction.",
        0x4C => "Sets the event entities StatusEvent to 8 if a specific Render.Flags0 bit is not set. (Open door.)",
        0x4D => "Sets the event entities StatusEvent to 9 if a specific Render.Flags0 bit is not set. (Close door.)",
        0x4E => "Sets the entities event hide flag within Render.Flags0.",
        0x4F => "Sets the event entities StatusEvent to the given value if a specific Render.Flags0 bit is not set.",
        0x50 => "Ends a CMoSchedularTask.",
        0x51 => "Ends a zone based CMoSchedularTask.",
        0x52 => "Ends a CMoSchedularTask. (Load / Main)",
        0x53 => "Waits for the given entities schedular to finish its current action.",
        0x54 => "Waits for the zone schedular to finish its current action.",
        0x55 => "Waits for the Main/Load schedular to finish its current action.",
        0x56 => "Deprecated. This opcode does not do anything with the values it reads anymore. This appears to be deprecated.",
        0x57 => "Creates a frame delay from the current frame delay value and stores it.",
        0x58 => "Yields the event VM.",
        0x59 => "Handles multiple cases regarding updating an entities data for events.",
        0x5A => "Updates the event position information.",
        0x5B => "Loads an extended schedular task.",
        0x5C => "Handles multiple cases regarding the music player.",
        0x5D => "Sets, or eases, the current playing music to a new volume.",
        0x5E => "Appears to stop the event entities current action and reset them back to an idle motion.",
        0x5F => "This handler has a few cases, most of which call other opcode handlers and react based on their returns.",
        0x60 => "Handler with multiple use cases. The default case where the opcode was two bytes long was deprecated and just skipped now. Adjusts the event entities Render.Flags1 value.",
        0x61 => "Adjusts the event entities Render.Flags2 value.",
        0x62 => "Handler that calls the same helper call as opcode 0x0045, just with a different second argument.",
        0x63 => "Sets the event entity to play an animation then waits for it to complete.",
        0x64 => "Calculates and stores the distance between the given points.",
        0x65 => "Calculates and stores the 3D distance between the given entities.",
        0x66 => "Handler that calls the same helper call as opcode 0x005B, just with a different arguments.",
        0x67 => "Tells the client to hide the entire HUD UI elements during the cutscene. (ie. The compass, status icons, chat, menus, etc.)",
        0x68 => "Tells the client to unhide the entire HUD UI elements. (ie. The compass, status icons, chat, menus, etc.)",
        0x69 => "Sets the sound volume of the desired sound type.",
        0x6A => "Changes the sound volume of the desired sound type.",
        0x6B => "Appears to stop the given entities current action and reset them back to an idle motion.",
        0x6C => "Fades an enities color in and out. This can be used to both set just the alpha of the entity, but also the color. This works in stages to allow the color to fade in and/or out smoothly, or immediately, depending on the time values set.",
        0x6D => "Deprecated. This opcode appears to be deprecated, it does nothing.",
        0x6E => "Sets the given entity to play an emote animation.",
        0x6F => "Delays the event VM execution until ReqStack[RunPos].WaitTime has reached 0. Used as a yieldable sleep call.",
        0x70 => "Checks the event entity for a render flag, yields if set. Otherwise, cancels the entity movement and advances.",
        0x71 => "Handles the usage of string input from the player during events. Such as password prompts and similar.",
        0x72 => "Appears to load event based weather information and update the weather accordingly for it.",
        0x73 => "Schedules tasks for casting magic on the two given entities.",
        0x74 => "Adjusts the event entities Render.Flags1 value.",
        0x75 => "Loads a room and updates the players sub-region with the server.",
        0x76 => "Checks the given entities Render.Flags0 and Render.Flags3 and yields if successful.",
        0x77 => "Disables the game clock and sets the client to a specific time for the event. Can also set the weather at the same time.",
        0x78 => "Enables the game timer and resets the zone weather.",
        0x79 => "Used to look at / rotate towards another entity.",
        0x7A => "Handles multiple entity conditions dependant on following event byte cases.",
        0x7B => "Unsets the given entities talking status, setting their NpcSpeechFrame back to -1.",
        0x7C => "Adjusts the given entities Render.Flags2 value.",
        0x7D => "Loads and starts a scheduled task using the local player as the entity. (Appears to be used to display rank up animations.)",
        0x7E => "Multi-purpose opcode relating to chocobos and mounts.",
        0x7F => "Waits for a dialog select to be made by the player.",
        0x80 => "Tests the given entity for several conditions. Yields or moves forward depending on the results. (Appears to be used to check if the entity is loading an action or similar.)",
        0x81 => "Sets an unknown value in the given entities warp data.",
        0x82 => "Finds and hit tests a rect based on the current event entities position.",
        0x83 => "Gets and stores the current game time.",
        0x84 => "Adjusts the event entities Render.Flags3 value.",
        0x85 => "Opens a mog house sub-menu depending on the passed parameter.",
        0x86 => "Adjusts the given entities Render.Flags3 value.",
        0x87 => "Used for handling the generation of world passes. Sends 0x001B packets to handle the various world pass functionalities.",
        0x88 => "Used for handling the generation of world passes. Sends 0x001B packets to handle the various world pass functionalities.",
        0x89 => "Opens the desired map (ie. /map, &[1], None), preparing it for usage within the event. (ie. NPCs that mark your map/show you around.)",
        0x8A => "Closes the map window. (ie. after being opened via opcode 0x0089)",
        0x8B => "Sets, or updates, a marker point on the players map. (ie. Used by NPCs that help new players and mark your map.)",
        0x8C => "This handler is used for multiple purposes, related to crafting. (ie. Requesting recipes, synth support, and similar.)",
        0x8D => "Opens the map window with the given properties. This handler is used mainly when an NPC opens your map but it is not with the sub-menus visible. Mainly to show an overview of the map with no extra bloat on screen or markings on the map.",
        0x8E => "Sets the event entities event status to 45 if valid.",
        0x8F => "Sets the event entities event status to 46 if valid.",
        0x90 => "Adjusts the event entities Render.Flags0 and Render.Flags1 values.",
        0x91 => "Sets the ExtData[1].MainSpeedBase value.",
        0x92 => "Adjusts the given entities Render.Flags3 value.",
        0x93 => "Appears to display an items information. (Perhaps the same manner with how crafting shows results?)",
        0x94 => "Adjusts the given entities Render.Flags3 value.",
        0x95 => "Sets the event entity up for being an event based npc. Cleans up the event entities attachments.",
        0x96 => "Unsets the event entity from being an event based npc.",
        0x97 => "Saves the current zone WindBase and WindWidth values then sets new ones.",
        0x98 => "Yields if the zone is loading data, continues otherwise.",
        0x99 => "Yields if the given entity is playing an animation, continues otherwise.",
        0x9A => "Yields until the music server is no longer reading data.",
        0x9B => "Yields if the event entity is playing an animation, continues otherwise.",
        0x9C => "Stores the client language id.",
        0x9D => "Handler that has multiple purposes, mainly focused around handling strings.",
        0x9E => "Sets the PTR_RectEventSendFlag value.",
        0x9F => "Handler that calls the same helper call as opcode 0x0045, just with a different second argument.",
        0xA0 => "Handler that calls the same helper call as opcode 0x0055, just with a different second argument.",
        0xA1 => "Handler that calls the same helper call as opcode 0x0052, just with a different second argument.",
        0xA2 => "Handler that calls the same helper call as opcode 0x0055, just with a different second argument.",
        0xA3 => "Handler that calls the same helper call as opcode 0x0052, just with a different second argument.",
        0xA4 => "Adjusts the event entities Render.Flags3 value.",
        0xA5 => "Adjusts the event entities Render.Flags3 value.",
        0xA6 => "Requests the event map number from the server by sending a 0x00EB packet. Sets the PTR_RecvEventMapNumFlag to mark the client as awaiting for a response and then yields until it is unset.",
        0xA7 => "Waits for the server to respond to a client request. This is used with battlefield registration NPCs. (ie. Dynamis, Moblin Maze Mongers, Salvage, etc.)",
        0xA8 => "Opens the map (if requested, &[1], None), unlocks and renames markers.",
        0xA9 => "Disables the game time and sets it to a specific given time.",
        0xAA => "Gets a value to be used as a Vana'diel timestamp. Converts that timestamp into the various time parts and stores them.",
        0xAB => "Handles various sub-cases; mostly dealing with altering entity render flags.",
        0xAC => "Handles multiple sub-cases.",
        0xAD => "Handler with multiple sub-cases, used to do various scheduler actions against the two given entities.",
        0xAE => "Handles multiple sub-cases. Doesn't seem to have any specific purpose.",
        0xAF => "Gets and stores the camera position values.",
        0xB0 => "Loads and prints an event message to chat. Uses the given entities as the speaker and listener.",
        0xB1 => "Gets and stores the value of a flag. PTR_UnknownValue is part of the main app object which is initialized to 128. This valid doesn't seem to ever change, and has been the same since the original beta of the game. At this time, the purpose of this value is unknown.",
        0xB2 => "Handler has two modes. The first mode requests opening the delivery box. The second mode is to wait a certain amount of time, used to wait for the delivery box to open.",
        0xB3 => "This handler is used for dealing with the rankings boards. For example, the fishing rank boards with Chenon in Selbina.",
        0xB4 => "Handler with multiple sub-usages.",
        0xB5 => "Sets the current event entities name.",
        0xB6 => "Handler with multiple sub-usages. Related to entity looks / gear visuals.",
        0xB7 => "Handler with multiple sub-usages.",
        0xB8 => "Opens the map (if requested, &[1], None), adds and sets markers.",
        0xB9 => "Opens the map (if requested, &[1], None), edits and renames a marker. (Name is taken from the event Read buffer.)",
        0xBA => "Obtains the given entity, if valid, attempts to calibrate its position then calls XiAtelBuff::CopyAllPosEvent and XiAtelBuff::ReqExecHitCheck.",
        0xBB => "Handler that calls the same helper call as opcode 0x0045, just with a different second argument.",
        0xBC => "Handler that calls the same helper call as opcode 0x0055, just with a different second argument.",
        0xBD => "Handler that calls the same helper call as opcode 0x0052, just with a different second argument.",
        0xBE => "Stores the current ReqStack[RunPos].WhoServerId value.",
        0xBF => "Handler that is used for chocobo racing. This handler has debug messages left in, so it can be translated to actual opcode names.",
        0xC0 => "Adjusts the event entities Render.Flags3 value.",
        0xC1 => "Obtains the given entity, tests it for something. If successful, then the last action is killed and its resp data is deleted.",
        0xC2 => "The purpose of this opcode is currently unknown. This makes use of the internal party state object, checking for flags/values. These check if a flag is set that is more recently added to the party structure.",
        0xC3 => "Copies a string value into an unknown buffer array.",
        0xC4 => "Handler that calls the same helper call as opcode 0x0073, just with a different arguments.",
        0xC5 => "Handler that calls the same helper call as opcode 0x0045, just with a different second argument.",
        0xC6 => "Handler that calls the same helper call as opcode 0x0055, just with a different second argument.",
        0xC7 => "Handler that calls the same helper call as opcode 0x0052, just with a different second argument.",
        0xC8 => "Opens the map window with the given parameters.",
        0xC9 => "Enables the game timer.",
        0xCA => "Deprecated. No handler exists for this opcode at this time.",
        0xCB => "Deprecated. No handler exists for this opcode at this time.",
        0xCC => "This opcode appears to be used to open and display information windows for various things. Mainly items.",
        0xCD => "Handler that calls the same helper call as opcode 0x0045, just with a different second argument.",
        0xCE => "Handler that calls the same helper call as opcode 0x0055, just with a different second argument.",
        0xCF => "Handler that calls the same helper call as opcode 0x0052, just with a different second argument.",
        0xD0 => "Handler that calls the same helper call as opcode 0x0045, just with a different second argument.",
        0xD1 => "Handler that calls the same helper call as opcode 0x0055, just with a different second argument.",
        0xD2 => "Handler that calls the same helper call as opcode 0x0052, just with a different second argument.",
        0xD3 => "Gets the given entity and calls a helper function that clears its motion queue lists.",
        0xD4 => "Handles multiple sub-opcodes. These appear to be related to opening the map and querying the user for input.",
        0xD5 => "Handler that calls the same helper call as opcode 0x0045, just with a different second argument.",
        0xD6 => "Handler that calls the same helper call as opcode 0x0055, just with a different second argument.",
        0xD7 => "Handler that calls the same helper call as opcode 0x0052, just with a different second argument.",
        0xD8 => "Sets the ExtData[1]->EventDir information for the given entity.",
        0xD9 => "Sets an unknown flag value.",
        _ => "",
    }
}


/// The dynamic total size of an instruction whose opcode is `0x1F`, as
/// a function of the bytes that follow the opcode.
pub open spec fn spec_opcode_0x1f_size(opcode: u8, data: Seq<u8>) -> Option<usize> {
    if opcode != 0x1F || data.len() == 0 {
        None
    } else {
        match data[0] {
            0x00 => Some(8usize),
            0x01 => Some(2usize),
            _ => None,
        }
    }
}

/// Resolves the total size of a `0x1F` instruction from its first
/// parameter byte.
pub fn determine_opcode_0x1f_size(
    opcode: u8,
    data: &[u8],
    _previous_opcodes: &[EventOpcode],
) -> (r: Option<usize>)
    ensures
        r == spec_opcode_0x1f_size(opcode, data@),
{
    if opcode != 0x1F || data.len() == 0 {
        None
    } else {
        match data[0] {
            0x00 => Some(8usize),
            0x01 => Some(2usize),
            _ => None,
        }
    }
}

/// The dynamic total size of an instruction whose opcode is `0x31`, as
/// a function of the bytes that follow the opcode.
pub open spec fn spec_opcode_0x31_size(opcode: u8, data: Seq<u8>) -> Option<usize> {
    if opcode != 0x31 || data.len() == 0 {
        None
    } else {
        match data[0] {
            0x00 => Some(10usize),
            0x01 => Some(2usize),
            _ => None,
        }
    }
}

/// Resolves the total size of a `0x31` instruction from its first
/// parameter byte.
pub fn determine_opcode_0x31_size(
    opcode: u8,
    data: &[u8],
    _previous_opcodes: &[EventOpcode],
) -> (r: Option<usize>)
    ensures
        r == spec_opcode_0x31_size(opcode, data@),
{
    if opcode != 0x31 || data.len() == 0 {
        None
    } else {
        match data[0] {
            0x00 => Some(10usize),
            0x01 => Some(2usize),
            _ => None,
        }
    }
}

/// The dynamic total size of an instruction whose opcode is `0x46`, as
/// a function of the bytes that follow the opcode.
pub open spec fn spec_opcode_0x46_size(opcode: u8, data: Seq<u8>) -> Option<usize> {
    if opcode != 0x46 || data.len() == 0 {
        None
    } else {
        match data[0] {
            0x02 => Some(4usize),
            _ => Some(2usize),
        }
    }
}

/// Resolves the total size of a `0x46` instruction from its first
/// parameter byte.
pub fn determine_opcode_0x46_size(
    opcode: u8,
    data: &[u8],
    _previous_opcodes: &[EventOpcode],
) -> (r: Option<usize>)
    ensures
        r == spec_opcode_0x46_size(opcode, data@),
{
    if opcode != 0x46 || data.len() == 0 {
        None
    } else {
        match data[0] {
            0x02 => Some(4usize),
            _ => Some(2usize),
        }
    }
}

/// The dynamic total size of an instruction whose opcode is `0x47`, as
/// a function of the bytes that follow the opcode.
pub open spec fn spec_opcode_0x47_size(opcode: u8, data: Seq<u8>) -> Option<usize> {
    if opcode != 0x47 || data.len() == 0 {
        None
    } else {
        match data[0] {
            0x00 => Some(10usize),
            0x01 => Some(2usize),
            _ => None,
        }
    }
}

/// Resolves the total size of a `0x47` instruction from its first
/// parameter byte.
pub fn determine_opcode_0x47_size(
    opcode: u8,
    data: &[u8],
    _previous_opcodes: &[EventOpcode],
) -> (r: Option<usize>)
    ensures
        r == spec_opcode_0x47_size(opcode, data@),
{
    if opcode != 0x47 || data.len() == 0 {
        None
    } else {
        match data[0] {
            0x00 => Some(10usize),
            0x01 => Some(2usize),
            _ => None,
        }
    }
}

/// The dynamic total size of an instruction whose opcode is `0x59`, as
/// a function of the bytes that follow the opcode.
pub open spec fn spec_opcode_0x59_size(opcode: u8, data: Seq<u8>) -> Option<usize> {
    if opcode != 0x59 || data.len() == 0 {
        None
    } else {
        match data[0] {
            0x00 | 0x02 | 0x07 => Some(4usize),
            0x01 | 0x03 | 0x04 | 0x08 => Some(8usize),
            0x05 => Some(7usize),
            0x06 => Some(6usize),
            _ => None,
        }
    }
}

/// Resolves the total size of a `0x59` instruction from its first
/// parameter byte.
pub fn determine_opcode_0x59_size(
    opcode: u8,
    data: &[u8],
    _previous_opcodes: &[EventOpcode],
) -> (r: Option<usize>)
    ensures
        r == spec_opcode_0x59_size(opcode, data@),
{
    if opcode != 0x59 || data.len() == 0 {
        None
    } else {
        match data[0] {
            0x00 | 0x02 | 0x07 => Some(4usize),
            0x01 | 0x03 | 0x04 | 0x08 => Some(8usize),
            0x05 => Some(7usize),
            0x06 => Some(6usize),
            _ => None,
        }
    }
}

/// The dynamic total size of an instruction whose opcode is `0x5A`, as
/// a function of the bytes that follow the opcode.
pub open spec fn spec_opcode_0x5a_size(opcode: u8, data: Seq<u8>) -> Option<usize> {
    if opcode != 0x5A || data.len() == 0 {
        None
    } else {
        match data[0] {
            0x01 => Some(2usize),
            _ => Some(8usize),
        }
    }
}

/// Resolves the total size of a `0x5A` instruction from its first
/// parameter byte.
pub fn determine_opcode_0x5a_size(
    opcode: u8,
    data: &[u8],
    _previous_opcodes: &[EventOpcode],
) -> (r: Option<usize>)
    ensures
        r == spec_opcode_0x5a_size(opcode, data@),
{
    if opcode != 0x5A || data.len() == 0 {
        None
    } else {
        match data[0] {
            0x01 => Some(2usize),
            _ => Some(8usize),
        }
    }
}

/// The dynamic total size of an instruction whose opcode is `0x5B`, as
/// a function of the bytes that follow the opcode.
pub open spec fn spec_opcode_0x5b_size(opcode: u8, data: Seq<u8>) -> Option<usize> {
    if opcode != 0x5B || data.len() == 0 {
        None
    } else {
        None
    }
}

/// Resolves the total size of a `0x5B` instruction from its first
/// parameter byte.
pub fn determine_opcode_0x5b_size(
    opcode: u8,
    data: &[u8],
    _previous_opcodes: &[EventOpcode],
) -> (r: Option<usize>)
    ensures
        r == spec_opcode_0x5b_size(opcode, data@),
{
    if opcode != 0x5B || data.len() == 0 {
        None
    } else {
        None
    }
}

/// The dynamic total size of an instruction whose opcode is `0x5C`, as
/// a function of the bytes that follow the opcode.
pub open spec fn spec_opcode_0x5c_size(opcode: u8, data: Seq<u8>) -> Option<usize> {
    if opcode != 0x5C || data.len() == 0 {
        None
    } else {
        match data[0] {
            _ => Some(6usize),
        }
    }
}

/// Resolves the total size of a `0x5C` instruction from its first
/// parameter byte.
pub fn determine_opcode_0x5c_size(
    opcode: u8,
    data: &[u8],
    _previous_opcodes: &[EventOpcode],
) -> (r: Option<usize>)
    ensures
        r == spec_opcode_0x5c_size(opcode, data@),
{
    if opcode != 0x5C || data.len() == 0 {
        None
    } else {
        match data[0] {
            _ => Some(6usize),
        }
    }
}

/// The dynamic total size of an instruction whose opcode is `0x5F`, as
/// a function of the bytes that follow the opcode.
pub open spec fn spec_opcode_0x5f_size(opcode: u8, data: Seq<u8>) -> Option<usize> {
    if opcode != 0x5F || data.len() == 0 {
        None
    } else {
        match data[0] {
            0x00 | 0x01 => Some(2usize),
            0x02 => Some(7usize),
            0x03 => Some(14usize),
            0x04 => Some(16usize),
            0x05 => Some(18usize),
            0x06 => Some(16usize),
            0x07 => Some(18usize),
            _ => None,
        }
    }
}

/// Resolves the total size of a `0x5F` instruction from its first
/// parameter byte.
pub fn determine_opcode_0x5f_size(
    opcode: u8,
    data: &[u8],
    _previous_opcodes: &[EventOpcode],
) -> (r: Option<usize>)
    ensures
        r == spec_opcode_0x5f_size(opcode, data@),
{
    if opcode != 0x5F || data.len() == 0 {
        None
    } else {
        match data[0] {
            0x00 | 0x01 => Some(2usize),
            0x02 => Some(7usize),
            0x03 => Some(14usize),
            0x04 => Some(16usize),
            0x05 => Some(18usize),
            0x06 => Some(16usize),
            0x07 => Some(18usize),
            _ => None,
        }
    }
}

/// The dynamic total size of an instruction whose opcode is `0x60`, as
/// a function of the bytes that follow the opcode.
pub open spec fn spec_opcode_0x60_size(opcode: u8, data: Seq<u8>) -> Option<usize> {
    if opcode != 0x60 || data.len() == 0 {
        None
    } else {
        match data[0] {
            0x00 | 0x01 => Some(4usize),
            0x02 => Some(6usize),
            _ => Some(2usize),
        }
    }
}

/// Resolves the total size of a `0x60` instruction from its first
/// parameter byte.
pub fn determine_opcode_0x60_size(
    opcode: u8,
    data: &[u8],
    _previous_opcodes: &[EventOpcode],
) -> (r: Option<usize>)
    ensures
        r == spec_opcode_0x60_size(opcode, data@),
{
    if opcode != 0x60 || data.len() == 0 {
        None
    } else {
        match data[0] {
            0x00 | 0x01 => Some(4usize),
            0x02 => Some(6usize),
            _ => Some(2usize),
        }
    }
}

/// The dynamic total size of an instruction whose opcode is `0x66`, as
/// a function of the bytes that follow the opcode.
pub open spec fn spec_opcode_0x66_size(opcode: u8, data: Seq<u8>) -> Option<usize> {
    if opcode != 0x66 || data.len() == 0 {
        None
    } else {
        None
    }
}

/// Resolves the total size of a `0x66` instruction from its first
/// parameter byte.
pub fn determine_opcode_0x66_size(
    opcode: u8,
    data: &[u8],
    _previous_opcodes: &[EventOpcode],
) -> (r: Option<usize>)
    ensures
        r == spec_opcode_0x66_size(opcode, data@),
{
    if opcode != 0x66 || data.len() == 0 {
        None
    } else {
        None
    }
}

/// The dynamic total size of an instruction whose opcode is `0x71`, as
/// a function of the bytes that follow the opcode.
pub open spec fn spec_opcode_0x71_size(opcode: u8, data: Seq<u8>) -> Option<usize> {
    if opcode != 0x71 || data.len() == 0 {
        None
    } else {
        match data[0] {
            0x00 | 0x01 | 0x02 | 0x21 | 0x51 | 0x53 => Some(2usize),
            0x03 | 0x10 | 0x11 | 0x13 | 0x30 | 0x31 | 0x40 | 0x50 | 0x52 | 0x55 => Some(4usize),
            0x12 | 0x32 => Some(6usize),
            0x20 => Some(16usize),
            0x41 => Some(8usize),
            0x54 => Some(10usize),
            _ => None,
        }
    }
}

/// Resolves the total size of a `0x71` instruction from its first
/// parameter byte.
pub fn determine_opcode_0x71_size(
    opcode: u8,
    data: &[u8],
    _previous_opcodes: &[EventOpcode],
) -> (r: Option<usize>)
    ensures
        r == spec_opcode_0x71_size(opcode, data@),
{
    if opcode != 0x71 || data.len() == 0 {
        None
    } else {
        match data[0] {
            0x00 | 0x01 | 0x02 | 0x21 | 0x51 | 0x53 => Some(2usize),
            0x03 | 0x10 | 0x11 | 0x13 | 0x30 | 0x31 | 0x40 | 0x50 | 0x52 | 0x55 => Some(4usize),
            0x12 | 0x32 => Some(6usize),
            0x20 => Some(16usize),
            0x41 => Some(8usize),
            0x54 => Some(10usize),
            _ => None,
        }
    }
}

/// The dynamic total size of an instruction whose opcode is `0x72`, as
/// a function of the bytes that follow the opcode.
pub open spec fn spec_opcode_0x72_size(opcode: u8, data: Seq<u8>) -> Option<usize> {
    if opcode != 0x72 || data.len() == 0 {
        None
    } else {
        None
    }
}

/// Resolves the total size of a `0x72` instruction from its first
/// parameter byte.
pub fn determine_opcode_0x72_size(
    opcode: u8,
    data: &[u8],
    _previous_opcodes: &[EventOpcode],
) -> (r: Option<usize>)
    ensures
        r == spec_opcode_0x72_size(opcode, data@),
{
    if opcode != 0x72 || data.len() == 0 {
        None
    } else {
        None
    }
}

/// The dynamic total size of an instruction whose opcode is `0x75`, as
/// a function of the bytes that follow the opcode.
pub open spec fn spec_opcode_0x75_size(opcode: u8, data: Seq<u8>) -> Option<usize> {
    if opcode != 0x75 || data.len() == 0 {
        None
    } else {
        None
    }
}

/// Resolves the total size of a `0x75` instruction from its first
/// parameter byte.
pub fn determine_opcode_0x75_size(
    opcode: u8,
    data: &[u8],
    _previous_opcodes: &[EventOpcode],
) -> (r: Option<usize>)
    ensures
        r == spec_opcode_0x75_size(opcode, data@),
{
    if opcode != 0x75 || data.len() == 0 {
        None
    } else {
        None
    }
}

/// The dynamic total size of an instruction whose opcode is `0x79`, as
/// a function of the bytes that follow the opcode.
pub open spec fn spec_opcode_0x79_size(opcode: u8, data: Seq<u8>) -> Option<usize> {
    if opcode != 0x79 || data.len() == 0 {
        None
    } else {
        match data[0] {
            0x01 => Some(12usize),
            _ => Some(10usize),
        }
    }
}

/// Resolves the total size of a `0x79` instruction from its first
/// parameter byte.
pub fn determine_opcode_0x79_size(
    opcode: u8,
    data: &[u8],
    _previous_opcodes: &[EventOpcode],
) -> (r: Option<usize>)
    ensures
        r == spec_opcode_0x79_size(opcode, data@),
{
    if opcode != 0x79 || data.len() == 0 {
        None
    } else {
        match data[0] {
            0x01 => Some(12usize),
            _ => Some(10usize),
        }
    }
}

/// The dynamic total size of an instruction whose opcode is `0x7A`, as
/// a function of the bytes that follow the opcode.
pub open spec fn spec_opcode_0x7a_size(opcode: u8, data: Seq<u8>) -> Option<usize> {
    if opcode != 0x7A || data.len() == 0 {
        None
    } else {
        match data[0] {
            0x00 | 0x02 | 0x05 => Some(6usize),
            0x01 => Some(7usize),
            0x03 => Some(2usize),
            0x04 => Some(8usize),
            _ => None,
        }
    }
}

/// Resolves the total size of a `0x7A` instruction from its first
/// parameter byte.
pub fn determine_opcode_0x7a_size(
    opcode: u8,
    data: &[u8],
    _previous_opcodes: &[EventOpcode],
) -> (r: Option<usize>)
    ensures
        r == spec_opcode_0x7a_size(opcode, data@),
{
    if opcode != 0x7A || data.len() == 0 {
        None
    } else {
        match data[0] {
            0x00 | 0x02 | 0x05 => Some(6usize),
            0x01 => Some(7usize),
            0x03 => Some(2usize),
            0x04 => Some(8usize),
            _ => None,
        }
    }
}

/// The dynamic total size of an instruction whose opcode is `0x7E`, as
/// a function of the bytes that follow the opcode.
pub open spec fn spec_opcode_0x7e_size(opcode: u8, data: Seq<u8>) -> Option<usize> {
    if opcode != 0x7E || data.len() == 0 {
        None
    } else {
        match data[0] {
            0x00 | 0x01 | 0x02 | 0x04 | 0x05 | 0x08 => Some(6usize),
            0x03 => Some(16usize),
            0x06 => Some(18usize),
            0x07 => Some(8usize),
            _ => Some(0usize),
        }
    }
}

/// Resolves the total size of a `0x7E` instruction from its first
/// parameter byte.
pub fn determine_opcode_0x7e_size(
    opcode: u8,
    data: &[u8],
    _previous_opcodes: &[EventOpcode],
) -> (r: Option<usize>)
    ensures
        r == spec_opcode_0x7e_size(opcode, data@),
{
    if opcode != 0x7E || data.len() == 0 {
        None
    } else {
        match data[0] {
            0x00 | 0x01 | 0x02 | 0x04 | 0x05 | 0x08 => Some(6usize),
            0x03 => Some(16usize),
            0x06 => Some(18usize),
            0x07 => Some(8usize),
            _ => Some(0usize),
        }
    }
}

/// The dynamic total size of an instruction whose opcode is `0x8C`, as
/// a function of the bytes that follow the opcode.
pub open spec fn spec_opcode_0x8c_size(opcode: u8, data: Seq<u8>) -> Option<usize> {
    if opcode != 0x8C || data.len() == 0 {
        None
    } else {
        match data[0] {
            0x00 => Some(8usize),
            0x01 => Some(2usize),
            0x02 => Some(12usize),
            0x03 | 0x04 => Some(10usize),
            0x05 => Some(14usize),
            _ => None,
        }
    }
}

/// Resolves the total size of a `0x8C` instruction from its first
/// parameter byte.
pub fn determine_opcode_0x8c_size(
    opcode: u8,
    data: &[u8],
    _previous_opcodes: &[EventOpcode],
) -> (r: Option<usize>)
    ensures
        r == spec_opcode_0x8c_size(opcode, data@),
{
    if opcode != 0x8C || data.len() == 0 {
        None
    } else {
        match data[0] {
            0x00 => Some(8usize),
            0x01 => Some(2usize),
            0x02 => Some(12usize),
            0x03 | 0x04 => Some(10usize),
            0x05 => Some(14usize),
            _ => None,
        }
    }
}

/// The dynamic total size of an instruction whose opcode is `0x9D`, as a
/// function of the bytes that follow the opcode.
pub open spec fn spec_opcode_0x9d_size(opcode: u8, data: Seq<u8>) -> Option<usize> {
    if opcode != 0x9D || data.len() == 0 {
        None
    } else {
        match data[0] {
            0x00 | 0x01 | 0x03 | 0x04 | 0x05 | 0x06 | 0x0E => Some(8usize),
            0x02 | 0x07 => Some(6usize),
            0x08 => Some(23usize),
            0x09 => Some(9usize),
            0x0A | 0x0B | 0x0D | 0x0F | 0x10 => Some(10usize),
            0x0C => if data.len() < 8 {
                None
            } else {
                let val2 = u16_of(data[4], data[5]);
                let val1 = u16_of(data[6], data[7]);
                let val2_adjusted: u16 = if val1 != 0 && val1 <= val2 {
                    0
                } else {
                    val2
                };
                if val2_adjusted >= 64 {
                    Some(6usize)
                } else {
                    Some(8usize)
                }
            },
            _ => None,
        }
    }
}

/// Resolves the total size of a `0x9D` instruction from its first
/// parameter byte, and for its string sub-case from two 16-bit values.
pub fn determine_opcode_0x9d_size(
    opcode: u8,
    data: &[u8],
    _previous_opcodes: &[EventOpcode],
) -> (r: Option<usize>)
    ensures
        r == spec_opcode_0x9d_size(opcode, data@),
{
    if opcode != 0x9D || data.len() == 0 {
        return None;
    }
    match data[0] {
        0x00 | 0x01 | 0x03 | 0x04 | 0x05 | 0x06 | 0x0E => Some(8usize),
        0x02 | 0x07 => Some(6usize),
        0x08 => Some(23usize),
        0x09 => Some(9usize),
        0x0A | 0x0B | 0x0D | 0x0F | 0x10 => Some(10usize),
        0x0C => {
            if data.len() < 8 {
                return None;
            }
            let val2 = data[4] as u16 + data[5] as u16 * 0x100;
            let val1 = data[6] as u16 + data[7] as u16 * 0x100;
            let val2_adjusted: u16 = if val1 != 0 && val1 <= val2 {
                0
            } else {
                val2
            };
            if val2_adjusted >= 64 {
                Some(6usize)
            } else {
                Some(8usize)
            }
        },
        _ => None,
    }
}

/// The dynamic total size of an instruction whose opcode is `0xA6`, as
/// a function of the bytes that follow the opcode.
pub open spec fn spec_opcode_0xa6_size(opcode: u8, data: Seq<u8>) -> Option<usize> {
    if opcode != 0xA6 || data.len() == 0 {
        None
    } else {
        match data[0] {
            0x02 => Some(4usize),
            _ => Some(2usize),
        }
    }
}

/// Resolves the total size of a `0xA6` instruction from its first
/// parameter byte.
pub fn determine_opcode_0xa6_size(
    opcode: u8,
    data: &[u8],
    _previous_opcodes: &[EventOpcode],
) -> (r: Option<usize>)
    ensures
        r == spec_opcode_0xa6_size(opcode, data@),
{
    if opcode != 0xA6 || data.len() == 0 {
        None
    } else {
        match data[0] {
            0x02 => Some(4usize),
            _ => Some(2usize),
        }
    }
}

/// The dynamic total size of an instruction whose opcode is `0xAB`, as
/// a function of the bytes that follow the opcode.
pub open spec fn spec_opcode_0xab_size(opcode: u8, data: Seq<u8>) -> Option<usize> {
    if opcode != 0xAB || data.len() == 0 {
        None
    } else {
        match data[0] {
            0x00 | 0x01 | 0x02 | 0x03 | 0x04 | 0x05 | 0x06 | 0x07 | 0x08 | 0x09 | 0x0A | 0x0B | 0x0C | 0x0D | 0x0F | 0x10 | 0x12 | 0x13 | 0x19 | 0x1A => Some(2usize),
            0x11 | 0x14 | 0x15 | 0x16 | 0x17 | 0x18 => Some(4usize),
            0x1B | 0x1C => Some(6usize),
            _ => None,
        }
    }
}

/// Resolves the total size of a `0xAB` instruction from its first
/// parameter byte.
pub fn determine_opcode_0xab_size(
    opcode: u8,
    data: &[u8],
    _previous_opcodes: &[EventOpcode],
) -> (r: Option<usize>)
    ensures
        r == spec_opcode_0xab_size(opcode, data@),
{
    if opcode != 0xAB || data.len() == 0 {
        None
    } else {
        match data[0] {
            0x00 | 0x01 | 0x02 | 0x03 | 0x04 | 0x05 | 0x06 | 0x07 | 0x08 | 0x09 | 0x0A | 0x0B | 0x0C | 0x0D | 0x0F | 0x10 | 0x12 | 0x13 | 0x19 | 0x1A => Some(2usize),
            0x11 | 0x14 | 0x15 | 0x16 | 0x17 | 0x18 => Some(4usize),
            0x1B | 0x1C => Some(6usize),
            _ => None,
        }
    }
}

/// The dynamic total size of an instruction whose opcode is `0xAC`, as
/// a function of the bytes that follow the opcode.
pub open spec fn spec_opcode_0xac_size(opcode: u8, data: Seq<u8>) -> Option<usize> {
    if opcode != 0xAC || data.len() == 0 {
        None
    } else {
        match data[0] {
            0x00 | 0x01 => Some(4usize),
            0x02 | 0x03 => Some(6usize),
            0x04 => Some(8usize),
            _ => None,
        }
    }
}

/// Resolves the total size of a `0xAC` instruction from its first
/// parameter byte.
pub fn determine_opcode_0xac_size(
    opcode: u8,
    data: &[u8],
    _previous_opcodes: &[EventOpcode],
) -> (r: Option<usize>)
    ensures
        r == spec_opcode_0xac_size(opcode, data@),
{
    if opcode != 0xAC || data.len() == 0 {
        None
    } else {
        match data[0] {
            0x00 | 0x01 => Some(4usize),
            0x02 | 0x03 => Some(6usize),
            0x04 => Some(8usize),
            _ => None,
        }
    }
}

/// The dynamic total size of an instruction whose opcode is `0xAE`, as
/// a function of the bytes that follow the opcode.
pub open spec fn spec_opcode_0xae_size(opcode: u8, data: Seq<u8>) -> Option<usize> {
    if opcode != 0xAE || data.len() == 0 {
        None
    } else {
        match data[0] {
            0x00 | 0x06 => Some(6usize),
            0x01 | 0x02 | 0x03 | 0x04 => Some(8usize),
            0x05 | 0x07 | 0x08 => Some(10usize),
            _ => None,
        }
    }
}

/// Resolves the total size of a `0xAE` instruction from its first
/// parameter byte.
pub fn determine_opcode_0xae_size(
    opcode: u8,
    data: &[u8],
    _previous_opcodes: &[EventOpcode],
) -> (r: Option<usize>)
    ensures
        r == spec_opcode_0xae_size(opcode, data@),
{
    if opcode != 0xAE || data.len() == 0 {
        None
    } else {
        match data[0] {
            0x00 | 0x06 => Some(6usize),
            0x01 | 0x02 | 0x03 | 0x04 => Some(8usize),
            0x05 | 0x07 | 0x08 => Some(10usize),
            _ => None,
        }
    }
}

/// The dynamic total size of an instruction whose opcode is `0xB2`, as
/// a function of the bytes that follow the opcode.
pub open spec fn spec_opcode_0xb2_size(opcode: u8, data: Seq<u8>) -> Option<usize> {
    if opcode != 0xB2 || data.len() == 0 {
        None
    } else {
        match data[0] {
            0x00 => Some(4usize),
            0x01 => Some(2usize),
            _ => None,
        }
    }
}

/// Resolves the total size of a `0xB2` instruction from its first
/// parameter byte.
pub fn determine_opcode_0xb2_size(
    opcode: u8,
    data: &[u8],
    _previous_opcodes: &[EventOpcode],
) -> (r: Option<usize>)
    ensures
        r == spec_opcode_0xb2_size(opcode, data@),
{
    if opcode != 0xB2 || data.len() == 0 {
        None
    } else {
        match data[0] {
            0x00 => Some(4usize),
            0x01 => Some(2usize),
            _ => None,
        }
    }
}

/// The dynamic total size of an instruction whose opcode is `0xB3`, as
/// a function of the bytes that follow the opcode.
pub open spec fn spec_opcode_0xb3_size(opcode: u8, data: Seq<u8>) -> Option<usize> {
    if opcode != 0xB3 || data.len() == 0 {
        None
    } else {
        match data[0] {
            0x00 | 0x03 | 0x04 | 0x06 | 0x07 | 0x09 => Some(4usize),
            0x01 => Some(14usize),
            0x02 | 0x08 => Some(2usize),
            0x05 => Some(18usize),
            _ => Some(2usize),
        }
    }
}

/// Resolves the total size of a `0xB3` instruction from its first
/// parameter byte.
pub fn determine_opcode_0xb3_size(
    opcode: u8,
    data: &[u8],
    _previous_opcodes: &[EventOpcode],
) -> (r: Option<usize>)
    ensures
        r == spec_opcode_0xb3_size(opcode, data@),
{
    if opcode != 0xB3 || data.len() == 0 {
        None
    } else {
        match data[0] {
            0x00 | 0x03 | 0x04 | 0x06 | 0x07 | 0x09 => Some(4usize),
            0x01 => Some(14usize),
            0x02 | 0x08 => Some(2usize),
            0x05 => Some(18usize),
            _ => Some(2usize),
        }
    }
}

/// The dynamic total size of an instruction whose opcode is `0xB6`, as
/// a function of the bytes that follow the opcode.
pub open spec fn spec_opcode_0xb6_size(opcode: u8, data: Seq<u8>) -> Option<usize> {
    if opcode != 0xB6 || data.len() == 0 {
        None
    } else {
        match data[0] {
            0x00 | 0x01 | 0x02 | 0x03 | 0x04 | 0x05 | 0x06 | 0x07 | 0x08 | 0x09 | 0x0A | 0x0C | 0x0F | 0x11 => Some(4usize),
            0x0B => Some(20usize),
            0x0D => Some(14usize),
            0x0E => Some(16usize),
            0x10 | 0x12 | 0x13 => Some(2usize),
            0x14 | 0x15 => Some(6usize),
            _ => None,
        }
    }
}

/// Resolves the total size of a `0xB6` instruction from its first
/// parameter byte.
pub fn determine_opcode_0xb6_size(
    opcode: u8,
    data: &[u8],
    _previous_opcodes: &[EventOpcode],
) -> (r: Option<usize>)
    ensures
        r == spec_opcode_0xb6_size(opcode, data@),
{
    if opcode != 0xB6 || data.len() == 0 {
        None
    } else {
        match data[0] {
            0x00 | 0x01 | 0x02 | 0x03 | 0x04 | 0x05 | 0x06 | 0x07 | 0x08 | 0x09 | 0x0A | 0x0C | 0x0F | 0x11 => Some(4usize),
            0x0B => Some(20usize),
            0x0D => Some(14usize),
            0x0E => Some(16usize),
            0x10 | 0x12 | 0x13 => Some(2usize),
            0x14 | 0x15 => Some(6usize),
            _ => None,
        }
    }
}

/// The dynamic total size of an instruction whose opcode is `0xBF`, as
/// a function of the bytes that follow the opcode.
pub open spec fn spec_opcode_0xbf_size(opcode: u8, data: Seq<u8>) -> Option<usize> {
    if opcode != 0xBF || data.len() == 0 {
        None
    } else {
        match data[0] {
            0x00 | 0x60 => Some(8usize),
            _ => Some(10usize),
        }
    }
}

/// Resolves the total size of a `0xBF` instruction from its first
/// parameter byte.
pub fn determine_opcode_0xbf_size(
    opcode: u8,
    data: &[u8],
    _previous_opcodes: &[EventOpcode],
) -> (r: Option<usize>)
    ensures
        r == spec_opcode_0xbf_size(opcode, data@),
{
    if opcode != 0xBF || data.len() == 0 {
        None
    } else {
        match data[0] {
            0x00 | 0x60 => Some(8usize),
            _ => Some(10usize),
        }
    }
}

/// The dynamic total size of an instruction whose opcode is `0xCC`, as
/// a function of the bytes that follow the opcode.
pub open spec fn spec_opcode_0xcc_size(opcode: u8, data: Seq<u8>) -> Option<usize> {
    if opcode != 0xCC || data.len() == 0 {
        None
    } else {
        match data[0] {
            0x00 | 0x01 | 0x03 => Some(10usize),
            0x02 => Some(14usize),
            0x10 => Some(6usize),
            0x11 | 0x20 => Some(4usize),
            _ => None,
        }
    }
}

/// Resolves the total size of a `0xCC` instruction from its first
/// parameter byte.
pub fn determine_opcode_0xcc_size(
    opcode: u8,
    data: &[u8],
    _previous_opcodes: &[EventOpcode],
) -> (r: Option<usize>)
    ensures
        r == spec_opcode_0xcc_size(opcode, data@),
{
    if opcode != 0xCC || data.len() == 0 {
        None
    } else {
        match data[0] {
            0x00 | 0x01 | 0x03 => Some(10usize),
            0x02 => Some(14usize),
            0x10 => Some(6usize),
            0x11 | 0x20 => Some(4usize),
            _ => None,
        }
    }
}

/// The dynamic total size of an instruction whose opcode is `0xD4`, as
/// a function of the bytes that follow the opcode.
pub open spec fn spec_opcode_0xd4_size(opcode: u8, data: Seq<u8>) -> Option<usize> {
    if opcode != 0xD4 || data.len() == 0 {
        None
    } else {
        None
    }
}

/// Resolves the total size of a `0xD4` instruction from its first
/// parameter byte.
pub fn determine_opcode_0xd4_size(
    opcode: u8,
    data: &[u8],
    _previous_opcodes: &[EventOpcode],
) -> (r: Option<usize>)
    ensures
        r == spec_opcode_0xd4_size(opcode, data@),
{
    if opcode != 0xD4 || data.len() == 0 {
        None
    } else {
        None
    }
}

/// The dynamic total size of an instruction whose opcode is `0xD8`, as
/// a function of the bytes that follow the opcode.
pub open spec fn spec_opcode_0xd8_size(opcode: u8, data: Seq<u8>) -> Option<usize> {
    if opcode != 0xD8 || data.len() == 0 {
        None
    } else {
        match data[0] {
            0x00 => Some(6usize),
            0x01 | 0x02 | 0x03 => Some(8usize),
            0x04 => Some(12usize),
            _ => Some(6usize),
        }
    }
}

/// Resolves the total size of a `0xD8` instruction from its first
/// parameter byte.
pub fn determine_opcode_0xd8_size(
    opcode: u8,
    data: &[u8],
    _previous_opcodes: &[EventOpcode],
) -> (r: Option<usize>)
    ensures
        r == spec_opcode_0xd8_size(opcode, data@),
{
    if opcode != 0xD8 || data.len() == 0 {
        None
    } else {
        match data[0] {
            0x00 => Some(6usize),
            0x01 | 0x02 | 0x03 => Some(8usize),
            0x04 => Some(12usize),
            _ => Some(6usize),
        }
    }
}

/// What the dynamic resolver registered for an opcode answers; `None` for
/// opcodes without one.
pub open spec fn spec_resolve(op: u8, data: Seq<u8>) -> Option<usize> {
    match op {
        0x1F => spec_opcode_0x1f_size(op, data),
        0x46 => spec_opcode_0x46_size(op, data),
        0x47 => spec_opcode_0x47_size(op, data),
        0x59 => spec_opcode_0x59_size(op, data),
        0x5A => spec_opcode_0x5a_size(op, data),
        0x5B => spec_opcode_0x5b_size(op, data),
        0x5C => spec_opcode_0x5c_size(op, data),
        0x5F => spec_opcode_0x5f_size(op, data),
        0x60 => spec_opcode_0x60_size(op, data),
        0x66 => spec_opcode_0x66_size(op, data),
        0x71 => spec_opcode_0x71_size(op, data),
        0x72 => spec_opcode_0x72_size(op, data),
        0x75 => spec_opcode_0x75_size(op, data),
        0x79 => spec_opcode_0x79_size(op, data),
        0x7A => spec_opcode_0x7a_size(op, data),
        0x7E => spec_opcode_0x7e_size(op, data),
        0x8C => spec_opcode_0x8c_size(op, data),
        0x9D => spec_opcode_0x9d_size(op, data),
        0xA6 => spec_opcode_0xa6_size(op, data),
        0xAB => spec_opcode_0xab_size(op, data),
        0xAC => spec_opcode_0xac_size(op, data),
        0xAE => spec_opcode_0xae_size(op, data),
        0xB2 => spec_opcode_0xb2_size(op, data),
        0xB3 => spec_opcode_0xb3_size(op, data),
        0xB6 => spec_opcode_0xb6_size(op, data),
        0xBF => spec_opcode_0xbf_size(op, data),
        0xCC => spec_opcode_0xcc_size(op, data),
        0xD4 => spec_opcode_0xd4_size(op, data),
        0xD8 => spec_opcode_0xd8_size(op, data),
        _ => None,
    }
}

/// Invokes the dynamic size resolver registered for an opcode, handing it
/// the opcode byte, the bytes from the current position to the series end,
/// and the instructions decoded so far in the series.
pub fn resolve_opcode_size(
    opcode: u8,
    data: &[u8],
    previous_opcodes: &[EventOpcode],
) -> (r: Option<usize>)
    ensures
        r == spec_resolve(opcode, data@),
{
    match opcode {
        0x1F => determine_opcode_0x1f_size(opcode, data, previous_opcodes),
        0x46 => determine_opcode_0x46_size(opcode, data, previous_opcodes),
        0x47 => determine_opcode_0x47_size(opcode, data, previous_opcodes),
        0x59 => determine_opcode_0x59_size(opcode, data, previous_opcodes),
        0x5A => determine_opcode_0x5a_size(opcode, data, previous_opcodes),
        0x5B => determine_opcode_0x5b_size(opcode, data, previous_opcodes),
        0x5C => determine_opcode_0x5c_size(opcode, data, previous_opcodes),
        0x5F => determine_opcode_0x5f_size(opcode, data, previous_opcodes),
        0x60 => determine_opcode_0x60_size(opcode, data, previous_opcodes),
        0x66 => determine_opcode_0x66_size(opcode, data, previous_opcodes),
        0x71 => determine_opcode_0x71_size(opcode, data, previous_opcodes),
        0x72 => determine_opcode_0x72_size(opcode, data, previous_opcodes),
        0x75 => determine_opcode_0x75_size(opcode, data, previous_opcodes),
        0x79 => determine_opcode_0x79_size(opcode, data, previous_opcodes),
        0x7A => determine_opcode_0x7a_size(opcode, data, previous_opcodes),
        0x7E => determine_opcode_0x7e_size(opcode, data, previous_opcodes),
        0x8C => determine_opcode_0x8c_size(opcode, data, previous_opcodes),
        0x9D => determine_opcode_0x9d_size(opcode, data, previous_opcodes),
        0xA6 => determine_opcode_0xa6_size(opcode, data, previous_opcodes),
        0xAB => determine_opcode_0xab_size(opcode, data, previous_opcodes),
        0xAC => determine_opcode_0xac_size(opcode, data, previous_opcodes),
        0xAE => determine_opcode_0xae_size(opcode, data, previous_opcodes),
        0xB2 => determine_opcode_0xb2_size(opcode, data, previous_opcodes),
        0xB3 => determine_opcode_0xb3_size(opcode, data, previous_opcodes),
        0xB6 => determine_opcode_0xb6_size(opcode, data, previous_opcodes),
        0xBF => determine_opcode_0xbf_size(opcode, data, previous_opcodes),
        0xCC => determine_opcode_0xcc_size(opcode, data, previous_opcodes),
        0xD4 => determine_opcode_0xd4_size(opcode, data, previous_opcodes),
        0xD8 => determine_opcode_0xd8_size(opcode, data, previous_opcodes),
        _ => None,
    }
}

} // verus!
