//! Audio rules: stepping through the layers of the layered music, and the
//! recordings that world sound emitters play.
use vstd::prelude::*;

verus! {

/// The keys that change the number of active music layers.
#[derive(Debug, Clone, Copy, PartialEq, Eq, Structural)]
pub enum LayerKey {
    /// One more layer, up to four.
    Up,
    /// One layer fewer, down to none.
    Down,
}

/// What to do with the layered music after a key press.
#[derive(Debug, Clone, Copy, PartialEq, Eq, Structural)]
pub enum LayerCommand {
    /// Nothing beyond setting the level.
    Keep,
    /// Start playing the layered music.
    Play,
    /// Stop playing the layered music.
    Stop,
}

/// The highest layer level.
pub const MAX_LAYER_LEVEL: usize = 4;

/// The level after a key press: one up, at most four, or one down, at least zero.
pub open spec fn spec_next_level(level: nat, key: LayerKey) -> nat {
    match key {
        LayerKey::Up => if level + 1 < 4 { (level + 1) as nat } else { 4 },
        LayerKey::Down => if level == 0 { 0 } else { (level - 1) as nat },
    }
}

/// The command after a key press: moving up starts music that is not playing;
/// moving down to zero stops music that is playing.
pub open spec fn spec_layer_command(next_level: nat, key: LayerKey, is_active: bool) -> LayerCommand {
    match key {
        LayerKey::Up => if !is_active { LayerCommand::Play } else { LayerCommand::Keep },
        LayerKey::Down => if next_level == 0 && is_active { LayerCommand::Stop } else { LayerCommand::Keep },
    }
}

/// The new layer level and the command to issue, for a key press at `level`
/// while the music is playing or not. The music's amount is the level divided
/// by four.
pub fn layer_step(level: usize, key: LayerKey, is_active: bool) -> (r: (usize, LayerCommand))
    requires
        level < usize::MAX,
    ensures
        r.0 == spec_next_level(level as nat, key),
        r.1 == spec_layer_command(r.0 as nat, key, is_active),
{
    match key {
        LayerKey::Up => {
            let next = if level + 1 < MAX_LAYER_LEVEL { level + 1 } else { MAX_LAYER_LEVEL };
            let command = if !is_active { LayerCommand::Play } else { LayerCommand::Keep };
            (next, command)
        },
        LayerKey::Down => {
            let next = if level == 0 { 0 } else { level - 1 };
            let command = if next == 0 && is_active { LayerCommand::Stop } else { LayerCommand::Keep };
            (next, command)
        },
    }
}

/// The layer level never leaves the range from zero to four once it is in it,
/// and four presses of the up key from zero reach the top.
pub proof fn lemma_level_stays_in_range(level: nat, key: LayerKey)
    requires
        level <= 4,
    ensures
        spec_next_level(level, key) <= 4,
        spec_next_level(spec_next_level(spec_next_level(spec_next_level(0, LayerKey::Up), LayerKey::Up), LayerKey::Up), LayerKey::Up) == 4,
{
}

/// The sounds that an emitter placed in the world can play.
#[derive(Debug, Clone, Copy, PartialEq, Eq, Structural)]
pub enum WorldSounds {
    Corpo,
    Corpo2,
    Computer,
    Light1,
    Light2,
    Voices,
    Mouth,
}

/// The asset path of a world sound.
pub open spec fn spec_world_sound_path(sound: WorldSounds) -> Seq<char> {
    match sound {
        WorldSounds::Corpo => "audio/music/corpo slop to eat your computer to.ogg"@,
        WorldSounds::Corpo2 => "audio/music/corpo slorpo feverrrrrrrr.ogg"@,
        WorldSounds::Computer => "audio/sound_effects/office/computer.ogg"@,
        WorldSounds::Light1 => "audio/sound_effects/office/fluorescent-light-1.ogg"@,
        WorldSounds::Light2 => "audio/sound_effects/office/fluorescent-light-2.ogg"@,
        WorldSounds::Voices => "audio/sound_effects/office/voices.ogg"@,
        WorldSounds::Mouth => "audio/sound_effects/mouth.ogg"@,
    }
}

/// The asset path of the recording that an emitter of the given sound loops.
pub fn world_sound_path(sound: WorldSounds) -> (r: &'static str)
    ensures
        r@ == spec_world_sound_path(sound),
{
    match sound {
        WorldSounds::Corpo => "audio/music/corpo slop to eat your computer to.ogg",
        WorldSounds::Corpo2 => "audio/music/corpo slorpo feverrrrrrrr.ogg",
        WorldSounds::Computer => "audio/sound_effects/office/computer.ogg",
        WorldSounds::Light1 => "audio/sound_effects/office/fluorescent-light-1.ogg",
        WorldSounds::Light2 => "audio/sound_effects/office/fluorescent-light-2.ogg",
        WorldSounds::Voices => "audio/sound_effects/office/voices.ogg",
        WorldSounds::Mouth => "audio/sound_effects/mouth.ogg",
    }
}

/// The layer keys step the level by one within zero to four: up adds one below
/// four and stays at four, down takes one above zero and stays at zero, and a
/// step up undoes a step down and the other way round. Up starts the music
/// exactly when it is not playing and never stops it; down stops it exactly
/// when it is playing and the level reaches zero, and never starts it.
pub proof fn lemma_layer_key_laws(level: nat, next: nat, is_active: bool)
    requires
        level <= 4,
    ensures
        level < 4 ==> spec_next_level(level, LayerKey::Up) == level + 1,
        spec_next_level(4, LayerKey::Up) == 4,
        level > 0 ==> spec_next_level(level, LayerKey::Down) == level - 1,
        spec_next_level(0, LayerKey::Down) == 0,
        level < 4 ==> spec_next_level(spec_next_level(level, LayerKey::Up), LayerKey::Down) == level,
        level > 0 ==> spec_next_level(spec_next_level(level, LayerKey::Down), LayerKey::Up) == level,
        spec_layer_command(next, LayerKey::Up, is_active) == LayerCommand::Play <==> !is_active,
        spec_layer_command(next, LayerKey::Up, is_active) != LayerCommand::Stop,
        spec_layer_command(next, LayerKey::Down, is_active) == LayerCommand::Stop <==> (next == 0 && is_active),
        spec_layer_command(next, LayerKey::Down, is_active) != LayerCommand::Play,
{
}

/// Different world sounds play different recordings.
pub proof fn lemma_world_sound_paths_differ(a: WorldSounds, b: WorldSounds)
    requires
        a != b,
    ensures
        spec_world_sound_path(a) != spec_world_sound_path(b),
{
    reveal_strlit("audio/music/corpo slop to eat your computer to.ogg");
    reveal_strlit("audio/music/corpo slorpo feverrrrrrrr.ogg");
    reveal_strlit("audio/sound_effects/office/computer.ogg");
    reveal_strlit("audio/sound_effects/office/fluorescent-light-1.ogg");
    reveal_strlit("audio/sound_effects/office/fluorescent-light-2.ogg");
    reveal_strlit("audio/sound_effects/office/voices.ogg");
    reveal_strlit("audio/sound_effects/mouth.ogg");
    let pa = spec_world_sound_path(a);
    let pb = spec_world_sound_path(b);
    if pa.len() == pb.len() {
        assert(pa[6] != pb[6] || pa[45] != pb[45]);
    }
}

} // verus!
