//! Dialogue presentation rules: voice lines, speakers, and when a line moves on.
use vstd::prelude::*;
use vstd::string::StringExecFns;

verus! {

/// Signals that a speaker has changed: a character starts speaking when a line
/// with a character name is presented, and stops when the line is fully shown.
#[derive(Debug, PartialEq, Eq, Hash)]
pub struct SpeakerChangeEvent {
    /// The name of the character who is or was speaking.
    pub character_name: String,
    /// Whether the character just started speaking; otherwise they just stopped.
    pub speaking: bool,
}

/// Calls `str::strip_prefix`: the rest of the text after the prefix when the
/// text starts with it, else none.
#[verifier::external_body]
fn strip_prefix<'a>(s: &'a str, prefix: &str) -> (r: Option<&'a str>)
    ensures
        r is Some <==> (prefix@.len() <= s@.len() && s@.subrange(0, prefix@.len() as int) == prefix@),
        r matches Some(rest) ==> rest@ == s@.subrange(prefix@.len() as int, s@.len() as int),
{
    s.strip_prefix(prefix)
}

/// The id of a line without its "line:" prefix, when it has one.
pub open spec fn spec_line_stem(id: Seq<char>) -> Seq<char> {
    if 5 <= id.len() && id.subrange(0, 5) == "line:"@ {
        id.subrange(5, id.len() as int)
    } else {
        id
    }
}

/// The asset path of the voice recording of a line: "audio/voice/", the line id
/// without its "line:" prefix, and ".ogg".
pub fn voice_line_path(line_id: &str) -> (r: String)
    ensures
        r@ == "audio/voice/"@ + spec_line_stem(line_id@) + ".ogg"@,
{
    proof {
        reveal_strlit("line:");
    }
    let stem = match strip_prefix(line_id, "line:") {
        Some(rest) => rest,
        None => line_id,
    };
    let mut path = String::from_str("audio/voice/");
    path.append(stem);
    path.append(".ogg");
    path
}

/// The name shown for a presented line, and the speaker event to send: the
/// character's name and a start-speaking event when the line has a character,
/// else the empty name and no event.
pub fn present_line_speaker(character_name: Option<&str>) -> (r: (String, Option<SpeakerChangeEvent>))
    ensures
        character_name is None ==> r.0@ == Seq::<char>::empty(),
        character_name is None ==> r.1 is None,
        character_name matches Some(name) ==> r.0@ == name@,
        character_name matches Some(name) ==> (r.1 matches Some(ev) && ev.character_name@ == name@ && ev.speaking),
{
    match character_name {
        Some(name) => (name.to_owned(), Some(SpeakerChangeEvent { character_name: name.to_owned(), speaking: true })),
        None => (String::new(), None),
    }
}

/// What an explicit continue request or the end of a line does to the dialogue.
#[derive(Debug, Clone, Copy, PartialEq, Eq, Structural)]
pub enum ContinueAction {
    /// Show the rest of the line at once.
    FastForward,
    /// Move the dialogue on to its next line and hide the line view.
    Continue,
    /// Nothing.
    Wait,
}

/// The continue rule: a continue request while the line is still being typed
/// shows it at once; otherwise a continue request, or a line that precedes
/// options, moves the dialogue on unless an option selection is shown.
pub fn continue_action(explicit_continue: bool, line_finished: bool, last_before_options: bool, option_selection_shown: bool) -> (r: ContinueAction)
    ensures
        r == (if explicit_continue && !line_finished {
            ContinueAction::FastForward
        } else if (explicit_continue || last_before_options) && !option_selection_shown {
            ContinueAction::Continue
        } else {
            ContinueAction::Wait
        }),
{
    if explicit_continue && !line_finished {
        ContinueAction::FastForward
    } else if (explicit_continue || last_before_options) && !option_selection_shown {
        ContinueAction::Continue
    } else {
        ContinueAction::Wait
    }
}

/// Whether the auto-continue timer runs this frame: only while a fully shown
/// line waits that does not precede options; otherwise it is reset.
pub fn auto_continue_runs(line_finished: bool, last_before_options: bool) -> (r: bool)
    ensures
        r == (line_finished && !last_before_options),
{
    line_finished && !last_before_options
}

/// Whether a dialogue runner moves on: it runs and does not wait for an option.
pub fn runner_moves_on(is_running: bool, waiting_for_option: bool) -> (r: bool)
    ensures
        r == (is_running && !waiting_for_option),
{
    is_running && !waiting_for_option
}

/// The stem of a line id: a "line:" prefix is dropped, whatever follows it,
/// and an id without that prefix is its own stem.
pub proof fn lemma_line_stem_laws(rest: Seq<char>, id: Seq<char>)
    ensures
        spec_line_stem("line:"@ + rest) == rest,
        !(5 <= id.len() && id.subrange(0, 5) == "line:"@) ==> spec_line_stem(id) == id,
{
    reveal_strlit("line:");
    assert(("line:"@ + rest).subrange(0, 5) =~= "line:"@);
    assert(("line:"@ + rest).subrange(5, ("line:"@ + rest).len() as int) =~= rest);
}

} // verus!
