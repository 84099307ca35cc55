use vstd::prelude::*;

use crate::unit::same_text;

verus! {

/// The state in which a unit counts as up.
pub const ACTIVE_STATE: &'static str = "active";

/// The two texts that a unit's state is shown as.
pub struct OutputConfig {
    pub active_output: String,
    pub inactive_output: String,
}

impl OutputConfig {
    pub fn new(active_output: String, inactive_output: String) -> (r: OutputConfig)
        ensures
            r.active_output@ == active_output@,
            r.inactive_output@ == inactive_output@,
    {
        OutputConfig { active_output, inactive_output }
    }
}

/// The text shown for `state`: only the exact state `active` shows as up,
/// every other state (failed, activating, anything unknown) shows as down.
pub open spec fn mapped_output(state: Seq<char>, cfg: OutputConfig) -> Seq<char> {
    if state == ACTIVE_STATE@ {
        cfg.active_output@
    } else {
        cfg.inactive_output@
    }
}

/// The text to show for a unit in `state`.
pub fn map_status_output<'a>(state: &str, cfg: &'a OutputConfig) -> (r: &'a str)
    ensures
        r@ == mapped_output(state@, *cfg),
{
    if same_text(state, ACTIVE_STATE) {
        cfg.active_output.as_str()
    } else {
        cfg.inactive_output.as_str()
    }
}

/// The lines written for one emission: the text, then a blank line in streaming mode.
pub open spec fn emission(output: Seq<char>, streaming: bool) -> Seq<Seq<char>> {
    if streaming {
        seq![output, Seq::empty()]
    } else {
        seq![output]
    }
}

/// The views of a list of lines.
pub open spec fn lines_view(lines: Seq<String>) -> Seq<Seq<char>> {
    lines.map_values(|l: String| l@)
}

/// The lines that one emission of `output` writes.
pub fn emission_lines(output: &str, streaming: bool) -> (r: Vec<String>)
    ensures
        lines_view(r@) == emission(output@, streaming),
{
    let mut r: Vec<String> = Vec::new();
    r.push(output.to_owned());
    if streaming {
        r.push(String::new());
    }
    assert(lines_view(r@) =~= emission(output@, streaming));
    r
}

/// With two distinct texts, a state shows as the active text exactly when it
/// is `active`, and every other state shows as the inactive text.
pub proof fn lemma_binary_output(state: Seq<char>, cfg: OutputConfig)
    requires
        cfg.active_output@ != cfg.inactive_output@,
    ensures
        (mapped_output(state, cfg) == cfg.active_output@) <==> (state == ACTIVE_STATE@),
        state != ACTIVE_STATE@ ==> mapped_output(state, cfg) == cfg.inactive_output@,
{
}

} // verus!
