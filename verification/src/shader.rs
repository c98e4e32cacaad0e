//! Diagnostics for shader compilation and program linking.
//!
//! The GPU driver reports a compile or link status together with an info log.
//! The policy here is deliberately tolerant: a failure is reported as a
//! human-readable message and execution continues; nothing in this module
//! aborts. The caller reads status and log from the driver and hands them in
//! as plain values.

use vstd::prelude::*;

verus! {

/// Which pipeline stage a shader source is written for.
#[derive(Clone, Copy, PartialEq, Eq, Structural, Debug)]
pub enum ShaderKind {
    Vertex,
    Fragment,
}

/// The label a diagnostic carries for each shader stage.
pub open spec fn spec_stage_label(kind: ShaderKind) -> Seq<char> {
    match kind {
        ShaderKind::Vertex => "vertex"@,
        ShaderKind::Fragment => "fragment"@,
    }
}

/// Driver info logs are read into a buffer of at least this many bytes;
/// longer logs are truncated by the driver, which is acceptable.
pub const INFO_LOG_BUFFER_LEN: usize = 512;

/// The label a diagnostic carries for each shader stage.
pub fn stage_label(kind: ShaderKind) -> (r: &'static str)
    ensures
        r@ == spec_stage_label(kind),
{
    match kind {
        ShaderKind::Vertex => "vertex",
        ShaderKind::Fragment => "fragment",
    }
}

/// The full text of the diagnostic reported for a failed compile of a shader
/// of the given kind, given the driver's info log.
pub open spec fn spec_compile_failure_message(kind: ShaderKind, log: Seq<char>) -> Seq<char> {
    "ERROR: "@ + spec_stage_label(kind) + " shader compile failed\n"@ + log
}

/// The full text of the diagnostic reported for a failed program link, given
/// the driver's info log.
pub open spec fn spec_link_failure_message(log: Seq<char>) -> Seq<char> {
    "ERROR: link failed\n"@ + log
}

/// `needle` occurs contiguously somewhere in `hay`.
pub open spec fn spec_contains_seq(hay: Seq<char>, needle: Seq<char>) -> bool {
    exists|i: int|
        0 <= i && i + needle.len() <= hay.len() && #[trigger] hay.subrange(i, i + needle.len())
            == needle
}

/// The diagnostic for one shader compile attempt: `None` when the driver
/// reported success, otherwise the failure message built from the stage label
/// and the driver's info log. Compile failures are reported, never fatal.
pub fn compile_diagnostic(kind: ShaderKind, success: bool, info_log: &str) -> (r: Option<String>)
    ensures
        success <==> r is None,
        !success ==> (r matches Some(m) && m@ == spec_compile_failure_message(kind, info_log@)),
{
    if success {
        None
    } else {
        let mut m = String::from_str("ERROR: ");
        m.append(stage_label(kind));
        m.append(" shader compile failed\n");
        m.append(info_log);
        Some(m)
    }
}

/// The diagnostic for one program link attempt: `None` when the driver
/// reported success, otherwise the failure message built from the link label
/// and the driver's info log. Link failures are reported, never fatal.
pub fn link_diagnostic(success: bool, info_log: &str) -> (r: Option<String>)
    ensures
        success <==> r is None,
        !success ==> (r matches Some(m) && m@ == spec_link_failure_message(info_log@)),
{
    if success {
        None
    } else {
        let mut m = String::from_str("ERROR: link failed\n");
        m.append(info_log);
        Some(m)
    }
}

/// Law: whatever the info log says, the diagnostic for a failed compile is
/// never empty and contains the stage label.
pub proof fn lemma_compile_failure_message_contains_label(kind: ShaderKind, log: Seq<char>)
    ensures
        spec_compile_failure_message(kind, log).len() > 0,
        spec_contains_seq(spec_compile_failure_message(kind, log), spec_stage_label(kind)),
{
    reveal_strlit("ERROR: ");
    reveal_strlit(" shader compile failed\n");
    let msg = spec_compile_failure_message(kind, log);
    let label = spec_stage_label(kind);
    assert(msg.subrange(7, 7 + label.len() as int) =~= label);
}

/// Law: whatever the info log says, the diagnostic for a failed link is never
/// empty and contains the label "link".
pub proof fn lemma_link_failure_message_contains_label(log: Seq<char>)
    ensures
        spec_link_failure_message(log).len() > 0,
        spec_contains_seq(spec_link_failure_message(log), "link"@),
{
    reveal_strlit("ERROR: link failed\n");
    reveal_strlit("link");
    let msg = spec_link_failure_message(log);
    assert(msg.subrange(7, 7 + "link"@.len() as int) =~= "link"@);
}

} // verus!
