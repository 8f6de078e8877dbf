use vstd::prelude::*;
use vstd::string::StrSliceExecFns;

verus! {

/// The prefix of the targets under which telemetry events of this project
/// are emitted.
pub open spec fn export_target_prefix() -> Seq<char> {
    "tunacode_otel"@
}

/// Whether `text` begins with `prefix`, character for character.
pub fn has_prefix(text: &str, prefix: &str) -> (yes: bool)
    ensures
        yes == prefix@.is_prefix_of(text@),
{
    let wanted = prefix.unicode_len();
    if text.unicode_len() < wanted {
        return false;
    }
    let mut i: usize = 0;
    while i < wanted
        invariant
            i <= wanted,
            wanted == prefix@.len(),
            wanted <= text@.len(),
            forall|k: int| 0 <= k < i ==> prefix@[k] == text@[k],
        decreases wanted - i,
    {
        if text.get_char(i) != prefix.get_char(i) {
            assert(prefix@[i as int] != text@.subrange(0, prefix@.len() as int)[i as int]);
            return false;
        }
        i += 1;
    }
    assert(prefix@ =~= text@.subrange(0, prefix@.len() as int));
    true
}

/// Decides whether an event is exported, from the target it was emitted
/// under: only events whose target begins with the project's telemetry
/// prefix are kept.
pub fn tunacode_export_filter(target: &str) -> (keep: bool)
    ensures
        keep == export_target_prefix().is_prefix_of(target@),
{
    has_prefix(target, "tunacode_otel")
}

} // verus!
