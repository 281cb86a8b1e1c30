use vstd::prelude::*;
use crate::firmware::{first_existing_spec, large_marker, staged_vars_name, Candidate};
use crate::paths::{contains_seq, joined};
use crate::session::{step_spec, start_spec, ActionView, Event, Stage, UefiLaunchView};

verus! {

/// A candidate that exists is selected as soon as no earlier candidate
/// exists: in particular the first-listed candidate, where it exists, wins
/// over every later one.
pub proof fn lemma_first_existing_selected(cs: Seq<Candidate>, i: int)
    requires
        0 <= i < cs.len(),
        cs[i].exists,
        forall|k: int| 0 <= k < i ==> !cs[k].exists,
    ensures
        first_existing_spec(cs) == Some(cs[i].path@),
    decreases i,
{
    if i > 0 {
        let rest = cs.drop_first();
        assert forall|k: int| 0 <= k < i - 1 implies !rest[k].exists by {
            assert(rest[k] == cs[k + 1]);
        }
        lemma_first_existing_selected(rest, i - 1);
    }
}

/// Resolution finds nothing exactly when no candidate exists.
pub proof fn lemma_first_existing_none(cs: Seq<Candidate>)
    ensures
        first_existing_spec(cs) is None <==> forall|k: int| 0 <= k < cs.len() ==> !cs[k].exists,
    decreases cs.len(),
{
    if cs.len() > 0 {
        let rest = cs.drop_first();
        lemma_first_existing_none(rest);
        if forall|k: int| 0 <= k < rest.len() ==> !rest[k].exists {
            if !cs[0].exists {
                assert forall|k: int| 0 <= k < cs.len() implies !cs[k].exists by {
                    if k > 0 {
                        assert(cs[k] == rest[k - 1]);
                    }
                }
            }
        } else {
            let k = choose|k: int| 0 <= k < rest.len() && rest[k].exists;
            assert(cs[k + 1] == rest[k]);
        }
    }
}

/// A template whose file name carries the large-variant marker is staged
/// under a different name, and so at a different path in the same
/// directory, than a template whose file name does not.
pub proof fn lemma_staged_names_distinct(marked: Seq<char>, plain: Seq<char>, dir: Seq<char>)
    requires
        contains_seq(marked, large_marker()),
        !contains_seq(plain, large_marker()),
    ensures
        staged_vars_name(marked) != staged_vars_name(plain),
        joined(dir, staged_vars_name(marked)) != joined(dir, staged_vars_name(plain)),
{
    reveal_strlit("OVMF_VARS_4M.writable.fd");
    reveal_strlit("OVMF_VARS.writable.fd");
    assert(staged_vars_name(marked).len() != staged_vars_name(plain).len());
    assert(joined(dir, staged_vars_name(marked)).len() != joined(dir, staged_vars_name(plain)).len());
}

/// Where no candidate exists for one of the firmware roles, the launch
/// fails at resolution and asks for no action at all: no directory is
/// created and nothing is copied. Where both resolve, the first action is
/// the creation of the scratch directory.
pub proof fn lemma_unresolved_firmware_stops_first(
    code: Seq<Candidate>,
    vars: Seq<Candidate>,
    target_dir: Option<Seq<char>>,
    image: Seq<char>,
)
    ensures
        (forall|k: int| 0 <= k < code.len() ==> !code[k].exists) || (forall|k: int|
            0 <= k < vars.len() ==> !vars[k].exists) ==> start_spec(
            code,
            vars,
            target_dir,
            image,
        ) is Err,
        start_spec(code, vars, target_dir, image) matches Ok((l, a)) ==> a is CreateDir
            && l.stage == Stage::CreateDir,
{
    lemma_first_existing_none(code);
    lemma_first_existing_none(vars);
}

/// The stage that follows a given one when its action succeeds.
pub open spec fn next_in_order(s: Stage) -> Stage {
    match s {
        Stage::CreateDir => Stage::CopyVars,
        Stage::CopyVars => Stage::CheckImage,
        Stage::CheckImage => Stage::Run,
        _ => Stage::Done,
    }
}

/// A launch either moves on to the next stage or ends: the directory is
/// created before the vars copy is made, the copy before the image is
/// checked, and the image is checked before the emulator is run.
pub proof fn lemma_stages_advance_in_order(l: UefiLaunchView, e: Event)
    requires
        l.stage != Stage::Done,
    ensures
        step_spec(l, e).0 == next_in_order(l.stage) || step_spec(l, e).0 == Stage::Done,
        step_spec(l, e).1 is Run <==> (l.stage == Stage::CheckImage && e == Event::Succeeded),
        step_spec(l, e).0 == Stage::Done <==> (step_spec(l, e).1 is Exit || step_spec(l, e).1 is Abort),
{
}

/// A missing OS image ends the launch with status 2, and the emulator is
/// never run.
pub proof fn lemma_missing_image_exits_without_launch(l: UefiLaunchView, e: Event)
    requires
        l.stage == Stage::CheckImage,
        e != Event::Succeeded,
    ensures
        step_spec(l, e) == (Stage::Done, ActionView::Exit(2)),
{
}

} // verus!
