//! Run preparation: everything a whole run decides, computed and checked
//! before the first emulation step.

use vstd::prelude::*;
use crate::save::{
    SAVE_IMAGE_LEN, SaveError, SaveKind, build_save_image, classified, classify, container_image,
    container_ok,
};
use crate::script::{Action, actions_for, plan, plan_actions};

verus! {

/// Everything a run decides before anything is performed: classify the
/// input by its file name, turn it into a raw save image for the emulation
/// core, and compile the command sequence that will drive the whole run.
/// Every failure happens here, before any emulation step and before the
/// output file exists: an unrecognized extension is rejected as such, and
/// only a compressed container can turn out malformed.
pub fn prepare_run(name: &Vec<u8>, input: Vec<u8>, length_seconds: u32) -> (r: Result<
    (Vec<u8>, Vec<Action>),
    SaveError,
>)
    requires
        length_seconds <= 429496729,
    ensures
        r is Ok ==> {
            &&& classified(name@) is Ok
            &&& r->Ok_0.1@ == plan_actions(classified(name@)->Ok_0, length_seconds as nat)
            &&& (classified(name@)->Ok_0 == SaveKind::RawSave ==> r->Ok_0.0@ == input@)
            &&& (classified(name@)->Ok_0 == SaveKind::CompressedSong ==> r->Ok_0.0@
                == container_image(input@) && r->Ok_0.0@.len() == SAVE_IMAGE_LEN)
        },
        r is Err ==> {
            &&& (classified(name@) matches Err(e) ==> r->Err_0 == e)
            &&& (classified(name@) is Ok ==> classified(name@)->Ok_0 == SaveKind::CompressedSong
                && r->Err_0 == SaveError::MalformedContainer)
        },
        classified(name@) is Err ==> r is Err,
        classified(name@) == Ok::<SaveKind, SaveError>(SaveKind::RawSave) ==> r is Ok,
        classified(name@) == Ok::<SaveKind, SaveError>(SaveKind::CompressedSong) ==> (r is Ok
            <==> container_ok(input@)),
{
    let kind = match classify(name) {
        Ok(kind) => kind,
        Err(e) => {
            return Err(e);
        },
    };
    let image = match build_save_image(&kind, input) {
        Ok(image) => image,
        Err(e) => {
            return Err(e);
        },
    };
    let steps = plan(&kind, length_seconds);
    Ok((image, actions_for(&steps)))
}

} // verus!
