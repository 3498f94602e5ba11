use vstd::prelude::*;
use crate::common::{Injection, injections_well_formed, matches_table, nops, nop_bytes};

verus! {

/// The game's code patches that the free camera needs in Yakuza Kiwami.
pub open spec fn camera_patch_table() -> Seq<(usize, Seq<u8>, Seq<u8>)> {
    seq![
        // the function that changes the focal length of the cinematics
        (0x187616usize, seq![0xF3u8, 0x0F, 0x11, 0x89, 0xAC, 0x00, 0x00, 0x00], nops(8)),
    ]
}

/// The patches that the free camera applies to Yakuza Kiwami.
pub fn camera_injections() -> (injections: Vec<Injection>)
    ensures
        matches_table(injections@, camera_patch_table()),
        injections_well_formed(injections@),
{
    let injections = vec![
        Injection {
            entry_point: 0x187616,
            f_orig: vec![0xF3, 0x0F, 0x11, 0x89, 0xAC, 0x00, 0x00, 0x00],
            f_rep: nop_bytes(8),
        },
    ];
    assert(matches_table(injections@, camera_patch_table()));
    injections
}

/// The patch that pauses the cinematics of the world in Yakuza Kiwami.
pub fn pause_cinematic_injection() -> (injection: Injection)
    ensures
        injection.entry_point == 0x7BB8C,
        injection.f_orig@ == seq![0x41u8, 0x8A, 0x8D, 0xD1, 0x00, 0x00, 0x00],
        injection.f_rep@ == seq![0xB1u8, 0x01, 0x90, 0x90, 0x90, 0x90, 0x90],
{
    let injection = Injection {
        entry_point: 0x7BB8C,
        f_orig: vec![0x41, 0x8A, 0x8D, 0xD1, 0x00, 0x00, 0x00],
        f_rep: vec![0xB1, 0x01, 0x90, 0x90, 0x90, 0x90, 0x90],
    };
    assert(injection.f_orig@ =~= seq![0x41u8, 0x8A, 0x8D, 0xD1, 0x00, 0x00, 0x00]);
    assert(injection.f_rep@ =~= seq![0xB1u8, 0x01, 0x90, 0x90, 0x90, 0x90, 0x90]);
    injection
}

} // verus!
