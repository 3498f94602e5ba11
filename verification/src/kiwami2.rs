use vstd::prelude::*;
use crate::common::{
    Injection, MemoryWrite, WriteModel, Memory, injections_well_formed, matches_table, nops,
    nop_bytes, u32_le, u32_to_le_bytes, writes_view, apply_writes, same_targets,
    pairwise_disjoint, holds_writes, lemma_restore, lemma_apply_holds,
};
use crate::controller::spec_combo_held;

verus! {

/// The controller combination (L2 + cross) that switches the free camera.
pub const ACTIVATION_COMBO: u64 = 0x11;

/// True when the controller word holds the activation combination.
pub fn detect_activation_by_controller(value: u64) -> (held: bool)
    ensures
        held == spec_combo_held(value, 0x11),
{
    let result = value & 0x11;
    result == 0x11
}

/// The game's code patches that the free camera needs, as (entry point,
/// original bytes, replacement bytes).
pub open spec fn camera_patch_table() -> Seq<(usize, Seq<u8>, Seq<u8>)> {
    seq![
        // the function that changes the focal length of the cinematics
        (0xB78D87usize, seq![0x89u8, 0x86, 0xB8, 0x00, 0x00, 0x00], nops(6)),
        // the game's own SetCursorPos call
        (0x1BA285Busize, seq![0xFFu8, 0x15, 0x47, 0x52, 0x4A, 0x00], nops(6)),
        // the cinematics of the world
        (
            0xDF6F86usize,
            seq![0x0Fu8, 0x84, 0x5E, 0x02, 0x00, 0x00],
            seq![0xE9u8, 0x5F, 0x02, 0x00, 0x00, 0x90],
        ),
        // UI elements
        (
            0x8B2E8Cusize,
            seq![0x41u8, 0x0F, 0x29, 0x9E, 0x70, 0x01, 0x00, 0x00],
            seq![0x45u8, 0x0F, 0x29, 0x8E, 0x70, 0x01, 0x00, 0x00],
        ),
        // the flashing health bar
        (0x1B71453usize, seq![0xC6u8, 0x04, 0x0B, 0x01], seq![0xC6u8, 0x04, 0x0B, 0x00]),
        // the writers of the UI coordinates
        (
            0x1F0CB72usize,
            seq![
                0x89u8, 0x05, 0x64, 0x06, 0xA1, 0x00, 0x89, 0x0D, 0x52, 0x06, 0xA1, 0x00, 0x89,
                0x05, 0x68, 0x06, 0xA1, 0x00, 0x89, 0x0D, 0x5E, 0x06, 0xA1, 0x00,
            ],
            nops(24),
        ),
    ]
}

/// The patches that the free camera applies to Yakuza Kiwami 2; they can be
/// switched on and off.
pub fn camera_injections() -> (injections: Vec<Injection>)
    ensures
        matches_table(injections@, camera_patch_table()),
        injections_well_formed(injections@),
{
    let injections = vec![
        Injection {
            entry_point: 0xB78D87,
            f_orig: vec![0x89, 0x86, 0xB8, 0x00, 0x00, 0x00],
            f_rep: nop_bytes(6),
        },
        Injection {
            entry_point: 0x1BA285B,
            f_orig: vec![0xFF, 0x15, 0x47, 0x52, 0x4A, 0x00],
            f_rep: nop_bytes(6),
        },
        Injection {
            entry_point: 0xDF6F86,
            f_orig: vec![0x0F, 0x84, 0x5E, 0x02, 0x00, 0x00],
            f_rep: vec![0xE9, 0x5F, 0x02, 0x00, 0x00, 0x90],
        },
        Injection {
            entry_point: 0x8B2E8C,
            f_orig: vec![0x41, 0x0F, 0x29, 0x9E, 0x70, 0x01, 0x00, 0x00],
            f_rep: vec![0x45, 0x0F, 0x29, 0x8E, 0x70, 0x01, 0x00, 0x00],
        },
        Injection {
            entry_point: 0x1B71453,
            f_orig: vec![0xC6, 0x04, 0x0B, 0x01],
            f_rep: vec![0xC6, 0x04, 0x0B, 0x00],
        },
        Injection {
            entry_point: 0x1F0CB72,
            f_orig: vec![
                0x89, 0x05, 0x64, 0x06, 0xA1, 0x00, 0x89, 0x0D, 0x52, 0x06, 0xA1, 0x00, 0x89,
                0x05, 0x68, 0x06, 0xA1, 0x00, 0x89, 0x0D, 0x5E, 0x06, 0xA1, 0x00,
            ],
            f_rep: nop_bytes(24),
        },
    ];
    assert(matches_table(injections@, camera_patch_table()));
    assert(injections_well_formed(injections@));
    injections
}

/// The single-byte writes that pulse the game's pause value at `addr`:
/// first 1, then (after a short wait) 0. Nothing when the address is
/// unknown (0).
pub open spec fn pause_pulse_plan(addr: usize) -> Seq<WriteModel> {
    if addr == 0 {
        seq![]
    } else {
        seq![
            WriteModel { absolute: true, address: addr as int, bytes: seq![1u8] },
            WriteModel { absolute: true, address: addr as int, bytes: seq![0u8] },
        ]
    }
}

/// The writes that make the game pause or resume: 1 then 0 at the pause
/// value, which the caller writes with a short wait in between.
pub fn trigger_pause_writes(addr: usize) -> (writes: Vec<MemoryWrite>)
    ensures
        writes_view(writes@) == pause_pulse_plan(addr),
        addr == 0 ==> writes@.len() == 0,
        addr != 0 ==> writes@.len() == 2 && writes@[0].address == addr && writes@[0].absolute
            && writes@[0].bytes@ == seq![1u8] && writes@[1].address == addr
            && writes@[1].absolute && writes@[1].bytes@ == seq![0u8],
{
    let mut writes: Vec<MemoryWrite> = Vec::new();
    if addr == 0 {
        assert(writes_view(writes@) =~= pause_pulse_plan(addr));
        return writes;
    }
    let on: Vec<u8> = vec![1];
    let off: Vec<u8> = vec![0];
    assert(on@ =~= seq![1u8]);
    assert(off@ =~= seq![0u8]);
    writes.push(MemoryWrite { address: addr, bytes: on, absolute: true });
    writes.push(MemoryWrite { address: addr, bytes: off, absolute: true });
    assert(writes_view(writes@)[0] == pause_pulse_plan(addr)[0]);
    assert(writes_view(writes@)[1] == pause_pulse_plan(addr)[1]);
    assert(writes_view(writes@) =~= pause_pulse_plan(addr));
    writes
}

/// Module-relative addresses of the values that place the UI on screen.
pub open spec fn ui_offsets() -> Seq<usize> {
    seq![0x291D1DCusize, 0x291D1D0, 0x291D1EC, 0x291D1E8, 0x291D1E4]
}

/// The writes that hide the UI (every value set to -1) or put back the
/// values that were saved.
pub open spec fn ui_plan(saved: Seq<u32>, hide: bool) -> Seq<WriteModel> {
    Seq::new(
        5,
        |i: int|
            WriteModel {
                absolute: false,
                address: ui_offsets()[i] as int,
                bytes: if hide {
                    u32_le(0xFFFF_FFFF)
                } else {
                    u32_le(saved[i])
                },
            },
    )
}

/// The UI placement values of the game as they were before the tool hid the
/// UI. All zero until they are read.
pub struct UiBackup {
    pub saved: [u32; 5],
}

impl UiBackup {
    /// Nothing saved yet.
    pub fn new() -> (backup: UiBackup)
        ensures
            backup.saved@ == seq![0u32, 0, 0, 0, 0],
    {
        UiBackup { saved: [0, 0, 0, 0, 0] }
    }

    /// The module-relative addresses of the UI values, in the order in which
    /// they are saved.
    pub fn offsets() -> (offsets: Vec<usize>)
        ensures
            offsets@ == ui_offsets(),
    {
        let offsets: Vec<usize> = vec![0x291D1DC, 0x291D1D0, 0x291D1EC, 0x291D1E8, 0x291D1E4];
        assert(offsets@ =~= ui_offsets());
        offsets
    }

    /// The values are read from the game while the first saved one is still 0.
    pub fn needs_capture(&self) -> (needed: bool)
        ensures
            needed == (self.saved@[0] == 0),
    {
        self.saved[0] == 0
    }

    /// Keep the values read from the game, in the order of `offsets`.
    pub fn capture(&mut self, values: [u32; 5])
        ensures
            final(self).saved@ == values@,
    {
        self.saved = values;
    }

    /// The writes that hide the UI (`hide`) or put the saved values back.
    pub fn writes(&self, hide: bool) -> (writes: Vec<MemoryWrite>)
        ensures
            writes_view(writes@) == ui_plan(self.saved@, hide),
    {
        let offsets = UiBackup::offsets();
        let mut writes: Vec<MemoryWrite> = Vec::new();
        for i in 0..5
            invariant
                offsets@ == ui_offsets(),
                writes@.len() == i,
                forall|j: int| 0 <= j < i ==> (#[trigger] writes@[j])@ == ui_plan(self.saved@, hide)[j],
        {
            let value: u32 = if hide { 0xFFFF_FFFF } else { self.saved[i] };
            writes.push(MemoryWrite { address: offsets[i], bytes: u32_to_le_bytes(value), absolute: false });
        }
        assert(writes_view(writes@) =~= ui_plan(self.saved@, hide));
        writes
    }
}

/// Hiding the UI and then putting the saved values back leaves the game's
/// memory as it was, when the saved values are those the game held.
pub proof fn lemma_ui_restored(saved: Seq<u32>, mem: Memory)
    requires
        saved.len() == 5,
        holds_writes(mem, ui_plan(saved, false)),
    ensures
        apply_writes(apply_writes(mem, ui_plan(saved, true)), ui_plan(saved, false)) == mem,
{
    let h = ui_plan(saved, true);
    let r = ui_plan(saved, false);
    assert(same_targets(h, r));
    lemma_ui_plan_disjoint(saved, false);
    lemma_restore(mem, h, r);
}

/// Hiding the UI sets every byte of the five UI values to 0xFF (the value
/// -1), whatever the memory held; putting the saved values back leaves each
/// UI value holding the bytes of its saved value, least significant first.
pub proof fn lemma_ui_writes_effect(saved: Seq<u32>, mem: Memory)
    requires
        saved.len() == 5,
    ensures
        forall|i: int, o: int|
            0 <= i < 5 && 0 <= o < 4 ==> #[trigger] apply_writes(mem, ui_plan(saved, true))[(
                false,
                ui_offsets()[i] + o,
            )] == 0xFFu8,
        forall|i: int, o: int|
            0 <= i < 5 && 0 <= o < 4 ==> #[trigger] apply_writes(mem, ui_plan(saved, false))[(
                false,
                ui_offsets()[i] + o,
            )] == u32_le(saved[i])[o],
{
    lemma_ui_plan_disjoint(saved, true);
    lemma_ui_plan_disjoint(saved, false);
    lemma_apply_holds(mem, ui_plan(saved, true));
    lemma_apply_holds(mem, ui_plan(saved, false));
    assert(u32_le(0xFFFF_FFFF) =~= seq![0xFFu8, 0xFF, 0xFF, 0xFF]);
    assert forall|i: int, o: int| 0 <= i < 5 && 0 <= o < 4 implies #[trigger] apply_writes(
        mem,
        ui_plan(saved, true),
    )[(false, ui_offsets()[i] + o)] == 0xFFu8 by {
        assert(ui_plan(saved, true)[i].covers((false, ui_offsets()[i] + o)));
    }
    assert forall|i: int, o: int| 0 <= i < 5 && 0 <= o < 4 implies #[trigger] apply_writes(
        mem,
        ui_plan(saved, false),
    )[(false, ui_offsets()[i] + o)] == u32_le(saved[i])[o] by {
        assert(ui_plan(saved, false)[i].covers((false, ui_offsets()[i] + o)));
    }
}

/// The five UI values do not overlap.
proof fn lemma_ui_plan_disjoint(saved: Seq<u32>, hide: bool)
    requires
        saved.len() == 5,
    ensures
        pairwise_disjoint(ui_plan(saved, hide)),
{
    let r = ui_plan(saved, hide);
    assert forall|i: int, j: int, loc: (bool, int)|
        0 <= i < r.len() && 0 <= j < r.len() && i != j implies !(#[trigger] r[i].covers(loc)
        && #[trigger] r[j].covers(loc)) by {
        assert(ui_offsets()[0] == 0x291D1DC);
        assert(ui_offsets()[1] == 0x291D1D0);
        assert(ui_offsets()[2] == 0x291D1EC);
        assert(ui_offsets()[3] == 0x291D1E8);
        assert(ui_offsets()[4] == 0x291D1E4);
    }
}

/// After the pulse of the pause value, the value reads 0 again.
pub proof fn lemma_pause_pulse_ends_at_zero(addr: usize, mem: Memory)
    requires
        addr != 0,
    ensures
        apply_writes(mem, pause_pulse_plan(addr))[(true, addr as int)] == 0,
{
    let p = pause_pulse_plan(addr);
    assert(p.drop_last() =~= seq![p[0]]);
    assert(p.last().covers((true, addr as int)));
}

} // verus!
