use vstd::prelude::*;

verus! {

/// The text that stands for a version part that was not provided at build time.
pub open spec fn version_part(part: Option<&str>) -> Seq<char> {
    match part {
        Some(s) => s@,
        None => "Unknown"@,
    }
}

/// The version text: the package version and the git version joined by a dot.
pub open spec fn version_text(cargo: Option<&str>, git: Option<&str>) -> Seq<char> {
    version_part(cargo) + "."@ + version_part(git)
}

/// Generate the current version of the executable from the package version
/// and the latest git version; a missing part reads `Unknown`.
pub fn get_version(cargo: Option<&str>, git: Option<&str>) -> (version: String)
    ensures
        version@ == version_text(cargo, git),
{
    let cargo_part: &str = match cargo {
        Some(s) => s,
        None => "Unknown",
    };
    let git_part: &str = match git {
        Some(s) => s,
        None => "Unknown",
    };
    let mut version = String::from_str(cargo_part);
    version.append(".");
    version.append(git_part);
    version
}


/// Keys that are not among the virtual keys of the Windows API.
#[derive(Clone, Copy, Debug, PartialEq, Eq)]
pub enum Keys {
    A,
    D,
    E,
    Q,
    S,
    W,
}

/// The virtual-key code of each key: its ASCII capital letter.
pub open spec fn key_code(key: Keys) -> i32 {
    match key {
        Keys::A => 0x41,
        Keys::D => 0x44,
        Keys::E => 0x45,
        Keys::Q => 0x51,
        Keys::S => 0x53,
        Keys::W => 0x57,
    }
}

impl Keys {
    /// The virtual-key code of the key.
    pub fn code(&self) -> (c: i32)
        ensures
            c == key_code(*self),
    {
        match self {
            Keys::A => 0x41,
            Keys::D => 0x44,
            Keys::E => 0x45,
            Keys::Q => 0x51,
            Keys::S => 0x53,
            Keys::W => 0x57,
        }
    }
}

/// The direction that a pair of opposite keys asks for: +1 when only the
/// positive key is down, -1 when the negative key is down (it is handled
/// last, so it wins when both are), 0 when neither is.
pub open spec fn spec_key_pair(positive: bool, negative: bool) -> i8 {
    if negative {
        -1i8
    } else if positive {
        1
    } else {
        0
    }
}

/// Resolve a pair of opposite keys into a direction.
pub fn key_pair(positive: bool, negative: bool) -> (direction: i8)
    ensures
        direction == spec_key_pair(positive, negative),
{
    let mut direction: i8 = 0;
    if positive {
        direction = 1;
    }
    if negative {
        direction = -1;
    }
    direction
}

/// An entry point relative to the executable, the original bytes (`f_orig`)
/// and the bytes to be injected (`f_rep`).
pub struct Injection {
    /// Entry point relative to the executable
    pub entry_point: usize,
    /// Original bytes
    pub f_orig: Vec<u8>,
    /// Bytes to be injected
    pub f_rep: Vec<u8>,
}

impl Injection {
    /// The range of module-relative addresses that the patch covers.
    pub open spec fn covers(self, address: int) -> bool {
        self.entry_point <= address < self.entry_point + self.f_orig@.len()
    }
}

/// A list of patches can be switched on and off: each patch replaces as many
/// bytes as it restores, and no two patches touch the same byte.
pub open spec fn injections_well_formed(injections: Seq<Injection>) -> bool {
    &&& forall|i: int|
        0 <= i < injections.len() ==> (#[trigger] injections[i]).f_orig@.len()
            == injections[i].f_rep@.len()
    &&& forall|i: int, j: int, a: int|
        0 <= i < injections.len() && 0 <= j < injections.len() && i != j
            ==> !(#[trigger] injections[i].covers(a) && #[trigger] injections[j].covers(a))
}

/// The patches match a table of (entry point, original bytes, replacement bytes).
pub open spec fn matches_table(injections: Seq<Injection>, table: Seq<(usize, Seq<u8>, Seq<u8>)>) -> bool {
    &&& injections.len() == table.len()
    &&& forall|i: int|
        0 <= i < table.len() ==> (#[trigger] injections[i]).entry_point == table[i].0
            && injections[i].f_orig@ == table[i].1 && injections[i].f_rep@ == table[i].2
}

/// `n` bytes of the x86 `nop` instruction.
pub open spec fn nops(n: nat) -> Seq<u8> {
    Seq::new(n, |i: int| 0x90u8)
}

/// `n` bytes of the x86 `nop` instruction, to blank out code.
pub fn nop_bytes(n: usize) -> (bytes: Vec<u8>)
    ensures
        bytes@ == nops(n as nat),
{
    let mut bytes: Vec<u8> = Vec::new();
    for i in 0..n
        invariant
            bytes@ == nops(i as nat),
    {
        bytes.push(0x90);
        assert(bytes@ =~= nops((i + 1) as nat));
    }
    bytes
}

/// One write into the game's memory: `bytes` at `address`, which is absolute
/// or relative to the game's module base.
pub struct MemoryWrite {
    pub address: usize,
    pub bytes: Vec<u8>,
    pub absolute: bool,
}

/// The mathematical content of a memory write.
pub struct WriteModel {
    pub absolute: bool,
    pub address: int,
    pub bytes: Seq<u8>,
}

impl View for MemoryWrite {
    type V = WriteModel;

    open spec fn view(&self) -> WriteModel {
        WriteModel { absolute: self.absolute, address: self.address as int, bytes: self.bytes@ }
    }
}

/// A location in the game's memory: whether the address is absolute, and the address.
pub type Location = (bool, int);

/// The memory of the game, byte by byte.
pub type Memory = Map<Location, u8>;

impl WriteModel {
    pub open spec fn covers(self, loc: Location) -> bool {
        loc.0 == self.absolute && self.address <= loc.1 < self.address + self.bytes.len()
    }

    pub open spec fn byte_at(self, loc: Location) -> u8 {
        self.bytes[loc.1 - self.address]
    }
}

/// Memory after one write.
pub open spec fn apply_write(mem: Memory, w: WriteModel) -> Memory {
    Map::new(
        |loc: Location| mem.dom().contains(loc) || w.covers(loc),
        |loc: Location|
            if w.covers(loc) {
                w.byte_at(loc)
            } else {
                mem[loc]
            },
    )
}

/// Memory after a sequence of writes, performed in order.
pub open spec fn apply_writes(mem: Memory, ws: Seq<WriteModel>) -> Memory
    decreases ws.len(),
{
    if ws.len() == 0 {
        mem
    } else {
        apply_write(apply_writes(mem, ws.drop_last()), ws.last())
    }
}

/// The four bytes of a 32-bit value, least significant first, as the x86
/// targets of the tool store it.
pub open spec fn u32_le(v: u32) -> Seq<u8> {
    seq![
        (v % 256) as u8,
        ((v / 256) % 256) as u8,
        ((v / 65536) % 256) as u8,
        ((v / 16777216) % 256) as u8,
    ]
}

/// The bytes of a 32-bit value, least significant first.
pub fn u32_to_le_bytes(v: u32) -> (bytes: Vec<u8>)
    ensures
        bytes@ == u32_le(v),
{
    let mut bytes: Vec<u8> = Vec::new();
    bytes.push((v % 256) as u8);
    bytes.push(((v / 256) % 256) as u8);
    bytes.push(((v / 65536) % 256) as u8);
    bytes.push(((v / 16777216) % 256) as u8);
    assert(bytes@ =~= u32_le(v));
    bytes
}

/// Offset, from the data block of the camera hook, of the flag that tells
/// the hook whether the free camera is on.
pub const CAMERA_FLAG_OFFSET: usize = 0x1F0;

/// The write of the camera flag.
pub open spec fn flag_write(data_base_addr: int, value: u32) -> WriteModel {
    WriteModel { absolute: true, address: data_base_addr + 0x1F0, bytes: u32_le(value) }
}

/// The writes that switch the free camera on: the flag set to 1, then every
/// patch with its replacement bytes.
pub open spec fn deattach_plan(data_base_addr: int, injections: Seq<Injection>) -> Seq<WriteModel> {
    seq![flag_write(data_base_addr, 1)] + Seq::new(
        injections.len(),
        |i: int|
            WriteModel {
                absolute: false,
                address: injections[i].entry_point as int,
                bytes: injections[i].f_rep@,
            },
    )
}

/// The writes that give the camera back to the game: the flag set to 0,
/// then every patch with its original bytes.
pub open spec fn attach_plan(data_base_addr: int, injections: Seq<Injection>) -> Seq<WriteModel> {
    seq![flag_write(data_base_addr, 0)] + Seq::new(
        injections.len(),
        |i: int|
            WriteModel {
                absolute: false,
                address: injections[i].entry_point as int,
                bytes: injections[i].f_orig@,
            },
    )
}

/// The writes as models.
pub open spec fn writes_view(writes: Seq<MemoryWrite>) -> Seq<WriteModel> {
    writes.map_values(|w: MemoryWrite| w@)
}

/// The write that applies a patch (its replacement bytes) or takes it back
/// (its original bytes), relative to the game's module.
pub open spec fn patch_write_model(injection: Injection, applied: bool) -> WriteModel {
    WriteModel {
        absolute: false,
        address: injection.entry_point as int,
        bytes: if applied {
            injection.f_rep@
        } else {
            injection.f_orig@
        },
    }
}

/// The write that applies one patch or takes it back.
pub fn patch_write(injection: &Injection, applied: bool) -> (write: MemoryWrite)
    ensures
        write@ == patch_write_model(*injection, applied),
        write.address == injection.entry_point,
        !write.absolute,
        applied ==> write.bytes@ == injection.f_rep@,
        !applied ==> write.bytes@ == injection.f_orig@,
{
    let bytes = if applied {
        injection.f_rep.clone()
    } else {
        injection.f_orig.clone()
    };
    assert(bytes@ =~= if applied { injection.f_rep@ } else { injection.f_orig@ });
    MemoryWrite { address: injection.entry_point, bytes, absolute: false }
}

/// Applying a patch and taking it back leaves the game's memory as it was,
/// when the patch replaces as many bytes as it restores and the memory held
/// the original bytes.
pub proof fn lemma_patch_toggle_restores(injection: Injection, mem: Memory)
    requires
        injection.f_orig@.len() == injection.f_rep@.len(),
        holds_writes(mem, seq![patch_write_model(injection, false)]),
    ensures
        apply_writes(
            apply_writes(mem, seq![patch_write_model(injection, true)]),
            seq![patch_write_model(injection, false)],
        ) == mem,
{
    lemma_restore(
        mem,
        seq![patch_write_model(injection, true)],
        seq![patch_write_model(injection, false)],
    );
}

fn camera_writes(data_base_addr: usize, flag: u32, injections: &Vec<Injection>, replace: bool) -> (writes: Vec<MemoryWrite>)
    requires
        data_base_addr + CAMERA_FLAG_OFFSET <= usize::MAX,
    ensures
        writes@.len() == injections@.len() + 1,
        writes@[0]@ == flag_write(data_base_addr as int, flag),
        forall|i: int|
            0 <= i < injections@.len() ==> (#[trigger] writes@[i + 1])@ == (WriteModel {
                absolute: false,
                address: injections@[i].entry_point as int,
                bytes: if replace { injections@[i].f_rep@ } else { injections@[i].f_orig@ },
            }),
{
    let mut writes: Vec<MemoryWrite> = Vec::new();
    writes.push(
        MemoryWrite {
            address: data_base_addr + CAMERA_FLAG_OFFSET,
            bytes: u32_to_le_bytes(flag),
            absolute: true,
        },
    );
    let n = injections.len();
    for i in 0..n
        invariant
            n == injections@.len(),
            writes@.len() == i + 1,
            writes@[0]@ == flag_write(data_base_addr as int, flag),
            forall|j: int|
                0 <= j < i ==> (#[trigger] writes@[j + 1])@ == (WriteModel {
                    absolute: false,
                    address: injections@[j].entry_point as int,
                    bytes: if replace { injections@[j].f_rep@ } else { injections@[j].f_orig@ },
                }),
    {
        let injection = &injections[i];
        let bytes = if replace {
            injection.f_rep.clone()
        } else {
            injection.f_orig.clone()
        };
        assert(bytes@ =~= if replace { injection.f_rep@ } else { injection.f_orig@ });
        writes.push(MemoryWrite { address: injection.entry_point, bytes, absolute: false });
    }
    writes
}

/// The writes that switch the free camera on: the hook's flag at
/// `data_base_addr + 0x1F0` becomes 1 and every patch is written with its
/// replacement bytes, in the order of `injections`.
pub fn deattach_writes(data_base_addr: usize, injections: &Vec<Injection>) -> (writes: Vec<MemoryWrite>)
    requires
        data_base_addr + CAMERA_FLAG_OFFSET <= usize::MAX,
    ensures
        writes_view(writes@) == deattach_plan(data_base_addr as int, injections@),
        writes@.len() == injections@.len() + 1,
        writes@[0].address == data_base_addr + 0x1F0,
        writes@[0].absolute,
        writes@[0].bytes@ == seq![1u8, 0, 0, 0],
        forall|i: int|
            0 <= i < injections@.len() ==> (#[trigger] writes@[i + 1]).address
                == injections@[i].entry_point && !writes@[i + 1].absolute && writes@[i
                + 1].bytes@ == injections@[i].f_rep@,
{
    let writes = camera_writes(data_base_addr, 1, injections, true);
    assert(u32_le(1) =~= seq![1u8, 0, 0, 0]);
    assert(writes_view(writes@) =~= deattach_plan(data_base_addr as int, injections@)) by {
        assert forall|i: int| 0 <= i < writes@.len() implies writes_view(writes@)[i]
            == deattach_plan(data_base_addr as int, injections@)[i] by {
            if i > 0 {
                assert(writes@[(i - 1) + 1] == writes@[i]);
            }
        }
    }
    writes
}

/// The writes that give the camera back to the game: the hook's flag at
/// `data_base_addr + 0x1F0` becomes 0 and every patch is written with its
/// original bytes, in the order of `injections`.
pub fn attach_writes(data_base_addr: usize, injections: &Vec<Injection>) -> (writes: Vec<MemoryWrite>)
    requires
        data_base_addr + CAMERA_FLAG_OFFSET <= usize::MAX,
    ensures
        writes_view(writes@) == attach_plan(data_base_addr as int, injections@),
        writes@.len() == injections@.len() + 1,
        writes@[0].address == data_base_addr + 0x1F0,
        writes@[0].absolute,
        writes@[0].bytes@ == seq![0u8, 0, 0, 0],
        forall|i: int|
            0 <= i < injections@.len() ==> (#[trigger] writes@[i + 1]).address
                == injections@[i].entry_point && !writes@[i + 1].absolute && writes@[i
                + 1].bytes@ == injections@[i].f_orig@,
{
    let writes = camera_writes(data_base_addr, 0, injections, false);
    assert(u32_le(0) =~= seq![0u8, 0, 0, 0]);
    assert(writes_view(writes@) =~= attach_plan(data_base_addr as int, injections@)) by {
        assert forall|i: int| 0 <= i < writes@.len() implies writes_view(writes@)[i]
            == attach_plan(data_base_addr as int, injections@)[i] by {
            if i > 0 {
                assert(writes@[(i - 1) + 1] == writes@[i]);
            }
        }
    }
    writes
}


proof fn lemma_apply_uncovered(mem: Memory, ws: Seq<WriteModel>, loc: Location)
    requires
        forall|i: int| 0 <= i < ws.len() ==> !(#[trigger] ws[i]).covers(loc),
    ensures
        apply_writes(mem, ws).dom().contains(loc) == mem.dom().contains(loc),
        mem.dom().contains(loc) ==> apply_writes(mem, ws)[loc] == mem[loc],
    decreases ws.len(),
{
    if ws.len() > 0 {
        let init = ws.drop_last();
        assert forall|i: int| 0 <= i < init.len() implies !(#[trigger] init[i]).covers(loc) by {
            assert(init[i] == ws[i]);
        }
        lemma_apply_uncovered(mem, init, loc);
        assert(!ws[ws.len() - 1].covers(loc));
    }
}

proof fn lemma_apply_covered_once(mem: Memory, ws: Seq<WriteModel>, loc: Location, j: int)
    requires
        0 <= j < ws.len(),
        ws[j].covers(loc),
        forall|i: int| 0 <= i < ws.len() && i != j ==> !(#[trigger] ws[i]).covers(loc),
    ensures
        apply_writes(mem, ws).dom().contains(loc),
        apply_writes(mem, ws)[loc] == ws[j].byte_at(loc),
    decreases ws.len(),
{
    let init = ws.drop_last();
    if j < ws.len() - 1 {
        assert forall|i: int| 0 <= i < init.len() && i != j implies !(#[trigger] init[i]).covers(
            loc,
        ) by {
            assert(init[i] == ws[i]);
        }
        assert(init[j] == ws[j]);
        lemma_apply_covered_once(mem, init, loc, j);
        assert(!ws[ws.len() - 1].covers(loc));
    }
}

/// The game's memory holds what the patches expect before the camera is
/// switched on: the hook's flag is 0 and every patched range holds its
/// original bytes.
pub open spec fn holds_original(mem: Memory, data_base_addr: int, injections: Seq<Injection>) -> bool {
    &&& forall|o: int|
        0 <= o < 4 ==> #[trigger] mem.dom().contains((true, data_base_addr + 0x1F0 + o)) && mem[(
            true,
            data_base_addr + 0x1F0 + o,
        )] == 0
    &&& forall|i: int, a: int|
        0 <= i < injections.len() && #[trigger] injections[i].covers(a) ==> mem.dom().contains(
            (false, a),
        ) && mem[(false, a)] == injections[i].f_orig@[a - injections[i].entry_point]
}

/// Two write lists aim at the same places: same length, and at each index
/// the same kind of address, the same address and as many bytes.
pub open spec fn same_targets(w1: Seq<WriteModel>, w2: Seq<WriteModel>) -> bool {
    &&& w1.len() == w2.len()
    &&& forall|i: int|
        0 <= i < w1.len() ==> (#[trigger] w1[i]).absolute == w2[i].absolute && w1[i].address
            == w2[i].address && w1[i].bytes.len() == w2[i].bytes.len()
}

/// No two writes of the list touch the same location.
pub open spec fn pairwise_disjoint(ws: Seq<WriteModel>) -> bool {
    forall|i: int, j: int, loc: Location|
        0 <= i < ws.len() && 0 <= j < ws.len() && i != j ==> !(#[trigger] ws[i].covers(loc)
            && #[trigger] ws[j].covers(loc))
}

/// The memory already holds every byte that the writes would write.
pub open spec fn holds_writes(mem: Memory, ws: Seq<WriteModel>) -> bool {
    forall|i: int, loc: Location|
        0 <= i < ws.len() && #[trigger] ws[i].covers(loc) ==> mem.dom().contains(loc) && mem[loc]
            == ws[i].byte_at(loc)
}

/// After writes that do not overlap, memory holds every byte that was written.
pub proof fn lemma_apply_holds(mem: Memory, ws: Seq<WriteModel>)
    requires
        pairwise_disjoint(ws),
    ensures
        holds_writes(apply_writes(mem, ws), ws),
{
    assert forall|i: int, loc: Location| 0 <= i < ws.len() && #[trigger] ws[i].covers(loc) implies apply_writes(
        mem,
        ws,
    ).dom().contains(loc) && apply_writes(mem, ws)[loc] == ws[i].byte_at(loc) by {
        assert forall|k: int| 0 <= k < ws.len() && k != i implies !(#[trigger] ws[k]).covers(
            loc,
        ) by {}
        lemma_apply_covered_once(mem, ws, loc, i);
    }
}

/// Writes that do not overlap change nothing in a memory that already holds
/// what they write.
pub proof fn lemma_apply_held(mem: Memory, ws: Seq<WriteModel>)
    requires
        pairwise_disjoint(ws),
        holds_writes(mem, ws),
    ensures
        apply_writes(mem, ws) == mem,
{
    let m = apply_writes(mem, ws);
    assert forall|loc: Location|
        #![trigger m.dom().contains(loc)]
        #![trigger mem.dom().contains(loc)]
        #![trigger m[loc]]
        m.dom().contains(loc) == mem.dom().contains(loc) && (mem.dom().contains(loc) ==> m[loc]
            == mem[loc]) by {
        if exists|j: int| 0 <= j < ws.len() && #[trigger] ws[j].covers(loc) {
            let j = choose|j: int| 0 <= j < ws.len() && #[trigger] ws[j].covers(loc);
            assert forall|i: int| 0 <= i < ws.len() && i != j implies !(#[trigger] ws[i]).covers(
                loc,
            ) by {}
            lemma_apply_covered_once(mem, ws, loc, j);
        } else {
            assert forall|i: int| 0 <= i < ws.len() implies !(#[trigger] ws[i]).covers(loc) by {}
            lemma_apply_uncovered(mem, ws, loc);
        }
    }
    assert(m.dom() =~= mem.dom());
    assert(m =~= mem);
}

/// Writing `w1` and then `w2` over the same places leaves the memory as
/// writing `w2` alone would: nothing of `w1` shows through.
pub proof fn lemma_overwrite(mem: Memory, w1: Seq<WriteModel>, w2: Seq<WriteModel>)
    requires
        same_targets(w1, w2),
        pairwise_disjoint(w2),
    ensures
        apply_writes(apply_writes(mem, w1), w2) == apply_writes(mem, w2),
{
    let m1 = apply_writes(mem, w1);
    let m2 = apply_writes(m1, w2);
    let m3 = apply_writes(mem, w2);
    assert forall|i: int, loc: Location| 0 <= i < w2.len() implies #[trigger] w2[i].covers(loc)
        == w1[i].covers(loc) by {
        assert(w1[i].absolute == w2[i].absolute);
    }
    assert forall|loc: Location|
        #![trigger m2.dom().contains(loc)]
        #![trigger m3.dom().contains(loc)]
        #![trigger m2[loc]]
        m2.dom().contains(loc) == m3.dom().contains(loc) && (m3.dom().contains(loc) ==> m2[loc]
            == m3[loc]) by {
        if exists|j: int| 0 <= j < w2.len() && #[trigger] w2[j].covers(loc) {
            let j = choose|j: int| 0 <= j < w2.len() && #[trigger] w2[j].covers(loc);
            assert forall|i: int| 0 <= i < w2.len() && i != j implies !(#[trigger] w2[i]).covers(
                loc,
            ) by {}
            lemma_apply_covered_once(m1, w2, loc, j);
            lemma_apply_covered_once(mem, w2, loc, j);
        } else {
            assert forall|i: int| 0 <= i < w1.len() implies !(#[trigger] w1[i]).covers(loc) by {
                assert(!w2[i].covers(loc));
            }
            lemma_apply_uncovered(mem, w1, loc);
            assert forall|i: int| 0 <= i < w2.len() implies !(#[trigger] w2[i]).covers(loc) by {}
            lemma_apply_uncovered(m1, w2, loc);
            lemma_apply_uncovered(mem, w2, loc);
        }
    }
    assert(m2.dom() =~= m3.dom());
    assert(m2 =~= m3);
}

/// Writing `w1` and then `w2` over the same places gives the memory back
/// when it already held what `w2` writes.
pub proof fn lemma_restore(mem: Memory, w1: Seq<WriteModel>, w2: Seq<WriteModel>)
    requires
        same_targets(w1, w2),
        pairwise_disjoint(w2),
        holds_writes(mem, w2),
    ensures
        apply_writes(apply_writes(mem, w1), w2) == mem,
{
    lemma_overwrite(mem, w1, w2);
    lemma_apply_held(mem, w2);
}

/// For well-formed patches, the writes that switch the camera on and those
/// that switch it off aim at the same places, and neither list overlaps itself.
pub proof fn lemma_plans_well_formed(data_base_addr: int, injections: Seq<Injection>)
    requires
        injections_well_formed(injections),
    ensures
        same_targets(deattach_plan(data_base_addr, injections), attach_plan(data_base_addr, injections)),
        pairwise_disjoint(deattach_plan(data_base_addr, injections)),
        pairwise_disjoint(attach_plan(data_base_addr, injections)),
{
    let d = deattach_plan(data_base_addr, injections);
    let a = attach_plan(data_base_addr, injections);
    assert forall|i: int| 0 <= i < d.len() implies (#[trigger] d[i]).absolute == a[i].absolute
        && d[i].address == a[i].address && d[i].bytes.len() == a[i].bytes.len() by {
        if i > 0 {
            assert(injections[i - 1].f_orig@.len() == injections[i - 1].f_rep@.len());
        }
    }
    assert forall|i: int, j: int, loc: Location|
        0 <= i < a.len() && 0 <= j < a.len() && i != j implies !(#[trigger] a[i].covers(loc)
        && #[trigger] a[j].covers(loc)) by {
        if i > 0 && j > 0 {
            assert(injections[i - 1].covers(loc.1) ==> !injections[j - 1].covers(loc.1));
        }
    }
    assert forall|i: int, j: int, loc: Location|
        0 <= i < d.len() && 0 <= j < d.len() && i != j implies !(#[trigger] d[i].covers(loc)
        && #[trigger] d[j].covers(loc)) by {
        if i > 0 && j > 0 {
            assert(injections[i - 1].f_orig@.len() == injections[i - 1].f_rep@.len());
            assert(injections[j - 1].f_orig@.len() == injections[j - 1].f_rep@.len());
            assert(injections[i - 1].covers(loc.1) ==> !injections[j - 1].covers(loc.1));
        }
    }
}

/// Switching the free camera on and then off again leaves the game's memory
/// as it was: every patch gets its original bytes back and the hook's flag
/// returns to 0.
pub proof fn lemma_attach_undoes_deattach(
    data_base_addr: usize,
    injections: Seq<Injection>,
    mem: Memory,
)
    requires
        injections_well_formed(injections),
        holds_original(mem, data_base_addr as int, injections),
    ensures
        apply_writes(
            apply_writes(mem, deattach_plan(data_base_addr as int, injections)),
            attach_plan(data_base_addr as int, injections),
        ) == mem,
{
    let base = data_base_addr as int;
    let a = attach_plan(base, injections);
    lemma_plans_well_formed(base, injections);
    assert forall|i: int, loc: Location| 0 <= i < a.len() && #[trigger] a[i].covers(loc) implies mem.dom().contains(
        loc,
    ) && mem[loc] == a[i].byte_at(loc) by {
        if i > 0 {
            assert(injections[i - 1].covers(loc.1));
        } else {
            assert(u32_le(0)[loc.1 - (base + 0x1F0)] == 0);
            assert(loc == (true, base + 0x1F0 + (loc.1 - (base + 0x1F0))));
        }
    }
    lemma_restore(mem, deattach_plan(base, injections), a);
}

/// Switching the free camera on leaves the hook's flag at 1 and every patch
/// range holding its replacement bytes, whatever the memory held before.
pub proof fn lemma_deattach_installs_patches(
    data_base_addr: usize,
    injections: Seq<Injection>,
    mem: Memory,
)
    requires
        injections_well_formed(injections),
    ensures
        holds_writes(
            apply_writes(mem, deattach_plan(data_base_addr as int, injections)),
            deattach_plan(data_base_addr as int, injections),
        ),
{
    lemma_plans_well_formed(data_base_addr as int, injections);
    lemma_apply_holds(mem, deattach_plan(data_base_addr as int, injections));
}

/// Switching the camera on and then off leaves, whatever the memory held
/// before, the same memory as switching it off alone: the four bytes of the
/// hook's flag are 0 and every patch range holds its original bytes.
pub proof fn lemma_attach_after_deattach(
    data_base_addr: usize,
    injections: Seq<Injection>,
    mem: Memory,
)
    requires
        injections_well_formed(injections),
    ensures
        apply_writes(
            apply_writes(mem, deattach_plan(data_base_addr as int, injections)),
            attach_plan(data_base_addr as int, injections),
        ) == apply_writes(mem, attach_plan(data_base_addr as int, injections)),
        forall|o: int|
            0 <= o < 4 ==> #[trigger] apply_writes(
                apply_writes(mem, deattach_plan(data_base_addr as int, injections)),
                attach_plan(data_base_addr as int, injections),
            )[(true, data_base_addr + 0x1F0 + o)] == 0,
        forall|i: int, a: int|
            0 <= i < injections.len() && #[trigger] injections[i].covers(a) ==> apply_writes(
                apply_writes(mem, deattach_plan(data_base_addr as int, injections)),
                attach_plan(data_base_addr as int, injections),
            )[(false, a)] == injections[i].f_orig@[a - injections[i].entry_point],
{
    let base = data_base_addr as int;
    let d = deattach_plan(base, injections);
    let a = attach_plan(base, injections);
    let m = apply_writes(apply_writes(mem, d), a);
    lemma_plans_well_formed(base, injections);
    lemma_overwrite(mem, d, a);
    lemma_apply_holds(mem, a);
    assert forall|o: int| 0 <= o < 4 implies #[trigger] m[(true, base + 0x1F0 + o)] == 0 by {
        assert(a[0].covers((true, base + 0x1F0 + o)));
        assert(u32_le(0)[o] == 0);
    }
    assert forall|i: int, x: int|
        0 <= i < injections.len() && #[trigger] injections[i].covers(x) implies m[(false, x)]
        == injections[i].f_orig@[x - injections[i].entry_point] by {
        assert(a[i + 1].covers((false, x)));
    }
}

/// After the writes that switch the camera on, whatever the memory held
/// before, the four bytes of the hook's flag read 1, 0, 0, 0 and every byte of
/// every patch range holds that patch's replacement byte.
pub proof fn lemma_deattach_writes_replacements(
    data_base_addr: usize,
    injections: Seq<Injection>,
    mem: Memory,
)
    requires
        injections_well_formed(injections),
    ensures
        forall|o: int|
            0 <= o < 4 ==> #[trigger] apply_writes(
                mem,
                deattach_plan(data_base_addr as int, injections),
            )[(true, data_base_addr + 0x1F0 + o)] == seq![1u8, 0, 0, 0][o],
        forall|i: int, a: int|
            0 <= i < injections.len() && #[trigger] injections[i].covers(a) ==> apply_writes(
                mem,
                deattach_plan(data_base_addr as int, injections),
            )[(false, a)] == injections[i].f_rep@[a - injections[i].entry_point],
{
    let base = data_base_addr as int;
    let d = deattach_plan(base, injections);
    let m = apply_writes(mem, d);
    lemma_deattach_installs_patches(data_base_addr, injections, mem);
    assert(u32_le(1) =~= seq![1u8, 0, 0, 0]);
    assert forall|o: int| 0 <= o < 4 implies #[trigger] m[(true, base + 0x1F0 + o)] == seq![
        1u8,
        0,
        0,
        0,
    ][o] by {
        assert(d[0].covers((true, base + 0x1F0 + o)));
    }
    assert forall|i: int, x: int|
        0 <= i < injections.len() && #[trigger] injections[i].covers(x) implies m[(false, x)]
        == injections[i].f_rep@[x - injections[i].entry_point] by {
        assert(injections[i].f_orig@.len() == injections[i].f_rep@.len());
        assert(d[i + 1].covers((false, x)));
    }
}

/// A pair of opposite keys: the positive key alone gives +1, the negative
/// key gives -1 whether or not the positive one is down, and no key gives 0.
pub proof fn lemma_key_pair(positive: bool, negative: bool)
    ensures
        positive && !negative ==> spec_key_pair(positive, negative) == 1,
        negative ==> spec_key_pair(positive, negative) == -1,
        !positive && !negative ==> spec_key_pair(positive, negative) == 0,
{
}

/// The four bytes of a 32-bit value, least significant first, put back
/// together give the value.
pub proof fn lemma_u32_le_value(v: u32)
    ensures
        u32_le(v).len() == 4,
        u32_le(v)[0] + 256 * u32_le(v)[1] + 65536 * u32_le(v)[2] + 16777216 * u32_le(v)[3] == v,
{
    assert(u32_le(v)[0] == v % 256);
    assert(u32_le(v)[1] == (v / 256) % 256);
    assert(u32_le(v)[2] == (v / 65536) % 256);
    assert(u32_le(v)[3] == (v / 16777216) % 256);
    assert(v / 16777216 < 256);
}

/// The version text is the package version, a dot, then the git version,
/// each read as `Unknown` when it was not provided.
pub proof fn lemma_version_layout(cargo: Option<&str>, git: Option<&str>)
    ensures
        version_text(cargo, git).len() == version_part(cargo).len() + 1 + version_part(git).len(),
        version_text(cargo, git).subrange(0, version_part(cargo).len() as int) == version_part(
            cargo,
        ),
        version_text(cargo, git)[version_part(cargo).len() as int] == '.',
        version_text(cargo, git).subrange(
            version_part(cargo).len() + 1int,
            version_text(cargo, git).len() as int,
        ) == version_part(git),
        cargo matches Some(c) ==> version_part(cargo) == c@,
        git matches Some(g) ==> version_part(git) == g@,
        cargo is None ==> version_part(cargo) == seq!['U', 'n', 'k', 'n', 'o', 'w', 'n'],
        git is None ==> version_part(git) == seq!['U', 'n', 'k', 'n', 'o', 'w', 'n'],
{
    reveal_strlit(".");
    reveal_strlit("Unknown");
    let c = version_part(cargo);
    let g = version_part(git);
    let t = version_text(cargo, git);
    assert(t.subrange(0, c.len() as int) =~= c);
    assert(t.subrange(c.len() + 1int, t.len() as int) =~= g);
    assert("Unknown"@ =~= seq!['U', 'n', 'k', 'n', 'o', 'w', 'n']);
}

/// Each key's code is the ASCII code of its capital letter.
pub proof fn lemma_key_codes()
    ensures
        key_code(Keys::A) == 'A' as i32,
        key_code(Keys::D) == 'D' as i32,
        key_code(Keys::E) == 'E' as i32,
        key_code(Keys::Q) == 'Q' as i32,
        key_code(Keys::S) == 'S' as i32,
        key_code(Keys::W) == 'W' as i32,
{
}

/// A run of `n` no-operation bytes is `n` bytes long and each is 0x90.
pub proof fn lemma_nops(n: nat)
    ensures
        nops(n).len() == n,
        forall|i: int| 0 <= i < n ==> #[trigger] nops(n)[i] == 0x90u8,
{
}

} // verus!
