use std::collections::HashMap;
use yakuza_freecam::common::{
    attach_writes, deattach_writes, get_version, key_pair, nop_bytes, patch_write,
    u32_to_le_bytes, Injection, Keys, MemoryWrite,
};

fn apply(mem: &mut HashMap<(bool, usize), u8>, writes: &[MemoryWrite]) {
    for w in writes {
        for (i, b) in w.bytes.iter().enumerate() {
            mem.insert((w.absolute, w.address + i), *b);
        }
    }
}

fn sample_injections() -> Vec<Injection> {
    vec![
        Injection { entry_point: 0x100, f_orig: vec![1, 2, 3], f_rep: vec![0x90, 0x90, 0x90] },
        Injection { entry_point: 0x200, f_orig: vec![4, 5], f_rep: vec![6, 7] },
    ]
}

#[test]
fn version_joins_both_parts() {
    assert_eq!(get_version(Some("0.3.1"), Some("abc123")), "0.3.1.abc123");
}

#[test]
fn version_missing_parts_read_unknown() {
    assert_eq!(get_version(None, None), "Unknown.Unknown");
    assert_eq!(get_version(Some("1.0"), None), "1.0.Unknown");
    assert_eq!(get_version(None, Some("deadbeef")), "Unknown.deadbeef");
}

#[test]
fn key_codes_are_ascii_capitals() {
    assert_eq!(Keys::A.code(), 0x41);
    assert_eq!(Keys::D.code(), 0x44);
    assert_eq!(Keys::E.code(), 0x45);
    assert_eq!(Keys::Q.code(), 0x51);
    assert_eq!(Keys::S.code(), 0x53);
    assert_eq!(Keys::W.code(), 0x57);
}

#[test]
fn key_pair_negative_wins() {
    assert_eq!(key_pair(false, false), 0);
    assert_eq!(key_pair(true, false), 1);
    assert_eq!(key_pair(false, true), -1);
    assert_eq!(key_pair(true, true), -1);
}

#[test]
fn little_endian_bytes() {
    assert_eq!(u32_to_le_bytes(0x12345678), vec![0x78, 0x56, 0x34, 0x12]);
    assert_eq!(u32_to_le_bytes(1), vec![1, 0, 0, 0]);
    assert_eq!(u32_to_le_bytes(0xFFFF_FFFF), vec![0xFF; 4]);
}

#[test]
fn nops_are_0x90() {
    assert_eq!(nop_bytes(0), Vec::<u8>::new());
    assert_eq!(nop_bytes(5), vec![0x90; 5]);
}

#[test]
fn deattach_raises_flag_and_applies_replacements() {
    let writes = deattach_writes(0x5000, &sample_injections());
    assert_eq!(writes.len(), 3);
    assert_eq!(writes[0].address, 0x51F0);
    assert!(writes[0].absolute);
    assert_eq!(writes[0].bytes, vec![1, 0, 0, 0]);
    assert_eq!(writes[1].address, 0x100);
    assert!(!writes[1].absolute);
    assert_eq!(writes[1].bytes, vec![0x90, 0x90, 0x90]);
    assert_eq!(writes[2].address, 0x200);
    assert_eq!(writes[2].bytes, vec![6, 7]);
}

#[test]
fn attach_lowers_flag_and_restores_originals() {
    let writes = attach_writes(0x5000, &sample_injections());
    assert_eq!(writes.len(), 3);
    assert_eq!(writes[0].address, 0x51F0);
    assert_eq!(writes[0].bytes, vec![0, 0, 0, 0]);
    assert_eq!(writes[1].bytes, vec![1, 2, 3]);
    assert_eq!(writes[2].bytes, vec![4, 5]);
}

#[test]
fn attach_undoes_deattach_on_memory() {
    let injections = sample_injections();
    let mut mem: HashMap<(bool, usize), u8> = HashMap::new();
    for o in 0..4 {
        mem.insert((true, 0x51F0 + o), 0);
    }
    for inj in &injections {
        for (i, b) in inj.f_orig.iter().enumerate() {
            mem.insert((false, inj.entry_point + i), *b);
        }
    }
    mem.insert((false, 0x150), 42);
    let before = mem.clone();
    apply(&mut mem, &deattach_writes(0x5000, &injections));
    assert_ne!(mem, before);
    assert_eq!(mem[&(false, 0x101)], 0x90);
    assert_eq!(mem[&(true, 0x51F0)], 1);
    apply(&mut mem, &attach_writes(0x5000, &injections));
    assert_eq!(mem, before);
}

#[test]
fn no_injections_only_flag() {
    let writes = deattach_writes(0, &Vec::new());
    assert_eq!(writes.len(), 1);
    assert_eq!(writes[0].address, 0x1F0);
}

#[test]
fn patch_write_picks_bytes() {
    let inj = Injection { entry_point: 0x42, f_orig: vec![1, 2], f_rep: vec![3, 4] };
    let on = patch_write(&inj, true);
    let off = patch_write(&inj, false);
    assert_eq!((on.address, on.absolute, on.bytes.clone()), (0x42, false, vec![3, 4]));
    assert_eq!((off.address, off.absolute, off.bytes.clone()), (0x42, false, vec![1, 2]));
}

#[test]
fn attach_after_deattach_same_as_attach_alone() {
    let injections = sample_injections();
    let mut mem: HashMap<(bool, usize), u8> = HashMap::new();
    for a in 0x0F0..0x210 {
        mem.insert((false, a), (a % 251) as u8);
    }
    mem.insert((true, 0x51F0), 9);
    let mut alone = mem.clone();
    apply(&mut alone, &attach_writes(0x5000, &injections));
    apply(&mut mem, &deattach_writes(0x5000, &injections));
    apply(&mut mem, &attach_writes(0x5000, &injections));
    assert_eq!(mem, alone);
    assert_eq!(mem[&(true, 0x51F0)], 0);
    assert_eq!(mem[&(false, 0x100)], 1);
    assert_eq!(mem[&(false, 0x201)], 5);
}
