//! Build IDs, code IDs, debug IDs and keys of shared objects.

use perf_convert::ids::{
    code_id_for_build_id, debug_id_for_build_id, BuildIds, DsoBuildId, DsoKey,
};
use perf_convert::profile::DebugId;
use perf_convert::records::CpuMode;

#[test]
fn code_id_is_the_build_id_in_hex() {
    assert_eq!(code_id_for_build_id(Some(&[0x0a, 0xff, 0x10])), Some("0aff10".to_string()));
    assert_eq!(code_id_for_build_id(Some(&[])), Some(String::new()));
    assert_eq!(code_id_for_build_id(None), None);
}

#[test]
fn debug_id_holds_the_start_of_the_build_id() {
    let build_id: Vec<u8> = (1u8..=20).collect();
    let expected: [u8; 16] = [1, 2, 3, 4, 5, 6, 7, 8, 9, 10, 11, 12, 13, 14, 15, 16];
    assert_eq!(
        debug_id_for_build_id(Some(&build_id), true),
        DebugId { guid: expected, age: 0 }
    );
}

#[test]
fn debug_id_of_a_big_endian_binary_swaps_the_fields() {
    let build_id: Vec<u8> = (1u8..=20).collect();
    let expected: [u8; 16] = [4, 3, 2, 1, 6, 5, 8, 7, 9, 10, 11, 12, 13, 14, 15, 16];
    assert_eq!(
        debug_id_for_build_id(Some(&build_id), false),
        DebugId { guid: expected, age: 0 }
    );
}

#[test]
fn short_build_id_is_filled_up_with_zeros() {
    let expected: [u8; 16] = [9, 8, 0, 0, 0, 0, 0, 0, 0, 0, 0, 0, 0, 0, 0, 0];
    assert_eq!(debug_id_for_build_id(Some(&[9, 8]), true), DebugId { guid: expected, age: 0 });
    let swapped: [u8; 16] = [0, 0, 8, 9, 0, 0, 0, 0, 0, 0, 0, 0, 0, 0, 0, 0];
    assert_eq!(debug_id_for_build_id(Some(&[9, 8]), false), DebugId { guid: swapped, age: 0 });
}

#[test]
fn debug_id_without_a_build_id_is_nil() {
    assert_eq!(debug_id_for_build_id(None, true), DebugId { guid: [0; 16], age: 0 });
}

#[test]
fn shared_objects_are_told_apart() {
    assert_eq!(
        DsoKey::detect(b"/usr/lib/libc.so.6", CpuMode::User),
        Some(DsoKey::User("libc.so.6".to_string(), b"/usr/lib/libc.so.6".to_vec()))
    );
    for mode in [CpuMode::Unknown, CpuMode::Kernel, CpuMode::User, CpuMode::Hypervisor] {
        assert_eq!(DsoKey::detect(b"[kernel.kallsyms]_text", mode), Some(DsoKey::Kernel));
    }
    assert_eq!(
        DsoKey::detect(b"[kernel.kallsyms]", CpuMode::GuestKernel),
        Some(DsoKey::GuestKernel)
    );
    assert_eq!(
        DsoKey::detect(b"/lib/modules/6.1/snd.ko", CpuMode::Kernel),
        Some(DsoKey::KernelModule("[snd]".to_string()))
    );
    assert_eq!(
        DsoKey::detect(b"/bin/sh", CpuMode::GuestUser),
        Some(DsoKey::User("sh".to_string(), b"/bin/sh".to_vec()))
    );
    assert_eq!(DsoKey::detect(b"[stack]", CpuMode::User), None);
    assert_eq!(DsoKey::detect(b"[vvar]", CpuMode::User), None);
    assert_eq!(
        DsoKey::detect(b"[guest.kernel.kallsyms]", CpuMode::GuestKernel),
        Some(DsoKey::GuestKernel)
    );
    assert_eq!(DsoKey::detect(b"[vdso]", CpuMode::User), Some(DsoKey::Vdso64));
    assert_eq!(DsoKey::detect(b"[vsyscall]", CpuMode::User), Some(DsoKey::Vsyscall));
    assert_eq!(DsoKey::detect(b"//anon", CpuMode::User), None);
    assert_eq!(DsoKey::detect(b"[heap]", CpuMode::User), None);
}

#[test]
fn shared_objects_have_names() {
    assert_eq!(DsoKey::Kernel.name(), "[kernel.kallsyms]");
    assert_eq!(DsoKey::GuestKernel.name(), "[guest.kernel.kallsyms]");
    assert_eq!(DsoKey::Vdso32.name(), "[vdso32]");
    assert_eq!(DsoKey::VdsoX32.name(), "[vdsox32]");
    assert_eq!(DsoKey::Vdso64.name(), "[vdso]");
    assert_eq!(DsoKey::Vsyscall.name(), "[vsyscall]");
    assert_eq!(DsoKey::KernelModule("[ext4]".to_string()).name(), "[ext4]");
    assert_eq!(DsoKey::User("a".to_string(), b"/b/a".to_vec()).name(), "a");
}

#[test]
fn names_are_those_of_the_reader() {
    let user = linux_perf_data::DsoKey::User("a".to_string(), b"/b/a".to_vec());
    assert_eq!(linux_perf_data::DsoKey::Kernel.name(), DsoKey::Kernel.name());
    assert_eq!(linux_perf_data::DsoKey::GuestKernel.name(), DsoKey::GuestKernel.name());
    assert_eq!(linux_perf_data::DsoKey::Vdso32.name(), DsoKey::Vdso32.name());
    assert_eq!(linux_perf_data::DsoKey::VdsoX32.name(), DsoKey::VdsoX32.name());
    assert_eq!(linux_perf_data::DsoKey::Vdso64.name(), DsoKey::Vdso64.name());
    assert_eq!(linux_perf_data::DsoKey::Vsyscall.name(), DsoKey::Vsyscall.name());
    assert_eq!(user.name(), "a");
}

fn entry(path: &[u8], build_id: &[u8]) -> DsoBuildId {
    DsoBuildId { path: path.to_vec(), build_id: build_id.to_vec() }
}

#[test]
fn build_ids_are_found_by_key() {
    let mut build_ids = BuildIds::new();
    assert_eq!(build_ids.get(&DsoKey::Kernel), None);
    build_ids.insert(DsoKey::Kernel, entry(b"/vmlinux", &[1]));
    build_ids.insert(DsoKey::User("a".to_string(), b"/a".to_vec()), entry(b"/a", &[2]));
    build_ids.insert(DsoKey::KernelModule("a".to_string()), entry(b"/a.ko", &[3]));
    assert_eq!(build_ids.get(&DsoKey::Kernel), Some(&entry(b"/vmlinux", &[1])));
    assert_eq!(
        build_ids.get(&DsoKey::User("a".to_string(), b"/a".to_vec())),
        Some(&entry(b"/a", &[2]))
    );
    assert_eq!(
        build_ids.get(&DsoKey::KernelModule("a".to_string())),
        Some(&entry(b"/a.ko", &[3]))
    );
    assert_eq!(build_ids.get(&DsoKey::User("a".to_string(), b"/b".to_vec())), None);
    assert_eq!(build_ids.get(&DsoKey::User("b".to_string(), b"/a".to_vec())), None);
    assert_eq!(build_ids.get(&DsoKey::GuestKernel), None);
}

#[test]
fn later_build_id_replaces_an_earlier_one() {
    let mut build_ids = BuildIds::new();
    build_ids.insert(DsoKey::Vdso64, entry(b"[vdso]", &[1]));
    build_ids.insert(DsoKey::Vdso64, entry(b"[vdso]", &[2]));
    assert_eq!(build_ids.get(&DsoKey::Vdso64), Some(&entry(b"[vdso]", &[2])));
}
