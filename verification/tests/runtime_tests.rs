use riri_mod_tools::address::{get_memory_sections, MemorySection};
use riri_mod_tools::assembly_utils::{
    pop_xmm_for_fasm, preserve_microsoft_registers, push_xmm_for_fasm,
    retrieve_microsoft_registers, XmmRegister,
};
use riri_mod_tools::ensure_layout::EnsureLayout;
use riri_mod_tools::interleave::{
    decode_delta_dif, encode_delta_dif, InterleaveError, InterleaveErrorReason,
};
use riri_mod_tools::logger::{LogColor, LogLevel};
use riri_mod_tools::memory::MemoryImage;
use riri_mod_tools::mod_package::reloaded2::{DepedencyDataHashMap, DependencyConfig,
    DependencyData, GithubDependency, HashFileData};
use riri_mod_tools::mod_package::reloaded3::{Package, PackageType, R2Dependency,
    UpdateSourceData, ExtHookSettings, HookLibrary};
use riri_mod_tools::platform::Timestamp as PlatformTimestamp;
use riri_mod_tools::timestamp::{Timestamp, WriteTime};

#[test]
fn delta_coding_round_trip() {
    let original = vec![10u8, 12, 11, 11, 250, 0, 255, 7];
    let mut data = original.clone();
    encode_delta_dif(&mut data);
    // The first byte is kept; each later byte is the wrapping difference.
    assert_eq!(data[0], 10);
    assert_eq!(data[1], 2);
    assert_eq!(data[2], 255); // 11 - 12 wraps
    decode_delta_dif(&mut data);
    assert_eq!(data, original);
}

#[test]
fn delta_coding_of_a_run_is_sparse() {
    let mut data = vec![7u8; 16];
    encode_delta_dif(&mut data);
    assert_eq!(data[0], 7);
    assert!(data[1..].iter().all(|&b| b == 0));
}

#[test]
fn interleave_error_carries_its_reason() {
    let e = InterleaveError::new(16, 12, InterleaveErrorReason::StreamTooShort);
    assert_eq!(e.get_reason(), InterleaveErrorReason::StreamTooShort);
    assert_eq!(e.expected_size, 16);
    assert_eq!(e.actual_size, 12);
}

#[test]
fn log_color_packs_argb() {
    let c = LogColor::from_argb_u8(0x12, 0x34, 0x56, 0x78);
    assert_eq!(c.0, 0x12345678);
    assert_eq!(c.get_alpha(), 0x12);
    assert_eq!(c.get_red(), 0x34);
    assert_eq!(c.get_green(), 0x56);
    assert_eq!(c.get_blue(), 0x78);
    let opaque = LogColor::from_rgb_u8(0x32, 0xCD, 0x32);
    assert_eq!(opaque.0, 0xFF32CD32);
    assert_eq!(LogColor::from_argb_u32(0xFFF4A460).0, 0xFFF4A460);
}

#[test]
fn log_levels_pick_their_colors() {
    assert_eq!(LogLevel::Verbose.get_log_color().0, 0xFF32CD32);
    assert_eq!(LogLevel::Information.get_log_color().0, 0xFF32CD32);
    assert_eq!(LogLevel::Warning.get_log_color().0, 0xFFF4A460);
    assert_eq!(LogLevel::Error.get_log_color().0, 0xFFFF0000);
}

#[test]
fn xmm_save_restore_text() {
    assert_eq!(
        push_xmm_for_fasm(XmmRegister::Xmm0),
        "sub rsp, 16\nmovdqu dqword [rsp], xmm0\n"
    );
    assert_eq!(
        pop_xmm_for_fasm(XmmRegister::Xmm15),
        "movdqu xmm15, dqword [rsp]\nadd rsp, 16\n"
    );
    assert_eq!(
        preserve_microsoft_registers(),
        "push rcx\npush rdx\npush r8\npush r9\n"
    );
    assert_eq!(
        retrieve_microsoft_registers(),
        "pop r9\npop r8\npop rdx\npop rcx\n"
    );
    assert!(XmmRegister::try_from(15).is_ok());
    assert!(XmmRegister::try_from(16).is_err());
    assert_eq!(XmmRegister::Xmm9.index(), 9);
}

#[test]
fn section_table_is_read_from_the_headers() {
    // A minimal image: the legacy header points at the modern headers,
    // which declare one section 264 bytes in.
    let base: u64 = 0x140000000;
    let mut bytes = vec![0u8; 0x400];
    let nt_off: u32 = 0x80;
    bytes[0x3c..0x40].copy_from_slice(&nt_off.to_le_bytes());
    // Section count at the file header's sixth byte.
    bytes[(nt_off + 6) as usize..(nt_off + 8) as usize].copy_from_slice(&1u16.to_le_bytes());
    let sh = (nt_off as usize) + 264;
    bytes[sh..sh + 5].copy_from_slice(b".text");
    bytes[sh + 12..sh + 16].copy_from_slice(&0x1000u32.to_le_bytes());
    bytes[sh + 16..sh + 20].copy_from_slice(&0x2a0u32.to_le_bytes());
    let img = MemoryImage::new(base, bytes);
    let sections = get_memory_sections(&img).expect("the headers fit");
    assert_eq!(sections.len(), 1);
    let s: &MemorySection = &sections[0];
    assert_eq!(s.get_virtual_address(), base + 0x1000);
    assert_eq!(s.get_size(), 0x2a0);
    assert!(s.get_name().starts_with(".text"));
}

#[test]
fn truncated_headers_give_no_sections() {
    let img = MemoryImage::new(0x1000, vec![0u8; 0x10]);
    assert!(get_memory_sections(&img).is_none());
}

#[test]
fn platform_timestamp_reads_little_endian() {
    let mut b = vec![0u8; 8];
    b[0] = 0x44;
    b[1] = 0x33;
    b[2] = 0x22;
    b[3] = 0x11;
    let t = PlatformTimestamp::from_buffer(&b);
    assert_eq!(t.0, 0x11223344);
    assert!(t.is_before(0x11223345));
    assert!(!t.is_before(0x11223344));
}

#[test]
fn timestamp_table_updates_in_place() {
    let mut t = Timestamp::new();
    assert_eq!(t.get(1), None);
    t.insert(1, WriteTime(100));
    t.insert(2, WriteTime(200));
    t.insert(1, WriteTime(300));
    assert_eq!(t.get(1), Some(WriteTime(300)));
    assert_eq!(t.get(2), Some(WriteTime(200)));
    assert_eq!(t.entries.len(), 2);
}

#[test]
fn ensure_layout_getters_and_diagnostics() {
    let l = EnsureLayout::new(Some(0x30), None);
    assert_eq!(l.get_size(), Some(0x30));
    assert_eq!(l.get_align(), None);
    assert_eq!(
        EnsureLayout::fmt_invalid_identifer("first", "size"),
        "Name of first argument should be the identifier size"
    );
    assert_eq!(
        EnsureLayout::fmt_compile_constant("align"),
        "Identifier align must be a value known at compile time"
    );
}

#[test]
fn package_identity_prefers_the_loader_id() {
    let pkg = Package {
        Id: "riri.example".to_owned(),
        Reloaded2Id: Some("p3r.example".to_owned()),
        LoggerPrefix: None,
        Name: "Example".to_owned(),
        Author: "someone".to_owned(),
        Summary: None,
        PackageType: PackageType::Mod,
        DocsFile: None,
        Version: None,
        IsDependency: false,
        Tags: vec![],
        Credits: vec![],
        SourceUrl: None,
        ProjectUrl: None,
        ClientSide: true,
        Icon: "icon.png".to_owned(),
        Reloaded2Icon: None,
        SupportedGames: vec![],
        CargoImport: None,
        UpdateSourceData: None,
        R2Dependencies: vec![],
        HookSettings: ExtHookSettings {
            HookLibrary: HookLibrary::Reloaded2CSharpHooks,
            DefaultCallingConvention: "microsoft".to_owned(),
        },
    };
    assert_eq!(pkg.get_mod_id(), "p3r.example");
    assert_eq!(pkg.get_mod_name(), "Example");
    assert_eq!(pkg.get_release_metadata_name(), "p3r.example.ReleaseMetadata.json");
}

#[test]
fn dependency_metadata_name_defaults_from_the_id() {
    let dep = R2Dependency {
        Id: "reloaded.sharedlib.hooks".to_owned(),
        HasInterface: None,
        UpdateSourceData: None,
    };
    assert_eq!(
        dep.get_release_metadata_name(),
        "reloaded.sharedlib.hooks.ReleaseMetadata.json"
    );
    let dep2 = R2Dependency {
        Id: "x".to_owned(),
        HasInterface: None,
        UpdateSourceData: Some(UpdateSourceData {
            ReleaseMetadataName: Some("Custom.json".to_owned()),
            AssetFileName: None,
            Gamebanana: None,
            Github: None,
            Nexus: None,
        }),
    };
    assert_eq!(dep2.get_release_metadata_name(), "Custom.json");
    assert_eq!(
        dep2.UpdateSourceData.as_ref().unwrap().get_asset_file_name(),
        "Mod.zip"
    );
}

#[test]
fn dependency_table_replaces_by_identifier() {
    let mut map = DepedencyDataHashMap::new();
    assert!(map.is_empty());
    let gh = |tag: &str| DependencyData {
        Config: DependencyConfig::Github(GithubDependency {
            UserName: "someone".to_owned(),
            RepositoryName: tag.to_owned(),
            UseReleaseTag: false,
            AssetFileName: "Mod.zip".to_owned(),
        }),
        ReleaseMetadataName: "m.json".to_owned(),
    };
    assert!(map.insert("a".to_owned(), gh("one")).is_none());
    let replaced = map.insert("a".to_owned(), gh("two"));
    assert!(replaced.is_some());
    assert!(!map.is_empty());
    assert_eq!(map.IdToConfigMap.len(), 1);
}

#[test]
fn hash_file_records_named_digests() {
    let mut h = HashFileData::new("p3r.example".to_owned(), "Example".to_owned());
    h.add_entry("XRD759_STEAM_102".to_owned(), 0x1122334455667788);
    assert_eq!(h.executable_hash.len(), 1);
    assert_eq!(h.executable_hash[0].name, "XRD759_STEAM_102");
    assert_eq!(h.executable_hash[0].hash, 0x1122334455667788);
}
